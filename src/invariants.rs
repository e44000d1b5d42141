//! What holds of every run of the ledger, proved over the contracts of its
//! operations.
use vstd::prelude::*;
use crate::ledger::{
    claimed_at, id_bytes, is_opened, open_error, refunded_at, ClaimGift, EscrowError, EscrowState,
    InitializeGift, Ledger, RefundGift, MAX_GIFT_ID_LEN,
};

verus! {

/// A deposit with a valid id, a positive amount and a funding account of the
/// sender that holds enough of the mint is accepted once both addresses are
/// derived, and the record it opens is unclaimed with the whole amount in its
/// vault.
pub proof fn lemma_deposit_opens_funded_record(
    ctx: InitializeGift,
    id: Seq<char>,
    amount: u64,
    recipient: Seq<u8>,
    authority: (Seq<u8>, u8),
    vault: (Seq<u8>, u8),
    s: EscrowState,
)
    requires
        id_bytes(id).len() <= MAX_GIFT_ID_LEN,
        amount > 0,
        ctx.sender_token_account.owner@ == ctx.sender@,
        ctx.sender_token_account.mint@ == ctx.mint@,
        ctx.sender_token_account.amount >= amount,
    ensures
        open_error(ctx, id, amount, Some(authority), Some(vault)) is None,
        is_opened(s, ctx, id, amount, recipient, authority, vault.0) ==> {
            &&& !s.claimed
            &&& !s.is_resolved()
            &&& s.spec_vault_balance() == amount
        },
{
}

/// After a successful claim, no claim or refund succeeds any more and the
/// vault stays empty; one made by the right party with the right accounts is
/// refused as already claimed.
pub proof fn lemma_claim_is_final(
    s: EscrowState,
    program: Seq<u8>,
    first: ClaimGift,
    next_claim: ClaimGift,
    next_refund: RefundGift,
)
    requires
        s.claim_error(first, s.authority_of(program)) is None,
    ensures
        s.after_claim().spec_vault_balance() == 0,
        s.after_claim().claim_error(next_claim, s.after_claim().authority_of(program)) is Some,
        s.after_claim().refund_error(next_refund, s.after_claim().authority_of(program)) is Some,
        next_claim.recipient@ == s.recipient@ && next_claim.vault@ == s.vault@
            && next_claim.recipient_token_account.owner@ == next_claim.recipient@
            && next_claim.recipient_token_account.mint@ == s.mint@ ==> s.after_claim().claim_error(
            next_claim,
            s.after_claim().authority_of(program),
        ) == Some(EscrowError::AlreadyClaimed),
        next_refund.sender@ == s.sender@ && next_refund.vault@ == s.vault@
            && next_refund.sender_token_account.owner@ == next_refund.sender@
            && next_refund.sender_token_account.mint@ == s.mint@ ==> s.after_claim().refund_error(
            next_refund,
            s.after_claim().authority_of(program),
        ) == Some(EscrowError::AlreadyClaimed),
{
}

/// After a successful refund, no claim or refund succeeds any more and the
/// vault stays empty; one made by the right party with the right accounts is
/// refused as already claimed.
pub proof fn lemma_refund_is_final(
    s: EscrowState,
    program: Seq<u8>,
    first: RefundGift,
    next_claim: ClaimGift,
    next_refund: RefundGift,
)
    requires
        s.refund_error(first, s.authority_of(program)) is None,
    ensures
        s.after_refund().spec_vault_balance() == 0,
        s.after_refund().claim_error(next_claim, s.after_refund().authority_of(program)) is Some,
        s.after_refund().refund_error(next_refund, s.after_refund().authority_of(program)) is Some,
        next_claim.recipient@ == s.recipient@ && next_claim.vault@ == s.vault@
            && next_claim.recipient_token_account.owner@ == next_claim.recipient@
            && next_claim.recipient_token_account.mint@ == s.mint@ ==> s.after_refund().claim_error(
            next_claim,
            s.after_refund().authority_of(program),
        ) == Some(EscrowError::AlreadyClaimed),
        next_refund.sender@ == s.sender@ && next_refund.vault@ == s.vault@
            && next_refund.sender_token_account.owner@ == next_refund.sender@
            && next_refund.sender_token_account.mint@ == s.mint@ ==> s.after_refund().refund_error(
            next_refund,
            s.after_refund().authority_of(program),
        ) == Some(EscrowError::AlreadyClaimed),
{
}

/// On the ledger: once a claim has succeeded on a gift, a later claim and a
/// later refund of it both fail and leave the records as they were, with the
/// vault empty; made by the right party with the right accounts, each is
/// refused as already claimed.
pub proof fn lemma_claimed_gift_stays_closed(
    l0: Ledger,
    l1: Ledger,
    l2: Ledger,
    l3: Ledger,
    i: int,
    first: ClaimGift,
    r1: Result<crate::ledger::Transfer, EscrowError>,
    next_claim: ClaimGift,
    r2: Result<crate::ledger::Transfer, EscrowError>,
    next_refund: RefundGift,
    r3: Result<crate::ledger::Transfer, EscrowError>,
)
    requires
        0 <= i < l0.records@.len(),
        l1.program_id == l0.program_id,
        claimed_at(l0, l1, i, first, r1),
        r1 is Ok,
        claimed_at(l1, l2, i, next_claim, r2),
        refunded_at(l1, l3, i, next_refund, r3),
    ensures
        l1.records@[i].spec_vault_balance() == 0,
        r2 is Err && l2.records@ == l1.records@,
        r3 is Err && l3.records@ == l1.records@,
        next_claim.recipient@ == l0.records@[i].recipient@ && next_claim.vault@
            == l0.records@[i].vault@ && next_claim.recipient_token_account.owner@
            == next_claim.recipient@ && next_claim.recipient_token_account.mint@
            == l0.records@[i].mint@ ==> r2 == Err::<crate::ledger::Transfer, EscrowError>(
            EscrowError::AlreadyClaimed,
        ),
        next_refund.sender@ == l0.records@[i].sender@ && next_refund.vault@
            == l0.records@[i].vault@ && next_refund.sender_token_account.owner@
            == next_refund.sender@ && next_refund.sender_token_account.mint@
            == l0.records@[i].mint@ ==> r3 == Err::<crate::ledger::Transfer, EscrowError>(
            EscrowError::AlreadyClaimed,
        ),
{
    lemma_claim_is_final(l0.records@[i], l0.program_id@, first, next_claim, next_refund);
}

/// On the ledger: once a refund has succeeded on a gift, a later claim and a
/// later refund of it both fail and leave the records as they were, with the
/// vault empty; made by the right party with the right accounts, each is
/// refused as already claimed.
pub proof fn lemma_refunded_gift_stays_closed(
    l0: Ledger,
    l1: Ledger,
    l2: Ledger,
    l3: Ledger,
    i: int,
    first: RefundGift,
    r1: Result<crate::ledger::Transfer, EscrowError>,
    next_claim: ClaimGift,
    r2: Result<crate::ledger::Transfer, EscrowError>,
    next_refund: RefundGift,
    r3: Result<crate::ledger::Transfer, EscrowError>,
)
    requires
        0 <= i < l0.records@.len(),
        l1.program_id == l0.program_id,
        refunded_at(l0, l1, i, first, r1),
        r1 is Ok,
        claimed_at(l1, l2, i, next_claim, r2),
        refunded_at(l1, l3, i, next_refund, r3),
    ensures
        l1.records@[i].spec_vault_balance() == 0,
        r2 is Err && l2.records@ == l1.records@,
        r3 is Err && l3.records@ == l1.records@,
        next_claim.recipient@ == l0.records@[i].recipient@ && next_claim.vault@
            == l0.records@[i].vault@ && next_claim.recipient_token_account.owner@
            == next_claim.recipient@ && next_claim.recipient_token_account.mint@
            == l0.records@[i].mint@ ==> r2 == Err::<crate::ledger::Transfer, EscrowError>(
            EscrowError::AlreadyClaimed,
        ),
        next_refund.sender@ == l0.records@[i].sender@ && next_refund.vault@
            == l0.records@[i].vault@ && next_refund.sender_token_account.owner@
            == next_refund.sender@ && next_refund.sender_token_account.mint@
            == l0.records@[i].mint@ ==> r3 == Err::<crate::ledger::Transfer, EscrowError>(
            EscrowError::AlreadyClaimed,
        ),
{
    lemma_refund_is_final(l0.records@[i], l0.program_id@, first, next_claim, next_refund);
}

/// A claim by anyone but the designated recipient is refused as unauthorized
/// and changes no record, so no vault balance moves.
pub proof fn lemma_claim_by_stranger_refused(
    before: Ledger,
    after: Ledger,
    i: int,
    ctx: ClaimGift,
    r: Result<crate::ledger::Transfer, EscrowError>,
)
    requires
        0 <= i < before.records@.len(),
        claimed_at(before, after, i, ctx, r),
        ctx.recipient@ != before.records@[i].recipient@,
    ensures
        r == Err::<crate::ledger::Transfer, EscrowError>(EscrowError::UnauthorizedRecipient),
        after.records@ == before.records@,
{
}

/// A refund by anyone but the sender is refused as unauthorized and changes
/// no record, so no vault balance moves.
pub proof fn lemma_refund_by_stranger_refused(
    before: Ledger,
    after: Ledger,
    i: int,
    ctx: RefundGift,
    r: Result<crate::ledger::Transfer, EscrowError>,
)
    requires
        0 <= i < before.records@.len(),
        refunded_at(before, after, i, ctx, r),
        ctx.sender@ != before.records@[i].sender@,
    ensures
        r == Err::<crate::ledger::Transfer, EscrowError>(EscrowError::UnauthorizedSender),
        after.records@ == before.records@,
{
}

/// A refused claim leaves the ledger as it was, so making it again is refused
/// with the same error and again changes nothing.
pub proof fn lemma_refused_claim_repeats(
    l0: Ledger,
    l1: Ledger,
    l2: Ledger,
    i: int,
    ctx: ClaimGift,
    r1: Result<crate::ledger::Transfer, EscrowError>,
    r2: Result<crate::ledger::Transfer, EscrowError>,
)
    requires
        0 <= i < l0.records@.len(),
        l1.program_id == l0.program_id,
        claimed_at(l0, l1, i, ctx, r1),
        claimed_at(l1, l2, i, ctx, r2),
        r1 is Err,
    ensures
        r2 == r1,
        l1.records@ == l0.records@,
        l2.records@ == l0.records@,
{
}

/// A refused refund leaves the ledger as it was, so making it again is
/// refused with the same error and again changes nothing.
pub proof fn lemma_refused_refund_repeats(
    l0: Ledger,
    l1: Ledger,
    l2: Ledger,
    i: int,
    ctx: RefundGift,
    r1: Result<crate::ledger::Transfer, EscrowError>,
    r2: Result<crate::ledger::Transfer, EscrowError>,
)
    requires
        0 <= i < l0.records@.len(),
        l1.program_id == l0.program_id,
        refunded_at(l0, l1, i, ctx, r1),
        refunded_at(l1, l2, i, ctx, r2),
        r1 is Err,
    ensures
        r2 == r1,
        l1.records@ == l0.records@,
        l2.records@ == l0.records@,
{
}

} // verus!
