//! The escrow ledger: one record per gift id, created funded, resolved once by
//! a claim of the recipient or a refund to the sender.
use vstd::prelude::*;
use vstd::utf8::encode_utf8;
use crate::address::Address;
use crate::custody::{
    authority_seeds, derive_authority, derive_vault, derived_view, found_program_address,
    escrow_seeds, program_address, reconstruct_authority, seeds_within_limits, signer_seeds,
    vault_seeds,
};

verus! {

/// Most bytes in a gift id.
pub const MAX_GIFT_ID_LEN: usize = 64;

/// Why an operation on the ledger was refused. A refused operation changes
/// nothing and asks for no transfer.
#[derive(Clone, Copy, Debug, PartialEq, Eq, Structural)]
pub enum EscrowError {
    /// The gift id is longer than `MAX_GIFT_ID_LEN` bytes.
    GiftIdTooLong,
    /// The amount is zero.
    InvalidAmount,
    /// The gift has already been claimed or refunded.
    AlreadyClaimed,
    /// The caller is not the designated recipient.
    UnauthorizedRecipient,
    /// The caller is not the sender.
    UnauthorizedSender,
    /// A record with this gift id exists already.
    DuplicateId,
    /// The vault handed in is not the one recorded at creation.
    VaultMismatch,
    /// The funding account holds less than the amount.
    InsufficientFunds,
    /// A token account is not owned by the caller or holds another mint.
    TokenAccountMismatch,
    /// No record has this gift id.
    UnknownGift,
    /// No program-derived address exists for this gift id.
    AddressUnavailable,
    /// The record's signer seeds do not derive the record's own address.
    AuthorityMismatch,
}

/// A token account as the token program shows it.
#[derive(Clone, Copy, Debug)]
pub struct TokenAccountInfo {
    pub address: Address,
    pub owner: Address,
    pub mint: Address,
    pub amount: u64,
}

/// A token transfer that the ledger asks for. It must be carried out in the
/// same transaction as the ledger change that produced it. `signer_seeds` is
/// empty where `authority` signs for itself; otherwise the program signs for
/// the derived `authority` with these seeds.
#[derive(Debug)]
pub struct Transfer {
    pub from: Address,
    pub to: Address,
    pub authority: Address,
    pub amount: u64,
    pub signer_seeds: Vec<Vec<u8>>,
}

/// A transfer over plain values: addresses as bytes, seeds as byte strings.
pub struct TransferView {
    pub from: Seq<u8>,
    pub to: Seq<u8>,
    pub authority: Seq<u8>,
    pub amount: u64,
    pub signer_seeds: Seq<Seq<u8>>,
}

impl View for Transfer {
    type V = TransferView;

    open spec fn view(&self) -> TransferView {
        TransferView {
            from: self.from@,
            to: self.to@,
            authority: self.authority@,
            amount: self.amount,
            signer_seeds: self.signer_seeds.deep_view(),
        }
    }
}

/// The accounts of a deposit: the sender, who signs, its token account, and
/// the mint of the escrowed token.
#[derive(Clone, Copy, Debug)]
pub struct InitializeGift {
    pub sender: Address,
    pub sender_token_account: TokenAccountInfo,
    pub mint: Address,
}

/// The accounts of a claim: the caller, who signs, the vault it names, and
/// the token account that is to receive the funds.
#[derive(Clone, Copy, Debug)]
pub struct ClaimGift {
    pub recipient: Address,
    pub vault: Address,
    pub recipient_token_account: TokenAccountInfo,
}

/// The accounts of a refund: the caller, who signs, the vault it names, and
/// the token account that is to receive the funds.
#[derive(Clone, Copy, Debug)]
pub struct RefundGift {
    pub sender: Address,
    pub vault: Address,
    pub sender_token_account: TokenAccountInfo,
}

/// One escrow: who deposited how much for whom, where the funds are held, and
/// whether the escrow has been resolved.
#[derive(Debug)]
pub struct EscrowState {
    pub sender: Address,
    pub recipient: Address,
    pub amount: u64,
    pub gift_id: String,
    pub claimed: bool,
    pub refunded: bool,
    /// The bump that, appended to the record's seeds, derives `address`.
    pub bump: u8,
    /// The record's own derived address: the vault's owner and the authority
    /// of transfers out of it.
    pub address: Address,
    pub vault: Address,
    pub mint: Address,
}

/// The bytes of a gift id.
pub open spec fn id_bytes(id: Seq<char>) -> Seq<u8> {
    encode_utf8(id)
}

impl EscrowState {
    pub open spec fn wf(&self) -> bool {
        &&& self.amount > 0
        &&& id_bytes(self.gift_id@).len() <= MAX_GIFT_ID_LEN
        &&& !(self.claimed && self.refunded)
    }

    /// Claimed or refunded: nothing can leave the vault any more.
    pub open spec fn is_resolved(&self) -> bool {
        self.claimed || self.refunded
    }

    pub open spec fn spec_vault_balance(&self) -> u64 {
        if self.is_resolved() {
            0
        } else {
            self.amount
        }
    }

    /// What the record's signer seeds derive under the program id.
    pub open spec fn authority_of(&self, program: Seq<u8>) -> Option<Seq<u8>> {
        let seeds = authority_seeds(id_bytes(self.gift_id@), self.bump);
        if seeds_within_limits(seeds) {
            program_address(seeds, program)
        } else {
            None
        }
    }

    /// Why a claim is refused, given what the signer seeds derive; the checks
    /// are made in this order, the resolution flags last.
    pub open spec fn claim_error(&self, ctx: ClaimGift, authority: Option<Seq<u8>>) -> Option<
        EscrowError,
    > {
        if ctx.recipient@ != self.recipient@ {
            Some(EscrowError::UnauthorizedRecipient)
        } else if ctx.vault@ != self.vault@ {
            Some(EscrowError::VaultMismatch)
        } else if ctx.recipient_token_account.owner@ != ctx.recipient@
            || ctx.recipient_token_account.mint@ != self.mint@ {
            Some(EscrowError::TokenAccountMismatch)
        } else if authority != Some(self.address@) {
            Some(EscrowError::AuthorityMismatch)
        } else if self.is_resolved() {
            Some(EscrowError::AlreadyClaimed)
        } else {
            None
        }
    }

    /// Why a refund is refused, given what the signer seeds derive.
    pub open spec fn refund_error(&self, ctx: RefundGift, authority: Option<Seq<u8>>) -> Option<
        EscrowError,
    > {
        if ctx.sender@ != self.sender@ {
            Some(EscrowError::UnauthorizedSender)
        } else if ctx.vault@ != self.vault@ {
            Some(EscrowError::VaultMismatch)
        } else if ctx.sender_token_account.owner@ != ctx.sender@
            || ctx.sender_token_account.mint@ != self.mint@ {
            Some(EscrowError::TokenAccountMismatch)
        } else if authority != Some(self.address@) {
            Some(EscrowError::AuthorityMismatch)
        } else if self.is_resolved() {
            Some(EscrowError::AlreadyClaimed)
        } else {
            None
        }
    }

    /// The transfer that empties the vault into `to`, signed by the record.
    pub open spec fn payout(&self, to: Seq<u8>) -> TransferView {
        TransferView {
            from: self.vault@,
            to,
            authority: self.address@,
            amount: self.amount,
            signer_seeds: authority_seeds(id_bytes(self.gift_id@), self.bump),
        }
    }

    pub open spec fn after_claim(self) -> EscrowState {
        EscrowState { claimed: true, ..self }
    }

    pub open spec fn after_refund(self) -> EscrowState {
        EscrowState { refunded: true, ..self }
    }

    /// What the vault holds: the amount until the escrow is resolved, then
    /// nothing.
    pub fn vault_balance(&self) -> (r: u64)
        ensures
            r == self.spec_vault_balance(),
    {
        if self.claimed || self.refunded {
            0
        } else {
            self.amount
        }
    }

    fn payout_to(&self, to: Address) -> (r: Transfer)
        ensures
            r@ == self.payout(to@),
    {
        Transfer {
            from: self.vault,
            to,
            authority: self.address,
            amount: self.amount,
            signer_seeds: signer_seeds(self.gift_id.as_str(), self.bump),
        }
    }

    /// Pays the vault out to the recipient, given the address that the
    /// record's signer seeds derive (`None` where they derive none).
    pub fn claim_with_authority(&mut self, ctx: &ClaimGift, authority: Option<Address>) -> (r:
        Result<Transfer, EscrowError>)
        ensures
            r is Ok <==> old(self).claim_error(*ctx, address_opt(authority)) is None,
            r matches Err(e) ==> old(self).claim_error(*ctx, address_opt(authority)) == Some(e),
            r matches Ok(t) ==> t@ == old(self).payout(ctx.recipient_token_account.address@),
            *final(self) == if r is Ok {
                old(self).after_claim()
            } else {
                *old(self)
            },
    {
        if !ctx.recipient.same_as(&self.recipient) {
            return Err(EscrowError::UnauthorizedRecipient);
        }
        if !ctx.vault.same_as(&self.vault) {
            return Err(EscrowError::VaultMismatch);
        }
        if !ctx.recipient_token_account.owner.same_as(&ctx.recipient)
            || !ctx.recipient_token_account.mint.same_as(&self.mint) {
            return Err(EscrowError::TokenAccountMismatch);
        }
        let signs_for_record = match authority {
            Some(a) => a.same_as(&self.address),
            None => false,
        };
        if !signs_for_record {
            return Err(EscrowError::AuthorityMismatch);
        }
        if self.claimed || self.refunded {
            return Err(EscrowError::AlreadyClaimed);
        }
        let t = self.payout_to(ctx.recipient_token_account.address);
        self.claimed = true;
        Ok(t)
    }

    /// Pays the vault back to the sender, given the address that the record's
    /// signer seeds derive (`None` where they derive none).
    pub fn refund_with_authority(&mut self, ctx: &RefundGift, authority: Option<Address>) -> (r:
        Result<Transfer, EscrowError>)
        ensures
            r is Ok <==> old(self).refund_error(*ctx, address_opt(authority)) is None,
            r matches Err(e) ==> old(self).refund_error(*ctx, address_opt(authority)) == Some(e),
            r matches Ok(t) ==> t@ == old(self).payout(ctx.sender_token_account.address@),
            *final(self) == if r is Ok {
                old(self).after_refund()
            } else {
                *old(self)
            },
    {
        if !ctx.sender.same_as(&self.sender) {
            return Err(EscrowError::UnauthorizedSender);
        }
        if !ctx.vault.same_as(&self.vault) {
            return Err(EscrowError::VaultMismatch);
        }
        if !ctx.sender_token_account.owner.same_as(&ctx.sender)
            || !ctx.sender_token_account.mint.same_as(&self.mint) {
            return Err(EscrowError::TokenAccountMismatch);
        }
        let signs_for_record = match authority {
            Some(a) => a.same_as(&self.address),
            None => false,
        };
        if !signs_for_record {
            return Err(EscrowError::AuthorityMismatch);
        }
        if self.claimed || self.refunded {
            return Err(EscrowError::AlreadyClaimed);
        }
        let t = self.payout_to(ctx.sender_token_account.address);
        self.refunded = true;
        Ok(t)
    }

    /// Pays the vault out to the recipient, with the authority reconstructed
    /// from the record's gift id and bump under the program id.
    pub fn claim(&mut self, program_id: &Address, ctx: &ClaimGift) -> (r: Result<
        Transfer,
        EscrowError,
    >)
        ensures
            r is Ok <==> old(self).claim_error(*ctx, old(self).authority_of(program_id@)) is None,
            r matches Err(e) ==> old(self).claim_error(*ctx, old(self).authority_of(program_id@))
                == Some(e),
            r matches Ok(t) ==> t@ == old(self).payout(ctx.recipient_token_account.address@),
            *final(self) == if r is Ok {
                old(self).after_claim()
            } else {
                *old(self)
            },
    {
        let authority = reconstruct_authority(program_id, self.gift_id.as_str(), self.bump);
        self.claim_with_authority(ctx, authority)
    }

    /// Pays the vault back to the sender, with the authority reconstructed
    /// from the record's gift id and bump under the program id.
    pub fn refund(&mut self, program_id: &Address, ctx: &RefundGift) -> (r: Result<
        Transfer,
        EscrowError,
    >)
        ensures
            r is Ok <==> old(self).refund_error(*ctx, old(self).authority_of(program_id@)) is None,
            r matches Err(e) ==> old(self).refund_error(*ctx, old(self).authority_of(program_id@))
                == Some(e),
            r matches Ok(t) ==> t@ == old(self).payout(ctx.sender_token_account.address@),
            *final(self) == if r is Ok {
                old(self).after_refund()
            } else {
                *old(self)
            },
    {
        let authority = reconstruct_authority(program_id, self.gift_id.as_str(), self.bump);
        self.refund_with_authority(ctx, authority)
    }
}

/// Why a deposit under a new gift id is refused, given the derived record
/// and vault addresses; the checks are made in this order.
pub open spec fn open_error(
    ctx: InitializeGift,
    id: Seq<char>,
    amount: u64,
    authority: Option<(Seq<u8>, u8)>,
    vault: Option<(Seq<u8>, u8)>,
) -> Option<EscrowError> {
    if id_bytes(id).len() > MAX_GIFT_ID_LEN {
        Some(EscrowError::GiftIdTooLong)
    } else if amount == 0 {
        Some(EscrowError::InvalidAmount)
    } else if ctx.sender_token_account.owner@ != ctx.sender@
        || ctx.sender_token_account.mint@ != ctx.mint@ {
        Some(EscrowError::TokenAccountMismatch)
    } else if ctx.sender_token_account.amount < amount {
        Some(EscrowError::InsufficientFunds)
    } else if authority is None || vault is None {
        Some(EscrowError::AddressUnavailable)
    } else {
        None
    }
}

/// `s` is the record that a deposit with these values opens.
pub open spec fn is_opened(
    s: EscrowState,
    ctx: InitializeGift,
    id: Seq<char>,
    amount: u64,
    recipient: Seq<u8>,
    authority: (Seq<u8>, u8),
    vault: Seq<u8>,
) -> bool {
    &&& s.sender@ == ctx.sender@
    &&& s.recipient@ == recipient
    &&& s.amount == amount
    &&& s.gift_id@ == id
    &&& !s.claimed
    &&& !s.refunded
    &&& s.address@ == authority.0
    &&& s.bump == authority.1
    &&& s.vault@ == vault
    &&& s.mint@ == ctx.mint@
}

/// The transfer of the deposit from the sender's token account into the vault,
/// signed by the sender.
pub open spec fn deposit(ctx: InitializeGift, amount: u64, vault: Seq<u8>) -> TransferView {
    TransferView {
        from: ctx.sender_token_account.address@,
        to: vault,
        authority: ctx.sender@,
        amount,
        signer_seeds: Seq::empty(),
    }
}

impl EscrowState {
    /// Opens a record under a gift id, given the derived record address with
    /// its bump and the derived vault address (`None` where none was found),
    /// and asks for the deposit.
    pub fn open(
        ctx: &InitializeGift,
        gift_id: String,
        amount: u64,
        recipient: Address,
        authority: Option<(Address, u8)>,
        vault: Option<(Address, u8)>,
    ) -> (r: Result<(EscrowState, Transfer), EscrowError>)
        ensures
            r is Ok <==> open_error(*ctx, gift_id@, amount, derived_view(authority), derived_view(vault))
                is None,
            r matches Err(e) ==> open_error(
                *ctx,
                gift_id@,
                amount,
                derived_view(authority),
                derived_view(vault),
            ) == Some(e),
            r matches Ok((s, t)) ==> {
                &&& s.wf()
                &&& is_opened(
                    s,
                    *ctx,
                    gift_id@,
                    amount,
                    recipient@,
                    derived_view(authority)->0,
                    (derived_view(vault)->0).0,
                )
                &&& t@ == deposit(*ctx, amount, (derived_view(vault)->0).0)
            },
    {
        if gift_id.as_str().as_bytes().len() > MAX_GIFT_ID_LEN {
            return Err(EscrowError::GiftIdTooLong);
        }
        if amount == 0 {
            return Err(EscrowError::InvalidAmount);
        }
        let funds = ctx.sender_token_account;
        if !funds.owner.same_as(&ctx.sender) || !funds.mint.same_as(&ctx.mint) {
            return Err(EscrowError::TokenAccountMismatch);
        }
        if funds.amount < amount {
            return Err(EscrowError::InsufficientFunds);
        }
        let (address, bump) = match authority {
            Some(found) => found,
            None => {
                return Err(EscrowError::AddressUnavailable);
            },
        };
        let vault_address = match vault {
            Some(found) => found.0,
            None => {
                return Err(EscrowError::AddressUnavailable);
            },
        };
        let t = Transfer {
            from: funds.address,
            to: vault_address,
            authority: ctx.sender,
            amount,
            signer_seeds: Vec::new(),
        };
        assert(t.signer_seeds.deep_view() =~= Seq::empty());
        let s = EscrowState {
            sender: ctx.sender,
            recipient,
            amount,
            gift_id,
            claimed: false,
            refunded: false,
            bump,
            address,
            vault: vault_address,
            mint: ctx.mint,
        };
        Ok((s, t))
    }
}

/// The records of one program, at most one per gift id.
pub struct Ledger {
    pub program_id: Address,
    pub records: Vec<EscrowState>,
}

impl Ledger {
    pub open spec fn wf(&self) -> bool {
        &&& forall|i: int| 0 <= i < self.records@.len() ==> (#[trigger] self.records@[i]).wf()
        &&& forall|i: int, j: int|
            0 <= i < self.records@.len() && 0 <= j < self.records@.len() && i != j
                ==> (#[trigger] self.records@[i]).gift_id@ != (#[trigger] self.records@[j]).gift_id@
    }

    pub open spec fn has_gift(&self, id: Seq<char>) -> bool {
        exists|i: int| 0 <= i < self.records@.len() && (#[trigger] self.records@[i]).gift_id@ == id
    }

    /// An empty ledger of the program with the given id.
    pub fn new(program_id: Address) -> (r: Ledger)
        ensures
            r.wf(),
            r.program_id == program_id,
            r.records@.len() == 0,
    {
        Ledger { program_id, records: Vec::new() }
    }

    fn position(&self, gift_id: &String) -> (r: Option<usize>)
        ensures
            r matches Some(i) ==> i < self.records@.len() && self.records@[i as int].gift_id@
                == gift_id@,
            r is None <==> !self.has_gift(gift_id@),
    {
        let mut i: usize = 0;
        while i < self.records.len()
            invariant
                i <= self.records@.len(),
                forall|j: int| 0 <= j < i ==> (#[trigger] self.records@[j]).gift_id@ != gift_id@,
            decreases self.records@.len() - i,
        {
            if self.records[i].gift_id == *gift_id {
                return Some(i);
            }
            i = i + 1;
        }
        None
    }

    /// The record with the given gift id.
    pub fn record(&self, gift_id: &String) -> (r: Option<&EscrowState>)
        ensures
            r is None <==> !self.has_gift(gift_id@),
            r matches Some(s) ==> exists|i: int|
                0 <= i < self.records@.len() && self.records@[i] == *s && s.gift_id@ == gift_id@,
    {
        match self.position(gift_id) {
            Some(i) => Some(&self.records[i]),
            None => None,
        }
    }

    /// Opens a record under a gift id, given the derived record address with
    /// its bump and the derived vault address (`None` where none was found),
    /// and asks for the deposit. A gift id in use is refused first.
    pub fn initialize_derived(
        &mut self,
        ctx: &InitializeGift,
        gift_id: String,
        amount: u64,
        recipient: Address,
        authority: Option<(Address, u8)>,
        vault: Option<(Address, u8)>,
    ) -> (r: Result<Transfer, EscrowError>)
        requires
            old(self).wf(),
        ensures
            final(self).wf(),
            final(self).program_id == old(self).program_id,
            old(self).has_gift(gift_id@) ==> r == Err::<Transfer, EscrowError>(
                EscrowError::DuplicateId,
            ),
            !old(self).has_gift(gift_id@) ==> (r is Ok <==> open_error(
                *ctx,
                gift_id@,
                amount,
                derived_view(authority),
                derived_view(vault),
            ) is None),
            !old(self).has_gift(gift_id@) ==> (r matches Err(e) ==> open_error(
                *ctx,
                gift_id@,
                amount,
                derived_view(authority),
                derived_view(vault),
            ) == Some(e)),
            r is Err ==> final(self).records@ == old(self).records@,
            r matches Ok(t) ==> {
                &&& final(self).records@.len() == old(self).records@.len() + 1
                &&& final(self).records@.drop_last() == old(self).records@
                &&& is_opened(
                    final(self).records@.last(),
                    *ctx,
                    gift_id@,
                    amount,
                    recipient@,
                    derived_view(authority)->0,
                    (derived_view(vault)->0).0,
                )
                &&& t@ == deposit(*ctx, amount, (derived_view(vault)->0).0)
            },
    {
        if self.position(&gift_id).is_some() {
            return Err(EscrowError::DuplicateId);
        }
        let ghost id = gift_id@;
        match EscrowState::open(ctx, gift_id, amount, recipient, authority, vault) {
            Ok((s, t)) => {
                let ghost before = self.records@;
                self.records.push(s);
                assert(self.records@.drop_last() =~= before);
                assert forall|i: int, j: int|
                    0 <= i < self.records@.len() && 0 <= j < self.records@.len() && i != j
                        implies (#[trigger] self.records@[i]).gift_id@ != (
                    #[trigger] self.records@[j]).gift_id@ by {
                    if i == before.len() {
                        assert(before[j] == self.records@[j]);
                    } else if j == before.len() {
                        assert(before[i] == self.records@[i]);
                    }
                }
                Ok(t)
            },
            Err(e) => Err(e),
        }
    }
}

/// Opens an escrow: derives the record's address and bump and the vault's
/// address from the gift id, records the deposit, and asks for the transfer
/// of `amount` from the sender's token account into the vault. A gift id in
/// use is refused first, then the other reasons in the order of `open_error`.
pub fn initialize_gift(
    ledger: &mut Ledger,
    ctx: &InitializeGift,
    gift_id: String,
    amount: u64,
    recipient: Address,
) -> (r: Result<Transfer, EscrowError>)
    requires
        old(ledger).wf(),
    ensures
        final(ledger).wf(),
        final(ledger).program_id == old(ledger).program_id,
        old(ledger).has_gift(gift_id@) ==> r == Err::<Transfer, EscrowError>(
            EscrowError::DuplicateId,
        ),
        !old(ledger).has_gift(gift_id@) ==> (r is Ok <==> open_error(
            *ctx,
            gift_id@,
            amount,
            found_program_address(escrow_seeds(id_bytes(gift_id@)), old(ledger).program_id@),
            found_program_address(vault_seeds(id_bytes(gift_id@)), old(ledger).program_id@),
        ) is None),
        !old(ledger).has_gift(gift_id@) ==> (r matches Err(e) ==> open_error(
            *ctx,
            gift_id@,
            amount,
            found_program_address(escrow_seeds(id_bytes(gift_id@)), old(ledger).program_id@),
            found_program_address(vault_seeds(id_bytes(gift_id@)), old(ledger).program_id@),
        ) == Some(e)),
        r is Err ==> final(ledger).records@ == old(ledger).records@,
        r matches Ok(t) ==> {
            &&& final(ledger).records@.len() == old(ledger).records@.len() + 1
            &&& final(ledger).records@.drop_last() == old(ledger).records@
            &&& is_opened(
                final(ledger).records@.last(),
                *ctx,
                gift_id@,
                amount,
                recipient@,
                found_program_address(
                    escrow_seeds(id_bytes(gift_id@)),
                    old(ledger).program_id@,
                )->0,
                (found_program_address(
                    vault_seeds(id_bytes(gift_id@)),
                    old(ledger).program_id@,
                )->0).0,
            )
            &&& t@ == deposit(
                *ctx,
                amount,
                (found_program_address(
                    vault_seeds(id_bytes(gift_id@)),
                    old(ledger).program_id@,
                )->0).0,
            )
        },
{
    let authority = derive_authority(&ledger.program_id, gift_id.as_str());
    let vault = derive_vault(&ledger.program_id, gift_id.as_str());
    ledger.initialize_derived(ctx, gift_id, amount, recipient, authority, vault)
}

/// The outcome of a claim on the record at `i`: the result is that of
/// `EscrowState::claim`, and only that record changes.
pub open spec fn claimed_at(
    before: Ledger,
    after: Ledger,
    i: int,
    ctx: ClaimGift,
    r: Result<Transfer, EscrowError>,
) -> bool {
    let s = before.records@[i];
    let e = s.claim_error(ctx, s.authority_of(before.program_id@));
    &&& (r is Ok <==> e is None)
    &&& (r matches Err(x) ==> e == Some(x))
    &&& (r matches Ok(t) ==> t@ == s.payout(ctx.recipient_token_account.address@))
    &&& after.records@ == if r is Ok {
        before.records@.update(i, s.after_claim())
    } else {
        before.records@
    }
}

/// The outcome of a refund on the record at `i`.
pub open spec fn refunded_at(
    before: Ledger,
    after: Ledger,
    i: int,
    ctx: RefundGift,
    r: Result<Transfer, EscrowError>,
) -> bool {
    let s = before.records@[i];
    let e = s.refund_error(ctx, s.authority_of(before.program_id@));
    &&& (r is Ok <==> e is None)
    &&& (r matches Err(x) ==> e == Some(x))
    &&& (r matches Ok(t) ==> t@ == s.payout(ctx.sender_token_account.address@))
    &&& after.records@ == if r is Ok {
        before.records@.update(i, s.after_refund())
    } else {
        before.records@
    }
}

/// Pays the escrow with the given gift id out to its recipient: the caller
/// must be the recipient, name the recorded vault and a token account of its
/// own in the escrowed mint; the record's signer seeds must derive the
/// record's address; and the escrow must not be resolved yet.
pub fn claim_gift(ledger: &mut Ledger, ctx: &ClaimGift, gift_id: &String) -> (r: Result<
    Transfer,
    EscrowError,
>)
    requires
        old(ledger).wf(),
    ensures
        final(ledger).wf(),
        final(ledger).program_id == old(ledger).program_id,
        !old(ledger).has_gift(gift_id@) ==> r == Err::<Transfer, EscrowError>(
            EscrowError::UnknownGift,
        ) && final(ledger).records@ == old(ledger).records@,
        forall|i: int|
            0 <= i < old(ledger).records@.len() && (#[trigger] old(ledger).records@[i]).gift_id@
                == gift_id@ ==> claimed_at(*old(ledger), *final(ledger), i, *ctx, r),
{
    match ledger.position(gift_id) {
        None => Err(EscrowError::UnknownGift),
        Some(i) => {
            let ghost before = ledger.records@;
            let program_id = ledger.program_id;
            let r = ledger.records[i].claim(&program_id, ctx);
            assert(ledger.records@ =~= if r is Ok {
                before.update(i as int, before[i as int].after_claim())
            } else {
                before
            });
            r
        },
    }
}

/// Pays the escrow with the given gift id back to its sender: the caller must
/// be the sender, name the recorded vault and a token account of its own in
/// the escrowed mint; the record's signer seeds must derive the record's
/// address; and the escrow must not be resolved yet.
pub fn refund_gift(ledger: &mut Ledger, ctx: &RefundGift, gift_id: &String) -> (r: Result<
    Transfer,
    EscrowError,
>)
    requires
        old(ledger).wf(),
    ensures
        final(ledger).wf(),
        final(ledger).program_id == old(ledger).program_id,
        !old(ledger).has_gift(gift_id@) ==> r == Err::<Transfer, EscrowError>(
            EscrowError::UnknownGift,
        ) && final(ledger).records@ == old(ledger).records@,
        forall|i: int|
            0 <= i < old(ledger).records@.len() && (#[trigger] old(ledger).records@[i]).gift_id@
                == gift_id@ ==> refunded_at(*old(ledger), *final(ledger), i, *ctx, r),
{
    match ledger.position(gift_id) {
        None => Err(EscrowError::UnknownGift),
        Some(i) => {
            let ghost before = ledger.records@;
            let program_id = ledger.program_id;
            let r = ledger.records[i].refund(&program_id, ctx);
            assert(ledger.records@ =~= if r is Ok {
                before.update(i as int, before[i as int].after_refund())
            } else {
                before
            });
            r
        },
    }
}

pub open spec fn address_opt(a: Option<Address>) -> Option<Seq<u8>> {
    match a {
        Some(x) => Some(x@),
        None => None,
    }
}

} // verus!
