use zk_escrow::custody::{derive_authority, derive_vault, reconstruct_authority, signer_seeds};
use zk_escrow::{
    claim_gift, initialize_gift, refund_gift, Address, ClaimGift, EscrowError, EscrowState,
    InitializeGift, Ledger, RefundGift, TokenAccountInfo,
};

const MINT: [u8; 32] = [9u8; 32];

fn program() -> Address {
    Address::new([7u8; 32])
}

fn key(b: u8) -> Address {
    Address::new([b; 32])
}

fn account(address: u8, owner: u8, amount: u64) -> TokenAccountInfo {
    TokenAccountInfo { address: key(address), owner: key(owner), mint: Address::new(MINT), amount }
}

const SENDER: u8 = 1;
const RECIPIENT: u8 = 2;
const STRANGER: u8 = 3;
const SENDER_FUNDS: u8 = 11;
const RECIPIENT_FUNDS: u8 = 12;
const STRANGER_FUNDS: u8 = 13;

fn deposit_ctx(balance: u64) -> InitializeGift {
    InitializeGift {
        sender: key(SENDER),
        sender_token_account: account(SENDER_FUNDS, SENDER, balance),
        mint: Address::new(MINT),
    }
}

fn vault_of(ledger: &Ledger, id: &str) -> Address {
    ledger.record(&id.to_string()).unwrap().vault
}

fn claim_ctx(ledger: &Ledger, id: &str, caller: u8, funds: u8) -> ClaimGift {
    ClaimGift {
        recipient: key(caller),
        vault: vault_of(ledger, id),
        recipient_token_account: account(funds, caller, 0),
    }
}

fn refund_ctx(ledger: &Ledger, id: &str, caller: u8, funds: u8) -> RefundGift {
    RefundGift {
        sender: key(caller),
        vault: vault_of(ledger, id),
        sender_token_account: account(funds, caller, 0),
    }
}

fn funded(id: &str, amount: u64) -> Ledger {
    let mut ledger = Ledger::new(program());
    initialize_gift(&mut ledger, &deposit_ctx(1_000), id.to_string(), amount, key(RECIPIENT))
        .unwrap();
    ledger
}

fn balance(ledger: &Ledger, id: &str) -> u64 {
    ledger.record(&id.to_string()).unwrap().vault_balance()
}

#[test]
fn initialize_opens_funded_unclaimed_record() {
    let mut ledger = Ledger::new(program());
    let t = initialize_gift(&mut ledger, &deposit_ctx(500), "gift-1".to_string(), 100, key(RECIPIENT))
        .unwrap();
    let rec = ledger.record(&"gift-1".to_string()).unwrap();
    assert!(!rec.claimed);
    assert!(!rec.refunded);
    assert_eq!(rec.amount, 100);
    assert_eq!(rec.vault_balance(), 100);
    assert_eq!(rec.sender, key(SENDER));
    assert_eq!(rec.recipient, key(RECIPIENT));
    assert_eq!(t.amount, 100);
    assert_eq!(t.from, key(SENDER_FUNDS));
    assert_eq!(t.to, rec.vault);
    assert_eq!(t.authority, key(SENDER));
    assert!(t.signer_seeds.is_empty());
    let (address, bump) = derive_authority(&program(), "gift-1").unwrap();
    assert_eq!(rec.address, address);
    assert_eq!(rec.bump, bump);
    assert_eq!(rec.vault, derive_vault(&program(), "gift-1").unwrap().0);
}

#[test]
fn duplicate_id_is_refused_and_changes_nothing() {
    let mut ledger = funded("gift-1", 100);
    let r = initialize_gift(&mut ledger, &deposit_ctx(1_000), "gift-1".to_string(), 7, key(STRANGER));
    assert_eq!(r.unwrap_err(), EscrowError::DuplicateId);
    assert_eq!(ledger.records.len(), 1);
    let rec = ledger.record(&"gift-1".to_string()).unwrap();
    assert_eq!(rec.amount, 100);
    assert_eq!(rec.recipient, key(RECIPIENT));
    assert_eq!(rec.vault_balance(), 100);
    let r = initialize_gift(&mut ledger, &deposit_ctx(1_000), "gift-1".to_string(), 0, key(RECIPIENT));
    assert_eq!(r.unwrap_err(), EscrowError::DuplicateId);
}

#[test]
fn claim_then_refund_scenario() {
    let mut ledger = funded("gift-1", 100);
    assert_eq!(balance(&ledger, "gift-1"), 100);
    let ctx = claim_ctx(&ledger, "gift-1", RECIPIENT, RECIPIENT_FUNDS);
    let t = claim_gift(&mut ledger, &ctx, &"gift-1".to_string()).unwrap();
    assert_eq!(t.amount, 100);
    assert_eq!(t.to, key(RECIPIENT_FUNDS));
    assert_eq!(t.from, vault_of(&ledger, "gift-1"));
    assert_eq!(t.authority, ledger.record(&"gift-1".to_string()).unwrap().address);
    assert_eq!(balance(&ledger, "gift-1"), 0);
    assert!(ledger.record(&"gift-1".to_string()).unwrap().claimed);
    let ctx = refund_ctx(&ledger, "gift-1", SENDER, SENDER_FUNDS);
    let r = refund_gift(&mut ledger, &ctx, &"gift-1".to_string());
    assert_eq!(r.unwrap_err(), EscrowError::AlreadyClaimed);
    assert_eq!(balance(&ledger, "gift-1"), 0);
    assert!(ledger.record(&"gift-1".to_string()).unwrap().claimed);
}

#[test]
fn refund_then_claim_scenario() {
    let mut ledger = funded("gift-2", 50);
    let ctx = refund_ctx(&ledger, "gift-2", SENDER, SENDER_FUNDS);
    let t = refund_gift(&mut ledger, &ctx, &"gift-2".to_string()).unwrap();
    assert_eq!(t.amount, 50);
    assert_eq!(t.to, key(SENDER_FUNDS));
    assert_eq!(balance(&ledger, "gift-2"), 0);
    let rec = ledger.record(&"gift-2".to_string()).unwrap();
    assert!(rec.refunded);
    assert!(!rec.claimed);
    let ctx = claim_ctx(&ledger, "gift-2", RECIPIENT, RECIPIENT_FUNDS);
    let r = claim_gift(&mut ledger, &ctx, &"gift-2".to_string());
    assert_eq!(r.unwrap_err(), EscrowError::AlreadyClaimed);
    let ctx = refund_ctx(&ledger, "gift-2", SENDER, SENDER_FUNDS);
    let r = refund_gift(&mut ledger, &ctx, &"gift-2".to_string());
    assert_eq!(r.unwrap_err(), EscrowError::AlreadyClaimed);
    assert_eq!(balance(&ledger, "gift-2"), 0);
}

#[test]
fn claim_by_stranger_is_refused() {
    let mut ledger = funded("gift-3", 30);
    for caller in [SENDER, STRANGER] {
        let ctx = claim_ctx(&ledger, "gift-3", caller, STRANGER_FUNDS);
        let r = claim_gift(&mut ledger, &ctx, &"gift-3".to_string());
        assert_eq!(r.unwrap_err(), EscrowError::UnauthorizedRecipient);
        assert_eq!(balance(&ledger, "gift-3"), 30);
    }
}

#[test]
fn refund_by_stranger_is_refused() {
    let mut ledger = funded("gift-4", 30);
    for caller in [RECIPIENT, STRANGER] {
        let ctx = refund_ctx(&ledger, "gift-4", caller, STRANGER_FUNDS);
        let r = refund_gift(&mut ledger, &ctx, &"gift-4".to_string());
        assert_eq!(r.unwrap_err(), EscrowError::UnauthorizedSender);
        assert_eq!(balance(&ledger, "gift-4"), 30);
    }
}

#[test]
fn repeated_refusals_give_the_same_error() {
    let mut ledger = funded("gift-5", 10);
    let ctx = claim_ctx(&ledger, "gift-5", RECIPIENT, RECIPIENT_FUNDS);
    claim_gift(&mut ledger, &ctx, &"gift-5".to_string()).unwrap();
    let refund = refund_ctx(&ledger, "gift-5", SENDER, SENDER_FUNDS);
    for _ in 0..5 {
        let r = claim_gift(&mut ledger, &ctx, &"gift-5".to_string());
        assert_eq!(r.unwrap_err(), EscrowError::AlreadyClaimed);
        let r = refund_gift(&mut ledger, &refund, &"gift-5".to_string());
        assert_eq!(r.unwrap_err(), EscrowError::AlreadyClaimed);
        assert_eq!(balance(&ledger, "gift-5"), 0);
    }
}

#[test]
fn gift_id_too_long_is_refused() {
    let mut ledger = Ledger::new(program());
    let id = "x".repeat(65);
    let r = initialize_gift(&mut ledger, &deposit_ctx(1_000), id, 5, key(RECIPIENT));
    assert_eq!(r.unwrap_err(), EscrowError::GiftIdTooLong);
    assert!(ledger.records.is_empty());
}

#[test]
fn zero_amount_is_refused() {
    let mut ledger = Ledger::new(program());
    let r = initialize_gift(&mut ledger, &deposit_ctx(1_000), "g".to_string(), 0, key(RECIPIENT));
    assert_eq!(r.unwrap_err(), EscrowError::InvalidAmount);
    assert!(ledger.records.is_empty());
}

#[test]
fn insufficient_funds_are_refused() {
    let mut ledger = Ledger::new(program());
    let r = initialize_gift(&mut ledger, &deposit_ctx(99), "g".to_string(), 100, key(RECIPIENT));
    assert_eq!(r.unwrap_err(), EscrowError::InsufficientFunds);
    let r = initialize_gift(&mut ledger, &deposit_ctx(100), "g".to_string(), 100, key(RECIPIENT));
    assert!(r.is_ok());
}

#[test]
fn foreign_funding_account_is_refused() {
    let mut ledger = Ledger::new(program());
    let mut ctx = deposit_ctx(1_000);
    ctx.sender_token_account.owner = key(STRANGER);
    let r = initialize_gift(&mut ledger, &ctx, "g".to_string(), 1, key(RECIPIENT));
    assert_eq!(r.unwrap_err(), EscrowError::TokenAccountMismatch);
    let mut ctx = deposit_ctx(1_000);
    ctx.mint = key(42);
    let r = initialize_gift(&mut ledger, &ctx, "g".to_string(), 1, key(RECIPIENT));
    assert_eq!(r.unwrap_err(), EscrowError::TokenAccountMismatch);
}

#[test]
fn id_longer_than_a_seed_has_no_address() {
    let mut ledger = Ledger::new(program());
    let id = "y".repeat(40);
    assert!(derive_authority(&program(), &id).is_none());
    let r = initialize_gift(&mut ledger, &deposit_ctx(1_000), id, 5, key(RECIPIENT));
    assert_eq!(r.unwrap_err(), EscrowError::AddressUnavailable);
}

#[test]
fn vault_substitution_is_refused() {
    let mut ledger = funded("gift-6", 8);
    let mut ctx = claim_ctx(&ledger, "gift-6", RECIPIENT, RECIPIENT_FUNDS);
    ctx.vault = key(77);
    let r = claim_gift(&mut ledger, &ctx, &"gift-6".to_string());
    assert_eq!(r.unwrap_err(), EscrowError::VaultMismatch);
    let mut ctx = refund_ctx(&ledger, "gift-6", SENDER, SENDER_FUNDS);
    ctx.vault = key(77);
    let r = refund_gift(&mut ledger, &ctx, &"gift-6".to_string());
    assert_eq!(r.unwrap_err(), EscrowError::VaultMismatch);
    assert_eq!(balance(&ledger, "gift-6"), 8);
}

#[test]
fn payout_to_foreign_account_is_refused() {
    let mut ledger = funded("gift-7", 8);
    let mut ctx = claim_ctx(&ledger, "gift-7", RECIPIENT, RECIPIENT_FUNDS);
    ctx.recipient_token_account.owner = key(STRANGER);
    let r = claim_gift(&mut ledger, &ctx, &"gift-7".to_string());
    assert_eq!(r.unwrap_err(), EscrowError::TokenAccountMismatch);
    assert_eq!(balance(&ledger, "gift-7"), 8);
}

#[test]
fn unknown_gift_is_refused() {
    let mut ledger = funded("gift-8", 8);
    let ctx = claim_ctx(&ledger, "gift-8", RECIPIENT, RECIPIENT_FUNDS);
    let r = claim_gift(&mut ledger, &ctx, &"other".to_string());
    assert_eq!(r.unwrap_err(), EscrowError::UnknownGift);
    let ctx = refund_ctx(&ledger, "gift-8", SENDER, SENDER_FUNDS);
    let r = refund_gift(&mut ledger, &ctx, &"other".to_string());
    assert_eq!(r.unwrap_err(), EscrowError::UnknownGift);
}

#[test]
fn wrong_bump_breaks_the_authority() {
    let mut ledger = funded("gift-9", 8);
    let bump = ledger.records[0].bump;
    ledger.records[0].bump = bump.wrapping_sub(1);
    let ctx = claim_ctx(&ledger, "gift-9", RECIPIENT, RECIPIENT_FUNDS);
    let r = claim_gift(&mut ledger, &ctx, &"gift-9".to_string());
    assert_eq!(r.unwrap_err(), EscrowError::AuthorityMismatch);
    assert_eq!(balance(&ledger, "gift-9"), 8);
}

#[test]
fn claim_with_given_authority() {
    let ledger = funded("gift-10", 8);
    let mut rec: EscrowState = ledger.records.into_iter().next().unwrap();
    let ctx = ClaimGift {
        recipient: key(RECIPIENT),
        vault: rec.vault,
        recipient_token_account: account(RECIPIENT_FUNDS, RECIPIENT, 0),
    };
    assert_eq!(rec.claim_with_authority(&ctx, None).unwrap_err(), EscrowError::AuthorityMismatch);
    assert_eq!(rec.claim_with_authority(&ctx, Some(key(5))).unwrap_err(), EscrowError::AuthorityMismatch);
    let address = rec.address;
    let t = rec.claim_with_authority(&ctx, Some(address)).unwrap();
    assert_eq!(t.amount, 8);
    assert!(rec.claimed);
}

#[test]
fn derivation_is_deterministic_and_reconstructible() {
    let (a1, b1) = derive_authority(&program(), "gift-1").unwrap();
    let (a2, b2) = derive_authority(&program(), "gift-1").unwrap();
    assert_eq!(a1, a2);
    assert_eq!(b1, b2);
    assert_ne!(a1, program());
    assert_ne!(a1, derive_authority(&program(), "gift-2").unwrap().0);
    assert_ne!(a1, derive_authority(&key(8), "gift-1").unwrap().0);
    let (v, _) = derive_vault(&program(), "gift-1").unwrap();
    assert_ne!(a1, v);
    assert_eq!(reconstruct_authority(&program(), "gift-1", b1), Some(a1));
}

#[test]
fn signer_seeds_are_tag_id_and_bump() {
    let seeds = signer_seeds("gift-1", 254);
    assert_eq!(seeds, vec![b"escrow".to_vec(), b"gift-1".to_vec(), vec![254u8]]);
}

#[test]
fn addresses_compare_by_bytes() {
    let mut bytes = [3u8; 32];
    assert!(Address::new(bytes).same_as(&Address::new(bytes)));
    bytes[31] = 4;
    assert!(!Address::new(bytes).same_as(&key(3)));
    assert_eq!(key(5).to_bytes(), [5u8; 32]);
}
