use gift_cards::address::Address;
use gift_cards::errors::GiftCardError;
use gift_cards::state::{copy_of, GiftCard, MAX_ALLOWED_MERCHANTS};

fn key(n: u8) -> Address {
    Address::new([n; 32])
}

fn card_with(merchants: Vec<Address>) -> GiftCard {
    GiftCard {
        card_id: 7,
        owner: key(1),
        balance: 50,
        unlock_date: 10,
        refund_date: 20,
        token_mint: key(2),
        escrow_token_account: key(3),
        bump: 255,
        decimals: 9,
        allowed_merchants: merchants,
    }
}

#[test]
fn address_holds_its_bytes() {
    let mut bytes = [0u8; 32];
    bytes[0] = 9;
    bytes[31] = 200;
    assert_eq!(Address::new(bytes).bytes, bytes);
}

#[test]
fn addresses_are_equal_when_all_bytes_agree() {
    assert_eq!(key(5), key(5));
    assert!(key(5) == Address { bytes: [5; 32] });
}

#[test]
fn addresses_differ_in_a_single_byte() {
    let mut first = [5u8; 32];
    first[0] = 6;
    let mut last = [5u8; 32];
    last[31] = 4;
    assert_ne!(key(5), Address::new(first));
    assert_ne!(key(5), Address::new(last));
    assert_ne!(Address::new(first), Address::new(last));
}

#[test]
fn is_in_finds_first_middle_and_last() {
    let list = vec![key(1), key(2), key(3)];
    assert!(key(1).is_in(&list));
    assert!(key(2).is_in(&list));
    assert!(key(3).is_in(&list));
}

#[test]
fn is_in_misses_what_is_not_listed() {
    let list = vec![key(1), key(2), key(3)];
    assert!(!key(4).is_in(&list));
    assert!(!key(1).is_in(&Vec::new()));
}

#[test]
fn copy_of_keeps_order_and_repeats() {
    let list = vec![key(3), key(1), key(3), key(2)];
    assert_eq!(copy_of(&list), list);
    assert_eq!(copy_of(&Vec::new()), Vec::<Address>::new());
}

#[test]
fn a_card_without_a_list_admits_everyone() {
    let card = card_with(Vec::new());
    assert!(card.admits(&key(1)));
    assert!(card.admits(&key(99)));
}

#[test]
fn a_card_with_a_list_admits_only_the_listed() {
    let card = card_with(vec![key(8), key(9)]);
    assert!(card.admits(&key(8)));
    assert!(card.admits(&key(9)));
    assert!(!card.admits(&key(10)));
}

#[test]
fn with_balance_changes_only_the_balance() {
    let card = card_with(vec![key(8)]);
    let mut expected = card.clone();
    expected.balance = 3;
    assert_eq!(card.with_balance(3), expected);
}

#[test]
fn with_merchants_changes_only_the_list() {
    let card = card_with(vec![key(8)]);
    let mut expected = card.clone();
    expected.allowed_merchants = vec![key(4), key(5)];
    assert_eq!(card.with_merchants(vec![key(4), key(5)]), expected);
}

#[test]
fn the_list_holds_ten_merchants_at_most() {
    assert_eq!(MAX_ALLOWED_MERCHANTS, 10);
}

#[test]
fn the_seed_prefix_spells_gift_card() {
    assert_eq!(&GiftCard::SEED_PREFIX[..], b"gift_card");
}

#[test]
fn every_error_has_its_message() {
    let expected = [
        (GiftCardError::InvalidUnlockDate, "Invalid unlock date"),
        (GiftCardError::InvalidRefundDate, "Invalid refund date"),
        (GiftCardError::GiftCardLocked, "Gift card is locked"),
        (GiftCardError::GiftCardExpired, "Gift card has expired"),
        (GiftCardError::MerchantNotAllowed, "Merchant not allowed"),
        (GiftCardError::InsufficientBalance, "Insufficient balance"),
        (GiftCardError::Unauthorized, "Unauthorized"),
        (GiftCardError::TooManyMerchants, "Too many merchants"),
        (GiftCardError::RefundNotAvailable, "Refund not available"),
        (GiftCardError::NoBalanceToRefund, "No balance to refund"),
        (GiftCardError::InvalidCardId, "Invalid card ID"),
        (GiftCardError::HasBalance, "Gift card still has balance"),
    ];
    for (error, text) in expected {
        assert_eq!(error.message(), text);
    }
}
