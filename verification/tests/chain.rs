use andromeda_contracts::chain::{
    nonpayable, one_coin, BlockInfo, Coin, Expiration, MessageInfo, PaymentError, Timestamp,
};

#[test]
fn timestamps() {
    let t = Timestamp::from_seconds(10);
    assert_eq!(t.nanos, 10_000_000_000);
    assert_eq!(t.seconds(), 10);
    assert_eq!(Timestamp::from_nanos(1_999_999_999).seconds(), 1);
    assert_eq!(t.plus_seconds(5).nanos, 15_000_000_000);
}

#[test]
fn expirations() {
    let block = BlockInfo {
        height: 10,
        time: Timestamp::from_seconds(100),
    };
    assert!(Expiration::AtHeight(10).is_expired(block));
    assert!(!Expiration::AtHeight(11).is_expired(block));
    assert!(Expiration::AtTime(Timestamp::from_seconds(100)).is_expired(block));
    assert!(!Expiration::AtTime(Timestamp::from_seconds(101)).is_expired(block));
    assert!(!Expiration::Never {}.is_expired(block));
}

#[test]
fn payments() {
    let none = MessageInfo {
        sender: "a".to_string(),
        funds: vec![],
    };
    assert_eq!(nonpayable(&none), Ok(()));
    assert_eq!(one_coin(&none), Err(PaymentError::NoFunds {}));
    let one = MessageInfo {
        sender: "a".to_string(),
        funds: vec![Coin::new(3, "x")],
    };
    assert_eq!(nonpayable(&one), Err(PaymentError::NonPayable {}));
    assert_eq!(one_coin(&one), Ok(Coin::new(3, "x")));
}
