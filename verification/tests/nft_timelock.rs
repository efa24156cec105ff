use andromeda_contracts::chain::{
    BlockInfo, ContractError, CosmosMsg, Env, Expiration, MessageInfo, StdError, Timestamp,
};
use andromeda_contracts::nft_timelock::{
    Cw721HookMsg, Cw721ReceiveMsg, ExecuteMsg, LockDetails, NftTimelock, QueryMsg,
};

const MOCK_TOKEN_ADDR: &str = "token0001";
const MOCK_TOKEN_OWNER: &str = "owner";

fn mock_env() -> Env {
    Env {
        block: BlockInfo {
            height: 12_345,
            time: Timestamp::from_nanos(1_571_797_419_879_305_533),
        },
    }
}

fn mock_info(sender: &str) -> MessageInfo {
    MessageInfo {
        sender: sender.to_string(),
        funds: vec![],
    }
}

fn later_env(seconds: u64) -> Env {
    Env {
        block: BlockInfo {
            height: 12_345,
            time: mock_env().block.time.plus_seconds(seconds),
        },
    }
}

fn locked_state() -> NftTimelock {
    let mut state = NftTimelock::instantiate(&mock_info("creator"));
    let info = mock_info(MOCK_TOKEN_OWNER);
    let _res = state
        .execute_lock(
            &mock_env(),
            &info,
            None,
            Ok(()),
            "ape1".to_string(),
            100_000u64,
            MOCK_TOKEN_ADDR.to_string(),
        )
        .unwrap();
    state
}

#[test]
fn test_instantiate() {
    let state = NftTimelock::instantiate(&mock_info("creator"));
    assert!(state
        .query_locked_token(&"token0001ape1".to_string())
        .is_err());
}

#[test]
fn test_lock_too_long() {
    let mut state = NftTimelock::instantiate(&mock_info("creator"));
    let info = mock_info("me");
    let err = state
        .execute_lock(
            &mock_env(),
            &info,
            None,
            Ok(()),
            "ape".to_string(),
            1_000_000_000u64,
            "contract".to_string(),
        )
        .unwrap_err();
    assert_eq!(err, ContractError::LockTimeTooLong {});
}

#[test]
fn test_lock_too_short() {
    let mut state = NftTimelock::instantiate(&mock_info("creator"));
    let info = mock_info("me");
    let err = state
        .execute_lock(
            &mock_env(),
            &info,
            None,
            Ok(()),
            "ape".to_string(),
            100u64,
            "contract".to_string(),
        )
        .unwrap_err();
    assert_eq!(err, ContractError::LockTimeTooShort {});
}

#[test]
fn test_lock_works() {
    let state = locked_state();
    let mock_time = mock_env().block.time;
    let nft = state
        .query_locked_token(&"token0001ape1".to_string())
        .unwrap();
    let expected_nft = LockDetails {
        recipient: MOCK_TOKEN_OWNER.to_string(),
        expiration: Expiration::AtTime(mock_time.plus_seconds(100_000u64)),
        nft_id: "ape1".to_string(),
        nft_contract: MOCK_TOKEN_ADDR.to_string(),
    };
    assert_eq!(nft, expected_nft);
}

#[test]
fn test_lock_already_locked() {
    let mut state = locked_state();
    let info = mock_info(MOCK_TOKEN_OWNER);
    let err = state
        .execute_lock(
            &mock_env(),
            &info,
            None,
            Ok(()),
            "ape1".to_string(),
            100_000u64,
            MOCK_TOKEN_ADDR.to_string(),
        )
        .unwrap_err();
    assert_eq!(err, ContractError::LockedNFT {});
}

#[test]
fn test_claim_nft_not_found() {
    let mut state = locked_state();
    let info = mock_info(MOCK_TOKEN_OWNER);
    let msg = ExecuteMsg::Claim {
        lock_id: "token0001ape2".to_string(),
    };
    let err = state.execute(&mock_env(), &info, msg, Ok(())).unwrap_err();
    assert_eq!(err, ContractError::NFTNotFound {});
}

#[test]
fn test_claim_nft_locked() {
    let mut state = locked_state();
    let info = mock_info(MOCK_TOKEN_OWNER);
    let msg = ExecuteMsg::Claim {
        lock_id: "token0001ape1".to_string(),
    };
    let err = state.execute(&mock_env(), &info, msg, Ok(())).unwrap_err();
    assert_eq!(err, ContractError::LockedNFT {});
}

#[test]
fn test_claim_unauthorized() {
    let mut state = locked_state();
    let msg = ExecuteMsg::Claim {
        lock_id: "token0001ape1".to_string(),
    };
    let info = mock_info("random");
    let err = state
        .execute(&later_env(200_000), &info, msg, Ok(()))
        .unwrap_err();
    assert_eq!(err, ContractError::Unauthorized {});
}

#[test]
fn test_claim_works() {
    let mut state = locked_state();
    let info = mock_info(MOCK_TOKEN_OWNER);
    let msg = ExecuteMsg::Claim {
        lock_id: "token0001ape1".to_string(),
    };
    let _res = state
        .execute(&later_env(200_000), &info, msg, Ok(()))
        .unwrap();
    let msg = ExecuteMsg::Claim {
        lock_id: "token0001ape1".to_string(),
    };
    let err = state
        .execute(&later_env(200_000), &info, msg, Ok(()))
        .unwrap_err();
    assert_eq!(err, ContractError::NFTNotFound {});
}

#[test]
fn claim_sends_the_token_to_the_recipient() {
    let mut state = locked_state();
    let info = mock_info(MOCK_TOKEN_OWNER);
    let res = state
        .execute_claim(&later_env(100_000), &info, &"token0001ape1".to_string())
        .unwrap();
    assert_eq!(
        res.messages,
        vec![CosmosMsg::TransferNft {
            contract_addr: MOCK_TOKEN_ADDR.to_string(),
            recipient: MOCK_TOKEN_OWNER.to_string(),
            token_id: "ape1".to_string(),
        }]
    );
    assert_eq!(res.attributes.len(), 1);
    assert_eq!(res.attributes[0].key, "action");
    assert_eq!(res.attributes[0].value, "claimed_nft");
}

#[test]
fn claim_one_second_early_is_locked() {
    let mut state = locked_state();
    let info = mock_info(MOCK_TOKEN_OWNER);
    let early = Env {
        block: BlockInfo {
            height: 12_345,
            time: Timestamp::from_nanos(mock_env().block.time.nanos + 100_000 * 1_000_000_000 - 1),
        },
    };
    assert_eq!(
        state
            .execute_claim(&early, &info, &"token0001ape1".to_string())
            .unwrap_err(),
        ContractError::LockedNFT {}
    );
}

#[test]
fn lock_bounds_are_inclusive() {
    let mut state = NftTimelock::instantiate(&mock_info("creator"));
    let info = mock_info("nft");
    for (id, time) in [("a", 86_400u64), ("b", 31_536_000u64)] {
        state
            .execute_lock(&mock_env(), &info, None, Ok(()), id.to_string(), time, "c".to_string())
            .unwrap();
    }
    assert!(state.query_locked_token(&"ca".to_string()).is_ok());
    assert!(state.query_locked_token(&"cb".to_string()).is_ok());
}

#[test]
fn receive_nft_locks_for_the_nft_contract_by_default() {
    let mut state = NftTimelock::instantiate(&mock_info("creator"));
    let info = mock_info(MOCK_TOKEN_ADDR);
    let msg = ExecuteMsg::ReceiveNft(Cw721ReceiveMsg {
        sender: "previous_owner".to_string(),
        token_id: "ape9".to_string(),
        msg: Cw721HookMsg::StartLock {
            recipient: None,
            lock_time: 86_400,
        },
    });
    let res = state.execute(&mock_env(), &info, msg, Ok(())).unwrap();
    assert_eq!(res.attributes[1].value, "token0001ape9");
    let details = state
        .query(&QueryMsg::LockedToken {
            lock_id: "token0001ape9".to_string(),
        })
        .unwrap();
    assert_eq!(details.recipient, MOCK_TOKEN_ADDR);
    assert_eq!(details.nft_contract, MOCK_TOKEN_ADDR);
}

#[test]
fn receive_nft_with_a_refused_recipient() {
    let mut state = NftTimelock::instantiate(&mock_info("creator"));
    let info = mock_info(MOCK_TOKEN_ADDR);
    let refused = ContractError::Std(StdError::GenericErr {
        msg: "invalid address".to_string(),
    });
    let msg = ExecuteMsg::ReceiveNft(Cw721ReceiveMsg {
        sender: "previous_owner".to_string(),
        token_id: "ape9".to_string(),
        msg: Cw721HookMsg::StartLock {
            recipient: Some("BAD".to_string()),
            lock_time: 86_400,
        },
    });
    assert_eq!(
        state.execute(&mock_env(), &info, msg, Err(refused.clone())),
        Err(refused)
    );
    assert!(state.query_locked_token(&"token0001ape9".to_string()).is_err());
}

#[test]
fn query_of_a_missing_lock() {
    let state = NftTimelock::instantiate(&mock_info("creator"));
    assert_eq!(
        state
            .query(&QueryMsg::LockedToken {
                lock_id: "x".to_string()
            })
            .unwrap_err(),
        ContractError::Std(StdError::NotFound {
            kind: "andromeda_nft_timelock::state::LockDetails".to_string()
        })
    );
}
