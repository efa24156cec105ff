use andromeda_contracts::chain::{
    BlockInfo, Coin, ContractError, CosmosMsg, Env, MessageInfo, PaymentError, Response,
    StdError, Timestamp,
};
use andromeda_contracts::rate_limiting_withdrawals::{
    migrate, AccountDetails, CoinAllowance, CoinAndLimit, ContractAndKey, Execution,
    ExecuteMsg, FrequencyLookup, InstantiateMsg, Instantiation, LookupProgress, QueryAnswer,
    QueryMsg, RateLimitingWithdrawals,
};

fn mock_env() -> Env {
    Env {
        block: BlockInfo {
            height: 12_345,
            time: Timestamp::from_nanos(1_571_797_419_879_305_533),
        },
    }
}

fn mock_info(sender: &str, funds: &[(u128, &str)]) -> MessageInfo {
    MessageInfo {
        sender: sender.to_string(),
        funds: funds.iter().map(|(a, d)| Coin::new(*a, d)).collect(),
    }
}

fn instantiate_msg(limit: u128) -> InstantiateMsg {
    InstantiateMsg {
        allowed_coin: CoinAndLimit {
            coin: "junox".to_string(),
            limit,
        },
        minimal_withdrawal_frequency: Some(86_400),
        contract_key: None,
    }
}

fn ready(info: &MessageInfo, msg: InstantiateMsg) -> RateLimitingWithdrawals {
    match RateLimitingWithdrawals::instantiate(info, msg).unwrap() {
        Instantiation::Ready(s) => s,
        Instantiation::AwaitingFrequency { .. } => panic!("the frequency was given"),
    }
}

fn done(r: Result<Execution, ContractError>) -> Result<Response, ContractError> {
    match r {
        Ok(Execution::Done(resp)) => Ok(resp),
        Ok(Execution::AwaitingFrequency(_)) => panic!("nothing to look up"),
        Err(e) => Err(e),
    }
}

fn attrs(resp: &Response) -> Vec<(String, String)> {
    resp.attributes
        .iter()
        .map(|a| (a.key.clone(), a.value.clone()))
        .collect()
}

fn account(s: &RateLimitingWithdrawals, name: &str) -> AccountDetails {
    s.query_account_details(&name.to_string()).unwrap()
}

#[test]
fn test_instantiate_works() {
    let info = mock_info("creator", &[]);
    let r = RateLimitingWithdrawals::instantiate(&info, instantiate_msg(50)).unwrap();
    let state = match r {
        Instantiation::Ready(s) => s,
        Instantiation::AwaitingFrequency { .. } => panic!("the frequency was given"),
    };
    assert_eq!(
        state.query_coin_allowance_details(),
        CoinAllowance {
            coin: "junox".to_string(),
            limit: 50,
            minimal_withdrawal_frequency: 86_400,
        }
    );
    assert_eq!(state.owner, "creator");
}

#[test]
fn test_instantiate_no_source() {
    let info = mock_info("creator", &[]);
    let msg = InstantiateMsg {
        allowed_coin: CoinAndLimit {
            coin: "junox".to_string(),
            limit: 50,
        },
        minimal_withdrawal_frequency: None,
        contract_key: None,
    };
    let err = RateLimitingWithdrawals::instantiate(&info, msg).unwrap_err();
    assert_eq!(err, ContractError::UnspecifiedWithdrawalFrequency {});
}

#[test]
fn test_instantiate_multiple_sources() {
    let info = mock_info("creator", &[]);
    let msg = InstantiateMsg {
        allowed_coin: CoinAndLimit {
            coin: "junox".to_string(),
            limit: 50,
        },
        minimal_withdrawal_frequency: Some(86_400),
        contract_key: Some(ContractAndKey {
            contract_address: String::from("contract"),
            key: Some(String::from("key")),
        }),
    };
    let err = RateLimitingWithdrawals::instantiate(&info, msg).unwrap_err();
    assert_eq!(err, ContractError::OnlyOneSourceAllowed {});
}

#[test]
fn test_update_allowed_coin_unauthorized() {
    let mut state = ready(&mock_info("creator", &[]), instantiate_msg(50));
    let info = mock_info("random", &[]);
    let msg = ExecuteMsg::UpdateAllowedCoin {
        allowed_coin: CoinAndLimit {
            coin: String::from("junox"),
            limit: 10,
        },
        minimal_withdrawal_frequency: Some(50),
        contract_key: None,
    };
    let err = done(state.execute(&mock_env(), &info, msg)).unwrap_err();
    assert_eq!(err, ContractError::Unauthorized {})
}

#[test]
fn test_update_allowed_coin_works() {
    let info = mock_info("creator", &[]);
    let mut state = ready(&info, instantiate_msg(50));
    let msg = ExecuteMsg::UpdateAllowedCoin {
        allowed_coin: CoinAndLimit {
            coin: String::from("juno"),
            limit: 10,
        },
        minimal_withdrawal_frequency: Some(600),
        contract_key: None,
    };
    let _res = done(state.execute(&mock_env(), &info, msg)).unwrap();
    let expected_allowed_coin = CoinAllowance {
        coin: "juno".to_string(),
        limit: 10,
        minimal_withdrawal_frequency: 600,
    };
    assert_eq!(expected_allowed_coin, state.query_coin_allowance_details())
}

#[test]
fn test_deposit_zero_funds() {
    let info = mock_info("creator", &[]);
    let mut state = ready(&info, instantiate_msg(50));
    let exec = ExecuteMsg::Deposit { recipient: None };
    let _err = done(state.execute(&mock_env(), &info, exec)).unwrap_err();
}

#[test]
fn test_deposit_invalid_funds() {
    let mut state = ready(&mock_info("creator", &[]), instantiate_msg(50));
    let exec = ExecuteMsg::Deposit {
        recipient: Some("me".to_string()),
    };
    let info = mock_info("creator", &[(30, "uusd")]);
    let err = done(state.execute(&mock_env(), &info, exec)).unwrap_err();
    assert_eq!(
        err,
        ContractError::InvalidFunds {
            msg: "Coin must be part of the allowed list".to_string(),
        }
    )
}

#[test]
fn test_deposit_new_account_works() {
    let mut state = ready(&mock_info("creator", &[]), instantiate_msg(50));
    let exec = ExecuteMsg::Deposit {
        recipient: Some("andromedauser".to_string()),
    };
    let info = mock_info("creator", &[(30, "junox")]);
    let _res = done(state.execute(&mock_env(), &info, exec)).unwrap();
    let expected_balance = AccountDetails {
        balance: 30,
        latest_withdrawal: None,
    };
    assert_eq!(expected_balance, account(&state, "andromedauser"))
}

#[test]
fn test_deposit_existing_account_works() {
    let mut state = ready(&mock_info("creator", &[]), instantiate_msg(50));
    let exec = ExecuteMsg::Deposit {
        recipient: Some("andromedauser".to_string()),
    };
    let info = mock_info("creator", &[(30, "junox")]);
    let _res = done(state.execute(&mock_env(), &info, exec)).unwrap();
    let exec = ExecuteMsg::Deposit { recipient: None };
    let info = mock_info("andromedauser", &[(70, "junox")]);
    let _res = done(state.execute(&mock_env(), &info, exec)).unwrap();
    let expected_balance = AccountDetails {
        balance: 100,
        latest_withdrawal: None,
    };
    assert_eq!(expected_balance, account(&state, "andromedauser"))
}

fn funded(limit: u128) -> RateLimitingWithdrawals {
    let mut state = ready(&mock_info("creator", &[]), instantiate_msg(limit));
    let exec = ExecuteMsg::Deposit {
        recipient: Some("andromedauser".to_string()),
    };
    let info = mock_info("creator", &[(30, "junox")]);
    let _res = done(state.execute(&mock_env(), &info, exec)).unwrap();
    state
}

#[test]
fn test_withdraw_account_not_found() {
    let mut state = funded(50);
    let info = mock_info("random", &[]);
    let exec = ExecuteMsg::Withdraw { amount: 19 };
    let err = done(state.execute(&mock_env(), &info, exec)).unwrap_err();
    assert_eq!(err, ContractError::AccountNotFound {});
}

#[test]
fn test_withdraw_over_account_limit() {
    let mut state = funded(50);
    let info = mock_info("andromedauser", &[]);
    let exec = ExecuteMsg::Withdraw { amount: 31 };
    let err = done(state.execute(&mock_env(), &info, exec)).unwrap_err();
    assert_eq!(err, ContractError::InsufficientFunds {});
}

#[test]
fn test_withdraw_funds_locked() {
    let mut state = funded(50);
    let info = mock_info("andromedauser", &[]);
    let exec = ExecuteMsg::Withdraw { amount: 10 };
    let _res = done(state.execute(&mock_env(), &info, exec)).unwrap();
    let info = mock_info("andromedauser", &[]);
    let exec = ExecuteMsg::Withdraw { amount: 10 };
    let err = done(state.execute(&mock_env(), &info, exec)).unwrap_err();
    assert_eq!(err, ContractError::FundsAreLocked {});
}

#[test]
fn test_withdraw_over_allowed_limit() {
    let mut state = funded(20);
    let info = mock_info("andromedauser", &[]);
    let exec = ExecuteMsg::Withdraw { amount: 21 };
    let err = done(state.execute(&mock_env(), &info, exec)).unwrap_err();
    assert_eq!(err, ContractError::WithdrawalLimitExceeded {});
}

#[test]
fn test_withdraw_works() {
    let env = mock_env();
    let mut state = funded(50);
    let info = mock_info("andromedauser", &[]);
    let exec = ExecuteMsg::Withdraw { amount: 10 };
    let _res = done(state.execute(&env, &info, exec)).unwrap();
    let expected_balance = AccountDetails {
        balance: 20,
        latest_withdrawal: Some(env.block.time),
    };
    assert_eq!(expected_balance, account(&state, "andromedauser"))
}

#[test]
fn withdraw_response_sends_the_coin_to_the_sender() {
    let mut state = funded(50);
    let info = mock_info("andromedauser", &[]);
    let res = state
        .execute_withdraw(&mock_env(), &info, 10)
        .unwrap();
    assert_eq!(
        res.messages,
        vec![CosmosMsg::BankSend {
            to_address: "andromedauser".to_string(),
            amount: vec![Coin::new(10, "junox")],
        }]
    );
    assert_eq!(
        attrs(&res),
        vec![
            ("action".to_string(), "withdrew funds".to_string()),
            ("coin".to_string(), "10junox".to_string()),
        ]
    );
}

#[test]
fn withdraw_after_the_frequency_has_passed() {
    let mut state = funded(50);
    let info = mock_info("andromedauser", &[]);
    let first = mock_env();
    state.execute_withdraw(&first, &info, 10).unwrap();
    let mut almost = first;
    almost.block.time = first.block.time.plus_seconds(86_399);
    assert_eq!(
        state.execute_withdraw(&almost, &info, 10).unwrap_err(),
        ContractError::FundsAreLocked {}
    );
    let mut later = first;
    later.block.time = first.block.time.plus_seconds(86_400);
    state.execute_withdraw(&later, &info, 10).unwrap();
    assert_eq!(
        account(&state, "andromedauser"),
        AccountDetails {
            balance: 10,
            latest_withdrawal: Some(later.block.time),
        }
    );
}

#[test]
fn withdraw_with_funds_is_refused() {
    let mut state = funded(50);
    let info = mock_info("andromedauser", &[(1, "junox")]);
    assert_eq!(
        state.execute_withdraw(&mock_env(), &info, 10).unwrap_err(),
        ContractError::Payment(PaymentError::NonPayable {})
    );
    assert_eq!(account(&state, "andromedauser").balance, 30);
}

#[test]
fn deposit_payment_errors() {
    let mut state = ready(&mock_info("creator", &[]), instantiate_msg(50));
    let none = mock_info("creator", &[]);
    assert_eq!(
        state.execute_deposit(&none, None).unwrap_err(),
        ContractError::Payment(PaymentError::NoFunds {})
    );
    let zero = mock_info("creator", &[(0, "junox")]);
    assert_eq!(
        state.execute_deposit(&zero, None).unwrap_err(),
        ContractError::Payment(PaymentError::NoFunds {})
    );
    let two = mock_info("creator", &[(1, "junox"), (2, "uusd")]);
    assert_eq!(
        state.execute_deposit(&two, None).unwrap_err(),
        ContractError::Payment(PaymentError::MultipleDenoms {})
    );
}

#[test]
fn deposit_response_names_the_sender() {
    let mut state = ready(&mock_info("creator", &[]), instantiate_msg(50));
    let info = mock_info("creator", &[(30, "junox")]);
    let res = state
        .execute_deposit(&info, Some("andromedauser".to_string()))
        .unwrap();
    assert!(res.messages.is_empty());
    assert_eq!(
        attrs(&res),
        vec![
            ("action".to_string(), "funded account".to_string()),
            ("account".to_string(), "creator".to_string()),
        ]
    );
}

#[test]
fn deposit_for_an_existing_recipient_credits_the_sender_key() {
    let mut state = funded(50);
    let info = mock_info("creator", &[(5, "junox")]);
    state
        .execute_deposit(&info, Some("andromedauser".to_string()))
        .unwrap();
    assert_eq!(account(&state, "andromedauser").balance, 30);
    assert_eq!(account(&state, "creator").balance, 35);
}

#[test]
fn deposit_then_withdraw_restores_the_balance() {
    let mut state = ready(&mock_info("creator", &[]), instantiate_msg(50));
    let info = mock_info("alice", &[(40, "junox")]);
    state.execute_deposit(&info, None).unwrap();
    let info = mock_info("alice", &[]);
    state.execute_withdraw(&mock_env(), &info, 40).unwrap();
    assert_eq!(account(&state, "alice").balance, 0);
}

#[test]
fn update_allowed_coin_response_and_payment() {
    let info = mock_info("creator", &[]);
    let mut state = ready(&info, instantiate_msg(50));
    let allowed = CoinAndLimit {
        coin: "juno".to_string(),
        limit: 1234,
    };
    let res = done(state.execute_update_allowed_coin(&info, allowed, Some(7), None)).unwrap();
    assert_eq!(
        attrs(&res),
        vec![
            ("action".to_string(), "updated allowed coin".to_string()),
            ("new_coin".to_string(), "juno".to_string()),
            ("new_withdrawal_limit".to_string(), "1234".to_string()),
        ]
    );
    let paid = mock_info("creator", &[(1, "juno")]);
    let allowed = CoinAndLimit {
        coin: "x".to_string(),
        limit: 1,
    };
    assert_eq!(
        done(state.execute_update_allowed_coin(&paid, allowed, Some(7), None)).unwrap_err(),
        ContractError::Payment(PaymentError::NonPayable {})
    );
    assert_eq!(state.allowed_coin.coin, "juno");
}

#[test]
fn update_by_operator_is_allowed() {
    let mut state = ready(&mock_info("creator", &[]), instantiate_msg(50));
    state.operators.push("op".to_string());
    let allowed = CoinAndLimit {
        coin: "juno".to_string(),
        limit: 1,
    };
    let info = mock_info("op", &[]);
    done(state.execute_update_allowed_coin(&info, allowed, Some(1), None)).unwrap();
    assert_eq!(state.allowed_coin.minimal_withdrawal_frequency, 1);
}

#[test]
fn update_with_both_sources_is_refused() {
    let info = mock_info("creator", &[]);
    let mut state = ready(&info, instantiate_msg(50));
    let allowed = CoinAndLimit {
        coin: "juno".to_string(),
        limit: 1,
    };
    let key = ContractAndKey {
        contract_address: "c".to_string(),
        key: None,
    };
    assert_eq!(
        done(state.execute_update_allowed_coin(&info, allowed, Some(1), Some(key))).unwrap_err(),
        ContractError::OnlyOneSourceAllowed {}
    );
    let allowed = CoinAndLimit {
        coin: "juno".to_string(),
        limit: 1,
    };
    assert_eq!(
        done(state.execute_update_allowed_coin(&info, allowed, None, None)).unwrap_err(),
        ContractError::UnspecifiedWithdrawalFrequency {}
    );
}

fn run_lookup(mut lookup: FrequencyLookup, answers: Vec<Result<u128, ContractError>>) -> (Vec<Option<String>>, Result<u128, ContractError>) {
    let mut asked = Vec::new();
    for answer in answers {
        let (_, key) = lookup.next_query();
        asked.push(key);
        match lookup.record(answer) {
            LookupProgress::Pending(l) => lookup = l,
            LookupProgress::Finished(r) => return (asked, r),
        }
    }
    panic!("the lookup asked for more answers")
}

#[test]
fn lookup_with_key_takes_the_default_value() {
    let info = mock_info("creator", &[]);
    let msg = InstantiateMsg {
        allowed_coin: CoinAndLimit {
            coin: "junox".to_string(),
            limit: 50,
        },
        minimal_withdrawal_frequency: None,
        contract_key: Some(ContractAndKey {
            contract_address: "primitive".to_string(),
            key: Some("key".to_string()),
        }),
    };
    let (owner, pending) = match RateLimitingWithdrawals::instantiate(&info, msg).unwrap() {
        Instantiation::AwaitingFrequency { owner, pending } => (owner, pending),
        Instantiation::Ready(_) => panic!("the frequency is to be looked up"),
    };
    assert_eq!(pending.lookup.next_query().0, "primitive");
    let (asked, freq) = run_lookup(pending.lookup, vec![Ok(5), Ok(9)]);
    assert_eq!(asked, vec![Some("key".to_string()), None]);
    assert_eq!(freq, Ok(9));
    let state =
        RateLimitingWithdrawals::complete_instantiate(owner, pending.allowed_coin, freq).unwrap();
    assert_eq!(state.allowed_coin.minimal_withdrawal_frequency, 9);
    assert_eq!(state.owner, "creator");
}

#[test]
fn lookup_failure_is_the_outcome() {
    let key = ContractAndKey {
        contract_address: "primitive".to_string(),
        key: Some("key".to_string()),
    };
    let failure = ContractError::Std(StdError::GenericErr {
        msg: "no value".to_string(),
    });
    let (asked, freq) = run_lookup(FrequencyLookup::new(key), vec![Err(failure.clone())]);
    assert_eq!(asked.len(), 1);
    assert_eq!(freq, Err(failure));
}

#[test]
fn update_through_lookup() {
    let info = mock_info("creator", &[]);
    let mut state = ready(&info, instantiate_msg(50));
    let allowed = CoinAndLimit {
        coin: "juno".to_string(),
        limit: 3,
    };
    let key = ContractAndKey {
        contract_address: "primitive".to_string(),
        key: None,
    };
    let pending = match state
        .execute_update_allowed_coin(&info, allowed, None, Some(key))
        .unwrap()
    {
        Execution::AwaitingFrequency(p) => p,
        Execution::Done(_) => panic!("the frequency is to be looked up"),
    };
    assert_eq!(state.allowed_coin.coin, "junox");
    let (asked, freq) = run_lookup(pending.lookup, vec![Ok(77)]);
    assert_eq!(asked, vec![None]);
    state
        .complete_update_allowed_coin(pending.allowed_coin, freq)
        .unwrap();
    assert_eq!(
        state.query_coin_allowance_details(),
        CoinAllowance {
            coin: "juno".to_string(),
            limit: 3,
            minimal_withdrawal_frequency: 77,
        }
    );
}

#[test]
fn queries_answer() {
    let state = funded(50);
    assert_eq!(
        state
            .query(&QueryMsg::AccountDetails {
                account: "andromedauser".to_string()
            })
            .unwrap(),
        QueryAnswer::Account(AccountDetails {
            balance: 30,
            latest_withdrawal: None
        })
    );
    assert_eq!(
        state
            .query(&QueryMsg::AccountDetails {
                account: "nobody".to_string()
            })
            .unwrap_err(),
        ContractError::AccountNotFound {}
    );
    assert_eq!(
        state.query(&QueryMsg::CoinAllowanceDetails {}).unwrap(),
        QueryAnswer::CoinAllowance(CoinAllowance {
            coin: "junox".to_string(),
            limit: 50,
            minimal_withdrawal_frequency: 86_400,
        })
    );
}

#[test]
fn migrate_decisions() {
    let name = "crates.io:andromeda-splitter".to_string();
    assert_eq!(migrate(&name, &"0.1.0".to_string(), "0.2.0"), Ok(()));
    assert_eq!(
        migrate(&name, &"0.2.0".to_string(), "0.2.0"),
        Err(ContractError::CannotMigrate {
            previous_contract: "0.2.0".to_string()
        })
    );
    assert_eq!(
        migrate(&name, &"1.0.0".to_string(), "1.0.0-rc.1"),
        Err(ContractError::CannotMigrate {
            previous_contract: "1.0.0".to_string()
        })
    );
    assert_eq!(migrate(&name, &"1.0.0-rc.1".to_string(), "1.0.0"), Ok(()));
    assert_eq!(
        migrate(&name, &"1.0.0".to_string(), "1.0.0"),
        Err(ContractError::CannotMigrate {
            previous_contract: "1.0.0".to_string()
        })
    );
    assert_eq!(
        migrate(&"other".to_string(), &"0.1.0".to_string(), "0.2.0"),
        Err(ContractError::CannotMigrate {
            previous_contract: "other".to_string()
        })
    );
    match migrate(&name, &"not a version".to_string(), "0.2.0") {
        Err(ContractError::Std(StdError::GenericErr { msg })) => assert_eq!(
            msg,
            format!(
                "Semver: {}",
                semver::Version::parse("not a version").unwrap_err()
            )
        ),
        other => panic!("unexpected {:?}", other),
    }
}

#[test]
fn deposit_for_a_never_withdrawn_account_lifts_the_lock() {
    let mut state = funded(50);
    let env = mock_env();
    state
        .execute_deposit(&mock_info("alice", &[(40, "junox")]), None)
        .unwrap();
    state
        .execute_withdraw(&env, &mock_info("alice", &[]), 10)
        .unwrap();
    state
        .execute_deposit(
            &mock_info("alice", &[(1, "junox")]),
            Some("andromedauser".to_string()),
        )
        .unwrap();
    assert_eq!(
        account(&state, "alice"),
        AccountDetails {
            balance: 31,
            latest_withdrawal: None
        }
    );
    state
        .execute_withdraw(&env, &mock_info("alice", &[]), 10)
        .unwrap();
}
