//! Properties of the two contracts that span several calls.
use vstd::prelude::*;
use crate::chain::{
    one_coin_outcome, ContractError, Env, Expiration, MessageInfo, MsgView, PaymentError,
    Response, NANOS_PER_SECOND,
};
use crate::nft_timelock::{lock_id_of, NftTimelock, ONE_DAY, ONE_YEAR};
use crate::rate_limiting_withdrawals::{
    deposit_user, AccountDetails, ContractAndKey, CoinAndLimit, Execution,
    RateLimitingWithdrawals,
};

verus! {

/// Two successful withdrawals from one account lie at least the minimal
/// withdrawal frequency apart, in whole seconds.
pub proof fn lemma_withdrawals_are_spaced(
    s0: RateLimitingWithdrawals,
    s1: RateLimitingWithdrawals,
    s2: RateLimitingWithdrawals,
    env1: Env,
    env2: Env,
    info1: MessageInfo,
    info2: MessageInfo,
    amount1: u128,
    amount2: u128,
    r1: Result<Response, ContractError>,
    r2: Result<Response, ContractError>,
)
    requires
        s0.withdraw_post(s1, env1, info1, amount1, r1),
        s1.withdraw_post(s2, env2, info2, amount2, r2),
        r1 is Ok,
        r2 is Ok,
        info1.sender@ == info2.sender@,
    ensures
        env2.block.time.spec_seconds() - env1.block.time.spec_seconds()
            >= s0.allowed_coin.minimal_withdrawal_frequency,
{
    assert(s1.accounts@[info2.sender@].latest_withdrawal == Some(env1.block.time));
}

/// A successful withdrawal takes no more than the balance and no more than
/// the withdrawal limit, and lowers the balance by exactly the amount.
pub proof fn lemma_withdrawal_within_limits(
    s0: RateLimitingWithdrawals,
    s1: RateLimitingWithdrawals,
    env: Env,
    info: MessageInfo,
    amount: u128,
    r: Result<Response, ContractError>,
)
    requires
        s0.withdraw_post(s1, env, info, amount, r),
        r is Ok,
    ensures
        s0.accounts@.contains_key(info.sender@),
        amount <= s0.accounts@[info.sender@].balance,
        amount <= s0.allowed_coin.limit,
        s1.accounts@[info.sender@].balance == s0.accounts@[info.sender@].balance - amount,
        s1.allowed_coin == s0.allowed_coin,
{
}

/// A refused deposit, withdrawal or change of the allowed coin leaves the
/// vault as it was.
pub proof fn lemma_refusals_change_nothing(
    s0: RateLimitingWithdrawals,
    s1: RateLimitingWithdrawals,
    env: Env,
    info: MessageInfo,
    recipient: Option<String>,
    amount: u128,
    allowed_coin: CoinAndLimit,
    minimal_withdrawal_frequency: Option<u128>,
    contract_key: Option<ContractAndKey>,
    r: Result<Response, ContractError>,
    ru: Result<crate::rate_limiting_withdrawals::Execution, ContractError>,
)
    ensures
        s0.deposit_post(s1, info, recipient, r) && r is Err ==> s1 == s0,
        s0.withdraw_post(s1, env, info, amount, r) && r is Err ==> s1 == s0,
        s0.update_post(s1, info, allowed_coin, minimal_withdrawal_frequency, contract_key, ru)
            && ru is Err ==> s1 == s0,
{
}

/// A request to change the allowance is carried out, or put on hold for
/// its frequency, only when the owner or an operator makes it without
/// sending funds. (Finishing a held change is covered, over whole runs, by
/// `lemma_allowance_changes_only_on_request`.)
pub proof fn lemma_only_owner_or_operator_changes_allowance(
    s0: RateLimitingWithdrawals,
    s1: RateLimitingWithdrawals,
    info: MessageInfo,
    allowed_coin: CoinAndLimit,
    minimal_withdrawal_frequency: Option<u128>,
    contract_key: Option<ContractAndKey>,
    r: Result<crate::rate_limiting_withdrawals::Execution, ContractError>,
)
    requires
        s0.update_post(s1, info, allowed_coin, minimal_withdrawal_frequency, contract_key, r),
        s1.allowed_coin != s0.allowed_coin || r is Ok,
    ensures
        s0.spec_is_owner_or_operator(info.sender@),
        info.funds@.len() == 0,
{
}

/// A deposit into one's own account, or into a new account, raises that
/// account's balance by the coin sent and leaves every other account alone.
pub proof fn lemma_deposit_credits_account(
    s0: RateLimitingWithdrawals,
    s1: RateLimitingWithdrawals,
    info: MessageInfo,
    recipient: Option<String>,
    r: Result<Response, ContractError>,
)
    requires
        s0.deposit_post(s1, info, recipient, r),
        r is Ok,
        deposit_user(info, recipient) == info.sender@ || !s0.accounts@.contains_key(
            deposit_user(info, recipient),
        ),
        s0.deposit_adds(info, recipient) ==> s0.accounts@[deposit_user(info, recipient)].balance
            + info.funds@[0].amount <= u128::MAX,
    ensures
        ({
            let user = deposit_user(info, recipient);
            let before = if s0.accounts@.contains_key(user) {
                s0.accounts@[user].balance as int
            } else {
                0int
            };
            &&& s1.accounts@.contains_key(user)
            &&& s1.accounts@[user].balance == before + info.funds@[0].amount
            &&& forall|k: Seq<char>|
                k != user ==> #[trigger] s1.accounts@.contains_key(k) == s0.accounts@.contains_key(k)
                    && (s0.accounts@.contains_key(k) ==> s1.accounts@[k] == s0.accounts@[k])
        }),
{
    assert(one_coin_outcome(info.funds@) is Ok);
    assert(info.funds@.len() == 1);
}

/// Depositing a coin into one's own account and then withdrawing the same
/// amount, when that is within the limit and the account has never
/// withdrawn, gives the balance back that the account had before.
pub proof fn lemma_deposit_then_withdraw_restores_balance(
    s0: RateLimitingWithdrawals,
    s1: RateLimitingWithdrawals,
    s2: RateLimitingWithdrawals,
    env: Env,
    deposit_info: MessageInfo,
    withdraw_info: MessageInfo,
    r1: Result<Response, ContractError>,
    r2: Result<Response, ContractError>,
)
    requires
        s0.deposit_post(s1, deposit_info, None, r1),
        s0.deposit_adds(deposit_info, None) ==> s0.accounts@[deposit_info.sender@].balance
            + deposit_info.funds@[0].amount <= u128::MAX,
        r1 is Ok,
        s1.withdraw_post(s2, env, withdraw_info, deposit_info.funds@[0].amount, r2),
        withdraw_info.sender@ == deposit_info.sender@,
        withdraw_info.funds@.len() == 0,
        deposit_info.funds@[0].amount <= s0.allowed_coin.limit,
        s0.accounts@.contains_key(deposit_info.sender@) ==> s0.accounts@[deposit_info.sender@].latest_withdrawal is None,
    ensures
        r2 is Ok,
        s2.accounts@[deposit_info.sender@].balance == (if s0.accounts@.contains_key(
            deposit_info.sender@,
        ) {
            s0.accounts@[deposit_info.sender@].balance
        } else {
            0
        }),
        s2.accounts@[deposit_info.sender@].latest_withdrawal == Some(env.block.time),
{
    assert(one_coin_outcome(deposit_info.funds@) is Ok);
    assert(deposit_info.funds@.len() == 1);
    let c = one_coin_outcome(deposit_info.funds@)->Ok_0;
    assert(c == deposit_info.funds@[0]);
    let user = deposit_user(deposit_info, None);
    assert(user == deposit_info.sender@);
    assert(s1.accounts@.contains_key(user));
    assert(s1.accounts@[user].latest_withdrawal is None);
    assert(s1.withdraw_outcome(env, withdraw_info, c.amount) is Ok);
}

/// After a token is locked, its recipient's claim succeeds exactly when the
/// block time has reached the lock's end, and a successful claim gives back
/// the locks as they were before the token was locked.
pub proof fn lemma_lock_then_claim(
    s0: NftTimelock,
    s1: NftTimelock,
    s2: NftTimelock,
    env0: Env,
    env1: Env,
    info0: MessageInfo,
    info1: MessageInfo,
    recipient: Option<String>,
    recipient_check: Result<(), ContractError>,
    nft_id: String,
    lock_time: u64,
    nft_contract: String,
    r1: Result<Response, ContractError>,
    r2: Result<Response, ContractError>,
)
    requires
        s0.lock_post(s1, env0, info0, recipient, recipient_check, nft_id, lock_time, nft_contract, r1),
        r1 is Ok,
        s1.claim_post(s2, env1, info1, lock_id_of(nft_contract@, nft_id@), r2),
        info1.sender@ == (match recipient {
            Some(a) => a@,
            None => info0.sender@,
        }),
        env0.block.time.nanos + lock_time * NANOS_PER_SECOND <= u64::MAX,
    ensures
        ONE_DAY <= lock_time <= ONE_YEAR,
        r2 is Ok <==> env1.block.time.nanos >= env0.block.time.nanos + lock_time * NANOS_PER_SECOND,
        r2 is Ok ==> s2.locked_items@ == s0.locked_items@,
{
    if r2 is Ok {
        assert(s2.locked_items@ =~= s0.locked_items@);
    }
}

/// A locked token cannot be locked again while it is locked.
pub proof fn lemma_locked_token_cannot_be_relocked(
    s0: NftTimelock,
    s1: NftTimelock,
    s2: NftTimelock,
    env0: Env,
    env1: Env,
    info0: MessageInfo,
    info1: MessageInfo,
    recipient0: Option<String>,
    recipient1: Option<String>,
    check0: Result<(), ContractError>,
    check1: Result<(), ContractError>,
    nft_id0: String,
    nft_id1: String,
    lock_time0: u64,
    lock_time1: u64,
    nft_contract0: String,
    nft_contract1: String,
    r1: Result<Response, ContractError>,
    r2: Result<Response, ContractError>,
)
    requires
        s0.lock_post(s1, env0, info0, recipient0, check0, nft_id0, lock_time0, nft_contract0, r1),
        r1 is Ok,
        s1.lock_post(s2, env1, info1, recipient1, check1, nft_id1, lock_time1, nft_contract1, r2),
        lock_id_of(nft_contract1@, nft_id1@) == lock_id_of(nft_contract0@, nft_id0@),
        ONE_DAY <= lock_time1 <= ONE_YEAR,
    ensures
        r2 == Err::<Response, ContractError>(ContractError::LockedNFT {}),
        s2 == s1,
{
}

/// Once a token has been claimed, claiming it again finds nothing.
pub proof fn lemma_claim_is_final(
    s0: NftTimelock,
    s1: NftTimelock,
    s2: NftTimelock,
    env1: Env,
    env2: Env,
    info1: MessageInfo,
    info2: MessageInfo,
    lock_id: Seq<char>,
    r1: Result<Response, ContractError>,
    r2: Result<Response, ContractError>,
)
    requires
        s0.claim_post(s1, env1, info1, lock_id, r1),
        r1 is Ok,
        s1.claim_post(s2, env2, info2, lock_id, r2),
    ensures
        r2 == Err::<Response, ContractError>(ContractError::NFTNotFound {}),
{
}

/// A withdrawal succeeds exactly when no funds come with it, the sender has
/// an account, the account has never withdrawn or its last withdrawal lies
/// at least the minimal frequency back (in whole seconds), and the amount is
/// within both the balance and the limit; whether the account withdrew
/// before makes no other difference. A successful withdrawal sends the
/// amount of the allowed coin to the sender, lowers the sender's balance by
/// the amount, records the block time as its last withdrawal, and leaves
/// every other account and the allowance alone.
pub proof fn lemma_withdrawal_succeeds_when_allowed(
    s0: RateLimitingWithdrawals,
    s1: RateLimitingWithdrawals,
    env: Env,
    info: MessageInfo,
    amount: u128,
    r: Result<Response, ContractError>,
)
    requires
        s0.withdraw_post(s1, env, info, amount, r),
    ensures
        r is Ok <==> ({
            &&& info.funds@.len() == 0
            &&& s0.accounts@.contains_key(info.sender@)
            &&& match s0.accounts@[info.sender@].latest_withdrawal {
                None => true,
                Some(t) => env.block.time.spec_seconds() - t.spec_seconds()
                    >= s0.allowed_coin.minimal_withdrawal_frequency,
            }
            &&& amount <= s0.accounts@[info.sender@].balance
            &&& amount <= s0.allowed_coin.limit
        }),
        r is Ok ==> {
            &&& r->Ok_0.msgs() == seq![
                MsgView::BankSend {
                    to_address: info.sender@,
                    amount: seq![(s0.allowed_coin.coin@, amount)],
                },
            ]
            &&& s1.accounts@.contains_key(info.sender@)
            &&& s1.accounts@[info.sender@].balance + amount == s0.accounts@[info.sender@].balance
            &&& s1.accounts@[info.sender@].latest_withdrawal == Some(env.block.time)
            &&& s1.allowed_coin == s0.allowed_coin
            &&& forall|k: Seq<char>|
                k != info.sender@ ==> #[trigger] s1.accounts@.contains_key(k)
                    == s0.accounts@.contains_key(k) && (s0.accounts@.contains_key(k)
                    ==> s1.accounts@[k] == s0.accounts@[k])
        },
        r is Err ==> s1 == s0,
{
}

/// Finishing a change of the allowed coin with a failed frequency lookup
/// answers the lookup's error and leaves the vault as it was; with a
/// frequency, it sets the allowance to the requested coin and limit with
/// that frequency, and changes nothing else.
pub proof fn lemma_complete_update_follows_lookup(
    s0: RateLimitingWithdrawals,
    s1: RateLimitingWithdrawals,
    allowed_coin: CoinAndLimit,
    frequency: Result<u128, ContractError>,
    r: Result<Response, ContractError>,
)
    requires
        s0.complete_update_post(s1, allowed_coin, frequency, r),
    ensures
        frequency matches Err(e) ==> r == Err::<Response, ContractError>(e) && s1 == s0
            && s1.allowed_coin == s0.allowed_coin,
        frequency matches Ok(f) ==> {
            &&& r is Ok
            &&& s1.allowed_coin.coin == allowed_coin.coin
            &&& s1.allowed_coin.limit == allowed_coin.limit
            &&& s1.allowed_coin.minimal_withdrawal_frequency == f
            &&& s1.accounts == s0.accounts
            &&& s1.owner == s0.owner
            &&& s1.operators == s0.operators
        },
{
}

/// A deposit of exactly one non-zero coin of the allowed denomination
/// succeeds, for a new or an existing account, whatever that account's last
/// withdrawal. Into a new account it stores the amount with no withdrawal;
/// into an existing one it adds the amount to that account's balance and
/// keeps its last withdrawal, storing the result under the sender's address
/// (the recipient's own address when the sender deposits for itself). Any
/// other funds are refused, leaving the vault as it was.
pub proof fn lemma_deposit_of_allowed_coin_succeeds(
    s0: RateLimitingWithdrawals,
    s1: RateLimitingWithdrawals,
    info: MessageInfo,
    recipient: Option<String>,
    r: Result<Response, ContractError>,
)
    requires
        s0.deposit_post(s1, info, recipient, r),
        s0.deposit_adds(info, recipient) ==> s0.accounts@[deposit_user(info, recipient)].balance
            + info.funds@[0].amount <= u128::MAX,
    ensures
        r is Ok <==> (info.funds@.len() == 1 && info.funds@[0].amount != 0
            && info.funds@[0].denom@ == s0.allowed_coin.coin@),
        r is Err ==> s1 == s0,
        r is Ok ==> ({
            let user = deposit_user(info, recipient);
            let amount = info.funds@[0].amount;
            if s0.accounts@.contains_key(user) {
                &&& s1.accounts@.contains_key(info.sender@)
                &&& s1.accounts@[info.sender@].balance == s0.accounts@[user].balance + amount
                &&& s1.accounts@[info.sender@].latest_withdrawal
                    == s0.accounts@[user].latest_withdrawal
            } else {
                &&& s1.accounts@.contains_key(user)
                &&& s1.accounts@[user] == AccountDetails { balance: amount, latest_withdrawal: None }
            }
        }),
        r is Ok ==> s1.allowed_coin == s0.allowed_coin,
{
    if info.funds@.len() == 1 {
        assert(one_coin_outcome(info.funds@) == if info.funds@[0].amount == 0 {
            Err::<crate::chain::Coin, PaymentError>(PaymentError::NoFunds {})
        } else {
            Ok(info.funds@[0])
        });
    }
}

/// A lock request with a lock time from one day to one year, for a token
/// that is not locked yet, and with no recipient or one that the chain
/// accepts, succeeds: it stores the lock under the NFT contract's address
/// followed by the token id, for the given recipient (the sender when none
/// is given), ending the lock time after the block time, and leaves every
/// other lock alone. Any other request is refused and changes nothing.
pub proof fn lemma_lock_succeeds_when_allowed(
    s0: NftTimelock,
    s1: NftTimelock,
    env: Env,
    info: MessageInfo,
    recipient: Option<String>,
    recipient_check: Result<(), ContractError>,
    nft_id: String,
    lock_time: u64,
    nft_contract: String,
    r: Result<Response, ContractError>,
)
    requires
        s0.lock_post(s1, env, info, recipient, recipient_check, nft_id, lock_time, nft_contract, r),
        env.block.time.nanos + lock_time * NANOS_PER_SECOND <= u64::MAX,
    ensures
        r is Ok <==> (ONE_DAY <= lock_time <= ONE_YEAR && !s0.locked_items@.contains_key(
            nft_contract@ + nft_id@,
        ) && (recipient is None || recipient_check is Ok)),
        r is Err ==> s1 == s0,
        r is Ok ==> ({
            let k = nft_contract@ + nft_id@;
            let d = s1.locked_items@[k];
            &&& s1.locked_items@.contains_key(k)
            &&& d.recipient@ == (match recipient {
                Some(a) => a@,
                None => info.sender@,
            })
            &&& d.nft_id@ == nft_id@
            &&& d.nft_contract@ == nft_contract@
            &&& d.expiration == Expiration::AtTime(
                crate::chain::Timestamp {
                    nanos: (env.block.time.nanos + lock_time * NANOS_PER_SECOND) as u64,
                },
            )
            &&& forall|k2: Seq<char>|
                k2 != k ==> #[trigger] s1.locked_items@.contains_key(k2)
                    == s0.locked_items@.contains_key(k2) && (s0.locked_items@.contains_key(k2)
                    ==> s1.locked_items@[k2] == s0.locked_items@[k2])
        }),
{
}

/// A change of the allowed coin with a frequency given directly, sent
/// without funds by the owner or by any one of the operators, wherever it
/// stands in the list, is carried out: the allowance becomes the requested
/// coin, limit and frequency. Sent without funds by anyone else, it is
/// refused as unauthorized and changes nothing.
pub proof fn lemma_owner_or_any_operator_may_update(
    s0: RateLimitingWithdrawals,
    s1: RateLimitingWithdrawals,
    info: MessageInfo,
    allowed_coin: CoinAndLimit,
    frequency: u128,
    r: Result<Execution, ContractError>,
)
    requires
        s0.update_post(s1, info, allowed_coin, Some(frequency), None, r),
        info.funds@.len() == 0,
    ensures
        (info.sender@ == s0.owner@ || exists|i: int|
            0 <= i < s0.operators@.len() && s0.operators@[i]@ == info.sender@) ==> {
            &&& r matches Ok(Execution::Done(_))
            &&& s1.allowed_coin.coin == allowed_coin.coin
            &&& s1.allowed_coin.limit == allowed_coin.limit
            &&& s1.allowed_coin.minimal_withdrawal_frequency == frequency
            &&& s1.accounts == s0.accounts
        },
        !(info.sender@ == s0.owner@ || exists|i: int|
            0 <= i < s0.operators@.len() && s0.operators@[i]@ == info.sender@) ==> r
            == Err::<Execution, ContractError>(ContractError::Unauthorized {}) && s1 == s0,
{
    if exists|i: int| 0 <= i < s0.operators@.len() && s0.operators@[i]@ == info.sender@ {
        let i = choose|i: int| 0 <= i < s0.operators@.len() && s0.operators@[i]@ == info.sender@;
        assert(s0.operators@[i]@ == info.sender@);
        assert(s0.spec_is_owner_or_operator(info.sender@));
    }
}

} // verus!
