//! Runs of the two contracts: sequences of calls, each with its answer, and
//! the properties that hold along any run.
use vstd::prelude::*;
use crate::chain::{ContractError, Env, Expiration, MessageInfo, Response, Timestamp, NANOS_PER_SECOND};
use crate::nft_timelock::{lock_id_of, LockDetails, NftTimelock, ONE_DAY, ONE_YEAR};
use crate::rate_limiting_withdrawals::{
    deposit_user, AccountDetails, CoinAndLimit, ContractAndKey, Execution,
    RateLimitingWithdrawals,
};

verus! {

/// A call made on the vault, with the answer it got.
pub enum VaultCall {
    Deposit { info: MessageInfo, recipient: Option<String>, result: Result<Response, ContractError> },
    Withdraw { env: Env, info: MessageInfo, amount: u128, result: Result<Response, ContractError> },
    UpdateAllowedCoin {
        info: MessageInfo,
        allowed_coin: CoinAndLimit,
        minimal_withdrawal_frequency: Option<u128>,
        contract_key: Option<ContractAndKey>,
        result: Result<Execution, ContractError>,
    },
    CompleteUpdate {
        allowed_coin: CoinAndLimit,
        frequency: Result<u128, ContractError>,
        result: Result<Response, ContractError>,
    },
}

/// `c`, made on `s` within its function's precondition, leads to `s2`.
pub open spec fn vault_step(s: RateLimitingWithdrawals, s2: RateLimitingWithdrawals, c: VaultCall) -> bool {
    &&& s.wf()
    &&& match c {
        VaultCall::Deposit { info, recipient, result } => {
            &&& s.deposit_adds(info, recipient) ==> s.accounts@[deposit_user(
                info,
                recipient,
            )].balance + info.funds@[0].amount <= u128::MAX
            &&& s.deposit_post(s2, info, recipient, result)
        },
        VaultCall::Withdraw { env, info, amount, result } => {
            &&& s.withdraw_subtracts_times(info) ==> s.accounts@[info.sender@].latest_withdrawal->0.spec_seconds()
                <= env.block.time.spec_seconds()
            &&& s.withdraw_post(s2, env, info, amount, result)
        },
        VaultCall::UpdateAllowedCoin {
            info,
            allowed_coin,
            minimal_withdrawal_frequency,
            contract_key,
            result,
        } => s.update_post(s2, info, allowed_coin, minimal_withdrawal_frequency, contract_key, result),
        VaultCall::CompleteUpdate { allowed_coin, frequency, result } => s.complete_update_post(
            s2,
            allowed_coin,
            frequency,
            result,
        ),
    }
}

/// `states[i + 1]` is what `calls[i]` makes of `states[i]`, for every call.
pub open spec fn vault_run(states: Seq<RateLimitingWithdrawals>, calls: Seq<VaultCall>) -> bool {
    &&& states.len() == calls.len() + 1
    &&& forall|i: int| #![trigger calls[i]] 0 <= i < calls.len() ==> vault_step(states[i], states[i + 1], calls[i])
}

/// `c` is a successful withdrawal by `who`.
pub open spec fn withdrew(c: VaultCall, who: Seq<char>) -> bool {
    c matches VaultCall::Withdraw { info, result, .. } && info.sender@ == who && result is Ok
}

/// The block time of a withdrawal.
pub open spec fn call_time(c: VaultCall) -> Timestamp {
    match c {
        VaultCall::Withdraw { env, .. } => env.block.time,
        _ => Timestamp { nanos: 0 },
    }
}

/// The amount asked for by a withdrawal.
pub open spec fn call_amount(c: VaultCall) -> u128 {
    match c {
        VaultCall::Withdraw { amount, .. } => amount,
        _ => 0,
    }
}

/// `c` is a successful deposit by `who` for another account that exists in
/// `s`: it stores that account's details under `who`'s address.
pub open spec fn copies_other_account(c: VaultCall, s: RateLimitingWithdrawals, who: Seq<char>) -> bool {
    c matches VaultCall::Deposit { info, recipient, result } && info.sender@ == who
        && deposit_user(info, recipient) != who && s.accounts@.contains_key(
        deposit_user(info, recipient),
    ) && result is Ok
}

/// `c` is a successful deposit by `who` for another existing account whose
/// last withdrawal is missing or lies, in whole seconds, before `t`: it
/// brings that last withdrawal to `who`'s address.
pub open spec fn copies_earlier_withdrawal(
    c: VaultCall,
    s: RateLimitingWithdrawals,
    who: Seq<char>,
    t: Timestamp,
) -> bool {
    &&& copies_other_account(c, s, who)
    &&& !(s.accounts@[deposit_user(c->Deposit_info, c->Deposit_recipient)].latest_withdrawal matches Some(
        l,
    ) && l.spec_seconds() >= t.spec_seconds())
}

/// `c` is a deposit or a withdrawal by `who`, or a deposit for `who`.
pub open spec fn writes_account(c: VaultCall, who: Seq<char>) -> bool {
    match c {
        VaultCall::Deposit { info, recipient, .. } => info.sender@ == who || deposit_user(
            info,
            recipient,
        ) == who,
        VaultCall::Withdraw { info, .. } => info.sender@ == who,
        _ => false,
    }
}

/// `c` asks to change the allowance, without funds, by the owner or an
/// operator of `s`, and is not refused.
pub open spec fn authorized_update(c: VaultCall, s: RateLimitingWithdrawals) -> bool {
    c matches VaultCall::UpdateAllowedCoin { info, result, .. } && info.funds@.len() == 0
        && s.spec_is_owner_or_operator(info.sender@) && result is Ok
}

/// `c` is a request to change the allowance that waits for the frequency,
/// for `allowed_coin`.
pub open spec fn requests_lookup(c: VaultCall, allowed_coin: CoinAndLimit) -> bool {
    c matches VaultCall::UpdateAllowedCoin { result, .. } && result matches Ok(
        Execution::AwaitingFrequency(p),
    ) && p.allowed_coin == allowed_coin
}

/// Every completion of a change of the allowance in `calls` finishes a
/// request made earlier in the run.
pub open spec fn completions_requested(calls: Seq<VaultCall>) -> bool {
    forall|j: int|
        #![trigger calls[j]]
        0 <= j < calls.len() ==> (calls[j] matches VaultCall::CompleteUpdate { allowed_coin, .. }
            ==> exists|i: int| 0 <= i < j && #[trigger] requests_lookup(calls[i], allowed_coin))
}

/// No call changes the owner or the operators.
pub proof fn lemma_owner_kept(states: Seq<RateLimitingWithdrawals>, calls: Seq<VaultCall>, n: int)
    requires
        vault_run(states, calls),
        0 <= n <= calls.len(),
    ensures
        states[n].owner == states[0].owner,
        states[n].operators == states[0].operators,
    decreases n,
{
    if n > 0 {
        lemma_owner_kept(states, calls, n - 1);
        assert(vault_step(states[n - 1], states[n], calls[n - 1]));
    }
}

proof fn lemma_latest_kept(
    states: Seq<RateLimitingWithdrawals>,
    calls: Seq<VaultCall>,
    who: Seq<char>,
    i: int,
    m: int,
)
    requires
        vault_run(states, calls),
        0 <= i < m <= calls.len(),
        withdrew(calls[i], who),
        forall|k: int|
            i < k < m ==> !copies_earlier_withdrawal(
                #[trigger] calls[k],
                states[k],
                who,
                call_time(calls[i]),
            ),
    ensures
        states[m].accounts@.contains_key(who),
        states[m].accounts@[who].latest_withdrawal is Some,
        states[m].accounts@[who].latest_withdrawal->0.spec_seconds() >= call_time(
            calls[i],
        ).spec_seconds(),
    decreases m,
{
    if m == i + 1 {
        assert(vault_step(states[i], states[i + 1], calls[i]));
    } else {
        lemma_latest_kept(states, calls, who, i, m - 1);
        let k = m - 1;
        assert(vault_step(states[k], states[m], calls[k]));
        assert(!copies_earlier_withdrawal(calls[k], states[k], who, call_time(calls[i])));
        let old_latest = states[k].accounts@[who].latest_withdrawal->0;
        match calls[k] {
            VaultCall::Withdraw { env, info, amount, result } => {
                if result is Ok && info.sender@ == who {
                    assert(env.block.time.spec_seconds() - old_latest.spec_seconds()
                        >= states[k].allowed_coin.minimal_withdrawal_frequency);
                }
            },
            _ => {},
        }
    }
}

/// Two successful withdrawals by one account lie at least the minimal
/// withdrawal frequency in force at the later one apart, in whole seconds,
/// whatever other calls come between them; and the later one takes no more
/// than the limit and the balance. This holds unless, between them, the
/// account holder deposits for another existing account whose last
/// withdrawal is missing or earlier than the first of the two: such a
/// deposit stores that account's details, last withdrawal included, under
/// the holder's address.
pub proof fn lemma_withdrawals_spaced_in_runs(
    states: Seq<RateLimitingWithdrawals>,
    calls: Seq<VaultCall>,
    who: Seq<char>,
    i: int,
    j: int,
)
    requires
        vault_run(states, calls),
        0 <= i < j < calls.len(),
        withdrew(calls[i], who),
        withdrew(calls[j], who),
        forall|k: int|
            i < k < j ==> !copies_earlier_withdrawal(
                #[trigger] calls[k],
                states[k],
                who,
                call_time(calls[i]),
            ),
    ensures
        call_time(calls[j]).spec_seconds() - call_time(calls[i]).spec_seconds()
            >= states[j].allowed_coin.minimal_withdrawal_frequency,
        call_amount(calls[j]) <= states[j].allowed_coin.limit,
        call_amount(calls[j]) <= states[j].accounts@[who].balance,
{
    lemma_latest_kept(states, calls, who, i, j);
    assert(vault_step(states[j], states[j + 1], calls[j]));
}

/// An account that no call of a stretch of a run deposits into, withdraws
/// from or deposits for stays as it was.
pub proof fn lemma_account_kept(
    states: Seq<RateLimitingWithdrawals>,
    calls: Seq<VaultCall>,
    who: Seq<char>,
    a: int,
    b: int,
)
    requires
        vault_run(states, calls),
        0 <= a <= b <= calls.len(),
        forall|k: int| a <= k < b ==> !writes_account(#[trigger] calls[k], who),
    ensures
        states[b].accounts@.contains_key(who) == states[a].accounts@.contains_key(who),
        states[a].accounts@.contains_key(who) ==> states[b].accounts@[who] == states[a].accounts@[who],
    decreases b,
{
    if b > a {
        lemma_account_kept(states, calls, who, a, b - 1);
        let k = b - 1;
        assert(vault_step(states[k], states[b], calls[k]));
        assert(!writes_account(calls[k], who));
    }
}

/// A deposit into a new account, followed by calls none of which touches
/// that account, leaves the account with the deposited coin as its balance
/// and no withdrawal: what a query of the account then answers.
pub proof fn lemma_query_reads_deposit(
    states: Seq<RateLimitingWithdrawals>,
    calls: Seq<VaultCall>,
    i: int,
    n: int,
)
    requires
        vault_run(states, calls),
        0 <= i < n <= calls.len(),
        calls[i] matches VaultCall::Deposit { info, recipient, result } && result is Ok
            && !states[i].accounts@.contains_key(deposit_user(info, recipient)),
        forall|k: int|
            i < k < n ==> !writes_account(
                #[trigger] calls[k],
                deposit_user(calls[i]->Deposit_info, calls[i]->Deposit_recipient),
            ),
    ensures
        ({
            let info = calls[i]->Deposit_info;
            let who = deposit_user(info, calls[i]->Deposit_recipient);
            &&& states[n].accounts@.contains_key(who)
            &&& states[n].accounts@[who] == AccountDetails {
                balance: info.funds@[0].amount,
                latest_withdrawal: None,
            }
        }),
{
    let info = calls[i]->Deposit_info;
    let who = deposit_user(info, calls[i]->Deposit_recipient);
    assert(vault_step(states[i], states[i + 1], calls[i]));
    assert(crate::chain::one_coin_outcome(info.funds@) is Ok);
    assert(info.funds@.len() == 1);
    lemma_account_kept(states, calls, who, i + 1, n);
}

/// Along a run in which every completion of a change of the allowance
/// finishes a request made earlier, the allowance differs from the first
/// one only after a request to change it, without funds, by the owner or an
/// operator, that was not refused.
pub proof fn lemma_allowance_changes_only_on_request(
    states: Seq<RateLimitingWithdrawals>,
    calls: Seq<VaultCall>,
    n: int,
)
    requires
        vault_run(states, calls),
        completions_requested(calls),
        0 <= n <= calls.len(),
        states[n].allowed_coin != states[0].allowed_coin,
    ensures
        exists|i: int| 0 <= i < n && #[trigger] authorized_update(calls[i], states[0]),
    decreases n,
{
    if n == 0 {
        assert(false);
    } else if states[n - 1].allowed_coin != states[0].allowed_coin {
        lemma_allowance_changes_only_on_request(states, calls, n - 1);
        let i = choose|i: int| 0 <= i < n - 1 && #[trigger] authorized_update(calls[i], states[0]);
        assert(authorized_update(calls[i], states[0]));
    } else {
        let k = n - 1;
        assert(vault_step(states[k], states[n], calls[k]));
        lemma_owner_kept(states, calls, k);
        match calls[k] {
            VaultCall::UpdateAllowedCoin { .. } => {
                assert(authorized_update(calls[k], states[0]));
            },
            VaultCall::CompleteUpdate { allowed_coin, .. } => {
                let i = choose|i: int| 0 <= i < k && #[trigger] requests_lookup(calls[i], allowed_coin);
                assert(requests_lookup(calls[i], allowed_coin));
                assert(vault_step(states[i], states[i + 1], calls[i]));
                lemma_owner_kept(states, calls, i);
                assert(authorized_update(calls[i], states[0]));
            },
            _ => {},
        }
    }
}

/// Along a run with no request to change the allowance and no completion of
/// one, the allowance stays the one the vault was set up with: what a query
/// of the allowance answers.
pub proof fn lemma_allowance_kept(states: Seq<RateLimitingWithdrawals>, calls: Seq<VaultCall>, n: int)
    requires
        vault_run(states, calls),
        0 <= n <= calls.len(),
        forall|k: int|
            0 <= k < calls.len() ==> !(#[trigger] calls[k] is UpdateAllowedCoin) && !(
            calls[k] is CompleteUpdate),
    ensures
        states[n].allowed_coin == states[0].allowed_coin,
{
    if states[n].allowed_coin != states[0].allowed_coin {
        assert(completions_requested(calls));
        lemma_allowance_changes_only_on_request(states, calls, n);
        let i = choose|i: int| 0 <= i < n && #[trigger] authorized_update(calls[i], states[0]);
        assert(authorized_update(calls[i], states[0]));
    }
}

/// A call made on the time lock, with the answer it got.
pub enum LockCall {
    Lock {
        env: Env,
        info: MessageInfo,
        recipient: Option<String>,
        recipient_check: Result<(), ContractError>,
        nft_id: String,
        lock_time: u64,
        nft_contract: String,
        result: Result<Response, ContractError>,
    },
    Claim { env: Env, info: MessageInfo, lock_id: String, result: Result<Response, ContractError> },
}

/// `c`, made on `s` within its function's precondition, leads to `s2`.
pub open spec fn lock_step(s: NftTimelock, s2: NftTimelock, c: LockCall) -> bool {
    &&& s.wf()
    &&& match c {
        LockCall::Lock {
            env,
            info,
            recipient,
            recipient_check,
            nft_id,
            lock_time,
            nft_contract,
            result,
        } => {
            &&& s.lock_accepted(recipient, recipient_check, nft_id, lock_time, nft_contract)
                ==> env.block.time.nanos + lock_time * NANOS_PER_SECOND <= u64::MAX
            &&& s.lock_post(
                s2,
                env,
                info,
                recipient,
                recipient_check,
                nft_id,
                lock_time,
                nft_contract,
                result,
            )
        },
        LockCall::Claim { env, info, lock_id, result } => s.claim_post(
            s2,
            env,
            info,
            lock_id@,
            result,
        ),
    }
}

/// `states[i + 1]` is what `calls[i]` makes of `states[i]`, for every call.
pub open spec fn lock_run(states: Seq<NftTimelock>, calls: Seq<LockCall>) -> bool {
    &&& states.len() == calls.len() + 1
    &&& forall|i: int| #![trigger calls[i]] 0 <= i < calls.len() ==> lock_step(states[i], states[i + 1], calls[i])
}

/// `c` is a successful lock under lock id `k`.
pub open spec fn locks(c: LockCall, k: Seq<char>) -> bool {
    c matches LockCall::Lock { nft_id, nft_contract, result, .. } && result is Ok && lock_id_of(
        nft_contract@,
        nft_id@,
    ) == k
}

/// `c` is a successful claim of lock id `k`.
pub open spec fn claims(c: LockCall, k: Seq<char>) -> bool {
    c matches LockCall::Claim { lock_id, result, .. } && result is Ok && lock_id@ == k
}

/// `c` is a claim of lock id `k`.
pub open spec fn asks_claim(c: LockCall, k: Seq<char>) -> bool {
    c matches LockCall::Claim { lock_id, .. } && lock_id@ == k
}

/// The block time of a call.
pub open spec fn lock_call_time(c: LockCall) -> Timestamp {
    match c {
        LockCall::Lock { env, .. } => env.block.time,
        LockCall::Claim { env, .. } => env.block.time,
    }
}

/// The lock time asked for by a lock request.
pub open spec fn lock_call_duration(c: LockCall) -> u64 {
    match c {
        LockCall::Lock { lock_time, .. } => lock_time,
        _ => 0,
    }
}

/// The details that a successful lock request stores.
pub open spec fn lock_entry(c: LockCall) -> LockDetails {
    match c {
        LockCall::Lock { env, info, recipient, nft_id, lock_time, nft_contract, .. } => LockDetails {
            recipient: match recipient {
                Some(a) => a,
                None => info.sender,
            },
            expiration: Expiration::AtTime(
                Timestamp { nanos: (env.block.time.nanos + lock_time * NANOS_PER_SECOND) as u64 },
            ),
            nft_id: nft_id,
            nft_contract: nft_contract,
        },
        LockCall::Claim { .. } => arbitrary(),
    }
}

/// `d`, stored under `k`, is what the successful lock request `c` stored:
/// `k` is the NFT contract's address followed by the token id, and the lock
/// ends between one day and one year after the block time of `c`.
pub open spec fn stored_by(c: LockCall, k: Seq<char>, d: LockDetails) -> bool {
    &&& locks(c, k)
    &&& d == lock_entry(c)
    &&& k == d.nft_contract@ + d.nft_id@
    &&& ONE_DAY <= lock_call_duration(c) <= ONE_YEAR
    &&& lock_call_time(c).nanos + lock_call_duration(c) * NANOS_PER_SECOND <= u64::MAX
    &&& d.expiration == Expiration::AtTime(
        Timestamp { nanos: (lock_call_time(c).nanos + lock_call_duration(c) * NANOS_PER_SECOND) as u64 },
    )
}

/// In every state of a run that starts with nothing locked, each lock was
/// stored by a successful lock request earlier in the run, unchanged since:
/// its id is the NFT contract's address followed by the token id, and it
/// ends between one day and one year after the block time of that request.
pub proof fn lemma_lock_table(states: Seq<NftTimelock>, calls: Seq<LockCall>, n: int)
    requires
        lock_run(states, calls),
        states[0].locked_items@ == Map::<Seq<char>, LockDetails>::empty(),
        0 <= n <= calls.len(),
    ensures
        forall|k: Seq<char>|
            #[trigger] states[n].locked_items@.contains_key(k) ==> exists|i: int|
                0 <= i < n && #[trigger] stored_by(calls[i], k, states[n].locked_items@[k]),
    decreases n,
{
    if n > 0 {
        let m = n - 1;
        lemma_lock_table(states, calls, m);
        assert(lock_step(states[m], states[n], calls[m]));
        assert forall|k: Seq<char>| #[trigger] states[n].locked_items@.contains_key(k) implies exists|i: int|
            0 <= i < n && #[trigger] stored_by(calls[i], k, states[n].locked_items@[k]) by {
            if locks(calls[m], k) {
                assert(stored_by(calls[m], k, states[n].locked_items@[k]));
            } else {
                assert(states[m].locked_items@.contains_key(k));
                assert(states[n].locked_items@[k] == states[m].locked_items@[k]);
                let i = choose|i: int| 0 <= i < m && #[trigger] stored_by(calls[i], k, states[m].locked_items@[k]);
                assert(stored_by(calls[i], k, states[n].locked_items@[k]));
            }
        }
    }
}

/// A lock that no call of a stretch of a run claims stays as it was.
pub proof fn lemma_lock_kept(states: Seq<NftTimelock>, calls: Seq<LockCall>, k: Seq<char>, a: int, b: int)
    requires
        lock_run(states, calls),
        0 <= a <= b <= calls.len(),
        states[a].locked_items@.contains_key(k),
        forall|m: int| a <= m < b ==> !claims(#[trigger] calls[m], k),
    ensures
        states[b].locked_items@.contains_key(k),
        states[b].locked_items@[k] == states[a].locked_items@[k],
    decreases b,
{
    if b > a {
        lemma_lock_kept(states, calls, k, a, b - 1);
        let m = b - 1;
        assert(lock_step(states[m], states[b], calls[m]));
        assert(!claims(calls[m], k));
    }
}

/// A lock id that no call of a stretch of a run locks stays unlocked.
pub proof fn lemma_lock_absent(states: Seq<NftTimelock>, calls: Seq<LockCall>, k: Seq<char>, a: int, b: int)
    requires
        lock_run(states, calls),
        0 <= a <= b <= calls.len(),
        !states[a].locked_items@.contains_key(k),
        forall|m: int| a <= m < b ==> !locks(#[trigger] calls[m], k),
    ensures
        !states[b].locked_items@.contains_key(k),
    decreases b,
{
    if b > a {
        lemma_lock_absent(states, calls, k, a, b - 1);
        let m = b - 1;
        assert(lock_step(states[m], states[b], calls[m]));
        assert(!locks(calls[m], k));
    }
}

/// After a successful lock, until the lock is claimed, a query of its id
/// answers the details that the lock stored.
pub proof fn lemma_query_reads_lock(states: Seq<NftTimelock>, calls: Seq<LockCall>, k: Seq<char>, i: int, n: int)
    requires
        lock_run(states, calls),
        0 <= i < n <= calls.len(),
        locks(calls[i], k),
        forall|m: int| i < m < n ==> !claims(#[trigger] calls[m], k),
    ensures
        states[n].locked_items@.contains_key(k),
        states[n].locked_items@[k] == lock_entry(calls[i]),
{
    assert(lock_step(states[i], states[i + 1], calls[i]));
    lemma_lock_kept(states, calls, k, i + 1, n);
}

/// A lock's first successful claim comes no sooner than the lock's end,
/// which is at least one day after the lock request: an NFT is not released
/// early, whatever calls come between.
pub proof fn lemma_claim_not_before_expiry(
    states: Seq<NftTimelock>,
    calls: Seq<LockCall>,
    k: Seq<char>,
    i: int,
    j: int,
)
    requires
        lock_run(states, calls),
        0 <= i < j < calls.len(),
        locks(calls[i], k),
        claims(calls[j], k),
        forall|m: int| i < m < j ==> !claims(#[trigger] calls[m], k),
    ensures
        lock_call_time(calls[j]).nanos >= lock_call_time(calls[i]).nanos + lock_call_duration(
            calls[i],
        ) * NANOS_PER_SECOND,
        lock_call_time(calls[j]).nanos >= lock_call_time(calls[i]).nanos + ONE_DAY * NANOS_PER_SECOND,
{
    assert(lock_step(states[i], states[i + 1], calls[i]));
    lemma_lock_kept(states, calls, k, i + 1, j);
    assert(lock_step(states[j], states[j + 1], calls[j]));
    assert(lock_call_duration(calls[i]) >= ONE_DAY);
    assert(lock_call_duration(calls[i]) * NANOS_PER_SECOND >= ONE_DAY * NANOS_PER_SECOND) by (nonlinear_arith)
        requires
            lock_call_duration(calls[i]) >= ONE_DAY,
    ;
}

/// After a successful claim, every claim of the same lock id finds nothing
/// until the id is locked again: an NFT is released at most once per lock.
/// After the claim, a query of the id finds nothing either.
pub proof fn lemma_claim_at_most_once(
    states: Seq<NftTimelock>,
    calls: Seq<LockCall>,
    k: Seq<char>,
    j: int,
    m: int,
)
    requires
        lock_run(states, calls),
        0 <= j < m <= calls.len(),
        claims(calls[j], k),
        forall|q: int| j < q < m ==> !locks(#[trigger] calls[q], k),
    ensures
        !states[m].locked_items@.contains_key(k),
        m < calls.len() && asks_claim(calls[m], k) ==> calls[m]->Claim_result
            == Err::<Response, ContractError>(ContractError::NFTNotFound {}),
{
    assert(lock_step(states[j], states[j + 1], calls[j]));
    lemma_lock_absent(states, calls, k, j + 1, m);
    if m < calls.len() && asks_claim(calls[m], k) {
        assert(lock_step(states[m], states[m + 1], calls[m]));
    }
}

} // verus!
