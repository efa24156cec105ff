//! A vault for one native coin. Anyone may deposit the allowed coin into an
//! account; an account holder may withdraw at most a fixed limit at a time,
//! and only once a minimal time has passed since the previous withdrawal.
//! The minimal time is given directly or read from another contract.
use vstd::prelude::*;
use vstd::string::StringExecFns;
use crate::chain::{
    coin_text, decimal_text, nonpayable, one_coin, one_coin_outcome, uint128_text, Coin,
    ContractError, CosmosMsg, Env, MessageInfo, MsgView, PaymentError, Response, StdError,
    Timestamp,
};
use crate::text_map::TextMap;
use crate::version::{parse_version, semver_parse, semver_parse_error, semver_precedes, version_precedes};

verus! {

/// The coin that the vault accepts and the most that one withdrawal may take.
#[derive(Debug, PartialEq, Eq)]
pub struct CoinAndLimit {
    pub coin: String,
    pub limit: u128,
}

impl CoinAndLimit {
    /// A copy of this value.
    pub fn duplicate(&self) -> (r: CoinAndLimit)
        ensures
            r == *self,
    {
        CoinAndLimit { coin: self.coin.clone(), limit: self.limit }
    }
}

/// Another contract that stores the minimal withdrawal frequency, and the
/// key under which it is stored there (its default value when `None`).
#[derive(Debug, PartialEq, Eq)]
pub struct ContractAndKey {
    pub contract_address: String,
    pub key: Option<String>,
}

/// The allowed coin, the withdrawal limit and the minimal number of seconds
/// between two withdrawals of one account.
#[derive(Debug, PartialEq, Eq)]
pub struct CoinAllowance {
    pub coin: String,
    pub limit: u128,
    pub minimal_withdrawal_frequency: u128,
}

impl CoinAllowance {
    /// A copy of this value.
    pub fn duplicate(&self) -> (r: CoinAllowance)
        ensures
            r == *self,
    {
        CoinAllowance {
            coin: self.coin.clone(),
            limit: self.limit,
            minimal_withdrawal_frequency: self.minimal_withdrawal_frequency,
        }
    }
}

/// The balance of an account and when it last withdrew.
#[derive(Clone, Copy, Debug, PartialEq, Eq, Structural)]
pub struct AccountDetails {
    pub balance: u128,
    pub latest_withdrawal: Option<Timestamp>,
}

/// The message that sets the vault up.
#[derive(Debug, PartialEq, Eq)]
pub struct InstantiateMsg {
    pub allowed_coin: CoinAndLimit,
    pub minimal_withdrawal_frequency: Option<u128>,
    pub contract_key: Option<ContractAndKey>,
}

/// The messages that the vault executes.
#[derive(Debug, PartialEq, Eq)]
pub enum ExecuteMsg {
    Deposit { recipient: Option<String> },
    Withdraw { amount: u128 },
    UpdateAllowedCoin {
        allowed_coin: CoinAndLimit,
        minimal_withdrawal_frequency: Option<u128>,
        contract_key: Option<ContractAndKey>,
    },
}

/// The queries that the vault answers.
#[derive(Debug, PartialEq, Eq)]
pub enum QueryMsg {
    CoinAllowanceDetails {},
    AccountDetails { account: String },
}

/// The answer to a query.
#[derive(Debug, PartialEq, Eq)]
pub enum QueryAnswer {
    CoinAllowance(CoinAllowance),
    Account(AccountDetails),
}

/// Where the minimal withdrawal frequency comes from.
#[derive(Debug, PartialEq, Eq)]
pub enum FrequencySource {
    /// Given directly.
    Fixed(u128),
    /// To be read from another contract.
    Lookup(ContractAndKey),
}

/// Exactly one of the two sources of the frequency must be given.
pub open spec fn frequency_source(
    minimal_withdrawal_frequency: Option<u128>,
    contract_key: Option<ContractAndKey>,
) -> Result<FrequencySource, ContractError> {
    match (minimal_withdrawal_frequency, contract_key) {
        (None, None) => Err(ContractError::UnspecifiedWithdrawalFrequency {}),
        (Some(_), Some(_)) => Err(ContractError::OnlyOneSourceAllowed {}),
        (Some(f), None) => Ok(FrequencySource::Fixed(f)),
        (None, Some(c)) => Ok(FrequencySource::Lookup(c)),
    }
}

/// Checks that exactly one source of the withdrawal frequency is given.
pub fn check_frequency_source(
    minimal_withdrawal_frequency: Option<u128>,
    contract_key: Option<ContractAndKey>,
) -> (r: Result<FrequencySource, ContractError>)
    ensures
        r == frequency_source(minimal_withdrawal_frequency, contract_key),
{
    match (minimal_withdrawal_frequency, contract_key) {
        (None, None) => Err(ContractError::UnspecifiedWithdrawalFrequency {}),
        (Some(_), Some(_)) => Err(ContractError::OnlyOneSourceAllowed {}),
        (Some(f), None) => Ok(FrequencySource::Fixed(f)),
        (None, Some(c)) => Ok(FrequencySource::Lookup(c)),
    }
}

/// The text view of an optional text.
pub open spec fn opt_text(o: Option<String>) -> Option<Seq<char>> {
    match o {
        Some(s) => Some(s@),
        None => None,
    }
}

/// The keys asked for, in order, when the frequency is read from another
/// contract: the given key first, if any, and then always the default value.
pub open spec fn lookup_keys(key: Option<Seq<char>>) -> Seq<Option<Seq<char>>> {
    match key {
        Some(k) => seq![Some(k), None],
        None => seq![None],
    }
}

/// The allowance that a coin, a limit and a frequency make.
pub open spec fn allowance_of(c: CoinAndLimit, frequency: u128) -> CoinAllowance {
    CoinAllowance { coin: c.coin, limit: c.limit, minimal_withdrawal_frequency: frequency }
}

fn copy_text_option(o: &Option<String>) -> (r: Option<String>)
    ensures
        r == *o,
{
    match o {
        Some(s) => Some(s.clone()),
        None => None,
    }
}

/// Reading the withdrawal frequency from another contract: the queries still
/// to make, one at a time. The caller makes each query and records its answer.
#[derive(Debug)]
pub struct FrequencyLookup {
    contract_address: String,
    keys: Vec<Option<String>>,
    answered: usize,
}

/// What a lookup needs after an answer: another answer, or nothing more.
#[derive(Debug)]
pub enum LookupProgress {
    Pending(FrequencyLookup),
    Finished(Result<u128, ContractError>),
}

impl FrequencyLookup {
    /// The contract that is asked.
    pub closed spec fn address(self) -> Seq<char> {
        self.contract_address@
    }

    /// All keys to ask for, in order.
    pub closed spec fn planned(self) -> Seq<Option<Seq<char>>> {
        self.keys@.map_values(|k: Option<String>| opt_text(k))
    }

    /// How many queries have been answered so far.
    pub closed spec fn answered(self) -> nat {
        self.answered as nat
    }

    /// Some query is still to be made.
    pub open spec fn wf(self) -> bool {
        self.answered() < self.planned().len()
    }

    /// The lookup for `contract_key`, before any query.
    pub fn new(contract_key: ContractAndKey) -> (r: FrequencyLookup)
        ensures
            r.address() == contract_key.contract_address@,
            r.planned() == lookup_keys(opt_text(contract_key.key)),
            r.answered() == 0,
            r.wf(),
    {
        let ghost ck = contract_key;
        let mut keys: Vec<Option<String>> = Vec::new();
        if contract_key.key.is_some() {
            keys.push(contract_key.key);
        }
        keys.push(None);
        let r = FrequencyLookup { contract_address: contract_key.contract_address, keys, answered: 0 };
        assert(r.planned() =~= lookup_keys(opt_text(ck.key)));
        r
    }

    /// The next query to make: the contract to ask and the key to ask for.
    pub fn next_query(&self) -> (r: (String, Option<String>))
        requires
            self.wf(),
        ensures
            r.0@ == self.address(),
            opt_text(r.1) == self.planned()[self.answered() as int],
    {
        (self.contract_address.clone(), copy_text_option(&self.keys[self.answered]))
    }

    /// Records the answer to the next query. A failed answer ends the lookup
    /// with that error; the answer to the last query gives the frequency.
    pub fn record(self, answer: Result<u128, ContractError>) -> (r: LookupProgress)
        requires
            self.wf(),
        ensures
            match answer {
                Err(e) => r == LookupProgress::Finished(Err(e)),
                Ok(v) => if self.answered() + 1 == self.planned().len() {
                    r == LookupProgress::Finished(Ok::<u128, ContractError>(v))
                } else {
                    r matches LookupProgress::Pending(l) && l.address() == self.address()
                        && l.planned() == self.planned() && l.answered() == self.answered() + 1
                        && l.wf()
                },
            },
    {
        match answer {
            Err(e) => LookupProgress::Finished(Err(e)),
            Ok(v) => {
                if self.answered == self.keys.len() - 1 {
                    LookupProgress::Finished(Ok(v))
                } else {
                    let next = FrequencyLookup {
                        contract_address: self.contract_address,
                        keys: self.keys,
                        answered: self.answered + 1,
                    };
                    LookupProgress::Pending(next)
                }
            },
        }
    }
}

/// An allowance that waits for its frequency to be read from another contract.
#[derive(Debug)]
pub struct PendingAllowance {
    pub allowed_coin: CoinAndLimit,
    pub lookup: FrequencyLookup,
}

/// The state of the vault: its owner and operators, the allowance, and the
/// accounts by address.
#[derive(Debug)]
pub struct RateLimitingWithdrawals {
    pub owner: String,
    pub operators: Vec<String>,
    pub allowed_coin: CoinAllowance,
    pub accounts: TextMap<AccountDetails>,
}

/// The outcome of setting the vault up.
#[derive(Debug)]
pub enum Instantiation {
    /// The vault is set up.
    Ready(RateLimitingWithdrawals),
    /// The frequency has to be read first; then `complete_instantiate` sets the vault up.
    AwaitingFrequency { owner: String, pending: PendingAllowance },
}

/// The outcome of executing a message.
#[derive(Debug)]
pub enum Execution {
    /// The message was carried out.
    Done(Response),
    /// The frequency has to be read first; then `complete_update_allowed_coin` carries it out.
    AwaitingFrequency(PendingAllowance),
}

/// The account that a deposit is for: the recipient if given, else the sender.
pub open spec fn deposit_user(info: MessageInfo, recipient: Option<String>) -> Seq<char> {
    match recipient {
        Some(r) => r@,
        None => info.sender@,
    }
}

/// The accounts after `amount` is deposited for `user` by `sender`. When
/// `user` already has an account, its balance plus the amount is stored
/// under the sender's address.
pub open spec fn deposited_accounts(
    accounts: Map<Seq<char>, AccountDetails>,
    sender: Seq<char>,
    user: Seq<char>,
    amount: u128,
) -> Map<Seq<char>, AccountDetails> {
    if accounts.contains_key(user) {
        accounts.insert(
            sender,
            AccountDetails {
                balance: (accounts[user].balance + amount) as u128,
                latest_withdrawal: accounts[user].latest_withdrawal,
            },
        )
    } else {
        accounts.insert(user, AccountDetails { balance: amount, latest_withdrawal: None })
    }
}

/// The text of the error for a deposit of another coin.
pub open spec fn wrong_coin_text() -> Seq<char> {
    "Coin must be part of the allowed list"@
}

/// A copy of `r` that is a `Result` of a response, when `r` is one.
pub open spec fn as_done(r: Result<Execution, ContractError>) -> Option<Result<Response, ContractError>> {
    match r {
        Ok(Execution::Done(resp)) => Some(Ok(resp)),
        Ok(Execution::AwaitingFrequency(_)) => None,
        Err(e) => Some(Err(e)),
    }
}

impl RateLimitingWithdrawals {
    /// The accounts have distinct addresses.
    pub open spec fn wf(self) -> bool {
        self.accounts.wf()
    }

    pub open spec fn spec_is_owner_or_operator(self, addr: Seq<char>) -> bool {
        ||| self.owner@ == addr
        ||| exists|i: int| 0 <= i < self.operators@.len() && #[trigger] self.operators@[i]@ == addr
    }

    /// `new` is `old` with another allowance.
    pub open spec fn with_allowance(self, allowance: CoinAllowance) -> Self {
        RateLimitingWithdrawals {
            owner: self.owner,
            operators: self.operators,
            allowed_coin: allowance,
            accounts: self.accounts,
        }
    }

    /// What a deposit does: the relation between the state before (`self`),
    /// the state after and the result.
    pub open spec fn deposit_post(
        self,
        new: Self,
        info: MessageInfo,
        recipient: Option<String>,
        r: Result<Response, ContractError>,
    ) -> bool {
        match one_coin_outcome(info.funds@) {
            Err(e) => r == Err::<Response, ContractError>(ContractError::Payment(e)) && new == self,
            Ok(c) => if c.denom@ != self.allowed_coin.coin@ {
                &&& r matches Err(ContractError::InvalidFunds { msg })
                &&& msg@ == wrong_coin_text()
                &&& new == self
            } else {
                &&& r matches Ok(resp)
                &&& resp.msgs() == Seq::<MsgView>::empty()
                &&& resp.attrs() == seq![
                    ("action"@, "funded account"@),
                    ("account"@, info.sender@),
                ]
                &&& new.owner == self.owner
                &&& new.operators == self.operators
                &&& new.allowed_coin == self.allowed_coin
                &&& new.wf()
                &&& new.accounts@ == deposited_accounts(
                    self.accounts@,
                    info.sender@,
                    deposit_user(info, recipient),
                    c.amount,
                )
            },
        }
    }

    /// A deposit reaches the addition of the amount to an existing balance.
    pub open spec fn deposit_adds(self, info: MessageInfo, recipient: Option<String>) -> bool {
        one_coin_outcome(info.funds@) matches Ok(c) && c.denom@ == self.allowed_coin.coin@
            && self.accounts@.contains_key(deposit_user(info, recipient))
    }

    /// The new details of the sender's account after a withdrawal, or why
    /// the withdrawal is refused.
    pub open spec fn withdraw_outcome(self, env: Env, info: MessageInfo, amount: u128) -> Result<
        AccountDetails,
        ContractError,
    > {
        if info.funds@.len() != 0 {
            Err(ContractError::Payment(PaymentError::NonPayable {}))
        } else if !self.accounts@.contains_key(info.sender@) {
            Err(ContractError::AccountNotFound {})
        } else {
            let a = self.accounts@[info.sender@];
            if a.latest_withdrawal is Some && env.block.time.spec_seconds()
                - a.latest_withdrawal->0.spec_seconds()
                < self.allowed_coin.minimal_withdrawal_frequency {
                Err(ContractError::FundsAreLocked {})
            } else if a.balance < amount {
                Err(ContractError::InsufficientFunds {})
            } else if self.allowed_coin.limit < amount {
                Err(ContractError::WithdrawalLimitExceeded {})
            } else {
                Ok(
                    AccountDetails {
                        balance: (a.balance - amount) as u128,
                        latest_withdrawal: Some(env.block.time),
                    },
                )
            }
        }
    }

    /// What a withdrawal does.
    pub open spec fn withdraw_post(
        self,
        new: Self,
        env: Env,
        info: MessageInfo,
        amount: u128,
        r: Result<Response, ContractError>,
    ) -> bool {
        match self.withdraw_outcome(env, info, amount) {
            Err(e) => r == Err::<Response, ContractError>(e) && new == self,
            Ok(details) => {
                &&& r matches Ok(resp)
                &&& resp.msgs() == seq![
                    MsgView::BankSend {
                        to_address: info.sender@,
                        amount: seq![(self.allowed_coin.coin@, amount)],
                    },
                ]
                &&& resp.attrs() == seq![
                    ("action"@, "withdrew funds"@),
                    ("coin"@, decimal_text(amount as nat) + self.allowed_coin.coin@),
                ]
                &&& new.owner == self.owner
                &&& new.operators == self.operators
                &&& new.allowed_coin == self.allowed_coin
                &&& new.wf()
                &&& new.accounts@ == self.accounts@.insert(info.sender@, details)
            },
        }
    }

    /// A withdrawal reaches the subtraction of the last withdrawal's time
    /// from the current time.
    pub open spec fn withdraw_subtracts_times(self, info: MessageInfo) -> bool {
        &&& info.funds@.len() == 0
        &&& self.accounts@.contains_key(info.sender@)
        &&& self.accounts@[info.sender@].latest_withdrawal is Some
    }

    /// The attributes of the response to a change of the allowed coin.
    pub open spec fn update_attrs(c: CoinAndLimit) -> Seq<(Seq<char>, Seq<char>)> {
        seq![
            ("action"@, "updated allowed coin"@),
            ("new_coin"@, c.coin@),
            ("new_withdrawal_limit"@, decimal_text(c.limit as nat)),
        ]
    }

    /// What a request to change the allowed coin does.
    pub open spec fn update_post(
        self,
        new: Self,
        info: MessageInfo,
        allowed_coin: CoinAndLimit,
        minimal_withdrawal_frequency: Option<u128>,
        contract_key: Option<ContractAndKey>,
        r: Result<Execution, ContractError>,
    ) -> bool {
        if info.funds@.len() != 0 {
            r == Err::<Execution, ContractError>(ContractError::Payment(PaymentError::NonPayable {}))
                && new == self
        } else if !self.spec_is_owner_or_operator(info.sender@) {
            r == Err::<Execution, ContractError>(ContractError::Unauthorized {}) && new == self
        } else {
            match frequency_source(minimal_withdrawal_frequency, contract_key) {
                Err(e) => r == Err::<Execution, ContractError>(e) && new == self,
                Ok(FrequencySource::Fixed(f)) => {
                    &&& r matches Ok(Execution::Done(resp))
                    &&& resp.msgs() == Seq::<MsgView>::empty()
                    &&& resp.attrs() == Self::update_attrs(allowed_coin)
                    &&& new == self.with_allowance(allowance_of(allowed_coin, f))
                },
                Ok(FrequencySource::Lookup(c)) => {
                    &&& r matches Ok(Execution::AwaitingFrequency(p))
                    &&& p.allowed_coin == allowed_coin
                    &&& p.lookup.address() == c.contract_address@
                    &&& p.lookup.planned() == lookup_keys(opt_text(c.key))
                    &&& p.lookup.answered() == 0
                    &&& p.lookup.wf()
                    &&& new == self
                },
            }
        }
    }

    /// What finishing a change of the allowed coin does, once the frequency
    /// has been read.
    pub open spec fn complete_update_post(
        self,
        new: Self,
        allowed_coin: CoinAndLimit,
        frequency: Result<u128, ContractError>,
        r: Result<Response, ContractError>,
    ) -> bool {
        match frequency {
            Err(e) => r == Err::<Response, ContractError>(e) && new == self,
            Ok(f) => {
                &&& r matches Ok(resp)
                &&& resp.msgs() == Seq::<MsgView>::empty()
                &&& resp.attrs() == Self::update_attrs(allowed_coin)
                &&& new == self.with_allowance(allowance_of(allowed_coin, f))
            },
        }
    }

    fn fresh(owner: String, allowance: CoinAllowance) -> (r: Self)
        ensures
            r.wf(),
            r.owner == owner,
            r.operators@.len() == 0,
            r.allowed_coin == allowance,
            r.accounts@ == Map::<Seq<char>, AccountDetails>::empty(),
    {
        RateLimitingWithdrawals {
            owner,
            operators: Vec::new(),
            allowed_coin: allowance,
            accounts: TextMap::new(),
        }
    }

    /// Sets the vault up for `msg`, owned by the sender. Exactly one source
    /// of the withdrawal frequency must be given; when it is another
    /// contract, the set-up waits for the frequency to be read from there.
    pub fn instantiate(info: &MessageInfo, msg: InstantiateMsg) -> (r: Result<
        Instantiation,
        ContractError,
    >)
        ensures
            match frequency_source(msg.minimal_withdrawal_frequency, msg.contract_key) {
                Err(e) => r == Err::<Instantiation, ContractError>(e),
                Ok(FrequencySource::Fixed(f)) => {
                    &&& r matches Ok(Instantiation::Ready(s))
                    &&& s.wf()
                    &&& s.owner@ == info.sender@
                    &&& s.operators@.len() == 0
                    &&& s.allowed_coin == allowance_of(msg.allowed_coin, f)
                    &&& s.accounts@ == Map::<Seq<char>, AccountDetails>::empty()
                },
                Ok(FrequencySource::Lookup(c)) => {
                    &&& r matches Ok(Instantiation::AwaitingFrequency { owner, pending })
                    &&& owner@ == info.sender@
                    &&& pending.allowed_coin == msg.allowed_coin
                    &&& pending.lookup.address() == c.contract_address@
                    &&& pending.lookup.planned() == lookup_keys(opt_text(c.key))
                    &&& pending.lookup.answered() == 0
                    &&& pending.lookup.wf()
                },
            },
    {
        let source = check_frequency_source(msg.minimal_withdrawal_frequency, msg.contract_key);
        match source {
            Err(e) => Err(e),
            Ok(FrequencySource::Fixed(f)) => {
                let allowance = CoinAllowance {
                    coin: msg.allowed_coin.coin,
                    limit: msg.allowed_coin.limit,
                    minimal_withdrawal_frequency: f,
                };
                Ok(Instantiation::Ready(Self::fresh(info.sender.clone(), allowance)))
            },
            Ok(FrequencySource::Lookup(c)) => {
                let pending = PendingAllowance {
                    allowed_coin: msg.allowed_coin,
                    lookup: FrequencyLookup::new(c),
                };
                Ok(Instantiation::AwaitingFrequency { owner: info.sender.clone(), pending })
            },
        }
    }

    /// Finishes a set-up that waited for the frequency: fails with the
    /// lookup's error, or sets the vault up with the frequency read.
    pub fn complete_instantiate(
        owner: String,
        allowed_coin: CoinAndLimit,
        frequency: Result<u128, ContractError>,
    ) -> (r: Result<Self, ContractError>)
        ensures
            match frequency {
                Err(e) => r == Err::<Self, ContractError>(e),
                Ok(f) => {
                    &&& r matches Ok(s)
                    &&& s.wf()
                    &&& s.owner == owner
                    &&& s.operators@.len() == 0
                    &&& s.allowed_coin == allowance_of(allowed_coin, f)
                    &&& s.accounts@ == Map::<Seq<char>, AccountDetails>::empty()
                },
            },
    {
        match frequency {
            Err(e) => Err(e),
            Ok(f) => {
                let allowance = CoinAllowance {
                    coin: allowed_coin.coin,
                    limit: allowed_coin.limit,
                    minimal_withdrawal_frequency: f,
                };
                Ok(Self::fresh(owner, allowance))
            },
        }
    }

    /// Whether `addr` is the owner or one of the operators.
    pub fn is_owner_or_operator(&self, addr: &String) -> (r: bool)
        ensures
            r == self.spec_is_owner_or_operator(addr@),
            r <==> (self.owner@ == addr@ || exists|i: int|
                0 <= i < self.operators@.len() && self.operators@[i]@ == addr@),
    {
        if self.owner == *addr {
            return true;
        }
        let n: usize = self.operators.len();
        let mut i: usize = 0;
        while i < n
            invariant
                n == self.operators@.len(),
                0 <= i <= n,
                self.owner@ != addr@,
                forall|j: int| 0 <= j < i ==> self.operators@[j]@ != addr@,
            decreases n - i,
        {
            if self.operators[i] == *addr {
                return true;
            }
            i = i + 1;
        }
        false
    }
}


impl RateLimitingWithdrawals {
    /// Deposits the single coin sent with the message into the account of
    /// `recipient`, or of the sender when no recipient is given.
    pub fn execute_deposit(&mut self, info: &MessageInfo, recipient: Option<String>) -> (r: Result<
        Response,
        ContractError,
    >)
        requires
            old(self).wf(),
            old(self).deposit_adds(*info, recipient) ==> old(self).accounts@[deposit_user(
                *info,
                recipient,
            )].balance + info.funds@[0].amount <= u128::MAX,
        ensures
            old(self).deposit_post(*final(self), *info, recipient, r),
    {
        let ghost user = deposit_user(*info, recipient);
        let coin = match one_coin(info) {
            Ok(c) => c,
            Err(e) => {
                return Err(ContractError::Payment(e));
            },
        };
        if !(self.allowed_coin.coin == coin.denom) {
            return Err(
                ContractError::InvalidFunds { msg: "Coin must be part of the allowed list".to_owned() },
            );
        }
        let user_key = match recipient {
            Some(r) => r,
            None => info.sender.clone(),
        };
        assert(user_key@ == user);
        match self.accounts.get(&user_key) {
            Some(account) => {
                let new_details = AccountDetails {
                    balance: account.balance + coin.amount,
                    latest_withdrawal: account.latest_withdrawal,
                };
                self.accounts.insert(info.sender.clone(), new_details);
            },
            None => {
                let new_details = AccountDetails { balance: coin.amount, latest_withdrawal: None };
                self.accounts.insert(user_key, new_details);
            },
        }
        let res = Response::new().add_attribute("action", "funded account".to_owned()).add_attribute(
            "account",
            info.sender.clone(),
        );
        assert(res.attrs() =~= seq![("action"@, "funded account"@), ("account"@, info.sender@)]);
        Ok(res)
    }

    /// Withdraws `amount` of the allowed coin from the sender's account and
    /// sends it to the sender, when the account exists, enough time has
    /// passed since its last withdrawal, and the amount is within both the
    /// balance and the withdrawal limit.
    pub fn execute_withdraw(&mut self, env: &Env, info: &MessageInfo, amount: u128) -> (r: Result<
        Response,
        ContractError,
    >)
        requires
            old(self).wf(),
            old(self).withdraw_subtracts_times(*info) ==> old(self).accounts@[info.sender@].latest_withdrawal->0.spec_seconds()
                <= env.block.time.spec_seconds(),
        ensures
            old(self).withdraw_post(*final(self), *env, *info, amount, r),
    {
        if let Err(e) = nonpayable(info) {
            return Err(ContractError::Payment(e));
        }
        let account = match self.accounts.get(&info.sender) {
            Some(a) => *a,
            None => {
                return Err(ContractError::AccountNotFound {});
            },
        };
        if let Some(latest) = account.latest_withdrawal {
            let current_time: u128 = env.block.time.seconds() as u128;
            let seconds_since_withdrawal: u128 = current_time - latest.seconds() as u128;
            if seconds_since_withdrawal < self.allowed_coin.minimal_withdrawal_frequency {
                return Err(ContractError::FundsAreLocked {});
            }
        }
        if account.balance < amount {
            return Err(ContractError::InsufficientFunds {});
        }
        if self.allowed_coin.limit < amount {
            return Err(ContractError::WithdrawalLimitExceeded {});
        }
        let new_details = AccountDetails {
            balance: account.balance - amount,
            latest_withdrawal: Some(env.block.time),
        };
        self.accounts.insert(info.sender.clone(), new_details);
        let coin = Coin { denom: self.allowed_coin.coin.clone(), amount };
        let coin_description = coin_text(&coin);
        let ghost cv = (coin.denom@, coin.amount);
        let mut sent: Vec<Coin> = Vec::new();
        sent.push(coin);
        assert(sent@.map_values(|c: Coin| crate::chain::coin_view(c)) =~= seq![cv]);
        let res = Response::new().add_message(
            CosmosMsg::BankSend { to_address: info.sender.clone(), amount: sent },
        ).add_attribute("action", "withdrew funds".to_owned()).add_attribute(
            "coin",
            coin_description,
        );
        assert(res.attrs() =~= seq![
            ("action"@, "withdrew funds"@),
            ("coin"@, decimal_text(amount as nat) + self.allowed_coin.coin@),
        ]);
        assert(res.msgs() =~= seq![
            MsgView::BankSend { to_address: info.sender@, amount: seq![cv] },
        ]);
        Ok(res)
    }

    fn apply_allowance(&mut self, allowed_coin: CoinAndLimit, frequency: u128) -> (r: Response)
        requires
            old(self).wf(),
        ensures
            *final(self) == old(self).with_allowance(allowance_of(allowed_coin, frequency)),
            r.msgs() == Seq::<MsgView>::empty(),
            r.attrs() == Self::update_attrs(allowed_coin),
    {
        let new_coin = allowed_coin.coin.clone();
        let limit_text = uint128_text(allowed_coin.limit);
        self.allowed_coin = CoinAllowance {
            coin: allowed_coin.coin,
            limit: allowed_coin.limit,
            minimal_withdrawal_frequency: frequency,
        };
        let r = Response::new().add_attribute("action", "updated allowed coin".to_owned()).add_attribute(
            "new_coin",
            new_coin,
        ).add_attribute("new_withdrawal_limit", limit_text);
        assert(r.attrs() =~= Self::update_attrs(allowed_coin));
        r
    }

    /// Changes the allowed coin, its limit and the frequency, when no funds
    /// come with the message and the sender is the owner or an operator.
    /// When the frequency is to be read from another contract, nothing
    /// changes yet and the pending change is handed back.
    pub fn execute_update_allowed_coin(
        &mut self,
        info: &MessageInfo,
        allowed_coin: CoinAndLimit,
        minimal_withdrawal_frequency: Option<u128>,
        contract_key: Option<ContractAndKey>,
    ) -> (r: Result<Execution, ContractError>)
        requires
            old(self).wf(),
        ensures
            old(self).update_post(
                *final(self),
                *info,
                allowed_coin,
                minimal_withdrawal_frequency,
                contract_key,
                r,
            ),
    {
        if let Err(e) = nonpayable(info) {
            return Err(ContractError::Payment(e));
        }
        if !self.is_owner_or_operator(&info.sender) {
            return Err(ContractError::Unauthorized {});
        }
        match check_frequency_source(minimal_withdrawal_frequency, contract_key) {
            Err(e) => Err(e),
            Ok(FrequencySource::Fixed(f)) => {
                let res = self.apply_allowance(allowed_coin, f);
                Ok(Execution::Done(res))
            },
            Ok(FrequencySource::Lookup(c)) => {
                let pending = PendingAllowance { allowed_coin, lookup: FrequencyLookup::new(c) };
                Ok(Execution::AwaitingFrequency(pending))
            },
        }
    }

    /// Finishes a change of the allowed coin that waited for the frequency:
    /// fails with the lookup's error, or applies the change.
    pub fn complete_update_allowed_coin(
        &mut self,
        allowed_coin: CoinAndLimit,
        frequency: Result<u128, ContractError>,
    ) -> (r: Result<Response, ContractError>)
        requires
            old(self).wf(),
        ensures
            old(self).complete_update_post(*final(self), allowed_coin, frequency, r),
    {
        match frequency {
            Err(e) => Err(e),
            Ok(f) => Ok(self.apply_allowance(allowed_coin, f)),
        }
    }

    /// Executes a message of the vault.
    pub fn execute(&mut self, env: &Env, info: &MessageInfo, msg: ExecuteMsg) -> (r: Result<
        Execution,
        ContractError,
    >)
        requires
            old(self).wf(),
            msg matches ExecuteMsg::Deposit { recipient } ==> (old(self).deposit_adds(
                *info,
                recipient,
            ) ==> old(self).accounts@[deposit_user(*info, recipient)].balance
                + info.funds@[0].amount <= u128::MAX),
            msg is Withdraw ==> (old(self).withdraw_subtracts_times(*info)
                ==> old(self).accounts@[info.sender@].latest_withdrawal->0.spec_seconds()
                <= env.block.time.spec_seconds()),
        ensures
            final(self).wf(),
            match msg {
                ExecuteMsg::Deposit { recipient } => as_done(r) matches Some(rr)
                    && old(self).deposit_post(*final(self), *info, recipient, rr),
                ExecuteMsg::Withdraw { amount } => as_done(r) matches Some(rr)
                    && old(self).withdraw_post(*final(self), *env, *info, amount, rr),
                ExecuteMsg::UpdateAllowedCoin {
                    allowed_coin,
                    minimal_withdrawal_frequency,
                    contract_key,
                } => old(self).update_post(
                    *final(self),
                    *info,
                    allowed_coin,
                    minimal_withdrawal_frequency,
                    contract_key,
                    r,
                ),
            },
    {
        match msg {
            ExecuteMsg::Deposit { recipient } => match self.execute_deposit(info, recipient) {
                Ok(resp) => Ok(Execution::Done(resp)),
                Err(e) => Err(e),
            },
            ExecuteMsg::Withdraw { amount } => match self.execute_withdraw(env, info, amount) {
                Ok(resp) => Ok(Execution::Done(resp)),
                Err(e) => Err(e),
            },
            ExecuteMsg::UpdateAllowedCoin {
                allowed_coin,
                minimal_withdrawal_frequency,
                contract_key,
            } => self.execute_update_allowed_coin(
                info,
                allowed_coin,
                minimal_withdrawal_frequency,
                contract_key,
            ),
        }
    }

    /// The details of `account`, which must exist.
    pub fn query_account_details(&self, account: &String) -> (r: Result<AccountDetails, ContractError>)
        requires
            self.wf(),
        ensures
            match r {
                Ok(d) => self.accounts@.contains_key(account@) && d == self.accounts@[account@],
                Err(e) => !self.accounts@.contains_key(account@) && e == ContractError::AccountNotFound {},
            },
    {
        match self.accounts.get(account) {
            Some(d) => Ok(*d),
            None => Err(ContractError::AccountNotFound {}),
        }
    }

    /// The current allowance.
    pub fn query_coin_allowance_details(&self) -> (r: CoinAllowance)
        ensures
            r == self.allowed_coin,
    {
        self.allowed_coin.duplicate()
    }

    /// Answers a query of the vault.
    pub fn query(&self, msg: &QueryMsg) -> (r: Result<QueryAnswer, ContractError>)
        requires
            self.wf(),
        ensures
            match msg {
                QueryMsg::CoinAllowanceDetails {} => r == Ok::<QueryAnswer, ContractError>(
                    QueryAnswer::CoinAllowance(self.allowed_coin),
                ),
                QueryMsg::AccountDetails { account } => if self.accounts@.contains_key(account@) {
                    r == Ok::<QueryAnswer, ContractError>(
                        QueryAnswer::Account(self.accounts@[account@]),
                    )
                } else {
                    r == Err::<QueryAnswer, ContractError>(ContractError::AccountNotFound {})
                },
            },
    {
        match msg {
            QueryMsg::CoinAllowanceDetails {} => Ok(
                QueryAnswer::CoinAllowance(self.query_coin_allowance_details()),
            ),
            QueryMsg::AccountDetails { account } => match self.query_account_details(account) {
                Ok(d) => Ok(QueryAnswer::Account(d)),
                Err(e) => Err(e),
            },
        }
    }
}

/// The name under which the vault records its contract version.
pub open spec fn contract_name_text() -> Seq<char> {
    "crates.io:andromeda-splitter"@
}

/// The name under which the vault records its contract version.
pub fn contract_name() -> (r: String)
    ensures
        r@ == contract_name_text(),
{
    "crates.io:andromeda-splitter".to_owned()
}

/// The error for `version`, a text that is not a semantic version: the
/// parser's message after "Semver: ".
pub open spec fn is_semver_error(e: ContractError, version: Seq<char>) -> bool {
    e matches ContractError::Std(StdError::GenericErr { msg }) && msg@ == "Semver: "@
        + semver_parse_error(version)
}

fn semver_error(text: String) -> (r: ContractError)
    ensures
        r matches ContractError::Std(StdError::GenericErr { msg }) && msg@ == "Semver: "@ + text@,
{
    let msg = "Semver: ".to_owned().concat(text.as_str());
    ContractError::Std(StdError::GenericErr { msg })
}

/// Decides a migration from the stored contract name and version to
/// `contract_version`: both versions must be semantic versions, the stored
/// name must be the vault's, and the stored version must come strictly
/// before the new one.
pub fn migrate(stored_contract: &String, stored_version: &String, contract_version: &str) -> (r: Result<
    (),
    ContractError,
>)
    ensures
        match (semver_parse(contract_version@), semver_parse(stored_version@)) {
            (None, _) => r matches Err(e) && is_semver_error(e, contract_version@),
            (Some(_), None) => r matches Err(e) && is_semver_error(e, stored_version@),
            (Some(new), Some(stored)) => if stored_contract@ != contract_name_text() {
                r matches Err(ContractError::CannotMigrate { previous_contract })
                    && previous_contract@ == stored_contract@
            } else if !semver_precedes(stored, new) {
                r matches Err(ContractError::CannotMigrate { previous_contract })
                    && previous_contract@ == stored_version@
            } else {
                r == Ok::<(), ContractError>(())
            },
        },
        // A migration to the version that is already stored is refused.
        semver_parse(contract_version@) is Some && semver_parse(stored_version@) == semver_parse(
            contract_version@,
        ) && stored_contract@ == contract_name_text() ==> (r matches Err(
            ContractError::CannotMigrate { previous_contract },
        ) && previous_contract@ == stored_version@),
{
    let version = match parse_version(contract_version) {
        Ok(v) => v,
        Err(text) => {
            return Err(semver_error(text));
        },
    };
    let storage_version = match parse_version(stored_version.as_str()) {
        Ok(v) => v,
        Err(text) => {
            return Err(semver_error(text));
        },
    };
    if !(*stored_contract == contract_name()) {
        return Err(ContractError::CannotMigrate { previous_contract: stored_contract.clone() });
    }
    if !version_precedes(&storage_version, &version) {
        return Err(ContractError::CannotMigrate { previous_contract: stored_version.clone() });
    }
    Ok(())
}

} // verus!
