use vstd::prelude::*;

verus! {

/// Nanoseconds in one second.
pub const NANOS_PER_SECOND: u64 = 1_000_000_000;

/// A point in time, in nanoseconds since the UNIX epoch.
#[derive(Clone, Copy, Debug, PartialEq, Eq, Structural)]
pub struct Timestamp {
    pub nanos: u64,
}

impl Timestamp {
    /// The timestamp `nanos` nanoseconds after the epoch.
    pub fn from_nanos(nanos: u64) -> (r: Timestamp)
        ensures
            r.nanos == nanos,
    {
        Timestamp { nanos }
    }

    /// The timestamp `seconds` seconds after the epoch.
    pub fn from_seconds(seconds: u64) -> (r: Timestamp)
        requires
            seconds * NANOS_PER_SECOND <= u64::MAX,
        ensures
            r.nanos == seconds * NANOS_PER_SECOND,
    {
        Timestamp { nanos: seconds * NANOS_PER_SECOND }
    }

    /// Whole seconds since the epoch.
    pub open spec fn spec_seconds(&self) -> u64 {
        self.nanos / NANOS_PER_SECOND
    }

    /// Whole seconds since the epoch (the nanoseconds, rounded down).
    #[verifier::when_used_as_spec(spec_seconds)]
    pub fn seconds(&self) -> (r: u64)
        ensures
            r == self.nanos / NANOS_PER_SECOND,
    {
        self.nanos / NANOS_PER_SECOND
    }

    /// The timestamp `addition` seconds later; this overflows (and the chain
    /// library panics) past `u64::MAX` nanoseconds, so such inputs are excluded.
    pub fn plus_seconds(&self, addition: u64) -> (r: Timestamp)
        requires
            self.nanos + addition * NANOS_PER_SECOND <= u64::MAX,
        ensures
            r.nanos == self.nanos + addition * NANOS_PER_SECOND,
    {
        assert(addition * NANOS_PER_SECOND <= u64::MAX) by (nonlinear_arith)
            requires
                self.nanos + addition * NANOS_PER_SECOND <= u64::MAX,
        ;
        Timestamp { nanos: self.nanos + addition * NANOS_PER_SECOND }
    }
}

/// The block that a message is executed in.
#[derive(Clone, Copy, Debug, PartialEq, Eq, Structural)]
pub struct BlockInfo {
    pub height: u64,
    pub time: Timestamp,
}

/// The environment of an execution: the current block.
#[derive(Clone, Copy, Debug, PartialEq, Eq, Structural)]
pub struct Env {
    pub block: BlockInfo,
}

/// A moment after which something is over.
#[derive(Clone, Copy, Debug, PartialEq, Eq, Structural)]
pub enum Expiration {
    AtHeight(u64),
    AtTime(Timestamp),
    Never {},
}

impl Expiration {
    pub open spec fn spec_is_expired(self, block: BlockInfo) -> bool {
        match self {
            Expiration::AtHeight(height) => block.height >= height,
            Expiration::AtTime(time) => block.time.nanos >= time.nanos,
            Expiration::Never {} => false,
        }
    }

    /// Whether `block` lies at or past this expiration.
    #[verifier::when_used_as_spec(spec_is_expired)]
    pub fn is_expired(self, block: BlockInfo) -> (r: bool)
        ensures
            r == self.spec_is_expired(block),
    {
        match self {
            Expiration::AtHeight(height) => block.height >= height,
            Expiration::AtTime(time) => block.time.nanos >= time.nanos,
            Expiration::Never {} => false,
        }
    }
}

/// An amount of one denomination of native tokens.
#[derive(Debug, PartialEq, Eq)]
pub struct Coin {
    pub denom: String,
    pub amount: u128,
}

impl Coin {
    /// A coin of `amount` units of `denom`.
    pub fn new(amount: u128, denom: &str) -> (r: Coin)
        ensures
            r.amount == amount,
            r.denom@ == denom@,
    {
        Coin { denom: denom.to_owned(), amount }
    }

    /// A copy of this coin.
    pub fn duplicate(&self) -> (r: Coin)
        ensures
            r == *self,
    {
        Coin { denom: self.denom.clone(), amount: self.amount }
    }
}

/// Who sent a message, and the funds that came with it.
#[derive(Debug, PartialEq, Eq)]
pub struct MessageInfo {
    pub sender: String,
    pub funds: Vec<Coin>,
}

/// A key and a value attached to a response as an event attribute.
#[derive(Debug, PartialEq, Eq)]
pub struct Attribute {
    pub key: String,
    pub value: String,
}

/// A message that a response asks the chain to dispatch.
#[derive(Debug, PartialEq, Eq)]
pub enum CosmosMsg {
    /// Send native tokens from the contract to an address.
    BankSend { to_address: String, amount: Vec<Coin> },
    /// Ask the NFT contract `contract_addr` to transfer token `token_id` to `recipient`.
    TransferNft { contract_addr: String, recipient: String, token_id: String },
}

/// What a successful execution hands back to the chain.
#[derive(Debug, PartialEq, Eq)]
pub struct Response {
    pub messages: Vec<CosmosMsg>,
    pub attributes: Vec<Attribute>,
}

/// The text views of a coin.
pub open spec fn coin_view(c: Coin) -> (Seq<char>, u128) {
    (c.denom@, c.amount)
}

/// The text view of a message.
pub enum MsgView {
    BankSend { to_address: Seq<char>, amount: Seq<(Seq<char>, u128)> },
    TransferNft { contract_addr: Seq<char>, recipient: Seq<char>, token_id: Seq<char> },
}

pub open spec fn msg_view(m: CosmosMsg) -> MsgView {
    match m {
        CosmosMsg::BankSend { to_address, amount } => MsgView::BankSend {
            to_address: to_address@,
            amount: amount@.map_values(|c: Coin| coin_view(c)),
        },
        CosmosMsg::TransferNft { contract_addr, recipient, token_id } => MsgView::TransferNft {
            contract_addr: contract_addr@,
            recipient: recipient@,
            token_id: token_id@,
        },
    }
}

impl Response {
    /// The attributes as pairs of texts.
    pub open spec fn attrs(self) -> Seq<(Seq<char>, Seq<char>)> {
        self.attributes@.map_values(|a: Attribute| (a.key@, a.value@))
    }

    /// The messages as views.
    pub open spec fn msgs(self) -> Seq<MsgView> {
        self.messages@.map_values(|m: CosmosMsg| msg_view(m))
    }

    /// A response without messages or attributes.
    pub fn new() -> (r: Response)
        ensures
            r.msgs() == Seq::<MsgView>::empty(),
            r.attrs() == Seq::<(Seq<char>, Seq<char>)>::empty(),
    {
        let r = Response { messages: Vec::new(), attributes: Vec::new() };
        assert(r.msgs() =~= Seq::<MsgView>::empty());
        assert(r.attrs() =~= Seq::<(Seq<char>, Seq<char>)>::empty());
        r
    }

    /// This response with one more attribute at the end.
    pub fn add_attribute(self, key: &str, value: String) -> (r: Response)
        ensures
            r.msgs() == self.msgs(),
            r.attrs() == self.attrs().push((key@, value@)),
    {
        let mut r = self;
        r.attributes.push(Attribute { key: key.to_owned(), value });
        assert(r.attrs() =~= self.attrs().push((key@, value@)));
        r
    }

    /// This response with one more message at the end.
    pub fn add_message(self, msg: CosmosMsg) -> (r: Response)
        ensures
            r.msgs() == self.msgs().push(msg_view(msg)),
            r.attrs() == self.attrs(),
    {
        let mut r = self;
        let ghost m = msg;
        r.messages.push(msg);
        assert(r.msgs() =~= self.msgs().push(msg_view(m)));
        r
    }
}

/// Why the funds sent with a message were refused.
#[derive(Clone, Debug, PartialEq, Eq)]
pub enum PaymentError {
    MissingDenom(String),
    ExtraDenom(String),
    MultipleDenoms {},
    NoFunds {},
    NonPayable {},
}

/// Errors of the chain's standard library.
#[derive(Clone, Debug, PartialEq, Eq)]
pub enum StdError {
    /// A storage item or map entry of the named type was absent.
    NotFound { kind: String },
    /// Any other failure, with its message.
    GenericErr { msg: String },
}

/// Why a contract refused a message.
#[derive(Clone, Debug, PartialEq, Eq)]
pub enum ContractError {
    Std(StdError),
    Payment(PaymentError),
    Unauthorized {},
    UnspecifiedWithdrawalFrequency {},
    OnlyOneSourceAllowed {},
    InvalidFunds { msg: String },
    AccountNotFound {},
    FundsAreLocked {},
    InsufficientFunds {},
    WithdrawalLimitExceeded {},
    CannotMigrate { previous_contract: String },
    LockTimeTooLong {},
    LockTimeTooShort {},
    LockedNFT {},
    NFTNotFound {},
}

/// The outcome of requiring that no funds came with a message.
pub open spec fn nonpayable_outcome(funds: Seq<Coin>) -> Result<(), PaymentError> {
    if funds.len() == 0 {
        Ok(())
    } else {
        Err(PaymentError::NonPayable {})
    }
}

/// Refuses a message that carries funds.
pub fn nonpayable(info: &MessageInfo) -> (r: Result<(), PaymentError>)
    ensures
        r == nonpayable_outcome(info.funds@),
{
    if info.funds.len() == 0 {
        Ok(())
    } else {
        Err(PaymentError::NonPayable {})
    }
}

/// The outcome of requiring exactly one non-zero coin with a message.
pub open spec fn one_coin_outcome(funds: Seq<Coin>) -> Result<Coin, PaymentError> {
    if funds.len() == 0 {
        Err(PaymentError::NoFunds {})
    } else if funds.len() == 1 {
        if funds[0].amount == 0 {
            Err(PaymentError::NoFunds {})
        } else {
            Ok(funds[0])
        }
    } else {
        Err(PaymentError::MultipleDenoms {})
    }
}

/// The single coin sent with a message, whatever its denomination.
pub fn one_coin(info: &MessageInfo) -> (r: Result<Coin, PaymentError>)
    ensures
        r == one_coin_outcome(info.funds@),
{
    let n: usize = info.funds.len();
    if n == 0 {
        Err(PaymentError::NoFunds {})
    } else if n == 1 {
        if info.funds[0].amount == 0 {
            Err(PaymentError::NoFunds {})
        } else {
            Ok(info.funds[0].duplicate())
        }
    } else {
        Err(PaymentError::MultipleDenoms {})
    }
}

/// The character of decimal digit `d`.
pub open spec fn digit_char(d: nat) -> char {
    (48 + d) as char
}

/// The decimal digits of `n`, most significant first, without leading zeros.
pub open spec fn decimal_text(n: nat) -> Seq<char>
    decreases n,
{
    if n < 10 {
        seq![digit_char(n)]
    } else {
        decimal_text(n / 10).push(digit_char(n % 10))
    }
}

/// The text of `coin` as the chain library prints it: the amount in
/// decimal, then the denomination, with nothing between.
#[verifier::external_body]
pub(crate) fn coin_text(coin: &Coin) -> (r: String)
    ensures
        r@ == decimal_text(coin.amount as nat) + coin.denom@,
{
    let cw = cosmwasm_std::Coin {
        denom: coin.denom.clone(),
        amount: cosmwasm_std::Uint128::new(coin.amount),
    };
    cw.to_string()
}

/// The decimal text of `n`, as the chain library prints a 128-bit amount.
#[verifier::external_body]
pub(crate) fn uint128_text(n: u128) -> (r: String)
    ensures
        r@ == decimal_text(n as nat),
{
    cosmwasm_std::Uint128::new(n).to_string()
}

} // verus!
