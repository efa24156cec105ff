//! A time lock for NFTs. An NFT contract sends a token here with a lock
//! time between one day and one year; once the lock expires, its recipient
//! may claim the token back.
use vstd::prelude::*;
use vstd::string::StringExecFns;
use crate::chain::{
    ContractError, CosmosMsg, Env, Expiration, MessageInfo, MsgView, Response, StdError,
    Timestamp, NANOS_PER_SECOND,
};
use crate::text_map::TextMap;

verus! {

/// One day in seconds: the shortest lock.
pub const ONE_DAY: u64 = 86_400;

/// One year in seconds: the longest lock.
pub const ONE_YEAR: u64 = 31_536_000;

/// A locked NFT: who may claim it, when the lock ends, and which token of
/// which NFT contract it is.
#[derive(Debug, PartialEq, Eq)]
pub struct LockDetails {
    pub recipient: String,
    pub expiration: Expiration,
    pub nft_id: String,
    pub nft_contract: String,
}

impl LockDetails {
    /// A copy of these details.
    pub fn duplicate(&self) -> (r: LockDetails)
        ensures
            r == *self,
    {
        LockDetails {
            recipient: self.recipient.clone(),
            expiration: self.expiration,
            nft_id: self.nft_id.clone(),
            nft_contract: self.nft_contract.clone(),
        }
    }
}

/// What the sender of an NFT asks for with it.
#[derive(Debug, PartialEq, Eq)]
pub enum Cw721HookMsg {
    StartLock { recipient: Option<String>, lock_time: u64 },
}

/// The notice of an NFT contract that `token_id`, sent by `sender`, now
/// belongs to this contract, with the request that came with it.
#[derive(Debug, PartialEq, Eq)]
pub struct Cw721ReceiveMsg {
    pub sender: String,
    pub token_id: String,
    pub msg: Cw721HookMsg,
}

/// The messages that the time lock executes.
#[derive(Debug, PartialEq, Eq)]
pub enum ExecuteMsg {
    ReceiveNft(Cw721ReceiveMsg),
    Claim { lock_id: String },
}

/// The queries that the time lock answers.
#[derive(Debug, PartialEq, Eq)]
pub enum QueryMsg {
    LockedToken { lock_id: String },
}

/// The state of the time lock: the locked NFTs by lock id.
#[derive(Debug)]
pub struct NftTimelock {
    pub locked_items: TextMap<LockDetails>,
}

/// The lock id of a token: the NFT contract's address followed by the token id.
pub open spec fn lock_id_of(nft_contract: Seq<char>, nft_id: Seq<char>) -> Seq<char> {
    nft_contract + nft_id
}

/// The lock id of token `nft_id` of the NFT contract `nft_contract`.
pub fn lock_id(nft_contract: &String, nft_id: &String) -> (r: String)
    ensures
        r@ == lock_id_of(nft_contract@, nft_id@),
{
    nft_contract.clone().concat(nft_id.as_str())
}

/// The name of the stored type that a missing lock is reported as.
pub open spec fn lock_details_kind() -> Seq<char> {
    "andromeda_nft_timelock::state::LockDetails"@
}

impl NftTimelock {
    /// The lock ids are distinct.
    pub open spec fn wf(self) -> bool {
        self.locked_items.wf()
    }

    /// A lock request gets past its checks: a lock time within bounds, a
    /// token that is not locked yet, and a recipient that the chain accepts.
    pub open spec fn lock_accepted(
        self,
        recipient: Option<String>,
        recipient_check: Result<(), ContractError>,
        nft_id: String,
        lock_time: u64,
        nft_contract: String,
    ) -> bool {
        &&& ONE_DAY <= lock_time <= ONE_YEAR
        &&& !self.locked_items@.contains_key(lock_id_of(nft_contract@, nft_id@))
        &&& (recipient is Some ==> recipient_check is Ok)
    }

    /// What a lock request does.
    pub open spec fn lock_post(
        self,
        new: Self,
        env: Env,
        info: MessageInfo,
        recipient: Option<String>,
        recipient_check: Result<(), ContractError>,
        nft_id: String,
        lock_time: u64,
        nft_contract: String,
        r: Result<Response, ContractError>,
    ) -> bool {
        let id = lock_id_of(nft_contract@, nft_id@);
        if lock_time > ONE_YEAR {
            r == Err::<Response, ContractError>(ContractError::LockTimeTooLong {}) && new == self
        } else if lock_time < ONE_DAY {
            r == Err::<Response, ContractError>(ContractError::LockTimeTooShort {}) && new == self
        } else if self.locked_items@.contains_key(id) {
            r == Err::<Response, ContractError>(ContractError::LockedNFT {}) && new == self
        } else if recipient is Some && recipient_check is Err {
            r == Err::<Response, ContractError>(recipient_check->Err_0) && new == self
        } else {
            &&& r matches Ok(resp)
            &&& resp.msgs() == Seq::<MsgView>::empty()
            &&& resp.attrs() == seq![("action"@, "locked_nft"@), ("lock_id"@, id)]
            &&& new.wf()
            &&& new.locked_items@ == self.locked_items@.insert(
                id,
                LockDetails {
                    recipient: match recipient {
                        Some(a) => a,
                        None => info.sender,
                    },
                    expiration: Expiration::AtTime(
                        Timestamp { nanos: (env.block.time.nanos + lock_time * NANOS_PER_SECOND) as u64 },
                    ),
                    nft_id: nft_id,
                    nft_contract: nft_contract,
                },
            )
        }
    }

    /// What a claim does.
    pub open spec fn claim_post(
        self,
        new: Self,
        env: Env,
        info: MessageInfo,
        lock_id: Seq<char>,
        r: Result<Response, ContractError>,
    ) -> bool {
        if !self.locked_items@.contains_key(lock_id) {
            r == Err::<Response, ContractError>(ContractError::NFTNotFound {}) && new == self
        } else {
            let d = self.locked_items@[lock_id];
            if !d.expiration.spec_is_expired(env.block) {
                r == Err::<Response, ContractError>(ContractError::LockedNFT {}) && new == self
            } else if info.sender@ != d.recipient@ {
                r == Err::<Response, ContractError>(ContractError::Unauthorized {}) && new == self
            } else {
                &&& r matches Ok(resp)
                &&& resp.msgs() == seq![
                    MsgView::TransferNft {
                        contract_addr: d.nft_contract@,
                        recipient: d.recipient@,
                        token_id: d.nft_id@,
                    },
                ]
                &&& resp.attrs() == seq![("action"@, "claimed_nft"@)]
                &&& new.wf()
                &&& new.locked_items@ == self.locked_items@.remove(lock_id)
            }
        }
    }

    /// A time lock with nothing locked.
    pub fn instantiate(info: &MessageInfo) -> (r: NftTimelock)
        ensures
            r.wf(),
            r.locked_items@ == Map::<Seq<char>, LockDetails>::empty(),
    {
        NftTimelock { locked_items: TextMap::new() }
    }

    /// Locks token `nft_id` of `andromeda_cw721_contract` for `lock_time`
    /// seconds from now, for `recipient` (the sender when none is given).
    /// `recipient_check` is the chain's verdict on the recipient's address.
    pub fn execute_lock(
        &mut self,
        env: &Env,
        info: &MessageInfo,
        recipient: Option<String>,
        recipient_check: Result<(), ContractError>,
        nft_id: String,
        lock_time: u64,
        andromeda_cw721_contract: String,
    ) -> (r: Result<Response, ContractError>)
        requires
            old(self).wf(),
            old(self).lock_accepted(
                recipient,
                recipient_check,
                nft_id,
                lock_time,
                andromeda_cw721_contract,
            ) ==> env.block.time.nanos + lock_time * NANOS_PER_SECOND <= u64::MAX,
        ensures
            old(self).lock_post(
                *final(self),
                *env,
                *info,
                recipient,
                recipient_check,
                nft_id,
                lock_time,
                andromeda_cw721_contract,
                r,
            ),
    {
        if lock_time > ONE_YEAR {
            return Err(ContractError::LockTimeTooLong {});
        }
        if lock_time < ONE_DAY {
            return Err(ContractError::LockTimeTooShort {});
        }
        let lock_id = lock_id(&andromeda_cw721_contract, &nft_id);
        if self.locked_items.get(&lock_id).is_some() {
            return Err(ContractError::LockedNFT {});
        }
        let recip = match recipient {
            Some(a) => {
                if let Err(e) = recipient_check {
                    return Err(e);
                }
                a
            },
            None => info.sender.clone(),
        };
        let expiration_time = env.block.time.plus_seconds(lock_time);
        let lock_details = LockDetails {
            recipient: recip,
            expiration: Expiration::AtTime(expiration_time),
            nft_id,
            nft_contract: andromeda_cw721_contract,
        };
        let id_text = lock_id.clone();
        self.locked_items.insert(lock_id, lock_details);
        let res = Response::new().add_attribute("action", "locked_nft".to_owned()).add_attribute(
            "lock_id",
            id_text,
        );
        assert(res.attrs() =~= seq![
            ("action"@, "locked_nft"@),
            ("lock_id"@, lock_id_of(andromeda_cw721_contract@, nft_id@)),
        ]);
        Ok(res)
    }

    /// Handles an NFT sent to this contract: locks it as its hook message
    /// asks, for the NFT contract that sent it.
    pub fn handle_receive_cw721(
        &mut self,
        env: &Env,
        info: &MessageInfo,
        msg: Cw721ReceiveMsg,
        recipient_check: Result<(), ContractError>,
    ) -> (r: Result<Response, ContractError>)
        requires
            old(self).wf(),
            msg.msg matches Cw721HookMsg::StartLock { recipient, lock_time } ==> (
            old(self).lock_accepted(recipient, recipient_check, msg.token_id, lock_time, info.sender)
                ==> env.block.time.nanos + lock_time * NANOS_PER_SECOND <= u64::MAX),
        ensures
            match msg.msg {
                Cw721HookMsg::StartLock { recipient, lock_time } => old(self).lock_post(
                    *final(self),
                    *env,
                    *info,
                    recipient,
                    recipient_check,
                    msg.token_id,
                    lock_time,
                    info.sender,
                    r,
                ),
            },
    {
        match msg.msg {
            Cw721HookMsg::StartLock { recipient, lock_time } => self.execute_lock(
                env,
                info,
                recipient,
                recipient_check,
                msg.token_id,
                lock_time,
                info.sender.clone(),
            ),
        }
    }

    /// Claims the NFT locked under `lock_id` for its recipient, once the lock
    /// has expired, and sends it to the recipient.
    pub fn execute_claim(&mut self, env: &Env, info: &MessageInfo, lock_id: &String) -> (r: Result<
        Response,
        ContractError,
    >)
        requires
            old(self).wf(),
        ensures
            old(self).claim_post(*final(self), *env, *info, lock_id@, r),
    {
        let (expired, authorized) = match self.locked_items.get(lock_id) {
            None => {
                return Err(ContractError::NFTNotFound {});
            },
            Some(locked) => (locked.expiration.is_expired(env.block), info.sender == locked.recipient),
        };
        if !expired {
            return Err(ContractError::LockedNFT {});
        }
        if !authorized {
            return Err(ContractError::Unauthorized {});
        }
        let locked_nft = match self.locked_items.remove(lock_id) {
            Some(d) => d,
            None => {
                return Err(ContractError::NFTNotFound {});
            },
        };
        let ghost d = locked_nft;
        let msg = CosmosMsg::TransferNft {
            contract_addr: locked_nft.nft_contract,
            recipient: locked_nft.recipient,
            token_id: locked_nft.nft_id,
        };
        let res = Response::new().add_message(msg).add_attribute("action", "claimed_nft".to_owned());
        assert(res.attrs() =~= seq![("action"@, "claimed_nft"@)]);
        assert(res.msgs() =~= seq![
            MsgView::TransferNft {
                contract_addr: d.nft_contract@,
                recipient: d.recipient@,
                token_id: d.nft_id@,
            },
        ]);
        Ok(res)
    }

    /// Executes a message of the time lock; `recipient_check` is the chain's
    /// verdict on the recipient address of a lock request.
    pub fn execute(
        &mut self,
        env: &Env,
        info: &MessageInfo,
        msg: ExecuteMsg,
        recipient_check: Result<(), ContractError>,
    ) -> (r: Result<Response, ContractError>)
        requires
            old(self).wf(),
            msg matches ExecuteMsg::ReceiveNft(m) ==> (m.msg matches Cw721HookMsg::StartLock {
                recipient,
                lock_time,
            } ==> (old(self).lock_accepted(
                recipient,
                recipient_check,
                m.token_id,
                lock_time,
                info.sender,
            ) ==> env.block.time.nanos + lock_time * NANOS_PER_SECOND <= u64::MAX)),
        ensures
            final(self).wf(),
            match msg {
                ExecuteMsg::ReceiveNft(m) => match m.msg {
                    Cw721HookMsg::StartLock { recipient, lock_time } => old(self).lock_post(
                        *final(self),
                        *env,
                        *info,
                        recipient,
                        recipient_check,
                        m.token_id,
                        lock_time,
                        info.sender,
                        r,
                    ),
                },
                ExecuteMsg::Claim { lock_id } => old(self).claim_post(
                    *final(self),
                    *env,
                    *info,
                    lock_id@,
                    r,
                ),
            },
    {
        match msg {
            ExecuteMsg::ReceiveNft(m) => self.handle_receive_cw721(env, info, m, recipient_check),
            ExecuteMsg::Claim { lock_id } => self.execute_claim(env, info, &lock_id),
        }
    }

    /// The details of the lock `lock_id`, which must exist.
    pub fn query_locked_token(&self, lock_id: &String) -> (r: Result<LockDetails, ContractError>)
        requires
            self.wf(),
        ensures
            match r {
                Ok(d) => self.locked_items@.contains_key(lock_id@) && d == self.locked_items@[lock_id@],
                Err(e) => !self.locked_items@.contains_key(lock_id@) && (e matches ContractError::Std(
                    StdError::NotFound { kind },
                ) && kind@ == lock_details_kind()),
            },
    {
        match self.locked_items.get(lock_id) {
            Some(d) => Ok(d.duplicate()),
            None => Err(
                ContractError::Std(
                    StdError::NotFound {
                        kind: "andromeda_nft_timelock::state::LockDetails".to_owned(),
                    },
                ),
            ),
        }
    }

    /// Answers a query of the time lock.
    pub fn query(&self, msg: &QueryMsg) -> (r: Result<LockDetails, ContractError>)
        requires
            self.wf(),
        ensures
            match msg {
                QueryMsg::LockedToken { lock_id } => match r {
                    Ok(d) => self.locked_items@.contains_key(lock_id@) && d
                        == self.locked_items@[lock_id@],
                    Err(e) => !self.locked_items@.contains_key(lock_id@) && (e matches ContractError::Std(
                        StdError::NotFound { kind },
                    ) && kind@ == lock_details_kind()),
                },
            },
    {
        match msg {
            QueryMsg::LockedToken { lock_id } => self.query_locked_token(lock_id),
        }
    }
}

} // verus!
