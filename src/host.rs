//! The host side: channel handshake and the lifecycle of the sub-account
//! bound to each channel.
use vstd::prelude::*;
use vstd::string::StringExecFns;
use crate::packet::PacketMsg;
use crate::registry::{lookup, well_ordered, AccountRegistry};
use crate::responses::{views, Coin};

verus! {

/// The protocol revision both ends of a channel must speak.
pub const IBC_APP_VERSION: &'static str = "simple-ica-v2";

/// Reply id of the sub-account executing a dispatched batch.
pub const RECEIVE_DISPATCH_ID: u64 = 1234;

/// Reply id of the creation of a sub-account.
pub const INIT_CALLBACK_ID: u64 = 7890;

/// Reply id of the call the host makes to itself to process a packet.
pub const PROCESS_IBC_ID: u64 = 5432;

pub open spec fn app_version() -> Seq<char> {
    "simple-ica-v2"@
}

/// The ordering of a channel.
#[derive(Debug, Clone, Copy, PartialEq, Eq, Structural)]
pub enum IbcOrder {
    Unordered,
    Ordered,
}

/// The only ordering this protocol runs on.
pub const APP_ORDER: IbcOrder = IbcOrder::Unordered;

/// An ordering this protocol refuses.
pub const BAD_APP_ORDER: IbcOrder = IbcOrder::Ordered;

/// Why a call into the host fails.
#[derive(Debug, PartialEq, Eq)]
pub enum ContractError {
    /// No sub-account is bound to the channel.
    UnknownChannel,
    /// The packet is none of the known requests.
    InvalidPacket,
    /// The channel is not unordered.
    InvalidOrder,
    /// The counterparty speaks another protocol revision.
    InvalidVersion { version: String },
    /// A sub-account is already being created for a channel.
    PendingRegistration,
    /// A sub-account was created while none was expected.
    NoPendingRegistration,
    /// The creation reply does not give the new sub-account's address.
    ParseReply,
    /// The channel already has a sub-account.
    ChannelAlreadyRegistered,
    /// A reply came back under an id the host never used.
    InvalidReplyId,
    /// Internal processing was called by someone other than the host itself.
    OnlySelfCall,
    /// A sub-call the host waited on failed.
    SubCallFailed { message: String },
    /// The host's own processing call returned no acknowledgement.
    MissingAck,
    /// A query of a remote batch failed.
    QueryFailed { message: String },
}

/// The text of an error, as it appears in an error acknowledgement.
pub open spec fn error_text(e: ContractError) -> Seq<char> {
    match e {
        ContractError::UnknownChannel => "no account is bound to this channel"@,
        ContractError::InvalidPacket => "invalid packet"@,
        ContractError::InvalidOrder => "only unordered channels are supported"@,
        ContractError::InvalidVersion { version } => "counterparty version must be simple-ica-v2, got "@
            + version@,
        ContractError::PendingRegistration => "an account creation is already pending"@,
        ContractError::NoPendingRegistration => "no account creation is pending"@,
        ContractError::ParseReply => "invalid account creation reply"@,
        ContractError::ChannelAlreadyRegistered => "Cannot register over an existing channel"@,
        ContractError::InvalidReplyId => "Invalid reply id"@,
        ContractError::OnlySelfCall => "You cannot call internal messages directly"@,
        ContractError::SubCallFailed { message } => message@,
        ContractError::MissingAck => "missing acknowledgement"@,
        ContractError::QueryFailed { message } => message@,
    }
}

impl ContractError {
    /// The text of the error.
    pub fn message(&self) -> (r: String)
        ensures
            r@ == error_text(*self),
    {
        match self {
            ContractError::UnknownChannel => "no account is bound to this channel".to_owned(),
            ContractError::InvalidPacket => "invalid packet".to_owned(),
            ContractError::InvalidOrder => "only unordered channels are supported".to_owned(),
            ContractError::InvalidVersion { version } => {
                let mut m = "counterparty version must be simple-ica-v2, got ".to_owned();
                m.append(version.as_str());
                m
            },
            ContractError::PendingRegistration => "an account creation is already pending".to_owned(),
            ContractError::NoPendingRegistration => "no account creation is pending".to_owned(),
            ContractError::ParseReply => "invalid account creation reply".to_owned(),
            ContractError::ChannelAlreadyRegistered => "Cannot register over an existing channel".to_owned(),
            ContractError::InvalidReplyId => "Invalid reply id".to_owned(),
            ContractError::OnlySelfCall => "You cannot call internal messages directly".to_owned(),
            ContractError::SubCallFailed { message } => message.clone(),
            ContractError::MissingAck => "missing acknowledgement".to_owned(),
            ContractError::QueryFailed { message } => message.clone(),
        }
    }
}

/// What the host is set up with.
#[derive(Debug, Clone, Copy, PartialEq, Eq, Structural)]
pub struct Config {
    /// Code template of the sub-accounts the host creates.
    pub cw1_code_id: u64,
}

/// Instantiation parameters of a host.
#[derive(Debug, Clone, Copy, PartialEq, Eq, Structural)]
pub struct InstantiateMsg {
    pub cw1_code_id: u64,
}

/// The persistent state of one host instance.
pub struct HostState {
    pub config: Config,
    /// Channel id to sub-account address.
    pub accounts: AccountRegistry,
    /// The channel whose sub-account is being created, between connect and
    /// the creation reply.
    pub pending: Option<String>,
    /// Results gathered for the batch being dispatched.
    pub results: Vec<Vec<u8>>,
}

/// The host's state as a mathematical value.
pub struct HostModel {
    pub code_id: u64,
    pub accounts: Seq<(Seq<char>, Seq<char>)>,
    pub pending: Option<Seq<char>>,
    pub results: Seq<Seq<u8>>,
}

pub open spec fn opt_view(o: Option<String>) -> Option<Seq<char>> {
    match o {
        Some(s) => Some(s@),
        None => None,
    }
}

impl View for HostState {
    type V = HostModel;

    open spec fn view(&self) -> HostModel {
        HostModel {
            code_id: self.config.cw1_code_id,
            accounts: self.accounts@,
            pending: opt_view(self.pending),
            results: views(self.results@),
        }
    }
}

impl HostState {
    pub open spec fn wf(&self) -> bool {
        self.accounts.wf()
    }
}

/// The account bound to a channel in a host state.
pub open spec fn bound(s: HostModel, channel_id: Seq<char>) -> Option<Seq<char>> {
    lookup(s.accounts, channel_id)
}

/// When a sub-call's reply comes back to the host.
#[derive(Debug, Clone, Copy, PartialEq, Eq, Structural)]
pub enum ReplyOn {
    Always,
    Success,
    Never,
}

/// What the host asks the chain to run after a call.
#[derive(Debug)]
pub enum HostCall {
    /// Create a sub-account from `code_id`, with the host as its only admin.
    CreateAccount { code_id: u64, admin: String, label: String },
    /// Have the sub-account execute a batch of messages.
    ExecuteOnAccount { account: String, msgs: Vec<cosmwasm_std::CosmosMsg> },
    /// Have the sub-account send `amount` to `to_address`.
    SweepAccount { account: String, to_address: String, amount: Vec<Coin> },
    /// Call the host itself to process a packet from channel `caller`.
    ProcessPacket { contract: String, caller: String, packet: PacketMsg },
}

/// A sub-call, with the id under which its reply comes back.
#[derive(Debug)]
pub struct SubCall {
    pub id: u64,
    pub reply_on: ReplyOn,
    pub call: HostCall,
}

/// What a call into the host hands back to the chain.
#[derive(Debug)]
pub struct Response {
    pub data: Option<Vec<u8>>,
    pub messages: Vec<SubCall>,
}

/// What the receipt of a packet hands back to the chain.
#[derive(Debug)]
pub struct IbcReceiveResponse {
    pub acknowledgement: Vec<u8>,
    pub messages: Vec<SubCall>,
}

/// The outcome of a sub-call, as its reply reports it.
#[derive(Debug)]
pub enum SubMsgResult {
    /// It succeeded, with the data it returned, if any.
    Succeeded(Option<Vec<u8>>),
    /// It failed, with the error text.
    Failed(String),
}

/// A party opening a channel, as the handshake describes it.
#[derive(Debug)]
pub struct IbcChannelOpenMsg {
    pub channel_id: String,
    pub order: IbcOrder,
    pub version: String,
    /// The version the counterparty declared, when it did.
    pub counterparty_version: Option<String>,
}

/// Accepts only the unordered ordering.
pub fn check_order(order: &IbcOrder) -> (r: Result<(), ContractError>)
    ensures
        r is Ok <==> *order == IbcOrder::Unordered,
        r is Err ==> r == Err::<(), ContractError>(ContractError::InvalidOrder),
{
    match order {
        IbcOrder::Unordered => Ok(()),
        IbcOrder::Ordered => Err(ContractError::InvalidOrder),
    }
}

/// Accepts only this protocol's version.
pub fn check_version(version: &String) -> (r: Result<(), ContractError>)
    ensures
        r is Ok <==> version@ == app_version(),
        r matches Err(e) ==> (e matches ContractError::InvalidVersion { version: v } && v@
            == version@),
{
    let expected = IBC_APP_VERSION.to_owned();
    proof {
        reveal_strlit("simple-ica-v2");
    }
    if *version == expected {
        Ok(())
    } else {
        Err(ContractError::InvalidVersion { version: version.clone() })
    }
}

/// A fresh host.
pub fn instantiate(msg: InstantiateMsg) -> (r: HostState)
    ensures
        r.wf(),
        r@ == (HostModel {
            code_id: msg.cw1_code_id,
            accounts: Seq::empty(),
            pending: None,
            results: Seq::empty(),
        }),
{
    let r = HostState {
        config: Config { cw1_code_id: msg.cw1_code_id },
        accounts: AccountRegistry::new(),
        pending: None,
        results: Vec::new(),
    };
    assert(r@.results =~= Seq::<Seq<u8>>::empty());
    r
}

/// Opening handshake: the channel must be unordered and, when the
/// counterparty declared a version, it must be this protocol's. Answers with
/// the version the host speaks.
pub fn ibc_channel_open(msg: &IbcChannelOpenMsg) -> (r: Result<String, ContractError>)
    ensures
        r is Ok <==> msg.order == IbcOrder::Unordered && (msg.counterparty_version is None
            || msg.counterparty_version->Some_0@ == app_version()),
        r matches Ok(v) ==> v@ == app_version(),
        msg.order != IbcOrder::Unordered ==> r == Err::<String, ContractError>(
            ContractError::InvalidOrder,
        ),
        msg.order == IbcOrder::Unordered && r is Err ==> (r->Err_0 matches ContractError::InvalidVersion {
            version: v,
        } && v@ == msg.counterparty_version->Some_0@),
{
    check_order(&msg.order)?;
    if let Some(cv) = &msg.counterparty_version {
        check_version(cv)?;
    }
    proof {
        reveal_strlit("simple-ica-v2");
    }
    Ok(IBC_APP_VERSION.to_owned())
}

/// The state after a connect on `channel_id`.
pub open spec fn connected(s: HostModel, channel_id: Seq<char>) -> HostModel {
    HostModel { pending: Some(channel_id), ..s }
}

/// Connect handshake: asks the chain to create the channel's sub-account and
/// remembers the channel until the creation reply comes back.
pub fn ibc_channel_connect(state: &mut HostState, contract: &String, channel_id: String) -> (r:
    Result<Response, ContractError>)
    requires
        old(state).wf(),
    ensures
        final(state).wf(),
        old(state).pending is Some <==> r is Err,
        r is Err ==> r->Err_0 == ContractError::PendingRegistration && final(state)@ == old(
            state,
        )@,
        r matches Ok(resp) ==> {
            &&& final(state)@ == connected(old(state)@, channel_id@)
            &&& resp.data is None
            &&& resp.messages@.len() == 1
            &&& resp.messages@[0].id == INIT_CALLBACK_ID
            &&& resp.messages@[0].reply_on == ReplyOn::Success
            &&& (resp.messages@[0].call matches HostCall::CreateAccount { code_id, admin, label }
                && code_id == old(state).config.cw1_code_id && admin@ == contract@ && label@
                == "ibc-reflect-"@ + channel_id@)
        },
{
    if state.pending.is_some() {
        return Err(ContractError::PendingRegistration);
    }
    let label = label_for(&channel_id);
    let call = HostCall::CreateAccount {
        code_id: state.config.cw1_code_id,
        admin: contract.clone(),
        label,
    };
    state.pending = Some(channel_id);
    let mut messages: Vec<SubCall> = Vec::new();
    messages.push(SubCall { id: INIT_CALLBACK_ID, reply_on: ReplyOn::Success, call });
    Ok(Response { data: None, messages })
}

/// The address that `cw_utils::parse_instantiate_response_data` reads from a
/// creation reply, or none where it cannot read one.
pub uninterp spec fn instantiated_address(data: Seq<u8>) -> Option<Seq<char>>;

/// The error type of the reply parsers of `cw_utils`.
#[verifier::external_type_specification]
#[verifier::external_body]
pub struct ExParseReplyError(cw_utils::ParseReplyError);

/// Relies on `cw_utils::parse_instantiate_response_data`: decodes the protobuf
/// creation response, whose first field is the new contract's address; the
/// outcome depends on the bytes alone.
#[verifier::external_body]
fn parse_instantiate_address(data: &Vec<u8>) -> (r: Result<String, cw_utils::ParseReplyError>)
    ensures
        match r {
            Ok(a) => instantiated_address(data@) == Some(a@),
            Err(_) => instantiated_address(data@) is None,
        },
{
    cw_utils::parse_instantiate_response_data(data.as_slice()).map(|res| res.contract_address)
}

/// `after` is `before` with `channel_id` bound to `account`, in key order.
pub open spec fn binds(
    before: Seq<(Seq<char>, Seq<char>)>,
    after: Seq<(Seq<char>, Seq<char>)>,
    channel_id: Seq<char>,
    account: Seq<char>,
) -> bool {
    &&& exists|p: int| 0 <= p <= before.len() && after == before.insert(p, (channel_id, account))
    &&& forall|k: Seq<char>|
        lookup(after, k) == if k == channel_id {
            Some(account)
        } else {
            lookup(before, k)
        }
}

/// `after` is `before` without the entry of `channel_id`.
pub open spec fn unbinds(
    before: Seq<(Seq<char>, Seq<char>)>,
    after: Seq<(Seq<char>, Seq<char>)>,
    channel_id: Seq<char>,
) -> bool {
    &&& exists|p: int| 0 <= p < before.len() && before[p].0 == channel_id && after == before.remove(p)
    &&& forall|k: Seq<char>|
        lookup(after, k) == if k == channel_id {
            None
        } else {
            lookup(before, k)
        }
}

/// The address a creation reply reports, if it reports one.
pub open spec fn reply_address(result: SubMsgResult) -> Option<Seq<char>> {
    match result {
        SubMsgResult::Succeeded(Some(d)) => instantiated_address(d@),
        _ => None,
    }
}

/// The outcome of a creation reply, from state `before` to state `after`.
pub open spec fn init_reply_outcome(
    before: HostModel,
    after: HostModel,
    result: SubMsgResult,
    r: Result<Response, ContractError>,
) -> bool {
    &&& r is Ok <==> before.pending is Some && reply_address(result) is Some && bound(
        before,
        before.pending->Some_0,
    ) is None
    &&& r is Err ==> after == before
    &&& before.pending is None ==> r == Err::<Response, ContractError>(
        ContractError::NoPendingRegistration,
    )
    &&& before.pending is Some && reply_address(result) is None ==> r == Err::<
        Response,
        ContractError,
    >(ContractError::ParseReply)
    &&& before.pending is Some && reply_address(result) is Some && bound(
        before,
        before.pending->Some_0,
    ) is Some ==> r == Err::<Response, ContractError>(ContractError::ChannelAlreadyRegistered)
    &&& r matches Ok(resp) ==> {
        &&& after.pending is None
        &&& after.code_id == before.code_id
        &&& after.results == before.results
        &&& binds(before.accounts, after.accounts, before.pending->Some_0, reply_address(result)->Some_0)
        &&& resp.data is None
        &&& resp.messages@.len() == 0
    }
}

/// Creation reply: binds the pending channel to the new sub-account. Fails,
/// changing nothing, when no creation is pending, when the reply gives no
/// address, or when the channel is bound already.
pub fn reply_init_callback(state: &mut HostState, result: SubMsgResult) -> (r: Result<
    Response,
    ContractError,
>)
    requires
        old(state).wf(),
    ensures
        final(state).wf(),
        init_reply_outcome(old(state)@, final(state)@, result, r),
{
    let channel_id = match &state.pending {
        None => {
            return Err(ContractError::NoPendingRegistration);
        },
        Some(c) => c.clone(),
    };
    let data = match result {
        SubMsgResult::Succeeded(Some(d)) => d,
        _ => {
            return Err(ContractError::ParseReply);
        },
    };
    let address = match parse_instantiate_address(&data) {
        Ok(a) => a,
        Err(_) => {
            return Err(ContractError::ParseReply);
        },
    };
    if !state.accounts.bind(channel_id, address) {
        return Err(ContractError::ChannelAlreadyRegistered);
    }
    state.pending = None;
    Ok(Response { data: None, messages: Vec::new() })
}

/// Closing a channel: forgets its sub-account and, when the sub-account
/// holds anything, has it send its whole `balance` to the host. Fails,
/// changing nothing, when the channel is not bound.
pub fn ibc_channel_close(
    state: &mut HostState,
    contract: &String,
    channel_id: &String,
    balance: Vec<Coin>,
) -> (r: Result<Response, ContractError>)
    requires
        old(state).wf(),
    ensures
        final(state).wf(),
        r is Ok <==> bound(old(state)@, channel_id@) is Some,
        r is Err ==> r->Err_0 == ContractError::UnknownChannel && final(state)@ == old(state)@,
        r matches Ok(resp) ==> {
            &&& final(state)@ == (HostModel { accounts: final(state)@.accounts, ..old(state)@ })
            &&& unbinds(old(state)@.accounts, final(state)@.accounts, channel_id@)
            &&& resp.data is None
            &&& resp.messages@.len() == if balance@.len() == 0 {
                0int
            } else {
                1int
            }
            &&& balance@.len() > 0 ==> resp.messages@[0].reply_on == ReplyOn::Never
            &&& balance@.len() > 0 ==> (resp.messages@[0].call matches HostCall::SweepAccount {
                account,
                to_address,
                amount,
            } && Some(account@) == bound(old(state)@, channel_id@) && to_address@ == contract@
                && amount == balance)
        },
{
    let account = match state.accounts.unbind(channel_id) {
        None => {
            return Err(ContractError::UnknownChannel);
        },
        Some(a) => a,
    };
    let mut messages: Vec<SubCall> = Vec::new();
    if balance.len() > 0 {
        let call = HostCall::SweepAccount { account, to_address: contract.clone(), amount: balance };
        messages.push(SubCall { id: 0, reply_on: ReplyOn::Never, call });
    }
    Ok(Response { data: None, messages })
}

/// A completed handshake on a fresh host leaves exactly one bound channel:
/// after connect on `channel_id` and a creation reply reporting an address,
/// that channel is bound to that address, and the listing holds that one
/// entry alone.
pub proof fn lemma_handshake_binds_one(
    fresh: HostModel,
    connected_state: HostModel,
    registered: HostModel,
    channel_id: Seq<char>,
    account: Seq<char>,
)
    requires
        fresh.accounts.len() == 0,
        fresh.pending is None,
        connected_state == connected(fresh, channel_id),
        registered.pending is None,
        binds(connected_state.accounts, registered.accounts, channel_id, account),
    ensures
        bound(registered, channel_id) == Some(account),
        registered.accounts == seq![(channel_id, account)],
        forall|k: Seq<char>| k != channel_id ==> bound(registered, k) is None,
{
    let p = choose|p: int|
        0 <= p <= connected_state.accounts.len() && registered.accounts
            == connected_state.accounts.insert(p, (channel_id, account));
    assert(registered.accounts =~= seq![(channel_id, account)]);
    assert forall|k: Seq<char>| k != channel_id implies bound(registered, k) is None by {
        assert(lookup(connected_state.accounts, k) is None);
    }
}

/// After a channel is closed, it is bound to nothing and the listing holds
/// no entry for it.
pub proof fn lemma_close_forgets_channel(
    before: Seq<(Seq<char>, Seq<char>)>,
    after: Seq<(Seq<char>, Seq<char>)>,
    channel_id: Seq<char>,
)
    requires
        well_ordered(before),
        unbinds(before, after, channel_id),
    ensures
        lookup(after, channel_id) is None,
        forall|i: int| 0 <= i < after.len() ==> (#[trigger] after[i]).0 != channel_id,
        after.len() + 1 == before.len(),
{
    let p = choose|p: int|
        0 <= p < before.len() && before[p].0 == channel_id && after == before.remove(p);
    assert forall|i: int| 0 <= i < after.len() implies (#[trigger] after[i]).0 != channel_id by {
        if i < p {
            assert(after[i] == before[i]);
            assert(before[i].0 != before[p].0);
        } else {
            assert(after[i] == before[i + 1]);
            assert(before[p].0 != before[i + 1].0);
        }
    }
}

/// The label of the sub-account created for `channel_id`.
pub fn label_for(channel_id: &String) -> (r: String)
    ensures
        r@ == "ibc-reflect-"@ + channel_id@,
{
    let mut label = "ibc-reflect-".to_owned();
    label.append(channel_id.as_str());
    label
}

} // verus!
