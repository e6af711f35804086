//! Packet handling on the host: the receipt, the call the host makes to
//! itself to do the work, the replies that settle the acknowledgement, and a
//! driver that runs one packet through all of them.
use vstd::prelude::*;
use crate::ack::{error_ack, result_ack, StdAck};
use crate::host::{
    bound, ContractError, HostCall, HostModel, HostState, IbcReceiveResponse, ReplyOn, Response,
    SubCall, SubMsgResult, init_reply_outcome, reply_init_callback, INIT_CALLBACK_ID,
    PROCESS_IBC_ID, RECEIVE_DISPATCH_ID,
};
use crate::packet::PacketMsg;
use crate::responses::{
    balances_json, coin_views, results_json, views, who_am_i_json, BalancesResponse, Coin,
    DispatchResponse, IbcQueryResponse, WhoAmIResponse,
};

verus! {

/// Receipt of a packet: only checks that the channel is bound and that the
/// packet is a known request (`None` where it could not be read), failing
/// the whole receipt otherwise. The work itself goes to a call of the host
/// to itself, whose reply, whether it succeeds or fails, supplies the real
/// acknowledgement; until then the acknowledgement is empty.
pub fn ibc_packet_receive(
    state: &HostState,
    contract: &String,
    channel_id: String,
    packet: Option<PacketMsg>,
) -> (r: Result<IbcReceiveResponse, ContractError>)
    requires
        state.wf(),
    ensures
        r is Ok <==> bound(state@, channel_id@) is Some && packet is Some,
        bound(state@, channel_id@) is None ==> r == Err::<IbcReceiveResponse, ContractError>(
            ContractError::UnknownChannel,
        ),
        bound(state@, channel_id@) is Some && packet is None ==> r == Err::<
            IbcReceiveResponse,
            ContractError,
        >(ContractError::InvalidPacket),
        r matches Ok(resp) ==> {
            &&& resp.acknowledgement@.len() == 0
            &&& resp.messages@.len() == 1
            &&& resp.messages@[0].id == PROCESS_IBC_ID
            &&& resp.messages@[0].reply_on == ReplyOn::Always
            &&& (resp.messages@[0].call matches HostCall::ProcessPacket { contract: c, caller, packet: p }
                && c@ == contract@ && caller@ == channel_id@ && Some(p) == packet)
        },
{
    if state.accounts.get(&channel_id).is_none() {
        return Err(ContractError::UnknownChannel);
    }
    let packet = match packet {
        None => {
            return Err(ContractError::InvalidPacket);
        },
        Some(p) => p,
    };
    let call = HostCall::ProcessPacket { contract: contract.clone(), caller: channel_id, packet };
    let mut messages: Vec<SubCall> = Vec::new();
    messages.push(SubCall { id: PROCESS_IBC_ID, reply_on: ReplyOn::Always, call });
    Ok(IbcReceiveResponse { acknowledgement: Vec::new(), messages })
}

/// The answers of the host chain that processing a packet needs: for a
/// query batch, the raw answer or the error text of each query in order;
/// for a balance request, the balance of the channel's sub-account.
pub struct ChainAnswers {
    pub query_results: Vec<Result<Vec<u8>, String>>,
    pub balances: Vec<Coin>,
}

/// The answers of a query batch, each as bytes.
pub open spec fn answer_views(results: Seq<Result<Vec<u8>, String>>) -> Seq<Seq<u8>> {
    results.map_values(|r: Result<Vec<u8>, String>| r->Ok_0@)
}

/// Every query of the batch was answered.
pub open spec fn all_answered(results: Seq<Result<Vec<u8>, String>>) -> bool {
    forall|i: int| 0 <= i < results.len() ==> (#[trigger] results[i]) is Ok
}

/// Query `i` is the first that failed.
pub open spec fn first_failure(results: Seq<Result<Vec<u8>, String>>, i: int) -> bool {
    &&& 0 <= i < results.len()
    &&& results[i] is Err
    &&& forall|j: int| 0 <= j < i ==> (#[trigger] results[j]) is Ok
}

fn copy_bytes(v: &Vec<u8>) -> (r: Vec<u8>)
    ensures
        r@ == v@,
{
    let mut out: Vec<u8> = Vec::new();
    let mut i: usize = 0;
    while i < v.len()
        invariant
            i <= v@.len(),
            out@ == v@.subrange(0, i as int),
        decreases v@.len() - i,
    {
        out.push(v[i]);
        i = i + 1;
        assert(out@ =~= v@.subrange(0, i as int));
    }
    assert(v@.subrange(0, v@.len() as int) =~= v@);
    out
}

/// The outcome of a query batch: every raw answer in order, or the error of
/// the first query that failed.
pub open spec fn query_outcome(
    results: Seq<Result<Vec<u8>, String>>,
    r: Result<Response, ContractError>,
) -> bool {
    &&& r is Ok <==> all_answered(results)
    &&& r matches Ok(resp) ==> resp.messages@.len() == 0 && (resp.data matches Some(d) && d@
        == result_ack(results_json(answer_views(results))))
    &&& r matches Err(e) ==> (exists|i: int|
        first_failure(results, i) && e == (ContractError::QueryFailed {
            message: results[i]->Err_0,
        }))
}

/// The outcome of a who-am-I request on channel `caller`.
pub open spec fn who_am_i_outcome(
    s: HostModel,
    caller: Seq<char>,
    r: Result<Response, ContractError>,
) -> bool {
    &&& r is Ok <==> bound(s, caller) is Some
    &&& r is Err ==> r->Err_0 == ContractError::UnknownChannel
    &&& r matches Ok(resp) ==> resp.messages@.len() == 0 && (resp.data matches Some(d) && d@
        == result_ack(who_am_i_json(bound(s, caller)->Some_0)))
}

/// The outcome of a balance request on channel `caller`, whose sub-account
/// holds `balances`.
pub open spec fn balances_outcome(
    s: HostModel,
    caller: Seq<char>,
    balances: Seq<(Seq<char>, nat)>,
    r: Result<Response, ContractError>,
) -> bool {
    &&& r is Ok <==> bound(s, caller) is Some
    &&& r is Err ==> r->Err_0 == ContractError::UnknownChannel
    &&& r matches Ok(resp) ==> resp.messages@.len() == 0 && (resp.data matches Some(d) && d@
        == result_ack(balances_json(bound(s, caller)->Some_0, balances)))
}

/// The outcome of a dispatch of `msgs` on channel `caller`, from state
/// `before` to state `after`.
pub open spec fn dispatch_outcome(
    before: HostModel,
    after: HostModel,
    caller: Seq<char>,
    msgs: Vec<cosmwasm_std::CosmosMsg>,
    r: Result<Response, ContractError>,
) -> bool {
    &&& r is Ok <==> bound(before, caller) is Some
    &&& r is Err ==> r->Err_0 == ContractError::UnknownChannel && after == before
    &&& r matches Ok(resp) ==> {
        &&& after == (HostModel { results: Seq::empty(), ..before })
        &&& (resp.data matches Some(d) && d@ == result_ack(results_json(Seq::empty())))
        &&& resp.messages@.len() == 1
        &&& resp.messages@[0].id == RECEIVE_DISPATCH_ID
        &&& resp.messages@[0].reply_on == ReplyOn::Success
        &&& (resp.messages@[0].call matches HostCall::ExecuteOnAccount { account, msgs: m }
            && Some(account@) == bound(before, caller) && m == msgs)
    }
}

/// A query batch: all or nothing. Answers with every raw result in order,
/// or fails with the error of the first query that failed.
pub fn receive_query(results: Vec<Result<Vec<u8>, String>>) -> (r: Result<Response, ContractError>)
    ensures
        query_outcome(results@, r),
{
    let mut answers: Vec<Vec<u8>> = Vec::new();
    let mut i: usize = 0;
    while i < results.len()
        invariant
            i <= results@.len(),
            forall|j: int| 0 <= j < i ==> (#[trigger] results@[j]) is Ok,
            views(answers@) == answer_views(results@.subrange(0, i as int)),
        decreases results@.len() - i,
    {
        let ghost prev = answers@;
        match &results[i] {
            Ok(a) => {
                let c = copy_bytes(a);
                assert(c@ == results@[i as int]->Ok_0@);
                answers.push(c);
                assert(views(answers@) =~= views(prev).push(results@[i as int]->Ok_0@));
            },
            Err(m) => {
                assert(first_failure(results@, i as int));
                return Err(ContractError::QueryFailed { message: m.clone() });
            },
        }
        assert(results@.subrange(0, i + 1) =~= results@.subrange(0, i as int).push(results@[i as int]));
        i = i + 1;
        assert(views(answers@) =~= answer_views(results@.subrange(0, i as int)));
    }
    assert(results@.subrange(0, results@.len() as int) =~= results@);
    let payload = IbcQueryResponse { results: answers }.to_json();
    Ok(Response { data: Some(StdAck::success(payload)), messages: Vec::new() })
}

/// Who-am-I: answers with the address of the channel's sub-account.
pub fn receive_who_am_i(state: &HostState, caller: &String) -> (r: Result<Response, ContractError>)
    requires
        state.wf(),
    ensures
        who_am_i_outcome(state@, caller@, r),
{
    let account = match state.accounts.get(caller) {
        None => {
            return Err(ContractError::UnknownChannel);
        },
        Some(a) => a,
    };
    let payload = WhoAmIResponse { account }.to_json();
    Ok(Response { data: Some(StdAck::success(payload)), messages: Vec::new() })
}

/// Balance request: answers with the address of the channel's sub-account
/// and its `balances`.
pub fn receive_balances(state: &HostState, caller: &String, balances: Vec<Coin>) -> (r: Result<
    Response,
    ContractError,
>)
    requires
        state.wf(),
    ensures
        balances_outcome(state@, caller@, coin_views(balances@), r),
{
    let account = match state.accounts.get(caller) {
        None => {
            return Err(ContractError::UnknownChannel);
        },
        Some(a) => a,
    };
    let payload = BalancesResponse { account, balances }.to_json();
    Ok(Response { data: Some(StdAck::success(payload)), messages: Vec::new() })
}

/// Dispatch: starts an empty result list and has the channel's sub-account
/// execute the batch, replying only on success. The acknowledgement is a
/// success with no results until the reply overwrites it.
pub fn receive_dispatch(
    state: &mut HostState,
    caller: &String,
    msgs: Vec<cosmwasm_std::CosmosMsg>,
) -> (r: Result<Response, ContractError>)
    requires
        old(state).wf(),
    ensures
        final(state).wf(),
        dispatch_outcome(old(state)@, final(state)@, caller@, msgs, r),
{
    let account = match state.accounts.get(caller) {
        None => {
            return Err(ContractError::UnknownChannel);
        },
        Some(a) => a,
    };
    let payload = DispatchResponse { results: Vec::new() }.to_json();
    assert(views(Seq::<Vec<u8>>::empty()) =~= Seq::<Seq<u8>>::empty());
    state.results = Vec::new();
    assert(state@.results =~= Seq::<Seq<u8>>::empty());
    let call = HostCall::ExecuteOnAccount { account, msgs };
    let mut messages: Vec<SubCall> = Vec::new();
    messages.push(SubCall { id: RECEIVE_DISPATCH_ID, reply_on: ReplyOn::Success, call });
    Ok(Response { data: Some(StdAck::success(payload)), messages })
}

/// The outcome of processing `packet` from channel `caller`, from state
/// `before` to state `after`, given what the chain answered.
pub open spec fn packet_outcome(
    before: HostModel,
    after: HostModel,
    caller: Seq<char>,
    packet: PacketMsg,
    answers: ChainAnswers,
    r: Result<Response, ContractError>,
) -> bool {
    match packet {
        PacketMsg::Dispatch { msgs, .. } => dispatch_outcome(before, after, caller, msgs, r),
        PacketMsg::IbcQuery { .. } => after == before && query_outcome(answers.query_results@, r),
        PacketMsg::WhoAmI {  } => after == before && who_am_i_outcome(before, caller, r),
        PacketMsg::Balances {  } => after == before && balances_outcome(
            before,
            caller,
            coin_views(answers.balances@),
            r,
        ),
    }
}

/// Processing of a packet, in the call the host makes to itself: refused to
/// any `sender` but the host itself, then handled by request kind.
pub fn process_ibc_packet(
    state: &mut HostState,
    contract: &String,
    sender: &String,
    caller: String,
    packet: PacketMsg,
    answers: ChainAnswers,
) -> (r: Result<Response, ContractError>)
    requires
        old(state).wf(),
    ensures
        final(state).wf(),
        sender@ != contract@ ==> r == Err::<Response, ContractError>(ContractError::OnlySelfCall)
            && final(state)@ == old(state)@,
        sender@ == contract@ ==> packet_outcome(
            old(state)@,
            final(state)@,
            caller@,
            packet,
            answers,
            r,
        ),
{
    if *sender != *contract {
        return Err(ContractError::OnlySelfCall);
    }
    match packet {
        PacketMsg::Dispatch { msgs, .. } => receive_dispatch(state, &caller, msgs),
        PacketMsg::IbcQuery { .. } => receive_query(answers.query_results),
        PacketMsg::WhoAmI {  } => receive_who_am_i(state, &caller),
        PacketMsg::Balances {  } => receive_balances(state, &caller, answers.balances),
    }
}

/// The calls the host accepts from the chain.
#[derive(Debug)]
pub enum ExecuteMsg {
    /// Process a packet received on channel `caller`; only the host may send it.
    ProcessIbc { caller: String, packet: PacketMsg },
}

/// A call into the host from `sender`.
pub fn execute(
    state: &mut HostState,
    contract: &String,
    sender: &String,
    msg: ExecuteMsg,
    answers: ChainAnswers,
) -> (r: Result<Response, ContractError>)
    requires
        old(state).wf(),
    ensures
        final(state).wf(),
        sender@ != contract@ ==> r == Err::<Response, ContractError>(ContractError::OnlySelfCall)
            && final(state)@ == old(state)@,
        sender@ == contract@ ==> (msg matches ExecuteMsg::ProcessIbc { caller, packet }
            && packet_outcome(old(state)@, final(state)@, caller@, packet, answers, r)),
{
    match msg {
        ExecuteMsg::ProcessIbc { caller, packet } => process_ibc_packet(
            state,
            contract,
            sender,
            caller,
            packet,
            answers,
        ),
    }
}

/// The data a successful sub-call returned, or nothing.
pub open spec fn returned_data(result: SubMsgResult) -> Seq<u8> {
    match result {
        SubMsgResult::Succeeded(Some(d)) => d@,
        _ => Seq::empty(),
    }
}

/// The outcome of a dispatch reply, from state `before` to state `after`.
pub open spec fn dispatch_reply_outcome(
    before: HostModel,
    after: HostModel,
    result: SubMsgResult,
    r: Result<Response, ContractError>,
) -> bool {
    &&& r is Ok <==> result is Succeeded
    &&& r is Err ==> after == before && r->Err_0 == (ContractError::SubCallFailed {
        message: result->Failed_0,
    })
    &&& r matches Ok(resp) ==> {
        &&& after == (HostModel { results: before.results.push(returned_data(result)), ..before })
        &&& resp.messages@.len() == 0
        &&& (resp.data matches Some(d) && d@ == result_ack(results_json(after.results)))
    }
}

/// Dispatch reply: records what the sub-account returned and acknowledges
/// success with every result of the batch so far. A failed sub-call cannot
/// reply here; it fails the call, changing nothing.
pub fn reply_dispatch_callback(state: &mut HostState, result: SubMsgResult) -> (r: Result<
    Response,
    ContractError,
>)
    requires
        old(state).wf(),
    ensures
        final(state).wf(),
        dispatch_reply_outcome(old(state)@, final(state)@, result, r),
{
    let data = match result {
        SubMsgResult::Failed(m) => {
            return Err(ContractError::SubCallFailed { message: m });
        },
        SubMsgResult::Succeeded(Some(d)) => d,
        SubMsgResult::Succeeded(None) => Vec::new(),
    };
    let ghost prev = state@;
    state.results.push(data);
    assert(state@.results =~= prev.results.push(returned_data(result)));
    let payload = DispatchResponse { results: copy_results(&state.results) }.to_json();
    Ok(Response { data: Some(StdAck::success(payload)), messages: Vec::new() })
}

fn copy_results(v: &Vec<Vec<u8>>) -> (r: Vec<Vec<u8>>)
    ensures
        views(r@) == views(v@),
{
    let mut out: Vec<Vec<u8>> = Vec::new();
    let mut i: usize = 0;
    while i < v.len()
        invariant
            i <= v@.len(),
            views(out@) == views(v@.subrange(0, i as int)),
        decreases v@.len() - i,
    {
        let ghost prev = out@;
        out.push(copy_bytes(&v[i]));
        assert(views(out@) =~= views(prev).push(v@[i as int]@));
        assert(v@.subrange(0, i + 1) =~= v@.subrange(0, i as int).push(v@[i as int]));
        i = i + 1;
        assert(views(out@) =~= views(v@.subrange(0, i as int)));
    }
    assert(v@.subrange(0, v@.len() as int) =~= v@);
    out
}

/// The outcome of the reply of the host's own processing call.
pub open spec fn process_reply_outcome(result: SubMsgResult, r: Result<Response, ContractError>) -> bool {
    &&& r is Err <==> result == SubMsgResult::Succeeded(None)
    &&& r is Err ==> r->Err_0 == ContractError::MissingAck
    &&& r matches Ok(resp) ==> resp.messages@.len() == 0 && (resp.data matches Some(d) && match result {
        SubMsgResult::Succeeded(Some(a)) => d@ == a@,
        SubMsgResult::Failed(m) => d@ == error_ack(m@),
        _ => false,
    })
}

/// Reply of the host's own processing call: its data is the acknowledgement
/// when it succeeded; when it failed, the acknowledgement is an error with
/// its text. Either way the receipt commits.
pub fn reply_process_ibc(result: SubMsgResult) -> (r: Result<Response, ContractError>)
    ensures
        process_reply_outcome(result, r),
{
    match result {
        SubMsgResult::Succeeded(Some(a)) => Ok(Response { data: Some(a), messages: Vec::new() }),
        SubMsgResult::Succeeded(None) => Err(ContractError::MissingAck),
        SubMsgResult::Failed(m) => Ok(Response { data: Some(StdAck::fail(m)), messages: Vec::new() }),
    }
}

/// A reply to a sub-call, routed by the id it was made under.
pub fn reply(state: &mut HostState, id: u64, result: SubMsgResult) -> (r: Result<
    Response,
    ContractError,
>)
    requires
        old(state).wf(),
    ensures
        final(state).wf(),
        id == RECEIVE_DISPATCH_ID ==> dispatch_reply_outcome(old(state)@, final(state)@, result, r),
        id == INIT_CALLBACK_ID ==> init_reply_outcome(old(state)@, final(state)@, result, r),
        id == PROCESS_IBC_ID ==> final(state)@ == old(state)@ && process_reply_outcome(result, r),
        id != RECEIVE_DISPATCH_ID && id != INIT_CALLBACK_ID && id != PROCESS_IBC_ID ==> r
            == Err::<Response, ContractError>(ContractError::InvalidReplyId) && final(state)@ == old(
            state,
        )@,
{
    if id == RECEIVE_DISPATCH_ID {
        reply_dispatch_callback(state, result)
    } else if id == INIT_CALLBACK_ID {
        reply_init_callback(state, result)
    } else if id == PROCESS_IBC_ID {
        reply_process_ibc(result)
    } else {
        Err(ContractError::InvalidReplyId)
    }
}

/// One packet through the host, as the chain runs it: the receipt; the
/// host's call to itself, during which the sub-account executes a
/// dispatched batch (`batch` is how that went); and the reply that sets the
/// acknowledgement. The writes of the call to itself are kept only when it
/// succeeds, while the receipt commits with whichever acknowledgement comes
/// out. Fails, changing nothing and acknowledging nothing, only where the
/// receipt refuses the packet.
pub fn deliver_packet(
    state: &mut HostState,
    contract: &String,
    channel_id: String,
    packet: Option<PacketMsg>,
    answers: ChainAnswers,
    batch: SubMsgResult,
) -> (r: Result<Vec<u8>, ContractError>)
    requires
        old(state).wf(),
    ensures
        final(state).wf(),
        r is Err <==> bound(old(state)@, channel_id@) is None || packet is None,
        r is Err ==> final(state)@ == old(state)@,
        bound(old(state)@, channel_id@) is None ==> r == Err::<Vec<u8>, ContractError>(
            ContractError::UnknownChannel,
        ),
        bound(old(state)@, channel_id@) is Some ==> match packet {
            None => r == Err::<Vec<u8>, ContractError>(ContractError::InvalidPacket),
            Some(PacketMsg::Dispatch { .. }) => match batch {
                SubMsgResult::Failed(m) => final(state)@ == old(state)@ && (r matches Ok(ack)
                    && ack@ == error_ack(m@)),
                _ => final(state)@ == (HostModel {
                    results: seq![returned_data(batch)],
                    ..old(state)@
                }) && (r matches Ok(ack) && ack@ == result_ack(
                    results_json(seq![returned_data(batch)]),
                )),
            },
            Some(PacketMsg::IbcQuery { .. }) => final(state)@ == old(state)@ && (r matches Ok(ack)
                && if all_answered(answers.query_results@) {
                ack@ == result_ack(results_json(answer_views(answers.query_results@)))
            } else {
                exists|i: int|
                    first_failure(answers.query_results@, i) && ack@ == error_ack(
                        answers.query_results@[i]->Err_0@,
                    )
            }),
            Some(PacketMsg::WhoAmI {  }) => final(state)@ == old(state)@ && (r matches Ok(ack)
                && ack@ == result_ack(who_am_i_json(bound(old(state)@, channel_id@)->Some_0))),
            Some(PacketMsg::Balances {  }) => final(state)@ == old(state)@ && (r matches Ok(ack)
                && ack@ == result_ack(
                balances_json(
                    bound(old(state)@, channel_id@)->Some_0,
                    coin_views(answers.balances@),
                ),
            )),
        },
{
    let ghost before = state@;
    let ghost ch = channel_id@;
    let receipt = ibc_packet_receive(state, contract, channel_id, packet)?;
    let mut messages = receipt.messages;
    let sub = match messages.pop() {
        Some(s) => s,
        None => {
            return Err(ContractError::InvalidPacket);
        },
    };
    let (caller, packet) = match sub.call {
        HostCall::ProcessPacket { caller, packet, .. } => (caller, packet),
        _ => {
            return Err(ContractError::InvalidPacket);
        },
    };
    assert(caller@ == ch);
    // the only part of the state the call to itself writes; restored when it fails
    let saved = copy_results(&state.results);
    let outcome = match process_ibc_packet(state, contract, contract, caller, packet, answers) {
        Err(e) => {
            state.results = saved;
            SubMsgResult::Failed(e.message())
        },
        Ok(resp) => {
            if resp.messages.len() > 0 {
                // a dispatch: the sub-account's batch runs inside the same call
                match batch {
                    SubMsgResult::Failed(m) => {
                        state.results = saved;
                        SubMsgResult::Failed(m)
                    },
                    SubMsgResult::Succeeded(d) => {
                        match reply_dispatch_callback(state, SubMsgResult::Succeeded(d)) {
                            Ok(done) => SubMsgResult::Succeeded(done.data),
                            Err(e) => {
                                state.results = saved;
                                SubMsgResult::Failed(e.message())
                            },
                        }
                    },
                }
            } else {
                SubMsgResult::Succeeded(resp.data)
            }
        },
    };
    match reply_process_ibc(outcome) {
        Ok(resp) => match resp.data {
            Some(ack) => Ok(ack),
            None => Ok(Vec::new()),
        },
        Err(e) => Err(e),
    }
}

/// Acknowledgement of a packet the host sent; the host sends none.
pub fn ibc_packet_ack() -> (r: Response)
    ensures
        r.data is None && r.messages@.len() == 0,
{
    Response { data: None, messages: Vec::new() }
}

/// Timeout of a packet the host sent; the host sends none.
pub fn ibc_packet_timeout() -> (r: Response)
    ensures
        r.data is None && r.messages@.len() == 0,
{
    Response { data: None, messages: Vec::new() }
}

} // verus!
