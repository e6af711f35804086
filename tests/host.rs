use cosmwasm_std::{coins, BankMsg, CosmosMsg};
use simple_ica::ack::StdAck;
use simple_ica::dispatch::{
    deliver_packet, execute, ibc_packet_ack, ibc_packet_receive, ibc_packet_timeout,
    process_ibc_packet, receive_query, reply, ChainAnswers, ExecuteMsg,
};
use simple_ica::host::{
    ibc_channel_close, ibc_channel_connect, ibc_channel_open, instantiate, ContractError, HostCall,
    HostState, IbcChannelOpenMsg, InstantiateMsg, ReplyOn, SubMsgResult, APP_ORDER, BAD_APP_ORDER,
    IBC_APP_VERSION, INIT_CALLBACK_ID, PROCESS_IBC_ID, RECEIVE_DISPATCH_ID,
};
use simple_ica::queries::{query, query_account, query_list_accounts, QueryMsg};
use simple_ica::packet::PacketMsg;
use simple_ica::responses::Coin;

const CREATOR: &str = "creator";
const CONTRACT: &str = "cosmos2contract";
const REFLECT_ID: u64 = 101;
const REFLECT_ADDR: &str = "reflect-acct-1";

fn setup() -> HostState {
    instantiate(InstantiateMsg { cw1_code_id: REFLECT_ID })
}

// the creation response as the chain encodes it (protobuf, field 1 = address)
fn fake_data(reflect_addr: &str) -> Vec<u8> {
    let mut encoded = vec![0x0a, reflect_addr.len() as u8];
    encoded.extend(reflect_addr.as_bytes());
    encoded
}

fn open_init(channel_id: &str) -> IbcChannelOpenMsg {
    IbcChannelOpenMsg {
        channel_id: channel_id.to_string(),
        order: APP_ORDER,
        version: IBC_APP_VERSION.to_string(),
        counterparty_version: None,
    }
}

fn no_answers() -> ChainAnswers {
    ChainAnswers { query_results: vec![], balances: vec![] }
}

fn connect(state: &mut HostState, channel_id: &str, account: &str) {
    ibc_channel_open(&open_init(channel_id)).unwrap();
    let res = ibc_channel_connect(state, &CONTRACT.to_string(), channel_id.to_string()).unwrap();
    assert_eq!(1, res.messages.len());
    let id = res.messages[0].id;
    let result = SubMsgResult::Succeeded(Some(fake_data(account)));
    reply(state, id, result).unwrap();
}

fn decode_ack(bytes: &[u8]) -> StdAck {
    StdAck::decode(bytes).expect("a well-formed acknowledgement")
}

fn bank_send(to: &str, amount: u128, denom: &str) -> CosmosMsg {
    BankMsg::Send { to_address: to.into(), amount: coins(amount, denom) }.into()
}

#[test]
fn contract_instantiate_works() {
    let state = instantiate(InstantiateMsg { cw1_code_id: 17 });
    assert_eq!(17, state.config.cw1_code_id);
    assert_eq!(0, query_list_accounts(&state).accounts.len());
    assert!(state.pending.is_none());
    let _ = CREATOR;
}

#[test]
fn enforce_version_in_handshake() {
    let wrong_order = IbcChannelOpenMsg {
        channel_id: "channel-12".to_string(),
        order: BAD_APP_ORDER,
        version: IBC_APP_VERSION.to_string(),
        counterparty_version: Some(IBC_APP_VERSION.to_string()),
    };
    ibc_channel_open(&wrong_order).unwrap_err();

    let wrong_version = IbcChannelOpenMsg {
        channel_id: "channel-12".to_string(),
        order: APP_ORDER,
        version: "reflect".to_string(),
        counterparty_version: Some("reflect".to_string()),
    };
    ibc_channel_open(&wrong_version).unwrap_err();

    let valid_handshake = IbcChannelOpenMsg {
        channel_id: "channel-12".to_string(),
        order: APP_ORDER,
        version: IBC_APP_VERSION.to_string(),
        counterparty_version: Some(IBC_APP_VERSION.to_string()),
    };
    ibc_channel_open(&valid_handshake).unwrap();
}

#[test]
fn proper_handshake_flow() {
    let mut state = setup();
    let channel_id = "channel-1234";

    // first we try to open with a valid handshake
    ibc_channel_open(&open_init(channel_id)).unwrap();

    // then we connect
    let res = ibc_channel_connect(&mut state, &CONTRACT.to_string(), channel_id.to_string()).unwrap();
    // and set up a reflect account
    assert_eq!(1, res.messages.len());
    let id = res.messages[0].id;
    match &res.messages[0].call {
        HostCall::CreateAccount { code_id, admin, label } => {
            assert_eq!(*code_id, REFLECT_ID);
            assert_eq!(admin, CONTRACT);
            assert!(label.contains(channel_id));
        }
        other => panic!("invalid return message: {:?}", other),
    }

    // no accounts set yet
    let res = query_list_accounts(&state);
    assert_eq!(0, res.accounts.len());

    // fake a reply and ensure this works
    let result = SubMsgResult::Succeeded(Some(fake_data(REFLECT_ADDR)));
    reply(&mut state, id, result).unwrap();

    // ensure this is now registered
    let res = query_list_accounts(&state);
    assert_eq!(1, res.accounts.len());
    assert_eq!(res.accounts[0].account, REFLECT_ADDR);
    assert_eq!(res.accounts[0].channel_id, channel_id);

    // and the account query also works
    let res = query_account(&state, channel_id.to_string());
    assert_eq!(res.account.unwrap(), REFLECT_ADDR);
}

#[test]
fn handle_dispatch_packet() {
    let mut state = setup();

    let channel_id = "channel-123";
    let account = "acct-123";

    // receive a packet for an unregistered channel aborts the receipt
    let msgs_to_dispatch = vec![bank_send("my-friend", 123456789, "uatom")];
    let ibc_msg = PacketMsg::Dispatch {
        msgs: msgs_to_dispatch.clone(),
        sender: account.to_string(),
        callback_id: None,
    };
    let err = ibc_packet_receive(&state, &CONTRACT.to_string(), channel_id.to_string(), Some(ibc_msg))
        .unwrap_err();
    assert_eq!(err, ContractError::UnknownChannel);

    // register the channel
    connect(&mut state, channel_id, account);

    // the receipt now hands the packet to the host's own processing call
    let ibc_msg = PacketMsg::Dispatch {
        msgs: msgs_to_dispatch.clone(),
        sender: account.to_string(),
        callback_id: None,
    };
    let res = ibc_packet_receive(&state, &CONTRACT.to_string(), channel_id.to_string(), Some(ibc_msg))
        .unwrap();
    assert!(res.acknowledgement.is_empty());
    assert_eq!(1, res.messages.len());
    assert_eq!(PROCESS_IBC_ID, res.messages[0].id);
    assert_eq!(ReplyOn::Always, res.messages[0].reply_on);
    let (caller, packet) = match res.messages.into_iter().next().unwrap().call {
        HostCall::ProcessPacket { contract, caller, packet } => {
            assert_eq!(contract, CONTRACT);
            (caller, packet)
        }
        other => panic!("invalid return message: {:?}", other),
    };

    // which processes it: app-level success, and the batch goes to the sub-account
    let res = execute(
        &mut state,
        &CONTRACT.to_string(),
        &CONTRACT.to_string(),
        ExecuteMsg::ProcessIbc { caller, packet },
        no_answers(),
    )
    .unwrap();
    let ack = decode_ack(&res.data.unwrap());
    ack.unwrap();
    assert_eq!(1, res.messages.len());
    assert_eq!(RECEIVE_DISPATCH_ID, res.messages[0].id);
    match &res.messages[0].call {
        HostCall::ExecuteOnAccount { account: acct, msgs } => {
            assert_eq!(account, acct.as_str());
            assert_eq!(*msgs, msgs_to_dispatch);
        }
        other => panic!("invalid return message: {:?}", other),
    }

    // invalid packet format on registered channel also aborts
    let err = ibc_packet_receive(&state, &CONTRACT.to_string(), channel_id.to_string(), None)
        .unwrap_err();
    assert_eq!(err, ContractError::InvalidPacket);
}

#[test]
fn check_close_channel() {
    let mut state = setup();

    let channel_id = "channel-123";
    let account = "acct-123";

    // register the channel
    connect(&mut state, channel_id, account);
    // its sub-account holds some funds
    let funds = vec![
        Coin { denom: "uatom".to_string(), amount: 123456 },
        Coin { denom: "tgrd".to_string(), amount: 7654321 },
    ];

    // channel should be listed
    let res = query_list_accounts(&state);
    assert_eq!(1, res.accounts.len());

    // close the channel
    let res = ibc_channel_close(&mut state, &CONTRACT.to_string(), &channel_id.to_string(), funds.clone())
        .unwrap();

    // it pulls out all money from the reflect contract
    assert_eq!(1, res.messages.len());
    match &res.messages[0].call {
        HostCall::SweepAccount { account: acct, to_address, amount } => {
            assert_eq!(acct.as_str(), account);
            assert_eq!(to_address.as_str(), CONTRACT);
            assert_eq!(*amount, funds);
        }
        other => panic!("Unexpected message: {:?}", other),
    }

    // and removes the account lookup
    let res = query_list_accounts(&state);
    assert_eq!(0, res.accounts.len());
}

#[test]
fn unbound_channel_aborts_every_request() {
    let mut state = setup();
    connect(&mut state, "channel-1", "acct-1");
    let packets = vec![
        PacketMsg::Dispatch { sender: "a".into(), msgs: vec![], callback_id: None },
        PacketMsg::IbcQuery { sender: "a".into(), msgs: vec![], callback_id: Some("q".into()) },
        PacketMsg::WhoAmI {},
        PacketMsg::Balances {},
    ];
    for packet in packets {
        let res = deliver_packet(
            &mut state,
            &CONTRACT.to_string(),
            "channel-2".to_string(),
            Some(packet),
            no_answers(),
            SubMsgResult::Succeeded(None),
        );
        assert_eq!(res.unwrap_err(), ContractError::UnknownChannel);
        assert_eq!(1, query_list_accounts(&state).accounts.len());
        assert!(state.results.is_empty());
    }
}

#[test]
fn handshake_binds_exactly_one_account() {
    let mut state = setup();
    connect(&mut state, "channel-7", "acct-7");
    let list = query_list_accounts(&state);
    assert_eq!(1, list.accounts.len());
    assert_eq!(list.accounts[0].channel_id, "channel-7");
    assert_eq!(list.accounts[0].account, "acct-7");
    assert!(state.pending.is_none());
    assert_eq!(query_account(&state, "channel-8".to_string()).account, None);
}

#[test]
fn second_connect_while_pending_fails() {
    let mut state = setup();
    ibc_channel_connect(&mut state, &CONTRACT.to_string(), "channel-1".to_string()).unwrap();
    let err = ibc_channel_connect(&mut state, &CONTRACT.to_string(), "channel-2".to_string())
        .unwrap_err();
    assert_eq!(err, ContractError::PendingRegistration);
    assert_eq!(state.pending.as_deref(), Some("channel-1"));
}

#[test]
fn rebinding_a_channel_fails() {
    let mut state = setup();
    connect(&mut state, "channel-1", "acct-1");
    ibc_channel_connect(&mut state, &CONTRACT.to_string(), "channel-1".to_string()).unwrap();
    let err = reply(&mut state, INIT_CALLBACK_ID, SubMsgResult::Succeeded(Some(fake_data("acct-2"))))
        .unwrap_err();
    assert_eq!(err, ContractError::ChannelAlreadyRegistered);
    assert_eq!(query_account(&state, "channel-1".to_string()).account.unwrap(), "acct-1");
    // the failed call changed nothing: the creation is still pending
    assert_eq!(state.pending.as_deref(), Some("channel-1"));
}

#[test]
fn creation_reply_errors() {
    let mut state = setup();
    let err = reply(&mut state, INIT_CALLBACK_ID, SubMsgResult::Succeeded(Some(fake_data("a"))))
        .unwrap_err();
    assert_eq!(err, ContractError::NoPendingRegistration);
    ibc_channel_connect(&mut state, &CONTRACT.to_string(), "channel-1".to_string()).unwrap();
    let err = reply(&mut state, INIT_CALLBACK_ID, SubMsgResult::Succeeded(None)).unwrap_err();
    assert_eq!(err, ContractError::ParseReply);
    let err = reply(&mut state, INIT_CALLBACK_ID, SubMsgResult::Succeeded(Some(vec![0x12, 0x01, 0x41])))
        .unwrap_err();
    assert_eq!(err, ContractError::ParseReply);
    let err = reply(&mut state, INIT_CALLBACK_ID, SubMsgResult::Failed("boom".into())).unwrap_err();
    assert_eq!(err, ContractError::ParseReply);
    assert_eq!(0, query_list_accounts(&state).accounts.len());
}

#[test]
fn unknown_reply_id_is_fatal() {
    let mut state = setup();
    let err = reply(&mut state, 1, SubMsgResult::Succeeded(None)).unwrap_err();
    assert_eq!(err, ContractError::InvalidReplyId);
}

#[test]
fn only_the_host_may_process_packets() {
    let mut state = setup();
    connect(&mut state, "channel-1", "acct-1");
    let err = process_ibc_packet(
        &mut state,
        &CONTRACT.to_string(),
        &"intruder".to_string(),
        "channel-1".to_string(),
        PacketMsg::WhoAmI {},
        no_answers(),
    )
    .unwrap_err();
    assert_eq!(err, ContractError::OnlySelfCall);
}

#[test]
fn failed_batch_rolls_back_and_acks_error() {
    let mut state = setup();
    connect(&mut state, "channel-1", "acct-1");
    state.results = vec![b"earlier".to_vec()];
    let packet = PacketMsg::Dispatch {
        sender: "remote".into(),
        msgs: vec![bank_send("a", 1, "x"), bank_send("b", 2, "x"), bank_send("c", 3, "x")],
        callback_id: None,
    };
    let ack = deliver_packet(
        &mut state,
        &CONTRACT.to_string(),
        "channel-1".to_string(),
        Some(packet),
        no_answers(),
        SubMsgResult::Failed("message 2 failed".into()),
    )
    .unwrap();
    assert_eq!(decode_ack(&ack), StdAck::Error("message 2 failed".to_string()));
    assert_eq!(ack, br#"{"error":"message 2 failed"}"#.to_vec());
    // the reset of the result list inside the failed call was rolled back
    assert_eq!(state.results, vec![b"earlier".to_vec()]);
}

#[test]
fn scenario_dispatch_then_balances() {
    let mut state = instantiate(InstantiateMsg { cw1_code_id: 1 });
    connect(&mut state, "c1", "acct-1");
    assert_eq!(query_account(&state, "c1".to_string()).account.unwrap(), "acct-1");

    // a dispatch of one transfer of 100 units to "friend"
    let transfer = bank_send("friend", 100, "X");
    let packet = PacketMsg::Dispatch { sender: "A".into(), msgs: vec![transfer.clone()], callback_id: None };
    let receipt = ibc_packet_receive(&state, &CONTRACT.to_string(), "c1".to_string(), Some(packet)).unwrap();
    let (caller, packet) = match receipt.messages.into_iter().next().unwrap().call {
        HostCall::ProcessPacket { caller, packet, .. } => (caller, packet),
        other => panic!("Unexpected message: {:?}", other),
    };
    let processed = process_ibc_packet(
        &mut state,
        &CONTRACT.to_string(),
        &CONTRACT.to_string(),
        caller,
        packet,
        no_answers(),
    )
    .unwrap();
    assert_eq!(processed.messages.len(), 1);
    match &processed.messages[0].call {
        HostCall::ExecuteOnAccount { account, msgs } => {
            assert_eq!(account, "acct-1");
            assert_eq!(msgs, &vec![transfer]);
        }
        other => panic!("Unexpected message: {:?}", other),
    }
    let finalized = reply(&mut state, RECEIVE_DISPATCH_ID, SubMsgResult::Succeeded(None)).unwrap();
    let outer = reply(&mut state, PROCESS_IBC_ID, SubMsgResult::Succeeded(finalized.data)).unwrap();
    let ack = decode_ack(&outer.data.unwrap());
    assert_eq!(ack.unwrap(), br#"{"results":[""]}"#.to_vec());

    // then a balance request, once "acct-1" holds 50 X
    let answers = ChainAnswers {
        query_results: vec![],
        balances: vec![Coin { denom: "X".to_string(), amount: 50 }],
    };
    let ack = deliver_packet(
        &mut state,
        &CONTRACT.to_string(),
        "c1".to_string(),
        Some(PacketMsg::Balances {}),
        answers,
        SubMsgResult::Succeeded(None),
    )
    .unwrap();
    let payload = decode_ack(&ack).unwrap();
    assert_eq!(
        String::from_utf8(payload).unwrap(),
        r#"{"account":"acct-1","balances":[{"denom":"X","amount":"50"}]}"#
    );
}

#[test]
fn dispatch_success_acknowledges_results() {
    let mut state = setup();
    connect(&mut state, "channel-1", "acct-1");
    let packet = PacketMsg::Dispatch { sender: "r".into(), msgs: vec![], callback_id: None };
    let ack = deliver_packet(
        &mut state,
        &CONTRACT.to_string(),
        "channel-1".to_string(),
        Some(packet),
        no_answers(),
        SubMsgResult::Succeeded(Some(vec![1, 2, 3])),
    )
    .unwrap();
    assert_eq!(ack, br#"{"result":"eyJyZXN1bHRzIjpbIkFRSUQiXX0="}"#.to_vec());
    assert_eq!(decode_ack(&ack).unwrap(), br#"{"results":["AQID"]}"#.to_vec());
    assert_eq!(state.results, vec![vec![1u8, 2, 3]]);
}

#[test]
fn who_am_i_reports_the_account() {
    let mut state = setup();
    connect(&mut state, "channel-1", "acct-\"1\"");
    let ack = deliver_packet(
        &mut state,
        &CONTRACT.to_string(),
        "channel-1".to_string(),
        Some(PacketMsg::WhoAmI {}),
        no_answers(),
        SubMsgResult::Succeeded(None),
    )
    .unwrap();
    let payload = decode_ack(&ack).unwrap();
    assert_eq!(String::from_utf8(payload).unwrap(), r#"{"account":"acct-\"1\""}"#);
}

#[test]
fn queries_are_all_or_nothing() {
    let mut state = setup();
    connect(&mut state, "channel-1", "acct-1");
    let packet = || PacketMsg::IbcQuery { sender: "r".into(), msgs: vec![], callback_id: None };
    let answers = ChainAnswers { query_results: vec![Ok(b"{}".to_vec()), Ok(vec![])], balances: vec![] };
    let ack = deliver_packet(
        &mut state,
        &CONTRACT.to_string(),
        "channel-1".to_string(),
        Some(packet()),
        answers,
        SubMsgResult::Succeeded(None),
    )
    .unwrap();
    assert_eq!(decode_ack(&ack).unwrap(), br#"{"results":["e30=",""]}"#.to_vec());

    let answers = ChainAnswers {
        query_results: vec![Ok(vec![1]), Err("first".into()), Err("second".into())],
        balances: vec![],
    };
    let ack = deliver_packet(
        &mut state,
        &CONTRACT.to_string(),
        "channel-1".to_string(),
        Some(packet()),
        answers,
        SubMsgResult::Succeeded(None),
    )
    .unwrap();
    assert_eq!(decode_ack(&ack).unwrap_err(), "first");

    let err = receive_query(vec![Err("bad".into())]).unwrap_err();
    assert_eq!(err, ContractError::QueryFailed { message: "bad".into() });
}

#[test]
fn close_with_empty_balance_skips_sweep() {
    let mut state = setup();
    connect(&mut state, "channel-1", "acct-1");
    let res = ibc_channel_close(&mut state, &CONTRACT.to_string(), &"channel-1".to_string(), vec![])
        .unwrap();
    assert!(res.messages.is_empty());
    assert_eq!(query_account(&state, "channel-1".to_string()).account, None);
    let err = ibc_channel_close(&mut state, &CONTRACT.to_string(), &"channel-1".to_string(), vec![])
        .unwrap_err();
    assert_eq!(err, ContractError::UnknownChannel);
}

#[test]
fn accounts_are_listed_in_key_order() {
    let mut state = setup();
    for (ch, acct) in [("channel-b", "b"), ("channel-a", "a"), ("channel-c", "c"), ("channel-aa", "aa")] {
        connect(&mut state, ch, acct);
    }
    let names: Vec<String> = query_list_accounts(&state).accounts.into_iter().map(|e| e.channel_id).collect();
    assert_eq!(names, vec!["channel-a", "channel-aa", "channel-b", "channel-c"]);
}

#[test]
fn query_answers_are_json() {
    let mut state = setup();
    connect(&mut state, "channel-1", "acct-1");
    let raw = query(&state, QueryMsg::Account { channel_id: "channel-1".to_string() });
    assert_eq!(raw, br#"{"account":"acct-1"}"#.to_vec());
    let raw = query(&state, QueryMsg::Account { channel_id: "nope".to_string() });
    assert_eq!(raw, br#"{"account":null}"#.to_vec());
    let raw = query(&state, QueryMsg::ListAccounts {});
    assert_eq!(raw, br#"{"accounts":[{"account":"acct-1","channel_id":"channel-1"}]}"#.to_vec());
}

#[test]
fn process_reply_without_data_is_fatal() {
    let mut state = setup();
    let err = reply(&mut state, PROCESS_IBC_ID, SubMsgResult::Succeeded(None)).unwrap_err();
    assert_eq!(err, ContractError::MissingAck);
    let err = reply(&mut state, RECEIVE_DISPATCH_ID, SubMsgResult::Failed("x".into())).unwrap_err();
    assert_eq!(err, ContractError::SubCallFailed { message: "x".into() });
}

#[test]
fn ack_and_timeout_do_nothing() {
    assert!(ibc_packet_ack().messages.is_empty());
    assert!(ibc_packet_timeout().data.is_none());
}

#[test]
fn open_errors_name_the_cause() {
    let mut msg = open_init("c");
    msg.order = BAD_APP_ORDER;
    assert_eq!(ibc_channel_open(&msg).unwrap_err(), ContractError::InvalidOrder);
    let mut msg = open_init("c");
    msg.counterparty_version = Some("v1".to_string());
    let err = ibc_channel_open(&msg).unwrap_err();
    assert_eq!(err, ContractError::InvalidVersion { version: "v1".to_string() });
    assert_eq!(err.message(), "counterparty version must be simple-ica-v2, got v1");
    assert_eq!(ibc_channel_open(&open_init("c")).unwrap(), "simple-ica-v2");
}
