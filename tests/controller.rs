use cosmwasm_std::{BankMsg, CosmosMsg, Empty, QueryRequest, WasmQuery};
use simple_ica::controller::{
    execute, execute_check_remote_balance, execute_ibc_query, execute_send_funds, execute_send_msgs,
    execute_update_admin, instantiate, query_admin, AccountData, ControllerError, ExecuteMsg, IbcMsg,
    PACKET_LIFETIME,
};
use simple_ica::packet::PacketMsg;
use simple_ica::responses::Coin;

const CREATOR: &str = "creator";
const NOW: u64 = 1_571_797_419_879_305_533;

fn account(remote: Option<&str>) -> Option<AccountData> {
    Some(AccountData {
        last_update_time: 0,
        remote_addr: remote.map(|s| s.to_string()),
        remote_balance: vec![],
    })
}

fn coin(amount: u128, denom: &str) -> Coin {
    Coin { denom: denom.to_string(), amount }
}

#[test]
fn controller_instantiate_works() {
    let cfg = instantiate(CREATOR.to_string());
    let admin = query_admin(&cfg);
    assert_eq!(CREATOR, admin.admin.as_str());
}

#[test]
fn update_admin_needs_the_admin() {
    let mut cfg = instantiate(CREATOR.to_string());
    let err = execute_update_admin(&mut cfg, &"other".to_string(), "other".to_string()).unwrap_err();
    assert_eq!(err, ControllerError::Unauthorized);
    assert_eq!(cfg.admin, CREATOR);
    execute_update_admin(&mut cfg, &CREATOR.to_string(), "next".to_string()).unwrap();
    assert_eq!(cfg.admin, "next");
}

#[test]
fn send_msgs_builds_a_dispatch_packet() {
    let cfg = instantiate(CREATOR.to_string());
    let msgs: Vec<CosmosMsg> =
        vec![BankMsg::Send { to_address: "friend".into(), amount: cosmwasm_std::coins(100, "X") }.into()];
    let err = execute_send_msgs(&cfg, &account(None), NOW, "mallory".into(), "ch".into(), msgs.clone(), None)
        .unwrap_err();
    assert_eq!(err, ControllerError::Unauthorized);
    let err = execute_send_msgs(&cfg, &None, NOW, CREATOR.into(), "ch".into(), msgs.clone(), None).unwrap_err();
    assert_eq!(err, ControllerError::UnknownChannel);
    let msg = execute_send_msgs(&cfg, &account(None), NOW, CREATOR.into(), "ch".into(), msgs.clone(), Some("cb".into()))
        .unwrap();
    match msg {
        IbcMsg::SendPacket { channel_id, packet: PacketMsg::Dispatch { sender, msgs: m, callback_id }, timeout } => {
            assert_eq!(channel_id, "ch");
            assert_eq!(sender, CREATOR);
            assert_eq!(m, msgs);
            assert_eq!(callback_id.as_deref(), Some("cb"));
            assert_eq!(timeout, NOW + PACKET_LIFETIME * 1_000_000_000);
        }
        other => panic!("unexpected message: {:?}", other),
    }
}

#[test]
fn ibc_query_is_open_to_anyone() {
    let q: QueryRequest<Empty> = QueryRequest::Wasm(WasmQuery::Smart {
        contract_addr: "c".into(),
        msg: b"{}".to_vec().into(),
    });
    match execute_ibc_query(0, "anyone".into(), "ch".into(), vec![q.clone()], None) {
        IbcMsg::SendPacket { packet: PacketMsg::IbcQuery { sender, msgs, .. }, timeout, .. } => {
            assert_eq!(sender, "anyone");
            assert_eq!(msgs, vec![q]);
            assert_eq!(timeout, 3_600_000_000_000);
        }
        other => panic!("unexpected message: {:?}", other),
    }
}

#[test]
fn check_remote_balance_needs_admin_and_channel() {
    let cfg = instantiate(CREATOR.to_string());
    let err = execute_check_remote_balance(&cfg, &account(None), NOW, &"x".to_string(), "ch".into()).unwrap_err();
    assert_eq!(err, ControllerError::Unauthorized);
    let err = execute_check_remote_balance(&cfg, &None, NOW, &CREATOR.to_string(), "ch".into()).unwrap_err();
    assert_eq!(err, ControllerError::UnknownChannel);
    let msg = execute_check_remote_balance(&cfg, &account(None), NOW, &CREATOR.to_string(), "ch".into()).unwrap();
    assert!(matches!(msg, IbcMsg::SendPacket { packet: PacketMsg::Balances {}, .. }));
}

#[test]
fn send_funds_needs_one_coin_and_a_remote_address() {
    let err = execute_send_funds(&account(Some("r")), NOW, vec![], "ica".into(), "tr".into()).unwrap_err();
    assert_eq!(err, ControllerError::NoFunds);
    let two = vec![coin(1, "a"), coin(2, "b")];
    let err = execute_send_funds(&account(Some("r")), NOW, two, "ica".into(), "tr".into()).unwrap_err();
    assert_eq!(err, ControllerError::MultipleCoins);
    let err = execute_send_funds(&None, NOW, vec![coin(1, "a")], "ica".into(), "tr".into()).unwrap_err();
    assert_eq!(err, ControllerError::UnknownChannel);
    let err = execute_send_funds(&account(None), NOW, vec![coin(1, "a")], "ica".into(), "tr".into()).unwrap_err();
    assert_eq!(err, ControllerError::NoRemoteAddress);
    match execute_send_funds(&account(Some("remote")), NOW, vec![coin(5, "a")], "ica".into(), "tr".into()).unwrap() {
        IbcMsg::Transfer { channel_id, to_address, amount, timeout } => {
            assert_eq!(channel_id, "tr");
            assert_eq!(to_address, "remote");
            assert_eq!(amount, coin(5, "a"));
            assert_eq!(timeout, NOW + 3600 * 1_000_000_000);
        }
        other => panic!("unexpected message: {:?}", other),
    }
}

#[test]
fn controller_execute_routes_each_call() {
    let mut cfg = instantiate(CREATOR.to_string());
    let out = execute(
        &mut cfg,
        &account(None),
        NOW,
        CREATOR.into(),
        vec![],
        ExecuteMsg::CheckRemoteBalance { channel_id: "ch".into() },
    )
    .unwrap();
    assert!(matches!(out, Some(IbcMsg::SendPacket { packet: PacketMsg::Balances {}, .. })));
    let out = execute(&mut cfg, &None, NOW, CREATOR.into(), vec![], ExecuteMsg::UpdateAdmin { admin: "bob".into() })
        .unwrap();
    assert!(out.is_none());
    assert_eq!(cfg.admin, "bob");
    let err = execute(
        &mut cfg,
        &account(Some("r")),
        NOW,
        "anyone".into(),
        vec![coin(1, "a"), coin(1, "b")],
        ExecuteMsg::SendFunds { ica_channel_id: "ica".into(), transfer_channel_id: "tr".into() },
    )
    .unwrap_err();
    assert_eq!(err, ControllerError::MultipleCoins);
}
