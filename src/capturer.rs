//! A client of the controller that forwards requests under a callback id,
//! so that their acknowledgements can be looked up later by that id.
use vstd::prelude::*;
use crate::controller::ExecuteMsg as ControllerMsg;
use crate::responses::Coin;

verus! {

/// Instantiation parameters: the controller to forward to.
#[derive(Debug, PartialEq, Eq)]
pub struct InstantiateMsg {
    pub simple_ica_controller: String,
}

/// The queries a capturer answers.
#[derive(Debug, PartialEq, Eq)]
pub enum QueryMsg {
    /// Shows the admin.
    Admin {},
    /// The acknowledgement stored under a callback id.
    QueryResult { id: String },
}

/// The admin of a capturer.
#[derive(Debug, PartialEq, Eq)]
pub struct AdminResponse {
    pub admin: String,
}

/// Who administers the capturer, and which controller it forwards to.
#[derive(Debug, PartialEq, Eq)]
pub struct Config {
    pub admin: String,
    pub simple_ica_controller: String,
}

/// Why a capturer call fails.
#[derive(Debug, PartialEq, Eq)]
pub enum CapturerError {
    /// Only the admin may do this.
    Unauthorized,
}

/// A call to the controller, with the coins sent along.
#[derive(Debug)]
pub struct ControllerCall {
    pub contract_addr: String,
    pub msg: ControllerMsg,
    pub funds: Vec<Coin>,
}

/// A capturer administered by its creator.
pub fn instantiate(sender: String, msg: InstantiateMsg) -> (r: Config)
    ensures
        r.admin@ == sender@,
        r.simple_ica_controller@ == msg.simple_ica_controller@,
{
    Config { admin: sender, simple_ica_controller: msg.simple_ica_controller }
}

/// Forwards a batch of messages, to be acknowledged under `callback_id`;
/// only the admin may.
pub fn execute_send_msgs(
    config: &Config,
    sender: &String,
    channel_id: String,
    msgs: Vec<cosmwasm_std::CosmosMsg>,
    callback_id: String,
) -> (r: Result<ControllerCall, CapturerError>)
    ensures
        r is Err <==> sender@ != config.admin@,
        r is Err ==> r->Err_0 == CapturerError::Unauthorized,
        r matches Ok(c) ==> c.contract_addr@ == config.simple_ica_controller@ && c.funds@.len()
            == 0 && (c.msg matches ControllerMsg::SendMsgs { channel_id: ch, msgs: ms, callback_id: cb }
            && ch@ == channel_id@ && ms == msgs && (cb matches Some(id) && id@ == callback_id@)),
{
    if *sender != config.admin {
        return Err(CapturerError::Unauthorized);
    }
    let msg = ControllerMsg::SendMsgs { channel_id, msgs, callback_id: Some(callback_id) };
    Ok(ControllerCall { contract_addr: config.simple_ica_controller.clone(), msg, funds: Vec::new() })
}

/// Forwards a batch of queries, to be acknowledged under `callback_id`;
/// only the admin may.
pub fn execute_ibc_query(
    config: &Config,
    sender: &String,
    channel_id: String,
    msgs: Vec<cosmwasm_std::QueryRequest<cosmwasm_std::Empty>>,
    callback_id: String,
) -> (r: Result<ControllerCall, CapturerError>)
    ensures
        r is Err <==> sender@ != config.admin@,
        r is Err ==> r->Err_0 == CapturerError::Unauthorized,
        r matches Ok(c) ==> c.contract_addr@ == config.simple_ica_controller@ && c.funds@.len()
            == 0 && (c.msg matches ControllerMsg::IbcQuery { channel_id: ch, msgs: ms, callback_id: cb }
            && ch@ == channel_id@ && ms == msgs && (cb matches Some(id) && id@ == callback_id@)),
{
    if *sender != config.admin {
        return Err(CapturerError::Unauthorized);
    }
    let msg = ControllerMsg::IbcQuery { channel_id, msgs, callback_id: Some(callback_id) };
    Ok(ControllerCall { contract_addr: config.simple_ica_controller.clone(), msg, funds: Vec::new() })
}

/// Forwards a balance check; only the admin may.
pub fn execute_check_remote_balance(config: &Config, sender: &String, channel_id: String) -> (r:
    Result<ControllerCall, CapturerError>)
    ensures
        r is Err <==> sender@ != config.admin@,
        r is Err ==> r->Err_0 == CapturerError::Unauthorized,
        r matches Ok(c) ==> c.contract_addr@ == config.simple_ica_controller@ && c.funds@.len()
            == 0 && (c.msg matches ControllerMsg::CheckRemoteBalance { channel_id: ch }
            && ch@ == channel_id@),
{
    if *sender != config.admin {
        return Err(CapturerError::Unauthorized);
    }
    let msg = ControllerMsg::CheckRemoteBalance { channel_id };
    Ok(ControllerCall { contract_addr: config.simple_ica_controller.clone(), msg, funds: Vec::new() })
}

/// Forwards a transfer with the coins attached (`funds`); only the admin may.
pub fn execute_send_funds(
    config: &Config,
    sender: &String,
    funds: Vec<Coin>,
    ica_channel_id: String,
    transfer_channel_id: String,
) -> (r: Result<ControllerCall, CapturerError>)
    ensures
        r is Err <==> sender@ != config.admin@,
        r is Err ==> r->Err_0 == CapturerError::Unauthorized,
        r matches Ok(c) ==> c.contract_addr@ == config.simple_ica_controller@ && c.funds == funds
            && (c.msg matches ControllerMsg::SendFunds { ica_channel_id: i, transfer_channel_id: t }
            && i@ == ica_channel_id@ && t@ == transfer_channel_id@),
{
    if *sender != config.admin {
        return Err(CapturerError::Unauthorized);
    }
    let msg = ControllerMsg::SendFunds { ica_channel_id, transfer_channel_id };
    Ok(ControllerCall { contract_addr: config.simple_ica_controller.clone(), msg, funds })
}

/// The calls a capturer accepts.
#[derive(Debug)]
pub enum ExecuteMsg {
    SendMsgs { channel_id: String, msgs: Vec<cosmwasm_std::CosmosMsg>, callback_id: String },
    CheckRemoteBalance { channel_id: String },
    IbcQuery {
        channel_id: String,
        msgs: Vec<cosmwasm_std::QueryRequest<cosmwasm_std::Empty>>,
        callback_id: String,
    },
    SendFunds { ica_channel_id: String, transfer_channel_id: String },
}

/// A call into the capturer from `sender` with `funds` attached: forwarded
/// to the controller, for the admin only.
pub fn execute(config: &Config, sender: &String, funds: Vec<Coin>, msg: ExecuteMsg) -> (r: Result<
    ControllerCall,
    CapturerError,
>)
    ensures
        r is Err <==> sender@ != config.admin@,
        r is Err ==> r->Err_0 == CapturerError::Unauthorized,
        r matches Ok(c) ==> c.contract_addr@ == config.simple_ica_controller@,
        r matches Ok(c) ==> match msg {
            ExecuteMsg::SendMsgs { channel_id, msgs, callback_id } => c.funds@.len() == 0 && (
            c.msg matches ControllerMsg::SendMsgs { channel_id: ch, msgs: ms, callback_id: cb }
                && ch@ == channel_id@ && ms == msgs && (cb matches Some(id) && id@ == callback_id@)),
            ExecuteMsg::CheckRemoteBalance { channel_id } => c.funds@.len() == 0 && (
            c.msg matches ControllerMsg::CheckRemoteBalance { channel_id: ch } && ch@ == channel_id@),
            ExecuteMsg::IbcQuery { channel_id, msgs, callback_id } => c.funds@.len() == 0 && (
            c.msg matches ControllerMsg::IbcQuery { channel_id: ch, msgs: ms, callback_id: cb }
                && ch@ == channel_id@ && ms == msgs && (cb matches Some(id) && id@ == callback_id@)),
            ExecuteMsg::SendFunds { ica_channel_id, transfer_channel_id } => c.funds == funds && (
            c.msg matches ControllerMsg::SendFunds { ica_channel_id: i, transfer_channel_id: t }
                && i@ == ica_channel_id@ && t@ == transfer_channel_id@),
        },
{
    match msg {
        ExecuteMsg::SendMsgs { channel_id, msgs, callback_id } => {
            execute_send_msgs(config, sender, channel_id, msgs, callback_id)
        },
        ExecuteMsg::CheckRemoteBalance { channel_id } => {
            execute_check_remote_balance(config, sender, channel_id)
        },
        ExecuteMsg::IbcQuery { channel_id, msgs, callback_id } => {
            execute_ibc_query(config, sender, channel_id, msgs, callback_id)
        },
        ExecuteMsg::SendFunds { ica_channel_id, transfer_channel_id } => {
            execute_send_funds(config, sender, funds, ica_channel_id, transfer_channel_id)
        },
    }
}

/// Who administers the capturer.
pub fn query_admin(config: &Config) -> (r: AdminResponse)
    ensures
        r.admin@ == config.admin@,
{
    AdminResponse { admin: config.admin.clone() }
}

} // verus!
