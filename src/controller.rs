//! The controller side: builds the request packets for a remote host and
//! decides who may send them.
use vstd::prelude::*;
use crate::packet::PacketMsg;
use crate::responses::Coin;

verus! {

/// Seconds a packet stays deliverable after it is sent.
pub const PACKET_LIFETIME: u64 = 60 * 60;

/// Nanoseconds in a second.
pub const NANOS_PER_SECOND: u64 = 1_000_000_000;

/// The latest block time, in nanoseconds, from which a deadline can still be
/// computed.
pub open spec fn latest_send_time() -> nat {
    (u64::MAX - PACKET_LIFETIME * NANOS_PER_SECOND) as nat
}

/// Who administers the controller.
#[derive(Debug, PartialEq, Eq)]
pub struct Config {
    pub admin: String,
}

/// What the controller knows of the remote account behind a channel.
#[derive(Debug, PartialEq, Eq)]
pub struct AccountData {
    /// Block time of the last balance update, in nanoseconds (0 is never).
    pub last_update_time: u64,
    /// The remote address, once the host has told it.
    pub remote_addr: Option<String>,
    pub remote_balance: Vec<Coin>,
}

/// Why a controller call fails.
#[derive(Debug, PartialEq, Eq)]
pub enum ControllerError {
    /// Only the admin may do this.
    Unauthorized,
    /// No account is registered for the channel.
    UnknownChannel,
    /// No coin was attached to a transfer.
    NoFunds,
    /// More than one coin was attached to a transfer.
    MultipleCoins,
    /// The remote address of the channel's account is not known yet.
    NoRemoteAddress,
}

/// What the controller asks the chain to send.
#[derive(Debug)]
pub enum IbcMsg {
    /// A request packet for the host at the other end of `channel_id`.
    SendPacket { channel_id: String, packet: PacketMsg, timeout: u64 },
    /// A token transfer of `amount` to `to_address` over `channel_id`.
    Transfer { channel_id: String, to_address: String, amount: Coin, timeout: u64 },
}

/// The deadline of a packet sent at block time `now` (nanoseconds).
pub open spec fn deadline(now: u64) -> nat {
    (now + PACKET_LIFETIME * NANOS_PER_SECOND) as nat
}

fn timeout_after(now: u64) -> (r: u64)
    requires
        now <= latest_send_time(),
    ensures
        r == deadline(now),
{
    now + PACKET_LIFETIME * NANOS_PER_SECOND
}

/// The outcome of sending a batch of messages.
pub open spec fn send_msgs_outcome(
    config: &Config,
    account: Option<AccountData>,
    now: u64,
    sender: Seq<char>,
    channel_id: Seq<char>,
    msgs: Vec<cosmwasm_std::CosmosMsg>,
    callback_id: Option<String>,
    r: Result<IbcMsg, ControllerError>,
) -> bool {
    &&& r is Ok <==> sender == config.admin@ && account is Some
    &&& sender != config.admin@ ==> r == Err::<IbcMsg, ControllerError>(
        ControllerError::Unauthorized,
    )
    &&& sender == config.admin@ && account is None ==> r == Err::<IbcMsg, ControllerError>(
        ControllerError::UnknownChannel,
    )
    &&& r matches Ok(m) ==> (m matches IbcMsg::SendPacket { channel_id: c, packet, timeout }
        && c@ == channel_id && timeout == deadline(now) && (packet matches PacketMsg::Dispatch {
        sender: s,
        msgs: ms,
        callback_id: cb,
    } && s@ == sender && ms == msgs && cb == callback_id))
}

/// The packet sent for a batch of queries.
pub open spec fn ibc_query_sent(
    now: u64,
    sender: Seq<char>,
    channel_id: Seq<char>,
    msgs: Vec<cosmwasm_std::QueryRequest<cosmwasm_std::Empty>>,
    callback_id: Option<String>,
    r: IbcMsg,
) -> bool {
    r matches IbcMsg::SendPacket { channel_id: c, packet, timeout } && c@ == channel_id && timeout
        == deadline(now) && (packet matches PacketMsg::IbcQuery {
        sender: s,
        msgs: ms,
        callback_id: cb,
    } && s@ == sender && ms == msgs && cb == callback_id)
}

/// The outcome of asking for the remote balance.
pub open spec fn check_balance_outcome(
    config: &Config,
    account: Option<AccountData>,
    now: u64,
    sender: Seq<char>,
    channel_id: Seq<char>,
    r: Result<IbcMsg, ControllerError>,
) -> bool {
    &&& r is Ok <==> sender == config.admin@ && account is Some
    &&& sender != config.admin@ ==> r == Err::<IbcMsg, ControllerError>(
        ControllerError::Unauthorized,
    )
    &&& sender == config.admin@ && account is None ==> r == Err::<IbcMsg, ControllerError>(
        ControllerError::UnknownChannel,
    )
    &&& r matches Ok(m) ==> (m matches IbcMsg::SendPacket { channel_id: c, packet, timeout }
        && c@ == channel_id && timeout == deadline(now) && packet is Balances)
}

/// The outcome of forwarding the attached coins.
pub open spec fn send_funds_outcome(
    account: Option<AccountData>,
    now: u64,
    funds: Vec<Coin>,
    transfer_channel_id: Seq<char>,
    r: Result<IbcMsg, ControllerError>,
) -> bool {
    &&& r is Ok <==> funds@.len() == 1 && (account matches Some(a) && a.remote_addr is Some)
    &&& funds@.len() == 0 ==> r == Err::<IbcMsg, ControllerError>(ControllerError::NoFunds)
    &&& funds@.len() > 1 ==> r == Err::<IbcMsg, ControllerError>(ControllerError::MultipleCoins)
    &&& funds@.len() == 1 && account is None ==> r == Err::<IbcMsg, ControllerError>(
        ControllerError::UnknownChannel,
    )
    &&& funds@.len() == 1 && (account matches Some(a) && a.remote_addr is None) ==> r == Err::<
        IbcMsg,
        ControllerError,
    >(ControllerError::NoRemoteAddress)
    &&& r matches Ok(m) ==> (m matches IbcMsg::Transfer { channel_id: c, to_address, amount, timeout }
        && c@ == transfer_channel_id && to_address@ == account->Some_0.remote_addr->Some_0@
        && amount == funds@[0] && timeout == deadline(now))
}

/// A controller administered by its creator.
pub fn instantiate(sender: String) -> (r: Config)
    ensures
        r.admin@ == sender@,
{
    Config { admin: sender }
}

/// Hands administration to `new_admin`; only the admin may.
pub fn execute_update_admin(config: &mut Config, sender: &String, new_admin: String) -> (r: Result<
    (),
    ControllerError,
>)
    ensures
        r is Ok <==> sender@ == old(config).admin@,
        r is Err ==> r == Err::<(), ControllerError>(ControllerError::Unauthorized) && *final(config)
            == *old(config),
        r is Ok ==> final(config).admin@ == new_admin@,
{
    if *sender != config.admin {
        return Err(ControllerError::Unauthorized);
    }
    config.admin = new_admin;
    Ok(())
}

/// Sends a batch of messages for the remote account of `channel_id` to
/// execute; only the admin may, and only on a channel with an account
/// (`account` is what is on file for it).
pub fn execute_send_msgs(
    config: &Config,
    account: &Option<AccountData>,
    now: u64,
    sender: String,
    channel_id: String,
    msgs: Vec<cosmwasm_std::CosmosMsg>,
    callback_id: Option<String>,
) -> (r: Result<IbcMsg, ControllerError>)
    requires
        now <= latest_send_time(),
    ensures
        send_msgs_outcome(config, *account, now, sender@, channel_id@, msgs, callback_id, r),
{
    if sender != config.admin {
        return Err(ControllerError::Unauthorized);
    }
    if account.is_none() {
        return Err(ControllerError::UnknownChannel);
    }
    let packet = PacketMsg::Dispatch { sender, msgs, callback_id };
    Ok(IbcMsg::SendPacket { channel_id, packet, timeout: timeout_after(now) })
}

/// Sends a batch of queries to run on the host chain; open to anyone, as
/// queries only read.
pub fn execute_ibc_query(
    now: u64,
    sender: String,
    channel_id: String,
    msgs: Vec<cosmwasm_std::QueryRequest<cosmwasm_std::Empty>>,
    callback_id: Option<String>,
) -> (r: IbcMsg)
    requires
        now <= latest_send_time(),
    ensures
        ibc_query_sent(now, sender@, channel_id@, msgs, callback_id, r),
{
    let packet = PacketMsg::IbcQuery { sender, msgs, callback_id };
    IbcMsg::SendPacket { channel_id, packet, timeout: timeout_after(now) }
}

/// Asks the host for the balance of the remote account of `channel_id`;
/// only the admin may, and only on a channel with an account.
pub fn execute_check_remote_balance(
    config: &Config,
    account: &Option<AccountData>,
    now: u64,
    sender: &String,
    channel_id: String,
) -> (r: Result<IbcMsg, ControllerError>)
    requires
        now <= latest_send_time(),
    ensures
        check_balance_outcome(config, *account, now, sender@, channel_id@, r),
{
    if *sender != config.admin {
        return Err(ControllerError::Unauthorized);
    }
    if account.is_none() {
        return Err(ControllerError::UnknownChannel);
    }
    Ok(IbcMsg::SendPacket { channel_id, packet: PacketMsg::Balances {  }, timeout: timeout_after(now) })
}

/// Forwards the one coin attached (`funds`) to the remote account of
/// `ica_channel_id` over the transfer channel. Open to anyone; fails unless
/// exactly one coin is attached and the remote address is on file.
pub fn execute_send_funds(
    account: &Option<AccountData>,
    now: u64,
    funds: Vec<Coin>,
    ica_channel_id: String,
    transfer_channel_id: String,
) -> (r: Result<IbcMsg, ControllerError>)
    requires
        now <= latest_send_time(),
    ensures
        send_funds_outcome(*account, now, funds, transfer_channel_id@, r),
{
    let mut funds = funds;
    let amount = match funds.pop() {
        Some(c) => c,
        None => {
            return Err(ControllerError::NoFunds);
        },
    };
    if !funds.is_empty() {
        return Err(ControllerError::MultipleCoins);
    }
    let remote_addr = match account {
        None => {
            return Err(ControllerError::UnknownChannel);
        },
        Some(data) => match &data.remote_addr {
            None => {
                return Err(ControllerError::NoRemoteAddress);
            },
            Some(addr) => addr.clone(),
        },
    };
    Ok(
        IbcMsg::Transfer {
            channel_id: transfer_channel_id,
            to_address: remote_addr,
            amount,
            timeout: timeout_after(now),
        },
    )
}

/// The calls a controller accepts.
#[derive(Debug)]
pub enum ExecuteMsg {
    UpdateAdmin { admin: String },
    SendMsgs {
        channel_id: String,
        msgs: Vec<cosmwasm_std::CosmosMsg>,
        callback_id: Option<String>,
    },
    CheckRemoteBalance { channel_id: String },
    IbcQuery {
        channel_id: String,
        msgs: Vec<cosmwasm_std::QueryRequest<cosmwasm_std::Empty>>,
        callback_id: Option<String>,
    },
    SendFunds { ica_channel_id: String, transfer_channel_id: String },
}

/// The message a call sends, where it sends one.
pub open spec fn sent(r: Result<Option<IbcMsg>, ControllerError>) -> Result<IbcMsg, ControllerError> {
    match r {
        Ok(Some(m)) => Ok(m),
        Ok(None) => Err(ControllerError::Unauthorized),
        Err(e) => Err(e),
    }
}

/// A call into the controller from `sender` with `funds` attached, at block
/// time `now`; `account` is what is on file for the channel the call names.
/// Answers with the message to send, if the call sends one.
pub fn execute(
    config: &mut Config,
    account: &Option<AccountData>,
    now: u64,
    sender: String,
    funds: Vec<Coin>,
    msg: ExecuteMsg,
) -> (r: Result<Option<IbcMsg>, ControllerError>)
    requires
        now <= latest_send_time(),
    ensures
        !(msg is UpdateAdmin) ==> *final(config) == *old(config),
        !(msg is UpdateAdmin) ==> !(r matches Ok(None)),
        match msg {
            ExecuteMsg::UpdateAdmin { admin } => {
                &&& r is Ok <==> sender@ == old(config).admin@
                &&& r is Err ==> r == Err::<Option<IbcMsg>, ControllerError>(
                    ControllerError::Unauthorized,
                ) && *final(config) == *old(config)
                &&& r is Ok ==> r == Ok::<Option<IbcMsg>, ControllerError>(None)
                    && final(config).admin@ == admin@
            },
            ExecuteMsg::SendMsgs { channel_id, msgs, callback_id } => send_msgs_outcome(
                old(config),
                *account,
                now,
                sender@,
                channel_id@,
                msgs,
                callback_id,
                sent(r),
            ),
            ExecuteMsg::CheckRemoteBalance { channel_id } => check_balance_outcome(
                old(config),
                *account,
                now,
                sender@,
                channel_id@,
                sent(r),
            ),
            ExecuteMsg::IbcQuery { channel_id, msgs, callback_id } => (r matches Ok(Some(m))
                && ibc_query_sent(now, sender@, channel_id@, msgs, callback_id, m)),
            ExecuteMsg::SendFunds { ica_channel_id: _, transfer_channel_id } => send_funds_outcome(
                *account,
                now,
                funds,
                transfer_channel_id@,
                sent(r),
            ),
        },
{
    match msg {
        ExecuteMsg::UpdateAdmin { admin } => {
            execute_update_admin(config, &sender, admin)?;
            Ok(None)
        },
        ExecuteMsg::SendMsgs { channel_id, msgs, callback_id } => {
            let m = execute_send_msgs(config, account, now, sender, channel_id, msgs, callback_id)?;
            Ok(Some(m))
        },
        ExecuteMsg::CheckRemoteBalance { channel_id } => {
            let m = execute_check_remote_balance(config, account, now, &sender, channel_id)?;
            Ok(Some(m))
        },
        ExecuteMsg::IbcQuery { channel_id, msgs, callback_id } => {
            Ok(Some(execute_ibc_query(now, sender, channel_id, msgs, callback_id)))
        },
        ExecuteMsg::SendFunds { ica_channel_id, transfer_channel_id } => {
            let m = execute_send_funds(account, now, funds, ica_channel_id, transfer_channel_id)?;
            Ok(Some(m))
        },
    }
}

/// The admin of a controller.
#[derive(Debug, PartialEq, Eq)]
pub struct AdminResponse {
    pub admin: String,
}

/// Who administers the controller.
pub fn query_admin(config: &Config) -> (r: AdminResponse)
    ensures
        r.admin@ == config.admin@,
{
    AdminResponse { admin: config.admin.clone() }
}

} // verus!
