//! The request packets a controller sends to a host.
use vstd::prelude::*;

verus! {

/// A chain message, carried to the sub-account unread.
#[verifier::external_type_specification]
#[verifier::external_body]
#[verifier::reject_recursive_types(T)]
pub struct ExCosmosMsg<T>(cosmwasm_std::CosmosMsg<T>);

/// The empty custom extension of chain messages and queries.
#[verifier::external_type_specification]
#[verifier::external_body]
pub struct ExEmpty(cosmwasm_std::Empty);

/// A chain query, carried to the querier unread.
#[verifier::external_type_specification]
#[verifier::external_body]
#[verifier::reject_recursive_types(C)]
pub struct ExQueryRequest<C>(cosmwasm_std::QueryRequest<C>);

/// The four requests a controller can send over a channel.
#[derive(Debug)]
#[allow(inconsistent_fields)]
pub enum PacketMsg {
    /// Execute a batch of messages from the channel's sub-account.
    Dispatch {
        sender: String,
        msgs: Vec<cosmwasm_std::CosmosMsg>,
        callback_id: Option<String>,
    },
    /// Run a batch of queries against the host chain.
    IbcQuery {
        sender: String,
        msgs: Vec<cosmwasm_std::QueryRequest<cosmwasm_std::Empty>>,
        callback_id: Option<String>,
    },
    /// Ask for the address of the channel's sub-account.
    WhoAmI {},
    /// Ask for the address and balance of the channel's sub-account.
    Balances {},
}

} // verus!
