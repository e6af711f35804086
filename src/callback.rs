//! The message a controller forwards to a callback receiver once an
//! acknowledgement arrives.
use vstd::prelude::*;
use crate::ack::{ack_bytes, StdAck};
use crate::json::{ascii, json_string_of, push_ascii, push_bytes, push_string};

verus! {

/// An acknowledgement for the request sent under callback id `id`.
#[derive(Debug, Clone, PartialEq, Eq)]
pub struct ReceiveIcaResponseMsg {
    /// The id the caller chose when sending the request.
    pub id: String,
    pub msg: StdAck,
}

/// A call of the receiver contract with a JSON message and no funds.
#[derive(Debug, PartialEq, Eq)]
pub struct WasmExecute {
    pub contract_addr: String,
    pub msg: Vec<u8>,
}

/// `{"receive_ica_response":{"id":<string>,"msg":<acknowledgement>}}`
pub open spec fn receive_json(m: ReceiveIcaResponseMsg) -> Seq<u8> {
    ascii("{\"receive_ica_response\":{\"id\":"@) + json_string_of(m.id@) + ascii(",\"msg\":"@)
        + ack_bytes(m.msg@) + ascii("}}"@)
}

impl ReceiveIcaResponseMsg {
    /// The message as the receiver's execute call reads it.
    pub fn into_binary(self) -> (r: Vec<u8>)
        ensures
            r@ == receive_json(self),
    {
        let mut out: Vec<u8> = Vec::new();
        proof {
            reveal_strlit("{\"receive_ica_response\":{\"id\":");
            reveal_strlit(",\"msg\":");
            reveal_strlit("}}");
        }
        push_ascii(&mut out, "{\"receive_ica_response\":{\"id\":");
        push_string(&mut out, &self.id);
        push_ascii(&mut out, ",\"msg\":");
        let ack = self.msg.ack();
        push_bytes(&mut out, ack.as_slice());
        push_ascii(&mut out, "}}");
        assert(out@ =~= receive_json(self));
        out
    }

    /// The call that delivers this message to `contract_addr`.
    pub fn into_cosmos_msg(self, contract_addr: String) -> (r: WasmExecute)
        ensures
            r.contract_addr@ == contract_addr@,
            r.msg@ == receive_json(self),
    {
        let msg = self.into_binary();
        WasmExecute { contract_addr, msg }
    }
}

} // verus!
