//! The acknowledgement envelope: a success payload or an error message.
use vstd::prelude::*;
use crate::json::{
    ascii, base64_of, from_base64, from_json_string, json_string_of, push_ascii, push_bytes,
    to_base64, to_json_string,
};

verus! {

/// The acknowledgement written for a packet: exactly one of a success payload
/// or an error message.
#[derive(Debug, Clone, PartialEq, Eq)]
pub enum StdAck {
    Result(Vec<u8>),
    Error(String),
}

/// An acknowledgement as a mathematical value.
pub enum AckModel {
    Result(Seq<u8>),
    Error(Seq<char>),
}

impl View for StdAck {
    type V = AckModel;

    open spec fn view(&self) -> AckModel {
        match self {
            StdAck::Result(d) => AckModel::Result(d@),
            StdAck::Error(m) => AckModel::Error(m@),
        }
    }
}

/// `{"result":"<base64>"}`
pub open spec fn result_ack(data: Seq<u8>) -> Seq<u8> {
    ascii("{\"result\":\""@) + ascii(base64_of(data)) + ascii("\"}"@)
}

/// `{"error":<string>}`
pub open spec fn error_ack(message: Seq<char>) -> Seq<u8> {
    ascii("{\"error\":"@) + json_string_of(message) + ascii("}"@)
}

/// The wire form of an acknowledgement.
pub open spec fn ack_bytes(a: AckModel) -> Seq<u8> {
    match a {
        AckModel::Result(d) => result_ack(d),
        AckModel::Error(m) => error_ack(m),
    }
}

fn has_prefix(b: &[u8], p: &[u8]) -> (r: bool)
    ensures
        r == (p@.len() <= b@.len() && b@.subrange(0, p@.len() as int) == p@),
{
    if p.len() > b.len() {
        return false;
    }
    let mut i: usize = 0;
    while i < p.len()
        invariant
            p@.len() <= b@.len(),
            i <= p@.len(),
            b@.subrange(0, i as int) == p@.subrange(0, i as int),
        decreases p@.len() - i,
    {
        if b[i] != p[i] {
            assert(b@.subrange(0, p@.len() as int)[i as int] != p@[i as int]);
            return false;
        }
        assert(b@.subrange(0, i + 1) =~= b@.subrange(0, i as int).push(b@[i as int]));
        assert(p@.subrange(0, i + 1) =~= p@.subrange(0, i as int).push(p@[i as int]));
        i = i + 1;
    }
    assert(p@.subrange(0, p@.len() as int) =~= p@);
    true
}

fn has_suffix(b: &[u8], s: &[u8]) -> (r: bool)
    ensures
        r == (s@.len() <= b@.len() && b@.subrange(b@.len() - s@.len(), b@.len() as int) == s@),
{
    if s.len() > b.len() {
        return false;
    }
    let len = b.len();
    let off = len - s.len();
    let mut i: usize = 0;
    while i < s.len()
        invariant
            s@.len() <= b@.len(),
            off == b@.len() - s@.len(),
            off + s@.len() == b@.len(),
            len == b@.len(),
            i <= s@.len(),
            b@.subrange(off as int, off + i) == s@.subrange(0, i as int),
        decreases s@.len() - i,
    {
        if b[off + i] != s[i] {
            assert(b@.subrange(off as int, b@.len() as int)[i as int] != s@[i as int]);
            return false;
        }
        assert(b@.subrange(off as int, off + i + 1) =~= b@.subrange(off as int, off + i).push(
            b@[off + i],
        ));
        assert(s@.subrange(0, i + 1) =~= s@.subrange(0, i as int).push(s@[i as int]));
        i = i + 1;
    }
    assert(s@.subrange(0, s@.len() as int) =~= s@);
    true
}

fn copy_range(b: &[u8], lo: usize, hi: usize) -> (r: Vec<u8>)
    requires
        lo <= hi <= b@.len(),
    ensures
        r@ == b@.subrange(lo as int, hi as int),
{
    let mut out: Vec<u8> = Vec::new();
    let mut i: usize = lo;
    while i < hi
        invariant
            lo <= i <= hi,
            hi <= b@.len(),
            out@ == b@.subrange(lo as int, i as int),
        decreases hi - i,
    {
        out.push(b[i]);
        i = i + 1;
        assert(out@ =~= b@.subrange(lo as int, i as int));
    }
    out
}

impl StdAck {
    /// The success acknowledgement carrying an encoded payload.
    pub fn success(data: Vec<u8>) -> (r: Vec<u8>)
        ensures
            r@ == result_ack(data@),
    {
        StdAck::Result(data).ack()
    }

    /// The error acknowledgement carrying a message.
    pub fn fail(err: String) -> (r: Vec<u8>)
        ensures
            r@ == error_ack(err@),
    {
        StdAck::Error(err).ack()
    }

    /// Encodes the acknowledgement.
    pub fn ack(&self) -> (r: Vec<u8>)
        ensures
            r@ == ack_bytes(self@),
    {
        let mut out: Vec<u8> = Vec::new();
        match self {
            StdAck::Result(data) => {
                proof {
                    reveal_strlit("{\"result\":\"");
                    reveal_strlit("\"}");
                }
                push_ascii(&mut out, "{\"result\":\"");
                let text = to_base64(data);
                push_bytes(&mut out, text.as_slice());
                push_ascii(&mut out, "\"}");
            },
            StdAck::Error(message) => {
                proof {
                    reveal_strlit("{\"error\":");
                    reveal_strlit("}");
                }
                push_ascii(&mut out, "{\"error\":");
                let text = to_json_string(message.as_str());
                push_bytes(&mut out, text.as_slice());
                push_ascii(&mut out, "}");
            },
        }
        assert(out@ =~= ack_bytes(self@));
        out
    }

    /// Reads an acknowledgement back from its wire form.
    pub fn decode(bytes: &[u8]) -> (r: Option<StdAck>)
        ensures
            forall|a: AckModel| ack_bytes(a) == bytes@ ==> r is Some && r->Some_0@ == a,
            r matches Some(StdAck::Result(_)) ==> bytes@.subrange(0, 11) == ascii(
                "{\"result\":\""@,
            ),
            r matches Some(StdAck::Error(_)) ==> bytes@.subrange(0, 9) == ascii("{\"error\":"@),
    {
        proof {
            reveal_strlit("{\"result\":\"");
            reveal_strlit("\"}");
            reveal_strlit("{\"error\":");
            reveal_strlit("}");
        }
        let ghost n = bytes@.len();
        let ro = crate::json::ascii_bytes("{\"result\":\"");
        let rc = crate::json::ascii_bytes("\"}");
        let eo = crate::json::ascii_bytes("{\"error\":");
        let ec = crate::json::ascii_bytes("}");
        assert(ro@.len() == 11 && rc@.len() == 2 && eo@.len() == 9 && ec@.len() == 1);
        assert forall|d: Seq<u8>| result_ack(d) == bytes@ implies has_prefix_spec(bytes@, ro@)
            && has_suffix_spec(bytes@, rc@) && bytes@.subrange(11, n - 2) == ascii(
            base64_of(d),
        ) by {
            assert(bytes@.subrange(0, 11) =~= ro@);
            assert(bytes@.subrange(n - 2, n as int) =~= rc@);
            assert(bytes@.subrange(11, n - 2) =~= ascii(base64_of(d)));
        }
        assert forall|m: Seq<char>| error_ack(m) == bytes@ implies !has_prefix_spec(bytes@, ro@)
            && has_prefix_spec(bytes@, eo@) && has_suffix_spec(bytes@, ec@) && bytes@.subrange(
            9,
            n - 1,
        ) == json_string_of(m) by {
            assert(bytes@[2] == eo@[2]);
            assert(ro@[2] != eo@[2]);
            if n >= 11 {
                assert(bytes@.subrange(0, 11)[2] == bytes@[2]);
            }
            assert(bytes@.subrange(0, 9) =~= eo@);
            assert(bytes@.subrange(n - 1, n as int) =~= ec@);
            assert(bytes@.subrange(9, n - 1) =~= json_string_of(m));
        }
        if has_prefix(bytes, ro) && has_suffix(bytes, rc) && bytes.len() >= 13 {
            let middle = copy_range(bytes, 11, bytes.len() - 2);
            match from_base64(middle.as_slice()) {
                Some(data) => Some(StdAck::Result(data)),
                None => None,
            }
        } else if has_prefix(bytes, eo) && has_suffix(bytes, ec) && bytes.len() >= 10 {
            let middle = copy_range(bytes, 9, bytes.len() - 1);
            match from_json_string(middle.as_slice()) {
                Some(message) => Some(StdAck::Error(message)),
                None => None,
            }
        } else {
            None
        }
    }

    /// The success payload; only for a success acknowledgement.
    pub fn unwrap(self) -> (r: Vec<u8>)
        requires
            self is Result,
        ensures
            self@ == AckModel::Result(r@),
    {
        match self {
            StdAck::Result(data) => data,
            StdAck::Error(_) => Vec::new(),
        }
    }

    /// The error message; only for an error acknowledgement.
    pub fn unwrap_err(self) -> (r: String)
        requires
            self is Error,
        ensures
            self@ == AckModel::Error(r@),
    {
        match self {
            StdAck::Result(_) => String::new(),
            StdAck::Error(message) => message,
        }
    }
}

pub open spec fn has_prefix_spec(b: Seq<u8>, p: Seq<u8>) -> bool {
    p.len() <= b.len() && b.subrange(0, p.len() as int) == p
}

pub open spec fn has_suffix_spec(b: Seq<u8>, s: Seq<u8>) -> bool {
    s.len() <= b.len() && b.subrange(b.len() - s.len(), b.len() as int) == s
}

} // verus!
