//! Byte framing of the JSON documents that travel in acknowledgements.
use vstd::prelude::*;

verus! {

/// What `cosmwasm_std::Binary::to_base64` produces for the given bytes.
pub uninterp spec fn base64_of(data: Seq<u8>) -> Seq<char>;

/// What `cosmwasm_std::to_json_vec` produces for a string: the quoted, escaped JSON text.
pub uninterp spec fn json_string_of(s: Seq<char>) -> Seq<u8>;

/// The bytes of an ASCII text.
pub open spec fn ascii(s: Seq<char>) -> Seq<u8> {
    s.map_values(|c: char| c as u8)
}

/// Relies on `cosmwasm_std::Binary::to_base64`: standard alphabet with padding,
/// so the text is ASCII and depends on the bytes alone.
#[verifier::external_body]
pub(crate) fn to_base64(data: &Vec<u8>) -> (r: Vec<u8>)
    ensures
        r@ == ascii(base64_of(data@)),
{
    cosmwasm_std::Binary::from(data.as_slice()).to_base64().into_bytes()
}

/// Relies on `cosmwasm_std::Binary::from_base64`: it decodes what `to_base64`
/// wrote back into the same bytes.
#[verifier::external_body]
pub(crate) fn from_base64(text: &[u8]) -> (r: Option<Vec<u8>>)
    ensures
        forall|d: Seq<u8>| text@ == ascii(base64_of(d)) ==> r is Some && r->Some_0@ == d,
{
    let s = std::str::from_utf8(text).ok()?;
    cosmwasm_std::Binary::from_base64(s).ok().map(|b| b.0)
}

/// Relies on `cosmwasm_std::to_json_vec` on a `str`: serde-json-wasm writes the
/// string quoted and escaped, and serializing a string never fails.
#[verifier::external_body]
pub(crate) fn to_json_string(s: &str) -> (r: Vec<u8>)
    ensures
        r@ == json_string_of(s@),
{
    cosmwasm_std::to_json_vec(s).unwrap_or_default()
}

/// Relies on `cosmwasm_std::from_json` into a `String`: it reads back the
/// string that `to_json_vec` wrote.
#[verifier::external_body]
pub(crate) fn from_json_string(text: &[u8]) -> (r: Option<String>)
    ensures
        forall|s: Seq<char>| text@ == json_string_of(s) ==> r is Some && r->Some_0@ == s,
{
    cosmwasm_std::from_json::<String>(text).ok()
}

/// Items separated by commas.
pub open spec fn joined(items: Seq<Seq<u8>>) -> Seq<u8>
    decreases items.len(),
{
    if items.len() == 0 {
        Seq::empty()
    } else if items.len() == 1 {
        items[0]
    } else {
        joined(items.drop_last()) + ascii(","@) + items.last()
    }
}

/// Decimal digits of `n`, as JSON writes an unsigned integer inside a string.
pub open spec fn decimal(n: nat) -> Seq<u8>
    decreases n,
{
    if n < 10 {
        seq![(48 + n) as u8]
    } else {
        decimal(n / 10) + seq![(48 + n % 10) as u8]
    }
}

/// A quoted base64 text: how JSON carries raw bytes.
pub open spec fn binary_json(data: Seq<u8>) -> Seq<u8> {
    ascii("\""@) + ascii(base64_of(data)) + ascii("\""@)
}

/// The bytes of an ASCII text.
pub fn ascii_bytes(s: &str) -> (r: &[u8])
    requires
        vstd::string::is_ascii(s),
    ensures
        r@ == ascii(s@),
{
    broadcast use vstd::string::is_ascii_spec_bytes;

    let r = s.as_bytes();
    assert(r@ =~= ascii(s@));
    r
}

/// Appends an ASCII text.
pub fn push_ascii(out: &mut Vec<u8>, s: &str)
    requires
        vstd::string::is_ascii(s),
    ensures
        final(out)@ == old(out)@ + ascii(s@),
{
    push_bytes(out, ascii_bytes(s));
}

/// Appends bytes.
pub fn push_bytes(out: &mut Vec<u8>, b: &[u8])
    ensures
        final(out)@ == old(out)@ + b@,
{
    let mut i: usize = 0;
    while i < b.len()
        invariant
            i <= b@.len(),
            out@ == old(out)@ + b@.subrange(0, i as int),
        decreases b@.len() - i,
    {
        out.push(b[i]);
        i = i + 1;
        assert(b@.subrange(0, i as int) == b@.subrange(0, i - 1 as int).push(b@[i - 1]));
    }
    assert(b@.subrange(0, b@.len() as int) == b@);
}

/// Appends the decimal digits of `n`.
pub fn push_decimal(out: &mut Vec<u8>, n: u128)
    ensures
        final(out)@ == old(out)@ + decimal(n as nat),
    decreases n,
{
    if n >= 10 {
        push_decimal(out, n / 10);
    }
    let d = (n % 10) as u8;
    out.push(48 + d);
    assert(final(out)@ =~= old(out)@ + decimal(n as nat)) by {
        if n < 10 {
            assert(decimal(n as nat) == seq![(48 + n) as u8]);
        }
    }
}

/// Appends raw bytes as a quoted base64 text.
pub fn push_binary(out: &mut Vec<u8>, data: &Vec<u8>)
    ensures
        final(out)@ == old(out)@ + binary_json(data@),
{
    proof {
        reveal_strlit("\"");
    }
    push_ascii(out, "\"");
    let text = to_base64(data);
    push_bytes(out, text.as_slice());
    push_ascii(out, "\"");
    assert(final(out)@ =~= old(out)@ + binary_json(data@));
}

/// Appends a string as a JSON string.
pub fn push_string(out: &mut Vec<u8>, s: &String)
    ensures
        final(out)@ == old(out)@ + json_string_of(s@),
{
    let text = to_json_string(s.as_str());
    push_bytes(out, text.as_slice());
}

/// Appends a JSON array of raw byte strings, each as quoted base64.
pub fn push_binary_list(out: &mut Vec<u8>, items: &Vec<Vec<u8>>)
    ensures
        final(out)@ == old(out)@ + ascii("["@) + joined(
            items@.map_values(|d: Vec<u8>| binary_json(d@)),
        ) + ascii("]"@),
{
    let ghost parts = items@.map_values(|d: Vec<u8>| binary_json(d@));
    proof {
        reveal_strlit("[");
        reveal_strlit("]");
        reveal_strlit(",");
    }
    push_ascii(out, "[");
    let ghost start = out@;
    let mut i: usize = 0;
    while i < items.len()
        invariant
            i <= items@.len(),
            parts == items@.map_values(|d: Vec<u8>| binary_json(d@)),
            start == old(out)@ + ascii("["@),
            out@ == start + joined(parts.subrange(0, i as int)),
        decreases items@.len() - i,
    {
        if i > 0 {
            proof {
                reveal_strlit(",");
            }
            push_ascii(out, ",");
        }
        push_binary(out, &items[i]);
        proof {
            let t = parts.subrange(0, i + 1);
            assert(t.drop_last() =~= parts.subrange(0, i as int));
            if i == 0 {
                assert(joined(parts.subrange(0, 0)) =~= Seq::<u8>::empty());
            }
        }
        i = i + 1;
    }
    assert(parts.subrange(0, items@.len() as int) =~= parts);
    proof {
        reveal_strlit("]");
    }
    push_ascii(out, "]");
}

} // verus!
