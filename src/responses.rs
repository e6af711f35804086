//! The success payloads that acknowledgements carry, and their JSON form.
use vstd::prelude::*;
use crate::json::{
    ascii, binary_json, decimal, joined, json_string_of, push_ascii, push_binary_list,
    push_decimal, push_string,
};

verus! {

/// An amount of one denomination.
#[derive(Debug, Clone, PartialEq, Eq)]
pub struct Coin {
    pub denom: String,
    pub amount: u128,
}

impl Coin {
    pub fn duplicate(&self) -> (r: Coin)
        ensures
            r.denom@ == self.denom@,
            r.amount == self.amount,
    {
        Coin { denom: self.denom.clone(), amount: self.amount }
    }
}

/// The views of a list of byte strings.
pub open spec fn views(v: Seq<Vec<u8>>) -> Seq<Seq<u8>> {
    v.map_values(|d: Vec<u8>| d@)
}

/// A coin as (denomination, amount).
pub open spec fn coin_views(v: Seq<Coin>) -> Seq<(Seq<char>, nat)> {
    v.map_values(|c: Coin| (c.denom@, c.amount as nat))
}

/// `{"denom":<string>,"amount":"<decimal>"}`
pub open spec fn coin_json(c: (Seq<char>, nat)) -> Seq<u8> {
    ascii("{\"denom\":"@) + json_string_of(c.0) + ascii(",\"amount\":\""@) + decimal(c.1) + ascii(
        "\"}"@,
    )
}

/// `{"results":["<base64>",...]}`
pub open spec fn results_json(results: Seq<Seq<u8>>) -> Seq<u8> {
    ascii("{\"results\":"@) + ascii("["@) + joined(results.map_values(|d: Seq<u8>| binary_json(d)))
        + ascii("]"@) + ascii("}"@)
}

/// `{"account":<string>}`
pub open spec fn who_am_i_json(account: Seq<char>) -> Seq<u8> {
    ascii("{\"account\":"@) + json_string_of(account) + ascii("}"@)
}

/// `{"account":<string>,"balances":[<coin>,...]}`
pub open spec fn balances_json(account: Seq<char>, balances: Seq<(Seq<char>, nat)>) -> Seq<u8> {
    ascii("{\"account\":"@) + json_string_of(account) + ascii(",\"balances\":["@) + joined(
        balances.map_values(|c: (Seq<char>, nat)| coin_json(c)),
    ) + ascii("]}"@)
}

fn push_results(out: &mut Vec<u8>, results: &Vec<Vec<u8>>)
    ensures
        final(out)@ == old(out)@ + results_json(views(results@)),
{
    proof {
        reveal_strlit("{\"results\":");
        reveal_strlit("}");
    }
    push_ascii(out, "{\"results\":");
    push_binary_list(out, results);
    push_ascii(out, "}");
    assert(results@.map_values(|d: Vec<u8>| binary_json(d@)) =~= views(results@).map_values(
        |d: Seq<u8>| binary_json(d),
    ));
    assert(final(out)@ =~= old(out)@ + results_json(views(results@)));
}

/// The payload acknowledging a dispatched batch: the result of each
/// sub-call made so far.
pub struct DispatchResponse {
    pub results: Vec<Vec<u8>>,
}

impl DispatchResponse {
    pub fn to_json(&self) -> (r: Vec<u8>)
        ensures
            r@ == results_json(views(self.results@)),
    {
        let mut out: Vec<u8> = Vec::new();
        push_results(&mut out, &self.results);
        assert(out@ =~= results_json(views(self.results@)));
        out
    }
}

/// The payload answering a batch of queries: the raw answer to each.
pub struct IbcQueryResponse {
    pub results: Vec<Vec<u8>>,
}

impl IbcQueryResponse {
    pub fn to_json(&self) -> (r: Vec<u8>)
        ensures
            r@ == results_json(views(self.results@)),
    {
        let mut out: Vec<u8> = Vec::new();
        push_results(&mut out, &self.results);
        assert(out@ =~= results_json(views(self.results@)));
        out
    }
}

/// The payload answering who the sub-account of a channel is.
#[derive(Debug, PartialEq, Eq)]
pub struct WhoAmIResponse {
    pub account: String,
}

impl WhoAmIResponse {
    pub fn to_json(&self) -> (r: Vec<u8>)
        ensures
            r@ == who_am_i_json(self.account@),
    {
        let mut out: Vec<u8> = Vec::new();
        proof {
            reveal_strlit("{\"account\":");
            reveal_strlit("}");
        }
        push_ascii(&mut out, "{\"account\":");
        push_string(&mut out, &self.account);
        push_ascii(&mut out, "}");
        assert(out@ =~= who_am_i_json(self.account@));
        out
    }
}

/// The payload answering the balance of the sub-account of a channel.
#[derive(Debug, PartialEq, Eq)]
pub struct BalancesResponse {
    pub account: String,
    pub balances: Vec<Coin>,
}

fn push_coin(out: &mut Vec<u8>, c: &Coin)
    ensures
        final(out)@ == old(out)@ + coin_json((c.denom@, c.amount as nat)),
{
    proof {
        reveal_strlit("{\"denom\":");
        reveal_strlit(",\"amount\":\"");
        reveal_strlit("\"}");
    }
    push_ascii(out, "{\"denom\":");
    push_string(out, &c.denom);
    push_ascii(out, ",\"amount\":\"");
    push_decimal(out, c.amount);
    push_ascii(out, "\"}");
    assert(final(out)@ =~= old(out)@ + coin_json((c.denom@, c.amount as nat)));
}

impl BalancesResponse {
    pub fn to_json(&self) -> (r: Vec<u8>)
        ensures
            r@ == balances_json(self.account@, coin_views(self.balances@)),
    {
        let mut out: Vec<u8> = Vec::new();
        proof {
            reveal_strlit("{\"account\":");
            reveal_strlit(",\"balances\":[");
        }
        push_ascii(&mut out, "{\"account\":");
        push_string(&mut out, &self.account);
        push_ascii(&mut out, ",\"balances\":[");
        let ghost start = out@;
        let ghost parts = coin_views(self.balances@).map_values(
            |c: (Seq<char>, nat)| coin_json(c),
        );
        let mut i: usize = 0;
        while i < self.balances.len()
            invariant
                i <= self.balances@.len(),
                parts == coin_views(self.balances@).map_values(|c: (Seq<char>, nat)| coin_json(c)),
                out@ == start + joined(parts.subrange(0, i as int)),
            decreases self.balances@.len() - i,
        {
            if i > 0 {
                proof {
                    reveal_strlit(",");
                }
                push_ascii(&mut out, ",");
            }
            push_coin(&mut out, &self.balances[i]);
            proof {
                let t = parts.subrange(0, i + 1);
                assert(t.drop_last() =~= parts.subrange(0, i as int));
                if i == 0 {
                    assert(joined(parts.subrange(0, 0)) =~= Seq::<u8>::empty());
                }
            }
            i = i + 1;
        }
        assert(parts.subrange(0, self.balances@.len() as int) =~= parts);
        proof {
            reveal_strlit("]}");
        }
        push_ascii(&mut out, "]}");
        assert(out@ =~= balances_json(self.account@, coin_views(self.balances@)));
        out
    }
}

} // verus!
