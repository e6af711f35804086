//! The host's queries and their JSON answers.
use vstd::prelude::*;
use crate::host::{bound, opt_view, HostState};
use crate::json::{ascii, joined, json_string_of, push_ascii, push_string};
use crate::registry::AccountInfo;

verus! {

/// The queries a host answers.
#[derive(Debug)]
pub enum QueryMsg {
    /// The sub-account bound to a channel, or none.
    Account { channel_id: String },
    /// Every (channel, sub-account) pair.
    ListAccounts {},
}

/// The sub-account bound to a channel, if any.
#[derive(Debug, PartialEq, Eq)]
pub struct AccountResponse {
    pub account: Option<String>,
}

/// Every bound channel with its sub-account, in the store's key order.
#[derive(Debug)]
pub struct ListAccountsResponse {
    pub accounts: Vec<AccountInfo>,
}

/// `{"account":<string>}`, or `{"account":null}`
pub open spec fn account_json(account: Option<Seq<char>>) -> Seq<u8> {
    ascii("{\"account\":"@) + match account {
        Some(a) => json_string_of(a),
        None => ascii("null"@),
    } + ascii("}"@)
}

/// `{"account":<string>,"channel_id":<string>}`
pub open spec fn account_info_json(e: (Seq<char>, Seq<char>)) -> Seq<u8> {
    ascii("{\"account\":"@) + json_string_of(e.1) + ascii(",\"channel_id\":"@) + json_string_of(
        e.0,
    ) + ascii("}"@)
}

/// `{"accounts":[<entry>,...]}`
pub open spec fn list_json(entries: Seq<(Seq<char>, Seq<char>)>) -> Seq<u8> {
    ascii("{\"accounts\":["@) + joined(
        entries.map_values(|e: (Seq<char>, Seq<char>)| account_info_json(e)),
    ) + ascii("]}"@)
}

impl AccountResponse {
    pub fn to_json(&self) -> (r: Vec<u8>)
        ensures
            r@ == account_json(opt_view(self.account)),
    {
        let mut out: Vec<u8> = Vec::new();
        proof {
            reveal_strlit("{\"account\":");
            reveal_strlit("null");
            reveal_strlit("}");
        }
        push_ascii(&mut out, "{\"account\":");
        match &self.account {
            Some(a) => push_string(&mut out, a),
            None => push_ascii(&mut out, "null"),
        }
        push_ascii(&mut out, "}");
        assert(out@ =~= account_json(opt_view(self.account)));
        out
    }
}

fn push_account_info(out: &mut Vec<u8>, e: &AccountInfo)
    ensures
        final(out)@ == old(out)@ + account_info_json(e.pair()),
{
    proof {
        reveal_strlit("{\"account\":");
        reveal_strlit(",\"channel_id\":");
        reveal_strlit("}");
    }
    push_ascii(out, "{\"account\":");
    push_string(out, &e.account);
    push_ascii(out, ",\"channel_id\":");
    push_string(out, &e.channel_id);
    push_ascii(out, "}");
    assert(final(out)@ =~= old(out)@ + account_info_json(e.pair()));
}

impl ListAccountsResponse {
    pub fn to_json(&self) -> (r: Vec<u8>)
        ensures
            r@ == list_json(self.accounts@.map_values(|e: AccountInfo| e.pair())),
    {
        let ghost entries = self.accounts@.map_values(|e: AccountInfo| e.pair());
        let ghost parts = entries.map_values(|e: (Seq<char>, Seq<char>)| account_info_json(e));
        let mut out: Vec<u8> = Vec::new();
        proof {
            reveal_strlit("{\"accounts\":[");
        }
        push_ascii(&mut out, "{\"accounts\":[");
        let ghost start = out@;
        let mut i: usize = 0;
        while i < self.accounts.len()
            invariant
                i <= self.accounts@.len(),
                entries == self.accounts@.map_values(|e: AccountInfo| e.pair()),
                parts == entries.map_values(|e: (Seq<char>, Seq<char>)| account_info_json(e)),
                out@ == start + joined(parts.subrange(0, i as int)),
            decreases self.accounts@.len() - i,
        {
            if i > 0 {
                proof {
                    reveal_strlit(",");
                }
                push_ascii(&mut out, ",");
            }
            push_account_info(&mut out, &self.accounts[i]);
            proof {
                let t = parts.subrange(0, i + 1);
                assert(t.drop_last() =~= parts.subrange(0, i as int));
                if i == 0 {
                    assert(joined(parts.subrange(0, 0)) =~= Seq::<u8>::empty());
                }
            }
            i = i + 1;
        }
        assert(parts.subrange(0, self.accounts@.len() as int) =~= parts);
        proof {
            reveal_strlit("]}");
        }
        push_ascii(&mut out, "]}");
        assert(out@ =~= list_json(entries));
        out
    }
}

/// The sub-account bound to `channel_id`; none where the channel is not bound.
pub fn query_account(state: &HostState, channel_id: String) -> (r: AccountResponse)
    requires
        state.wf(),
    ensures
        opt_view(r.account) == bound(state@, channel_id@),
{
    AccountResponse { account: state.accounts.get(&channel_id) }
}

/// Every bound channel with its sub-account, in the store's key order.
pub fn query_list_accounts(state: &HostState) -> (r: ListAccountsResponse)
    requires
        state.wf(),
    ensures
        r.accounts@.map_values(|e: AccountInfo| e.pair()) == state@.accounts,
{
    ListAccountsResponse { accounts: state.accounts.list() }
}

/// Answers a query with its JSON document.
pub fn query(state: &HostState, msg: QueryMsg) -> (r: Vec<u8>)
    requires
        state.wf(),
    ensures
        match msg {
            QueryMsg::Account { channel_id } => r@ == account_json(bound(state@, channel_id@)),
            QueryMsg::ListAccounts {  } => r@ == list_json(state@.accounts),
        },
{
    match msg {
        QueryMsg::Account { channel_id } => query_account(state, channel_id).to_json(),
        QueryMsg::ListAccounts {  } => query_list_accounts(state).to_json(),
    }
}

} // verus!
