//! The account registry: which sub-account is bound to which channel.
use vstd::prelude::*;
use crate::order::{bytes_le, lemma_lex_total, lemma_lex_trans, lex_le};

verus! {

/// One bound channel and the address of its sub-account.
#[derive(Debug)]
pub struct AccountInfo {
    pub account: String,
    pub channel_id: String,
}

impl AccountInfo {
    /// The entry as a (channel, account) pair.
    pub open spec fn pair(&self) -> (Seq<char>, Seq<char>) {
        (self.channel_id@, self.account@)
    }

    pub fn duplicate(&self) -> (r: AccountInfo)
        ensures
            r.pair() == self.pair(),
    {
        AccountInfo { account: self.account.clone(), channel_id: self.channel_id.clone() }
    }
}

/// The bytes under which the store keeps a channel id.
pub open spec fn key_bytes(channel_id: Seq<char>) -> Seq<u8> {
    vstd::utf8::encode_utf8(channel_id)
}

/// Channel `a` is listed no later than channel `b`.
pub open spec fn key_le(a: Seq<char>, b: Seq<char>) -> bool {
    lex_le(key_bytes(a), key_bytes(b))
}

/// Each channel appears once, and the channels come in the store's order.
pub open spec fn well_ordered(s: Seq<(Seq<char>, Seq<char>)>) -> bool {
    &&& forall|i: int, j: int| 0 <= i < j < s.len() ==> #[trigger] s[i].0 != #[trigger] s[j].0
    &&& forall|i: int, j: int| 0 <= i < j < s.len() ==> key_le(#[trigger] s[i].0, #[trigger] s[j].0)
}

/// The account bound to `channel_id` in the listing `s`, if any.
pub open spec fn lookup(s: Seq<(Seq<char>, Seq<char>)>, channel_id: Seq<char>) -> Option<Seq<char>> {
    if exists|i: int| 0 <= i < s.len() && #[trigger] s[i].0 == channel_id {
        let i = choose|i: int| 0 <= i < s.len() && #[trigger] s[i].0 == channel_id;
        Some(s[i].1)
    } else {
        None
    }
}

pub proof fn lemma_lookup_at(s: Seq<(Seq<char>, Seq<char>)>, i: int)
    requires
        well_ordered(s),
        0 <= i < s.len(),
    ensures
        lookup(s, s[i].0) == Some(s[i].1),
{
    let k = s[i].0;
    assert(s[i].0 == k);
    let j = choose|j: int| 0 <= j < s.len() && #[trigger] s[j].0 == k;
    if j != i {
        if j < i {
            assert(s[j].0 != s[i].0);
        } else {
            assert(s[i].0 != s[j].0);
        }
    }
}

/// Channel ids mapped to the address of their sub-account, listed in the
/// store's key order.
pub struct AccountRegistry {
    entries: Vec<AccountInfo>,
}

impl View for AccountRegistry {
    type V = Seq<(Seq<char>, Seq<char>)>;

    closed spec fn view(&self) -> Seq<(Seq<char>, Seq<char>)> {
        self.entries@.map_values(|e: AccountInfo| e.pair())
    }
}

impl AccountRegistry {
    pub open spec fn wf(&self) -> bool {
        well_ordered(self@)
    }

    pub fn new() -> (r: AccountRegistry)
        ensures
            r.wf(),
            r@ == Seq::<(Seq<char>, Seq<char>)>::empty(),
    {
        let r = AccountRegistry { entries: Vec::new() };
        assert(r@ =~= Seq::<(Seq<char>, Seq<char>)>::empty());
        r
    }

    fn position(&self, channel_id: &String) -> (r: Option<usize>)
        requires
            self.wf(),
        ensures
            match r {
                Some(i) => i < self@.len() && self@[i as int].0 == channel_id@,
                None => forall|i: int| 0 <= i < self@.len() ==> #[trigger] self@[i].0 != channel_id@,
            },
    {
        let mut i: usize = 0;
        while i < self.entries.len()
            invariant
                i <= self@.len(),
                self@.len() == self.entries@.len(),
                forall|j: int| 0 <= j < i ==> #[trigger] self@[j].0 != channel_id@,
            decreases self@.len() - i,
        {
            if self.entries[i].channel_id == *channel_id {
                return Some(i);
            }
            i = i + 1;
        }
        None
    }

    /// The account bound to `channel_id`.
    pub fn get(&self, channel_id: &String) -> (r: Option<String>)
        requires
            self.wf(),
        ensures
            r matches Some(a) ==> lookup(self@, channel_id@) == Some(a@),
            r is None ==> lookup(self@, channel_id@) is None,
    {
        match self.position(channel_id) {
            Some(i) => {
                proof {
                    lemma_lookup_at(self@, i as int);
                }
                Some(self.entries[i].account.clone())
            },
            None => None,
        }
    }

    /// Binds `channel_id` to `account`, unless the channel is bound already,
    /// in which case nothing changes and the answer is false.
    pub fn bind(&mut self, channel_id: String, account: String) -> (r: bool)
        requires
            old(self).wf(),
        ensures
            final(self).wf(),
            r == lookup(old(self)@, channel_id@) is None,
            !r ==> final(self)@ == old(self)@,
            r ==> exists|p: int|
                0 <= p <= old(self)@.len() && final(self)@ == old(self)@.insert(
                    p,
                    (channel_id@, account@),
                ),
            r ==> forall|k: Seq<char>|
                lookup(final(self)@, k) == if k == channel_id@ {
                    Some(account@)
                } else {
                    lookup(old(self)@, k)
                },
    {
        if self.get(&channel_id).is_some() {
            return false;
        }
        self.insert_new(channel_id, account);
        true
    }

    fn insert_new(&mut self, channel_id: String, account: String)
        requires
            old(self).wf(),
            lookup(old(self)@, channel_id@) is None,
        ensures
            final(self).wf(),
            exists|p: int|
                0 <= p <= old(self)@.len() && final(self)@ == old(self)@.insert(
                    p,
                    (channel_id@, account@),
                ),
            forall|k: Seq<char>|
                lookup(final(self)@, k) == if k == channel_id@ {
                    Some(account@)
                } else {
                    lookup(old(self)@, k)
                },
    {
        let ghost old_s = self@;
        let ghost new_key = channel_id@;
        assert forall|j: int| 0 <= j < old_s.len() implies #[trigger] old_s[j].0 != new_key by {
            if old_s[j].0 == new_key {
                assert(exists|i: int| 0 <= i < old_s.len() && #[trigger] old_s[i].0 == new_key);
            }
        }
        let mut p: usize = 0;
        while p < self.entries.len()
            invariant
                self@ == old_s,
                new_key == channel_id@,
                self@.len() == self.entries@.len(),
                p <= old_s.len(),
                forall|j: int| 0 <= j < p ==> key_le(#[trigger] old_s[j].0, new_key),
            ensures
                p <= old_s.len(),
                forall|j: int| 0 <= j < p ==> key_le(#[trigger] old_s[j].0, new_key),
                p < old_s.len() ==> !key_le(old_s[p as int].0, new_key),
            decreases old_s.len() - p,
        {
            let a = self.entries[p].channel_id.as_str().as_bytes();
            let b = channel_id.as_str().as_bytes();
            assert(old_s[p as int].0 == self.entries@[p as int].channel_id@);
            assert(a@ == key_bytes(old_s[p as int].0));
            assert(b@ == key_bytes(new_key));
            let before = bytes_le(a, b);
            if !before {
                break;
            }
            p = p + 1;
        }
        proof {
            if p < old_s.len() {
                lemma_lex_total(key_bytes(old_s[p as int].0), key_bytes(new_key));
            }
        }
        let info = AccountInfo { account, channel_id };
        self.entries.insert(p, info);
        let ghost s = self@;
        assert(s =~= old_s.insert(p as int, (new_key, info.account@)));
        assert forall|i: int, j: int| 0 <= i < j < s.len() implies key_le(
            #[trigger] s[i].0,
            #[trigger] s[j].0,
        ) by {
            if j == p {
                assert(key_le(old_s[i].0, new_key));
            } else if i == p {
                assert(key_le(new_key, old_s[p as int].0));
                if j - 1 > p {
                    lemma_lex_trans(
                        key_bytes(new_key),
                        key_bytes(old_s[p as int].0),
                        key_bytes(old_s[j - 1].0),
                    );
                }
            } else if i < p && j < p {
            } else if i < p {
                assert(key_le(old_s[i].0, old_s[j - 1].0));
            } else {
                assert(key_le(old_s[i - 1].0, old_s[j - 1].0));
            }
        }
        assert forall|i: int, j: int| 0 <= i < j < s.len() implies #[trigger] s[i].0
            != #[trigger] s[j].0 by {
            if i != p && j != p {
                let oi = if i < p { i } else { i - 1 };
                let oj = if j < p { j } else { j - 1 };
                assert(old_s[oi].0 != old_s[oj].0);
            }
        }
        assert forall|k: Seq<char>|
            lookup(s, k) == if k == new_key {
                Some(info.account@)
            } else {
                lookup(old_s, k)
            } by {
            if k == new_key {
                lemma_lookup_at(s, p as int);
            } else if lookup(old_s, k) is Some {
                let i = choose|i: int| 0 <= i < old_s.len() && #[trigger] old_s[i].0 == k;
                lemma_lookup_at(old_s, i);
                let si = if i < p { i } else { i + 1 };
                assert(s[si] == old_s[i]);
                lemma_lookup_at(s, si);
            } else {
                if exists|i: int| 0 <= i < s.len() && #[trigger] s[i].0 == k {
                    let i = choose|i: int| 0 <= i < s.len() && #[trigger] s[i].0 == k;
                    let oi = if i < p { i } else { i - 1 };
                    assert(old_s[oi].0 == k);
                }
            }
        }
    }

    /// Removes the binding of `channel_id`, returning the account it had.
    pub fn unbind(&mut self, channel_id: &String) -> (r: Option<String>)
        requires
            old(self).wf(),
        ensures
            final(self).wf(),
            r matches Some(a) ==> lookup(old(self)@, channel_id@) == Some(a@),
            r is None ==> lookup(old(self)@, channel_id@) is None && final(self)@ == old(self)@,
            r is Some ==> exists|p: int|
                0 <= p < old(self)@.len() && old(self)@[p].0 == channel_id@ && final(self)@
                    == old(self)@.remove(p),
            forall|k: Seq<char>|
                lookup(final(self)@, k) == if k == channel_id@ {
                    None
                } else {
                    lookup(old(self)@, k)
                },
    {
        let ghost old_s = self@;
        match self.position(channel_id) {
            None => {
                assert forall|k: Seq<char>|
                    lookup(old_s, k) == if k == channel_id@ {
                        None
                    } else {
                        lookup(old_s, k)
                    } by {
                    if k == channel_id@ && lookup(old_s, k) is Some {
                        let i = choose|i: int| 0 <= i < old_s.len() && #[trigger] old_s[i].0 == k;
                        assert(old_s[i].0 != channel_id@);
                    }
                }
                None
            },
            Some(p) => {
                proof {
                    lemma_lookup_at(old_s, p as int);
                }
                let e = self.entries.remove(p);
                let ghost s = self@;
                assert(s =~= old_s.remove(p as int));
                assert forall|i: int, j: int| 0 <= i < j < s.len() implies #[trigger] s[i].0
                    != #[trigger] s[j].0 && key_le(s[i].0, s[j].0) by {
                    let oi = if i < p { i } else { i + 1 };
                    let oj = if j < p { j } else { j + 1 };
                    assert(old_s[oi].0 != old_s[oj].0);
                    assert(key_le(old_s[oi].0, old_s[oj].0));
                }
                assert forall|k: Seq<char>|
                    lookup(s, k) == if k == channel_id@ {
                        None
                    } else {
                        lookup(old_s, k)
                    } by {
                    if lookup(old_s, k) is Some && k != channel_id@ {
                        let i = choose|i: int| 0 <= i < old_s.len() && #[trigger] old_s[i].0 == k;
                        lemma_lookup_at(old_s, i);
                        assert(i != p);
                        let si = if i < p { i } else { i - 1 };
                        assert(s[si] == old_s[i]);
                        lemma_lookup_at(s, si);
                    } else {
                        if exists|i: int| 0 <= i < s.len() && #[trigger] s[i].0 == k {
                            let i = choose|i: int| 0 <= i < s.len() && #[trigger] s[i].0 == k;
                            let oi = if i < p { i } else { i + 1 };
                            assert(old_s[oi].0 == k);
                            if k == channel_id@ {
                                assert(old_s[p as int].0 == k);
                            } else {
                                assert(exists|i: int| 0 <= i < old_s.len() && #[trigger] old_s[i].0 == k);
                            }
                        }
                    }
                }
                Some(e.account)
            },
        }
    }

    /// All bindings, in the store's key order.
    pub fn list(&self) -> (r: Vec<AccountInfo>)
        requires
            self.wf(),
        ensures
            r@.map_values(|e: AccountInfo| e.pair()) == self@,
    {
        let mut out: Vec<AccountInfo> = Vec::new();
        let mut i: usize = 0;
        while i < self.entries.len()
            invariant
                i <= self.entries@.len(),
                out@.len() == i,
                forall|j: int| 0 <= j < i ==> #[trigger] out@[j].pair() == self.entries@[j].pair(),
            decreases self.entries@.len() - i,
        {
            out.push(self.entries[i].duplicate());
            i = i + 1;
        }
        assert(out@.map_values(|e: AccountInfo| e.pair()) =~= self@);
        out
    }
}

} // verus!
