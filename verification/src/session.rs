use vstd::prelude::*;

verus! {

/// The key under which a session keeps the account number.
pub open spec fn acct_no_key() -> Seq<char> {
    "acct_no"@
}

/// The key under which a session keeps the account name.
pub open spec fn acct_name_key() -> Seq<char> {
    "acct_name"@
}

/// The key under which a session keeps the account number.
pub fn acctno() -> (res: String)
    ensures
        res@ == acct_no_key(),
{
    "acct_no".to_owned()
}

/// The key under which a session keeps the account name.
pub fn acctname() -> (res: String)
    ensures
        res@ == acct_name_key(),
{
    "acct_name".to_owned()
}

/// The value stored under `key` in a list of key-value pairs: that of the
/// first pair with this key.
pub open spec fn lookup(entries: Seq<(String, String)>, key: Seq<char>) -> Option<Seq<char>>
    decreases entries.len(),
{
    if entries.len() == 0 {
        None
    } else if entries[0].0@ == key {
        Some(entries[0].1@)
    } else {
        lookup(entries.skip(1), key)
    }
}

/// No two pairs share a key.
pub open spec fn keys_distinct(entries: Seq<(String, String)>) -> bool {
    forall|i: int, j: int|
        0 <= i < entries.len() && 0 <= j < entries.len() && i != j ==> entries[i].0@
            != entries[j].0@
}

/// The value of the pair at `j`, the first with key `key`, is what
/// `lookup` gives.
proof fn lemma_lookup_at(entries: Seq<(String, String)>, key: Seq<char>, j: int)
    requires
        0 <= j < entries.len(),
        entries[j].0@ == key,
        forall|k: int| 0 <= k < j ==> entries[k].0@ != key,
    ensures
        lookup(entries, key) == Some(entries[j].1@),
    decreases j,
{
    if j > 0 {
        lemma_lookup_at(entries.skip(1), key, j - 1);
    }
}

/// Where no pair has the key, `lookup` gives nothing.
proof fn lemma_lookup_absent(entries: Seq<(String, String)>, key: Seq<char>)
    requires
        forall|k: int| 0 <= k < entries.len() ==> entries[k].0@ != key,
    ensures
        lookup(entries, key) is None,
    decreases entries.len(),
{
    if entries.len() > 0 {
        lemma_lookup_absent(entries.skip(1), key);
    }
}

/// Where `lookup` finds a value, some pair carries the key.
proof fn lemma_lookup_found(entries: Seq<(String, String)>, key: Seq<char>)
    requires
        lookup(entries, key) is Some,
    ensures
        exists|j: int|
            0 <= j < entries.len() && entries[j].0@ == key && (forall|k: int|
                0 <= k < j ==> entries[k].0@ != key) && lookup(entries, key) == Some(
                entries[j].1@,
            ),
    decreases entries.len(),
{
    if entries[0].0@ != key {
        lemma_lookup_found(entries.skip(1), key);
        let j = choose|j: int|
            0 <= j < entries.skip(1).len() && entries.skip(1)[j].0@ == key && (forall|k: int|
                0 <= k < j ==> entries.skip(1)[k].0@ != key) && lookup(entries.skip(1), key)
                == Some(entries.skip(1)[j].1@);
        assert forall|k: int| 0 <= k < j + 1 implies entries[k].0@ != key by {
            if k > 0 {
                assert(entries[k] == entries.skip(1)[k - 1]);
            }
        }
    }
}

/// What a session holds about the signed-in account: a map from keys to
/// values, kept as a list of pairs with pairwise distinct keys.
#[derive(Debug)]
pub struct AccountInfo {
    entries: Vec<(String, String)>,
}

impl View for AccountInfo {
    type V = Map<Seq<char>, Seq<char>>;

    closed spec fn view(&self) -> Map<Seq<char>, Seq<char>> {
        Map::new(
            |k: Seq<char>| lookup(self.entries@, k) is Some,
            |k: Seq<char>| lookup(self.entries@, k).unwrap(),
        )
    }
}

impl AccountInfo {
    #[verifier::type_invariant]
    spec fn well_formed(self) -> bool {
        keys_distinct(self.entries@)
    }

    /// The value stored under `key`.
    pub open spec fn value_of(&self, key: Seq<char>) -> Option<Seq<char>> {
        if self@.contains_key(key) {
            Some(self@[key])
        } else {
            None
        }
    }

    /// A session that holds nothing.
    pub fn new() -> (res: AccountInfo)
        ensures
            res@ == Map::<Seq<char>, Seq<char>>::empty(),
    {
        let res = AccountInfo { entries: Vec::new() };
        assert(res@ =~= Map::<Seq<char>, Seq<char>>::empty());
        res
    }

    /// The value stored under `key`.
    pub fn get(&self, key: &String) -> (res: Option<&String>)
        ensures
            match res {
                Some(v) => self.value_of(key@) == Some(v@),
                None => self.value_of(key@) is None,
            },
    {
        let mut i: usize = 0;
        assert(self.entries@.skip(0) =~= self.entries@);
        while i < self.entries.len()
            invariant
                i <= self.entries.len(),
                lookup(self.entries@, key@) == lookup(self.entries@.skip(i as int), key@),
            decreases self.entries.len() - i,
        {
            let ghost rest = self.entries@.skip(i as int);
            if self.entries[i].0 == *key {
                return Some(&self.entries[i].1);
            }
            assert(rest.skip(1) =~= self.entries@.skip(i + 1));
            i = i + 1;
        }
        None
    }

    /// Stores `value` under `key`, in place of any value stored there.
    pub fn insert(&mut self, key: String, value: String)
        ensures
            final(self)@ == old(self)@.insert(key@, value@),
    {
        proof {
            use_type_invariant(&*self);
        }
        let ghost old_entries = self.entries@;
        let mut entries: Vec<(String, String)> = Vec::new();
        std::mem::swap(&mut entries, &mut self.entries);
        assert(entries@ == old_entries);
        let mut i: usize = 0;
        while i < entries.len()
            invariant
                entries@ == old_entries,
                keys_distinct(old_entries),
                i <= entries.len(),
                forall|k: int| 0 <= k < i ==> entries@[k].0@ != key@,
            ensures
                entries@ == old_entries,
                i <= entries.len(),
                forall|k: int| 0 <= k < i ==> entries@[k].0@ != key@,
                i < entries.len() ==> entries@[i as int].0@ == key@,
            decreases entries.len() - i,
        {
            if entries[i].0 == key {
                break;
            }
            i = i + 1;
        }
        if i < entries.len() {
            let ghost key_view = key@;
            let ghost value_view = value@;
            entries.set(i, (key, value));
            let ghost new_entries = entries@;
            assert(keys_distinct(new_entries)) by {
                assert forall|a: int, b: int|
                    0 <= a < new_entries.len() && 0 <= b < new_entries.len() && a != b implies
                    new_entries[a].0@ != new_entries[b].0@ by {
                    assert(new_entries[a].0@ == old_entries[a].0@);
                    assert(new_entries[b].0@ == old_entries[b].0@);
                }
            }
            proof {
                Self::lemma_lookup_after_update(old_entries, new_entries, i as int, key_view, value_view);
            }
            self.entries = entries;
            assert(self@ =~= old(self)@.insert(key_view, value_view));
        } else {
            let ghost key_view = key@;
            let ghost value_view = value@;
            entries.push((key, value));
            let ghost new_entries = entries@;
            assert(keys_distinct(new_entries)) by {
                assert forall|a: int, b: int|
                    0 <= a < new_entries.len() && 0 <= b < new_entries.len() && a != b implies
                    new_entries[a].0@ != new_entries[b].0@ by {
                    if a < old_entries.len() {
                        assert(new_entries[a] == old_entries[a]);
                    }
                    if b < old_entries.len() {
                        assert(new_entries[b] == old_entries[b]);
                    }
                }
            }
            proof {
                Self::lemma_lookup_after_push(old_entries, key_view, value_view, new_entries);
            }
            self.entries = entries;
            assert(self@ =~= old(self)@.insert(key_view, value_view));
        }
    }

    /// Replacing the value of the first pair with key `key` changes what
    /// `lookup` gives for `key` only.
    proof fn lemma_lookup_after_update(
        old_entries: Seq<(String, String)>,
        new_entries: Seq<(String, String)>,
        i: int,
        key: Seq<char>,
        value: Seq<char>,
    )
        requires
            0 <= i < old_entries.len(),
            old_entries[i].0@ == key,
            new_entries.len() == old_entries.len(),
            forall|k: int| 0 <= k < i ==> old_entries[k].0@ != key,
            forall|k: int| 0 <= k < old_entries.len() && k != i ==> new_entries[k] == old_entries[k],
            new_entries[i].0@ == key,
            new_entries[i].1@ == value,
        ensures
            forall|k2: Seq<char>|
                #[trigger] lookup(new_entries, k2) == if k2 == key {
                    Some(value)
                } else {
                    lookup(old_entries, k2)
                },
    {
        assert forall|k2: Seq<char>|
            #[trigger] lookup(new_entries, k2) == if k2 == key {
                Some(value)
            } else {
                lookup(old_entries, k2)
            } by {
            if k2 == key {
                lemma_lookup_at(new_entries, key, i);
            } else if lookup(old_entries, k2) is Some {
                lemma_lookup_found(old_entries, k2);
                let j = choose|j: int|
                    0 <= j < old_entries.len() && old_entries[j].0@ == k2 && (forall|k: int|
                        0 <= k < j ==> old_entries[k].0@ != k2) && lookup(old_entries, k2) == Some(
                        old_entries[j].1@,
                    );
                assert(j != i);
                assert forall|k: int| 0 <= k < j implies new_entries[k].0@ != k2 by {
                    if k != i {
                        assert(new_entries[k] == old_entries[k]);
                    }
                }
                lemma_lookup_at(new_entries, k2, j);
            } else {
                assert forall|k: int| 0 <= k < new_entries.len() implies new_entries[k].0@ != k2 by {
                    if k != i {
                        assert(new_entries[k] == old_entries[k]);
                        if old_entries[k].0@ == k2 {
                            lemma_lookup_found_any(old_entries, k2, k);
                        }
                    }
                }
                lemma_lookup_absent(new_entries, k2);
            }
        }
    }

    /// Appending a pair whose key no pair has adds that key alone.
    proof fn lemma_lookup_after_push(
        old_entries: Seq<(String, String)>,
        key: Seq<char>,
        value: Seq<char>,
        new_entries: Seq<(String, String)>,
    )
        requires
            forall|k: int| 0 <= k < old_entries.len() ==> old_entries[k].0@ != key,
            new_entries.len() == old_entries.len() + 1,
            forall|k: int| 0 <= k < old_entries.len() ==> new_entries[k] == old_entries[k],
            new_entries[old_entries.len() as int].0@ == key,
            new_entries[old_entries.len() as int].1@ == value,
        ensures
            forall|k2: Seq<char>|
                #[trigger] lookup(new_entries, k2) == if k2 == key {
                    Some(value)
                } else {
                    lookup(old_entries, k2)
                },
    {
        assert forall|k2: Seq<char>|
            #[trigger] lookup(new_entries, k2) == if k2 == key {
                Some(value)
            } else {
                lookup(old_entries, k2)
            } by {
            if k2 == key {
                lemma_lookup_at(new_entries, key, old_entries.len() as int);
            } else if lookup(old_entries, k2) is Some {
                lemma_lookup_found(old_entries, k2);
                let j = choose|j: int|
                    0 <= j < old_entries.len() && old_entries[j].0@ == k2 && (forall|k: int|
                        0 <= k < j ==> old_entries[k].0@ != k2) && lookup(old_entries, k2) == Some(
                        old_entries[j].1@,
                    );
                lemma_lookup_at(new_entries, k2, j);
            } else {
                assert forall|k: int| 0 <= k < new_entries.len() implies new_entries[k].0@ != k2 by {
                    if k < old_entries.len() && old_entries[k].0@ == k2 {
                        lemma_lookup_found_any(old_entries, k2, k);
                    }
                }
                lemma_lookup_absent(new_entries, k2);
            }
        }
    }
}

/// Where some pair has the key, `lookup` finds a value.
proof fn lemma_lookup_found_any(entries: Seq<(String, String)>, key: Seq<char>, j: int)
    requires
        0 <= j < entries.len(),
        entries[j].0@ == key,
    ensures
        lookup(entries, key) is Some,
    decreases j,
{
    if j > 0 && entries[0].0@ != key {
        lemma_lookup_found_any(entries.skip(1), key, j - 1);
    }
}

/// The session of a visitor who is not signed in: account number 9999 and
/// the name 名無し, and nothing else.
pub open spec fn anonymous_session() -> Map<Seq<char>, Seq<char>> {
    Map::empty().insert(acct_no_key(), "9999"@).insert(acct_name_key(), "名無し"@)
}

/// Decides what a request sees of its session. `session_id` is the current
/// session's id ("" where there is none), `reply_is_nil` tells whether the
/// store answered nothing at all for it, and `stored` is what it answered.
/// The stored pairs are used unless both the reply was empty and there is
/// no session id; then the visitor is anonymous.
pub fn session_account_info(session_id: &String, reply_is_nil: bool, stored: AccountInfo) -> (res:
    AccountInfo)
    ensures
        (!reply_is_nil || session_id@ != Seq::<char>::empty()) ==> res@ == stored@,
        (reply_is_nil && session_id@ == Seq::<char>::empty()) ==> res@ == anonymous_session(),
{
    if !reply_is_nil || *session_id != String::new() {
        stored
    } else {
        let mut info = AccountInfo::new();
        info.insert(acctno(), "9999".to_owned());
        info.insert(acctname(), "名無し".to_owned());
        info
    }
}

} // verus!
