use vstd::prelude::*;
use vstd::string::StringExecFns;

use crate::ident::{parse_uuid, uuid_parse};

verus! {

/// The concatenation of `parts`, in order.
pub open spec fn concat_all(parts: Seq<Seq<char>>) -> Seq<char>
    decreases parts.len(),
{
    if parts.len() == 0 {
        Seq::empty()
    } else {
        concat_all(parts.drop_last()) + parts.last()
    }
}

/// `needle` occurs in `hay` as a contiguous run.
pub open spec fn occurs_in(needle: Seq<char>, hay: Seq<char>) -> bool {
    exists|i: int| 0 <= i <= hay.len() - needle.len() && #[trigger] hay.subrange(i, i + needle.len()) == needle
}

/// Why the direct-write store refused a write.
#[derive(Debug, Clone, Copy, PartialEq, Eq, Structural)]
pub enum LogError {
    /// The identifier could not be read.
    InvalidUuid,
}

impl LogError {
    pub fn message(&self) -> (r: String)
        ensures
            r@ == "invalid uuid"@,
    {
        String::from_str("invalid uuid")
    }
}

/// The direct-write store: message bodies keyed by identifier, each key held
/// once, kept in the order in which keys were first written.
#[derive(Debug)]
pub struct HashMapLogger {
    entries: Vec<(u128, String)>,
}

pub open spec fn keys_distinct(s: Seq<(u128, String)>) -> bool {
    forall|i: int, j: int| 0 <= i < j < s.len() ==> #[trigger] s[i].0 != #[trigger] s[j].0
}

pub open spec fn map_of(s: Seq<(u128, String)>) -> Map<u128, Seq<char>>
    decreases s.len(),
{
    if s.len() == 0 {
        Map::empty()
    } else {
        map_of(s.drop_last()).insert(s.last().0, s.last().1@)
    }
}

pub open spec fn bodies_of(s: Seq<(u128, String)>) -> Seq<Seq<char>> {
    s.map_values(|e: (u128, String)| e.1@)
}

proof fn lemma_map_of_dom(s: Seq<(u128, String)>, k: u128)
    ensures
        map_of(s).contains_key(k) <==> exists|i: int| 0 <= i < s.len() && s[i].0 == k,
    decreases s.len(),
{
    if s.len() > 0 {
        lemma_map_of_dom(s.drop_last(), k);
        if map_of(s.drop_last()).contains_key(k) {
            let i = choose|i: int| 0 <= i < s.len() - 1 && s.drop_last()[i].0 == k;
            assert(s[i].0 == k);
        }
        if exists|i: int| 0 <= i < s.len() && s[i].0 == k {
            let i = choose|i: int| 0 <= i < s.len() && s[i].0 == k;
            if i < s.len() - 1 {
                assert(s.drop_last()[i].0 == k);
            }
        }
    }
}

proof fn lemma_map_of_at(s: Seq<(u128, String)>, i: int)
    requires
        keys_distinct(s),
        0 <= i < s.len(),
    ensures
        map_of(s).contains_key(s[i].0),
        map_of(s)[s[i].0] == s[i].1@,
    decreases s.len(),
{
    if i < s.len() - 1 {
        assert(keys_distinct(s.drop_last()));
        lemma_map_of_at(s.drop_last(), i);
        assert(s.drop_last()[i] == s[i]);
    }
}

proof fn lemma_map_of_update(s: Seq<(u128, String)>, i: int, v: String)
    requires
        keys_distinct(s),
        0 <= i < s.len(),
    ensures
        keys_distinct(s.update(i, (s[i].0, v))),
        map_of(s.update(i, (s[i].0, v))) == map_of(s).insert(s[i].0, v@),
    decreases s.len(),
{
    let t = s.update(i, (s[i].0, v));
    assert(keys_distinct(t)) by {
        assert forall|a: int, b: int| 0 <= a < b < t.len() implies #[trigger] t[a].0 != #[trigger] t[b].0 by {
            assert(t[a].0 == s[a].0 && t[b].0 == s[b].0);
        }
    }
    if i == s.len() - 1 {
        assert(t.drop_last() =~= s.drop_last());
        assert(map_of(t) =~= map_of(s).insert(s[i].0, v@));
    } else {
        assert(keys_distinct(s.drop_last()));
        lemma_map_of_update(s.drop_last(), i, v);
        assert(t.drop_last() =~= s.drop_last().update(i, (s[i].0, v)));
        assert(s.last().0 != s[i].0);
        assert(map_of(t) =~= map_of(s).insert(s[i].0, v@));
    }
}

proof fn lemma_concat_push(parts: Seq<Seq<char>>, p: Seq<char>)
    ensures
        concat_all(parts.push(p)) == concat_all(parts) + p,
{
    assert(parts.push(p).drop_last() =~= parts);
}

pub(crate) proof fn lemma_concat_contains(parts: Seq<Seq<char>>, i: int)
    requires
        0 <= i < parts.len(),
    ensures
        occurs_in(parts[i], concat_all(parts)),
    decreases parts.len(),
{
    let c = concat_all(parts);
    let d = concat_all(parts.drop_last());
    if i == parts.len() - 1 {
        assert(c.subrange(d.len() as int, (d.len() + parts[i].len()) as int) =~= parts[i]);
    } else {
        lemma_concat_contains(parts.drop_last(), i);
        let j = choose|j: int| 0 <= j <= d.len() - parts[i].len() && #[trigger] d.subrange(j, j + parts[i].len()) == parts.drop_last()[i];
        assert(c.subrange(j, j + parts[i].len()) =~= d.subrange(j, j + parts[i].len()));
    }
}

impl Default for HashMapLogger {
    fn default() -> (r: HashMapLogger)
        ensures
            r.wf(),
            r@ == Map::<u128, Seq<char>>::empty(),
    {
        HashMapLogger::new()
    }
}

impl View for HashMapLogger {
    type V = Map<u128, Seq<char>>;

    closed spec fn view(&self) -> Map<u128, Seq<char>> {
        map_of(self.entries@)
    }
}

impl HashMapLogger {
    /// Every key is held once.
    pub closed spec fn wf(&self) -> bool {
        keys_distinct(self.entries@)
    }

    /// The bodies in the order in which a read returns them.
    pub closed spec fn bodies(&self) -> Seq<Seq<char>> {
        bodies_of(self.entries@)
    }

    pub fn new() -> (r: HashMapLogger)
        ensures
            r.wf(),
            r@ == Map::<u128, Seq<char>>::empty(),
            r.bodies() == Seq::<Seq<char>>::empty(),
    {
        let r = HashMapLogger { entries: Vec::new() };
        assert(r.bodies() =~= Seq::<Seq<char>>::empty());
        r
    }

    /// Stores `message` under `id`, replacing what was there.
    pub fn insert(&mut self, id: u128, message: String)
        requires
            old(self).wf(),
        ensures
            final(self).wf(),
            final(self)@ == old(self)@.insert(id, message@),
            !old(self)@.contains_key(id) ==> final(self).bodies() == old(self).bodies().push(
                message@,
            ),
            old(self)@.contains_key(id) ==> exists|i: int|
                0 <= i < old(self).bodies().len() && final(self).bodies() == old(
                    self,
                ).bodies().update(i, message@),
    {
        let mut i: usize = 0;
        while i < self.entries.len()
            invariant
                0 <= i <= self.entries.len(),
                self.entries@ == old(self).entries@,
                keys_distinct(self.entries@),
                forall|j: int| 0 <= j < i ==> (#[trigger] self.entries@[j]).0 != id,
            decreases self.entries.len() - i,
        {
            if self.entries[i].0 == id {
                proof {
                    lemma_map_of_update(self.entries@, i as int, message);
                    lemma_map_of_at(self.entries@, i as int);
                }
                let ghost msg = message@;
                self.entries.set(i, (id, message));
                assert(self.bodies() =~= old(self).bodies().update(i as int, msg));
                return;
            }
            i = i + 1;
        }
        proof {
            let s = self.entries@;
            lemma_map_of_dom(s, id);
            assert(s.push((id, message)).drop_last() =~= s);
        }
        let ghost msg = message@;
        self.entries.push((id, message));
        assert(self.bodies() =~= old(self).bodies().push(msg));
        assert(keys_distinct(self.entries@)) by {
            let t = self.entries@;
            assert forall|a: int, b: int| 0 <= a < b < t.len() implies #[trigger] t[a].0 != #[trigger] t[b].0 by {
                if b == t.len() - 1 {
                    assert(t[a] == old(self).entries@[a]);
                } else {
                    assert(t[a] == old(self).entries@[a] && t[b] == old(self).entries@[b]);
                }
            }
        }
    }

    /// Records `message` under the identifier written in `uuid`; refuses an
    /// identifier that cannot be read.
    pub fn log_message(&mut self, uuid: &str, message: String) -> (r: Result<(), LogError>)
        requires
            old(self).wf(),
        ensures
            final(self).wf(),
            match uuid_parse(uuid@) {
                Some(id) => r is Ok && final(self)@ == old(self)@.insert(id, message@) && (!old(
                    self,
                )@.contains_key(id) ==> final(self).bodies() == old(self).bodies().push(message@)),
                None => r == Err::<(), LogError>(LogError::InvalidUuid) && final(self)@
                    == old(self)@ && final(self).bodies() == old(self).bodies(),
            },
    {
        match parse_uuid(uuid) {
            Some(id) => {
                self.insert(id, message);
                Ok(())
            },
            None => Err(LogError::InvalidUuid),
        }
    }

    /// All stored bodies, concatenated.
    pub fn get_all_messages(&self) -> (r: String)
        ensures
            r@ == concat_all(self.bodies()),
    {
        let mut r = String::new();
        let mut i: usize = 0;
        while i < self.entries.len()
            invariant
                0 <= i <= self.entries.len(),
                r@ == concat_all(bodies_of(self.entries@.take(i as int))),
            decreases self.entries.len() - i,
        {
            proof {
                let t = self.entries@.take(i as int);
                lemma_concat_push(bodies_of(t), self.entries@[i as int].1@);
                assert(bodies_of(self.entries@.take(i + 1)) =~= bodies_of(t).push(
                    self.entries@[i as int].1@,
                ));
            }
            r.append(self.entries[i].1.as_str());
            i = i + 1;
        }
        assert(self.entries@.take(i as int) =~= self.entries@);
        r
    }

    /// Each stored body occurs in what a read returns.
    pub proof fn lemma_read_holds(&self, id: u128)
        requires
            self.wf(),
            self@.contains_key(id),
        ensures
            occurs_in(self@[id], concat_all(self.bodies())),
    {
        let s = self.entries@;
        lemma_map_of_dom(s, id);
        let i = choose|i: int| 0 <= i < s.len() && s[i].0 == id;
        lemma_map_of_at(s, i);
        lemma_concat_contains(bodies_of(s), i);
    }
}

} // verus!
