//! The session manager: the sessions open at a time, keyed by session id,
//! and the default client configuration that new sessions use.
use vstd::prelude::*;
use crate::client::VisionClientConfig;
use crate::error::VisionError;

verus! {

broadcast use {
    vstd::seq_lib::group_seq_properties,
    vstd::map::group_map_axioms,
    vstd::set::group_set_axioms,
};

/// The map from session id to handle that a list of entries describes.
pub closed spec fn entries_map<H>(s: Seq<(String, H)>) -> Map<Seq<char>, H>
    decreases s.len(),
{
    if s.len() == 0 {
        Map::empty()
    } else {
        entries_map(s.drop_last()).insert(s.last().0@, s.last().1)
    }
}

/// No session id occurs twice among the entries.
pub open spec fn distinct_ids<H>(s: Seq<(String, H)>) -> bool {
    forall|i: int, j: int|
        0 <= i < s.len() && 0 <= j < s.len() && i != j ==> s[i].0@ != s[j].0@
}

proof fn lemma_entries_dom<H>(s: Seq<(String, H)>)
    ensures
        entries_map(s).dom().finite(),
        forall|k: Seq<char>|
            entries_map(s).contains_key(k) <==> exists|i: int| 0 <= i < s.len() && s[i].0@ == k,
    decreases s.len(),
{
    if s.len() > 0 {
        let dl = s.drop_last();
        lemma_entries_dom(dl);
        assert forall|k: Seq<char>|
            entries_map(s).contains_key(k) <==> exists|i: int| 0 <= i < s.len() && s[i].0@ == k by {
            if entries_map(s).contains_key(k) {
                if k == s.last().0@ {
                    assert(s[s.len() - 1].0@ == k);
                } else {
                    assert(entries_map(dl).contains_key(k));
                    let i = choose|i: int| 0 <= i < dl.len() && dl[i].0@ == k;
                    assert(s[i].0@ == k);
                }
            }
            if exists|i: int| 0 <= i < s.len() && s[i].0@ == k {
                let i = choose|i: int| 0 <= i < s.len() && s[i].0@ == k;
                if i < s.len() - 1 {
                    assert(dl[i].0@ == k);
                }
            }
        }
    }
}

proof fn lemma_entries_index<H>(s: Seq<(String, H)>, i: int)
    requires
        distinct_ids(s),
        0 <= i < s.len(),
    ensures
        entries_map(s).contains_key(s[i].0@),
        entries_map(s)[s[i].0@] == s[i].1,
    decreases s.len(),
{
    let dl = s.drop_last();
    if i < s.len() - 1 {
        assert(dl[i] == s[i]);
        assert(distinct_ids(dl));
        lemma_entries_index(dl, i);
        assert(s[i].0@ != s.last().0@);
    }
}

proof fn lemma_entries_len<H>(s: Seq<(String, H)>)
    requires
        distinct_ids(s),
    ensures
        entries_map(s).len() == s.len(),
    decreases s.len(),
{
    lemma_entries_dom(s);
    if s.len() > 0 {
        let dl = s.drop_last();
        assert(distinct_ids(dl));
        lemma_entries_len(dl);
        lemma_entries_dom(dl);
        if entries_map(dl).contains_key(s.last().0@) {
            let i = choose|i: int| 0 <= i < dl.len() && dl[i].0@ == s.last().0@;
            assert(s[i].0@ == s[s.len() - 1].0@);
        }
        assert(entries_map(s).dom() == entries_map(dl).dom().insert(s.last().0@));
    }
}

proof fn lemma_entries_push<H>(s: Seq<(String, H)>, e: (String, H))
    requires
        distinct_ids(s),
        !entries_map(s).contains_key(e.0@),
    ensures
        entries_map(s.push(e)) == entries_map(s).insert(e.0@, e.1),
        distinct_ids(s.push(e)),
{
    assert(s.push(e).drop_last() =~= s);
    lemma_entries_dom(s);
    assert forall|i: int, j: int|
        0 <= i < s.push(e).len() && 0 <= j < s.push(e).len() && i != j implies s.push(e)[i].0@
        != s.push(e)[j].0@ by {
        if i == s.len() {
            assert(s[j].0@ != e.0@);
        } else if j == s.len() {
            assert(s[i].0@ != e.0@);
        }
    }
}

proof fn lemma_entries_remove<H>(s: Seq<(String, H)>, i: int)
    requires
        distinct_ids(s),
        0 <= i < s.len(),
    ensures
        entries_map(s.remove(i)) == entries_map(s).remove(s[i].0@),
        distinct_ids(s.remove(i)),
    decreases s.len(),
{
    let dl = s.drop_last();
    let last = s.last();
    assert(distinct_ids(dl));
    if i == s.len() - 1 {
        assert(s.remove(i) =~= dl);
        lemma_entries_dom(dl);
        assert(!entries_map(dl).contains_key(last.0@)) by {
            if entries_map(dl).contains_key(last.0@) {
                let j = choose|j: int| 0 <= j < dl.len() && dl[j].0@ == last.0@;
                assert(s[j].0@ == s[s.len() - 1].0@);
            }
        }
        assert(entries_map(s).remove(s[i].0@) =~= entries_map(dl));
    } else {
        lemma_entries_remove(dl, i);
        assert(s.remove(i) =~= dl.remove(i).push(last));
        assert(s.remove(i).drop_last() =~= dl.remove(i));
        assert(dl[i] == s[i]);
        assert(s[i].0@ != last.0@);
        assert(entries_map(s.remove(i)) =~= entries_map(s).remove(s[i].0@));
    }
    s.remove_ensures(i);
    assert forall|a: int, b: int|
        0 <= a < s.remove(i).len() && 0 <= b < s.remove(i).len() && a != b implies s.remove(
        i,
    )[a].0@ != s.remove(i)[b].0@ by {
        let a2 = if a < i { a } else { a + 1 };
        let b2 = if b < i { b } else { b + 1 };
        assert(s.remove(i)[a] == s[a2]);
        assert(s.remove(i)[b] == s[b2]);
    }
}

/// The idle sessions of a report of `(id, idle seconds)` pairs: the ids, in
/// report order, of the sessions idle for longer than `max_idle_secs`.
pub open spec fn idle_ids(report: Seq<(String, u64)>, max_idle_secs: u64) -> Seq<String>
    decreases report.len(),
{
    if report.len() == 0 {
        Seq::empty()
    } else {
        let earlier = idle_ids(report.drop_last(), max_idle_secs);
        if report.last().1 > max_idle_secs {
            earlier.push(report.last().0)
        } else {
            earlier
        }
    }
}

/// The texts of a list of session ids, as a set.
pub open spec fn id_set(ids: Seq<String>) -> Set<Seq<char>> {
    Set::new(|k: Seq<char>| exists|i: int| 0 <= i < ids.len() && ids[i]@ == k)
}

/// The position of the entry with the given id, if there is one.
fn find_entry<H>(entries: &Vec<(String, H)>, id: &str) -> (r: Option<usize>)
    ensures
        match r {
            Some(i) => i < entries@.len() && entries@[i as int].0@ == id@,
            None => forall|i: int| 0 <= i < entries@.len() ==> entries@[i].0@ != id@,
        },
{
    let key = String::from_str(id);
    let mut i: usize = 0;
    while i < entries.len()
        invariant
            i <= entries@.len(),
            key@ == id@,
            forall|j: int| 0 <= j < i ==> entries@[j].0@ != id@,
        decreases entries@.len() - i,
    {
        if entries[i].0 == key {
            return Some(i);
        }
        i = i + 1;
    }
    None
}

/// Manager for vision sessions, generic over the handle it keeps per session.
pub struct VisionSessionManager<H> {
    entries: Vec<(String, H)>,
    default_config: Option<VisionClientConfig>,
}

impl<H> VisionSessionManager<H> {
    #[verifier::type_invariant]
    spec fn ids_distinct(self) -> bool {
        distinct_ids(self.entries@)
    }

    /// The open sessions: session id to handle.
    pub closed spec fn sessions(&self) -> Map<Seq<char>, H> {
        entries_map(self.entries@)
    }

    /// The configuration that new sessions use when none is given.
    pub closed spec fn configured_default(&self) -> Option<VisionClientConfig> {
        self.default_config
    }

    /// Creates a session manager with no default configuration.
    pub fn new() -> (r: Self)
        ensures
            r.sessions() == Map::<Seq<char>, H>::empty(),
            r.configured_default() is None,
    {
        VisionSessionManager { entries: Vec::new(), default_config: None }
    }

    /// Creates a session manager with a default configuration.
    pub fn with_config(config: VisionClientConfig) -> (r: Self)
        ensures
            r.sessions() == Map::<Seq<char>, H>::empty(),
            r.configured_default() == Some(config),
    {
        VisionSessionManager { entries: Vec::new(), default_config: Some(config) }
    }

    /// The configuration for a new session: the one asked for, else the
    /// default; an error when there is neither.
    pub fn session_config(&self, requested: Option<VisionClientConfig>) -> (r: Result<
        VisionClientConfig,
        VisionError,
    >)
        ensures
            r == (match requested {
                Some(c) => Ok(c),
                None => match self.configured_default() {
                    Some(d) => Ok(d),
                    None => Err(VisionError::NoClientConfiguration),
                },
            }),
    {
        match requested {
            Some(c) => Ok(c),
            None => match &self.default_config {
                Some(d) => Ok(d.clone()),
                None => Err(VisionError::NoClientConfiguration),
            },
        }
    }

    /// The configuration that new sessions use when none is given.
    pub fn default_config(&self) -> (r: Option<VisionClientConfig>)
        ensures
            r == self.configured_default(),
    {
        match &self.default_config {
            Some(c) => Some(c.clone()),
            None => None,
        }
    }

    /// Whether a session with the given id is open.
    pub fn contains_session(&self, id: &str) -> (r: bool)
        ensures
            r == self.sessions().contains_key(id@),
    {
        proof {
            lemma_entries_dom(self.entries@);
        }
        find_entry(&self.entries, id).is_some()
    }

    /// The handle of a session, by id.
    pub fn get_session(&self, id: &str) -> (r: Option<&H>)
        ensures
            match r {
                Some(h) => self.sessions().contains_key(id@) && *h == self.sessions()[id@],
                None => !self.sessions().contains_key(id@),
            },
    {
        proof {
            use_type_invariant(self);
            lemma_entries_dom(self.entries@);
        }
        match find_entry(&self.entries, id) {
            Some(i) => {
                proof {
                    lemma_entries_index(self.entries@, i as int);
                }
                Some(&self.entries[i].1)
            },
            None => None,
        }
    }

    /// Registers a session under its id; a handle already registered under
    /// that id is replaced and returned.
    pub fn register_session(&mut self, id: String, handle: H) -> (r: Option<H>)
        ensures
            final(self).sessions() == old(self).sessions().insert(id@, handle),
            r == (if old(self).sessions().contains_key(id@) {
                Some(old(self).sessions()[id@])
            } else {
                None
            }),
            final(self).configured_default() == old(self).configured_default(),
    {
        proof {
            use_type_invariant(&*self);
            lemma_entries_dom(self.entries@);
        }
        let mut entries: Vec<(String, H)> = Vec::new();
        std::mem::swap(&mut entries, &mut self.entries);
        let ghost before = entries@;
        let found = match find_entry(&entries, id.as_str()) {
            Some(i) => {
                proof {
                    lemma_entries_index(before, i as int);
                    lemma_entries_remove(before, i as int);
                }
                let (_, previous) = entries.remove(i);
                Some(previous)
            },
            None => None,
        };
        proof {
            lemma_entries_dom(entries@);
        }
        let ghost middle = entries@;
        let ghost key = id@;
        proof {
            lemma_entries_push(middle, (id, handle));
        }
        entries.push((id, handle));
        assert(entries_map(entries@) =~= entries_map(before).insert(key, handle));
        self.entries = entries;
        found
    }


    /// Removes a session; reports whether a session with that id was open.
    pub fn remove_session(&mut self, id: &str) -> (r: bool)
        ensures
            r == old(self).sessions().contains_key(id@),
            final(self).sessions() == old(self).sessions().remove(id@),
            final(self).configured_default() == old(self).configured_default(),
    {
        proof {
            use_type_invariant(&*self);
            lemma_entries_dom(self.entries@);
        }
        let mut entries: Vec<(String, H)> = Vec::new();
        std::mem::swap(&mut entries, &mut self.entries);
        let ghost before = entries@;
        let removed = match find_entry(&entries, id) {
            Some(i) => {
                proof {
                    lemma_entries_remove(before, i as int);
                }
                let _ = entries.remove(i);
                true
            },
            None => {
                assert(entries_map(before).remove(id@) =~= entries_map(before));
                false
            },
        };
        self.entries = entries;
        removed
    }

    /// The ids of the open sessions, each once.
    pub fn session_ids(&self) -> (r: Vec<String>)
        ensures
            r@.len() == self.sessions().len(),
            forall|i: int| 0 <= i < r@.len() ==> self.sessions().contains_key(#[trigger] r@[i]@),
            forall|k: Seq<char>|
                #[trigger] self.sessions().contains_key(k) ==> exists|i: int|
                    0 <= i < r@.len() && r@[i]@ == k,
            forall|i: int, j: int| 0 <= i < r@.len() && 0 <= j < r@.len() && i != j ==> r@[i]@ != r@[j]@,
    {
        proof {
            use_type_invariant(self);
            lemma_entries_dom(self.entries@);
            lemma_entries_len(self.entries@);
        }
        let mut r: Vec<String> = Vec::new();
        let mut i: usize = 0;
        while i < self.entries.len()
            invariant
                i <= self.entries@.len(),
                r@.len() == i,
                forall|j: int| 0 <= j < i ==> r@[j] == #[trigger] self.entries@[j].0,
            decreases self.entries@.len() - i,
        {
            r.push(self.entries[i].0.clone());
            i = i + 1;
        }
        proof {
            assert forall|k: Seq<char>| #[trigger] self.sessions().contains_key(k) implies exists|
                i: int,
            | 0 <= i < r@.len() && r@[i]@ == k by {
                let i = choose|i: int| 0 <= i < self.entries@.len() && self.entries@[i].0@ == k;
                assert(r@[i] == self.entries@[i].0);
            }
            assert forall|i: int| 0 <= i < r@.len() implies self.sessions().contains_key(
                #[trigger] r@[i]@,
            ) by {
                assert(r@[i] == self.entries@[i].0);
            }
            assert forall|i: int, j: int|
                0 <= i < r@.len() && 0 <= j < r@.len() && i != j implies r@[i]@ != r@[j]@ by {
                assert(r@[i] == self.entries@[i].0);
                assert(r@[j] == self.entries@[j].0);
            }
        }
        r
    }

    /// The number of open sessions.
    pub fn session_count(&self) -> (r: usize)
        ensures
            r == self.sessions().len(),
            self.sessions().dom().finite(),
    {
        proof {
            use_type_invariant(self);
            lemma_entries_len(self.entries@);
            lemma_entries_dom(self.entries@);
        }
        self.entries.len()
    }

    /// Closes every session.
    pub fn clear_all_sessions(&mut self)
        ensures
            final(self).sessions() == Map::<Seq<char>, H>::empty(),
            final(self).configured_default() == old(self).configured_default(),
    {
        self.entries = Vec::new();
    }

    /// Closes the sessions that a report of `(id, idle seconds)` pairs shows
    /// idle for longer than `max_idle_secs`, and returns how many the report
    /// shows so.
    pub fn cleanup_idle_sessions(&mut self, idle_report: &Vec<(String, u64)>, max_idle_secs: u64)
        -> (r: usize)
        ensures
            r == idle_ids(idle_report@, max_idle_secs).len(),
            final(self).sessions() == old(self).sessions().remove_keys(
                id_set(idle_ids(idle_report@, max_idle_secs)),
            ),
            final(self).configured_default() == old(self).configured_default(),
    {
        let idle = idle_session_ids(idle_report, max_idle_secs);
        let mut i: usize = 0;
        while i < idle.len()
            invariant
                i <= idle@.len(),
                idle@ == idle_ids(idle_report@, max_idle_secs),
                self.configured_default() == old(self).configured_default(),
                self.sessions() == old(self).sessions().remove_keys(id_set(idle@.take(i as int))),
            decreases idle@.len() - i,
        {
            let ghost before = self.sessions();
            self.remove_session(idle[i].as_str());
            proof {
                let s = idle@.take(i as int);
                let t = idle@.take(i + 1);
                assert forall|k: Seq<char>| id_set(t).contains(k) <==> (id_set(s).contains(k) || k
                    == idle@[i as int]@) by {
                    if id_set(t).contains(k) {
                        let j = choose|j: int| 0 <= j < t.len() && t[j]@ == k;
                        if j < i {
                            assert(s[j] == t[j]);
                        }
                    }
                    if id_set(s).contains(k) {
                        let j = choose|j: int| 0 <= j < s.len() && s[j]@ == k;
                        assert(t[j] == s[j]);
                    }
                    if k == idle@[i as int]@ {
                        assert(t[i as int] == idle@[i as int]);
                    }
                }
                assert(self.sessions() =~= old(self).sessions().remove_keys(id_set(t)));
            }
            i = i + 1;
        }
        assert(idle@.take(idle@.len() as int) =~= idle@);
        idle.len()
    }
}

/// The ids, in report order, of the sessions that a report of
/// `(id, idle seconds)` pairs shows idle for longer than `max_idle_secs`.
pub fn idle_session_ids(idle_report: &Vec<(String, u64)>, max_idle_secs: u64) -> (r: Vec<String>)
    ensures
        r@ == idle_ids(idle_report@, max_idle_secs),
{
    let mut r: Vec<String> = Vec::new();
    let mut i: usize = 0;
    while i < idle_report.len()
        invariant
            i <= idle_report@.len(),
            r@ == idle_ids(idle_report@.take(i as int), max_idle_secs),
        decreases idle_report@.len() - i,
    {
        assert(idle_report@.take(i + 1).drop_last() =~= idle_report@.take(i as int));
        if idle_report[i].1 > max_idle_secs {
            r.push(idle_report[i].0.clone());
        }
        i = i + 1;
    }
    assert(idle_report@.take(idle_report@.len() as int) =~= idle_report@);
    r
}

impl<H> Default for VisionSessionManager<H> {
    fn default() -> (r: Self)
        ensures
            r.sessions() == Map::<Seq<char>, H>::empty(),
            r.configured_default() is None,
    {
        Self::new()
    }
}


/// A registered session is found under its id with the handle it was
/// registered with, and registering leaves every other session as it was.
pub proof fn law_lookup_after_register<H>(
    before: Map<Seq<char>, H>,
    id: Seq<char>,
    handle: H,
    other: Seq<char>,
)
    ensures
        before.insert(id, handle).contains_key(id),
        before.insert(id, handle)[id] == handle,
        other != id ==> (before.insert(id, handle).contains_key(other) == before.contains_key(
            other,
        ) && before.insert(id, handle)[other] == before[other]),
{
}

/// Registering a session under a new id opens one more session; under an id
/// already open, the count stays.
pub proof fn law_register_count<H>(before: Map<Seq<char>, H>, id: Seq<char>, handle: H)
    requires
        before.dom().finite(),
    ensures
        before.insert(id, handle).len() == before.len() + (if before.contains_key(id) {
            0int
        } else {
            1int
        }),
{
    assert(before.insert(id, handle).dom() =~= before.dom().insert(id));
}

/// A removed session is no longer found; the count drops by one exactly when
/// the session was open, and the other sessions stay.
pub proof fn law_remove_closes<H>(before: Map<Seq<char>, H>, id: Seq<char>, other: Seq<char>)
    requires
        before.dom().finite(),
    ensures
        !before.remove(id).contains_key(id),
        before.remove(id).len() == before.len() - (if before.contains_key(id) {
            1int
        } else {
            0int
        }),
        other != id ==> (before.remove(id).contains_key(other) == before.contains_key(other)
            && before.remove(id)[other] == before[other]),
{
    assert(before.remove(id).dom() =~= before.dom().remove(id));
}

proof fn lemma_idle_ids_members(report: Seq<(String, u64)>, max_idle_secs: u64, k: Seq<char>)
    ensures
        id_set(idle_ids(report, max_idle_secs)).contains(k) <==> exists|i: int|
            0 <= i < report.len() && report[i].0@ == k && report[i].1 > max_idle_secs,
    decreases report.len(),
{
    let ids = idle_ids(report, max_idle_secs);
    if report.len() > 0 {
        let dl = report.drop_last();
        let earlier = idle_ids(dl, max_idle_secs);
        lemma_idle_ids_members(dl, max_idle_secs, k);
        if id_set(ids).contains(k) {
            let j = choose|j: int| 0 <= j < ids.len() && ids[j]@ == k;
            if j < earlier.len() {
                assert(ids[j] == earlier[j]);
                assert(id_set(earlier).contains(k));
                let i = choose|i: int|
                    0 <= i < dl.len() && dl[i].0@ == k && dl[i].1 > max_idle_secs;
                assert(report[i] == dl[i]);
            } else {
                assert(report[report.len() - 1].0@ == k);
            }
        }
        if exists|i: int| 0 <= i < report.len() && report[i].0@ == k && report[i].1 > max_idle_secs {
            let i = choose|i: int|
                0 <= i < report.len() && report[i].0@ == k && report[i].1 > max_idle_secs;
            if i < report.len() - 1 {
                assert(dl[i] == report[i]);
                let j = choose|j: int| 0 <= j < earlier.len() && earlier[j]@ == k;
                assert(ids[j] == earlier[j]);
            } else {
                assert(ids[ids.len() - 1] == report.last().0);
            }
        }
    }
}

/// Cleaning up closes exactly the open sessions that the idle report shows
/// idle for longer than the limit, and leaves the others as they were.
pub proof fn law_cleanup_closes_exactly_idle<H>(
    before: Map<Seq<char>, H>,
    report: Seq<(String, u64)>,
    max_idle_secs: u64,
    k: Seq<char>,
)
    ensures
        before.remove_keys(id_set(idle_ids(report, max_idle_secs))).contains_key(k) <==> (
        before.contains_key(k) && !exists|i: int|
            0 <= i < report.len() && report[i].0@ == k && report[i].1 > max_idle_secs),
        before.remove_keys(id_set(idle_ids(report, max_idle_secs))).contains_key(k) ==> before.remove_keys(
            id_set(idle_ids(report, max_idle_secs)),
        )[k] == before[k],
{
    lemma_idle_ids_members(report, max_idle_secs, k);
}

} // verus!
