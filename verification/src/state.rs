//! The build state store: a mapping from source identifier to the outcome of
//! that source's most recent build, written by watch workers and read by the
//! request router.
//!
//! The store itself is a plain value; callers that share it across tasks wrap
//! it in their own mutual-exclusion primitive, so every contract here is about
//! one atomic read or write of the map.
//!
//! The client-triggered reset is deliberately `clear_update` — it flips only
//! the `update` flag in place and keeps the record — rather than a removal of
//! the whole entry, so that `error` history stays visible to clients that
//! query the state after a reset.

use crate::strutil::str_eq;
use vstd::prelude::*;

verus! {

/// The recorded outcome of the most recent build of one watched source.
#[derive(Clone, Copy, Debug, PartialEq, Eq, Structural)]
pub struct TexState {
    /// The artifact changed since the client last consumed the reset signal.
    pub update: bool,
    /// The most recent compilation attempt exited non-zero.
    pub error: bool,
}

/// What a lookup of `id` yields from the map `m`: the stored outcome, or
/// `None` for a source never built.
pub open spec fn spec_get(m: Map<Seq<char>, TexState>, id: Seq<char>) -> Option<TexState> {
    if m.contains_key(id) {
        Some(m[id])
    } else {
        None
    }
}

/// The map after the update flag of `id` is cleared: `update` becomes false
/// in place, `error` keeps its value, and an unknown `id` changes nothing.
pub open spec fn spec_clear_update(m: Map<Seq<char>, TexState>, id: Seq<char>) -> Map<
    Seq<char>,
    TexState,
> {
    if m.contains_key(id) {
        m.insert(id, TexState { update: false, error: m[id].error })
    } else {
        m
    }
}

/// Key-value store of build outcomes, keyed by source identifier. Kept as an
/// association list whose keys are pairwise distinct; its view is the map the
/// contracts speak of.
pub struct StateStore {
    entries: Vec<(String, TexState)>,
}

spec fn entries_wf(s: Seq<(String, TexState)>) -> bool {
    forall|i: int, j: int| 0 <= i < j < s.len() ==> s[i].0@ != s[j].0@
}

spec fn map_of(s: Seq<(String, TexState)>) -> Map<Seq<char>, TexState>
    decreases s.len(),
{
    if s.len() == 0 {
        Map::empty()
    } else {
        map_of(s.drop_last()).insert(s.last().0@, s.last().1)
    }
}

proof fn lemma_drop_last_wf(s: Seq<(String, TexState)>)
    requires
        entries_wf(s),
        s.len() > 0,
    ensures
        entries_wf(s.drop_last()),
{
    let t = s.drop_last();
    assert forall|i: int, j: int| 0 <= i < j < t.len() implies t[i].0@ != t[j].0@ by {
        assert(t[i] == s[i]);
        assert(t[j] == s[j]);
    }
}

proof fn lemma_map_of_contains(s: Seq<(String, TexState)>, k: Seq<char>)
    ensures
        map_of(s).contains_key(k) <==> exists|i: int| 0 <= i < s.len() && s[i].0@ == k,
    decreases s.len(),
{
    if s.len() > 0 {
        let t = s.drop_last();
        lemma_map_of_contains(t, k);
        if s.last().0@ == k {
            assert(s[s.len() - 1].0@ == k);
        } else {
            if exists|i: int| 0 <= i < s.len() && s[i].0@ == k {
                let i = choose|i: int| 0 <= i < s.len() && s[i].0@ == k;
                assert(i < s.len() - 1);
                assert(t[i] == s[i]);
            }
            if exists|i: int| 0 <= i < t.len() && t[i].0@ == k {
                let i = choose|i: int| 0 <= i < t.len() && t[i].0@ == k;
                assert(s[i] == t[i]);
            }
        }
    }
}

proof fn lemma_map_of_index(s: Seq<(String, TexState)>, i: int)
    requires
        entries_wf(s),
        0 <= i < s.len(),
    ensures
        map_of(s).contains_key(s[i].0@),
        map_of(s)[s[i].0@] == s[i].1,
    decreases s.len(),
{
    if i == s.len() - 1 {
        assert(s.last() == s[i]);
    } else {
        let t = s.drop_last();
        lemma_drop_last_wf(s);
        assert(t[i] == s[i]);
        lemma_map_of_index(t, i);
        assert(s[i].0@ != s[s.len() - 1].0@);
    }
}

proof fn lemma_map_of_update(s: Seq<(String, TexState)>, i: int, p: (String, TexState))
    requires
        entries_wf(s),
        0 <= i < s.len(),
        p.0@ == s[i].0@,
    ensures
        entries_wf(s.update(i, p)),
        map_of(s.update(i, p)) == map_of(s).insert(p.0@, p.1),
    decreases s.len(),
{
    let s2 = s.update(i, p);
    assert forall|a: int, b: int| 0 <= a < b < s2.len() implies s2[a].0@ != s2[b].0@ by {
        assert(s[a].0@ != s[b].0@);
    }
    if i == s.len() - 1 {
        assert(s2.drop_last() =~= s.drop_last());
        assert(s2.last() == p);
        assert(map_of(s.drop_last()).insert(s.last().0@, s.last().1).insert(p.0@, p.1)
            =~= map_of(s.drop_last()).insert(p.0@, p.1));
    } else {
        let t = s.drop_last();
        lemma_drop_last_wf(s);
        assert(t[i] == s[i]);
        lemma_map_of_update(t, i, p);
        assert(s2.drop_last() =~= t.update(i, p));
        assert(s2.last() == s.last());
        assert(s[i].0@ != s[s.len() - 1].0@);
        assert(map_of(t).insert(p.0@, p.1).insert(s.last().0@, s.last().1) =~= map_of(t).insert(
            s.last().0@,
            s.last().1,
        ).insert(p.0@, p.1));
    }
}

proof fn lemma_map_of_push(s: Seq<(String, TexState)>, p: (String, TexState))
    requires
        entries_wf(s),
        forall|j: int| 0 <= j < s.len() ==> s[j].0@ != p.0@,
    ensures
        entries_wf(s.push(p)),
        map_of(s.push(p)) == map_of(s).insert(p.0@, p.1),
{
    let s2 = s.push(p);
    assert forall|a: int, b: int| 0 <= a < b < s2.len() implies s2[a].0@ != s2[b].0@ by {
        if b < s.len() {
            assert(s2[a] == s[a]);
            assert(s2[b] == s[b]);
        } else {
            assert(s2[a] == s[a]);
            assert(s2[b] == p);
        }
    }
    assert(s2.drop_last() =~= s);
    assert(s2.last() == p);
}

impl View for StateStore {
    type V = Map<Seq<char>, TexState>;

    closed spec fn view(&self) -> Map<Seq<char>, TexState> {
        map_of(self.entries@)
    }
}

impl StateStore {
    /// The store's well-formedness: constructors establish it and every
    /// method preserves it.
    pub closed spec fn wf(&self) -> bool {
        entries_wf(self.entries@)
    }

    /// An empty store: no source has an outcome yet.
    pub fn new() -> (s: StateStore)
        ensures
            s.wf(),
            s@ == Map::<Seq<char>, TexState>::empty(),
    {
        StateStore { entries: Vec::new() }
    }

    /// The outcome recorded for `id`, or `None` for a source never built.
    pub fn get(&self, id: &str) -> (r: Option<TexState>)
        requires
            self.wf(),
        ensures
            r == spec_get(self@, id@),
    {
        let n = self.entries.len();
        let mut i: usize = 0;
        while i < n
            invariant
                n == self.entries@.len(),
                i <= n,
                entries_wf(self.entries@),
                forall|j: int| 0 <= j < i ==> self.entries@[j].0@ != id@,
            decreases n - i,
        {
            if str_eq(self.entries[i].0.as_str(), id) {
                proof {
                    lemma_map_of_index(self.entries@, i as int);
                }
                return Some(self.entries[i].1);
            }
            i += 1;
        }
        proof {
            lemma_map_of_contains(self.entries@, id@);
        }
        None
    }

    /// Records `st` as the outcome of the latest build of `id`, replacing any
    /// prior outcome unconditionally.
    pub fn put(&mut self, id: String, st: TexState)
        requires
            old(self).wf(),
        ensures
            final(self).wf(),
            final(self)@ == old(self)@.insert(id@, st),
    {
        let n = self.entries.len();
        let mut i: usize = 0;
        while i < n
            invariant
                n == self.entries@.len(),
                i <= n,
                entries_wf(self.entries@),
                self.entries@ == old(self).entries@,
                forall|j: int| 0 <= j < i ==> self.entries@[j].0@ != id@,
            decreases n - i,
        {
            if str_eq(self.entries[i].0.as_str(), id.as_str()) {
                proof {
                    lemma_map_of_update(self.entries@, i as int, (id, st));
                }
                self.entries[i] = (id, st);
                return ;
            }
            i += 1;
        }
        proof {
            lemma_map_of_push(self.entries@, (id, st));
        }
        self.entries.push((id, st));
    }

    /// Clears the update flag of `id` in place, leaving `error` untouched;
    /// does nothing when `id` is unknown.
    pub fn clear_update(&mut self, id: &str)
        requires
            old(self).wf(),
        ensures
            final(self).wf(),
            final(self)@ == spec_clear_update(old(self)@, id@),
    {
        let n = self.entries.len();
        let mut i: usize = 0;
        while i < n
            invariant
                n == self.entries@.len(),
                i <= n,
                entries_wf(self.entries@),
                self.entries@ == old(self).entries@,
                forall|j: int| 0 <= j < i ==> self.entries@[j].0@ != id@,
            decreases n - i,
        {
            if str_eq(self.entries[i].0.as_str(), id) {
                let key = self.entries[i].0.clone();
                let prev = self.entries[i].1;
                let cleared = TexState { update: false, error: prev.error };
                proof {
                    lemma_map_of_index(self.entries@, i as int);
                    lemma_map_of_update(self.entries@, i as int, (key, cleared));
                }
                self.entries[i] = (key, cleared);
                return ;
            }
            i += 1;
        }
        proof {
            lemma_map_of_contains(self.entries@, id@);
        }
    }
}

/// A source that was never built has no stored outcome: a lookup yields the
/// absent answer, never an error value.
pub proof fn lemma_unbuilt_source_absent(m: Map<Seq<char>, TexState>, id: Seq<char>)
    requires
        !m.contains_key(id),
    ensures
        spec_get(m, id) is None,
{
}

/// Clearing the update flag and then reading the state shows `update` false
/// with `error` unchanged for a known source; for an unknown source it
/// neither fails nor creates state, and every other source is untouched.
pub proof fn lemma_clear_then_get(m: Map<Seq<char>, TexState>, id: Seq<char>)
    ensures
        m.contains_key(id) ==> spec_get(spec_clear_update(m, id), id) == Some(
            TexState { update: false, error: m[id].error },
        ),
        !m.contains_key(id) ==> spec_clear_update(m, id) == m && spec_get(
            spec_clear_update(m, id),
            id,
        ) is None,
        forall|other: Seq<char>|
            other != id ==> spec_get(spec_clear_update(m, id), other) == spec_get(m, other),
{
}

/// Clearing the update flag twice in a row has the same effect as doing it
/// once.
pub proof fn lemma_clear_update_idempotent(m: Map<Seq<char>, TexState>, id: Seq<char>)
    ensures
        spec_clear_update(spec_clear_update(m, id), id) == spec_clear_update(m, id),
{
    if m.contains_key(id) {
        assert(spec_clear_update(spec_clear_update(m, id), id) =~= spec_clear_update(m, id));
    }
}

} // verus!
