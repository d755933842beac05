//! The process-wide callback registry: a mapping from hook names to stored
//! script-level callback handles, with register-or-replace and lookup.

use vstd::prelude::*;

verus! {

/// Handle to a callable value held by the embedded interpreter's own
/// registry mechanism. The library stores handles and hands them back;
/// invoking the callable behind a handle is the host's part.
#[derive(Clone, Copy, PartialEq, Eq, Structural, Debug)]
pub struct Callback {
    pub id: u64,
}

/// Why a dispatch did not run a callback to completion.
#[derive(Clone, Copy, PartialEq, Eq, Structural, Debug)]
pub enum DispatchError {
    /// No callback is registered under the dispatched name.
    Miss,
    /// The callback itself failed; the failure is propagated to the
    /// dispatching caller, not swallowed.
    CallbackFailure,
}

/// One registered hook: the name is the unique key.
pub struct HookEntry {
    pub name: String,
    pub cb: Callback,
}

/// The mapping a list of hook entries represents: each name to the callback
/// stored under it, later entries shadowing earlier ones.
pub open spec fn entries_map(s: Seq<HookEntry>) -> Map<Seq<char>, Callback>
    decreases s.len(),
{
    if s.len() == 0 {
        Map::empty()
    } else {
        entries_map(s.drop_last()).insert(s.last().name@, s.last().cb)
    }
}

/// No two entries share a name.
pub open spec fn unique_names(s: Seq<HookEntry>) -> bool {
    forall|i: int, j: int| 0 <= i < j < s.len() ==> s[i].name@ != s[j].name@
}

proof fn lemma_map_push(s: Seq<HookEntry>, e: HookEntry)
    ensures
        entries_map(s.push(e)) == entries_map(s).insert(e.name@, e.cb),
{
    assert(s.push(e).drop_last() =~= s);
}

proof fn lemma_map_update(s: Seq<HookEntry>, i: int, e: HookEntry)
    requires
        unique_names(s),
        0 <= i < s.len(),
        e.name@ == s[i].name@,
    ensures
        entries_map(s.update(i, e)) == entries_map(s).insert(e.name@, e.cb),
    decreases s.len(),
{
    let u = s.update(i, e);
    if i == s.len() - 1 {
        assert(u.drop_last() =~= s.drop_last());
        assert(u.last() == e);
        assert(entries_map(s).insert(e.name@, e.cb) =~= entries_map(s.drop_last()).insert(
            e.name@,
            e.cb,
        ));
    } else {
        assert(u.drop_last() =~= s.drop_last().update(i, e));
        assert(u.last() == s.last());
        lemma_map_update(s.drop_last(), i, e);
        assert(s[i].name@ != s.last().name@);
        assert(entries_map(s.drop_last()).insert(e.name@, e.cb).insert(
            s.last().name@,
            s.last().cb,
        ) =~= entries_map(s.drop_last()).insert(s.last().name@, s.last().cb).insert(
            e.name@,
            e.cb,
        ));
    }
}

proof fn lemma_map_index(s: Seq<HookEntry>, i: int)
    requires
        unique_names(s),
        0 <= i < s.len(),
    ensures
        entries_map(s).contains_key(s[i].name@),
        entries_map(s)[s[i].name@] == s[i].cb,
    decreases s.len(),
{
    if i < s.len() - 1 {
        assert(s[i].name@ != s.last().name@);
        lemma_map_index(s.drop_last(), i);
    }
}

proof fn lemma_map_absent(s: Seq<HookEntry>, n: Seq<char>)
    requires
        forall|i: int| 0 <= i < s.len() ==> s[i].name@ != n,
    ensures
        !entries_map(s).contains_key(n),
    decreases s.len(),
{
    if s.len() > 0 {
        lemma_map_absent(s.drop_last(), n);
    }
}

/// The registry of named hooks. One shared value of it, behind the host's
/// mutual-exclusion lock, serves the whole process; the library itself holds
/// no ambient state.
pub struct Registry {
    entries: Vec<HookEntry>,
}

impl Registry {
    /// The mapping this registry represents: each registered name to the
    /// callback most recently stored under it.
    pub closed spec fn hooks(self) -> Map<Seq<char>, Callback> {
        entries_map(self.entries@)
    }

    /// Internal invariant: names are unique keys.
    pub closed spec fn wf(self) -> bool {
        unique_names(self.entries@)
    }

    /// An empty registry: no hook is registered.
    pub fn new() -> (r: Registry)
        ensures
            r.wf(),
            r.hooks() == Map::<Seq<char>, Callback>::empty(),
    {
        Registry { entries: Vec::new() }
    }

    /// Stores `cb` under `name`, replacing any callback registered under the
    /// same name before: the last writer wins. The effect is visible to every
    /// later dispatch. A name must be non-empty.
    pub fn register(&mut self, name: String, cb: Callback)
        requires
            old(self).wf(),
            name@.len() > 0,
        ensures
            final(self).wf(),
            final(self).hooks() == old(self).hooks().insert(name@, cb),
    {
        let mut i: usize = 0;
        while i < self.entries.len()
            invariant
                self.entries@ == old(self).entries@,
                unique_names(old(self).entries@),
                i <= old(self).entries@.len(),
                forall|k: int| 0 <= k < i ==> old(self).entries@[k].name@ != name@,
            decreases old(self).entries@.len() - i,
        {
            let ghost s0 = old(self).entries@;
            if self.entries[i].name == name {
                let e = HookEntry { name, cb };
                let ghost ge = e;
                proof {
                    lemma_map_update(s0, i as int, ge);
                }
                self.entries[i] = e;
                proof {
                    assert(self.entries@ == s0.update(i as int, ge));
                    assert forall|p: int, q: int|
                        0 <= p < q < self.entries@.len() implies self.entries@[p].name@
                        != self.entries@[q].name@ by {
                        assert(s0[p].name@ != s0[q].name@);
                    }
                }
                return;
            }
            i = i + 1;
        }
        let e = HookEntry { name, cb };
        proof {
            lemma_map_push(self.entries@, e);
        }
        self.entries.push(e);
    }

    /// Looks `name` up: the callback most recently registered under it, or
    /// `Miss` — and only `Miss` — exactly when no registration for `name`
    /// has happened. Invoking the returned handle is the caller's step, so a
    /// miss cannot have invoked anything.
    pub fn dispatch(&self, name: &String) -> (r: Result<Callback, DispatchError>)
        requires
            self.wf(),
        ensures
            match r {
                Ok(cb) => self.hooks().contains_key(name@) && self.hooks()[name@] == cb,
                Err(e) => e == DispatchError::Miss && !self.hooks().contains_key(name@),
            },
    {
        let mut i: usize = 0;
        while i < self.entries.len()
            invariant
                self.wf(),
                i <= self.entries@.len(),
                forall|k: int| 0 <= k < i ==> self.entries@[k].name@ != name@,
            decreases self.entries@.len() - i,
        {
            if self.entries[i].name == *name {
                proof {
                    lemma_map_index(self.entries@, i as int);
                }
                return Ok(self.entries[i].cb);
            }
            i = i + 1;
        }
        proof {
            lemma_map_absent(self.entries@, name@);
        }
        Err(DispatchError::Miss)
    }

    /// Whether a callback is registered under `name`.
    pub fn is_registered(&self, name: &String) -> (r: bool)
        requires
            self.wf(),
        ensures
            r == self.hooks().contains_key(name@),
    {
        match self.dispatch(name) {
            Ok(_) => true,
            Err(_) => false,
        }
    }
}

/// Law: the last writer wins. Registering `c1` and then `c2` under the same
/// name leaves the registry exactly as registering `c2` alone would have,
/// and a dispatch of that name yields `c2`, never `c1`.
pub proof fn lemma_last_writer_wins(
    m: Map<Seq<char>, Callback>,
    name: Seq<char>,
    c1: Callback,
    c2: Callback,
)
    ensures
        m.insert(name, c1).insert(name, c2) == m.insert(name, c2),
        m.insert(name, c1).insert(name, c2)[name] == c2,
{
    assert(m.insert(name, c1).insert(name, c2) =~= m.insert(name, c2));
}

} // verus!
