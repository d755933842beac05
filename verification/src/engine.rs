//! A model of the inline call-interception engine: function entry points of
//! a module image, installation of a replacement at an entry point, and the
//! trampoline that keeps the pre-interception behavior reachable.

use vstd::prelude::*;

verus! {

/// Bytes the control-transfer instruction needs at an entry point.
pub const PATCH_LEN: usize = 5;

/// What the replacement does once the hook callback has run: forward
/// through the trampoline to the original behavior, or suppress it and
/// return a synthesized result. The choice is a property of each installed
/// hook, not of the engine.
#[derive(Clone, Copy, PartialEq, Eq, Structural, Debug)]
pub enum Policy {
    Forward,
    Suppress(u64),
}

/// The replacement function installed at an intercepted entry point: on
/// every call it dispatches the named hook, then applies its policy.
pub struct Replacement {
    pub hook: String,
    pub policy: Policy,
}

/// The only remaining path to the pre-interception behavior of an
/// intercepted function: it replays the saved entry bytes and resumes the
/// rest of the original. `saved` is the original behavior it preserves.
#[derive(Clone, Copy, PartialEq, Eq, Structural, Debug)]
pub struct Trampoline {
    pub saved: u64,
}

/// An installed interception: the replacement now reached from the entry
/// point, together with the trampoline built from the saved entry.
pub struct Interception {
    pub replacement: Replacement,
    pub trampoline: Trampoline,
}

/// One function entry point in the model of the module's code region:
/// `behavior` is the value the original function computes, `entry_len` how
/// many bytes the entry offers before the first instruction that cannot be
/// relocated, and `writable` whether the OS grants write access to the page.
pub struct FnSite {
    pub entry_len: usize,
    pub writable: bool,
    pub behavior: u64,
    pub installed: Option<Interception>,
}

/// Installation failed; only the affected interception is abandoned.
#[derive(Clone, Copy, PartialEq, Eq, Structural, Debug)]
pub enum InstallError {
    /// The OS denied making the entry page writable.
    NotWritable,
    /// The entry offers too few bytes for the transfer instruction.
    InsufficientSpace,
}

/// A site's trampoline, if one is installed, preserves exactly the
/// original behavior of that site.
pub open spec fn site_ok(site: FnSite) -> bool {
    match site.installed {
        Option::Some(inter) => inter.trampoline.saved == site.behavior,
        Option::None => true,
    }
}

/// The interception engine over the function entry points of one module
/// image. Sites are addressed by index.
pub struct Engine {
    sites: Vec<FnSite>,
}

impl Engine {
    /// The modeled entry points.
    pub closed spec fn sites(self) -> Seq<FnSite> {
        self.sites@
    }

    /// Every installed trampoline preserves its site's original behavior.
    pub open spec fn wf(self) -> bool {
        forall|i: int| 0 <= i < self.sites().len() ==> site_ok(#[trigger] self.sites()[i])
    }

    /// An engine over no sites.
    pub fn new() -> (r: Engine)
        ensures
            r.wf(),
            r.sites() == Seq::<FnSite>::empty(),
    {
        Engine { sites: Vec::new() }
    }

    /// Adds one function entry point to the model and returns its address.
    pub fn add_site(&mut self, entry_len: usize, writable: bool, behavior: u64) -> (addr: usize)
        requires
            old(self).wf(),
        ensures
            final(self).wf(),
            addr == old(self).sites().len(),
            final(self).sites() == old(self).sites().push(
                FnSite { entry_len, writable, behavior, installed: Option::None },
            ),
    {
        let addr = self.sites.len();
        self.sites.push(FnSite { entry_len, writable, behavior, installed: Option::None });
        proof {
            assert forall|i: int| 0 <= i < self.sites().len() implies site_ok(
                #[trigger] self.sites()[i],
            ) by {
                if i < old(self).sites().len() {
                    assert(self.sites()[i] == old(self).sites()[i]);
                }
            }
        }
        addr
    }

    /// Installs `replacement` at the already-resolved address `addr`: saves
    /// the original entry, writes the control transfer, and returns the
    /// trampoline that still reaches the original behavior. Fails — leaving
    /// the site untouched — when the page cannot be made writable or the
    /// entry is too short for the transfer instruction. Installing twice on
    /// one address is unsupported and ruled out up front.
    pub fn install(&mut self, addr: usize, replacement: Replacement) -> (r: Result<
        Trampoline,
        InstallError,
    >)
        requires
            old(self).wf(),
            addr < old(self).sites().len(),
            old(self).sites()[addr as int].installed is None,
        ensures
            final(self).wf(),
            ({
                let s0 = old(self).sites()[addr as int];
                match r {
                    Ok(t) => {
                        &&& s0.writable
                        &&& s0.entry_len >= PATCH_LEN
                        &&& t.saved == s0.behavior
                        &&& final(self).sites() == old(self).sites().update(
                            addr as int,
                            FnSite {
                                entry_len: s0.entry_len,
                                writable: s0.writable,
                                behavior: s0.behavior,
                                installed: Option::Some(
                                    Interception { replacement, trampoline: t },
                                ),
                            },
                        )
                    },
                    Err(InstallError::NotWritable) => !s0.writable && final(self).sites()
                        == old(self).sites(),
                    Err(InstallError::InsufficientSpace) => s0.writable && s0.entry_len < PATCH_LEN
                        && final(self).sites() == old(self).sites(),
                }
            }),
    {
        let entry_len = self.sites[addr].entry_len;
        let writable = self.sites[addr].writable;
        let behavior = self.sites[addr].behavior;
        if !writable {
            return Err(InstallError::NotWritable);
        }
        if entry_len < PATCH_LEN {
            return Err(InstallError::InsufficientSpace);
        }
        let t = Trampoline { saved: behavior };
        self.sites[addr] = FnSite {
            entry_len,
            writable,
            behavior,
            installed: Option::Some(Interception { replacement, trampoline: t }),
        };
        proof {
            assert forall|i: int| 0 <= i < self.sites().len() implies site_ok(
                #[trigger] self.sites()[i],
            ) by {
                if i != addr as int {
                    assert(self.sites()[i] == old(self).sites()[i]);
                }
            }
        }
        Ok(t)
    }

    /// How many entry points the model holds.
    pub fn site_count(&self) -> (r: usize)
        ensures
            r == self.sites().len(),
    {
        self.sites.len()
    }

    /// The original behavior of the function at `addr`.
    pub fn behavior_of(&self, addr: usize) -> (r: u64)
        requires
            addr < self.sites().len(),
        ensures
            r == self.sites()[addr as int].behavior,
    {
        self.sites[addr].behavior
    }

    /// The interception installed at `addr`, if any.
    pub fn interception_at(&self, addr: usize) -> (r: &Option<Interception>)
        requires
            addr < self.sites().len(),
        ensures
            *r == self.sites()[addr as int].installed,
    {
        &self.sites[addr].installed
    }

    /// Whether calls to `addr` transfer to a replacement.
    pub fn is_intercepted(&self, addr: usize) -> (r: bool)
        requires
            addr < self.sites().len(),
        ensures
            r == (self.sites()[addr as int].installed is Some),
    {
        match &self.sites[addr].installed {
            Option::Some(_) => true,
            Option::None => false,
        }
    }
}

} // verus!
