//! One-time, memoizing resolution of addresses inside a module image, and
//! the signature tag a resolved address carries.

use vstd::prelude::*;
use crate::pattern::{PatternByte, is_first_match, no_match, scan};

verus! {

/// The broad shape of a native value, used to tag a resolved address with
/// the call signature its caller declared for it.
#[derive(Clone, Copy, PartialEq, Eq, Structural, Debug)]
pub enum ValueKind {
    Integer,
    Boolean,
    FloatingPoint,
}

/// A declared native call signature: parameter kinds and result kind. The
/// resolver records it but cannot check it against the real function; a
/// mismatch makes the eventual native call undefined, which is the caller's
/// contract, not a runtime-checked one.
#[derive(Debug)]
pub struct Signature {
    pub params: Vec<ValueKind>,
    pub ret: ValueKind,
}

/// An element-for-element copy of a list of value kinds.
fn clone_kinds(v: &Vec<ValueKind>) -> (r: Vec<ValueKind>)
    ensures
        r@ == v@,
{
    let mut r: Vec<ValueKind> = Vec::new();
    let mut i: usize = 0;
    while i < v.len()
        invariant
            i <= v@.len(),
            r@ == v@.subrange(0, i as int),
        decreases v@.len() - i,
    {
        r.push(v[i]);
        i = i + 1;
    }
    assert(r@ == v@);
    r
}

impl Clone for Signature {
    fn clone(&self) -> (r: Signature)
        ensures
            r.params@ == self.params@,
            r.ret == self.ret,
    {
        Signature { params: clone_kinds(&self.params), ret: self.ret }
    }
}

/// How an address is computed from the module image: by scanning for a byte
/// pattern, or as a fixed offset from the image base.
pub enum Procedure {
    Scan(Vec<PatternByte>),
    FixedOffset(usize),
}

/// A validated offset into the module image, tagged with the declared
/// native call signature.
pub struct ResolvedAddress {
    pub offset: usize,
    pub sig: Signature,
}

/// Resolution failed: the pattern occurs nowhere in the image, or the fixed
/// offset lies outside it.
#[derive(Clone, Copy, PartialEq, Eq, Structural, Debug)]
pub enum ResolveError {
    NotFound,
}

/// What a successful run of a resolution procedure yields on `image`.
pub open spec fn procedure_finds(p: Procedure, image: Seq<u8>, off: int) -> bool {
    match p {
        Procedure::Scan(pat) => is_first_match(image, pat@, off),
        Procedure::FixedOffset(o) => off == o && o < image.len(),
    }
}

/// The resolution procedure has no valid outcome on `image`.
pub open spec fn procedure_fails(p: Procedure, image: Seq<u8>) -> bool {
    match p {
        Procedure::Scan(pat) => no_match(image, pat@),
        Procedure::FixedOffset(o) => o >= image.len(),
    }
}

/// Where a resolver stands: the underlying lookup has not run yet, or it ran
/// once and its outcome — success or failure — is cached for good.
#[derive(Clone, Copy, PartialEq, Eq, Structural, Debug)]
pub enum ResolverState {
    Unresolved,
    Resolved(usize),
    Failed,
}

/// Wraps a resolution procedure behind one-time initialization: the first
/// request runs the underlying lookup and publishes its outcome, and every
/// later request returns that same outcome without looking again. A failed
/// resolution is cached too, so later requests fail consistently instead of
/// retrying with a null address.
pub struct LazyResolver {
    procedure: Procedure,
    sig: Signature,
    state: ResolverState,
    lookups: u64,
}

impl LazyResolver {
    /// The cached outcome, if any.
    pub closed spec fn state(self) -> ResolverState {
        self.state
    }

    /// How many times the underlying lookup has run.
    pub closed spec fn lookups(self) -> u64 {
        self.lookups
    }

    /// The resolution procedure this resolver wraps.
    pub closed spec fn procedure(self) -> Procedure {
        self.procedure
    }

    /// The declared signature of the function at the resolved address.
    pub closed spec fn sig(self) -> Signature {
        self.sig
    }

    /// The underlying lookup runs at most once: it has not run before the
    /// first request, and exactly once from then on.
    pub open spec fn wf(self) -> bool {
        &&& (self.state() is Unresolved <==> self.lookups() == 0)
        &&& (!(self.state() is Unresolved) <==> self.lookups() == 1)
    }

    /// How one `resolve` call may change the resolver: an uncached resolver
    /// runs the lookup once and caches its outcome; a cached one returns the
    /// cached outcome unchanged.
    pub open spec fn resolve_transition(
        pre: LazyResolver,
        image: Seq<u8>,
        post: LazyResolver,
        r: Result<usize, ResolveError>,
    ) -> bool {
        &&& post.procedure() == pre.procedure()
        &&& post.sig() == pre.sig()
        &&& match pre.state() {
            ResolverState::Resolved(a) => r == Ok::<usize, ResolveError>(a) && post == pre,
            ResolverState::Failed => r == Err::<usize, ResolveError>(ResolveError::NotFound)
                && post == pre,
            ResolverState::Unresolved => {
                &&& post.lookups() == pre.lookups() + 1
                &&& match r {
                    Ok(a) => procedure_finds(post.procedure(), image, a as int)
                        && post.state() == ResolverState::Resolved(a),
                    Err(e) => e == ResolveError::NotFound
                        && procedure_fails(post.procedure(), image)
                        && post.state() is Failed,
                }
            },
        }
    }

    /// A fresh resolver whose lookup has not run yet.
    pub fn new(procedure: Procedure, sig: Signature) -> (r: LazyResolver)
        ensures
            r.procedure() == procedure,
            r.sig() == sig,
            r.state() is Unresolved,
            r.lookups() == 0,
            r.wf(),
    {
        LazyResolver { procedure, sig, state: ResolverState::Unresolved, lookups: 0 }
    }

    /// Resolves against the module image: the first call runs the wrapped
    /// procedure and caches its outcome; every later call returns the cached
    /// outcome — the same address, or the same failure — without running the
    /// procedure again.
    pub fn resolve(&mut self, image: &Vec<u8>) -> (r: Result<usize, ResolveError>)
        requires
            old(self).wf(),
        ensures
            final(self).wf(),
            LazyResolver::resolve_transition(*old(self), image@, *final(self), r),
    {
        match self.state {
            ResolverState::Resolved(a) => Ok(a),
            ResolverState::Failed => Err(ResolveError::NotFound),
            ResolverState::Unresolved => {
                self.lookups = self.lookups + 1;
                let found = match &self.procedure {
                    Procedure::Scan(pat) => scan(image, pat),
                    Procedure::FixedOffset(o) => {
                        if *o < image.len() {
                            Some(*o)
                        } else {
                            None
                        }
                    },
                };
                match found {
                    Some(a) => {
                        self.state = ResolverState::Resolved(a);
                        Ok(a)
                    },
                    None => {
                        self.state = ResolverState::Failed;
                        Err(ResolveError::NotFound)
                    },
                }
            },
        }
    }

    /// The resolved address as a signature-tagged callable description, or
    /// `None` while no address is cached.
    pub fn resolved_address(&self) -> (r: Option<ResolvedAddress>)
        ensures
            match r {
                Some(ra) => self.state() == ResolverState::Resolved(ra.offset)
                    && ra.sig.params@ == self.sig().params@
                    && ra.sig.ret == self.sig().ret,
                None => !(self.state() is Resolved),
            },
    {
        match self.state {
            ResolverState::Resolved(a) => Some(ResolvedAddress { offset: a, sig: self.sig.clone() }),
            _ => None,
        }
    }

    /// How many times the underlying lookup has run, for observing that lazy
    /// resolution never runs it twice.
    pub fn lookup_count(&self) -> (r: u64)
        ensures
            r == self.lookups(),
    {
        self.lookups
    }

    /// Whether an address is cached.
    pub fn is_resolved(&self) -> (r: bool)
        ensures
            r == (self.state() is Resolved),
    {
        match self.state {
            ResolverState::Resolved(_) => true,
            _ => false,
        }
    }
}

/// Law: lazy resolution is idempotent. Once a resolver has answered one
/// request, every further request on the same image returns the very same
/// outcome and leaves the resolver untouched, and the underlying lookup has
/// run exactly once over the whole call sequence.
pub proof fn lemma_resolution_idempotent(
    s0: LazyResolver,
    image: Seq<u8>,
    s1: LazyResolver,
    r1: Result<usize, ResolveError>,
    s2: LazyResolver,
    r2: Result<usize, ResolveError>,
)
    requires
        s0.wf(),
        LazyResolver::resolve_transition(s0, image, s1, r1),
        LazyResolver::resolve_transition(s1, image, s2, r2),
    ensures
        r2 == r1,
        s2 == s1,
        s1.lookups() == 1,
        s2.lookups() == 1,
{
}

} // verus!
