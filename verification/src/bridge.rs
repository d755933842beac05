//! The dispatch bridge run by every replacement, together with a
//! deterministic host model that makes the bridge's effect ordering
//! provable and observable without the real interpreter.

use vstd::prelude::*;
use crate::engine::{Engine, FnSite, Policy, Trampoline};
use crate::registry::{Callback, DispatchError, Registry};

verus! {

/// An observable effect: a hook callback ran, or an original behavior ran.
#[derive(Clone, Copy, PartialEq, Eq, Structural, Debug)]
pub enum Effect {
    Callback(u64),
    Original(u64),
}

/// A deterministic stand-in for the embedded scripting host: the callable
/// behind handle `i` increments `counters[i]`, and every effect is appended
/// to `log` in the order it happens. The real host invokes script values
/// instead; this model gives the bridge something whose effects contracts
/// can speak about.
pub struct HostModel {
    pub counters: Vec<u64>,
    pub log: Vec<Effect>,
}

impl HostModel {
    /// Every callback counter is still below the machine limit.
    pub open spec fn counters_ok(self) -> bool {
        forall|i: int| 0 <= i < self.counters@.len() ==> #[trigger] self.counters@[i] < u64::MAX
    }

    /// A host that knows `n_callbacks` callables, none invoked yet.
    pub fn new(n_callbacks: usize) -> (r: HostModel)
        ensures
            r.counters@.len() == n_callbacks,
            forall|i: int| 0 <= i < n_callbacks ==> #[trigger] r.counters@[i] == 0,
            r.log@ == Seq::<Effect>::empty(),
            r.counters_ok(),
    {
        let mut counters: Vec<u64> = Vec::new();
        let mut i: usize = 0;
        while i < n_callbacks
            invariant
                i <= n_callbacks,
                counters@.len() == i,
                forall|k: int| 0 <= k < i ==> #[trigger] counters@[k] == 0,
            decreases n_callbacks - i,
        {
            counters.push(0);
            i = i + 1;
        }
        HostModel { counters, log: Vec::new() }
    }

    /// Invokes the callable behind `cb` synchronously: a handle the host
    /// knows bumps its counter and logs the effect; one it does not know
    /// raises, and the failure is reported to the caller, not swallowed.
    pub fn invoke(&mut self, cb: Callback) -> (r: Result<(), DispatchError>)
        requires
            old(self).counters_ok(),
        ensures
            cb.id < old(self).counters@.len() ==> r == Ok::<(), DispatchError>(())
                && final(self).counters@ == old(self).counters@.update(
                cb.id as int,
                (old(self).counters@[cb.id as int] + 1) as u64,
            ) && final(self).log@ == old(self).log@.push(Effect::Callback(cb.id)),
            cb.id >= old(self).counters@.len() ==> r == Err::<(), DispatchError>(
                DispatchError::CallbackFailure,
            ) && *final(self) == *old(self),
    {
        if cb.id < self.counters.len() as u64 {
            let i = cb.id as usize;
            let c = self.counters[i];
            self.counters[i] = c + 1;
            self.log.push(Effect::Callback(cb.id));
            Ok(())
        } else {
            Err(DispatchError::CallbackFailure)
        }
    }

    /// The invocation count of the callable behind handle `i`.
    pub fn counter(&self, i: usize) -> (r: u64)
        requires
            i < self.counters@.len(),
        ensures
            r == self.counters@[i as int],
    {
        self.counters[i]
    }
}

/// Invoking the trampoline executes the pre-interception behavior,
/// bypassing the replacement: the original effect is logged and its value
/// returned, and no hook dispatch happens on this path.
pub fn call_trampoline(t: &Trampoline, host: &mut HostModel) -> (r: u64)
    ensures
        r == t.saved,
        final(host).log@ == old(host).log@.push(Effect::Original(t.saved)),
        final(host).counters@ == old(host).counters@,
{
    host.log.push(Effect::Original(t.saved));
    t.saved
}

/// `run(name)`: the zero-argument hook invocation used for event-style
/// notifications. Looks `name` up and invokes the stored callback
/// synchronously on the calling thread. On a miss no callback runs and the
/// miss is reported; a failure the callback raises is propagated.
pub fn run_hook(reg: &Registry, host: &mut HostModel, name: &String) -> (r: Result<
    (),
    DispatchError,
>)
    requires
        reg.wf(),
        old(host).counters_ok(),
    ensures
        !reg.hooks().contains_key(name@) ==> r == Err::<(), DispatchError>(DispatchError::Miss)
            && *final(host) == *old(host),
        reg.hooks().contains_key(name@) ==> ({
            let cb = reg.hooks()[name@];
            &&& cb.id < old(host).counters@.len() ==> r == Ok::<(), DispatchError>(())
                && final(host).counters@ == old(host).counters@.update(
                cb.id as int,
                (old(host).counters@[cb.id as int] + 1) as u64,
            ) && final(host).log@ == old(host).log@.push(Effect::Callback(cb.id))
            &&& cb.id >= old(host).counters@.len() ==> r == Err::<(), DispatchError>(
                DispatchError::CallbackFailure,
            ) && *final(host) == *old(host)
        }),
{
    match reg.dispatch(name) {
        Ok(cb) => host.invoke(cb),
        Err(e) => Err(e),
    }
}

/// What one call arriving at `site` must have done to the host, given the
/// registered hooks: an unintercepted site runs its original behavior; an
/// intercepted one dispatches its hook's callback first and then — under
/// the forward policy — the original behavior through the trampoline,
/// strictly in that order, before the call returns; under the suppress
/// policy the original never runs and the synthesized value is returned. A
/// dispatch miss or a callback failure leaves the host untouched and aborts
/// only this call path.
pub open spec fn call_outcome(
    site: FnSite,
    hooks: Map<Seq<char>, Callback>,
    pre: HostModel,
    post: HostModel,
    r: Result<u64, DispatchError>,
) -> bool {
    match site.installed {
        Option::None => {
            &&& r == Ok::<u64, DispatchError>(site.behavior)
            &&& post.log@ == pre.log@.push(Effect::Original(site.behavior))
            &&& post.counters@ == pre.counters@
        },
        Option::Some(inter) => {
            let name = inter.replacement.hook@;
            if !hooks.contains_key(name) {
                r == Err::<u64, DispatchError>(DispatchError::Miss) && post == pre
            } else {
                let cb = hooks[name];
                if cb.id >= pre.counters@.len() {
                    r == Err::<u64, DispatchError>(DispatchError::CallbackFailure) && post == pre
                } else {
                    let bumped = pre.counters@.update(
                        cb.id as int,
                        (pre.counters@[cb.id as int] + 1) as u64,
                    );
                    match inter.replacement.policy {
                        Policy::Forward => {
                            &&& r == Ok::<u64, DispatchError>(site.behavior)
                            &&& post.log@ == pre.log@ + seq![
                                Effect::Callback(cb.id),
                                Effect::Original(site.behavior),
                            ]
                            &&& post.counters@ == bumped
                        },
                        Policy::Suppress(v) => {
                            &&& r == Ok::<u64, DispatchError>(v)
                            &&& post.log@ == pre.log@.push(Effect::Callback(cb.id))
                            &&& post.counters@ == bumped
                        },
                    }
                }
            }
        },
    }
}

/// One call arriving at the entry point `addr`, as the module's own call
/// sites would make it. If an interception is installed there, the call
/// transfers to the replacement, which runs the dispatch bridge; otherwise
/// the original behavior runs. The outcome — result, effect order, and
/// counter changes — is exactly `call_outcome`.
pub fn intercepted_call(engine: &Engine, reg: &Registry, host: &mut HostModel, addr: usize) -> (r:
    Result<u64, DispatchError>)
    requires
        engine.wf(),
        reg.wf(),
        old(host).counters_ok(),
        addr < engine.sites().len(),
    ensures
        call_outcome(engine.sites()[addr as int], reg.hooks(), *old(host), *final(host), r),
{
    let behavior = engine.behavior_of(addr);
    match engine.interception_at(addr) {
        Option::None => {
            host.log.push(Effect::Original(behavior));
            Ok(behavior)
        },
        Option::Some(inter) => {
            match reg.dispatch(&inter.replacement.hook) {
                Err(e) => Err(e),
                Ok(cb) => {
                    match host.invoke(cb) {
                        Err(e) => Err(e),
                        Ok(()) => {
                            match inter.replacement.policy {
                                Policy::Forward => {
                                    let ghost mid = *host;
                                    let v = call_trampoline(&inter.trampoline, host);
                                    proof {
                                        assert(host.log@ =~= old(host).log@ + seq![
                                            Effect::Callback(cb.id),
                                            Effect::Original(behavior),
                                        ]);
                                    }
                                    Ok(v)
                                },
                                Policy::Suppress(v) => Ok(v),
                            }
                        },
                    }
                },
            }
        },
    }
}

} // verus!
