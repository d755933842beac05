use hookbridge::bridge::{call_trampoline, intercepted_call, Effect, HostModel};
use hookbridge::engine::{Engine, InstallError, Policy, Replacement, PATCH_LEN};
use hookbridge::registry::{Callback, DispatchError, Registry};

const ORIGINAL: u64 = 42;

fn engine_with_one_site() -> (Engine, usize) {
    let mut engine = Engine::new();
    let addr = engine.add_site(16, true, ORIGINAL);
    (engine, addr)
}

#[test]
fn interception_replaces_behavior_and_trampoline_preserves_it() {
    // The original function returns a fixed constant; the replacement
    // suppresses it and synthesizes another value.
    let (mut engine, addr) = engine_with_one_site();
    let t = engine
        .install(addr, Replacement { hook: "fix".to_string(), policy: Policy::Suppress(7) })
        .unwrap();

    let mut reg = Registry::new();
    reg.register("fix".to_string(), Callback { id: 0 });
    let mut host = HostModel::new(1);

    // A call through the original call sites observes the replacement.
    assert_eq!(intercepted_call(&engine, &reg, &mut host, addr), Ok(7));
    // The trampoline still observes the original constant.
    assert_eq!(call_trampoline(&t, &mut host), ORIGINAL);
    assert_eq!(host.log, vec![Effect::Callback(0), Effect::Original(ORIGINAL)]);
}

#[test]
fn sites_are_addressed_in_the_order_they_are_added() {
    let mut engine = Engine::new();
    assert_eq!(engine.site_count(), 0);
    let a0 = engine.add_site(16, true, 1);
    let a1 = engine.add_site(16, true, 2);
    assert_eq!((a0, a1), (0, 1));
    assert_eq!(engine.site_count(), 2);
}

#[test]
fn uninstalled_site_runs_the_original() {
    let (engine, addr) = engine_with_one_site();
    let reg = Registry::new();
    let mut host = HostModel::new(0);
    assert_eq!(intercepted_call(&engine, &reg, &mut host, addr), Ok(ORIGINAL));
    assert_eq!(host.log, vec![Effect::Original(ORIGINAL)]);
}

#[test]
fn forward_policy_runs_callback_then_original_then_returns() {
    // A replacement that calls the trampoline before returning yields the
    // sequence callback effect, then original effect, then the return.
    let (mut engine, addr) = engine_with_one_site();
    engine
        .install(addr, Replacement { hook: "tap".to_string(), policy: Policy::Forward })
        .unwrap();
    let mut reg = Registry::new();
    reg.register("tap".to_string(), Callback { id: 0 });
    let mut host = HostModel::new(1);

    let r = intercepted_call(&engine, &reg, &mut host, addr);
    assert_eq!(r, Ok(ORIGINAL));
    assert_eq!(host.log, vec![Effect::Callback(0), Effect::Original(ORIGINAL)]);
    assert_eq!(host.counter(0), 1);
}

#[test]
fn dispatch_miss_inside_interception_aborts_the_call_path() {
    let (mut engine, addr) = engine_with_one_site();
    engine
        .install(addr, Replacement { hook: "gone".to_string(), policy: Policy::Forward })
        .unwrap();
    let reg = Registry::new();
    let mut host = HostModel::new(1);
    let r = intercepted_call(&engine, &reg, &mut host, addr);
    assert_eq!(r, Err(DispatchError::Miss));
    assert!(host.log.is_empty());
    assert_eq!(host.counter(0), 0);
}

#[test]
fn install_rejects_unwritable_page() {
    let mut engine = Engine::new();
    let addr = engine.add_site(16, false, ORIGINAL);
    let r = engine.install(addr, Replacement { hook: "h".to_string(), policy: Policy::Forward });
    assert_eq!(r.unwrap_err(), InstallError::NotWritable);
    assert!(!engine.is_intercepted(addr));
}

#[test]
fn install_rejects_entry_too_short_for_the_patch() {
    let mut engine = Engine::new();
    let addr = engine.add_site(PATCH_LEN - 1, true, ORIGINAL);
    let r = engine.install(addr, Replacement { hook: "h".to_string(), policy: Policy::Forward });
    assert_eq!(r.unwrap_err(), InstallError::InsufficientSpace);
    assert!(!engine.is_intercepted(addr));
}

#[test]
fn trampoline_bypasses_the_replacement() {
    let (mut engine, addr) = engine_with_one_site();
    let t = engine
        .install(addr, Replacement { hook: "h".to_string(), policy: Policy::Suppress(1) })
        .unwrap();
    let mut host = HostModel::new(0);
    // No hook dispatch happens on the trampoline path.
    assert_eq!(call_trampoline(&t, &mut host), ORIGINAL);
    assert_eq!(host.log, vec![Effect::Original(ORIGINAL)]);
}
