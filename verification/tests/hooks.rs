use hookbridge::bridge::{run_hook, Effect, HostModel};
use hookbridge::registry::{Callback, DispatchError, Registry};

#[test]
fn register_last_write_wins() {
    let mut reg = Registry::new();
    let cb1 = Callback { id: 1 };
    let cb2 = Callback { id: 2 };
    reg.register("h".to_string(), cb1);
    reg.register("h".to_string(), cb2);
    // The dispatch yields cb2, never cb1.
    assert_eq!(reg.dispatch(&"h".to_string()), Ok(cb2));
}

#[test]
fn dispatch_missing_reports_miss() {
    let reg = Registry::new();
    assert_eq!(
        reg.dispatch(&"missing".to_string()),
        Err(DispatchError::Miss)
    );
}

#[test]
fn run_of_missing_hook_invokes_no_callback() {
    let mut reg = Registry::new();
    reg.register("present".to_string(), Callback { id: 0 });
    let mut host = HostModel::new(1);
    let r = run_hook(&reg, &mut host, &"missing".to_string());
    assert_eq!(r, Err(DispatchError::Miss));
    assert_eq!(host.counter(0), 0);
    assert!(host.log.is_empty());
}

#[test]
fn registrations_under_distinct_names_are_independent() {
    let mut reg = Registry::new();
    reg.register("a".to_string(), Callback { id: 10 });
    reg.register("b".to_string(), Callback { id: 20 });
    reg.register("a".to_string(), Callback { id: 30 });
    assert_eq!(reg.dispatch(&"a".to_string()), Ok(Callback { id: 30 }));
    assert_eq!(reg.dispatch(&"b".to_string()), Ok(Callback { id: 20 }));
    assert!(reg.is_registered(&"a".to_string()));
    assert!(!reg.is_registered(&"c".to_string()));
}

#[test]
fn tick_hook_counts_three_runs() {
    // Register hook "tick" with a callback that increments a counter, fire
    // it three times, and check that no other callback's state changed.
    let mut reg = Registry::new();
    reg.register("tick".to_string(), Callback { id: 0 });
    let mut host = HostModel::new(2);
    for _ in 0..3 {
        assert_eq!(run_hook(&reg, &mut host, &"tick".to_string()), Ok(()));
    }
    assert_eq!(host.counter(0), 3);
    assert_eq!(host.counter(1), 0);
    assert_eq!(
        host.log,
        vec![Effect::Callback(0), Effect::Callback(0), Effect::Callback(0)]
    );
}

#[test]
fn unknown_callback_handle_propagates_failure() {
    let mut reg = Registry::new();
    reg.register("h".to_string(), Callback { id: 42 });
    let mut host = HostModel::new(1);
    let r = run_hook(&reg, &mut host, &"h".to_string());
    assert_eq!(r, Err(DispatchError::CallbackFailure));
    assert_eq!(host.counter(0), 0);
    assert!(host.log.is_empty());
}
