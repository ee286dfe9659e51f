use commitlabs::time_lock::{ActionType, Error, TimelockContract, MAX_DELAY};

fn s(x: &str) -> String {
    x.to_string()
}

fn ready() -> TimelockContract {
    let mut t = TimelockContract::new();
    assert!(!t.is_initialized());
    t.initialize(s("admin"));
    assert!(t.is_initialized());
    t
}

#[test]
fn delays_per_action_type() {
    assert_eq!(TimelockContract::get_min_delay(ActionType::AdminChange), 172_800);
    assert_eq!(TimelockContract::get_min_delay(ActionType::ParameterChange), 86_400);
    assert_eq!(TimelockContract::get_min_delay(ActionType::Upgrade), 259_200);
    assert_eq!(TimelockContract::get_min_delay(ActionType::FeeChange), 86_400);
    assert_eq!(TimelockContract::get_max_delay(), 2_592_000);
    assert_eq!(MAX_DELAY, 30 * 86_400);
}

#[test]
fn queue_checks_the_delay_bounds() {
    let mut t = ready();
    assert_eq!(t.get_admin(), "admin");
    assert_eq!(
        t.queue_action_at(ActionType::Upgrade, s("core"), s("v2"), 259_199, 1_000),
        Err(Error::DelayTooShort)
    );
    assert_eq!(
        t.queue_action_at(ActionType::Upgrade, s("core"), s("v2"), MAX_DELAY + 1, 1_000),
        Err(Error::DelayTooLong)
    );
    assert_eq!(
        t.queue_action_at(ActionType::FeeChange, s("core"), s("fee"), 86_400, u64::MAX - 10),
        Err(Error::ArithmeticOverflow)
    );
    assert_eq!(t.get_action_count(), 0);
    assert_eq!(t.queue_action_at(ActionType::Upgrade, s("core"), s("v2"), 259_200, 1_000), Ok(1));
    assert_eq!(t.queue_action_at(ActionType::FeeChange, s("core"), s("fee"), MAX_DELAY, 1_000), Ok(2));
    assert_eq!(t.get_action_count(), 2);
    let a = t.get_action(1).unwrap();
    assert_eq!(a.id, 1);
    assert_eq!(a.queued_at, 1_000);
    assert_eq!(a.executable_at, 1_000 + 259_200);
    assert!(!a.executed && !a.cancelled);
    assert_eq!(t.get_action(3).err(), Some(Error::ActionNotFound));
    assert_eq!(t.get_action(0).err(), Some(Error::ActionNotFound));
}

#[test]
fn execute_waits_for_the_delay() {
    let mut t = ready();
    let id = t.queue_action_at(ActionType::ParameterChange, s("core"), s("p"), 86_400, 100).unwrap();
    assert_eq!(t.execute_action_at(id, 86_499), Err(Error::DelayNotMet));
    assert!(t.get_executable_actions_at(86_499).is_empty());
    assert_eq!(t.get_executable_actions_at(86_500), vec![id]);
    assert_eq!(t.execute_action_at(id, 86_500), Ok(()));
    assert!(t.get_action(id).unwrap().executed);
    assert_eq!(t.execute_action_at(id, 90_000), Err(Error::ActionAlreadyExecuted));
    assert_eq!(t.cancel_action(id), Err(Error::CannotCancelExecutedAction));
    assert_eq!(t.execute_action_at(7, 90_000), Err(Error::ActionNotFound));
}

#[test]
fn cancelled_actions_stay_cancelled() {
    let mut t = ready();
    let id = t.queue_action_at(ActionType::AdminChange, s("core"), s("a"), 172_800, 0).unwrap();
    assert_eq!(t.cancel_action(id), Ok(()));
    assert!(t.get_action(id).unwrap().cancelled);
    assert_eq!(t.cancel_action(id), Err(Error::ActionAlreadyCancelled));
    assert_eq!(t.execute_action_at(id, 10_000_000), Err(Error::ActionCancelled));
    assert!(t.get_pending_actions().is_empty());
    assert_eq!(t.cancel_action(2), Err(Error::ActionNotFound));
}

#[test]
fn action_listings() {
    let mut t = ready();
    let a = t.queue_action_at(ActionType::FeeChange, s("x"), s("1"), 86_400, 0).unwrap();
    let b = t.queue_action_at(ActionType::FeeChange, s("x"), s("2"), 90_000, 0).unwrap();
    let c = t.queue_action_at(ActionType::FeeChange, s("x"), s("3"), 86_400, 0).unwrap();
    t.cancel_action(b).unwrap();
    t.execute_action_at(c, 86_400).unwrap();
    assert_eq!(t.get_all_actions(), vec![a, b, c]);
    assert_eq!(t.get_pending_actions(), vec![a]);
    assert_eq!(t.get_executable_actions_at(86_400), vec![a]);
    assert!(t.get_executable_actions_at(86_399).is_empty());
}

#[test]
fn error_codes_count_from_one() {
    assert_eq!(Error::Unauthorized.code(), 1);
    assert_eq!(Error::DelayNotMet.code(), 5);
    assert_eq!(Error::ArithmeticOverflow.code(), 11);
    assert_eq!(ActionType::Upgrade.get_delay(), 259_200);
}
