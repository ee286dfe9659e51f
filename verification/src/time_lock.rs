//! Timelock governance: the admin queues actions that may run only after an
//! action-specific minimum delay; anyone may then execute them, and the admin
//! may cancel them until they run.

use vstd::prelude::*;
use soroban_sdk::Env;
use crate::time::TimeUtils;

verus! {

/// Maximum delay allowed (30 days in seconds).
pub const MAX_DELAY: u64 = 2592000;

/// The classes of governance action the timelock accepts.
#[derive(Clone, Copy, Debug, PartialEq, Eq, Structural)]
pub enum ActionType {
    AdminChange,
    ParameterChange,
    Upgrade,
    FeeChange,
}

impl ActionType {
    pub open spec fn spec_delay(self) -> u64 {
        match self {
            ActionType::AdminChange => 172800,
            ActionType::ParameterChange => 86400,
            ActionType::Upgrade => 259200,
            ActionType::FeeChange => 86400,
        }
    }

    /// The minimum execution delay of this action type, in seconds.
    pub fn get_delay(&self) -> (d: u64)
        ensures
            d == self.spec_delay(),
    {
        match self {
            ActionType::AdminChange => 172800,
            ActionType::ParameterChange => 86400,
            ActionType::Upgrade => 259200,
            ActionType::FeeChange => 86400,
        }
    }
}

/// A queued action and its lifecycle flags.
pub struct QueuedAction {
    pub id: u64,
    pub action_type: ActionType,
    pub target: String,
    pub data: String,
    pub queued_at: u64,
    pub executable_at: u64,
    pub executed: bool,
    pub cancelled: bool,
}

impl Clone for QueuedAction {
    fn clone(&self) -> (r: Self)
        ensures
            r == *self,
    {
        QueuedAction {
            id: self.id,
            action_type: self.action_type,
            target: self.target.clone(),
            data: self.data.clone(),
            queued_at: self.queued_at,
            executable_at: self.executable_at,
            executed: self.executed,
            cancelled: self.cancelled,
        }
    }
}

/// Errors returned by the timelock contract.
#[derive(Copy, Clone, Debug, PartialEq, Eq, Structural, PartialOrd, Ord)]
pub enum Error {
    Unauthorized,
    ActionNotFound,
    ActionAlreadyExecuted,
    ActionCancelled,
    DelayNotMet,
    DelayTooShort,
    DelayTooLong,
    ActionAlreadyCancelled,
    CannotCancelExecutedAction,
    InvalidActionType,
    ArithmeticOverflow,
}

impl Error {
    pub open spec fn spec_code(self) -> u32 {
        match self {
            Error::Unauthorized => 1,
            Error::ActionNotFound => 2,
            Error::ActionAlreadyExecuted => 3,
            Error::ActionCancelled => 4,
            Error::DelayNotMet => 5,
            Error::DelayTooShort => 6,
            Error::DelayTooLong => 7,
            Error::ActionAlreadyCancelled => 8,
            Error::CannotCancelExecutedAction => 9,
            Error::InvalidActionType => 10,
            Error::ArithmeticOverflow => 11,
        }
    }

    /// The contract error code of this error.
    pub fn code(&self) -> (c: u32)
        ensures
            c == self.spec_code(),
    {
        match self {
            Error::Unauthorized => 1,
            Error::ActionNotFound => 2,
            Error::ActionAlreadyExecuted => 3,
            Error::ActionCancelled => 4,
            Error::DelayNotMet => 5,
            Error::DelayTooShort => 6,
            Error::DelayTooLong => 7,
            Error::ActionAlreadyCancelled => 8,
            Error::CannotCancelExecutedAction => 9,
            Error::InvalidActionType => 10,
            Error::ArithmeticOverflow => 11,
        }
    }
}

/// Where the timelock keeps each part of its state.
#[derive(Clone, Copy, Debug, PartialEq, Eq, Structural)]
pub enum StorageKey {
    Admin,
    ActionCounter,
    Action(u64),
    ActionIds,
}

/// The timelock's state: its admin, and every action ever queued, the action
/// with id `i` at position `i - 1`.
pub struct TimelockContract {
    pub admin: Option<String>,
    pub actions: Vec<QueuedAction>,
}

/// The ids `1..=n` in order.
pub open spec fn ids_upto(n: nat) -> Seq<u64> {
    Seq::new(n, |i: int| (i + 1) as u64)
}

/// The ids, in order, of the actions in `s` that satisfy `keep`.
pub open spec fn ids_where(s: Seq<QueuedAction>, keep: spec_fn(QueuedAction) -> bool) -> Seq<u64>
    decreases s.len(),
{
    if s.len() == 0 {
        Seq::empty()
    } else {
        let rest = ids_where(s.drop_last(), keep);
        if keep(s.last()) {
            rest.push(s.last().id)
        } else {
            rest
        }
    }
}

/// Neither executed nor cancelled.
pub open spec fn is_pending(a: QueuedAction) -> bool {
    !a.executed && !a.cancelled
}

/// Pending and due at time `now`.
pub open spec fn is_executable(a: QueuedAction, now: u64) -> bool {
    is_pending(a) && now >= a.executable_at
}

/// The ids, in order, of the actions in `s` that are pending and due at
/// time `now`.
pub open spec fn executable_ids(s: Seq<QueuedAction>, now: u64) -> Seq<u64> {
    ids_where(s, |a: QueuedAction| is_executable(a, now))
}

impl TimelockContract {
    /// The state is consistent: action `i` has id `i + 1`, no action is both
    /// executed and cancelled, every action became due no earlier than it was
    /// queued, and ids fit in the counter.
    pub open spec fn wf(&self) -> bool {
        &&& self.actions@.len() <= u64::MAX
        &&& forall|i: int| 0 <= i < self.actions@.len() ==> {
            &&& #[trigger] self.actions@[i].id == i + 1
            &&& !(self.actions@[i].executed && self.actions@[i].cancelled)
            &&& self.actions@[i].queued_at <= self.actions@[i].executable_at
        }
    }

    pub open spec fn initialized(&self) -> bool {
        self.admin is Some
    }

    /// The action with id `id`, if any.
    pub open spec fn action(&self, id: u64) -> Option<QueuedAction> {
        if 1 <= id <= self.actions@.len() {
            Some(self.actions@[id - 1])
        } else {
            None
        }
    }

    /// `self` evolves into `next` as the timelock allows: actions are only
    /// appended, recorded fields never change, and the executed and cancelled
    /// flags are only ever set, never cleared.
    pub open spec fn evolves_to(&self, next: &Self) -> bool {
        &&& self.admin == next.admin
        &&& self.actions@.len() <= next.actions@.len()
        &&& forall|i: int| 0 <= i < self.actions@.len() ==> {
            let a = #[trigger] self.actions@[i];
            let b = next.actions@[i];
            &&& b.id == a.id
            &&& b.action_type == a.action_type
            &&& b.target == a.target
            &&& b.data == a.data
            &&& b.queued_at == a.queued_at
            &&& b.executable_at == a.executable_at
            &&& (a.executed ==> b.executed)
            &&& (a.cancelled ==> b.cancelled)
        }
    }

    /// A timelock with no admin and no actions.
    pub fn new() -> (s: Self)
        ensures
            s.wf(),
            !s.initialized(),
            s.actions@.len() == 0,
    {
        TimelockContract { admin: None, actions: Vec::new() }
    }

    /// Whether an admin has been set.
    pub fn is_initialized(&self) -> (r: bool)
        ensures
            r == self.initialized(),
    {
        self.admin.is_some()
    }

    /// Sets the admin, once.
    pub fn initialize(&mut self, admin: String)
        requires
            old(self).wf(),
            !old(self).initialized(),
        ensures
            final(self).wf(),
            final(self).admin == Some(admin),
            final(self).actions@ == old(self).actions@,
    {
        self.admin = Some(admin);
    }

    /// What queueing an action at time `now` does: the delay must lie between
    /// the action type's minimum and `MAX_DELAY`, and the id and the due time
    /// must not overflow; the action is then appended with the next id.
    pub open spec fn queue_outcome(
        &self,
        next: &Self,
        action_type: ActionType,
        target: String,
        data: String,
        delay: u64,
        now: u64,
        r: Result<u64, Error>,
    ) -> bool {
        &&& delay < action_type.spec_delay() ==> r == Err::<u64, Error>(Error::DelayTooShort)
        &&& action_type.spec_delay() <= delay && delay > MAX_DELAY ==> r == Err::<u64, Error>(
            Error::DelayTooLong,
        )
        &&& action_type.spec_delay() <= delay <= MAX_DELAY && (self.actions@.len() == u64::MAX || now
            + delay > u64::MAX) ==> r == Err::<u64, Error>(Error::ArithmeticOverflow)
        &&& r is Err ==> *next == *self
        &&& r is Ok <==> action_type.spec_delay() <= delay <= MAX_DELAY && self.actions@.len()
            < u64::MAX && now + delay <= u64::MAX
        &&& r matches Ok(id) ==> {
            &&& id == self.actions@.len() + 1
            &&& next.actions@ == self.actions@.push(
                QueuedAction {
                    id,
                    action_type,
                    target,
                    data,
                    queued_at: now,
                    executable_at: (now + delay) as u64,
                    executed: false,
                    cancelled: false,
                },
            )
            &&& next.admin == self.admin
        }
    }

    /// Queues an action at time `now` to become executable `delay` seconds
    /// later, and returns its id.
    #[verifier::spinoff_prover]
    pub fn queue_action_at(
        &mut self,
        action_type: ActionType,
        target: String,
        data: String,
        delay: u64,
        now: u64,
    ) -> (r: Result<u64, Error>)
        requires
            old(self).wf(),
            old(self).initialized(),
        ensures
            final(self).wf(),
            old(self).evolves_to(&*final(self)),
            old(self).queue_outcome(&*final(self), action_type, target, data, delay, now, r),
    {
        let min_delay = action_type.get_delay();
        if delay < min_delay {
            return Err(Error::DelayTooShort);
        }
        if delay > MAX_DELAY {
            return Err(Error::DelayTooLong);
        }
        let count = self.actions.len() as u64;
        let id = match count.checked_add(1) {
            Some(c) => c,
            None => return Err(Error::ArithmeticOverflow),
        };
        let executable_at = match now.checked_add(delay) {
            Some(t) => t,
            None => return Err(Error::ArithmeticOverflow),
        };
        let action = QueuedAction {
            id,
            action_type,
            target,
            data,
            queued_at: now,
            executable_at,
            executed: false,
            cancelled: false,
        };
        self.actions.push(action);
        Ok(id)
    }

    /// Queues an action at the current ledger time to become executable
    /// `delay` seconds later, and returns its id.
    pub fn queue_action(
        &mut self,
        e: &Env,
        action_type: ActionType,
        target: String,
        data: String,
        delay: u64,
    ) -> (r: Result<u64, Error>)
        requires
            old(self).wf(),
            old(self).initialized(),
        ensures
            final(self).wf(),
            old(self).evolves_to(&*final(self)),
            exists|now: u64| old(self).queue_outcome(&*final(self), action_type, target, data, delay, now, r),
    {
        let now = TimeUtils::now(e);
        let ghost (tg, dt) = (target, data);
        let r = self.queue_action_at(action_type, target, data, delay, now);
        assert(old(self).queue_outcome(&*self, action_type, tg, dt, delay, now, r));
        r
    }

    /// What executing action `action_id` at time `now` does: a pending action
    /// that is due becomes executed; anything else is refused, and why.
    pub open spec fn execute_outcome(&self, next: &Self, action_id: u64, now: u64, r: Result<(), Error>) -> bool {
        &&& next.actions@.len() == self.actions@.len()
        &&& self.action(action_id) is None ==> r == Err::<(), Error>(Error::ActionNotFound)
        &&& self.action(action_id) matches Some(a) ==> {
            &&& a.executed ==> r == Err::<(), Error>(Error::ActionAlreadyExecuted)
            &&& !a.executed && a.cancelled ==> r == Err::<(), Error>(Error::ActionCancelled)
            &&& is_pending(a) && now < a.executable_at ==> r == Err::<(), Error>(
                Error::DelayNotMet,
            )
            &&& is_executable(a, now) ==> r is Ok
        }
        &&& r is Err ==> *next == *self
        &&& r is Ok ==> next.actions@ == self.actions@.update(
            action_id - 1,
            QueuedAction { executed: true, ..self.actions@[action_id - 1] },
        ) && next.admin == self.admin
    }

    /// Executes action `action_id` at time `now`; anyone may do so once its
    /// delay has elapsed.
    pub fn execute_action_at(&mut self, action_id: u64, now: u64) -> (r: Result<(), Error>)
        requires
            old(self).wf(),
        ensures
            final(self).wf(),
            old(self).evolves_to(&*final(self)),
            old(self).execute_outcome(&*final(self), action_id, now, r),
    {
        if action_id == 0 || action_id > self.actions.len() as u64 {
            return Err(Error::ActionNotFound);
        }
        let idx = (action_id - 1) as usize;
        let mut action = self.actions[idx].clone();
        if action.executed {
            return Err(Error::ActionAlreadyExecuted);
        }
        if action.cancelled {
            return Err(Error::ActionCancelled);
        }
        if now < action.executable_at {
            return Err(Error::DelayNotMet);
        }
        action.executed = true;
        self.actions.set(idx, action);
        Ok(())
    }

    /// Executes action `action_id` at the current ledger time; anyone may do
    /// so once its delay has elapsed.
    pub fn execute_action(&mut self, e: &Env, action_id: u64) -> (r: Result<(), Error>)
        requires
            old(self).wf(),
        ensures
            final(self).wf(),
            old(self).evolves_to(&*final(self)),
            exists|now: u64| old(self).execute_outcome(&*final(self), action_id, now, r),
    {
        let now = TimeUtils::now(e);
        let r = self.execute_action_at(action_id, now);
        assert(old(self).execute_outcome(&*self, action_id, now, r));
        r
    }

    /// Cancels action `action_id`; only possible before it is executed.
    #[verifier::spinoff_prover]
    pub fn cancel_action(&mut self, action_id: u64) -> (r: Result<(), Error>)
        requires
            old(self).wf(),
        ensures
            final(self).wf(),
            old(self).evolves_to(&*final(self)),
            final(self).actions@.len() == old(self).actions@.len(),
            old(self).action(action_id) is None ==> r == Err::<(), Error>(Error::ActionNotFound),
            old(self).action(action_id) matches Some(a) ==> {
                &&& a.executed ==> r == Err::<(), Error>(Error::CannotCancelExecutedAction)
                &&& !a.executed && a.cancelled ==> r == Err::<(), Error>(
                    Error::ActionAlreadyCancelled,
                )
                &&& is_pending(a) ==> r is Ok
            },
            r is Err ==> *final(self) == *old(self),
            r is Ok ==> final(self).actions@ == old(self).actions@.update(
                action_id - 1,
                QueuedAction { cancelled: true, ..old(self).actions@[action_id - 1] },
            ),
    {
        if action_id == 0 || action_id > self.actions.len() as u64 {
            return Err(Error::ActionNotFound);
        }
        let idx = (action_id - 1) as usize;
        let mut action = self.actions[idx].clone();
        if action.executed {
            return Err(Error::CannotCancelExecutedAction);
        }
        if action.cancelled {
            return Err(Error::ActionAlreadyCancelled);
        }
        action.cancelled = true;
        self.actions.set(idx, action);
        assert forall|i: int| 0 <= i < self.actions@.len() implies {
            &&& #[trigger] self.actions@[i].id == i + 1
            &&& !(self.actions@[i].executed && self.actions@[i].cancelled)
            &&& self.actions@[i].queued_at <= self.actions@[i].executable_at
        } by {
            assert(old(self).actions@[i].id == i + 1);
        }
        Ok(())
    }

    /// The action with id `action_id`.
    pub fn get_action(&self, action_id: u64) -> (r: Result<QueuedAction, Error>)
        requires
            self.wf(),
        ensures
            self.action(action_id) matches Some(a) ==> r == Ok::<QueuedAction, Error>(a),
            self.action(action_id) is None ==> r == Err::<QueuedAction, Error>(
                Error::ActionNotFound,
            ),
    {
        if action_id == 0 || action_id > self.actions.len() as u64 {
            return Err(Error::ActionNotFound);
        }
        Ok(self.actions[(action_id - 1) as usize].clone())
    }

    /// The ids of all actions ever queued, in order.
    pub fn get_all_actions(&self) -> (ids: Vec<u64>)
        requires
            self.wf(),
        ensures
            ids@ == ids_upto(self.actions@.len()),
    {
        let mut ids: Vec<u64> = Vec::new();
        let mut i: usize = 0;
        while i < self.actions.len()
            invariant
                self.wf(),
                0 <= i <= self.actions@.len(),
                ids@ == ids_upto(i as nat),
            decreases self.actions@.len() - i,
        {
            ids.push(self.actions[i].id);
            assert(ids@ =~= ids_upto((i + 1) as nat));
            i = i + 1;
        }
        ids
    }

    /// The ids of the actions neither executed nor cancelled, in order.
    pub fn get_pending_actions(&self) -> (ids: Vec<u64>)
        requires
            self.wf(),
        ensures
            ids@ == ids_where(self.actions@, |a: QueuedAction| is_pending(a)),
    {
        let ghost keep = |a: QueuedAction| is_pending(a);
        let mut ids: Vec<u64> = Vec::new();
        let mut i: usize = 0;
        while i < self.actions.len()
            invariant
                0 <= i <= self.actions@.len(),
                keep == (|a: QueuedAction| is_pending(a)),
                ids@ == ids_where(self.actions@.take(i as int), keep),
            decreases self.actions@.len() - i,
        {
            let a = &self.actions[i];
            assert(self.actions@.take(i + 1).drop_last() =~= self.actions@.take(i as int));
            if !a.executed && !a.cancelled {
                ids.push(a.id);
            }
            i = i + 1;
        }
        assert(self.actions@.take(i as int) =~= self.actions@);
        ids
    }

    /// The ids of the pending actions that are due at time `now`, in order.
    pub fn get_executable_actions_at(&self, now: u64) -> (ids: Vec<u64>)
        requires
            self.wf(),
        ensures
            ids@ == executable_ids(self.actions@, now),
    {
        let ghost keep = |a: QueuedAction| is_executable(a, now);
        let mut ids: Vec<u64> = Vec::new();
        let mut i: usize = 0;
        while i < self.actions.len()
            invariant
                0 <= i <= self.actions@.len(),
                keep == (|a: QueuedAction| is_executable(a, now)),
                ids@ == ids_where(self.actions@.take(i as int), keep),
            decreases self.actions@.len() - i,
        {
            let a = &self.actions[i];
            assert(self.actions@.take(i + 1).drop_last() =~= self.actions@.take(i as int));
            if !a.executed && !a.cancelled && now >= a.executable_at {
                ids.push(a.id);
            }
            i = i + 1;
        }
        assert(self.actions@.take(i as int) =~= self.actions@);
        ids
    }

    /// The ids of the pending actions that are due at the current ledger
    /// time, in order.
    pub fn get_executable_actions(&self, e: &Env) -> (ids: Vec<u64>)
        requires
            self.wf(),
        ensures
            exists|now: u64| ids@ == #[trigger] executable_ids(self.actions@, now),
    {
        let now = TimeUtils::now(e);
        self.get_executable_actions_at(now)
    }

    /// The admin.
    pub fn get_admin(&self) -> (a: String)
        requires
            self.initialized(),
        ensures
            Some(a) == self.admin,
    {
        match &self.admin {
            Some(a) => a.clone(),
            None => String::new(),
        }
    }

    /// The minimum delay of `action_type`, in seconds.
    pub fn get_min_delay(action_type: ActionType) -> (d: u64)
        ensures
            d == action_type.spec_delay(),
    {
        action_type.get_delay()
    }

    /// The largest delay an action may be queued with, in seconds.
    pub fn get_max_delay() -> (d: u64)
        ensures
            d == MAX_DELAY,
    {
        MAX_DELAY
    }

    /// How many actions have ever been queued.
    pub fn get_action_count(&self) -> (n: u64)
        requires
            self.wf(),
        ensures
            n == self.actions@.len(),
    {
        self.actions.len() as u64
    }
}

/// A cancelled action stays cancelled and is never executed, however the
/// timelock evolves.
pub proof fn law_cancelled_is_final(before: TimelockContract, after: TimelockContract, i: int)
    requires
        before.wf(),
        after.wf(),
        before.evolves_to(&after),
        0 <= i < before.actions@.len(),
        before.actions@[i].cancelled,
    ensures
        after.actions@[i].cancelled,
        !after.actions@[i].executed,
{
    assert(before.actions@[i].cancelled ==> after.actions@[i].cancelled);
}

/// An executed action stays executed and is never cancelled, however the
/// timelock evolves.
pub proof fn law_executed_is_final(before: TimelockContract, after: TimelockContract, i: int)
    requires
        before.wf(),
        after.wf(),
        before.evolves_to(&after),
        0 <= i < before.actions@.len(),
        before.actions@[i].executed,
    ensures
        after.actions@[i].executed,
        !after.actions@[i].cancelled,
{
    assert(before.actions@[i].executed ==> after.actions@[i].executed);
}

/// The timelock's evolution is transitive, so the two laws above hold across
/// any sequence of operations.
pub proof fn law_evolution_composes(a: TimelockContract, b: TimelockContract, c: TimelockContract)
    requires
        a.evolves_to(&b),
        b.evolves_to(&c),
    ensures
        a.evolves_to(&c),
{
    assert forall|i: int| 0 <= i < a.actions@.len() implies {
        let x = #[trigger] a.actions@[i];
        let z = c.actions@[i];
        &&& z.id == x.id
        &&& z.action_type == x.action_type
        &&& z.target == x.target
        &&& z.data == x.data
        &&& z.queued_at == x.queued_at
        &&& z.executable_at == x.executable_at
        &&& (x.executed ==> z.executed)
        &&& (x.cancelled ==> z.cancelled)
    } by {
        assert(b.actions@[i] == b.actions@[i]);
    }
}

/// An action runs only once its delay has passed: a successful execution at
/// time `now` found the action pending with `now` at or after its
/// `executable_at`, and a pending action executed earlier is refused with
/// `DelayNotMet`.
pub proof fn law_execute_waits_for_delay(
    s: TimelockContract,
    next: TimelockContract,
    action_id: u64,
    now: u64,
    r: Result<(), Error>,
)
    requires
        s.execute_outcome(&next, action_id, now, r),
    ensures
        r is Ok ==> (s.action(action_id) matches Some(a) && !a.executed && !a.cancelled && now >= a.executable_at),
        (s.action(action_id) matches Some(a) && !a.executed && !a.cancelled && now < a.executable_at)
            ==> r == Err::<(), Error>(Error::DelayNotMet),
{
}

} // verus!
