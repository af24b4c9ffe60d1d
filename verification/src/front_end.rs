//! What every vhost-user device front end has in common: how it is set up, how it is activated,
//! and how it is shut down.
//!
//! The work itself (connecting, creating events, spawning threads) is done by the owner of the
//! front end, who reports each outcome here and is told what comes next. Events, worker handles
//! and foreign errors pass through as values of the owner's own types.
use vstd::prelude::*;

use crate::features::HandlerConfig;

verus! {

/// Why a front end could not be set up.
#[derive(Debug, PartialEq, Eq)]
pub enum SetupError<S, H> {
    /// The back end's socket cannot be reached.
    SocketConnect(S),
    /// The handler of the connection reported an error.
    Handler(H),
}

/// What a front end is set up with.
#[derive(Clone, Copy, Debug, PartialEq, Eq, Structural)]
pub struct SetupPlan {
    /// How the handler of the connection is created.
    pub handler: HandlerConfig,
    /// The size of a queue.
    pub queue_size: u16,
    /// The number of queues, unless the back end names another.
    pub queues: usize,
}

/// What comes next in setting a front end up.
#[derive(Clone, Copy, Debug, PartialEq, Eq, Structural)]
pub enum SetupAction {
    /// Connect to the back end's socket.
    Connect,
    /// Create the handler of the connection.
    CreateHandler(HandlerConfig),
    /// Ask the handler for the sizes of the queues.
    QueueSizes { queue_size: u16, queues: usize },
}

/// A front end that is being set up.
#[derive(Clone, Copy, Debug, PartialEq, Eq, Structural)]
pub enum Setup {
    Connecting(SetupPlan),
    CreatingHandler(SetupPlan),
    Sizing(SetupPlan),
}

impl Setup {
    /// What the front end is being set up with.
    pub open spec fn plan(self) -> SetupPlan {
        match self {
            Setup::Connecting(plan) => plan,
            Setup::CreatingHandler(plan) => plan,
            Setup::Sizing(plan) => plan,
        }
    }

    /// The setup once connecting was tried, or why it ends there.
    pub open spec fn after_connecting<S, H>(self, outcome: Result<(), S>) -> Result<
        Setup,
        SetupError<S, H>,
    > {
        match outcome {
            Ok(_) => Ok(Setup::CreatingHandler(self.plan())),
            Err(error) => Err(SetupError::SocketConnect(error)),
        }
    }

    /// The setup once creating the handler was tried, or why it ends there.
    pub open spec fn after_creating<S, H>(self, outcome: Result<(), H>) -> Result<
        Setup,
        SetupError<S, H>,
    > {
        match outcome {
            Ok(_) => Ok(Setup::Sizing(self.plan())),
            Err(error) => Err(SetupError::Handler(error)),
        }
    }

    /// The front end once the handler was asked for the queue sizes, or why there is none.
    pub open spec fn after_sizing<S, H, E, W>(self, outcome: Result<Vec<u16>, H>) -> Result<
        FrontEnd<E, W>,
        SetupError<S, H>,
    > {
        match outcome {
            Ok(queue_sizes) => Ok(FrontEnd::idle(queue_sizes)),
            Err(error) => Err(SetupError::Handler(error)),
        }
    }

    /// What has to be done next.
    pub open spec fn next_action(self) -> SetupAction {
        match self {
            Setup::Connecting(_) => SetupAction::Connect,
            Setup::CreatingHandler(plan) => SetupAction::CreateHandler(plan.handler),
            Setup::Sizing(plan) => SetupAction::QueueSizes {
                queue_size: plan.queue_size,
                queues: plan.queues,
            },
        }
    }

    /// What has to be done next.
    pub fn action(&self) -> (action: SetupAction)
        ensures
            action == self.next_action(),
    {
        match self {
            Setup::Connecting(_) => SetupAction::Connect,
            Setup::CreatingHandler(plan) => SetupAction::CreateHandler(plan.handler),
            Setup::Sizing(plan) => SetupAction::QueueSizes {
                queue_size: plan.queue_size,
                queues: plan.queues,
            },
        }
    }

    /// Moves on after an attempt to connect.
    pub fn connected<S, H>(self, outcome: Result<(), S>) -> (next: Result<Setup, SetupError<S, H>>)
        requires
            self is Connecting,
        ensures
            next == self.after_connecting::<S, H>(outcome),
    {
        match (self, outcome) {
            (Setup::Connecting(plan), Ok(_)) => Ok(Setup::CreatingHandler(plan)),
            (_, Err(error)) => Err(SetupError::SocketConnect(error)),
            (_, Ok(_)) => Ok(self),
        }
    }

    /// Moves on after an attempt to create the handler.
    pub fn handler_created<S, H>(self, outcome: Result<(), H>) -> (next: Result<
        Setup,
        SetupError<S, H>,
    >)
        requires
            self is CreatingHandler,
        ensures
            next == self.after_creating::<S, H>(outcome),
    {
        match (self, outcome) {
            (Setup::CreatingHandler(plan), Ok(_)) => Ok(Setup::Sizing(plan)),
            (_, Err(error)) => Err(SetupError::Handler(error)),
            (_, Ok(_)) => Ok(self),
        }
    }

    /// Ends the setup with the queue sizes that the handler named.
    pub fn sized<S, H, E, W>(self, outcome: Result<Vec<u16>, H>) -> (front: Result<
        FrontEnd<E, W>,
        SetupError<S, H>,
    >)
        requires
            self is Sizing,
        ensures
            front == self.after_sizing::<S, H, E, W>(outcome),
    {
        match outcome {
            Ok(queue_sizes) => Ok(FrontEnd::new(queue_sizes)),
            Err(error) => Err(SetupError::Handler(error)),
        }
    }
}

/// How far the activation of a front end has come.
#[derive(Clone, Copy, Debug, PartialEq, Eq, Structural)]
pub enum Activation {
    /// The handler is activating the queues. `reports_status` tells whether the back end is told
    /// the device's status afterwards.
    Queues { reports_status: bool },
    /// The back end is being told the device's status.
    Status,
    /// The pair of events that stops the worker is being created.
    KillEvent,
    /// The worker is being spawned.
    Worker,
    /// The worker runs.
    Active,
    /// A step failed and no more are taken.
    Abandoned,
}

impl Activation {
    /// The activation once the handler has tried to activate the queues.
    pub open spec fn after_queues(self, activated: bool) -> Activation {
        match self {
            Activation::Queues { reports_status } => if !activated {
                Activation::Abandoned
            } else if reports_status {
                Activation::Status
            } else {
                Activation::KillEvent
            },
            _ => self,
        }
    }

    /// The activation once telling the back end the device's status was tried. A failure is
    /// passed over.
    pub open spec fn after_status(self, reported: bool) -> Activation {
        match self {
            Activation::Status => Activation::KillEvent,
            _ => self,
        }
    }

    /// Moves on after the handler tried to activate the queues.
    pub fn queues_activated(self, activated: bool) -> (next: Activation)
        requires
            self is Queues,
        ensures
            next == self.after_queues(activated),
    {
        match self {
            Activation::Queues { reports_status } => if !activated {
                Activation::Abandoned
            } else if reports_status {
                Activation::Status
            } else {
                Activation::KillEvent
            },
            _ => self,
        }
    }

    /// Moves on after the attempt to tell the back end the device's status, whether or not it
    /// succeeded (`reported`).
    pub fn status_reported(self, reported: bool) -> (next: Activation)
        requires
            self is Status,
        ensures
            next == self.after_status(reported),
    {
        Activation::KillEvent
    }
}

/// A device front end: the event that stops its worker, the worker, and the sizes of its queues.
pub struct FrontEnd<E, W> {
    pub kill_evt: Option<E>,
    pub worker_thread: Option<W>,
    pub queue_sizes: Vec<u16>,
}

impl<E, W> FrontEnd<E, W> {
    /// A front end that was never activated.
    pub open spec fn idle(queue_sizes: Vec<u16>) -> FrontEnd<E, W> {
        FrontEnd { kill_evt: None, worker_thread: None, queue_sizes }
    }

    /// A worker can be told to stop.
    pub open spec fn stoppable(self) -> bool {
        self.worker_thread is Some ==> self.kill_evt is Some
    }

    /// The shutdown of the front end, of which nothing has been done.
    pub open spec fn stopping(self) -> Shutdown<E, W> {
        Shutdown { kill_evt: self.kill_evt, worker_thread: self.worker_thread }
    }

    /// The front end and the activation once the creation of the kill event was tried.
    pub open spec fn after_kill_event(self, evt: Option<E>) -> (FrontEnd<E, W>, Activation) {
        if evt is Some {
            (FrontEnd { kill_evt: evt, ..self }, Activation::Worker)
        } else {
            (self, Activation::Abandoned)
        }
    }

    /// The front end and the activation once the spawning of the worker was tried.
    pub open spec fn after_worker(self, handle: Option<W>) -> (FrontEnd<E, W>, Activation) {
        if handle is Some {
            (FrontEnd { worker_thread: handle, ..self }, Activation::Active)
        } else {
            (self, Activation::Abandoned)
        }
    }

    /// A front end with the given queues that was never activated.
    pub fn new(queue_sizes: Vec<u16>) -> (front: FrontEnd<E, W>)
        ensures
            front == Self::idle(queue_sizes),
            front.stoppable(),
    {
        FrontEnd { kill_evt: None, worker_thread: None, queue_sizes }
    }

    /// The file descriptors that the device keeps open, which are none.
    pub fn keep_rds(&self) -> (descriptors: Vec<i32>)
        ensures
            descriptors@ == Seq::<i32>::empty(),
    {
        Vec::new()
    }

    /// The largest sizes that the queues may have.
    pub fn queue_max_sizes(&self) -> (sizes: &[u16])
        ensures
            sizes@ == self.queue_sizes@,
    {
        self.queue_sizes.as_slice()
    }

    /// Keeps the front end's own copy of the kill event, if one could be created.
    pub fn kill_event_created(&mut self, step: Activation, evt: Option<E>) -> (next: Activation)
        requires
            step is KillEvent,
        ensures
            (*final(self), next) == old(self).after_kill_event(evt),
            old(self).stoppable() ==> final(self).stoppable(),
    {
        match evt {
            Some(_) => {
                self.kill_evt = evt;
                Activation::Worker
            },
            None => Activation::Abandoned,
        }
    }

    /// Keeps the worker, if it could be spawned.
    pub fn worker_spawned(&mut self, step: Activation, handle: Option<W>) -> (next: Activation)
        requires
            step is Worker,
        ensures
            (*final(self), next) == old(self).after_worker(handle),
            old(self).kill_evt is Some ==> final(self).stoppable(),
    {
        match handle {
            Some(_) => {
                self.worker_thread = handle;
                Activation::Active
            },
            None => Activation::Abandoned,
        }
    }

    /// Starts shutting the front end down: gives up the kill event and the worker.
    pub fn shutdown(&mut self) -> (shutdown: Shutdown<E, W>)
        ensures
            shutdown == old(self).stopping(),
            *final(self) == Self::idle(old(self).queue_sizes),
    {
        Shutdown { kill_evt: self.kill_evt.take(), worker_thread: self.worker_thread.take() }
    }

    /// Starts a reset in which the handler resets every queue.
    pub fn reset_queues(&self) -> (reset: DeviceReset)
        ensures
            reset == DeviceReset::Pending(
                ResetAction::Queues { n: self.queue_sizes@.len() as usize },
            ),
    {
        DeviceReset::Pending(ResetAction::Queues { n: self.queue_sizes.len() })
    }
}

/// What has to be done to shut a front end down.
#[derive(Debug, PartialEq, Eq)]
pub enum ShutdownAction<E, W> {
    /// Signal the kill event.
    Signal(E),
    /// Wait for the worker to end.
    Join(W),
}

/// A front end that is being shut down: the event that is still to be signalled, and the worker
/// that is still to be waited for.
#[derive(Debug, PartialEq, Eq)]
pub struct Shutdown<E, W> {
    pub kill_evt: Option<E>,
    pub worker_thread: Option<W>,
}

impl<E, W> Shutdown<E, W> {
    /// What has to be done next, and what is left after that. The worker is not waited for while
    /// there is an event to signal.
    pub open spec fn advanced(self) -> (Option<ShutdownAction<E, W>>, Shutdown<E, W>) {
        match (self.kill_evt, self.worker_thread) {
            (Some(evt), _) => (
                Some(ShutdownAction::Signal(evt)),
                Shutdown { kill_evt: None, ..self },
            ),
            (None, Some(worker)) => (
                Some(ShutdownAction::Join(worker)),
                Shutdown { worker_thread: None, ..self },
            ),
            (None, None) => (None, self),
        }
    }

    /// How much is left to do.
    pub open spec fn left(self) -> nat {
        let events: nat = if self.kill_evt is Some {
            1
        } else {
            0
        };
        let workers: nat = if self.worker_thread is Some {
            1
        } else {
            0
        };
        events + workers
    }

    /// All that is done, in order.
    pub open spec fn actions(self) -> Seq<ShutdownAction<E, W>>
        decreases self.left(),
    {
        match self.advanced() {
            (Some(action), rest) => seq![action] + rest.actions(),
            (None, _) => Seq::empty(),
        }
    }

    /// What has to be done next; `None` when the shutdown is over. How it comes out makes no
    /// difference.
    pub fn next_action(&mut self) -> (action: Option<ShutdownAction<E, W>>)
        ensures
            (action, *final(self)) == old(self).advanced(),
    {
        match self.kill_evt.take() {
            Some(evt) => Some(ShutdownAction::Signal(evt)),
            None => match self.worker_thread.take() {
                Some(worker) => Some(ShutdownAction::Join(worker)),
                None => None,
            },
        }
    }
}

/// A shutdown signals the kill event, if there is one, then waits for the worker, if there is one,
/// and does nothing else and nothing twice.
pub proof fn law_shutdown_signals_then_joins<E, W>(shutdown: Shutdown<E, W>)
    ensures
        shutdown.actions() == match (shutdown.kill_evt, shutdown.worker_thread) {
            (Some(evt), Some(worker)) => seq![
                ShutdownAction::Signal(evt),
                ShutdownAction::Join(worker),
            ],
            (Some(evt), None) => seq![ShutdownAction::Signal(evt)],
            (None, Some(worker)) => seq![ShutdownAction::Join(worker)],
            (None, None) => Seq::empty(),
        },
{
    reveal_with_fuel(Shutdown::actions, 3);
}

/// The worker of a front end that is stoppable is never waited for before it has been told to
/// stop.
pub proof fn law_worker_told_to_stop_before_join<E, W>(front: FrontEnd<E, W>)
    requires
        front.stoppable(),
        front.worker_thread is Some,
    ensures
        front.stopping().actions() == seq![
            ShutdownAction::Signal(front.kill_evt->0),
            ShutdownAction::Join(front.worker_thread->0),
        ],
{
    law_shutdown_signals_then_joins(front.stopping());
}

/// What has to be done to reset a device.
#[derive(Clone, Copy, Debug, PartialEq, Eq, Structural)]
pub enum ResetAction {
    /// The handler resets the device's `n` queues.
    Queues { n: usize },
    /// The ownership of the connection is given up.
    ResetOwner,
}

/// A device that is being reset.
#[derive(Clone, Copy, Debug, PartialEq, Eq, Structural)]
pub enum DeviceReset {
    /// The action is being carried out.
    Pending(ResetAction),
    /// The reset is over. `done` tells whether it succeeded.
    Finished { done: bool },
}

impl DeviceReset {
    /// What has to be done now, if anything is left.
    pub open spec fn next_action(self) -> Option<ResetAction> {
        match self {
            DeviceReset::Pending(action) => Some(action),
            DeviceReset::Finished { .. } => None,
        }
    }

    /// The reset once its action has succeeded or failed.
    pub open spec fn after(self, succeeded: bool) -> DeviceReset {
        match self {
            DeviceReset::Pending(_) => DeviceReset::Finished { done: succeeded },
            DeviceReset::Finished { .. } => self,
        }
    }

    /// What has to be done now; `None` when the reset is over.
    pub fn action(&self) -> (action: Option<ResetAction>)
        ensures
            action == self.next_action(),
    {
        match self {
            DeviceReset::Pending(action) => Some(*action),
            DeviceReset::Finished { .. } => None,
        }
    }

    /// Moves on after the action succeeded or failed.
    pub fn step(self, succeeded: bool) -> (next: DeviceReset)
        ensures
            next == self.after(succeeded),
    {
        match self {
            DeviceReset::Pending(_) => DeviceReset::Finished { done: succeeded },
            DeviceReset::Finished { .. } => self,
        }
    }
}

/// A reset carries its action out once and no other, and succeeds exactly when the action does.
pub proof fn law_reset_acts_once(action: ResetAction, succeeded: bool)
    ensures
        ({
            let reset = DeviceReset::Pending(action);
            &&& reset.next_action() == Some(action)
            &&& reset.after(succeeded) == (DeviceReset::Finished { done: succeeded })
            &&& reset.after(succeeded).next_action() is None
        }),
{
}

/// Where a setup with `plan` ends, when connecting, creating the handler and asking it for the
/// queue sizes come out as given.
pub open spec fn set_up<S, H, E, W>(
    plan: SetupPlan,
    connecting: Result<(), S>,
    creating: Result<(), H>,
    sizing: Result<Vec<u16>, H>,
) -> Result<FrontEnd<E, W>, SetupError<S, H>> {
    match Setup::Connecting(plan).after_connecting::<S, H>(connecting) {
        Err(error) => Err(error),
        Ok(connected) => match connected.after_creating::<S, H>(creating) {
            Err(error) => Err(error),
            Ok(created) => created.after_sizing(sizing),
        },
    }
}

/// A setup yields an idle front end with the queue sizes that the handler named exactly when all
/// three steps succeed; otherwise it fails with the error of the first step that failed. The
/// handler is created, and asked for the queue sizes, as planned.
pub proof fn law_setup<S, H, E, W>(
    plan: SetupPlan,
    connecting: Result<(), S>,
    creating: Result<(), H>,
    sizing: Result<Vec<u16>, H>,
)
    ensures
        set_up::<S, H, E, W>(plan, connecting, creating, sizing) == match (
            connecting,
            creating,
            sizing,
        ) {
            (Err(error), _, _) => Err(SetupError::<S, H>::SocketConnect(error)),
            (Ok(_), Err(error), _) => Err(SetupError::<S, H>::Handler(error)),
            (Ok(_), Ok(_), Err(error)) => Err(SetupError::<S, H>::Handler(error)),
            (Ok(_), Ok(_), Ok(sizes)) => Ok(FrontEnd::<E, W>::idle(sizes)),
        },
        Setup::Connecting(plan).after_connecting::<S, H>(connecting) matches Ok(connected)
            ==> connected.next_action() == SetupAction::CreateHandler(plan.handler)
            && (connected.after_creating::<S, H>(creating) matches Ok(created)
            ==> created.next_action() == (SetupAction::QueueSizes {
            queue_size: plan.queue_size,
            queues: plan.queues,
        })),
{
}

/// How the steps of an activation come out.
pub struct Outcomes<E, W> {
    /// Whether the handler activates the queues.
    pub activated: bool,
    /// Whether the back end can be told the status.
    pub reported: bool,
    /// The kill event, if it can be created.
    pub evt: Option<E>,
    /// The worker, if it can be spawned.
    pub handle: Option<W>,
}

/// The front end and the activation after the present step of `step` has been tried, when it
/// comes out as `outcomes` says.
pub open spec fn advance<E, W>(
    front: FrontEnd<E, W>,
    step: Activation,
    outcomes: Outcomes<E, W>,
) -> (FrontEnd<E, W>, Activation) {
    match step {
        Activation::Queues { .. } => (front, step.after_queues(outcomes.activated)),
        Activation::Status => (front, step.after_status(outcomes.reported)),
        Activation::KillEvent => front.after_kill_event(outcomes.evt),
        Activation::Worker => front.after_worker(outcomes.handle),
        Activation::Active => (front, step),
        Activation::Abandoned => (front, step),
    }
}

/// The front end and the activation `n` steps later.
pub open spec fn advance_by<E, W>(
    front: FrontEnd<E, W>,
    step: Activation,
    outcomes: Outcomes<E, W>,
    n: nat,
) -> (FrontEnd<E, W>, Activation)
    decreases n,
{
    if n == 0 {
        (front, step)
    } else {
        let (next_front, next_step) = advance(front, step, outcomes);
        advance_by(next_front, next_step, outcomes, (n - 1) as nat)
    }
}

/// Where an activation of `front` ends: no activation takes more than four steps.
pub open spec fn activate<E, W>(
    front: FrontEnd<E, W>,
    reports_status: bool,
    outcomes: Outcomes<E, W>,
) -> (FrontEnd<E, W>, Activation) {
    advance_by(front, Activation::Queues { reports_status }, outcomes, 4)
}

/// An activation ends with a running worker exactly when the queues, the kill event and the worker
/// all come out; a failed activation of the queues leaves the front end as it was, and so does a
/// missing kill event; a worker that cannot be spawned leaves the new kill event behind and the
/// worker as it was.
pub proof fn law_activation<E, W>(
    front: FrontEnd<E, W>,
    reports_status: bool,
    outcomes: Outcomes<E, W>,
)
    ensures
        ({
            let (after, end) = activate(front, reports_status, outcomes);
            let Outcomes { activated, reported, evt, handle } = outcomes;
            &&& end is Active <==> activated && evt is Some && handle is Some
            &&& end is Active || end is Abandoned
            &&& end is Active ==> after.kill_evt == evt && after.worker_thread == handle
            &&& !activated || evt is None ==> after == front
            &&& activated && evt is Some && handle is None ==> after == (FrontEnd {
                kill_evt: evt,
                ..front
            })
            &&& after.queue_sizes == front.queue_sizes
        }),
{
    reveal_with_fuel(advance_by, 5);
}

/// However an activation goes, a worker that runs afterwards can be told to stop, if that held
/// before.
pub proof fn law_worker_stays_stoppable<E, W>(
    front: FrontEnd<E, W>,
    reports_status: bool,
    outcomes: Outcomes<E, W>,
)
    requires
        front.stoppable(),
    ensures
        activate(front, reports_status, outcomes).0.stoppable(),
{
    reveal_with_fuel(advance_by, 5);
}

/// A device that reports its status does so after its queues are activated and before its kill
/// event is created, and goes on to the kill event whether or not the report comes through; one
/// that does not report goes from the queues to the kill event directly. Nothing of the front end
/// has changed by then.
pub proof fn law_status_reported_before_kill_event<E, W>(
    front: FrontEnd<E, W>,
    outcomes: Outcomes<E, W>,
)
    requires
        outcomes.activated,
    ensures
        ({
            let reporting = Activation::Queues { reports_status: true };
            let silent = Activation::Queues { reports_status: false };
            &&& advance_by(front, reporting, outcomes, 1) == (front, Activation::Status)
            &&& advance_by(front, reporting, outcomes, 2) == (front, Activation::KillEvent)
            &&& advance_by(front, silent, outcomes, 1) == (front, Activation::KillEvent)
        }),
{
    reveal_with_fuel(advance_by, 3);
}

/// The status is reported at most once, and by no device that does not report it nor after a
/// failed activation of the queues.
pub proof fn law_status_reported_once<E, W>(
    front: FrontEnd<E, W>,
    reports_status: bool,
    outcomes: Outcomes<E, W>,
    n: nat,
)
    ensures
        advance_by(front, Activation::Queues { reports_status }, outcomes, n).1 is Status <==> n
            == 1 && reports_status && outcomes.activated,
{
    reveal_with_fuel(advance_by, 3);
    let start = Activation::Queues { reports_status };
    if n > 0 {
        let (_, first) = advance(front, start, outcomes);
        if first is Status && n > 1 {
            let (_, second) = advance(front, first, outcomes);
            lemma_no_status_later(front, second, outcomes, (n - 2) as nat);
        } else if !(first is Status) {
            lemma_no_status_later(front, first, outcomes, (n - 1) as nat);
        }
    }
}

proof fn lemma_no_status_later<E, W>(
    front: FrontEnd<E, W>,
    step: Activation,
    outcomes: Outcomes<E, W>,
    n: nat,
)
    requires
        !(step is Queues),
        !(step is Status),
    ensures
        !(advance_by(front, step, outcomes, n).1 is Status),
    decreases n,
{
    if n > 0 {
        let (next_front, next_step) = advance(front, step, outcomes);
        lemma_no_status_later(next_front, next_step, outcomes, (n - 1) as nat);
    }
}

/// Where an activation ends depends neither on whether the device reports its status nor on
/// whether the report comes through.
pub proof fn law_status_report_is_best_effort<E, W>(
    front: FrontEnd<E, W>,
    outcomes: Outcomes<E, W>,
    reported: bool,
)
    ensures
        activate(front, true, outcomes) == activate(
            front,
            true,
            Outcomes { reported, ..outcomes },
        ),
        activate(front, true, outcomes) == activate(front, false, outcomes),
{
    reveal_with_fuel(advance_by, 5);
}

/// Each step of a setup by itself, whatever the plan and the outcome: what is to be done is what
/// the plan says, a success leads to the next step with the same plan, and a failure ends the
/// setup with the error that was met, told apart by whether the socket or the handler met it. The
/// last success gives a front end that has neither an event nor a worker, and the very queues
/// that were named.
pub proof fn law_setup_step_by_step<S, H, E, W>(
    plan: SetupPlan,
    connecting: Result<(), S>,
    creating: Result<(), H>,
    sizing: Result<Vec<u16>, H>,
)
    ensures
        Setup::Connecting(plan).plan() == plan,
        Setup::CreatingHandler(plan).plan() == plan,
        Setup::Sizing(plan).plan() == plan,
        Setup::Connecting(plan).next_action() is Connect,
        Setup::CreatingHandler(plan).next_action() matches SetupAction::CreateHandler(handler)
            && handler == plan.handler,
        Setup::Sizing(plan).next_action() matches SetupAction::QueueSizes { queue_size, queues }
            && queue_size == plan.queue_size && queues == plan.queues,
        match Setup::Connecting(plan).after_connecting::<S, H>(connecting) {
            Ok(next) => connecting is Ok && next == Setup::CreatingHandler(plan),
            Err(SetupError::SocketConnect(error)) => connecting == Err::<(), S>(error),
            Err(SetupError::Handler(_)) => false,
        },
        match Setup::CreatingHandler(plan).after_creating::<S, H>(creating) {
            Ok(next) => creating is Ok && next == Setup::Sizing(plan),
            Err(SetupError::Handler(error)) => creating == Err::<(), H>(error),
            Err(SetupError::SocketConnect(_)) => false,
        },
        match Setup::Sizing(plan).after_sizing::<S, H, E, W>(sizing) {
            Ok(front) => {
                &&& sizing == Ok::<Vec<u16>, H>(front.queue_sizes)
                &&& front.kill_evt is None
                &&& front.worker_thread is None
            },
            Err(SetupError::Handler(error)) => sizing == Err::<Vec<u16>, H>(error),
            Err(SetupError::SocketConnect(_)) => false,
        },
{
}

/// Each step of an activation by itself: the queues lead to the status report where there is one,
/// to the kill event where there is none, and to the end where they could not be activated; the
/// report leads to the kill event whether or not it came through.
pub proof fn law_activation_step_by_step(reports_status: bool, activated: bool, reported: bool)
    ensures
        ({
            let next = Activation::Queues { reports_status }.after_queues(activated);
            &&& next is Abandoned <==> !activated
            &&& next is Status <==> activated && reports_status
            &&& next is KillEvent <==> activated && !reports_status
        }),
        Activation::Status.after_status(reported) is KillEvent,
{
}

/// What a front end keeps of the last two steps of an activation: the kill event that was created
/// in place of any that it had, and the worker that was spawned in place of any that it had.
/// Where a step fails the front end stays as it was and the activation ends there.
pub proof fn law_front_end_keeps_event_and_worker<E, W>(
    front: FrontEnd<E, W>,
    evt: Option<E>,
    handle: Option<W>,
)
    ensures
        ({
            let (after, next) = front.after_kill_event(evt);
            &&& next is Worker <==> evt is Some
            &&& next is Abandoned <==> evt is None
            &&& evt is Some ==> after.kill_evt == evt
            &&& evt is None ==> after.kill_evt == front.kill_evt
            &&& after.worker_thread == front.worker_thread
            &&& after.queue_sizes == front.queue_sizes
        }),
        ({
            let (after, next) = front.after_worker(handle);
            &&& next is Active <==> handle is Some
            &&& next is Abandoned <==> handle is None
            &&& handle is Some ==> after.worker_thread == handle
            &&& handle is None ==> after.worker_thread == front.worker_thread
            &&& after.kill_evt == front.kill_evt
            &&& after.queue_sizes == front.queue_sizes
        }),
{
}

/// A front end that was never activated has neither an event nor a worker and can be shut down at
/// once. A front end can tell its worker to stop exactly when it has an event or has no worker, and
/// its shutdown has the event and the worker that it had itself.
pub proof fn law_front_end_parts<E, W>(front: FrontEnd<E, W>, queue_sizes: Vec<u16>)
    ensures
        FrontEnd::<E, W>::idle(queue_sizes).kill_evt is None,
        FrontEnd::<E, W>::idle(queue_sizes).worker_thread is None,
        FrontEnd::<E, W>::idle(queue_sizes).queue_sizes == queue_sizes,
        FrontEnd::<E, W>::idle(queue_sizes).stopping().actions().len() == 0,
        front.stoppable() <==> front.kill_evt is Some || front.worker_thread is None,
        front.stopping().kill_evt == front.kill_evt,
        front.stopping().worker_thread == front.worker_thread,
{
    law_shutdown_signals_then_joins(FrontEnd::<E, W>::idle(queue_sizes).stopping());
}

/// Each step of a shutdown by itself: an event that is left is signalled and then gone, and the
/// worker is untouched; without one a worker that is left is waited for and then gone; without
/// either there is nothing to do. Everything that is done leaves one thing less to do.
pub proof fn law_shutdown_step_by_step<E, W>(shutdown: Shutdown<E, W>)
    ensures
        ({
            let (action, rest) = shutdown.advanced();
            match action {
                Some(ShutdownAction::Signal(evt)) => {
                    &&& shutdown.kill_evt == Some(evt)
                    &&& rest.kill_evt is None
                    &&& rest.worker_thread == shutdown.worker_thread
                },
                Some(ShutdownAction::Join(worker)) => {
                    &&& shutdown.kill_evt is None
                    &&& shutdown.worker_thread == Some(worker)
                    &&& rest.kill_evt is None
                    &&& rest.worker_thread is None
                },
                None => {
                    &&& shutdown.kill_evt is None
                    &&& shutdown.worker_thread is None
                    &&& rest == shutdown
                },
            }
        }),
        shutdown.advanced().0 is Some <==> shutdown.left() > 0,
        shutdown.advanced().0 is Some ==> shutdown.advanced().1.left() + 1 == shutdown.left(),
        shutdown.actions().len() == shutdown.left(),
{
    law_shutdown_signals_then_joins(shutdown);
}

/// A reset that is over has nothing left to do, and no further outcome changes how it ended.
pub proof fn law_finished_reset_stays(done: bool, succeeded: bool)
    ensures
        (DeviceReset::Finished { done }).next_action() is None,
        (DeviceReset::Finished { done }).after(succeeded) == (DeviceReset::Finished { done }),
{
}

} // verus!
