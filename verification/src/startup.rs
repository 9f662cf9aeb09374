//! How a mediator is brought up, one step after another.
//!
//! A [`Plan`] lists the steps. A [`Startup`] walks through a plan: it names the step to perform,
//! is told how it went, and stops at the first failure. What the steps do lies outside.

use crate::error::{
    config_error, database_error, internal_error, ErrorView, MediatorError,
};
use crate::net::{format_socket, SocketAddress};
use crate::text::appended;
use vstd::prelude::*;

verus! {

/// A long-lived background task.
#[derive(Clone, Copy, PartialEq, Eq, Structural, Debug)]
pub enum Task {
    /// Publishes statistics.
    Statistics,
    /// Delivers forwards to other mediators.
    ForwardingProcessor,
    /// Removes expired messages.
    MessageExpirySweep,
    /// Removes expired sessions.
    SessionExpirySweep,
    /// Refreshes the operating secrets.
    VtaRefresh,
    /// Reclaims the state of DIDs that the per-DID rate limiter need no longer track.
    DidRateLimitSweep,
}

impl Task {
    /// The name under which the task's health is published.
    pub open spec fn spec_name(self) -> Seq<char> {
        match self {
            Task::Statistics => "statistics"@,
            Task::ForwardingProcessor => "forwarding_processor"@,
            Task::MessageExpirySweep => "message_expiry_sweep"@,
            Task::SessionExpirySweep => "session_expiry_sweep"@,
            Task::VtaRefresh => "vta_refresh"@,
            Task::DidRateLimitSweep => "did_rate_limit_sweep"@,
        }
    }

    /// The name under which the task's health is published.
    pub fn name(&self) -> (name: &'static str)
        ensures
            name@ == self.spec_name(),
    {
        match self {
            Task::Statistics => "statistics",
            Task::ForwardingProcessor => "forwarding_processor",
            Task::MessageExpirySweep => "message_expiry_sweep",
            Task::SessionExpirySweep => "session_expiry_sweep",
            Task::VtaRefresh => "vta_refresh",
            Task::DidRateLimitSweep => "did_rate_limit_sweep",
        }
    }

    /// Whether the mediator is not ready without the task. Forwarding is the delivery path between
    /// mediators, and with a stale operating secret nothing inbound can be read.
    pub fn load_bearing(&self) -> (yes: bool)
        ensures
            yes == (*self is ForwardingProcessor || *self is VtaRefresh),
    {
        matches!(self, Task::ForwardingProcessor | Task::VtaRefresh)
    }

    /// The seconds between two rounds of a task that runs on a timer.
    pub open spec fn spec_interval_secs(self) -> Option<u64> {
        match self {
            Task::MessageExpirySweep => Some(1),
            Task::SessionExpirySweep => Some(300),
            Task::DidRateLimitSweep => Some(300),
            _ => None,
        }
    }

    /// The seconds between two rounds of a task that runs on a timer.
    pub fn interval_secs(&self) -> (secs: Option<u64>)
        ensures
            secs == self.spec_interval_secs(),
    {
        match self {
            Task::MessageExpirySweep => Some(1),
            Task::SessionExpirySweep => Some(300),
            Task::DidRateLimitSweep => Some(300),
            _ => None,
        }
    }
}

/// One step of starting a mediator.
#[derive(Clone, Copy, PartialEq, Eq, Structural, Debug)]
pub enum Step {
    /// Make a cryptography provider the default of the process.
    InstallCryptoProvider,
    /// Load the TLS certificate and key.
    LoadTls,
    /// Open the embedded store.
    OpenFjall,
    /// Run the serve plan.
    Serve,
    /// Wait for the server to end.
    Join,
    /// Install the tracing subscriber.
    InstallTracing,
    /// Initialise the store that was handed in.
    InitializeStore,
    /// Connect to the database.
    OpenDatabase,
    /// Initialise the database.
    InitializeDatabase,
    /// Load the scripts into the database.
    LoadScripts,
    /// Make the configured administrator a root administrator.
    SetupAdmin,
    /// Cancel the shutdown token when the process is told to end.
    HandleSignals,
    /// Set up metrics.
    InitMetrics,
    /// Start a background task.
    Spawn(Task),
    /// Start live delivery.
    StartStreaming,
    /// Create the DID resolver.
    CreateResolver,
    /// Advertise the trust-spanning transport in the served DID document.
    AdvertiseTsp,
    /// Preload the parsed DID document into the resolver.
    PreloadDocument,
    /// Parse the served DID document and preload it; a document that does not parse is logged.
    PreloadServedDocument,
    /// Build the limiters, the shared state, and the routes.
    BuildService,
    /// Bind the listener.
    Bind(SocketAddress),
    /// Make the listener non-blocking.
    SetNonblocking,
    /// Read the address that the listener is bound to.
    ReadBoundAddress,
    /// Drain the server once the shutdown token is cancelled.
    DrainOnShutdown,
    /// Serve requests from the listener.
    ServeListener { tls: bool },
    /// Build the URLs at which the mediator is reached.
    PublishEndpoints,
}

/// The steps to take, and the error that comes after them where the configuration leads no
/// further.
pub struct Plan {
    pub steps: Vec<Step>,
    pub refusal: Option<MediatorError>,
}

/// The model of [`Plan`].
#[verifier::ext_equal]
pub struct PlanView {
    pub steps: Seq<Step>,
    pub refusal: Option<ErrorView>,
}

impl View for Plan {
    type V = PlanView;

    open spec fn view(&self) -> PlanView {
        PlanView { steps: self.steps@, refusal: crate::error::opt_error_view(self.refusal) }
    }
}

/// The plan of `steps`.
pub open spec fn plan_of(steps: Seq<Step>) -> PlanView {
    PlanView { steps, refusal: None }
}

/// The plan that takes `step` where `wanted`, and nothing otherwise.
pub open spec fn plan_when(wanted: bool, step: Step) -> PlanView {
    plan_of(
        if wanted {
            seq![step]
        } else {
            seq![]
        },
    )
}

/// The plan that ends in an error.
pub open spec fn plan_refused(error: ErrorView) -> PlanView {
    PlanView { steps: seq![], refusal: Some(error) }
}

/// The plan that does `first`, and then `second` unless `first` ended in an error.
pub open spec fn followed_by(first: PlanView, second: PlanView) -> PlanView {
    match first.refusal {
        Some(_) => first,
        None => PlanView { steps: first.steps + second.steps, refusal: second.refusal },
    }
}

impl Plan {
    /// The plan that does nothing.
    pub fn empty() -> (plan: Plan)
        ensures
            plan@ == plan_of(seq![]),
    {
        Plan { steps: Vec::new(), refusal: None }
    }

    /// The plan that ends in `error`.
    pub fn refused(error: MediatorError) -> (plan: Plan)
        ensures
            plan@ == plan_refused(error@),
    {
        Plan { steps: Vec::new(), refusal: Some(error) }
    }

    /// The plan of one step.
    pub fn one(step: Step) -> (plan: Plan)
        ensures
            plan@ == plan_of(seq![step]),
    {
        let mut steps: Vec<Step> = Vec::new();
        steps.push(step);
        Plan { steps, refusal: None }
    }

    /// The plan that takes `step` where `wanted`.
    pub fn when(wanted: bool, step: Step) -> (plan: Plan)
        ensures
            plan@ == plan_when(wanted, step),
    {
        if wanted {
            Plan::one(step)
        } else {
            Plan::empty()
        }
    }

    /// This plan, and then `second` unless this one ended in an error.
    pub fn followed(self, second: Plan) -> (plan: Plan)
        ensures
            plan@ == followed_by(self@, second@),
    {
        if self.refusal.is_some() {
            return self;
        }
        let mut steps = self.steps;
        let mut rest = second.steps;
        steps.append(&mut rest);
        Plan { steps, refusal: second.refusal }
    }
}

/// What went wrong in a step.
pub enum Failure<E> {
    /// The step's own error, which is passed on as it is.
    Passed(E),
    /// The text of an error of the operating system or of a library.
    Text(String),
    /// The step took too long.
    TimedOut,
    /// An error of this library.
    Raised(MediatorError),
}

/// How a step went.
pub enum Outcome<E> {
    Done,
    Failed(Failure<E>),
}

/// The error that a start ends in.
pub enum StartError<E> {
    Passed(E),
    Raised(MediatorError),
}

/// Whether a step can fail in this way.
pub open spec fn explains<E>(step: Step, failure: Failure<E>) -> bool {
    match failure {
        Failure::Passed(_) => {
            ||| step is OpenFjall
            ||| step is Serve
            ||| step is Join
            ||| step is InstallTracing
            ||| step is InitializeStore
            ||| step is InitializeDatabase
            ||| step is LoadScripts
            ||| step is SetupAdmin
        },
        Failure::Text(_) => {
            ||| step is LoadTls
            ||| step is OpenDatabase
            ||| step is CreateResolver
            ||| step is Bind
            ||| step is SetNonblocking
            ||| step is ReadBoundAddress
            ||| step is ServeListener
        },
        Failure::TimedOut => step is OpenDatabase,
        Failure::Raised(_) => step is PublishEndpoints,
    }
}

/// The error for a step that failed with a text.
pub open spec fn text_error(step: Step, text: Seq<char>) -> ErrorView {
    match step {
        Step::LoadTls => crate::error::config_view("Invalid TLS certificate/key: "@ + text),
        Step::OpenDatabase => crate::error::database_view("Error opening database: "@ + text),
        Step::CreateResolver => crate::error::config_view(
            "Failed to create DID resolver: "@ + text,
        ),
        Step::Bind(addr) => crate::error::internal_view(
            "Failed to bind "@ + crate::net::socket_text(addr) + ": "@ + text,
        ),
        Step::SetNonblocking => crate::error::internal_view(
            "Failed to set listener nonblocking: "@ + text,
        ),
        Step::ReadBoundAddress => crate::error::internal_view(
            "Failed to read bound listener address: "@ + text,
        ),
        Step::ServeListener { tls: true } => crate::error::internal_view(
            "Failed to wrap TCP listener with TLS: "@ + text,
        ),
        _ => crate::error::internal_view("Failed to wrap TCP listener: "@ + text),
    }
}

/// Whether `error` is what a start ends in when `step` failed with `failure`.
pub open spec fn ends_in<E>(step: Step, failure: Failure<E>, error: StartError<E>) -> bool {
    match failure {
        Failure::Passed(e) => error == StartError::Passed(e),
        Failure::Raised(m) => error == StartError::<E>::Raised(m),
        Failure::TimedOut => error matches StartError::Raised(m) && m@
            == crate::error::database_view("Database connection timed out after 30 seconds"@),
        Failure::Text(text) => error matches StartError::Raised(m) && m@ == text_error(step, text@),
    }
}

/// The seconds that connecting to the database may take.
pub const DATABASE_TIMEOUT_SECS: u64 = 30;

/// The seconds that requests under way may take once the server is told to end.
pub const DRAIN_SECS: u64 = 30;

/// The error that a start ends in when `step` failed with `failure`.
pub fn start_error<E>(step: Step, failure: Failure<E>) -> (error: StartError<E>)
    requires
        explains(step, failure),
    ensures
        ends_in(step, failure, error),
{
    match failure {
        Failure::Passed(e) => StartError::Passed(e),
        Failure::Raised(m) => StartError::Raised(m),
        Failure::TimedOut => StartError::Raised(
            database_error("Database connection timed out after 30 seconds".to_owned()),
        ),
        Failure::Text(text) => StartError::Raised(
            match step {
                Step::LoadTls => config_error(appended("Invalid TLS certificate/key: ", text.as_str())),
                Step::OpenDatabase => database_error(appended("Error opening database: ", text.as_str())),
                Step::CreateResolver => config_error(
                    appended("Failed to create DID resolver: ", text.as_str()),
                ),
                Step::Bind(addr) => {
                    let mut out = "Failed to bind ".to_owned();
                    out.append(format_socket(addr).as_str());
                    out.append(": ");
                    out.append(text.as_str());
                    internal_error(out)
                },
                Step::SetNonblocking => internal_error(
                    appended("Failed to set listener nonblocking: ", text.as_str()),
                ),
                Step::ReadBoundAddress => internal_error(
                    appended("Failed to read bound listener address: ", text.as_str()),
                ),
                Step::ServeListener { tls: true } => internal_error(
                    appended("Failed to wrap TCP listener with TLS: ", text.as_str()),
                ),
                _ => internal_error(appended("Failed to wrap TCP listener: ", text.as_str())),
            },
        ),
    }
}

/// What comes next in a start.
#[derive(Clone, Copy, PartialEq, Eq, Structural, Debug)]
pub enum Turn {
    /// Perform this step, and report how it went.
    Perform(Step),
    /// Every step is done.
    Ready,
    /// The start has ended in an error.
    Stopped,
}

/// A plan that is being carried out.
pub struct Startup<E> {
    plan: Plan,
    done: usize,
    error: Option<StartError<E>>,
}

impl<E> Startup<E> {
    #[verifier::type_invariant]
    spec fn wf(self) -> bool {
        self.done <= self.plan.steps@.len()
    }

    /// The plan.
    pub closed spec fn plan(&self) -> PlanView {
        self.plan@
    }

    /// The number of steps that are done.
    pub closed spec fn done(&self) -> nat {
        self.done as nat
    }

    /// The error of the step that failed.
    pub closed spec fn error(&self) -> Option<StartError<E>> {
        self.error
    }

    /// What comes next: the first step that is not done, unless one has failed.
    pub open spec fn spec_turn(&self) -> Turn {
        if self.error() is Some {
            Turn::Stopped
        } else if self.done() < self.plan().steps.len() {
            Turn::Perform(self.plan().steps[self.done() as int])
        } else if self.plan().refusal is Some {
            Turn::Stopped
        } else {
            Turn::Ready
        }
    }

    /// Begins to carry out `plan`.
    pub fn new(plan: Plan) -> (startup: Startup<E>)
        ensures
            startup.plan() == plan@,
            startup.done() == 0,
            startup.error() is None,
    {
        Startup { plan, done: 0, error: None }
    }

    /// What comes next.
    pub fn turn(&self) -> (turn: Turn)
        ensures
            turn == self.spec_turn(),
    {
        if self.error.is_some() {
            Turn::Stopped
        } else if self.done < self.plan.steps.len() {
            Turn::Perform(self.plan.steps[self.done])
        } else if self.plan.refusal.is_some() {
            Turn::Stopped
        } else {
            Turn::Ready
        }
    }

    /// Takes down how the step of this turn went.
    pub fn report(&mut self, outcome: Outcome<E>)
        requires
            old(self).spec_turn() is Perform,
            outcome matches Outcome::Failed(f) ==> explains(old(self).spec_turn()->Perform_0, f),
        ensures
            final(self).plan() == old(self).plan(),
            outcome is Done ==> final(self).done() == old(self).done() + 1,
            outcome is Done ==> final(self).error() is None,
            outcome is Failed ==> final(self).done() == old(self).done(),
            outcome matches Outcome::Failed(f) ==> (final(self).error() matches Some(e)
                && ends_in(old(self).spec_turn()->Perform_0, f, e)),
    {
        proof {
            use_type_invariant(&*self);
        }
        match outcome {
            Outcome::Done => {
                assert(self.done < self.plan.steps.len());
                self.done = self.done + 1;
            },
            Outcome::Failed(failure) => {
                let step = self.plan.steps[self.done];
                self.error = Some(start_error(step, failure));
            },
        }
    }

    /// How the start ended.
    pub fn finish(self) -> (result: Result<(), StartError<E>>)
        requires
            !(self.spec_turn() is Perform),
        ensures
            result is Ok <==> self.spec_turn() is Ready,
            self.error() matches Some(e) ==> result == Err::<(), StartError<E>>(e),
            self.error() is None && self.plan().refusal is Some ==> (result matches Err(e)
                && e matches StartError::Raised(m) && Some(m@) == self.plan().refusal),
    {
        match self.error {
            Some(e) => Err(e),
            None => match self.plan.refusal {
                Some(m) => Err(StartError::Raised(m)),
                None => Ok(()),
            },
        }
    }
}

/// Once a step has failed no other is performed, whatever the plan.
pub proof fn law_failure_is_final<E>(startup: Startup<E>)
    requires
        startup.error() is Some,
    ensures
        startup.spec_turn() is Stopped,
{
}

/// A step is performed only when every step before it is done.
pub proof fn law_steps_are_taken_in_order<E>(startup: Startup<E>, i: int)
    requires
        0 <= i < startup.plan().steps.len(),
        startup.plan().steps.no_duplicates(),
        startup.spec_turn() == Turn::Perform(startup.plan().steps[i]),
    ensures
        startup.done() == i,
{
}

} // verus!
