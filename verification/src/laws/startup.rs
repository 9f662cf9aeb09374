//! How a plan is carried out, and what a start ends in.

use crate::error::{config_error, database_error, internal_error, ErrorView, MediatorError};
use crate::net::{format_socket, SocketAddress};
use crate::startup::{
    start_error, Failure, Outcome, Plan, StartError, Startup, Step, Task, Turn,
};
use vstd::prelude::*;

verus! {

/// What each background task is called, whether the mediator is not ready without it, and how many
/// seconds lie between two rounds of those that run on a timer.
pub proof fn law_tasks_are_what_they_are_called(
    task: Task,
    name: &'static str,
    needed: bool,
    secs: Option<u64>,
)
    requires
        call_ensures(Task::name, (&task,), name),
        call_ensures(Task::load_bearing, (&task,), needed),
        call_ensures(Task::interval_secs, (&task,), secs),
    ensures
        task == Task::Statistics ==> name@ == "statistics"@ && !needed && secs is None,
        task == Task::ForwardingProcessor ==> name@ == "forwarding_processor"@ && needed
            && secs is None,
        task == Task::MessageExpirySweep ==> name@ == "message_expiry_sweep"@ && !needed && secs
            == Some(1u64),
        task == Task::SessionExpirySweep ==> name@ == "session_expiry_sweep"@ && !needed && secs
            == Some(300u64),
        task == Task::VtaRefresh ==> name@ == "vta_refresh"@ && needed && secs is None,
        task == Task::DidRateLimitSweep ==> name@ == "did_rate_limit_sweep"@ && !needed && secs
            == Some(300u64),
{
}

/// Connecting to the database, and draining requests, may take 30 seconds each.
pub proof fn law_waits_are_bounded()
    ensures
        crate::startup::DATABASE_TIMEOUT_SECS == 30,
        crate::startup::DRAIN_SECS == 30,
{
}

/// Each kind of error outside of a session has its own code.
pub proof fn law_errors_have_their_codes(text: String, error: MediatorError)
    ensures
        call_ensures(config_error, (text,), error) ==> error@ == ErrorView::ConfigError(
            12,
            "NA"@,
            text@,
        ),
        call_ensures(database_error, (text,), error) ==> error@ == ErrorView::DatabaseError(
            14,
            "NA"@,
            text@,
        ),
        call_ensures(internal_error, (text,), error) ==> error@ == ErrorView::InternalError(
            17,
            "NA"@,
            text@,
        ),
{
}

/// An error of a step's own, or of this library, is passed on as it is; where connecting to the
/// database took too long, the error says so.
pub proof fn law_failures_are_passed_on<E>(step: Step, failure: Failure<E>, error: StartError<E>)
    requires
        call_ensures(start_error::<E>, (step, failure), error),
    ensures
        failure matches Failure::Passed(e) ==> error == StartError::Passed(e),
        failure matches Failure::Raised(m) ==> error == StartError::<E>::Raised(m),
        failure is TimedOut ==> (error matches StartError::Raised(m) && m@
            == ErrorView::DatabaseError(
            14,
            "NA"@,
            "Database connection timed out after 30 seconds"@,
        )),
{
}

/// A failure that comes as a text is told with the step in which it came, and with the kind of
/// error that the step raises.
pub proof fn law_failures_tell_their_step<E>(
    step: Step,
    text: String,
    error: StartError<E>,
    addr: SocketAddress,
    address: String,
)
    requires
        call_ensures(start_error::<E>, (step, Failure::Text(text)), error),
        call_ensures(format_socket, (addr,), address),
    ensures
        error is Raised,
        step is LoadTls ==> error->Raised_0@ == ErrorView::ConfigError(
            12,
            "NA"@,
            "Invalid TLS certificate/key: "@ + text@,
        ),
        step is OpenDatabase ==> error->Raised_0@ == ErrorView::DatabaseError(
            14,
            "NA"@,
            "Error opening database: "@ + text@,
        ),
        step is CreateResolver ==> error->Raised_0@ == ErrorView::ConfigError(
            12,
            "NA"@,
            "Failed to create DID resolver: "@ + text@,
        ),
        step == Step::Bind(addr) ==> error->Raised_0@ == ErrorView::InternalError(
            17,
            "NA"@,
            "Failed to bind "@ + address@ + ": "@ + text@,
        ),
        step is SetNonblocking ==> error->Raised_0@ == ErrorView::InternalError(
            17,
            "NA"@,
            "Failed to set listener nonblocking: "@ + text@,
        ),
        step is ReadBoundAddress ==> error->Raised_0@ == ErrorView::InternalError(
            17,
            "NA"@,
            "Failed to read bound listener address: "@ + text@,
        ),
        step == (Step::ServeListener { tls: true }) ==> error->Raised_0@
            == ErrorView::InternalError(
            17,
            "NA"@,
            "Failed to wrap TCP listener with TLS: "@ + text@,
        ),
        step == (Step::ServeListener { tls: false }) ==> error->Raised_0@
            == ErrorView::InternalError(17, "NA"@, "Failed to wrap TCP listener: "@ + text@),
{
}

/// Every failure that a step can have is told: those with an error of their own, those with a text,
/// a connection to the database that takes too long, and endpoints that cannot be built.
pub proof fn law_every_failure_of_a_step_is_told<E>(
    step: Step,
    passed: E,
    text: String,
    raised: MediatorError,
)
    ensures
        step is OpenFjall || step is Serve || step is Join || step is InstallTracing
            || step is InitializeStore || step is InitializeDatabase || step is LoadScripts
            || step is SetupAdmin ==> call_requires(
            start_error::<E>,
            (step, Failure::Passed(passed)),
        ),
        step is LoadTls || step is OpenDatabase || step is CreateResolver || step is Bind
            || step is SetNonblocking || step is ReadBoundAddress || step is ServeListener
            ==> call_requires(start_error::<E>, (step, Failure::Text(text))),
        step is OpenDatabase ==> call_requires(start_error::<E>, (step, Failure::TimedOut)),
        step is PublishEndpoints ==> call_requires(
            start_error::<E>,
            (step, Failure::Raised(raised)),
        ),
{
}

/// The plans of no step and of one step, and the plan that is refused, are what they say. One plan
/// after another takes the steps of the one and then of the other, and ends as the other does,
/// unless the first is refused: then nothing of the second is done.
pub proof fn law_plans_follow_one_another(
    step: Step,
    wanted: bool,
    error: MediatorError,
    first: Plan,
    second: Plan,
    none: Plan,
    one: Plan,
    maybe: Plan,
    refused: Plan,
    both: Plan,
)
    requires
        call_ensures(Plan::empty, (), none),
        call_ensures(Plan::one, (step,), one),
        call_ensures(Plan::when, (wanted, step), maybe),
        call_ensures(Plan::refused, (error,), refused),
        call_ensures(Plan::followed, (first, second), both),
    ensures
        none.steps@.len() == 0 && none.refusal is None,
        one.steps@ == seq![step] && one.refusal is None,
        wanted ==> maybe.steps@ == seq![step],
        !wanted ==> maybe.steps@.len() == 0,
        maybe.refusal is None,
        refused.steps@.len() == 0 && (refused.refusal matches Some(e) && e@ == error@),
        first.refusal is None ==> both.steps@ == first.steps@ + second.steps@ && both@.refusal
            == second@.refusal,
        first.refusal is Some ==> both.steps@ == first.steps@ && both@.refusal == first@.refusal,
{
    assert(none@.steps == none.steps@ && one@.steps == one.steps@ && maybe@.steps == maybe.steps@);
}

/// A start begins with the first step of its plan. A plan without steps is done at once, unless it
/// is refused.
pub proof fn law_a_start_begins_with_the_first_step<E>(plan: Plan, startup: Startup<E>, turn: Turn)
    requires
        call_ensures(Startup::<E>::new, (plan,), startup),
        call_ensures(Startup::<E>::turn, (&startup,), turn),
    ensures
        startup.plan().steps == plan.steps@,
        startup.plan().refusal == crate::error::opt_error_view(plan.refusal),
        startup.done() == 0,
        startup.error() is None,
        plan.steps@.len() > 0 ==> turn == Turn::Perform(plan.steps@[0]),
        plan.steps@.len() == 0 ==> turn == if plan.refusal is Some {
            Turn::Stopped
        } else {
            Turn::Ready
        },
{
}

/// After a step that is done comes the next one of the plan. After the last, a start is ready, or
/// stopped where the plan ends in a refusal. After a step that failed it is stopped, with the error
/// of that step.
pub proof fn law_steps_come_one_after_another<E>(
    outcome: Outcome<E>,
    turn: Turn,
    step: Step,
    error: StartError<E>,
)
    requires
        outcome matches Outcome::Failed(failure) ==> call_ensures(
            start_error::<E>,
            (step, failure),
            error,
        ),
    ensures
        forall|startup: &mut Startup<E>| #[trigger]
            call_ensures(Startup::<E>::report, (startup, outcome), ()) && #[trigger] call_ensures(
                Startup::<E>::turn,
                (&*final(startup),),
                turn,
            ) && startup.error() is None && startup.done() < startup.plan().steps.len() ==> {
                let steps = startup.plan().steps;
                let done = startup.done() as int;
                &&& final(startup).plan() == startup.plan()
                &&& outcome is Done ==> final(startup).done() == done + 1
                &&& outcome is Done ==> final(startup).error() is None
                &&& outcome is Done && done + 1 < steps.len() ==> turn == Turn::Perform(
                    steps[done + 1],
                )
                &&& outcome is Done && done + 1 == steps.len() ==> turn
                    == if startup.plan().refusal is Some {
                    Turn::Stopped
                } else {
                    Turn::Ready
                }
                &&& outcome is Failed ==> turn == Turn::Stopped
                &&& outcome is Failed ==> final(startup).done() == done
                &&& outcome matches Outcome::Failed(Failure::Passed(e)) ==> final(startup).error()
                    == Some(StartError::<E>::Passed(e))
                &&& outcome matches Outcome::Failed(Failure::Raised(m)) ==> final(startup).error()
                    == Some(StartError::<E>::Raised(m))
                &&& outcome is Failed ==> final(startup).error() is Some
                &&& outcome is Failed && step == steps[done] && error is Raised ==> (
                final(startup).error() matches Some(StartError::Raised(m)) && m@
                    == error->Raised_0@)
            },
{
}

/// A start ends well exactly where every step is done and the plan does not end in a refusal.
/// Otherwise it ends in the error of the step that failed, or in the refusal.
pub proof fn law_a_start_ends_in_its_error<E>(
    startup: Startup<E>,
    turn: Turn,
    result: Result<(), StartError<E>>,
)
    requires
        call_ensures(Startup::<E>::turn, (&startup,), turn),
        !(turn is Perform),
        call_ensures(Startup::<E>::finish, (startup,), result),
    ensures
        turn is Ready <==> result is Ok,
        result is Ok <==> startup.error() is None && startup.plan().refusal is None,
        startup.error() matches Some(e) ==> result == Err::<(), StartError<E>>(e),
        startup.error() is None ==> (startup.plan().refusal matches Some(refusal) ==> (
        result matches Err(StartError::Raised(m)) && m@ == refusal)),
{
}

} // verus!
