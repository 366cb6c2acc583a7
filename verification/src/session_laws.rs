//! What holds of a whole job, whatever the outside world answers.

use crate::command::RequestView;
use crate::command;
use crate::error::{ErrorView, TokenError};
use crate::reference;
use crate::session::{
    ActionView, AuthMoveView, AuthStepView, EventView, JobView, LoginStep, LookupView, TurnView,
};
use crate::session;
use crate::token;
use vstd::prelude::*;

verus! {

/// Where a job stands after a sequence of events.
pub open spec fn reached(start: TurnView, events: Seq<EventView>) -> TurnView
    decreases events.len(),
{
    if events.len() == 0 {
        start
    } else {
        let before = reached(start, events.drop_last());
        session::turn(before.job, before.healthy, events.last())
    }
}

/// Each event answers the action that the job asked for before it.
pub open spec fn answered(start: TurnView, events: Seq<EventView>) -> bool
    decreases events.len(),
{
    events.len() == 0 || {
        &&& answered(start, events.drop_last())
        &&& reached(start, events.drop_last()).job.awaits(events.last())
    }
}

/// How many of the actions asked for, the first one included, satisfy `counts`.
pub open spec fn asked(
    start: TurnView,
    events: Seq<EventView>,
    counts: spec_fn(ActionView) -> bool,
) -> nat
    decreases events.len(),
{
    let here: nat = if counts(reached(start, events).action) {
        1
    } else {
        0
    };
    if events.len() == 0 {
        here
    } else {
        asked(start, events.drop_last(), counts) + here
    }
}

/// The action is a removal of the session state.
pub open spec fn purges() -> spec_fn(ActionView) -> bool {
    |action: ActionView| action is Purge
}

/// The action is a lookup of a secret.
pub open spec fn looks_up() -> spec_fn(ActionView) -> bool {
    |action: ActionView| action matches ActionView::Run(request) && request is View
}

/// The action is a login.
pub open spec fn logs_in() -> spec_fn(ActionView) -> bool {
    |action: ActionView| action matches ActionView::Run(request) && request is Login
}

/// The action is a pass-cli command.
pub open spec fn runs() -> spec_fn(ActionView) -> bool {
    |action: ActionView| action is Run
}

/// Where a job can begin.
pub open spec fn is_start(start: TurnView) -> bool {
    ||| start == session::authenticate_start(start.healthy)
    ||| exists|lookup: LookupView| start == #[trigger] session::resolve_start(lookup, start.healthy)
}

/// How many more events a login can take.
pub open spec fn login_left(at: LoginStep) -> nat {
    match at {
        LoginStep::InspectToken => 4,
        LoginStep::ReadToken => 3,
        LoginStep::Login => 2,
        LoginStep::Validate => 1,
    }
}

/// How many more events an authentication can take.
pub open spec fn auth_left(step: AuthStepView) -> nat {
    match step {
        AuthStepView::Probe => 10,
        AuthStepView::FirstLogin { probe_error, at } => 5 + login_left(at),
        AuthStepView::Purge => 5,
        AuthStepView::FreshLogin { at } => login_left(at),
    }
}

/// How many more events a job can take.
pub open spec fn job_left(job: JobView) -> nat {
    match job {
        JobView::Authenticate { step } => auth_left(step),
        JobView::Prepare { step, lookup } => auth_left(step) + 13,
        JobView::First { lookup } => 13,
        JobView::Recheck { lookup, first_error } => 12,
        JobView::Recover { step, lookup, first_error } => auth_left(step) + 1,
        JobView::Second { lookup } => 1,
        JobView::Finished => 0,
    }
}

/// An authentication comes to its end after at most ten events, and a lookup after at most
/// twenty-three, whatever they are.
pub proof fn law_jobs_end(start: TurnView, events: Seq<EventView>)
    requires
        is_start(start),
        answered(start, events),
    ensures
        events.len() <= 23,
        start == session::authenticate_start(start.healthy) ==> events.len() <= 10,
{
    lemma_events_spend(start, events);
}

/// One event of an authentication leaves fewer of them.
pub proof fn lemma_auth_spends(step: AuthStepView, event: EventView)
    requires
        step.awaits(event),
    ensures
        session::auth_next(step, event) matches AuthMoveView::Ask { step: next, action }
            ==> auth_left(next) < auth_left(step),
        auth_left(step) > 0,
{
}

/// One event of a job leaves fewer of them.
pub proof fn lemma_turn_spends(job: JobView, healthy: bool, event: EventView)
    requires
        job.awaits(event),
    ensures
        job_left(session::turn(job, healthy, event).job) < job_left(job),
{
    match job {
        JobView::Authenticate { step } => lemma_auth_spends(step, event),
        JobView::Prepare { step, lookup } => lemma_auth_spends(step, event),
        JobView::Recover { step, lookup, first_error } => lemma_auth_spends(step, event),
        _ => {},
    }
}

proof fn lemma_events_spend(start: TurnView, events: Seq<EventView>)
    requires
        answered(start, events),
    ensures
        events.len() + job_left(reached(start, events).job) <= job_left(start.job),
    decreases events.len(),
{
    if events.len() > 0 {
        lemma_events_spend(start, events.drop_last());
        let before = reached(start, events.drop_last());
        lemma_turn_spends(before.job, before.healthy, events.last());
    }
}

/// A job is over exactly when its action is a result: as long as it is not over, some event
/// answers its action.
pub proof fn law_result_ends_the_job(start: TurnView, events: Seq<EventView>)
    requires
        is_start(start),
        answered(start, events),
    ensures
        ({
            let now = reached(start, events);
            let over = now.action is Authenticated || now.action is Resolved;
            &&& over <==> now.job is Finished
            &&& !over <==> exists|event: EventView| #[trigger] now.job.awaits(event)
        }),
    decreases events.len(),
{
    let now = reached(start, events);
    let output = EventView::Output(Ok(Seq::empty()));
    let mode = EventView::TokenMode(None);
    let contents = EventView::TokenText(None);
    let purged = EventView::Purged(session::PurgeOutcome::Removed);
    assert(now.job.awaits(output) || now.job.awaits(mode) || now.job.awaits(contents)
        || now.job.awaits(purged) || now.job is Finished);
    if events.len() > 0 {
        law_result_ends_the_job(start, events.drop_last());
    }
}

/// The action that an authentication asks for at a step.
pub open spec fn auth_asks(step: AuthStepView, action: ActionView) -> bool {
    match step {
        AuthStepView::Probe => action == ActionView::Run(RequestView::Probe),
        AuthStepView::FirstLogin { probe_error, at } => login_asks(at, action),
        AuthStepView::Purge => action == ActionView::Purge,
        AuthStepView::FreshLogin { at } => login_asks(at, action),
    }
}

/// The action that a login asks for at a step.
pub open spec fn login_asks(at: LoginStep, action: ActionView) -> bool {
    match at {
        LoginStep::InspectToken => action == ActionView::InspectToken,
        LoginStep::ReadToken => action == ActionView::ReadToken,
        LoginStep::Login => action matches ActionView::Run(request) && request is Login,
        LoginStep::Validate => action == ActionView::Run(RequestView::Probe),
    }
}

/// What holds at every moment of a job: it works on its own lookup, it asks for the action of
/// its step, and the session counts as working exactly from the moment on when it was last seen
/// to work. `subject` is the lookup that the job is for, if it is for one.
pub open spec fn consistent(now: TurnView, subject: Option<LookupView>) -> bool {
    match now.job {
        JobView::Authenticate { step } => {
            &&& subject is None
            &&& auth_asks(step, now.action)
            &&& !(step is Probe) ==> !now.healthy
        },
        JobView::Prepare { step, lookup } => {
            &&& subject == Some(lookup)
            &&& auth_asks(step, now.action)
            &&& !now.healthy
        },
        JobView::First { lookup } => {
            &&& subject == Some(lookup)
            &&& now.action == ActionView::Run(lookup.request())
            &&& now.healthy
        },
        JobView::Recheck { lookup, first_error } => {
            &&& subject == Some(lookup)
            &&& now.action == ActionView::Run(RequestView::Probe)
            &&& !now.healthy
        },
        JobView::Recover { step, lookup, first_error } => {
            &&& subject == Some(lookup)
            &&& auth_asks(step, now.action)
            &&& !now.healthy
        },
        JobView::Second { lookup } => {
            &&& subject == Some(lookup)
            &&& now.action == ActionView::Run(lookup.request())
            &&& now.healthy
        },
        JobView::Finished => match now.action {
            ActionView::Authenticated(r) => subject is None && now.healthy == r is Ok,
            ActionView::Resolved(r) => subject is Some && (r is Ok ==> now.healthy),
            _ => false,
        },
    }
}

/// The lookup that a job is for, given how it begins.
pub open spec fn begins(start: TurnView, subject: Option<LookupView>) -> bool {
    match subject {
        None => start == session::authenticate_start(start.healthy),
        Some(lookup) => start == session::resolve_start(lookup, start.healthy),
    }
}

/// Each action that an authentication asks for is that of its step.
pub proof fn lemma_auth_asks(step: AuthStepView, event: EventView)
    requires
        step.awaits(event),
    ensures
        session::auth_next(step, event) matches AuthMoveView::Ask { step: next, action }
            ==> auth_asks(next, action) && !(next is Probe),
{
}

proof fn lemma_turn_consistent(now: TurnView, event: EventView, subject: Option<LookupView>)
    requires
        now.job.awaits(event),
        consistent(now, subject),
    ensures
        consistent(session::turn(now.job, now.healthy, event), subject),
{
    match now.job {
        JobView::Authenticate { step } => lemma_auth_asks(step, event),
        JobView::Prepare { step, lookup } => lemma_auth_asks(step, event),
        JobView::Recover { step, lookup, first_error } => lemma_auth_asks(step, event),
        _ => {},
    }
}

/// Every moment of every job is consistent.
pub proof fn law_always_consistent(
    start: TurnView,
    events: Seq<EventView>,
    subject: Option<LookupView>,
)
    requires
        begins(start, subject),
        answered(start, events),
    ensures
        consistent(reached(start, events), subject),
    decreases events.len(),
{
    if events.len() > 0 {
        law_always_consistent(start, events.drop_last(), subject);
        lemma_turn_consistent(reached(start, events.drop_last()), events.last(), subject);
    }
}

/// An invalid lookup is refused at once: no command runs and the health does not change.
pub proof fn law_invalid_lookup_does_nothing(
    lookup: LookupView,
    healthy: bool,
    events: Seq<EventView>,
)
    requires
        !reference::valid_reference(lookup.reference) || !reference::valid_reason(lookup.reason),
        answered(session::resolve_start(lookup, healthy), events),
    ensures
        events.len() == 0,
        session::resolve_start(lookup, healthy).action matches ActionView::Resolved(r) && r is Err,
        session::resolve_start(lookup, healthy).healthy == healthy,
{
    lemma_events_spend(session::resolve_start(lookup, healthy), events);
}

/// The only commands of a lookup are the probe, the login, and the view of the very reference
/// that was asked for, with the very reason given; both of them have passed their checks.
pub proof fn law_commands_of_a_lookup(lookup: LookupView, healthy: bool, events: Seq<EventView>)
    requires
        answered(session::resolve_start(lookup, healthy), events),
        reached(session::resolve_start(lookup, healthy), events).action is Run,
    ensures
        ({
            let request = reached(session::resolve_start(lookup, healthy), events).action->Run_0;
            ||| request is Probe
            ||| request is Login
            ||| {
                &&& request == lookup.request()
                &&& reference::valid_reference(lookup.reference)
                &&& reference::valid_reason(lookup.reason)
            }
        }),
{
    let start = session::resolve_start(lookup, healthy);
    law_always_consistent(start, events, Some(lookup));
    lemma_events_spend(start, events);
}

/// The only commands of an authentication are the probe and the login.
pub proof fn law_commands_of_an_authentication(healthy: bool, events: Seq<EventView>)
    requires
        answered(session::authenticate_start(healthy), events),
        reached(session::authenticate_start(healthy), events).action is Run,
    ensures
        ({
            let request = reached(session::authenticate_start(healthy), events).action->Run_0;
            request is Probe || request is Login
        }),
{
    law_always_consistent(session::authenticate_start(healthy), events, None);
}

/// When an authentication is over, the session counts as working exactly if it succeeded; when
/// a lookup gave a secret, the session counts as working.
pub proof fn law_health_follows_the_result(
    start: TurnView,
    events: Seq<EventView>,
    subject: Option<LookupView>,
)
    requires
        begins(start, subject),
        answered(start, events),
    ensures
        ({
            let now = reached(start, events);
            &&& now.action matches ActionView::Authenticated(r) ==> now.healthy == r is Ok
            &&& now.action matches ActionView::Resolved(r) ==> (r is Ok ==> now.healthy)
        }),
{
    law_always_consistent(start, events, subject);
}

/// pass-cli said nothing of a damaged or vanished session.
pub open spec fn harmless(event: EventView) -> bool {
    event matches EventView::Output(Err(e)) ==> !e.recoverable()
}

/// The authentication has heard nothing of a damaged or vanished session.
pub open spec fn unaware(step: AuthStepView) -> bool {
    match step {
        AuthStepView::Probe => true,
        AuthStepView::FirstLogin { probe_error, at } => !probe_error.recoverable(),
        AuthStepView::Purge => false,
        AuthStepView::FreshLogin { at } => false,
    }
}

/// The job has heard nothing of a damaged or vanished session.
pub open spec fn job_unaware(job: JobView) -> bool {
    match job {
        JobView::Authenticate { step } => unaware(step),
        JobView::Prepare { step, lookup } => unaware(step),
        JobView::Recover { step, lookup, first_error } => unaware(step),
        _ => true,
    }
}

proof fn lemma_auth_stays_unaware(step: AuthStepView, event: EventView)
    requires
        step.awaits(event),
        unaware(step),
        harmless(event),
    ensures
        session::auth_next(step, event) matches AuthMoveView::Ask { step: next, action }
            ==> unaware(next) && !(action is Purge),
{
}

proof fn lemma_turn_stays_unaware(job: JobView, healthy: bool, event: EventView)
    requires
        job.awaits(event),
        job_unaware(job),
        harmless(event),
    ensures
        job_unaware(session::turn(job, healthy, event).job),
        !(session::turn(job, healthy, event).action is Purge),
{
    match job {
        JobView::Authenticate { step } => lemma_auth_stays_unaware(step, event),
        JobView::Prepare { step, lookup } => lemma_auth_stays_unaware(step, event),
        JobView::Recover { step, lookup, first_error } => lemma_auth_stays_unaware(step, event),
        _ => {},
    }
}

/// The local session state is never removed unless pass-cli itself named a damaged or vanished
/// session during the job: an outage, a time-out or a bad token file preserves it.
pub proof fn law_purge_needs_evidence(
    start: TurnView,
    events: Seq<EventView>,
    subject: Option<LookupView>,
)
    requires
        begins(start, subject),
        answered(start, events),
        forall|i: int| 0 <= i < events.len() ==> harmless(#[trigger] events[i]),
    ensures
        asked(start, events, purges()) == 0,
{
    lemma_unaware_throughout(start, events);
}

proof fn lemma_unaware_throughout(start: TurnView, events: Seq<EventView>)
    requires
        job_unaware(start.job),
        !(start.action is Purge),
        answered(start, events),
        forall|i: int| 0 <= i < events.len() ==> harmless(#[trigger] events[i]),
    ensures
        job_unaware(reached(start, events).job),
        asked(start, events, purges()) == 0,
    decreases events.len(),
{
    if events.len() > 0 {
        let earlier = events.drop_last();
        assert forall|i: int| 0 <= i < earlier.len() implies harmless(#[trigger] earlier[i]) by {
            assert(earlier[i] == events[i]);
        }
        lemma_unaware_throughout(start, earlier);
        let before = reached(start, earlier);
        assert(events.last() == events[events.len() - 1]);
        lemma_turn_stays_unaware(before.job, before.healthy, events.last());
    }
}

/// How many removals an authentication can still ask for.
pub open spec fn auth_purges_left(step: AuthStepView) -> nat {
    match step {
        AuthStepView::Probe => 1,
        AuthStepView::FirstLogin { probe_error, at } => 1,
        AuthStepView::Purge => 0,
        AuthStepView::FreshLogin { at } => 0,
    }
}

/// How many removals a job can still ask for.
pub open spec fn purges_left(job: JobView) -> nat {
    match job {
        JobView::Authenticate { step } => auth_purges_left(step),
        JobView::Prepare { step, lookup } => auth_purges_left(step) + 1,
        JobView::First { lookup } => 1,
        JobView::Recheck { lookup, first_error } => 1,
        JobView::Recover { step, lookup, first_error } => auth_purges_left(step),
        JobView::Second { lookup } => 0,
        JobView::Finished => 0,
    }
}

/// How many login commands a login can still ask for.
pub open spec fn login_logins_left(at: LoginStep) -> nat {
    match at {
        LoginStep::InspectToken => 1,
        LoginStep::ReadToken => 1,
        LoginStep::Login => 0,
        LoginStep::Validate => 0,
    }
}

/// How many login commands an authentication can still ask for.
pub open spec fn auth_logins_left(step: AuthStepView) -> nat {
    match step {
        AuthStepView::Probe => 2,
        AuthStepView::FirstLogin { probe_error, at } => login_logins_left(at) + 1,
        AuthStepView::Purge => 1,
        AuthStepView::FreshLogin { at } => login_logins_left(at),
    }
}

/// How many login commands a job can still ask for.
pub open spec fn logins_left(job: JobView) -> nat {
    match job {
        JobView::Authenticate { step } => auth_logins_left(step),
        JobView::Prepare { step, lookup } => auth_logins_left(step) + 2,
        JobView::First { lookup } => 2,
        JobView::Recheck { lookup, first_error } => 2,
        JobView::Recover { step, lookup, first_error } => auth_logins_left(step),
        JobView::Second { lookup } => 0,
        JobView::Finished => 0,
    }
}

/// How many commands a login can still ask for.
pub open spec fn login_commands_left(at: LoginStep) -> nat {
    match at {
        LoginStep::InspectToken => 2,
        LoginStep::ReadToken => 2,
        LoginStep::Login => 1,
        LoginStep::Validate => 0,
    }
}

/// How many commands an authentication can still ask for.
pub open spec fn auth_commands_left(step: AuthStepView) -> nat {
    match step {
        AuthStepView::Probe => 4,
        AuthStepView::FirstLogin { probe_error, at } => login_commands_left(at) + 2,
        AuthStepView::Purge => 2,
        AuthStepView::FreshLogin { at } => login_commands_left(at),
    }
}

/// How many commands a job can still ask for.
pub open spec fn commands_left(job: JobView) -> nat {
    match job {
        JobView::Authenticate { step } => auth_commands_left(step),
        JobView::Prepare { step, lookup } => auth_commands_left(step) + 8,
        JobView::First { lookup } => 7,
        JobView::Recheck { lookup, first_error } => 6,
        JobView::Recover { step, lookup, first_error } => auth_commands_left(step) + 1,
        JobView::Second { lookup } => 0,
        JobView::Finished => 0,
    }
}

/// How many lookups a job can still ask for.
pub open spec fn lookups_left(job: JobView) -> nat {
    match job {
        JobView::Authenticate { step } => 0,
        JobView::Prepare { step, lookup } => 2,
        JobView::First { lookup } => 1,
        JobView::Recheck { lookup, first_error } => 1,
        JobView::Recover { step, lookup, first_error } => 1,
        JobView::Second { lookup } => 0,
        JobView::Finished => 0,
    }
}

proof fn lemma_auth_uses_up(step: AuthStepView, event: EventView)
    requires
        step.awaits(event),
    ensures
        session::auth_next(step, event) matches AuthMoveView::Ask { step: next, action } ==> {
            &&& auth_purges_left(next) + (if action is Purge { 1int } else { 0 })
                <= auth_purges_left(step)
            &&& auth_logins_left(next) + (if logs_in()(action) { 1int } else { 0 })
                <= auth_logins_left(step)
            &&& auth_commands_left(next) + (if runs()(action) { 1int } else { 0 })
                <= auth_commands_left(step)
            &&& !looks_up()(action)
        },
{
}

proof fn lemma_turn_uses_up(job: JobView, healthy: bool, event: EventView)
    requires
        job.awaits(event),
    ensures
        ({
            let next = session::turn(job, healthy, event);
            &&& purges_left(next.job) + (if purges()(next.action) { 1int } else { 0 })
                <= purges_left(job)
            &&& logins_left(next.job) + (if logs_in()(next.action) { 1int } else { 0 })
                <= logins_left(job)
            &&& commands_left(next.job) + (if runs()(next.action) { 1int } else { 0 })
                <= commands_left(job)
            &&& lookups_left(next.job) + (if looks_up()(next.action) { 1int } else { 0 })
                <= lookups_left(job)
        }),
{
    match job {
        JobView::Authenticate { step } => lemma_auth_uses_up(step, event),
        JobView::Prepare { step, lookup } => lemma_auth_uses_up(step, event),
        JobView::Recover { step, lookup, first_error } => lemma_auth_uses_up(step, event),
        _ => {},
    }
}

proof fn lemma_events_use_up(start: TurnView, events: Seq<EventView>)
    requires
        answered(start, events),
    ensures
        asked(start, events, purges()) + purges_left(reached(start, events).job) <= purges_left(
            start.job,
        ) + (if purges()(start.action) { 1int } else { 0 }),
        asked(start, events, logs_in()) + logins_left(reached(start, events).job) <= logins_left(
            start.job,
        ) + (if logs_in()(start.action) { 1int } else { 0 }),
        asked(start, events, runs()) + commands_left(reached(start, events).job) <= commands_left(
            start.job,
        ) + (if runs()(start.action) { 1int } else { 0 }),
        asked(start, events, looks_up()) + lookups_left(reached(start, events).job)
            <= lookups_left(start.job) + (if looks_up()(start.action) { 1int } else { 0 }),
    decreases events.len(),
{
    if events.len() > 0 {
        lemma_events_use_up(start, events.drop_last());
        let before = reached(start, events.drop_last());
        lemma_turn_uses_up(before.job, before.healthy, events.last());
    }
}

/// An authentication removes the session state at most once, logs in at most twice, runs at most
/// five commands, and never looks a secret up.
pub proof fn law_authentication_is_bounded(healthy: bool, events: Seq<EventView>)
    requires
        answered(session::authenticate_start(healthy), events),
    ensures
        asked(session::authenticate_start(healthy), events, purges()) <= 1,
        asked(session::authenticate_start(healthy), events, logs_in()) <= 2,
        asked(session::authenticate_start(healthy), events, runs()) <= 5,
        asked(session::authenticate_start(healthy), events, looks_up()) == 0,
{
    lemma_events_use_up(session::authenticate_start(healthy), events);
}

/// A lookup is made at most twice. On the way the session state is removed at most twice, with at
/// most four logins, and at most thirteen commands run. When the session is known to work at the
/// start, there is at most one removal, two logins and eight commands.
pub proof fn law_lookup_is_bounded(lookup: LookupView, healthy: bool, events: Seq<EventView>)
    requires
        answered(session::resolve_start(lookup, healthy), events),
    ensures
        asked(session::resolve_start(lookup, healthy), events, looks_up()) <= 2,
        asked(session::resolve_start(lookup, healthy), events, purges()) <= if healthy {
            1int
        } else {
            2
        },
        asked(session::resolve_start(lookup, healthy), events, logs_in()) <= if healthy {
            2int
        } else {
            4
        },
        asked(session::resolve_start(lookup, healthy), events, runs()) <= if healthy {
            8int
        } else {
            13
        },
{
    lemma_events_use_up(session::resolve_start(lookup, healthy), events);
}

proof fn lemma_auth_reads_token(step: AuthStepView, event: EventView)
    requires
        step.awaits(event),
    ensures
        session::auth_next(step, event) matches AuthMoveView::Ask { step: next, action } ==> {
            &&& action is ReadToken ==> (event matches EventView::TokenMode(Some(m))
                && token::private_mode(m))
            &&& action matches ActionView::Run(RequestView::Login { token }) ==> {
                &&& auth_asks(step, ActionView::ReadToken)
                &&& event matches EventView::TokenText(contents)
                &&& token::token_in(contents) == Ok::<Seq<char>, TokenError>(token)
            }
        },
{
}

proof fn lemma_turn_reads_token(now: TurnView, event: EventView, subject: Option<LookupView>)
    requires
        now.job.awaits(event),
        consistent(now, subject),
    ensures
        ({
            let next = session::turn(now.job, now.healthy, event);
            &&& next.action is ReadToken ==> (event matches EventView::TokenMode(Some(m))
                && token::private_mode(m))
            &&& next.action matches ActionView::Run(RequestView::Login { token }) ==> {
                &&& now.action is ReadToken
                &&& event matches EventView::TokenText(contents)
                &&& token::token_in(contents) == Ok::<Seq<char>, TokenError>(token)
            }
        }),
{
    match now.job {
        JobView::Authenticate { step } => lemma_auth_reads_token(step, event),
        JobView::Prepare { step, lookup } => lemma_auth_reads_token(step, event),
        JobView::Recover { step, lookup, first_error } => lemma_auth_reads_token(step, event),
        _ => {},
    }
}

/// The token file is read only when its permissions have just been looked up and shut out the
/// group and others.
pub proof fn law_token_file_is_private(
    start: TurnView,
    events: Seq<EventView>,
    subject: Option<LookupView>,
)
    requires
        begins(start, subject),
        answered(start, events),
        reached(start, events).action is ReadToken,
    ensures
        events.len() > 0,
        events.last() matches EventView::TokenMode(Some(m)) && token::private_mode(m),
{
    law_always_consistent(start, events.drop_last(), subject);
    lemma_turn_reads_token(reached(start, events.drop_last()), events.last(), subject);
}

/// A login hands over the token that was just read from the token file, which was found private
/// just before.
pub proof fn law_login_uses_the_token_of_the_file(
    start: TurnView,
    events: Seq<EventView>,
    subject: Option<LookupView>,
    token: Seq<char>,
)
    requires
        begins(start, subject),
        answered(start, events),
        reached(start, events).action == ActionView::Run(RequestView::Login { token }),
    ensures
        events.len() > 1,
        events.last() matches EventView::TokenText(contents) && token::token_in(contents) == Ok::<
            Seq<char>,
            TokenError,
        >(token),
        events[events.len() - 2] matches EventView::TokenMode(Some(m)) && token::private_mode(m),
{
    let earlier = events.drop_last();
    law_always_consistent(start, earlier, subject);
    lemma_turn_reads_token(reached(start, earlier), events.last(), subject);
    law_token_file_is_private(start, earlier, subject);
    assert(earlier.last() == events[events.len() - 2]);
}

/// A secret is never remembered: the one that a lookup gives is in the output of the last
/// command, and that command was the view of this lookup.
pub proof fn law_secret_is_of_this_lookup(
    lookup: LookupView,
    healthy: bool,
    events: Seq<EventView>,
    secret: Seq<char>,
)
    requires
        answered(session::resolve_start(lookup, healthy), events),
        reached(session::resolve_start(lookup, healthy), events).action == ActionView::Resolved(
            Ok(secret),
        ),
    ensures
        events.len() > 0,
        reached(session::resolve_start(lookup, healthy), events.drop_last()).action
            == ActionView::Run(lookup.request()),
        events.last() matches EventView::Output(output) && command::secret_of(output) == Ok::<
            Seq<char>,
            ErrorView,
        >(secret),
{
    let start = session::resolve_start(lookup, healthy);
    law_always_consistent(start, events.drop_last(), Some(lookup));
}

} // verus!
