//! The result of a whole job as a function of what the outside world answers.

use crate::command;
use crate::error::{CauseView, Context, ErrorView};
use crate::http;
use crate::reference;
use crate::session::{
    ActionView, AuthMoveView, AuthStepView, EventView, JobView, LoginStep, LookupView, PurgeOutcome,
    TurnView,
};
use crate::session;
use crate::session_laws;
use crate::text;
use crate::token;
use vstd::prelude::*;

verus! {

/// What a login would be told.
pub struct LoginAnswers {
    pub mode: Option<u32>,
    pub contents: Option<Seq<char>>,
    pub login: Result<Seq<char>, ErrorView>,
    pub probe: Result<Seq<char>, ErrorView>,
}

/// What an authentication would be told.
pub struct AuthAnswers {
    pub probe: Result<Seq<char>, ErrorView>,
    pub login: LoginAnswers,
    pub purge: PurgeOutcome,
    pub fresh_login: LoginAnswers,
}

/// What a job would be told.
pub struct Answers {
    pub prepare: AuthAnswers,
    pub first: Result<Seq<char>, ErrorView>,
    pub recheck: Result<Seq<char>, ErrorView>,
    pub recover: AuthAnswers,
    pub second: Result<Seq<char>, ErrorView>,
}

/// The result of a login: a private token file, a token in it, a login, and a session.
pub open spec fn login_result(a: LoginAnswers) -> Result<(), ErrorView> {
    if let Err(e) = token::token_access(a.mode) {
        Err(ErrorView::of(CauseView::Token(e)))
    } else if let Err(e) = token::token_in(a.contents) {
        Err(ErrorView::of(CauseView::Token(e)))
    } else if let Err(e) = a.login {
        Err(e.within(Context::Login))
    } else if let Err(e) = a.probe {
        Err(e.within(Context::ValidationAfterLogin))
    } else {
        Ok(())
    }
}

/// The result of starting over without the local session state.
pub open spec fn rebuild_result(a: AuthAnswers) -> Result<(), ErrorView> {
    if a.purge == PurgeOutcome::Failed {
        Err(ErrorView::of(CauseView::CannotPurge))
    } else {
        match login_result(a.fresh_login) {
            Ok(()) => Ok(()),
            Err(e) => Err(e.within(Context::LoginAfterPurge)),
        }
    }
}

/// The result of an authentication: a working session or a login is enough; otherwise the
/// session is rebuilt if there is evidence that it is damaged, and preserved if there is none.
pub open spec fn authentication_result(a: AuthAnswers) -> Result<(), ErrorView> {
    match (a.probe, login_result(a.login)) {
        (Ok(_), _) => Ok(()),
        (Err(_), Ok(())) => Ok(()),
        (Err(probe_error), Err(login_error)) => if probe_error.recoverable()
            || login_error.recoverable() {
            rebuild_result(a)
        } else {
            Err(login_error.within(Context::SessionPreserved))
        },
    }
}

/// The result of a valid lookup that begins with the first view: its secret. When that fails
/// although the session works, its error; when the session cannot be recovered, its error in
/// the context of the recovery; otherwise the result of the second view.
pub open spec fn view_result(a: Answers) -> Result<Seq<char>, ErrorView> {
    match command::secret_of(a.first) {
        Ok(secret) => Ok(secret),
        Err(first_error) => if a.recheck is Ok {
            Err(first_error)
        } else if authentication_result(a.recover) is Err {
            Err(first_error.within(Context::SessionRecovery))
        } else {
            command::secret_of(a.second)
        },
    }
}

/// The result of a lookup.
pub open spec fn lookup_result(lookup: LookupView, healthy: bool, a: Answers) -> Result<
    Seq<char>,
    ErrorView,
> {
    if let Some(cause) = session::lookup_fault(lookup) {
        Err(ErrorView::of(cause))
    } else if healthy {
        view_result(a)
    } else {
        match authentication_result(a.prepare) {
            Ok(()) => view_result(a),
            Err(e) => Err(e),
        }
    }
}

/// Whether the session counts as working after a lookup that begins with the first view.
pub open spec fn view_health(a: Answers) -> bool {
    ||| command::secret_of(a.first) is Ok
    ||| a.recheck is Ok
    ||| authentication_result(a.recover) is Ok && command::secret_of(a.second) is Ok
}

/// Whether the session counts as working after a lookup.
pub open spec fn lookup_health(lookup: LookupView, healthy: bool, a: Answers) -> bool {
    if !reference::valid_reference(lookup.reference) || !reference::valid_reason(lookup.reason) {
        healthy
    } else if healthy {
        view_health(a)
    } else {
        authentication_result(a.prepare) is Ok && view_health(a)
    }
}

/// What a login is told at a step.
pub open spec fn login_answer(at: LoginStep, a: LoginAnswers) -> EventView {
    match at {
        LoginStep::InspectToken => EventView::TokenMode(a.mode),
        LoginStep::ReadToken => EventView::TokenText(a.contents),
        LoginStep::Login => EventView::Output(a.login),
        LoginStep::Validate => EventView::Output(a.probe),
    }
}

/// What an authentication is told at a step.
pub open spec fn auth_answer(step: AuthStepView, a: AuthAnswers) -> EventView {
    match step {
        AuthStepView::Probe => EventView::Output(a.probe),
        AuthStepView::FirstLogin { probe_error, at } => login_answer(at, a.login),
        AuthStepView::Purge => EventView::Purged(a.purge),
        AuthStepView::FreshLogin { at } => login_answer(at, a.fresh_login),
    }
}

/// What a job is told.
pub open spec fn answer(job: JobView, a: Answers) -> EventView {
    match job {
        JobView::Authenticate { step } => auth_answer(step, a.prepare),
        JobView::Prepare { step, lookup } => auth_answer(step, a.prepare),
        JobView::First { lookup } => EventView::Output(a.first),
        JobView::Recheck { lookup, first_error } => EventView::Output(a.recheck),
        JobView::Recover { step, lookup, first_error } => auth_answer(step, a.recover),
        JobView::Second { lookup } => EventView::Output(a.second),
        JobView::Finished => arbitrary(),
    }
}

/// Where a job ends when it is told these answers.
pub open spec fn ending(now: TurnView, a: Answers) -> TurnView
    decreases session_laws::job_left(now.job),
{
    if now.job is Finished {
        now
    } else {
        proof {
            lemma_answer_is_awaited(now.job, a);
            session_laws::lemma_turn_spends(now.job, now.healthy, answer(now.job, a));
        }
        ending(session::turn(now.job, now.healthy, answer(now.job, a)), a)
    }
}

/// The answers fit the actions of every job that is not over.
pub proof fn lemma_answer_is_awaited(job: JobView, a: Answers)
    requires
        !(job is Finished),
    ensures
        job.awaits(answer(job, a)),
{
}

/// What is left of a login from a step on.
spec fn login_rest(at: LoginStep, a: LoginAnswers) -> Result<(), ErrorView> {
    let validated = match a.probe {
        Ok(_) => Ok(()),
        Err(e) => Err(e.within(Context::ValidationAfterLogin)),
    };
    let logged_in = match a.login {
        Ok(_) => validated,
        Err(e) => Err(e.within(Context::Login)),
    };
    let read = match token::token_in(a.contents) {
        Ok(_) => logged_in,
        Err(e) => Err(ErrorView::of(CauseView::Token(e))),
    };
    match at {
        LoginStep::InspectToken => match token::token_access(a.mode) {
            Ok(()) => read,
            Err(e) => Err(ErrorView::of(CauseView::Token(e))),
        },
        LoginStep::ReadToken => read,
        LoginStep::Login => logged_in,
        LoginStep::Validate => validated,
    }
}

/// What is left of an authentication from a step on.
spec fn auth_rest(step: AuthStepView, a: AuthAnswers) -> Result<(), ErrorView> {
    match step {
        AuthStepView::Probe => authentication_result(a),
        AuthStepView::FirstLogin { probe_error, at } => match login_rest(at, a.login) {
            Ok(()) => Ok(()),
            Err(e) => if probe_error.recoverable() || e.recoverable() {
                rebuild_result(a)
            } else {
                Err(e.within(Context::SessionPreserved))
            },
        },
        AuthStepView::Purge => rebuild_result(a),
        AuthStepView::FreshLogin { at } => match login_rest(at, a.fresh_login) {
            Ok(()) => Ok(()),
            Err(e) => Err(e.within(Context::LoginAfterPurge)),
        },
    }
}

/// A job that authenticates, put at a step.
spec fn at_step(job: JobView, step: AuthStepView) -> JobView {
    match job {
        JobView::Authenticate { .. } => JobView::Authenticate { step },
        JobView::Prepare { lookup, .. } => JobView::Prepare { step, lookup },
        JobView::Recover { lookup, first_error, .. } => JobView::Recover {
            step,
            lookup,
            first_error,
        },
        _ => job,
    }
}

/// A job that authenticates.
spec fn authenticates(job: JobView) -> bool {
    job is Authenticate || job is Prepare || job is Recover
}

/// The answers that are for the authentication of a job.
spec fn auth_part(job: JobView, a: Answers) -> AuthAnswers {
    if job is Recover {
        a.recover
    } else {
        a.prepare
    }
}

/// What a job does when its authentication is over.
spec fn after_auth(job: JobView, result: Result<(), ErrorView>) -> TurnView {
    match (job, result) {
        (JobView::Prepare { lookup, .. }, Ok(())) => TurnView {
            job: JobView::First { lookup },
            action: ActionView::Run(lookup.request()),
            healthy: true,
        },
        (JobView::Prepare { lookup, .. }, Err(e)) => TurnView {
            job: JobView::Finished,
            action: ActionView::Resolved(Err(e)),
            healthy: false,
        },
        (JobView::Recover { lookup, first_error, .. }, Ok(())) => TurnView {
            job: JobView::Second { lookup },
            action: ActionView::Run(lookup.request()),
            healthy: true,
        },
        (JobView::Recover { lookup, first_error, .. }, Err(_)) => TurnView {
            job: JobView::Finished,
            action: ActionView::Resolved(Err(first_error.within(Context::SessionRecovery))),
            healthy: false,
        },
        _ => TurnView {
            job: JobView::Finished,
            action: ActionView::Authenticated(result),
            healthy: result is Ok,
        },
    }
}

/// One answer keeps what is left of an authentication.
proof fn lemma_auth_answered(step: AuthStepView, a: AuthAnswers)
    ensures
        step.awaits(auth_answer(step, a)),
        match session::auth_next(step, auth_answer(step, a)) {
            AuthMoveView::Ask { step: next, action } => auth_rest(next, a) == auth_rest(step, a),
            AuthMoveView::Done => auth_rest(step, a) == Ok::<(), ErrorView>(()),
            AuthMoveView::Failed(e) => auth_rest(step, a) == Err::<(), ErrorView>(e),
        },
{
    match step {
        AuthStepView::Probe => {
            lemma_login_rest(a.login);
        },
        AuthStepView::FirstLogin { probe_error, at } => {},
        AuthStepView::Purge => {
            lemma_login_rest(a.fresh_login);
        },
        AuthStepView::FreshLogin { at } => {},
    }
}

proof fn lemma_login_rest(a: LoginAnswers)
    ensures
        login_rest(LoginStep::InspectToken, a) == login_result(a),
{
}

/// The authentication of a job, played to its end.
proof fn lemma_auth_played(now: TurnView, step: AuthStepView, a: Answers)
    requires
        authenticates(now.job),
        now.job == at_step(now.job, step),
    ensures
        ending(now, a) == ending(
            after_auth(now.job, auth_rest(step, auth_part(now.job, a))),
            a,
        ),
    decreases session_laws::auth_left(step),
{
    let part = auth_part(now.job, a);
    let event = auth_answer(step, part);
    lemma_auth_answered(step, part);
    session_laws::lemma_auth_spends(step, event);
    assert(answer(now.job, a) == event);
    let next = session::turn(now.job, now.healthy, event);
    assert(ending(now, a) == ending(next, a));
    match session::auth_next(step, event) {
        AuthMoveView::Ask { step: later, action } => {
            assert(next.job == at_step(now.job, later));
            lemma_auth_played(next, later, a);
        },
        _ => {},
    }
}

/// An authentication ends with exactly this result, and the session counts as working exactly
/// if it is a success.
pub proof fn law_authentication_outcome(healthy: bool, a: Answers)
    ensures
        ({
            let end = ending(session::authenticate_start(healthy), a);
            let result = authentication_result(a.prepare);
            &&& end.job is Finished
            &&& end.action == ActionView::Authenticated(result)
            &&& end.healthy == result is Ok
        }),
{
    lemma_auth_played(session::authenticate_start(healthy), AuthStepView::Probe, a);
}

/// The part of a lookup that begins with the first view.
proof fn lemma_view_played(now: TurnView, lookup: LookupView, a: Answers)
    requires
        now.job == (JobView::First { lookup }),
    ensures
        ending(now, a) == (TurnView {
            job: JobView::Finished,
            action: ActionView::Resolved(view_result(a)),
            healthy: view_health(a),
        }),
{
    let second = session::turn(now.job, now.healthy, answer(now.job, a));
    assert(ending(now, a) == ending(second, a));
    if let Err(first_error) = command::secret_of(a.first) {
        let third = session::turn(second.job, second.healthy, answer(second.job, a));
        assert(ending(second, a) == ending(third, a));
        if a.recheck is Err {
            lemma_auth_played(third, AuthStepView::Probe, a);
            let fourth = after_auth(third.job, authentication_result(a.recover));
            if authentication_result(a.recover) is Ok {
                let fifth = session::turn(fourth.job, fourth.healthy, answer(fourth.job, a));
                assert(ending(fourth, a) == ending(fifth, a));
            }
        }
    }
}

/// A lookup ends with exactly this result, and the session then counts as working exactly in
/// these cases.
pub proof fn law_lookup_outcome(lookup: LookupView, healthy: bool, a: Answers)
    ensures
        ({
            let end = ending(session::resolve_start(lookup, healthy), a);
            &&& end.job is Finished
            &&& end.action == ActionView::Resolved(lookup_result(lookup, healthy, a))
            &&& end.healthy == lookup_health(lookup, healthy, a)
        }),
{
    let start = session::resolve_start(lookup, healthy);
    if reference::valid_reference(lookup.reference) && reference::valid_reason(lookup.reason) {
        if healthy {
            lemma_view_played(start, lookup, a);
        } else {
            lemma_auth_played(start, AuthStepView::Probe, a);
            let next = after_auth(start.job, authentication_result(a.prepare));
            if authentication_result(a.prepare) is Ok {
                lemma_view_played(next, lookup, a);
            }
        }
    }
}

/// What a job is told, event by event, when it is told these answers.
pub open spec fn told(now: TurnView, a: Answers) -> Seq<EventView>
    decreases session_laws::job_left(now.job),
{
    if now.job is Finished {
        Seq::empty()
    } else {
        proof {
            lemma_answer_is_awaited(now.job, a);
            session_laws::lemma_turn_spends(now.job, now.healthy, answer(now.job, a));
        }
        seq![answer(now.job, a)] + told(
            session::turn(now.job, now.healthy, answer(now.job, a)),
            a,
        )
    }
}

/// A sequence of events, taken from the front.
proof fn lemma_first_event(
    start: TurnView,
    event: EventView,
    rest: Seq<EventView>,
    counts: spec_fn(ActionView) -> bool,
)
    ensures
        ({
            let next = session::turn(start.job, start.healthy, event);
            let all = seq![event] + rest;
            &&& session_laws::reached(start, all) == session_laws::reached(next, rest)
            &&& session_laws::answered(start, all) == (start.job.awaits(event)
                && session_laws::answered(next, rest))
            &&& session_laws::asked(start, all, counts) == (if counts(start.action) {
                1int
            } else {
                0
            }) + session_laws::asked(next, rest, counts)
        }),
    decreases rest.len(),
{
    let all = seq![event] + rest;
    if rest.len() == 0 {
        assert(all.drop_last() =~= Seq::<EventView>::empty());
        reveal_with_fuel(session_laws::reached, 2);
        reveal_with_fuel(session_laws::answered, 2);
        reveal_with_fuel(session_laws::asked, 2);
    } else {
        assert(all.drop_last() =~= seq![event] + rest.drop_last());
        assert(all.last() == rest.last());
        lemma_first_event(start, event, rest.drop_last(), counts);
    }
}

/// A job that is told these answers is told them as answers to its actions, and they lead it to
/// its ending.
pub proof fn law_answers_lead_to_the_ending(now: TurnView, a: Answers)
    ensures
        session_laws::answered(now, told(now, a)),
        session_laws::reached(now, told(now, a)) == ending(now, a),
    decreases session_laws::job_left(now.job),
{
    if !(now.job is Finished) {
        let event = answer(now.job, a);
        let next = session::turn(now.job, now.healthy, event);
        lemma_answer_is_awaited(now.job, a);
        session_laws::lemma_turn_spends(now.job, now.healthy, event);
        law_answers_lead_to_the_ending(next, a);
        lemma_first_event(now, event, told(next, a), session_laws::purges());
    }
}

/// The answers of a login, with the one at a step replaced.
pub open spec fn with_login_answer(
    at: LoginStep,
    event: EventView,
    a: LoginAnswers,
) -> LoginAnswers {
    match (at, event) {
        (LoginStep::InspectToken, EventView::TokenMode(mode)) => LoginAnswers { mode, ..a },
        (LoginStep::ReadToken, EventView::TokenText(contents)) => LoginAnswers { contents, ..a },
        (LoginStep::Login, EventView::Output(login)) => LoginAnswers { login, ..a },
        (LoginStep::Validate, EventView::Output(probe)) => LoginAnswers { probe, ..a },
        _ => a,
    }
}

/// The answers of an authentication, with the one at a step replaced.
pub open spec fn with_auth_answer(
    step: AuthStepView,
    event: EventView,
    a: AuthAnswers,
) -> AuthAnswers {
    match (step, event) {
        (AuthStepView::Probe, EventView::Output(probe)) => AuthAnswers { probe, ..a },
        (AuthStepView::FirstLogin { at, .. }, _) => AuthAnswers {
            login: with_login_answer(at, event, a.login),
            ..a
        },
        (AuthStepView::Purge, EventView::Purged(purge)) => AuthAnswers { purge, ..a },
        (AuthStepView::FreshLogin { at }, _) => AuthAnswers {
            fresh_login: with_login_answer(at, event, a.fresh_login),
            ..a
        },
        _ => a,
    }
}

/// The answers of a job, with the one at its present stage replaced.
pub open spec fn with_answer(job: JobView, event: EventView, a: Answers) -> Answers {
    match (job, event) {
        (JobView::Authenticate { step }, _) => Answers {
            prepare: with_auth_answer(step, event, a.prepare),
            ..a
        },
        (JobView::Prepare { step, .. }, _) => Answers {
            prepare: with_auth_answer(step, event, a.prepare),
            ..a
        },
        (JobView::First { .. }, EventView::Output(first)) => Answers { first, ..a },
        (JobView::Recheck { .. }, EventView::Output(recheck)) => Answers { recheck, ..a },
        (JobView::Recover { step, .. }, _) => Answers {
            recover: with_auth_answer(step, event, a.recover),
            ..a
        },
        (JobView::Second { .. }, EventView::Output(second)) => Answers { second, ..a },
        _ => a,
    }
}

/// An answer can be chosen freely.
proof fn lemma_answer_replaced(job: JobView, event: EventView, a: Answers)
    requires
        job.awaits(event),
    ensures
        answer(job, with_answer(job, event, a)) == event,
{
}

/// An answer for a later stage does not change with an earlier one.
proof fn lemma_later_answer_kept(job: JobView, event: EventView, later: JobView, a: Answers)
    requires
        job.awaits(event),
        !(later is Finished),
        job is Authenticate == later is Authenticate,
        session_laws::job_left(later) < session_laws::job_left(job),
    ensures
        answer(later, with_answer(job, event, a)) == answer(later, a),
{
}

/// What is told later does not change with an earlier answer.
proof fn lemma_later_kept(job: JobView, event: EventView, now: TurnView, a: Answers)
    requires
        job.awaits(event),
        now.job is Finished || job is Authenticate == now.job is Authenticate,
        session_laws::job_left(now.job) < session_laws::job_left(job),
    ensures
        told(now, with_answer(job, event, a)) == told(now, a),
    decreases session_laws::job_left(now.job),
{
    if !(now.job is Finished) {
        lemma_later_answer_kept(job, event, now.job, a);
        lemma_answer_is_awaited(now.job, a);
        let next = session::turn(now.job, now.healthy, answer(now.job, a));
        session_laws::lemma_turn_spends(now.job, now.healthy, answer(now.job, a));
        lemma_later_kept(job, event, next, a);
    }
}

/// Every way that a job can take to its end is that of some answers, so that what holds whatever
/// the answers are holds whatever the events are.
pub proof fn law_every_run_has_answers(now: TurnView, events: Seq<EventView>) -> (a: Answers)
    requires
        session_laws::answered(now, events),
        session_laws::reached(now, events).job is Finished,
    ensures
        events == told(now, a),
    decreases events.len(),
{
    if events.len() == 0 {
        arbitrary()
    } else {
        let event = events[0];
        let rest = events.drop_first();
        let next = session::turn(now.job, now.healthy, event);
        assert(events =~= seq![event] + rest);
        lemma_first_event(now, event, rest, session_laws::purges());
        let later = law_every_run_has_answers(next, rest);
        let a = with_answer(now.job, event, later);
        lemma_answer_replaced(now.job, event, later);
        session_laws::lemma_turn_spends(now.job, now.healthy, event);
        lemma_later_kept(now.job, event, next, later);
        assert(!(now.job is Finished));
        a
    }
}

/// How many removals of the session state a job asks for when it is told these answers.
pub open spec fn purges_asked(now: TurnView, a: Answers) -> nat {
    session_laws::asked(now, told(now, a), session_laws::purges())
}

/// The removals of a job, from one action to the next.
proof fn lemma_purges_step(now: TurnView, a: Answers)
    requires
        !(now.job is Finished),
    ensures
        purges_asked(now, a) == (if now.action is Purge {
            1int
        } else {
            0
        }) + purges_asked(session::turn(now.job, now.healthy, answer(now.job, a)), a),
{
    let event = answer(now.job, a);
    let next = session::turn(now.job, now.healthy, event);
    lemma_first_event(now, event, told(next, a), session_laws::purges());
}

/// A removal of the session state is warranted: the probe and the first login both fail, and one
/// of their errors names a damaged or vanished session.
pub open spec fn purge_warranted(a: AuthAnswers) -> bool {
    match (a.probe, login_result(a.login)) {
        (Err(probe_error), Err(login_error)) => probe_error.recoverable()
            || login_error.recoverable(),
        _ => false,
    }
}

/// How many removals an authentication asks for from a step on.
spec fn purges_rest(step: AuthStepView, a: AuthAnswers) -> nat {
    let warranted = match step {
        AuthStepView::Probe => purge_warranted(a),
        AuthStepView::FirstLogin { probe_error, at } => match login_rest(at, a.login) {
            Ok(()) => false,
            Err(e) => probe_error.recoverable() || e.recoverable(),
        },
        AuthStepView::Purge => true,
        AuthStepView::FreshLogin { at } => false,
    };
    if warranted {
        1
    } else {
        0
    }
}

/// One answer uses up the removals that are left of an authentication.
proof fn lemma_purges_rest(step: AuthStepView, a: AuthAnswers)
    ensures
        purges_rest(step, a) == (if step is Purge {
            1int
        } else {
            0
        }) + match session::auth_next(step, auth_answer(step, a)) {
            AuthMoveView::Ask { step: next, action } => purges_rest(next, a) as int,
            _ => 0,
        },
{
    if step is Probe {
        lemma_login_rest(a.login);
    }
}

/// The removals of a job that authenticates.
proof fn lemma_purges_counted(now: TurnView, step: AuthStepView, a: Answers)
    requires
        authenticates(now.job),
        now.job == at_step(now.job, step),
        session_laws::auth_asks(step, now.action),
    ensures
        ({
            let part = auth_part(now.job, a);
            let after = after_auth(now.job, auth_rest(step, part));
            purges_asked(now, a) == purges_rest(step, part) + purges_asked(after, a)
        }),
    decreases session_laws::auth_left(step),
{
    let part = auth_part(now.job, a);
    let event = auth_answer(step, part);
    lemma_auth_answered(step, part);
    session_laws::lemma_auth_spends(step, event);
    session_laws::lemma_auth_asks(step, event);
    lemma_purges_rest(step, part);
    assert(answer(now.job, a) == event);
    let next = session::turn(now.job, now.healthy, event);
    lemma_purges_step(now, a);
    match session::auth_next(step, event) {
        AuthMoveView::Ask { step: later, action } => {
            assert(next.job == at_step(now.job, later));
            lemma_purges_counted(next, later, a);
        },
        _ => {},
    }
}

/// An authentication removes the session state, once, if and only if the probe and the first
/// login both fail and one of their errors names a damaged or vanished session.
pub proof fn law_purge_exactly_on_evidence(healthy: bool, a: Answers)
    ensures
        purges_asked(session::authenticate_start(healthy), a) == if purge_warranted(a.prepare) {
            1int
        } else {
            0
        },
{
    let start = session::authenticate_start(healthy);
    lemma_purges_counted(start, AuthStepView::Probe, a);
}

/// The lookup comes to the recovery of the session: the first view fails on a session that is
/// known to work, and so does the probe after it.
pub open spec fn recovers(lookup: LookupView, healthy: bool, a: Answers) -> bool {
    &&& reference::valid_reference(lookup.reference)
    &&& reference::valid_reason(lookup.reason)
    &&& healthy || authentication_result(a.prepare) is Ok
    &&& command::secret_of(a.first) is Err
    &&& a.recheck is Err
}

/// The removals of a lookup from the first view on.
proof fn lemma_view_purges(now: TurnView, lookup: LookupView, a: Answers)
    requires
        now.job == (JobView::First { lookup }),
        !(now.action is Purge),
    ensures
        purges_asked(now, a) == if command::secret_of(a.first) is Err && a.recheck is Err
            && purge_warranted(a.recover) {
            1int
        } else {
            0
        },
{
    let second = session::turn(now.job, now.healthy, answer(now.job, a));
    lemma_purges_step(now, a);
    if command::secret_of(a.first) is Err {
        let third = session::turn(second.job, second.healthy, answer(second.job, a));
        lemma_purges_step(second, a);
        if a.recheck is Err {
            lemma_purges_counted(third, AuthStepView::Probe, a);
            let fourth = after_auth(third.job, authentication_result(a.recover));
            if authentication_result(a.recover) is Ok {
                lemma_purges_step(fourth, a);
            }
        }
    }
}

/// A lookup removes the session state only in its authentications: in the one before it, when
/// the session is not known to work, and in the recovery, each time exactly on the evidence.
pub proof fn law_purges_of_a_lookup(lookup: LookupView, healthy: bool, a: Answers)
    ensures
        ({
            let before = reference::valid_reference(lookup.reference) && reference::valid_reason(
                lookup.reason,
            ) && !healthy && purge_warranted(a.prepare);
            let after = recovers(lookup, healthy, a) && purge_warranted(a.recover);
            purges_asked(session::resolve_start(lookup, healthy), a) == (if before {
                1int
            } else {
                0
            }) + (if after {
                1int
            } else {
                0
            })
        }),
{
    let start = session::resolve_start(lookup, healthy);
    if reference::valid_reference(lookup.reference) && reference::valid_reason(lookup.reason) {
        if healthy {
            lemma_view_purges(start, lookup, a);
        } else {
            lemma_purges_counted(start, AuthStepView::Probe, a);
            let next = after_auth(start.job, authentication_result(a.prepare));
            if authentication_result(a.prepare) is Ok {
                lemma_view_purges(next, lookup, a);
            }
        }
    }
}

/// The session state is preserved in an outage: when the probe and the login fail and neither
/// names a damaged or vanished session, the authentication fails and says so.
pub proof fn law_outage_preserves_session(a: AuthAnswers)
    requires
        a.probe matches Err(e) && !e.recoverable(),
        login_result(a.login) matches Err(e) && !e.recoverable(),
    ensures
        authentication_result(a) matches Err(e) && e.text() == Context::SessionPreserved.text(),
{
}

/// A damaged or vanished session is rebuilt: when the evidence is there, the removal works and
/// the token still logs in, the authentication succeeds.
pub proof fn law_damaged_session_is_rebuilt(a: AuthAnswers)
    requires
        a.probe matches Err(e) && (e.recoverable() || (login_result(a.login) matches Err(l)
            && l.recoverable())),
        a.purge != PurgeOutcome::Failed,
        login_result(a.fresh_login) is Ok,
    ensures
        authentication_result(a) is Ok,
{
}

/// A valid request on a working session is answered with what pass-cli wrote for this very
/// reference and reason, without the line end.
pub proof fn law_request_is_answered_with_the_secret(
    lookup: LookupView,
    a: Answers,
    output: Seq<char>,
)
    requires
        reference::valid_reference(lookup.reference),
        reference::valid_reason(lookup.reason),
        a.first == Ok::<Seq<char>, ErrorView>(output),
        vstd::utf8::encode_utf8(output).len() <= command::MAX_SECRET_BYTES,
    ensures
        session::resolve_start(lookup, true).action == ActionView::Run(lookup.request()),
        http::secret_answer(lookup_result(lookup, true, a)) == http::json_answer(
            http::Status::Success,
            "value"@,
            text::without_line_end(output),
        ),
{
}

/// A request with an invalid reference or reason is answered like every other failure, whatever
/// pass-cli would have said.
pub proof fn law_refused_request_is_answered_generically(
    lookup: LookupView,
    healthy: bool,
    a: Answers,
)
    requires
        !reference::valid_reference(lookup.reference) || !reference::valid_reason(lookup.reason),
    ensures
        http::secret_answer(lookup_result(lookup, healthy, a)) == http::json_answer(
            http::Status::BadGateway,
            "error"@,
            "secret resolution failed"@,
        ),
{
}

} // verus!
