//! The Proton Pass session: when to probe it, log in, purge it, and look secrets up in it.
//!
//! Every operation is a job that alternates with the outside world. A job asks for one action,
//! is told in one event what came of it, and then asks for the next action, until the action is
//! its result.

use crate::command::{PassCliRequest, RequestView};
use crate::command;
use crate::config::Config;
use crate::error::{BrokerError, Cause, CauseView, Context, ErrorView};
use crate::error;
use crate::reference;
use crate::token;
use vstd::prelude::*;
use vstd::string::*;

verus! {

/// Where a login stands: it inspects the token file, reads it, logs in, and checks the session.
#[derive(Clone, Copy, Debug, PartialEq, Eq, Structural)]
pub enum LoginStep {
    InspectToken,
    ReadToken,
    Login,
    Validate,
}

/// Where an authentication stands.
#[derive(Debug, PartialEq, Eq)]
enum AuthStep {
    /// The session is being probed.
    Probe,
    /// The probe failed, and the first login is under way.
    FirstLogin { probe_error: BrokerError, at: LoginStep },
    /// The local session state is being removed.
    Purge,
    /// The login after the removal is under way.
    FreshLogin { at: LoginStep },
}

/// Where an authentication stands: it probes the session, logs in, removes the local session
/// state, or logs in after the removal.
pub enum AuthStepView {
    Probe,
    FirstLogin { probe_error: ErrorView, at: LoginStep },
    Purge,
    FreshLogin { at: LoginStep },
}

/// A secret to look up. Its reference and its reason are valid.
#[derive(Debug, PartialEq, Eq)]
pub struct Lookup {
    reference: String,
    reason: String,
}

/// The value of a `Lookup`.
pub struct LookupView {
    pub reference: Seq<char>,
    pub reason: Seq<char>,
}

/// An operation under way.
#[derive(Debug, PartialEq, Eq)]
pub struct Job {
    stage: Stage,
}

/// Where an operation stands.
#[derive(Debug, PartialEq, Eq)]
enum Stage {
    /// Make sure of a working session.
    Authenticate { step: AuthStep },
    /// Make sure of a working session, then look up.
    Prepare { step: AuthStep, lookup: Lookup },
    /// The first lookup.
    First { lookup: Lookup },
    /// The first lookup failed; see whether the session still works.
    Recheck { lookup: Lookup, first_error: BrokerError },
    /// It does not; make sure of one.
    Recover { step: AuthStep, lookup: Lookup, first_error: BrokerError },
    /// The second lookup.
    Second { lookup: Lookup },
    /// There is nothing left to do.
    Finished,
}

/// The value of a `Job`.
pub enum JobView {
    Authenticate { step: AuthStepView },
    Prepare { step: AuthStepView, lookup: LookupView },
    First { lookup: LookupView },
    Recheck { lookup: LookupView, first_error: ErrorView },
    Recover { step: AuthStepView, lookup: LookupView, first_error: ErrorView },
    Second { lookup: LookupView },
    Finished,
}

/// What a job asks for.
#[derive(Debug, PartialEq, Eq)]
pub enum Action {
    /// Run a pass-cli command.
    Run(PassCliRequest),
    /// Look up the permissions of the token file.
    InspectToken,
    /// Read the token file.
    ReadToken,
    /// Remove the local session state.
    Purge,
    /// The authentication is over.
    Authenticated(Result<(), BrokerError>),
    /// The lookup is over.
    Resolved(Result<String, BrokerError>),
}

/// The value of an `Action`.
pub enum ActionView {
    Run(RequestView),
    InspectToken,
    ReadToken,
    Purge,
    Authenticated(Result<(), ErrorView>),
    Resolved(Result<Seq<char>, ErrorView>),
}

/// How the removal of the local session state ended.
#[derive(Clone, Copy, Debug, PartialEq, Eq, Structural)]
pub enum PurgeOutcome {
    Removed,
    Absent,
    Failed,
}

/// What came of an action.
#[derive(Debug)]
pub enum Event {
    /// The output of a pass-cli command.
    Output(Result<String, BrokerError>),
    /// The permissions of the token file, `None` when they cannot be looked up.
    TokenMode(Option<u32>),
    /// The text of the token file, `None` when it cannot be read.
    TokenText(Option<String>),
    /// The end of a removal.
    Purged(PurgeOutcome),
}

/// The value of an `Event`.
pub enum EventView {
    Output(Result<Seq<char>, ErrorView>),
    TokenMode(Option<u32>),
    TokenText(Option<Seq<char>>),
    Purged(PurgeOutcome),
}

impl View for AuthStep {
    type V = AuthStepView;

    closed spec fn view(&self) -> AuthStepView {
        match *self {
            AuthStep::Probe => AuthStepView::Probe,
            AuthStep::FirstLogin { probe_error, at } => AuthStepView::FirstLogin {
                probe_error: probe_error@,
                at,
            },
            AuthStep::Purge => AuthStepView::Purge,
            AuthStep::FreshLogin { at } => AuthStepView::FreshLogin { at },
        }
    }
}

impl View for Lookup {
    type V = LookupView;

    closed spec fn view(&self) -> LookupView {
        LookupView { reference: self.reference@, reason: self.reason@ }
    }
}

impl View for Stage {
    type V = JobView;

    closed spec fn view(&self) -> JobView {
        match *self {
            Stage::Authenticate { step } => JobView::Authenticate { step: step@ },
            Stage::Prepare { step, lookup } => JobView::Prepare { step: step@, lookup: lookup@ },
            Stage::First { lookup } => JobView::First { lookup: lookup@ },
            Stage::Recheck { lookup, first_error } => JobView::Recheck {
                lookup: lookup@,
                first_error: first_error@,
            },
            Stage::Recover { step, lookup, first_error } => JobView::Recover {
                step: step@,
                lookup: lookup@,
                first_error: first_error@,
            },
            Stage::Second { lookup } => JobView::Second { lookup: lookup@ },
            Stage::Finished => JobView::Finished,
        }
    }
}

impl View for Job {
    type V = JobView;

    closed spec fn view(&self) -> JobView {
        self.stage@
    }
}

impl View for Action {
    type V = ActionView;

    open spec fn view(&self) -> ActionView {
        match *self {
            Action::Run(request) => ActionView::Run(request@),
            Action::InspectToken => ActionView::InspectToken,
            Action::ReadToken => ActionView::ReadToken,
            Action::Purge => ActionView::Purge,
            Action::Authenticated(Ok(())) => ActionView::Authenticated(Ok(())),
            Action::Authenticated(Err(e)) => ActionView::Authenticated(Err(e@)),
            Action::Resolved(r) => ActionView::Resolved(command::result_view(r)),
        }
    }
}

impl View for Event {
    type V = EventView;

    open spec fn view(&self) -> EventView {
        match *self {
            Event::Output(r) => EventView::Output(command::result_view(r)),
            Event::TokenMode(mode) => EventView::TokenMode(mode),
            Event::TokenText(contents) => EventView::TokenText(contents.deep_view()),
            Event::Purged(outcome) => EventView::Purged(outcome),
        }
    }
}

/// What an authentication does next.
enum AuthMove {
    Ask { step: AuthStep, action: Action },
    Done,
    Failed(BrokerError),
}

/// What an authentication does next: it asks for another action, or it is over.
pub enum AuthMoveView {
    Ask { step: AuthStepView, action: ActionView },
    Done,
    Failed(ErrorView),
}

impl AuthMove {
    spec fn view(self) -> AuthMoveView {
        match self {
            AuthMove::Ask { step, action } => AuthMoveView::Ask { step: step@, action: action@ },
            AuthMove::Done => AuthMoveView::Done,
            AuthMove::Failed(e) => AuthMoveView::Failed(e@),
        }
    }
}

/// Where a job stands after an event: the next action, and whether the session is known to work.
pub struct TurnView {
    pub job: JobView,
    pub action: ActionView,
    pub healthy: bool,
}

impl LoginStep {
    /// The event answers the action of this step.
    pub open spec fn awaits(self, event: EventView) -> bool {
        match self {
            LoginStep::InspectToken => event is TokenMode,
            LoginStep::ReadToken => event is TokenText,
            LoginStep::Login => event is Output,
            LoginStep::Validate => event is Output,
        }
    }
}

impl AuthStepView {
    /// The event answers the action of this step.
    pub open spec fn awaits(self, event: EventView) -> bool {
        match self {
            AuthStepView::Probe => event is Output,
            AuthStepView::FirstLogin { probe_error, at } => at.awaits(event),
            AuthStepView::Purge => event is Purged,
            AuthStepView::FreshLogin { at } => at.awaits(event),
        }
    }
}

impl JobView {
    /// The event answers the action that the job asked for.
    pub open spec fn awaits(self, event: EventView) -> bool {
        match self {
            JobView::Authenticate { step } => step.awaits(event),
            JobView::Prepare { step, lookup } => step.awaits(event),
            JobView::First { lookup } => event is Output,
            JobView::Recheck { lookup, first_error } => event is Output,
            JobView::Recover { step, lookup, first_error } => step.awaits(event),
            JobView::Second { lookup } => event is Output,
            JobView::Finished => false,
        }
    }
}

impl LookupView {
    /// The request that makes this lookup.
    pub open spec fn request(self) -> RequestView {
        RequestView::View { reference: self.reference, reason: self.reason }
    }
}

/// What one event makes of a login: the next step with its action, success, or an error.
pub open spec fn login_next(at: LoginStep, event: EventView) -> Result<
    Option<(LoginStep, ActionView)>,
    ErrorView,
> {
    match (at, event) {
        (LoginStep::InspectToken, EventView::TokenMode(mode)) => match token::token_access(mode) {
            Ok(()) => Ok(Some((LoginStep::ReadToken, ActionView::ReadToken))),
            Err(e) => Err(ErrorView::of(CauseView::Token(e))),
        },
        (LoginStep::ReadToken, EventView::TokenText(contents)) => match token::token_in(contents) {
            Ok(token) => Ok(
                Some((LoginStep::Login, ActionView::Run(RequestView::Login { token }))),
            ),
            Err(e) => Err(ErrorView::of(CauseView::Token(e))),
        },
        (LoginStep::Login, EventView::Output(Ok(_))) => Ok(
            Some((LoginStep::Validate, ActionView::Run(RequestView::Probe))),
        ),
        (LoginStep::Login, EventView::Output(Err(e))) => Err(e.within(Context::Login)),
        (LoginStep::Validate, EventView::Output(Ok(_))) => Ok(None),
        (LoginStep::Validate, EventView::Output(Err(e))) => Err(
            e.within(Context::ValidationAfterLogin),
        ),
        _ => arbitrary(),
    }
}

/// What one event makes of an authentication.
///
/// A probe that works is all there is to it. Otherwise there is a login. When that fails, the
/// local session state is removed and a second login tried only if the probe or the login named
/// a damaged or vanished session; in every other case the session state is left alone.
pub open spec fn auth_next(step: AuthStepView, event: EventView) -> AuthMoveView {
    match step {
        AuthStepView::Probe => match event {
            EventView::Output(Ok(_)) => AuthMoveView::Done,
            EventView::Output(Err(e)) => AuthMoveView::Ask {
                step: AuthStepView::FirstLogin { probe_error: e, at: LoginStep::InspectToken },
                action: ActionView::InspectToken,
            },
            _ => arbitrary(),
        },
        AuthStepView::FirstLogin { probe_error, at } => match login_next(at, event) {
            Ok(Some((next, action))) => AuthMoveView::Ask {
                step: AuthStepView::FirstLogin { probe_error, at: next },
                action,
            },
            Ok(None) => AuthMoveView::Done,
            Err(e) => if probe_error.recoverable() || e.recoverable() {
                AuthMoveView::Ask { step: AuthStepView::Purge, action: ActionView::Purge }
            } else {
                AuthMoveView::Failed(e.within(Context::SessionPreserved))
            },
        },
        AuthStepView::Purge => match event {
            EventView::Purged(PurgeOutcome::Failed) => AuthMoveView::Failed(
                ErrorView::of(CauseView::CannotPurge),
            ),
            EventView::Purged(_) => AuthMoveView::Ask {
                step: AuthStepView::FreshLogin { at: LoginStep::InspectToken },
                action: ActionView::InspectToken,
            },
            _ => arbitrary(),
        },
        AuthStepView::FreshLogin { at } => match login_next(at, event) {
            Ok(Some((next, action))) => AuthMoveView::Ask {
                step: AuthStepView::FreshLogin { at: next },
                action,
            },
            Ok(None) => AuthMoveView::Done,
            Err(e) => AuthMoveView::Failed(e.within(Context::LoginAfterPurge)),
        },
    }
}

/// What one event makes of a job.
pub open spec fn turn(job: JobView, healthy: bool, event: EventView) -> TurnView {
    match job {
        JobView::Authenticate { step } => match auth_next(step, event) {
            AuthMoveView::Ask { step: next, action } => TurnView {
                job: JobView::Authenticate { step: next },
                action,
                healthy: false,
            },
            AuthMoveView::Done => TurnView {
                job: JobView::Finished,
                action: ActionView::Authenticated(Ok(())),
                healthy: true,
            },
            AuthMoveView::Failed(e) => TurnView {
                job: JobView::Finished,
                action: ActionView::Authenticated(Err(e)),
                healthy: false,
            },
        },
        JobView::Prepare { step, lookup } => match auth_next(step, event) {
            AuthMoveView::Ask { step: next, action } => TurnView {
                job: JobView::Prepare { step: next, lookup },
                action,
                healthy: false,
            },
            AuthMoveView::Done => TurnView {
                job: JobView::First { lookup },
                action: ActionView::Run(lookup.request()),
                healthy: true,
            },
            AuthMoveView::Failed(e) => TurnView {
                job: JobView::Finished,
                action: ActionView::Resolved(Err(e)),
                healthy: false,
            },
        },
        JobView::First { lookup } => match event {
            EventView::Output(output) => match command::secret_of(output) {
                Ok(secret) => TurnView {
                    job: JobView::Finished,
                    action: ActionView::Resolved(Ok(secret)),
                    healthy: true,
                },
                Err(first_error) => TurnView {
                    job: JobView::Recheck { lookup, first_error },
                    action: ActionView::Run(RequestView::Probe),
                    healthy: false,
                },
            },
            _ => arbitrary(),
        },
        JobView::Recheck { lookup, first_error } => match event {
            EventView::Output(Ok(_)) => TurnView {
                job: JobView::Finished,
                action: ActionView::Resolved(Err(first_error)),
                healthy: true,
            },
            EventView::Output(Err(_)) => TurnView {
                job: JobView::Recover { step: AuthStepView::Probe, lookup, first_error },
                action: ActionView::Run(RequestView::Probe),
                healthy,
            },
            _ => arbitrary(),
        },
        JobView::Recover { step, lookup, first_error } => match auth_next(step, event) {
            AuthMoveView::Ask { step: next, action } => TurnView {
                job: JobView::Recover { step: next, lookup, first_error },
                action,
                healthy: false,
            },
            AuthMoveView::Done => TurnView {
                job: JobView::Second { lookup },
                action: ActionView::Run(lookup.request()),
                healthy: true,
            },
            AuthMoveView::Failed(_) => TurnView {
                job: JobView::Finished,
                action: ActionView::Resolved(Err(first_error.within(Context::SessionRecovery))),
                healthy: false,
            },
        },
        JobView::Second { lookup } => match event {
            EventView::Output(output) => match command::secret_of(output) {
                Ok(secret) => TurnView {
                    job: JobView::Finished,
                    action: ActionView::Resolved(Ok(secret)),
                    healthy,
                },
                Err(e) => TurnView {
                    job: JobView::Finished,
                    action: ActionView::Resolved(Err(e)),
                    healthy: false,
                },
            },
            _ => arbitrary(),
        },
        JobView::Finished => arbitrary(),
    }
}

/// How an authentication begins: with a probe.
pub open spec fn authenticate_start(healthy: bool) -> TurnView {
    TurnView {
        job: JobView::Authenticate { step: AuthStepView::Probe },
        action: ActionView::Run(RequestView::Probe),
        healthy,
    }
}

/// How a lookup begins: an invalid one is over at once; a valid one is made when the session is
/// known to work, and preceded by an authentication when it is not.
pub open spec fn resolve_start(lookup: LookupView, healthy: bool) -> TurnView {
    if let Some(cause) = lookup_fault(lookup) {
        TurnView {
            job: JobView::Finished,
            action: ActionView::Resolved(Err(ErrorView::of(cause))),
            healthy,
        }
    } else if healthy {
        TurnView {
            job: JobView::First { lookup },
            action: ActionView::Run(lookup.request()),
            healthy,
        }
    } else {
        TurnView {
            job: JobView::Prepare { step: AuthStepView::Probe, lookup },
            action: ActionView::Run(RequestView::Probe),
            healthy,
        }
    }
}

/// What is wrong with a lookup: with its reference first, then with its reason.
pub open spec fn lookup_fault(lookup: LookupView) -> Option<CauseView> {
    if let Some(e) = reference::reference_fault(lookup.reference) {
        Some(CauseView::Reference(e))
    } else if let Some(e) = reference::reason_fault(lookup.reason) {
        Some(CauseView::Reason(e))
    } else {
        None
    }
}

/// The local session state of pass-cli, below the session directory.
pub open spec fn state_path(session_dir: Seq<u8>) -> Seq<u8> {
    if session_dir.len() == 0 || session_dir.last() == 0x2f {
        session_dir + vstd::utf8::encode_utf8(".session"@)
    } else {
        session_dir.push(0x2f) + vstd::utf8::encode_utf8(".session"@)
    }
}

/// One event of a login.
fn login_and_validate(at: LoginStep, event: Event) -> (r: Result<
    Option<(LoginStep, Action)>,
    BrokerError,
>)
    requires
        at.awaits(event@),
    ensures
        match r {
            Ok(Some((next, action))) => login_next(at, event@) == Ok::<
                Option<(LoginStep, ActionView)>,
                ErrorView,
            >(Some((next, action@))),
            Ok(None) => login_next(at, event@) == Ok::<
                Option<(LoginStep, ActionView)>,
                ErrorView,
            >(None),
            Err(e) => login_next(at, event@) == Err::<Option<(LoginStep, ActionView)>, ErrorView>(
                e@,
            ),
        },
{
    match (at, event) {
        (LoginStep::InspectToken, Event::TokenMode(mode)) => match token::inspect_token(mode) {
            Ok(()) => Ok(Some((LoginStep::ReadToken, Action::ReadToken))),
            Err(e) => Err(BrokerError::new(Cause::Token(e))),
        },
        (LoginStep::ReadToken, Event::TokenText(contents)) => match token::read_token(contents) {
            Ok(token) => Ok(
                Some((LoginStep::Login, Action::Run(PassCliRequest::Login { token }))),
            ),
            Err(e) => Err(BrokerError::new(Cause::Token(e))),
        },
        (LoginStep::Login, Event::Output(Ok(_))) => Ok(
            Some((LoginStep::Validate, Action::Run(PassCliRequest::Probe))),
        ),
        (LoginStep::Login, Event::Output(Err(e))) => Err(e.context(Context::Login)),
        (LoginStep::Validate, Event::Output(Ok(_))) => Ok(None),
        (LoginStep::Validate, Event::Output(Err(e))) => Err(
            e.context(Context::ValidationAfterLogin),
        ),
        _ => vstd::pervasive::unreached(),
    }
}

/// One event of an authentication.
fn ensure_authenticated_locked(step: AuthStep, event: Event) -> (r: AuthMove)
    requires
        step@.awaits(event@),
    ensures
        r.view() == auth_next(step@, event@),
{
    match step {
        AuthStep::Probe => match event {
            Event::Output(Ok(_)) => AuthMove::Done,
            Event::Output(Err(e)) => AuthMove::Ask {
                step: AuthStep::FirstLogin { probe_error: e, at: LoginStep::InspectToken },
                action: Action::InspectToken,
            },
            _ => vstd::pervasive::unreached(),
        },
        AuthStep::FirstLogin { probe_error, at } => match login_and_validate(at, event) {
            Ok(Some((next, action))) => AuthMove::Ask {
                step: AuthStep::FirstLogin { probe_error, at: next },
                action,
            },
            Ok(None) => AuthMove::Done,
            Err(e) => if !error::is_recoverable_session_failure(&probe_error)
                && !error::is_recoverable_session_failure(&e) {
                AuthMove::Failed(e.context(Context::SessionPreserved))
            } else {
                AuthMove::Ask { step: AuthStep::Purge, action: Action::Purge }
            },
        },
        AuthStep::Purge => match event {
            Event::Purged(PurgeOutcome::Failed) => AuthMove::Failed(
                BrokerError::new(Cause::CannotPurge),
            ),
            Event::Purged(_) => AuthMove::Ask {
                step: AuthStep::FreshLogin { at: LoginStep::InspectToken },
                action: Action::InspectToken,
            },
            _ => vstd::pervasive::unreached(),
        },
        AuthStep::FreshLogin { at } => match login_and_validate(at, event) {
            Ok(Some((next, action))) => AuthMove::Ask {
                step: AuthStep::FreshLogin { at: next },
                action,
            },
            Ok(None) => AuthMove::Done,
            Err(e) => AuthMove::Failed(e.context(Context::LoginAfterPurge)),
        },
    }
}

impl LoginStep {
    /// Whether the event answers the action of this step.
    fn accepts(&self, event: &Event) -> (yes: bool)
        ensures
            yes == self.awaits(event@),
    {
        match (self, event) {
            (LoginStep::InspectToken, Event::TokenMode(_)) => true,
            (LoginStep::ReadToken, Event::TokenText(_)) => true,
            (LoginStep::Login, Event::Output(_)) => true,
            (LoginStep::Validate, Event::Output(_)) => true,
            _ => false,
        }
    }
}

impl AuthStep {
    /// Whether the event answers the action of this step.
    fn accepts(&self, event: &Event) -> (yes: bool)
        ensures
            yes == self@.awaits(event@),
    {
        match self {
            AuthStep::Probe => matches!(event, Event::Output(_)),
            AuthStep::FirstLogin { probe_error: _, at } => at.accepts(event),
            AuthStep::Purge => matches!(event, Event::Purged(_)),
            AuthStep::FreshLogin { at } => at.accepts(event),
        }
    }
}

impl Job {
    /// Whether the event answers the action that the job asked for.
    pub fn accepts(&self, event: &Event) -> (yes: bool)
        ensures
            yes == self@.awaits(event@),
    {
        match &self.stage {
            Stage::Authenticate { step } => step.accepts(event),
            Stage::Prepare { step, lookup: _ } => step.accepts(event),
            Stage::First { lookup: _ } => matches!(event, Event::Output(_)),
            Stage::Recheck { lookup: _, first_error: _ } => matches!(event, Event::Output(_)),
            Stage::Recover { step, lookup: _, first_error: _ } => step.accepts(event),
            Stage::Second { lookup: _ } => matches!(event, Event::Output(_)),
            Stage::Finished => false,
        }
    }

    /// Whether a lookup has failed, and the job is about to see whether the session still works.
    pub fn rechecks(&self) -> (yes: bool)
        ensures
            yes == self@ is Recheck,
    {
        matches!(self.stage, Stage::Recheck { lookup: _, first_error: _ })
    }

    /// Whether the job is over.
    pub fn is_finished(&self) -> (yes: bool)
        ensures
            yes == self@ is Finished,
    {
        matches!(self.stage, Stage::Finished)
    }
}

impl Lookup {
    #[verifier::type_invariant]
    spec fn valid(self) -> bool {
        lookup_fault(self@) is None
    }

    /// The lookup of a valid reference for a valid reason.
    pub fn new(reference: &str, reason: &str) -> (r: Result<Lookup, BrokerError>)
        ensures
            ({
                let asked = LookupView { reference: reference@, reason: reason@ };
                match r {
                    Ok(lookup) => lookup@ == asked && lookup_fault(asked) is None,
                    Err(e) => match lookup_fault(asked) {
                        Some(cause) => e@ == ErrorView::of(cause),
                        None => false,
                    },
                }
            }),
    {
        if let Err(e) = reference::validate_reference(reference) {
            return Err(BrokerError::new(Cause::Reference(e)));
        }
        if let Err(e) = reference::validate_reason(reason) {
            return Err(BrokerError::new(Cause::Reason(e)));
        }
        Ok(Lookup { reference: reference.to_owned(), reason: reason.to_owned() })
    }

    /// The action that makes this lookup.
    fn action(&self) -> (action: Action)
        ensures
            action@ == ActionView::Run(self@.request()),
            lookup_fault(self@) is None,
    {
        proof {
            use_type_invariant(self);
        }
        Action::Run(
            PassCliRequest::View { reference: self.reference.clone(), reason: self.reason.clone() },
        )
    }
}

/// The settings, and whether the session is known to work.
pub struct AuthManager {
    pub config: Config,
    pub healthy: bool,
}

impl AuthManager {
    /// A manager that knows of no working session yet.
    pub fn new(config: Config) -> (manager: AuthManager)
        ensures
            manager.config == config,
            !manager.healthy,
    {
        AuthManager { config, healthy: false }
    }

    /// Whether the session is known to work.
    pub fn is_healthy(&self) -> (yes: bool)
        ensures
            yes == self.healthy,
    {
        self.healthy
    }

    /// The local session state of pass-cli (`<session_dir>/.session`, which holds the encrypted
    /// session database and the local key).
    pub fn session_state_path(&self) -> (path: Vec<u8>)
        ensures
            path@ == state_path(self.config@.session_dir),
    {
        let mut path = self.config.session_dir.clone();
        assert(path@ =~= self.config.session_dir@);
        let length: usize = path.len();
        if length > 0 && path[length - 1] != 0x2f {
            path.push(0x2f);
        }
        let mut name = ".session".as_bytes_vec();
        path.append(&mut name);
        path
    }

    /// Begin to make sure of a working session.
    pub fn ensure_authenticated(&self) -> (r: (Job, Action))
        ensures
            r.0@ == authenticate_start(self.healthy).job,
            r.1@ == authenticate_start(self.healthy).action,
    {
        (
            Job { stage: Stage::Authenticate { step: AuthStep::Probe } },
            Action::Run(PassCliRequest::Probe),
        )
    }

    /// Begin to look a secret up.
    pub fn resolve(&self, reference: &str, reason: &str) -> (r: (Job, Action))
        ensures
            ({
                let start = resolve_start(
                    LookupView { reference: reference@, reason: reason@ },
                    self.healthy,
                );
                r.0@ == start.job && r.1@ == start.action
            }),
    {
        match Lookup::new(reference, reason) {
            Err(e) => (Job { stage: Stage::Finished }, Action::Resolved(Err(e))),
            Ok(lookup) => if self.healthy {
                let action = lookup.action();
                (Job { stage: Stage::First { lookup } }, action)
            } else {
                (
                    Job { stage: Stage::Prepare { step: AuthStep::Probe, lookup } },
                    Action::Run(PassCliRequest::Probe),
                )
            },
        }
    }

    /// Take in what came of the last action, and say what to do next. Whatever the job, a lookup
    /// that it asks for has passed its checks.
    pub fn advance(&mut self, job: Job, event: Event) -> (r: (Job, Action))
        requires
            job@.awaits(event@),
        ensures
            ({
                let next = turn(job@, old(self).healthy, event@);
                &&& r.0@ == next.job
                &&& r.1@ == next.action
                &&& final(self).healthy == next.healthy
            }),
            final(self).config == old(self).config,
            r.1@ matches ActionView::Run(RequestView::View { reference, reason })
                ==> lookup_fault(LookupView { reference, reason }) is None,
    {
        let (stage, action) = self.advance_stage(job.stage, event);
        (Job { stage }, action)
    }

    /// One event of a job.
    fn advance_stage(&mut self, stage: Stage, event: Event) -> (r: (Stage, Action))
        requires
            stage@.awaits(event@),
        ensures
            ({
                let next = turn(stage@, old(self).healthy, event@);
                &&& r.0@ == next.job
                &&& r.1@ == next.action
                &&& final(self).healthy == next.healthy
            }),
            final(self).config == old(self).config,
            r.1@ matches ActionView::Run(RequestView::View { reference, reason })
                ==> lookup_fault(LookupView { reference, reason }) is None,
    {
        match stage {
            Stage::Authenticate { step } => match ensure_authenticated_locked(step, event) {
                AuthMove::Ask { step: next, action } => {
                    self.healthy = false;
                    (Stage::Authenticate { step: next }, action)
                },
                AuthMove::Done => {
                    self.healthy = true;
                    (Stage::Finished, Action::Authenticated(Ok(())))
                },
                AuthMove::Failed(e) => {
                    self.healthy = false;
                    (Stage::Finished, Action::Authenticated(Err(e)))
                },
            },
            Stage::Prepare { step, lookup } => match ensure_authenticated_locked(step, event) {
                AuthMove::Ask { step: next, action } => {
                    self.healthy = false;
                    (Stage::Prepare { step: next, lookup }, action)
                },
                AuthMove::Done => {
                    self.healthy = true;
                    let action = lookup.action();
                    (Stage::First { lookup }, action)
                },
                AuthMove::Failed(e) => {
                    self.healthy = false;
                    (Stage::Finished, Action::Resolved(Err(e)))
                },
            },
            Stage::First { lookup } => match event {
                Event::Output(output) => match command::secret_from_output(output) {
                    Ok(secret) => {
                        self.healthy = true;
                        (Stage::Finished, Action::Resolved(Ok(secret)))
                    },
                    Err(first_error) => {
                        self.healthy = false;
                        (
                            Stage::Recheck { lookup, first_error },
                            Action::Run(PassCliRequest::Probe),
                        )
                    },
                },
                _ => vstd::pervasive::unreached(),
            },
            Stage::Recheck { lookup, first_error } => match event {
                Event::Output(Ok(_)) => {
                    self.healthy = true;
                    (Stage::Finished, Action::Resolved(Err(first_error)))
                },
                Event::Output(Err(_)) => (
                    Stage::Recover { step: AuthStep::Probe, lookup, first_error },
                    Action::Run(PassCliRequest::Probe),
                ),
                _ => vstd::pervasive::unreached(),
            },
            Stage::Recover { step, lookup, first_error } => match ensure_authenticated_locked(
                step,
                event,
            ) {
                AuthMove::Ask { step: next, action } => {
                    self.healthy = false;
                    (Stage::Recover { step: next, lookup, first_error }, action)
                },
                AuthMove::Done => {
                    self.healthy = true;
                    let action = lookup.action();
                    (Stage::Second { lookup }, action)
                },
                AuthMove::Failed(_) => {
                    self.healthy = false;
                    (
                        Stage::Finished,
                        Action::Resolved(Err(first_error.context(Context::SessionRecovery))),
                    )
                },
            },
            Stage::Second { lookup: _ } => match event {
                Event::Output(output) => match command::secret_from_output(output) {
                    Ok(secret) => (Stage::Finished, Action::Resolved(Ok(secret))),
                    Err(e) => {
                        self.healthy = false;
                        (Stage::Finished, Action::Resolved(Err(e)))
                    },
                },
                _ => vstd::pervasive::unreached(),
            },
            Stage::Finished => vstd::pervasive::unreached(),
        }
    }
}

/// The value of an event is all that came of the action, and the value of an action all that it
/// asks for or gives.
pub proof fn law_views_leave_nothing_out(
    text: String,
    error: BrokerError,
    mode: Option<u32>,
    outcome: PurgeOutcome,
    request: PassCliRequest,
)
    ensures
        Event::Output(Ok(text))@ == EventView::Output(Ok(text@)),
        Event::Output(Err(error))@ == EventView::Output(Err(error@)),
        Event::TokenMode(mode)@ == EventView::TokenMode(mode),
        Event::TokenText(Some(text))@ == EventView::TokenText(Some(text@)),
        Event::TokenText(None)@ == EventView::TokenText(None),
        Event::Purged(outcome)@ == EventView::Purged(outcome),
        Action::Run(request)@ == ActionView::Run(request@),
        Action::InspectToken@ == ActionView::InspectToken,
        Action::ReadToken@ == ActionView::ReadToken,
        Action::Purge@ == ActionView::Purge,
        Action::Authenticated(Ok(()))@ == ActionView::Authenticated(Ok(())),
        Action::Authenticated(Err(error))@ == ActionView::Authenticated(Err(error@)),
        Action::Resolved(Ok(text))@ == ActionView::Resolved(Ok(text@)),
        Action::Resolved(Err(error))@ == ActionView::Resolved(Err(error@)),
{
}

} // verus!
