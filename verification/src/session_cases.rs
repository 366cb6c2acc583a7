//! What becomes of a job in each case, told from what its commands and files gave.

use crate::command;
use crate::command::{OutcomeView, RequestView};
use crate::error::{CauseView, Context, ErrorView, TokenError};
use crate::http;
use crate::json;
use crate::reference;
use crate::session;
use crate::session::{ActionView, LookupView, PurgeOutcome};
use crate::session_outcome;
use crate::session_outcome::{Answers, AuthAnswers, LoginAnswers};
use crate::text;
use crate::token;
use vstd::prelude::*;
use vstd::string::*;
use vstd::utf8::*;

verus! {

/// The token file is private and holds a token, pass-cli logs in with it, and the session works.
pub open spec fn login_works(a: LoginAnswers) -> bool {
    &&& a.mode matches Some(mode) && mode % 64 == 0
    &&& token::token_in(a.contents) is Ok
    &&& a.login is Ok
    &&& a.probe is Ok
}

/// The login fails with this error: the first of the token file, the login and the probe that does
/// not do its part. What pass-cli reported is kept, inside the context of what was being done.
pub open spec fn login_fails(a: LoginAnswers, e: ErrorView) -> bool {
    let private = a.mode matches Some(mode) && mode % 64 == 0;
    let has_token = token::token_in(a.contents) is Ok;
    ||| {
        &&& a.mode is None
        &&& e.cause == CauseView::Token(TokenError::CannotInspect)
        &&& e.contexts.len() == 0
    }
    ||| {
        &&& a.mode is Some && !private
        &&& e.cause == CauseView::Token(TokenError::NotPrivate)
        &&& e.contexts.len() == 0
    }
    ||| {
        &&& private && a.contents is None
        &&& e.cause == CauseView::Token(TokenError::CannotRead)
        &&& e.contexts.len() == 0
    }
    ||| {
        &&& private && a.contents is Some && !has_token
        &&& e.cause == CauseView::Token(TokenError::InvalidFormat)
        &&& e.contexts.len() == 0
    }
    ||| {
        &&& private && has_token
        &&& a.login matches Err(said)
        &&& e.cause == said.cause
        &&& e.contexts == said.contexts + seq![Context::Login]
    }
    ||| {
        &&& private && has_token && a.login is Ok
        &&& a.probe matches Err(said)
        &&& e.cause == said.cause
        &&& e.contexts == said.contexts + seq![Context::ValidationAfterLogin]
    }
}

/// How an authentication ends that is told these answers, and whether the session then counts as
/// working.
pub open spec fn authenticated(a: AuthAnswers, result: Result<(), ErrorView>) -> bool {
    forall|healthy: bool, all: Answers|
        all.prepare == a ==> {
            let end = #[trigger] session_outcome::ending(session::authenticate_start(healthy), all);
            &&& end.action == ActionView::Authenticated(result)
            &&& end.healthy == (result is Ok)
        }
}

/// An authentication has one end.
proof fn lemma_authenticated(a: AuthAnswers, result: Result<(), ErrorView>)
    ensures
        authenticated(a, result) <==> session_outcome::authentication_result(a) == result,
{
    assert forall|healthy: bool, all: Answers| all.prepare == a implies ({
        let end = #[trigger] session_outcome::ending(session::authenticate_start(healthy), all);
        &&& end.action == ActionView::Authenticated(session_outcome::authentication_result(a))
        &&& end.healthy == (session_outcome::authentication_result(a) is Ok)
    }) by {
        session_outcome::law_authentication_outcome(healthy, all);
    }
    if authenticated(a, result) {
        let some: Answers = arbitrary();
        let all = Answers { prepare: a, ..some };
        let end = session_outcome::ending(session::authenticate_start(true), all);
        assert(end.action == ActionView::Authenticated(result));
    }
}

/// The cases of a login are the results of a login.
proof fn lemma_login_cases(a: LoginAnswers)
    ensures
        login_works(a) <==> session_outcome::login_result(a) is Ok,
        forall|e: ErrorView| #[trigger]
            login_fails(a, e) ==> session_outcome::login_result(a) == Err::<(), ErrorView>(e),
{
    token::law_access_to_the_token_file(a.mode);
    token::law_missing_tokens_are_told_apart(a.contents);
    assert forall|e: ErrorView| #[trigger] login_fails(
        a,
        e,
    ) implies session_outcome::login_result(a) == Err::<(), ErrorView>(e) by {
        if let Err(said) = session_outcome::login_result(a) {
            assert(said.contexts =~= e.contexts);
            assert(said == e);
        }
    }
}

/// A session that works is all there is to an authentication, whatever else would be answered.
pub proof fn law_working_session_is_enough(a: AuthAnswers)
    requires
        a.probe is Ok,
    ensures
        authenticated(a, Ok(())),
{
    lemma_authenticated(a, Ok(()));
}

/// When the probe fails, a login that works is enough, whatever the probe said.
pub proof fn law_login_is_enough(a: AuthAnswers)
    requires
        a.probe is Err,
        login_works(a.login),
    ensures
        authenticated(a, Ok(())),
{
    lemma_login_cases(a.login);
    lemma_authenticated(a, Ok(()));
}

/// When the probe and the login fail without evidence of a damaged or vanished session, the
/// authentication fails with the error of the login, inside the context that says that the session
/// state is preserved. The answers to a removal and to a login after it do not matter: there is
/// none.
pub proof fn law_failure_without_evidence(a: AuthAnswers, said: ErrorView, e: ErrorView)
    requires
        a.probe == Err::<Seq<char>, ErrorView>(said),
        login_fails(a.login, e),
        !said.recoverable(),
        !e.recoverable(),
    ensures
        authenticated(
            a,
            Err(
                ErrorView {
                    cause: e.cause,
                    contexts: e.contexts + seq![Context::SessionPreserved],
                },
            ),
        ),
        forall|healthy: bool, all: Answers|
            all.prepare == a ==> #[trigger] session_outcome::purges_asked(
                session::authenticate_start(healthy),
                all,
            ) == 0,
{
    lemma_login_cases(a.login);
    let result = e.within(Context::SessionPreserved);
    assert(result.contexts =~= e.contexts + seq![Context::SessionPreserved]);
    lemma_authenticated(a, Err(result));
    assert forall|healthy: bool, all: Answers|
        all.prepare == a implies #[trigger] session_outcome::purges_asked(
        session::authenticate_start(healthy),
        all,
    ) == 0 by {
        session_outcome::law_purge_exactly_on_evidence(healthy, all);
    }
}

/// When the probe and the login fail and one of them is evidence of a damaged or vanished session,
/// the session state is removed once, and everything depends on the removal and on the login after
/// it: it works, or it fails, and the error says which of the two it was.
pub proof fn law_failure_with_evidence(
    a: AuthAnswers,
    said: ErrorView,
    e: ErrorView,
    fresh: ErrorView,
)
    requires
        a.probe == Err::<Seq<char>, ErrorView>(said),
        login_fails(a.login, e),
        said.recoverable() || e.recoverable(),
    ensures
        a.purge == PurgeOutcome::Failed ==> authenticated(
            a,
            Err(ErrorView { cause: CauseView::CannotPurge, contexts: Seq::empty() }),
        ),
        a.purge != PurgeOutcome::Failed && login_works(a.fresh_login) ==> authenticated(a, Ok(())),
        a.purge != PurgeOutcome::Failed && login_fails(a.fresh_login, fresh) ==> authenticated(
            a,
            Err(
                ErrorView {
                    cause: fresh.cause,
                    contexts: fresh.contexts + seq![Context::LoginAfterPurge],
                },
            ),
        ),
        forall|healthy: bool, all: Answers|
            all.prepare == a ==> #[trigger] session_outcome::purges_asked(
                session::authenticate_start(healthy),
                all,
            ) == 1,
{
    lemma_login_cases(a.login);
    lemma_login_cases(a.fresh_login);
    let result = fresh.within(Context::LoginAfterPurge);
    assert(result.contexts =~= fresh.contexts + seq![Context::LoginAfterPurge]);
    lemma_authenticated(a, session_outcome::authentication_result(a));
    assert forall|healthy: bool, all: Answers|
        all.prepare == a implies #[trigger] session_outcome::purges_asked(
        session::authenticate_start(healthy),
        all,
    ) == 1 by {
        session_outcome::law_purge_exactly_on_evidence(healthy, all);
    }
}

/// How a lookup ends that is told these answers, and whether the session then counts as working.
pub open spec fn resolved(
    lookup: LookupView,
    known_to_work: bool,
    a: Answers,
    result: Result<Seq<char>, ErrorView>,
    healthy: bool,
) -> bool {
    let end = session_outcome::ending(session::resolve_start(lookup, known_to_work), a);
    &&& end.action == ActionView::Resolved(result)
    &&& end.healthy == healthy
}

/// The request of a lookup is for its reference and with its reason, both as they were given.
pub proof fn law_request_of_a_lookup(lookup: LookupView, known_to_work: bool)
    requires
        reference::valid_reference(lookup.reference),
        reference::valid_reason(lookup.reason),
    ensures
        lookup.request() == (RequestView::View {
            reference: lookup.reference,
            reason: lookup.reason,
        }),
        session::resolve_start(lookup, true).action == ActionView::Run(
            RequestView::View { reference: lookup.reference, reason: lookup.reason },
        ),
        session::resolve_start(lookup, false).action == ActionView::Run(RequestView::Probe),
        session::resolve_start(lookup, known_to_work).healthy == known_to_work,
        session::authenticate_start(known_to_work).action == ActionView::Run(RequestView::Probe),
        session::authenticate_start(known_to_work).healthy == known_to_work,
{
}

/// A lookup is refused for its reference first and for its reason then, and for nothing else; it is
/// then over, and nothing has changed.
pub proof fn law_refused_lookup(lookup: LookupView, known_to_work: bool, a: Answers)
    ensures
        match reference::reference_fault(lookup.reference) {
            Some(fault) => resolved(
                lookup,
                known_to_work,
                a,
                Err(ErrorView { cause: CauseView::Reference(fault), contexts: Seq::empty() }),
                known_to_work,
            ),
            None => match reference::reason_fault(lookup.reason) {
                Some(fault) => resolved(
                    lookup,
                    known_to_work,
                    a,
                    Err(ErrorView { cause: CauseView::Reason(fault), contexts: Seq::empty() }),
                    known_to_work,
                ),
                None => !(session::resolve_start(lookup, known_to_work).job is Finished),
            },
        },
{
    session_outcome::law_lookup_outcome(lookup, known_to_work, a);
}

/// On a session that is known to work, what the first view gave is the result, whatever else would
/// be answered: the output of pass-cli without its line end.
pub proof fn law_first_view_gives_the_secret(
    lookup: LookupView,
    a: Answers,
    secret: Seq<char>,
    end: Seq<char>,
)
    requires
        reference::valid_reference(lookup.reference),
        reference::valid_reason(lookup.reason),
        a.first == Ok::<Seq<char>, ErrorView>(secret + end),
        encode_utf8(secret + end).len() <= 65536,
        forall|i: int| 0 <= i < end.len() ==> (#[trigger] end[i] == '\r' || end[i] == '\n'),
        secret.len() > 0 ==> secret.last() != '\r' && secret.last() != '\n',
    ensures
        resolved(lookup, true, a, Ok(secret), true),
{
    session_outcome::law_lookup_outcome(lookup, true, a);
    text::law_line_end_goes_alone(secret, end);
}

/// The error of a view: that of pass-cli, or that its output is too large.
pub open spec fn view_fails(output: Result<Seq<char>, ErrorView>, e: ErrorView) -> bool {
    match output {
        Err(said) => e == said,
        Ok(s) => {
            &&& encode_utf8(s).len() > 65536
            &&& e.cause == CauseView::SecretTooLarge
            &&& e.contexts.len() == 0
        },
    }
}

proof fn lemma_view_fails(output: Result<Seq<char>, ErrorView>, e: ErrorView)
    requires
        view_fails(output, e),
    ensures
        command::secret_of(output) == Err::<Seq<char>, ErrorView>(e),
{
    if let Ok(s) = output {
        command::law_secret_is_the_output(s);
        let said = command::secret_of(output)->Err_0;
        assert(said.contexts =~= e.contexts);
        assert(said == e);
    }
}

/// When the first view fails and the session turns out to work, the error of the view is the
/// result, as it is, and there is no second view.
pub proof fn law_failed_view_on_a_working_session(lookup: LookupView, a: Answers, e: ErrorView)
    requires
        reference::valid_reference(lookup.reference),
        reference::valid_reason(lookup.reason),
        view_fails(a.first, e),
        a.recheck is Ok,
    ensures
        resolved(lookup, true, a, Err(e), true),
{
    lemma_view_fails(a.first, e);
    session_outcome::law_lookup_outcome(lookup, true, a);
}

/// When the first view fails, the session does not work and cannot be recovered, the error of the
/// first view is the result, inside the context that says so; the error of the recovery is not.
pub proof fn law_failed_recovery(
    lookup: LookupView,
    a: Answers,
    e: ErrorView,
    recovery: ErrorView,
)
    requires
        reference::valid_reference(lookup.reference),
        reference::valid_reason(lookup.reason),
        view_fails(a.first, e),
        a.recheck is Err,
        authenticated(a.recover, Err(recovery)),
    ensures
        resolved(
            lookup,
            true,
            a,
            Err(
                ErrorView {
                    cause: e.cause,
                    contexts: e.contexts + seq![Context::SessionRecovery],
                },
            ),
            false,
        ),
{
    lemma_view_fails(a.first, e);
    lemma_authenticated(a.recover, Err(recovery));
    session_outcome::law_lookup_outcome(lookup, true, a);
    let result = e.within(Context::SessionRecovery);
    assert(result.contexts =~= e.contexts + seq![Context::SessionRecovery]);
}

/// When the first view fails, the session does not work and is recovered, the second view is the
/// result: its secret, or its error.
pub proof fn law_second_view_after_a_recovery(
    lookup: LookupView,
    a: Answers,
    first: ErrorView,
    secret: Seq<char>,
    end: Seq<char>,
    second: ErrorView,
)
    requires
        reference::valid_reference(lookup.reference),
        reference::valid_reason(lookup.reason),
        view_fails(a.first, first),
        a.recheck is Err,
        authenticated(a.recover, Ok(())),
    ensures
        ({
            &&& a.second == Ok::<Seq<char>, ErrorView>(secret + end)
            &&& encode_utf8(secret + end).len() <= 65536
            &&& forall|i: int| 0 <= i < end.len() ==> (#[trigger] end[i] == '\r' || end[i] == '\n')
            &&& secret.len() > 0 ==> secret.last() != '\r' && secret.last() != '\n'
        }) ==> resolved(lookup, true, a, Ok(secret), true),
        view_fails(a.second, second) ==> resolved(lookup, true, a, Err(second), false),
{
    lemma_view_fails(a.first, first);
    lemma_authenticated(a.recover, Ok(()));
    session_outcome::law_lookup_outcome(lookup, true, a);
    if view_fails(a.second, second) {
        lemma_view_fails(a.second, second);
    }
    if (forall|i: int| 0 <= i < end.len() ==> (#[trigger] end[i] == '\r' || end[i] == '\n')) && (
    secret.len() > 0 ==> secret.last() != '\r' && secret.last() != '\n') {
        text::law_line_end_goes_alone(secret, end);
    }
}

/// When the session is not known to work, an authentication comes first: its error is the result;
/// and when it succeeds, the lookup goes on just as on a session that was known to work.
pub proof fn law_authentication_before_a_lookup(lookup: LookupView, a: Answers, e: ErrorView)
    requires
        reference::valid_reference(lookup.reference),
        reference::valid_reason(lookup.reason),
    ensures
        authenticated(a.prepare, Err(e)) ==> resolved(lookup, false, a, Err(e), false),
        authenticated(a.prepare, Ok(())) ==> {
            let late = session_outcome::ending(session::resolve_start(lookup, false), a);
            let early = session_outcome::ending(session::resolve_start(lookup, true), a);
            late.action == early.action && late.healthy == early.healthy
        },
{
    lemma_authenticated(a.prepare, Err(e));
    lemma_authenticated(a.prepare, Ok(()));
    session_outcome::law_lookup_outcome(lookup, false, a);
    session_outcome::law_lookup_outcome(lookup, true, a);
}

/// From pass-cli to the client: when the view of a valid request on a session that is known to work
/// writes a text with line ends after it, the client is answered with a success, and with the text,
/// whole, as the value.
pub proof fn law_client_gets_what_was_written(
    lookup: LookupView,
    a: Answers,
    name: Seq<char>,
    secret: Seq<char>,
    end: Seq<char>,
    stderr: Seq<u8>,
)
    requires
        reference::valid_reference(lookup.reference),
        reference::valid_reason(lookup.reason),
        encode_utf8(secret + end).len() <= 65536,
        forall|i: int| 0 <= i < end.len() ==> (#[trigger] end[i] == '\r' || end[i] == '\n'),
        secret.len() > 0 ==> secret.last() != '\r' && secret.last() != '\n',
        a.first == command::output_of(
            name,
            OutcomeView::Ended { success: true, stdout: encode_utf8(secret + end), stderr },
        ),
    ensures
        resolved(lookup, true, a, Ok(secret), true),
        http::secret_answer(Ok(secret)).status.number() == 200,
        http::secret_answer(Ok(secret)).body == encode_utf8(
            "{\"value\":\""@ + json::escaped(secret) + "\"}"@,
        ),
{
    encode_utf8_valid_utf8(secret + end);
    command::law_output_is_what_was_written(name, encode_utf8(secret + end), stderr);
    encode_utf8_decode_utf8(secret + end);
    if let Ok(s) = a.first {
        encode_utf8_decode_utf8(s);
        assert(s == secret + end);
    }
    law_first_view_gives_the_secret(lookup, a, secret, end);
    http::law_secret_is_answered_whole(secret);
}

/// The local session state is what is named `.session` in the session directory.
pub proof fn law_session_state_is_in_the_session_directory(session_dir: Seq<u8>)
    ensures
        session_dir.len() > 0 && session_dir.last() != 47 ==> session::state_path(session_dir)
            == session_dir + encode_utf8("/.session"@),
        session_dir.len() == 0 || session_dir.last() == 47 ==> session::state_path(session_dir)
            == session_dir + encode_utf8(".session"@),
{
    reveal_strlit("/.session");
    reveal_strlit(".session");
    is_ascii_chars_encode_utf8("/.session"@);
    is_ascii_chars_encode_utf8(".session"@);
    let long = encode_utf8("/.session"@);
    let short = encode_utf8(".session"@);
    assert(long =~= seq![47u8] + short) by {
        assert forall|i: int| 0 <= i < 8 implies long[i + 1] == short[i] by {
            assert("/.session"@[i + 1] == ".session"@[i]);
        }
        assert("/.session"@[0] as u8 == long[0]);
    }
    assert(session_dir.push(0x2f) + short =~= session_dir + long);
}

} // verus!
