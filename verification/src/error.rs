//! What can go wrong, what is said about it, and which failures call for a fresh session.

use crate::text;
use vstd::prelude::*;
use vstd::string::*;

verus! {

/// Why a secret reference is refused.
#[derive(Clone, Copy, Debug, PartialEq, Eq, Structural)]
pub enum ReferenceError {
    TooLong,
    NotPlainAscii,
    UnknownScheme,
    MissingIdPart,
    MissingNamePart,
    TrailingSlash,
}

/// Why an audit reason is refused.
#[derive(Clone, Copy, Debug, PartialEq, Eq, Structural)]
pub enum ReasonError {
    Empty,
    TooLong,
}

/// Why the token file yields no token.
#[derive(Clone, Copy, Debug, PartialEq, Eq, Structural)]
pub enum TokenError {
    CannotInspect,
    NotPrivate,
    CannotRead,
    InvalidFormat,
}

/// A pass-cli command that ran and reported failure, with what it said on stderr.
#[derive(Debug, PartialEq, Eq)]
pub struct PassCliCommandError {
    pub command: String,
    pub detail: String,
}

/// The failure that an error goes back to.
#[derive(Debug, PartialEq, Eq)]
pub enum Cause {
    Reference(ReferenceError),
    Reason(ReasonError),
    Token(TokenError),
    /// pass-cli could not be started.
    CannotStart,
    /// pass-cli did not end in time.
    TimedOut,
    /// Waiting for pass-cli failed, with the operating system's text.
    WaitFailed(String),
    /// pass-cli reported failure.
    Command(PassCliCommandError),
    /// The output of pass-cli was not UTF-8.
    InvalidOutput,
    /// The output of pass-cli was larger than a secret may be.
    SecretTooLarge,
    /// The local session state could not be removed.
    CannotPurge,
}

/// What was being done when an error came up.
#[derive(Clone, Copy, Debug, PartialEq, Eq, Structural)]
pub enum Context {
    Login,
    ValidationAfterLogin,
    SessionPreserved,
    LoginAfterPurge,
    SessionRecovery,
}

/// A failure together with the contexts it passed through, the outermost one last.
#[derive(Debug, PartialEq, Eq)]
pub struct BrokerError {
    pub cause: Cause,
    pub contexts: Vec<Context>,
}

/// The value of a `PassCliCommandError`.
pub struct CommandErrorView {
    pub command: Seq<char>,
    pub detail: Seq<char>,
}

/// The value of a `Cause`.
pub enum CauseView {
    Reference(ReferenceError),
    Reason(ReasonError),
    Token(TokenError),
    CannotStart,
    TimedOut,
    WaitFailed(Seq<char>),
    Command(CommandErrorView),
    InvalidOutput,
    SecretTooLarge,
    CannotPurge,
}

/// The value of a `BrokerError`.
#[verifier::ext_equal]
pub struct ErrorView {
    pub cause: CauseView,
    pub contexts: Seq<Context>,
}

impl View for PassCliCommandError {
    type V = CommandErrorView;

    open spec fn view(&self) -> CommandErrorView {
        CommandErrorView { command: self.command@, detail: self.detail@ }
    }
}

impl View for Cause {
    type V = CauseView;

    open spec fn view(&self) -> CauseView {
        match *self {
            Cause::Reference(e) => CauseView::Reference(e),
            Cause::Reason(e) => CauseView::Reason(e),
            Cause::Token(e) => CauseView::Token(e),
            Cause::CannotStart => CauseView::CannotStart,
            Cause::TimedOut => CauseView::TimedOut,
            Cause::WaitFailed(text) => CauseView::WaitFailed(text@),
            Cause::Command(e) => CauseView::Command(e@),
            Cause::InvalidOutput => CauseView::InvalidOutput,
            Cause::SecretTooLarge => CauseView::SecretTooLarge,
            Cause::CannotPurge => CauseView::CannotPurge,
        }
    }
}

impl View for BrokerError {
    type V = ErrorView;

    open spec fn view(&self) -> ErrorView {
        ErrorView { cause: self.cause@, contexts: self.contexts@ }
    }
}

impl ReferenceError {
    /// What is said about a refused reference.
    pub open spec fn text(self) -> Seq<char> {
        match self {
            ReferenceError::TooLong => "Secret reference is too long"@,
            ReferenceError::NotPlainAscii => "Secret reference must be ASCII without whitespace"@,
            ReferenceError::UnknownScheme =>
                "Secret reference must start with pass:// or proton://"@,
            ReferenceError::MissingIdPart =>
                "Secret reference must contain share ID, item ID, and field"@,
            ReferenceError::MissingNamePart =>
                "Secret reference must contain vault name, item title, and field"@,
            ReferenceError::TrailingSlash => "Secret reference must not end with a slash"@,
        }
    }

    /// The text that is said, as a string.
    pub fn message(&self) -> (text: String)
        ensures
            text@ == self.text(),
    {
        let said = match self {
            ReferenceError::TooLong => "Secret reference is too long",
            ReferenceError::NotPlainAscii => "Secret reference must be ASCII without whitespace",
            ReferenceError::UnknownScheme =>
                "Secret reference must start with pass:// or proton://",
            ReferenceError::MissingIdPart =>
                "Secret reference must contain share ID, item ID, and field",
            ReferenceError::MissingNamePart =>
                "Secret reference must contain vault name, item title, and field",
            ReferenceError::TrailingSlash => "Secret reference must not end with a slash",
        };
        said.to_owned()
    }
}

impl ReasonError {
    /// What is said about a refused reason.
    pub open spec fn text(self) -> Seq<char> {
        match self {
            ReasonError::Empty => "Audit reason must not be empty"@,
            ReasonError::TooLong => "Audit reason is too long"@,
        }
    }

    /// The text that is said, as a string.
    pub fn message(&self) -> (text: String)
        ensures
            text@ == self.text(),
    {
        let said = match self {
            ReasonError::Empty => "Audit reason must not be empty",
            ReasonError::TooLong => "Audit reason is too long",
        };
        said.to_owned()
    }
}

impl TokenError {
    /// What is said about a token file without a usable token.
    pub open spec fn text(self) -> Seq<char> {
        match self {
            TokenError::CannotInspect => "Unable to inspect Proton Pass token file"@,
            TokenError::NotPrivate =>
                "Proton Pass token file must not be accessible by group or others"@,
            TokenError::CannotRead => "Unable to read Proton Pass token file"@,
            TokenError::InvalidFormat => "Proton Pass token file has an invalid format"@,
        }
    }

    /// The text that is said, as a string.
    pub fn message(&self) -> (text: String)
        ensures
            text@ == self.text(),
    {
        let said = match self {
            TokenError::CannotInspect => "Unable to inspect Proton Pass token file",
            TokenError::NotPrivate =>
                "Proton Pass token file must not be accessible by group or others",
            TokenError::CannotRead => "Unable to read Proton Pass token file",
            TokenError::InvalidFormat => "Proton Pass token file has an invalid format",
        };
        said.to_owned()
    }
}

impl Context {
    /// What is said about an error that came up in this context.
    pub open spec fn text(self) -> Seq<char> {
        match self {
            Context::Login => "Proton Pass login failed"@,
            Context::ValidationAfterLogin =>
                "Proton Pass session validation failed after login"@,
            Context::SessionPreserved =>
                "Proton Pass login failed without evidence of a recoverable session failure; preserving session state"@,
            Context::LoginAfterPurge =>
                "Proton Pass login failed after purging local session state"@,
            Context::SessionRecovery => "Session recovery failed"@,
        }
    }

    /// The text that is said, as a string.
    pub fn message(&self) -> (text: String)
        ensures
            text@ == self.text(),
    {
        let said = match self {
            Context::Login => "Proton Pass login failed",
            Context::ValidationAfterLogin => "Proton Pass session validation failed after login",
            Context::SessionPreserved =>
                "Proton Pass login failed without evidence of a recoverable session failure; preserving session state",
            Context::LoginAfterPurge =>
                "Proton Pass login failed after purging local session state",
            Context::SessionRecovery => "Session recovery failed",
        };
        said.to_owned()
    }
}

impl CommandErrorView {
    /// What is said about a command that reported failure: never what it wrote.
    pub open spec fn text(self) -> Seq<char> {
        "pass-cli command failed: "@ + self.command
    }

    /// What is logged of the diagnostics: a fixed phrase stands in for an empty text.
    pub open spec fn logged(self) -> Seq<char> {
        if self.detail.len() == 0 {
            "no stderr output"@
        } else {
            self.detail
        }
    }
}

impl PassCliCommandError {
    /// The text that is said, as a string.
    pub fn message(&self) -> (text: String)
        ensures
            text@ == self@.text(),
    {
        "pass-cli command failed: ".to_owned().concat(self.command.as_str())
    }

    /// The diagnostics for the log: a fixed phrase stands in for an empty text.
    pub fn logged_detail(&self) -> (text: String)
        ensures
            text@ == if self@.detail.len() == 0 {
                "no stderr output"@
            } else {
                self@.detail
            },
            text@ == self@.logged(),
    {
        if self.detail.as_str().is_empty() {
            "no stderr output".to_owned()
        } else {
            self.detail.clone()
        }
    }
}

impl CauseView {
    /// What is said about this failure.
    pub open spec fn text(self) -> Seq<char> {
        match self {
            CauseView::Reference(e) => e.text(),
            CauseView::Reason(e) => e.text(),
            CauseView::Token(e) => e.text(),
            CauseView::CannotStart => "Unable to start pass-cli"@,
            CauseView::TimedOut => "pass-cli command timed out"@,
            CauseView::WaitFailed(text) => text,
            CauseView::Command(e) => e.text(),
            CauseView::InvalidOutput => "pass-cli returned invalid UTF-8"@,
            CauseView::SecretTooLarge =>
                "Resolved secret exceeds the configured output limit"@,
            CauseView::CannotPurge => "Unable to purge local Proton Pass session state"@,
        }
    }
}

impl Cause {
    /// The text that is said, as a string.
    pub fn message(&self) -> (text: String)
        ensures
            text@ == self@.text(),
    {
        match self {
            Cause::Reference(e) => e.message(),
            Cause::Reason(e) => e.message(),
            Cause::Token(e) => e.message(),
            Cause::CannotStart => "Unable to start pass-cli".to_owned(),
            Cause::TimedOut => "pass-cli command timed out".to_owned(),
            Cause::WaitFailed(text) => text.clone(),
            Cause::Command(e) => e.message(),
            Cause::InvalidOutput => "pass-cli returned invalid UTF-8".to_owned(),
            Cause::SecretTooLarge =>
                "Resolved secret exceeds the configured output limit".to_owned(),
            Cause::CannotPurge => "Unable to purge local Proton Pass session state".to_owned(),
        }
    }
}

impl ErrorView {
    /// An error with no context around its cause.
    pub open spec fn of(cause: CauseView) -> ErrorView {
        ErrorView { cause, contexts: Seq::empty() }
    }

    /// The same error inside one more context.
    pub open spec fn within(self, context: Context) -> ErrorView {
        ErrorView { cause: self.cause, contexts: self.contexts.push(context) }
    }

    /// What is said about the error: the outermost context, or the cause when there is none.
    pub open spec fn text(self) -> Seq<char> {
        if self.contexts.len() > 0 {
            self.contexts.last().text()
        } else {
            self.cause.text()
        }
    }

    /// pass-cli itself named a local session that is damaged or no longer exists.
    pub open spec fn recoverable(self) -> bool {
        self.cause matches CauseView::Command(e) && names_session_damage(e.detail)
    }
}

/// The diagnostics that name a damaged or vanished session, in any mix of ASCII letter case.
pub open spec fn names_session_damage(detail: Seq<char>) -> bool {
    let said = text::lowered(detail);
    ||| text::occurs_in(said, "aead"@)
    ||| text::occurs_in(said, "local key"@)
    ||| text::occurs_in(said, "decrypt"@) && text::occurs_in(said, "session"@)
    ||| text::occurs_in(said, "non-existent session"@)
    ||| text::occurs_in(said, "session has been invalidated"@)
    ||| text::occurs_in(said, "session invalidated"@)
}

impl BrokerError {
    /// An error with no context around its cause.
    pub fn new(cause: Cause) -> (error: BrokerError)
        ensures
            error@ == ErrorView::of(cause@),
    {
        BrokerError { cause, contexts: Vec::new() }
    }

    /// The same error inside one more context.
    pub fn context(self, context: Context) -> (error: BrokerError)
        ensures
            error@ == self@.within(context),
    {
        let mut contexts = self.contexts;
        contexts.push(context);
        BrokerError { cause: self.cause, contexts }
    }

    /// What is said about the error.
    pub fn message(&self) -> (text: String)
        ensures
            text@ == self@.text(),
    {
        let depth: usize = self.contexts.len();
        if depth > 0 {
            self.contexts[depth - 1].message()
        } else {
            self.cause.message()
        }
    }
}

/// Some stretch of the text reads like the phrase, with a capital letter of ASCII read as its
/// small one.
pub open spec fn mentions(detail: Seq<char>, phrase: Seq<char>) -> bool {
    exists|i: int| #[trigger] mentions_at(detail, phrase, i)
}

/// The stretch of the text from `i` on reads like the phrase.
pub open spec fn mentions_at(detail: Seq<char>, phrase: Seq<char>, i: int) -> bool {
    &&& 0 <= i <= detail.len() - phrase.len()
    &&& forall|k: int|
        0 <= k < phrase.len() ==> {
            let n = detail[i + k] as int;
            (#[trigger] phrase[k]) as int == if 65 <= n <= 90 {
                n + 32
            } else {
                n
            }
        }
}

/// Whether the error goes back to a pass-cli command that named a damaged or vanished session.
pub fn is_recoverable_session_failure(error: &BrokerError) -> (yes: bool)
    ensures
        yes == error@.recoverable(),
        yes <==> match error.cause {
            Cause::Command(e) => {
                ||| mentions(e.detail@, "aead"@)
                ||| mentions(e.detail@, "local key"@)
                ||| mentions(e.detail@, "decrypt"@) && mentions(e.detail@, "session"@)
                ||| mentions(e.detail@, "non-existent session"@)
                ||| mentions(e.detail@, "session has been invalidated"@)
                ||| mentions(e.detail@, "session invalidated"@)
            },
            _ => false,
        },
{
    proof {
        law_recoverable_diagnostics(error@);
    }
    match &error.cause {
        Cause::Command(command_error) => {
            let said = text::lower_chars(command_error.detail.as_str());
            text::contains(&said, "aead")
                || text::contains(&said, "local key")
                || (text::contains(&said, "decrypt") && text::contains(&said, "session"))
                || text::contains(&said, "non-existent session")
                || text::contains(&said, "session has been invalidated")
                || text::contains(&said, "session invalidated")
        },
        _ => false,
    }
}

/// Whether a failure calls for a fresh session does not depend on the contexts around it.
pub proof fn law_context_keeps_recoverability(error: ErrorView, context: Context)
    ensures
        error.within(context).recoverable() == error.recoverable(),
{
}

/// Only a pass-cli command that ran and reported failure can call for a fresh session: no
/// failure to start it, to wait for it or to read the token does.
pub proof fn law_only_reported_failures_are_recoverable(error: ErrorView)
    requires
        !(error.cause is Command),
    ensures
        !error.recoverable(),
{
}

/// Whether diagnostics name session damage does not depend on their ASCII letter case.
pub proof fn law_damage_ignores_letter_case(detail: Seq<char>)
    ensures
        names_session_damage(text::lowered(detail)) == names_session_damage(detail),
{
    assert(text::lowered(text::lowered(detail)) =~= text::lowered(detail)) by {
        assert forall|c: char| text::lower(text::lower(c)) == text::lower(c) by {
            if 'A' <= c <= 'Z' {
                assert((c as u8 + 32) as char as u32 == c as u32 + 32);
            }
        }
    }
}

/// What is said about an error never repeats what pass-cli wrote.
pub proof fn law_message_hides_diagnostics(
    command: Seq<char>,
    a: Seq<char>,
    b: Seq<char>,
    contexts: Seq<Context>,
)
    ensures
        ({
            let x = CauseView::Command(CommandErrorView { command, detail: a });
            let y = CauseView::Command(CommandErrorView { command, detail: b });
            ErrorView { cause: x, contexts }.text() == ErrorView { cause: y, contexts }.text()
        }),
{
}

/// A phrase occurs in the lowered text exactly when the text mentions it.
proof fn lemma_mentions(detail: Seq<char>, phrase: Seq<char>)
    ensures
        text::occurs_in(text::lowered(detail), phrase) <==> mentions(detail, phrase),
{
    let said = text::lowered(detail);
    text::law_lowering(detail);
    assert forall|i: int| text::occurs_at(said, phrase, i) <==> mentions_at(
        detail,
        phrase,
        i,
    ) by {
        if text::occurs_at(said, phrase, i) {
            assert forall|k: int| 0 <= k < phrase.len() implies ({
                let n = detail[i + k] as int;
                (#[trigger] phrase[k]) as int == if 65 <= n <= 90 {
                    n + 32
                } else {
                    n
                }
            }) by {
                assert(said.subrange(i, i + phrase.len())[k] == said[i + k]);
            }
        }
        if mentions_at(detail, phrase, i) {
            assert forall|k: int| 0 <= k < phrase.len() implies said[i + k] == phrase[k] by {
                assert(said[i + k] as int == phrase[k] as int);
            }
            assert(said.subrange(i, i + phrase.len()) =~= phrase);
        }
    }
    if text::occurs_in(said, phrase) {
        let i = choose|i: int| text::occurs_at(said, phrase, i);
        assert(mentions_at(detail, phrase, i));
    }
    if mentions(detail, phrase) {
        let i = choose|i: int| mentions_at(detail, phrase, i);
        assert(text::occurs_at(said, phrase, i));
    }
}

/// A failure calls for a fresh session if and only if pass-cli reported it and its diagnostics
/// mention one of the phrases for a damaged or vanished session.
pub proof fn law_recoverable_diagnostics(error: ErrorView)
    ensures
        error.recoverable() <==> match error.cause {
            CauseView::Command(e) => {
                ||| mentions(e.detail, "aead"@)
                ||| mentions(e.detail, "local key"@)
                ||| mentions(e.detail, "decrypt"@) && mentions(e.detail, "session"@)
                ||| mentions(e.detail, "non-existent session"@)
                ||| mentions(e.detail, "session has been invalidated"@)
                ||| mentions(e.detail, "session invalidated"@)
            },
            _ => false,
        },
{
    if let CauseView::Command(e) = error.cause {
        lemma_mentions(e.detail, "aead"@);
        lemma_mentions(e.detail, "local key"@);
        lemma_mentions(e.detail, "decrypt"@);
        lemma_mentions(e.detail, "session"@);
        lemma_mentions(e.detail, "non-existent session"@);
        lemma_mentions(e.detail, "session has been invalidated"@);
        lemma_mentions(e.detail, "session invalidated"@);
    }
}

/// Diagnostics that mention none of the phrases preserve the session, whatever else they say: a
/// refused or reset connection, a name that does not resolve, an authentication that is there
/// already.
pub proof fn law_other_diagnostics_preserve_the_session(error: ErrorView)
    requires
        error.cause matches CauseView::Command(e) ==> {
            &&& !mentions(e.detail, "aead"@)
            &&& !mentions(e.detail, "local key"@)
            &&& !(mentions(e.detail, "decrypt"@) && mentions(e.detail, "session"@))
            &&& !mentions(e.detail, "non-existent session"@)
            &&& !mentions(e.detail, "session has been invalidated"@)
            &&& !mentions(e.detail, "session invalidated"@)
        },
    ensures
        !error.recoverable(),
{
    law_recoverable_diagnostics(error);
}

/// A part of a phrase is mentioned wherever the phrase is.
proof fn lemma_part_is_mentioned(detail: Seq<char>, phrase: Seq<char>, part: Seq<char>, at: int)
    requires
        mentions(detail, phrase),
        0 <= at <= phrase.len() - part.len(),
        forall|k: int| 0 <= k < part.len() ==> #[trigger] part[k] == phrase[at + k],
    ensures
        mentions(detail, part),
{
    let i = choose|i: int| mentions_at(detail, phrase, i);
    assert(mentions_at(detail, part, i + at));
}

/// Diagnostics that mention neither `aead`, nor `local key`, nor `session` preserve the session.
pub proof fn law_session_is_preserved_unless_mentioned(error: ErrorView)
    requires
        error.cause matches CauseView::Command(e) ==> {
            &&& !mentions(e.detail, "aead"@)
            &&& !mentions(e.detail, "local key"@)
            &&& !mentions(e.detail, "session"@)
        },
    ensures
        !error.recoverable(),
{
    reveal_strlit("session");
    reveal_strlit("non-existent session");
    reveal_strlit("session has been invalidated");
    reveal_strlit("session invalidated");
    if let CauseView::Command(e) = error.cause {
        if mentions(e.detail, "non-existent session"@) {
            lemma_part_is_mentioned(e.detail, "non-existent session"@, "session"@, 13);
        }
        if mentions(e.detail, "session has been invalidated"@) {
            lemma_part_is_mentioned(e.detail, "session has been invalidated"@, "session"@, 0);
        }
        if mentions(e.detail, "session invalidated"@) {
            lemma_part_is_mentioned(e.detail, "session invalidated"@, "session"@, 0);
        }
    }
    law_recoverable_diagnostics(error);
}

/// An error says what its outermost context says, and what its cause says when it has none; its
/// cause stays with it.
pub proof fn law_error_says_the_outermost(cause: CauseView, error: ErrorView, context: Context)
    ensures
        ErrorView::of(cause).cause == cause,
        ErrorView::of(cause).contexts.len() == 0,
        ErrorView::of(cause).text() == cause.text(),
        error.within(context).cause == error.cause,
        error.within(context).contexts == error.contexts + seq![context],
        error.within(context).text() == context.text(),
{
    assert(error.within(context).contexts =~= error.contexts + seq![context]);
}

/// What each failure says. Only the failure of a wait passes on a text from outside, and only a
/// failed command names the command.
pub proof fn law_texts_of_failures(said: Seq<char>, command: Seq<char>, detail: Seq<char>)
    ensures
        CauseView::CannotStart.text() == "Unable to start pass-cli"@,
        CauseView::TimedOut.text() == "pass-cli command timed out"@,
        CauseView::WaitFailed(said).text() == said,
        CauseView::Command(CommandErrorView { command, detail }).text()
            == "pass-cli command failed: "@ + command,
        CauseView::InvalidOutput.text() == "pass-cli returned invalid UTF-8"@,
        CauseView::SecretTooLarge.text() == "Resolved secret exceeds the configured output limit"@,
        CauseView::CannotPurge.text() == "Unable to purge local Proton Pass session state"@,
        CauseView::Reference(ReferenceError::TooLong).text() == "Secret reference is too long"@,
        CauseView::Reference(ReferenceError::NotPlainAscii).text()
            == "Secret reference must be ASCII without whitespace"@,
        CauseView::Reference(ReferenceError::UnknownScheme).text()
            == "Secret reference must start with pass:// or proton://"@,
        CauseView::Reference(ReferenceError::MissingIdPart).text()
            == "Secret reference must contain share ID, item ID, and field"@,
        CauseView::Reference(ReferenceError::MissingNamePart).text()
            == "Secret reference must contain vault name, item title, and field"@,
        CauseView::Reference(ReferenceError::TrailingSlash).text()
            == "Secret reference must not end with a slash"@,
        CauseView::Reason(ReasonError::Empty).text() == "Audit reason must not be empty"@,
        CauseView::Reason(ReasonError::TooLong).text() == "Audit reason is too long"@,
        CauseView::Token(TokenError::CannotInspect).text()
            == "Unable to inspect Proton Pass token file"@,
        CauseView::Token(TokenError::NotPrivate).text()
            == "Proton Pass token file must not be accessible by group or others"@,
        CauseView::Token(TokenError::CannotRead).text() == "Unable to read Proton Pass token file"@,
        CauseView::Token(TokenError::InvalidFormat).text()
            == "Proton Pass token file has an invalid format"@,
{
}

/// What each context says.
pub proof fn law_texts_of_contexts()
    ensures
        Context::Login.text() == "Proton Pass login failed"@,
        Context::ValidationAfterLogin.text() == "Proton Pass session validation failed after login"@,
        Context::SessionPreserved.text()
            == "Proton Pass login failed without evidence of a recoverable session failure; preserving session state"@,
        Context::LoginAfterPurge.text()
            == "Proton Pass login failed after purging local session state"@,
        Context::SessionRecovery.text() == "Session recovery failed"@,
{
}

/// The value of an error is its cause and all its contexts; that of a cause is what it holds.
pub proof fn law_views_leave_nothing_out(
    error: BrokerError,
    text: String,
    command: PassCliCommandError,
    reference: ReferenceError,
    reason: ReasonError,
    token: TokenError,
)
    ensures
        error@.cause == error.cause@,
        error@.contexts == error.contexts@,
        Cause::Reference(reference)@ == CauseView::Reference(reference),
        Cause::Reason(reason)@ == CauseView::Reason(reason),
        Cause::Token(token)@ == CauseView::Token(token),
        Cause::CannotStart@ == CauseView::CannotStart,
        Cause::TimedOut@ == CauseView::TimedOut,
        Cause::WaitFailed(text)@ == CauseView::WaitFailed(text@),
        Cause::Command(command)@ == CauseView::Command(
            CommandErrorView { command: command.command@, detail: command.detail@ },
        ),
        Cause::InvalidOutput@ == CauseView::InvalidOutput,
        Cause::SecretTooLarge@ == CauseView::SecretTooLarge,
        Cause::CannotPurge@ == CauseView::CannotPurge,
{
}

/// The diagnostics that were kept are logged whole, and the log is never empty.
pub proof fn law_diagnostics_are_logged(command: Seq<char>, detail: Seq<char>)
    ensures
        detail.len() > 0 ==> (CommandErrorView { command, detail }).logged() == detail,
        (CommandErrorView { command, detail: Seq::empty() }).logged() == "no stderr output"@,
        (CommandErrorView { command, detail }).logged().len() > 0,
{
    reveal_strlit("no stderr output");
}

} // verus!
