//! The pass-cli commands that the broker runs, and what their output means.

use crate::config::{Config, ConfigView, Environment, EnvironmentView};
use crate::config;
use crate::encoding;
use crate::error::{BrokerError, Cause, CauseView, CommandErrorView, ErrorView, PassCliCommandError};
use crate::reference;
use crate::text;
use vstd::prelude::*;
use vstd::string::*;
use vstd::utf8::*;

verus! {

/// The most bytes that pass-cli may write for a secret.
pub const MAX_SECRET_BYTES: usize = 65536;

/// The most characters of diagnostics that are kept of a failed command.
pub const MAX_DETAIL_CHARS: usize = 500;

/// What the broker asks of pass-cli.
#[derive(Debug, PartialEq, Eq)]
pub enum PassCliRequest {
    /// Whether there is a working session.
    Probe,
    /// A session for the token.
    Login { token: String },
    /// The secret behind a reference, with the reason for looking it up.
    View { reference: String, reason: String },
}

/// The value of a `PassCliRequest`.
pub enum RequestView {
    Probe,
    Login { token: Seq<char> },
    View { reference: Seq<char>, reason: Seq<char> },
}

impl View for PassCliRequest {
    type V = RequestView;

    open spec fn view(&self) -> RequestView {
        match *self {
            PassCliRequest::Probe => RequestView::Probe,
            PassCliRequest::Login { token } => RequestView::Login { token: token@ },
            PassCliRequest::View { reference, reason } => RequestView::View {
                reference: reference@,
                reason: reason@,
            },
        }
    }
}

/// A process to start: its whole environment is listed, nothing is inherited.
#[derive(Debug)]
pub struct PassCliCommand {
    pub program: Vec<u8>,
    pub arguments: Vec<String>,
    pub environment: Vec<(String, Vec<u8>)>,
    pub timeout: u64,
}

/// The value of a `PassCliCommand`.
#[verifier::ext_equal]
pub struct CommandView {
    pub program: Seq<u8>,
    pub arguments: Seq<Seq<char>>,
    pub environment: Seq<(Seq<char>, Seq<u8>)>,
    pub timeout: u64,
}

/// The value of a list of environment entries.
pub open spec fn entries(list: Seq<(String, Vec<u8>)>) -> Seq<(Seq<char>, Seq<u8>)> {
    list.map_values(|e: (String, Vec<u8>)| (e.0@, e.1@))
}

impl View for PassCliCommand {
    type V = CommandView;

    open spec fn view(&self) -> CommandView {
        CommandView {
            program: self.program@,
            arguments: self.arguments.deep_view(),
            environment: entries(self.environment@),
            timeout: self.timeout,
        }
    }
}

/// How a started command came to its end.
#[derive(Debug)]
pub enum CommandOutcome {
    CannotStart,
    TimedOut,
    WaitFailed(String),
    Ended { success: bool, stdout: Vec<u8>, stderr: Vec<u8> },
}

/// The value of a `CommandOutcome`.
pub enum OutcomeView {
    CannotStart,
    TimedOut,
    WaitFailed(Seq<char>),
    Ended { success: bool, stdout: Seq<u8>, stderr: Seq<u8> },
}

impl View for CommandOutcome {
    type V = OutcomeView;

    open spec fn view(&self) -> OutcomeView {
        match *self {
            CommandOutcome::CannotStart => OutcomeView::CannotStart,
            CommandOutcome::TimedOut => OutcomeView::TimedOut,
            CommandOutcome::WaitFailed(s) => OutcomeView::WaitFailed(s@),
            CommandOutcome::Ended { success, stdout, stderr } => OutcomeView::Ended {
                success,
                stdout: stdout@,
                stderr: stderr@,
            },
        }
    }
}

/// The value of a text or an error.
pub open spec fn result_view(r: Result<String, BrokerError>) -> Result<Seq<char>, ErrorView> {
    match r {
        Ok(s) => Ok(s@),
        Err(e) => Err(e@),
    }
}

impl RequestView {
    /// The arguments that make the request.
    pub open spec fn arguments(self) -> Seq<Seq<char>> {
        match self {
            RequestView::Probe => seq!["info"@, "--output"@, "json"@],
            RequestView::Login { token } => seq!["login"@],
            RequestView::View { reference, reason } => reference::view_arguments(reference),
        }
    }

    /// The environment entries that belong to this request alone.
    pub open spec fn own_environment(self) -> Seq<(Seq<char>, Seq<u8>)> {
        match self {
            RequestView::Probe => Seq::empty(),
            RequestView::Login { token } => seq![
                ("PROTON_PASS_PERSONAL_ACCESS_TOKEN"@, encode_utf8(token)),
            ],
            RequestView::View { reference, reason } => seq![
                ("PROTON_PASS_AGENT_REASON"@, encode_utf8(reason)),
            ],
        }
    }
}

/// The environment entries of every command.
pub open spec fn common_environment(session_dir: Seq<u8>) -> Seq<(Seq<char>, Seq<u8>)> {
    seq![
        ("HOME"@, encode_utf8("/var/lib/proton-pass"@)),
        ("PROTON_PASS_SESSION_DIR"@, session_dir),
        ("PROTON_PASS_KEY_PROVIDER"@, encode_utf8("fs"@)),
        ("SSL_CERT_FILE"@, encode_utf8("/etc/ssl/certs/ca-certificates.crt"@)),
    ]
}

/// A proxy variable is handed on when it is set to UTF-8 text.
pub open spec fn proxy_entry(own: EnvironmentView, name: Seq<char>) -> Seq<(Seq<char>, Seq<u8>)> {
    match config::value_of(own, name) {
        Some(bytes) if valid_utf8(bytes) => seq![(name, bytes)],
        _ => Seq::empty(),
    }
}

/// The proxy entries that are handed on.
pub open spec fn proxy_environment(own: EnvironmentView) -> Seq<(Seq<char>, Seq<u8>)> {
    proxy_entry(own, "HTTP_PROXY"@) + proxy_entry(own, "HTTPS_PROXY"@) + proxy_entry(
        own,
        "NO_PROXY"@,
    )
}

/// The command that makes a request. `own` is the environment of the broker itself.
pub open spec fn command_for(
    config: ConfigView,
    request: RequestView,
    own: EnvironmentView,
) -> CommandView {
    CommandView {
        program: config.pass_cli,
        arguments: request.arguments(),
        environment: common_environment(config.session_dir) + request.own_environment()
            + proxy_environment(own),
        timeout: config.command_timeout,
    }
}

impl CommandView {
    /// The name under which a failure of this command is reported.
    pub open spec fn name(self) -> Seq<char> {
        if self.arguments.len() > 0 {
            self.arguments[0]
        } else {
            "?"@
        }
    }
}

/// What is kept of the diagnostics of a failed command.
pub open spec fn detail_of(said: Seq<char>) -> Seq<char> {
    let t = text::trimmed(said);
    if t.len() > MAX_DETAIL_CHARS {
        t.take(MAX_DETAIL_CHARS as int)
    } else {
        t
    }
}

/// The text that a command gave, or why it gave none.
pub open spec fn output_of(name: Seq<char>, outcome: OutcomeView) -> Result<Seq<char>, ErrorView> {
    match outcome {
        OutcomeView::CannotStart => Err(ErrorView::of(CauseView::CannotStart)),
        OutcomeView::TimedOut => Err(ErrorView::of(CauseView::TimedOut)),
        OutcomeView::WaitFailed(s) => Err(ErrorView::of(CauseView::WaitFailed(s))),
        OutcomeView::Ended { success, stdout, stderr } => if !success {
            Err(
                ErrorView::of(
                    CauseView::Command(
                        CommandErrorView {
                            command: name,
                            detail: detail_of(encoding::utf8_lossy(stderr)),
                        },
                    ),
                ),
            )
        } else if valid_utf8(stdout) {
            Ok(decode_utf8(stdout))
        } else {
            Err(ErrorView::of(CauseView::InvalidOutput))
        },
    }
}

/// The secret in the output of a lookup.
pub open spec fn secret_of(output: Result<Seq<char>, ErrorView>) -> Result<Seq<char>, ErrorView> {
    match output {
        Ok(s) => if encode_utf8(s).len() > MAX_SECRET_BYTES {
            Err(ErrorView::of(CauseView::SecretTooLarge))
        } else {
            Ok(text::without_line_end(s))
        },
        Err(e) => Err(e),
    }
}

/// Append an entry with a text as its value.
fn push_text(environment: &mut Vec<(String, Vec<u8>)>, name: &str, value: &str)
    ensures
        entries(final(environment)@) == entries(old(environment)@).push(
            (name@, encode_utf8(value@)),
        ),
{
    environment.push((name.to_owned(), value.as_bytes_vec()));
    assert(entries(environment@) =~= entries(old(environment)@).push((name@, encode_utf8(value@))));
}

/// Append an entry with bytes as its value.
fn push_bytes(environment: &mut Vec<(String, Vec<u8>)>, name: &str, value: &Vec<u8>)
    ensures
        entries(final(environment)@) == entries(old(environment)@).push((name@, value@)),
{
    let copy = value.clone();
    assert(copy@ =~= value@);
    environment.push((name.to_owned(), copy));
    assert(entries(environment@) =~= entries(old(environment)@).push((name@, value@)));
}

/// Append a proxy entry, when it is handed on.
fn push_proxy(environment: &mut Vec<(String, Vec<u8>)>, own: &Environment, name: &str)
    ensures
        entries(final(environment)@) == entries(old(environment)@) + proxy_entry(own@, name@),
{
    if let Some(bytes) = own.get(name) {
        let copy = bytes.clone();
        assert(copy@ =~= bytes@);
        if encoding::string_from_utf8(copy).is_some() {
            push_bytes(environment, name, &bytes);
        }
    }
    assert(entries(environment@) =~= entries(old(environment)@) + proxy_entry(own@, name@));
}

/// The command that makes a request of pass-cli. `own` is the environment of the broker itself,
/// of which only the proxy settings are handed on.
pub fn pass_cli_command(config: &Config, request: &PassCliRequest, own: &Environment) -> (command:
    PassCliCommand)
    ensures
        command@ == command_for(config@, request@, own@),
{
    let mut environment: Vec<(String, Vec<u8>)> = Vec::new();
    push_text(&mut environment, "HOME", "/var/lib/proton-pass");
    push_bytes(&mut environment, "PROTON_PASS_SESSION_DIR", &config.session_dir);
    push_text(&mut environment, "PROTON_PASS_KEY_PROVIDER", "fs");
    push_text(&mut environment, "SSL_CERT_FILE", "/etc/ssl/certs/ca-certificates.crt");
    assert(entries(environment@) =~= common_environment(config@.session_dir));
    let mut arguments: Vec<String> = Vec::new();
    match request {
        PassCliRequest::Probe => {
            arguments.push("info".to_owned());
            arguments.push("--output".to_owned());
            arguments.push("json".to_owned());
        },
        PassCliRequest::Login { token } => {
            arguments.push("login".to_owned());
            push_text(&mut environment, "PROTON_PASS_PERSONAL_ACCESS_TOKEN", token.as_str());
        },
        PassCliRequest::View { reference, reason } => {
            arguments = reference::pass_cli_view_arguments(reference.as_str());
            push_text(&mut environment, "PROTON_PASS_AGENT_REASON", reason.as_str());
        },
    }
    assert(arguments.deep_view() =~= request@.arguments());
    assert(entries(environment@) =~= common_environment(config@.session_dir)
        + request@.own_environment());
    push_proxy(&mut environment, own, "HTTP_PROXY");
    push_proxy(&mut environment, own, "HTTPS_PROXY");
    push_proxy(&mut environment, own, "NO_PROXY");
    assert(entries(environment@) =~= common_environment(config@.session_dir)
        + request@.own_environment() + proxy_environment(own@));
    let program = config.pass_cli.clone();
    assert(program@ =~= config.pass_cli@);
    PassCliCommand { program, arguments, environment, timeout: config.command_timeout }
}

impl PassCliCommand {
    /// The name under which a failure of this command is reported.
    pub fn name(&self) -> (name: String)
        ensures
            name@ == if self@.arguments.len() > 0 {
                self@.arguments[0]
            } else {
                "?"@
            },
            name@ == self@.name(),
    {
        if self.arguments.len() > 0 {
            self.arguments[0].clone()
        } else {
            "?".to_owned()
        }
    }
}

/// What is kept of a command that reported failure with these diagnostics.
pub fn failed_command(name: &str, said: &str) -> (error: PassCliCommandError)
    ensures
        error@ == (CommandErrorView { command: name@, detail: detail_of(said@) }),
{
    let trimmed = text::trim(said);
    let length: usize = trimmed.unicode_len();
    let detail = if length > MAX_DETAIL_CHARS {
        trimmed.substring_char(0, MAX_DETAIL_CHARS)
    } else {
        trimmed
    };
    assert(detail@ =~= detail_of(said@));
    PassCliCommandError { command: name.to_owned(), detail: detail.to_owned() }
}

/// The text that a command gave on its standard output, or why there is none.
pub fn command_output(name: &str, outcome: CommandOutcome) -> (r: Result<String, BrokerError>)
    ensures
        result_view(r) == output_of(name@, outcome@),
        outcome@ matches OutcomeView::Ended { success: false, stdout, stderr } ==> valid_utf8(stderr)
            ==> result_view(r) == Err::<Seq<char>, ErrorView>(
            ErrorView::of(
                CauseView::Command(
                    CommandErrorView { command: name@, detail: detail_of(decode_utf8(stderr)) },
                ),
            ),
        ),
        outcome matches CommandOutcome::Ended { success: true, stdout, stderr } ==> {
            &&& valid_utf8(stdout@) ==> (r matches Ok(s) && encode_utf8(s@) == stdout@)
            &&& !valid_utf8(stdout@) ==> (r matches Err(e) && e.cause == Cause::InvalidOutput)
        },
        !(outcome matches CommandOutcome::Ended { success: true, stdout, stderr }) ==> r is Err,
{
    proof {
        if let OutcomeView::Ended { success: true, stdout, stderr } = outcome@ {
            law_output_is_what_was_written(name@, stdout, stderr);
        }
    }
    match outcome {
        CommandOutcome::CannotStart => Err(BrokerError::new(Cause::CannotStart)),
        CommandOutcome::TimedOut => Err(BrokerError::new(Cause::TimedOut)),
        CommandOutcome::WaitFailed(s) => Err(BrokerError::new(Cause::WaitFailed(s))),
        CommandOutcome::Ended { success, stdout, stderr } => if !success {
            let said = encoding::string_from_utf8_lossy(&stderr);
            Err(BrokerError::new(Cause::Command(failed_command(name, said.as_str()))))
        } else {
            match encoding::string_from_utf8(stdout) {
                Some(s) => Ok(s),
                None => Err(BrokerError::new(Cause::InvalidOutput)),
            }
        },
    }
}

/// The secret in the output of a lookup: small enough, and without the line end.
pub fn secret_from_output(output: Result<String, BrokerError>) -> (r: Result<String, BrokerError>)
    ensures
        result_view(r) == secret_of(result_view(output)),
        match (output, r) {
            (Ok(s), Ok(secret)) => {
                &&& encode_utf8(s@).len() <= 65536
                &&& secret@.is_prefix_of(s@)
                &&& forall|i: int|
                    secret@.len() <= i < s@.len() ==> (#[trigger] s@[i] == '\r' || s@[i] == '\n')
                &&& secret@.len() > 0 ==> secret@.last() != '\r' && secret@.last() != '\n'
            },
            (Ok(s), Err(e)) => encode_utf8(s@).len() > 65536 && e.cause == Cause::SecretTooLarge,
            (Err(e), r) => r == Err::<String, BrokerError>(e),
        },
{
    proof {
        if let Ok(s) = result_view(output) {
            law_secret_is_the_output(s);
        }
    }
    match output {
        Ok(s) => if s.as_str().as_bytes().len() > MAX_SECRET_BYTES {
            Err(BrokerError::new(Cause::SecretTooLarge))
        } else {
            Ok(text::trim_line_end(s.as_str()).to_owned())
        },
        Err(e) => Err(e),
    }
}

/// The names that can stand in the environment of a command besides those of its own request.
pub open spec fn common_name(name: Seq<char>) -> bool {
    ||| name == "HOME"@
    ||| name == "PROTON_PASS_SESSION_DIR"@
    ||| name == "PROTON_PASS_KEY_PROVIDER"@
    ||| name == "SSL_CERT_FILE"@
    ||| name == "HTTP_PROXY"@
    ||| name == "HTTPS_PROXY"@
    ||| name == "NO_PROXY"@
}

/// Every environment entry of a command is common to all commands or the request's own.
pub proof fn law_environment_is_closed(
    config: ConfigView,
    request: RequestView,
    own: EnvironmentView,
    i: int,
)
    requires
        0 <= i < command_for(config, request, own).environment.len(),
    ensures
        ({
            let entry = command_for(config, request, own).environment[i];
            common_name(entry.0) || request.own_environment().contains(entry)
        }),
{
    let common = common_environment(config.session_dir);
    let extra = request.own_environment();
    let env = command_for(config, request, own).environment;
    if i < common.len() {
        assert(env[i] == common[i]);
    } else if i < common.len() + extra.len() {
        assert(env[i] == extra[i - common.len()]);
        assert(extra.contains(env[i]));
    } else {
        assert(env[i] == proxy_environment(own)[i - common.len() - extra.len()]);
    }
}

/// The token is in the environment of the login command and of no other.
pub proof fn law_token_only_at_login(config: ConfigView, request: RequestView, own: EnvironmentView)
    ensures
        request matches RequestView::Login { token } ==> command_for(
            config,
            request,
            own,
        ).environment.contains(("PROTON_PASS_PERSONAL_ACCESS_TOKEN"@, encode_utf8(token))),
        !(request is Login) ==> forall|i: int|
            0 <= i < command_for(config, request, own).environment.len() ==> (
            #[trigger] command_for(config, request, own).environment[i]).0
                != "PROTON_PASS_PERSONAL_ACCESS_TOKEN"@,
{
    lemma_names_differ();
    let env = command_for(config, request, own).environment;
    if request is Login {
        assert(env[4] == request.own_environment()[0]);
    } else {
        assert forall|i: int| 0 <= i < env.len() implies (#[trigger] env[i]).0
            != "PROTON_PASS_PERSONAL_ACCESS_TOKEN"@ by {
            law_environment_is_closed(config, request, own, i);
        }
    }
}

/// The reason is in the environment of every lookup and of no other command.
pub proof fn law_reason_at_every_lookup(
    config: ConfigView,
    request: RequestView,
    own: EnvironmentView,
)
    ensures
        request matches RequestView::View { reference, reason } ==> command_for(
            config,
            request,
            own,
        ).environment.contains(("PROTON_PASS_AGENT_REASON"@, encode_utf8(reason))),
        !(request is View) ==> forall|i: int|
            0 <= i < command_for(config, request, own).environment.len() ==> (
            #[trigger] command_for(config, request, own).environment[i]).0
                != "PROTON_PASS_AGENT_REASON"@,
{
    lemma_names_differ();
    let env = command_for(config, request, own).environment;
    if request is View {
        assert(env[4] == request.own_environment()[0]);
    } else {
        assert forall|i: int| 0 <= i < env.len() implies (#[trigger] env[i]).0
            != "PROTON_PASS_AGENT_REASON"@ by {
            law_environment_is_closed(config, request, own, i);
        }
    }
}

/// The names of the request's own entries differ from the common ones and from each other.
proof fn lemma_names_differ()
    ensures
        !common_name("PROTON_PASS_PERSONAL_ACCESS_TOKEN"@),
        !common_name("PROTON_PASS_AGENT_REASON"@),
        "PROTON_PASS_PERSONAL_ACCESS_TOKEN"@ != "PROTON_PASS_AGENT_REASON"@,
{
    reveal_strlit("PROTON_PASS_PERSONAL_ACCESS_TOKEN");
    reveal_strlit("PROTON_PASS_AGENT_REASON");
    reveal_strlit("HOME");
    reveal_strlit("PROTON_PASS_SESSION_DIR");
    reveal_strlit("PROTON_PASS_KEY_PROVIDER");
    reveal_strlit("SSL_CERT_FILE");
    reveal_strlit("HTTP_PROXY");
    reveal_strlit("HTTPS_PROXY");
    reveal_strlit("NO_PROXY");
    assert("PROTON_PASS_PERSONAL_ACCESS_TOKEN"@.len() == 33);
    assert("PROTON_PASS_AGENT_REASON"@.len() == 24);
    assert("HOME"@.len() == 4);
    assert("PROTON_PASS_SESSION_DIR"@.len() == 23);
    assert("PROTON_PASS_KEY_PROVIDER"@.len() == 24);
    assert("SSL_CERT_FILE"@.len() == 13);
    assert("HTTP_PROXY"@.len() == 10);
    assert("HTTPS_PROXY"@.len() == 11);
    assert("NO_PROXY"@.len() == 8);
    assert("PROTON_PASS_AGENT_REASON"@[12] == 'A');
    assert("PROTON_PASS_KEY_PROVIDER"@[12] == 'K');
}

/// A resolved secret is the output of pass-cli without the line ends at its end, from an output
/// within the limit.
pub proof fn law_secret_is_the_output(output: Seq<char>)
    ensures
        match secret_of(Ok(output)) {
            Ok(secret) => {
                &&& encode_utf8(output).len() <= 65536
                &&& secret.is_prefix_of(output)
                &&& forall|i: int|
                    secret.len() <= i < output.len() ==> (#[trigger] output[i] == '\r' || output[i]
                        == '\n')
                &&& secret.len() > 0 ==> secret.last() != '\r' && secret.last() != '\n'
            },
            Err(e) => encode_utf8(output).len() > 65536 && e.cause == CauseView::SecretTooLarge,
        },
{
    let end = text::law_line_end_splits(output);
    let secret = text::without_line_end(output);
    assert forall|i: int| secret.len() <= i < output.len() implies (#[trigger] output[i] == '\r'
        || output[i] == '\n') by {
        assert(output[i] == end[i - secret.len()]);
    }
}

/// No more than a bounded part of the diagnostics is kept.
pub proof fn law_detail_is_bounded(said: Seq<char>)
    ensures
        detail_of(said).len() <= MAX_DETAIL_CHARS,
        detail_of(said).is_prefix_of(text::trimmed(said)),
{
}

/// What a command wrote on its standard output, where a secret would be, never gets into an
/// error: two commands that differ only in it fail alike.
pub proof fn law_errors_hold_no_output(
    name: Seq<char>,
    success: bool,
    a: Seq<u8>,
    b: Seq<u8>,
    stderr: Seq<u8>,
)
    ensures
        ({
            let x = output_of(name, OutcomeView::Ended { success, stdout: a, stderr });
            let y = output_of(name, OutcomeView::Ended { success, stdout: b, stderr });
            &&& x is Err && y is Err ==> x == y
            &&& x is Ok && y is Ok && secret_of(x) is Err && secret_of(y) is Err ==> secret_of(x)
                == secret_of(y)
        }),
{
}

/// The text that a successful command gave is the text that it wrote on its standard output, byte
/// for byte and whole, whatever it wrote on its standard error; when that is no UTF-8 there is no
/// text.
pub proof fn law_output_is_what_was_written(name: Seq<char>, stdout: Seq<u8>, stderr: Seq<u8>)
    ensures
        match output_of(name, OutcomeView::Ended { success: true, stdout, stderr }) {
            Ok(s) => valid_utf8(stdout) && encode_utf8(s) == stdout,
            Err(e) => !valid_utf8(stdout) && e.cause == CauseView::InvalidOutput
                && e.contexts.len() == 0,
        },
{
    if valid_utf8(stdout) {
        decode_utf8_encode_utf8(stdout);
    }
}

/// A command that did not succeed gives no text, whatever it wrote on its standard output, and its
/// failure is told apart.
pub proof fn law_failed_commands_give_nothing(
    name: Seq<char>,
    said: Seq<char>,
    stdout: Seq<u8>,
    stderr: Seq<u8>,
)
    ensures
        output_of(name, OutcomeView::CannotStart) matches Err(e) && e.cause
            == CauseView::CannotStart && e.contexts.len() == 0,
        output_of(name, OutcomeView::TimedOut) matches Err(e) && e.cause == CauseView::TimedOut
            && e.contexts.len() == 0,
        output_of(name, OutcomeView::WaitFailed(said)) matches Err(e) && e.cause
            == CauseView::WaitFailed(said) && e.contexts.len() == 0,
        output_of(name, OutcomeView::Ended { success: false, stdout, stderr }) matches Err(e)
            && e.contexts.len() == 0 && (e.cause matches CauseView::Command(c) && c.command == name
            && c.detail == detail_of(encoding::utf8_lossy(stderr))),
{
}

/// What is kept of the diagnostics is the text between the white space at its ends: all of it up
/// to five hundred characters, and else the first five hundred.
pub proof fn law_detail_is_the_beginning(head: Seq<char>, middle: Seq<char>, tail: Seq<char>)
    requires
        forall|i: int| 0 <= i < head.len() ==> text::white_space(#[trigger] head[i]),
        forall|i: int| 0 <= i < tail.len() ==> text::white_space(#[trigger] tail[i]),
        middle.len() > 0 ==> !text::white_space(middle[0]) && !text::white_space(
            middle[middle.len() - 1],
        ),
    ensures
        middle.len() <= 500 ==> detail_of(head + middle + tail) == middle,
        middle.len() > 500 ==> detail_of(head + middle + tail) == middle.subrange(0, 500),
{
    text::law_trim_keeps_the_middle(head, middle, tail);
    assert(middle.len() > 500 ==> middle.take(500) =~= middle.subrange(0, 500));
}

/// The secret of a lookup is what pass-cli wrote, whole and unchanged but for the carriage returns
/// and line feeds at its end, up to 65536 bytes in all.
pub proof fn law_secret_is_what_was_written(
    name: Seq<char>,
    secret: Seq<char>,
    end: Seq<char>,
    stderr: Seq<u8>,
)
    requires
        forall|i: int| 0 <= i < end.len() ==> (#[trigger] end[i] == '\r' || end[i] == '\n'),
        secret.len() > 0 ==> secret.last() != '\r' && secret.last() != '\n',
        encode_utf8(secret + end).len() <= 65536,
    ensures
        secret_of(
            output_of(
                name,
                OutcomeView::Ended { success: true, stdout: encode_utf8(secret + end), stderr },
            ),
        ) == Ok::<Seq<char>, ErrorView>(secret),
{
    encode_utf8_valid_utf8(secret + end);
    encode_utf8_decode_utf8(secret + end);
    text::law_line_end_goes_alone(secret, end);
}

/// The bytes of the secret of a lookup are those of the standard output without the carriage
/// returns and line feeds at its end. There is one for every output that is UTF-8 and has at most
/// 65536 bytes; a larger output is refused.
pub proof fn law_secret_bytes(name: Seq<char>, stdout: Seq<u8>, stderr: Seq<u8>)
    requires
        valid_utf8(stdout),
    ensures
        match secret_of(output_of(name, OutcomeView::Ended { success: true, stdout, stderr })) {
            Ok(secret) => {
                let bytes = encode_utf8(secret);
                &&& stdout.len() <= 65536
                &&& bytes.len() <= stdout.len()
                &&& bytes == stdout.take(bytes.len() as int)
                &&& forall|i: int|
                    bytes.len() <= i < stdout.len() ==> (#[trigger] stdout[i] == 13 || stdout[i]
                        == 10)
                &&& bytes.len() > 0 ==> bytes.last() != 13 && bytes.last() != 10
            },
            Err(e) => stdout.len() > 65536 && e.cause == CauseView::SecretTooLarge,
        },
{
    law_output_is_what_was_written(name, stdout, stderr);
    let output = output_of(name, OutcomeView::Ended { success: true, stdout, stderr })->Ok_0;
    law_secret_is_the_output(output);
    if let Ok(secret) = secret_of(Ok(output)) {
        let end = output.skip(secret.len() as int);
        assert(output =~= secret + end);
        assert forall|i: int| 0 <= i < end.len() implies (#[trigger] end[i] == '\r' || end[i]
            == '\n') by {
            assert(end[i] == output[secret.len() + i]);
        }
        encoding::lemma_encode_join(secret, end);
        encoding::lemma_line_end_bytes(end);
        let bytes = encode_utf8(secret);
        assert(bytes =~= stdout.take(bytes.len() as int));
        assert forall|i: int| bytes.len() <= i < stdout.len() implies (#[trigger] stdout[i] == 13
            || stdout[i] == 10) by {
            assert(stdout[i] == encode_utf8(end)[i - bytes.len()]);
        }
        if secret.len() > 0 {
            encoding::lemma_last_byte(secret);
        } else {
            assert(secret =~= Seq::<char>::empty());
            assert(encode_utf8(secret).len() == 0);
        }
    }
}

/// Every command runs the configured program for at most the configured time, with the arguments
/// of its request.
pub proof fn law_program_and_arguments(
    config: ConfigView,
    own: EnvironmentView,
    token: Seq<char>,
    reference: Seq<char>,
    reason: Seq<char>,
    request: RequestView,
)
    ensures
        command_for(config, request, own).program == config.pass_cli,
        command_for(config, request, own).timeout == config.command_timeout,
        command_for(config, RequestView::Probe, own).arguments == seq![
            "info"@,
            "--output"@,
            "json"@,
        ],
        command_for(config, RequestView::Login { token }, own).arguments == seq!["login"@],
        command_for(config, RequestView::View { reference, reason }, own).arguments
            == reference::view_arguments(reference),
{
}

/// The environment of a command holds these entries and no others: four that are the same for all
/// commands but for the session directory, the token at a login, the reason at a lookup, and each
/// of three proxy variables that the broker itself has with a value in UTF-8, with that value.
pub proof fn law_environment_entries(
    config: ConfigView,
    request: RequestView,
    own: EnvironmentView,
    name: Seq<char>,
    value: Seq<u8>,
)
    ensures
        command_for(config, request, own).environment.contains((name, value)) <==> {
            ||| name == "HOME"@ && value == encode_utf8("/var/lib/proton-pass"@)
            ||| name == "PROTON_PASS_SESSION_DIR"@ && value == config.session_dir
            ||| name == "PROTON_PASS_KEY_PROVIDER"@ && value == encode_utf8("fs"@)
            ||| name == "SSL_CERT_FILE"@ && value == encode_utf8(
                "/etc/ssl/certs/ca-certificates.crt"@,
            )
            ||| name == "PROTON_PASS_PERSONAL_ACCESS_TOKEN"@ && (request matches RequestView::Login {
                token,
            } && value == encode_utf8(token))
            ||| name == "PROTON_PASS_AGENT_REASON"@ && (request matches RequestView::View {
                reference,
                reason,
            } && value == encode_utf8(reason))
            ||| (name == "HTTP_PROXY"@ || name == "HTTPS_PROXY"@ || name == "NO_PROXY"@)
                && config::value_of(own, name) == Some(value) && valid_utf8(value)
        },
{
    let common = common_environment(config.session_dir);
    let extra = request.own_environment();
    let http = proxy_entry(own, "HTTP_PROXY"@);
    let https = proxy_entry(own, "HTTPS_PROXY"@);
    let no = proxy_entry(own, "NO_PROXY"@);
    let entry = (name, value);
    let env = command_for(config, request, own).environment;
    assert(env =~= common + extra + (http + https + no));
    lemma_join_contains(common + extra, http + https + no, entry);
    lemma_join_contains(common, extra, entry);
    lemma_join_contains(http + https, no, entry);
    lemma_join_contains(http, https, entry);
    assert(common.len() == 4);
    assert(common.contains(entry) <==> entry == common[0] || entry == common[1] || entry
        == common[2] || entry == common[3]);
    assert(extra.len() <= 1);
    assert(extra.contains(entry) <==> extra.len() == 1 && entry == extra[0]);
    assert(http.contains(entry) <==> http.len() == 1 && entry == http[0]);
    assert(https.contains(entry) <==> https.len() == 1 && entry == https[0]);
    assert(no.contains(entry) <==> no.len() == 1 && entry == no[0]);
}

/// An entry stands in a join when it stands in one of the parts.
proof fn lemma_join_contains(
    a: Seq<(Seq<char>, Seq<u8>)>,
    b: Seq<(Seq<char>, Seq<u8>)>,
    entry: (Seq<char>, Seq<u8>),
)
    ensures
        (a + b).contains(entry) <==> a.contains(entry) || b.contains(entry),
{
    if a.contains(entry) {
        let i = choose|i: int| 0 <= i < a.len() && a[i] == entry;
        assert((a + b)[i] == entry);
    }
    if b.contains(entry) {
        let i = choose|i: int| 0 <= i < b.len() && b[i] == entry;
        assert((a + b)[a.len() + i] == entry);
    }
}

/// The value of a command is all that it consists of, the value of an outcome all that the command
/// left behind, and the value of a request all that is asked for.
pub proof fn law_views_leave_nothing_out(
    command: PassCliCommand,
    text: String,
    reason: String,
    success: bool,
    stdout: Vec<u8>,
    stderr: Vec<u8>,
    error: BrokerError,
)
    ensures
        command@.program == command.program@,
        command@.timeout == command.timeout,
        command@.arguments.len() == command.arguments@.len(),
        forall|i: int|
            0 <= i < command.arguments@.len() ==> #[trigger] command@.arguments[i]
                == command.arguments@[i]@,
        command@.environment.len() == command.environment@.len(),
        forall|i: int|
            0 <= i < command.environment@.len() ==> #[trigger] command@.environment[i] == (
                command.environment@[i].0@,
                command.environment@[i].1@,
            ),
        CommandOutcome::CannotStart@ == OutcomeView::CannotStart,
        CommandOutcome::TimedOut@ == OutcomeView::TimedOut,
        CommandOutcome::WaitFailed(text)@ == OutcomeView::WaitFailed(text@),
        (CommandOutcome::Ended { success, stdout, stderr })@ == (OutcomeView::Ended {
            success,
            stdout: stdout@,
            stderr: stderr@,
        }),
        PassCliRequest::Probe@ == RequestView::Probe,
        (PassCliRequest::Login { token: text })@ == (RequestView::Login { token: text@ }),
        (PassCliRequest::View { reference: text, reason })@ == (RequestView::View {
            reference: text@,
            reason: reason@,
        }),
        result_view(Ok(text)) == Ok::<Seq<char>, ErrorView>(text@),
        result_view(Err(error)) == Err::<Seq<char>, ErrorView>(error@),
{
}

/// A failure is reported under the first argument of the command, which is the same for all
/// commands of a kind: neither a token nor a reference gets into it.
pub proof fn law_names_of_commands(
    config: ConfigView,
    own: EnvironmentView,
    token: Seq<char>,
    reference: Seq<char>,
    reason: Seq<char>,
)
    ensures
        command_for(config, RequestView::Probe, own).name() == "info"@,
        command_for(config, RequestView::Login { token }, own).name() == "login"@,
        command_for(config, RequestView::View { reference, reason }, own).name() == "item"@,
{
}

} // verus!
