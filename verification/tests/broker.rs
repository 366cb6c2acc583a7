use proton_pass_broker::command::{
    command_output, failed_command, pass_cli_command, secret_from_output, CommandOutcome,
    PassCliCommand, PassCliRequest,
};
use proton_pass_broker::config::{Config, Environment, Variable};
use proton_pass_broker::error::{
    is_recoverable_session_failure, BrokerError, Cause, Context, PassCliCommandError, ReasonError,
    ReferenceError, TokenError,
};
use proton_pass_broker::reference::{
    pass_cli_view_arguments, split_reference, validate_reason, validate_reference, ReferenceScheme,
};
use proton_pass_broker::schedule::{Schedule, ScheduleAction, ScheduleEvent};
use proton_pass_broker::session::{Action, AuthManager, Event, Job, Lookup, PurgeOutcome};
use proton_pass_broker::token::{inspect_token, read_token};

#[test]
fn accepts_valid_reference() {
    assert!(validate_reference("pass://share_123/item_456/password").is_ok());
}

#[test]
fn accepts_valid_name_reference() {
    assert!(validate_reference("proton://docker-secrets/traefik/CF_TUNNEL_ID").is_ok());
}

#[test]
fn rejects_reference_without_field() {
    assert!(validate_reference("pass://share_123/item_456").is_err());
}

#[test]
fn rejects_name_reference_without_field() {
    assert!(validate_reference("proton://docker-secrets/traefik").is_err());
}

#[test]
fn rejects_invalid_reference_scheme() {
    assert!(validate_reference("https://share/item/password").is_err());
}

#[test]
fn id_reference_is_forwarded_as_positional_uri() {
    assert_eq!(
        pass_cli_view_arguments("pass://share_123/item_456/password"),
        vec!["item", "view", "pass://share_123/item_456/password"]
    );
}

#[test]
fn name_reference_is_translated_to_named_flags() {
    assert_eq!(
        pass_cli_view_arguments("proton://docker-secrets/traefik/CF_TUNNEL_ID"),
        vec![
            "item",
            "view",
            "--vault-name",
            "docker-secrets",
            "--item-title",
            "traefik",
            "--field",
            "CF_TUNNEL_ID",
        ]
    );
}

#[test]
fn rejects_reference_with_whitespace() {
    assert!(validate_reference("pass://share id/item/password").is_err());
}

#[test]
fn validates_audit_reason() {
    assert!(validate_reason("Semaphore deploy karakeep").is_ok());
    assert!(validate_reason(" ").is_err());
    assert!(validate_reason(&"x".repeat(301)).is_err());
}

#[test]
fn token_file_must_be_private() {
    let contents = || Some("pst_example::key\n".to_string());
    assert!(inspect_token(Some(0o100644)).is_err());
    assert!(inspect_token(Some(0o100400)).is_ok());
    assert_eq!(read_token(contents()).unwrap(), "pst_example::key");
}

/// What a simulated pass-cli does.
#[derive(Clone, Copy, PartialEq)]
enum Script {
    Plain,
    SelfHeal,
    NetworkFailure,
    Invalidated,
}

/// A simulated outside world: pass-cli, its session state and the token file.
struct BrokerTest {
    script: Script,
    state: String,
    log: String,
    marks: Vec<String>,
    token_mode: u32,
    token: String,
}

fn ended(success: bool, stdout: &str, stderr: &str) -> CommandOutcome {
    CommandOutcome::Ended {
        success,
        stdout: stdout.as_bytes().to_vec(),
        stderr: stderr.as_bytes().to_vec(),
    }
}

fn variable(command: &PassCliCommand, name: &str) -> String {
    for (key, value) in &command.environment {
        if key == name {
            return String::from_utf8(value.clone()).unwrap();
        }
    }
    panic!("{name} is not set")
}

impl BrokerTest {
    fn new(script: Script, state: &str, marks: &[&str]) -> BrokerTest {
        BrokerTest {
            script,
            state: state.to_string(),
            log: String::new(),
            marks: marks.iter().map(|m| m.to_string()).collect(),
            token_mode: 0o100400,
            token: "pst_example::key\n".to_string(),
        }
    }

    fn config(&self) -> Config {
        Config {
            socket: b"/tmp/session/broker.sock".to_vec(),
            session_dir: b"/tmp/session".to_vec(),
            token_file: b"/tmp/token".to_vec(),
            pass_cli: b"/tmp/pass-cli".to_vec(),
            command_timeout: 2,
            session_check_interval: 300,
        }
    }

    fn marked(&self, name: &str) -> bool {
        self.marks.iter().any(|m| m == name)
    }

    fn run(&mut self, command: &PassCliCommand) -> CommandOutcome {
        match (self.script, command.name().as_str()) {
            (Script::Plain, "info") => ended(self.state == "logged-in", "", ""),
            (Script::Plain, "login") => {
                let token = variable(command, "PROTON_PASS_PERSONAL_ACCESS_TOKEN");
                self.log += &format!("login token={token}\n");
                self.state = "logged-in".to_string();
                ended(true, "", "")
            }
            (Script::Plain, "item") => {
                let reason = variable(command, "PROTON_PASS_AGENT_REASON");
                self.log += &format!("item view {} reason={reason}\n", command.arguments[2]);
                ended(true, "super-secret\n", "")
            }
            (Script::SelfHeal, "info") => ended(self.marked("valid"), "", ""),
            (Script::SelfHeal, "login") if self.marked("corrupt") => {
                ended(false, "", "Error: AEAD decryption error while opening local session\n")
            }
            (Script::NetworkFailure, "info") if self.state == "network-down" => ended(
                false,
                "",
                "Error: failed to connect to host: error resolving destination\n",
            ),
            (Script::NetworkFailure, "info") => ended(self.marked("valid"), "", ""),
            (Script::NetworkFailure, "login") if self.marked("valid") => {
                ended(false, "", "Error: Already authenticated\n")
            }
            (Script::NetworkFailure, "login") => ended(false, "", ""),
            (Script::Invalidated, "info") if self.marked("invalidated") => {
                ended(false, "", "Error: failed to authenticate: non-existent session\n")
            }
            (Script::Invalidated, "info") => ended(self.marked("valid"), "", ""),
            (Script::Invalidated, "login") if self.marked("invalidated") => {
                ended(false, "", "Error: Already authenticated\n")
            }
            (Script::SelfHeal, "login") | (Script::Invalidated, "login") => {
                self.marks.push("valid".to_string());
                ended(true, "", "")
            }
            _ => ended(false, "", ""),
        }
    }

    /// Carry a job out to its end.
    fn drive(&mut self, manager: &mut AuthManager, begun: (Job, Action)) -> Action {
        let none = Environment { variables: Vec::new() };
        let (mut job, mut action) = begun;
        loop {
            let event = match action {
                Action::Run(request) => {
                    let command = pass_cli_command(&manager.config, &request, &none);
                    let outcome = self.run(&command);
                    Event::Output(command_output(&command.name(), outcome))
                }
                Action::InspectToken => Event::TokenMode(Some(self.token_mode)),
                Action::ReadToken => Event::TokenText(Some(self.token.clone())),
                Action::Purge => {
                    assert_eq!(manager.session_state_path(), b"/tmp/session/.session".to_vec());
                    let absent = self.marks.is_empty();
                    self.marks.clear();
                    Event::Purged(if absent { PurgeOutcome::Absent } else { PurgeOutcome::Removed })
                }
                result => return result,
            };
            assert!(job.accepts(&event));
            (job, action) = manager.advance(job, event);
        }
    }

    fn ensure_authenticated(&mut self, manager: &mut AuthManager) -> Result<(), BrokerError> {
        let begun = manager.ensure_authenticated();
        match self.drive(manager, begun) {
            Action::Authenticated(result) => result,
            other => panic!("unexpected {other:?}"),
        }
    }

    fn resolve(
        &mut self,
        manager: &mut AuthManager,
        reference: &str,
        reason: &str,
    ) -> Result<String, BrokerError> {
        let begun = manager.resolve(reference, reason);
        match self.drive(manager, begun) {
            Action::Resolved(result) => result,
            other => panic!("unexpected {other:?}"),
        }
    }
}

#[test]
fn broker_resolves_secret_without_logging_the_value() {
    let mut test = BrokerTest::new(Script::Plain, "logged-in", &[]);
    let mut manager = AuthManager::new(test.config());
    test.ensure_authenticated(&mut manager).unwrap();

    let secret = test
        .resolve(&mut manager, "pass://share_123/item_456/password", "Semaphore deploy karakeep")
        .unwrap();
    assert_eq!(secret, "super-secret");

    assert!(test.log.contains("item view pass://share_123/item_456/password"));
    assert!(test.log.contains("reason=Semaphore deploy karakeep"));
    assert!(!test.log.contains("super-secret"));
}

#[test]
fn broker_logs_in_from_token_when_session_is_missing() {
    let mut test = BrokerTest::new(Script::Plain, "logged-out", &[]);
    let mut manager = AuthManager::new(test.config());
    test.ensure_authenticated(&mut manager).unwrap();

    assert!(test.log.contains("login token=pst_example::key"));
    assert!(manager.is_healthy());
}

#[test]
fn broker_recovers_from_undecryptable_session() {
    let mut test = BrokerTest::new(Script::SelfHeal, "", &["corrupt"]);
    let mut manager = AuthManager::new(test.config());
    test.ensure_authenticated(&mut manager).unwrap();

    assert!(manager.is_healthy());
    assert!(test.marked("valid"));
    assert!(!test.marked("corrupt"));
}

#[test]
fn broker_preserves_valid_session_during_transient_network_failure() {
    let mut test = BrokerTest::new(Script::NetworkFailure, "network-down", &["valid"]);
    let mut manager = AuthManager::new(test.config());
    let error = test.ensure_authenticated(&mut manager).unwrap_err();

    assert!(!manager.is_healthy());
    assert!(test.marked("valid"));
    assert!(error.message().contains("preserving session state"));

    test.state = "network-up".to_string();
    test.ensure_authenticated(&mut manager).unwrap();
    assert!(manager.is_healthy());
    assert!(test.marked("valid"));
}

#[test]
fn broker_rebuilds_explicitly_invalidated_session() {
    let mut test = BrokerTest::new(Script::Invalidated, "", &["invalidated"]);
    let mut manager = AuthManager::new(test.config());
    test.ensure_authenticated(&mut manager).unwrap();

    assert!(manager.is_healthy());
    assert!(test.marked("valid"));
    assert!(!test.marked("invalidated"));
}

fn damaged() -> Event {
    Event::Output(command_output("info", ended(false, "", "AEAD failure")))
}

fn done() -> Event {
    Event::Output(Ok(String::new()))
}

#[test]
fn purge_session_state_is_idempotent_when_absent() {
    let test = BrokerTest::new(Script::Plain, "", &[]);
    let mut manager = AuthManager::new(test.config());
    for _ in 0..2 {
        let (job, action) = manager.ensure_authenticated();
        assert_eq!(action, Action::Run(PassCliRequest::Probe));
        let (job, action) = manager.advance(job, damaged());
        assert_eq!(action, Action::InspectToken);
        let (job, action) = manager.advance(job, Event::TokenMode(None));
        assert_eq!(action, Action::Purge);
        let (_, action) = manager.advance(job, Event::Purged(PurgeOutcome::Absent));
        assert_eq!(action, Action::InspectToken);
    }
}

#[test]
fn a_failed_purge_ends_the_authentication() {
    let test = BrokerTest::new(Script::Plain, "", &[]);
    let mut manager = AuthManager::new(test.config());
    let (job, _) = manager.ensure_authenticated();
    let (job, _) = manager.advance(job, damaged());
    let (job, _) = manager.advance(job, Event::TokenMode(None));
    let (job, action) = manager.advance(job, Event::Purged(PurgeOutcome::Failed));
    let error = BrokerError::new(Cause::CannotPurge);
    assert_eq!(error.message(), "Unable to purge local Proton Pass session state");
    assert_eq!(action, Action::Authenticated(Err(error)));
    assert!(job.is_finished());
}

#[test]
fn a_login_that_fails_after_the_purge_says_so() {
    let test = BrokerTest::new(Script::Plain, "", &[]);
    let mut manager = AuthManager::new(test.config());
    let (job, _) = manager.ensure_authenticated();
    let (job, _) = manager.advance(job, damaged());
    let (job, _) = manager.advance(job, Event::TokenMode(None));
    let (job, _) = manager.advance(job, Event::Purged(PurgeOutcome::Removed));
    let (job, action) = manager.advance(job, Event::TokenMode(Some(0o100600)));
    assert_eq!(action, Action::ReadToken);
    let (job, action) = manager.advance(job, Event::TokenText(Some(" pst_a::b ".to_string())));
    assert_eq!(action, Action::Run(PassCliRequest::Login { token: "pst_a::b".to_string() }));
    let (job, action) = manager.advance(job, done());
    assert_eq!(action, Action::Run(PassCliRequest::Probe));
    let (_, action) = manager.advance(
        job,
        Event::Output(command_output("info", CommandOutcome::TimedOut)),
    );
    let error = BrokerError::new(Cause::TimedOut)
        .context(Context::ValidationAfterLogin)
        .context(Context::LoginAfterPurge);
    assert_eq!(error.message(), "Proton Pass login failed after purging local session state");
    assert_eq!(action, Action::Authenticated(Err(error)));
    assert!(!manager.is_healthy());
}

#[test]
fn an_invalid_request_runs_no_command() {
    let test = BrokerTest::new(Script::Plain, "logged-in", &[]);
    let manager = AuthManager::new(test.config());
    let (job, action) = manager.resolve("nowhere", "why");
    let error = BrokerError::new(Cause::Reference(ReferenceError::UnknownScheme));
    assert!(job.is_finished());
    assert!(!job.accepts(&done()));
    assert_eq!(action, Action::Resolved(Err(error)));
    let (job, action) = manager.resolve("pass://a/b/c", "\n\t ");
    let error = || BrokerError::new(Cause::Reason(ReasonError::Empty));
    assert!(job.is_finished());
    assert_eq!(action, Action::Resolved(Err(error())));
    assert_eq!(Lookup::new("pass://a/b/c", "\n\t "), Err(error()));
    let lookup = |reason: &str| Lookup::new("pass://a/b/c", reason).unwrap();
    assert_eq!(lookup("why"), lookup("why"));
    assert_ne!(lookup("why"), lookup("whence"));
}

#[test]
fn a_failed_lookup_on_a_working_session_is_returned_as_it_is() {
    let test = BrokerTest::new(Script::Plain, "", &[]);
    let mut manager = AuthManager::new(test.config());
    manager.healthy = true;
    let (job, action) = manager.resolve("pass://a/b/c", "why");
    assert_eq!(
        action,
        Action::Run(PassCliRequest::View {
            reference: "pass://a/b/c".to_string(),
            reason: "why".to_string()
        })
    );
    let failure = || command_output("item", ended(false, "", "no such item"));
    assert!(!job.rechecks());
    let (job, action) = manager.advance(job, Event::Output(failure()));
    assert_eq!(action, Action::Run(PassCliRequest::Probe));
    assert!(job.rechecks());
    assert!(!manager.is_healthy());
    let (_, action) = manager.advance(job, done());
    assert_eq!(action, Action::Resolved(failure()));
    assert!(manager.is_healthy());
}

#[test]
fn a_lookup_is_repeated_on_a_recovered_session() {
    let test = BrokerTest::new(Script::Plain, "", &[]);
    let mut manager = AuthManager::new(test.config());
    manager.healthy = true;
    let failure = || Event::Output(command_output("item", CommandOutcome::CannotStart));
    let view = || {
        Action::Run(PassCliRequest::View {
            reference: "pass://a/b/c".to_string(),
            reason: "why".to_string(),
        })
    };
    let (job, _) = manager.resolve("pass://a/b/c", "why");
    let (job, _) = manager.advance(job, failure());
    let (job, action) = manager.advance(job, failure());
    assert_eq!(action, Action::Run(PassCliRequest::Probe));
    let (job, action) = manager.advance(job, done());
    assert_eq!(action, view());
    assert!(manager.is_healthy());
    let (job, action) = manager.advance(job, Event::Output(Ok("found\r\n".to_string())));
    assert_eq!(action, Action::Resolved(Ok("found".to_string())));
    assert!(job.is_finished());
    assert!(manager.is_healthy());
}

#[test]
fn a_session_that_cannot_be_recovered_is_reported_with_the_first_error() {
    let test = BrokerTest::new(Script::Plain, "", &[]);
    let mut manager = AuthManager::new(test.config());
    manager.healthy = true;
    let failure = || Event::Output(command_output("item", CommandOutcome::CannotStart));
    let (job, _) = manager.resolve("pass://a/b/c", "why");
    let (job, _) = manager.advance(job, failure());
    let (job, _) = manager.advance(job, failure());
    let (job, action) = manager.advance(job, failure());
    assert_eq!(action, Action::InspectToken);
    let (_, action) = manager.advance(job, Event::TokenMode(Some(0o100644)));
    let error = BrokerError::new(Cause::CannotStart).context(Context::SessionRecovery);
    assert_eq!(error.message(), "Session recovery failed");
    assert_eq!(action, Action::Resolved(Err(error)));
    assert!(!manager.is_healthy());
}

#[test]
fn an_unhealthy_manager_authenticates_before_a_lookup() {
    let mut test = BrokerTest::new(Script::Plain, "logged-out", &[]);
    let mut manager = AuthManager::new(test.config());
    let secret = test.resolve(&mut manager, "pass://a/b/c", "why").unwrap();
    assert_eq!(secret, "super-secret");
    assert_eq!(
        test.log,
        "login token=pst_example::key\nitem view pass://a/b/c reason=why\n"
    );
}

#[test]
fn a_bad_token_file_preserves_the_session() {
    let mut test = BrokerTest::new(Script::SelfHeal, "", &["corrupt"]);
    test.token_mode = 0o100640;
    let mut manager = AuthManager::new(test.config());
    let error = test.ensure_authenticated(&mut manager).unwrap_err();
    assert_eq!(error.cause, Cause::Token(TokenError::NotPrivate));
    assert_eq!(error.contexts, vec![Context::SessionPreserved]);
    assert!(test.marked("corrupt"));
}

#[test]
fn events_are_matched_to_actions() {
    let test = BrokerTest::new(Script::Plain, "", &[]);
    let manager = AuthManager::new(test.config());
    let (job, _) = manager.ensure_authenticated();
    assert!(job.accepts(&done()));
    assert!(!job.accepts(&Event::TokenMode(None)));
    assert!(!job.accepts(&Event::TokenText(None)));
    assert!(!job.accepts(&Event::Purged(PurgeOutcome::Removed)));
    assert!(!job.is_finished());
}

/// How many removals, logins and commands a job asks for when it is told these events.
fn asked(
    manager: &mut AuthManager,
    begun: (Job, Action),
    events: Vec<Event>,
) -> (usize, usize, usize) {
    let (mut job, mut action) = begun;
    let mut counts = (0, 0, 0);
    let mut events = events.into_iter();
    loop {
        match &action {
            Action::Purge => counts.0 += 1,
            Action::Run(request) => {
                counts.1 += usize::from(matches!(request, PassCliRequest::Login { .. }));
                counts.2 += 1;
            }
            _ => {}
        }
        match events.next() {
            Some(event) => (job, action) = manager.advance(job, event),
            None => break,
        }
    }
    assert!(job.is_finished());
    counts
}

fn login_events(login: Event) -> Vec<Event> {
    vec![
        Event::TokenMode(Some(0o100600)),
        Event::TokenText(Some("pst_a::b".to_string())),
        login,
    ]
}

#[test]
fn the_session_state_is_removed_exactly_on_evidence() {
    let outage = || Event::Output(command_output("info", CommandOutcome::TimedOut));
    let asked_for = |probe: Event, login: Option<Event>, purge: Option<Event>| {
        let mut manager = AuthManager::new(BrokerTest::new(Script::Plain, "", &[]).config());
        let mut events = vec![probe];
        events.extend(login.into_iter().flat_map(login_events));
        events.extend(purge);
        let begun = manager.ensure_authenticated();
        asked(&mut manager, begun, events)
    };
    let failed = || Some(Event::Purged(PurgeOutcome::Failed));
    assert_eq!(asked_for(done(), None, None), (0, 0, 1));
    assert_eq!(asked_for(outage(), Some(outage()), None), (0, 1, 2));
    assert_eq!(asked_for(damaged(), Some(outage()), failed()), (1, 1, 2));
    assert_eq!(asked_for(outage(), Some(damaged()), failed()), (1, 1, 2));
}

#[test]
fn an_authentication_logs_in_at_most_twice() {
    let mut manager = AuthManager::new(BrokerTest::new(Script::Plain, "", &[]).config());
    let mut events = vec![damaged()];
    events.extend(login_events(done()));
    events.push(damaged());
    events.push(Event::Purged(PurgeOutcome::Removed));
    events.extend(login_events(done()));
    events.push(damaged());
    let begun = manager.ensure_authenticated();
    assert_eq!(asked(&mut manager, begun, events), (1, 2, 5));
}

#[test]
fn the_session_is_checked_at_every_tick() {
    let config = BrokerTest::new(Script::Plain, "", &[]).config();
    let wait = |report: Option<&str>| ScheduleAction::Wait {
        seconds: 300,
        report: report.map(str::to_string),
    };
    let (mut schedule, action) = Schedule::new(&config);
    assert_eq!(action, wait(None));
    assert!(!schedule.accepts(&ScheduleEvent::Checked(Ok(()))));
    assert!(schedule.accepts(&ScheduleEvent::Tick));
    assert_eq!(schedule.advance(ScheduleEvent::Tick), ScheduleAction::Check);
    assert!(!schedule.accepts(&ScheduleEvent::Tick));
    let failed = ScheduleEvent::Checked(Err(BrokerError::new(Cause::TimedOut)));
    assert!(schedule.accepts(&failed));
    assert_eq!(schedule.advance(failed), wait(Some("pass-cli command timed out")));
    assert_eq!(schedule.advance(ScheduleEvent::Tick), ScheduleAction::Check);
    assert_eq!(schedule.advance(ScheduleEvent::Checked(Ok(()))), wait(None));
}

#[test]
fn the_state_directory_joins_like_a_path() {
    let mut test = AuthManager::new(BrokerTest::new(Script::Plain, "", &[]).config());
    test.config.session_dir = b"/a/".to_vec();
    assert_eq!(test.session_state_path(), b"/a/.session".to_vec());
    test.config.session_dir = Vec::new();
    assert_eq!(test.session_state_path(), b".session".to_vec());
}

#[test]
fn each_reference_fault_is_told_apart() {
    let fault = |reference: &str| validate_reference(reference).unwrap_err();
    let long = format!("pass://a/b/{}", "c".repeat(2038));
    assert_eq!(long.len(), 2049);
    assert_eq!(fault(&long), ReferenceError::TooLong);
    assert!(validate_reference(&long[..2048]).is_ok());
    assert_eq!(fault("pass://a/b/\u{e9}"), ReferenceError::NotPlainAscii);
    assert_eq!(fault("pass://a/b/c\t"), ReferenceError::NotPlainAscii);
    assert_eq!(fault("Pass://a/b/c"), ReferenceError::UnknownScheme);
    assert_eq!(fault(""), ReferenceError::UnknownScheme);
    assert_eq!(fault("pass:///b/c"), ReferenceError::MissingIdPart);
    assert_eq!(fault("pass://a//c"), ReferenceError::MissingIdPart);
    assert_eq!(fault("proton://a/b/"), ReferenceError::MissingNamePart);
    assert_eq!(fault("proton://a/b/c/"), ReferenceError::TrailingSlash);
    assert_eq!(fault("pass://a/b//"), ReferenceError::TrailingSlash);
    assert_eq!(
        fault("proton://a/b").message(),
        "Secret reference must contain vault name, item title, and field"
    );
}

#[test]
fn further_slashes_belong_to_the_field() {
    let parsed = split_reference("proton://vault/item/section/field").unwrap();
    assert_eq!(parsed.scheme, ReferenceScheme::Name);
    assert_eq!(parsed.first, "vault");
    assert_eq!(parsed.second, "item");
    assert_eq!(parsed.field, "section/field");
    let parsed = split_reference("pass://share").unwrap();
    assert_eq!(parsed.scheme, ReferenceScheme::Id);
    assert_eq!((parsed.first, parsed.second, parsed.field), ("share", "", ""));
    assert!(split_reference("ftp://a/b/c").is_none());
}

#[test]
fn reasons_are_counted_in_characters() {
    assert!(validate_reason(&"\u{e9}".repeat(300)).is_ok());
    assert_eq!(validate_reason(&"\u{e9}".repeat(301)), Err(ReasonError::TooLong));
    assert_eq!(validate_reason(""), Err(ReasonError::Empty));
    assert_eq!(validate_reason("\u{2003}\u{3000}"), Err(ReasonError::Empty));
}

#[test]
fn token_faults_are_told_apart() {
    assert_eq!(inspect_token(None), Err(TokenError::CannotInspect));
    assert_eq!(inspect_token(Some(0o100601)), Err(TokenError::NotPrivate));
    assert_eq!(inspect_token(Some(0o100600)), Ok(()));
    assert_eq!(read_token(None), Err(TokenError::CannotRead));
    let read = |contents: &str| read_token(Some(contents.to_string()));
    assert_eq!(read("pst_example:key"), Err(TokenError::InvalidFormat));
    assert_eq!(read("example::key"), Err(TokenError::InvalidFormat));
    assert_eq!(read(""), Err(TokenError::InvalidFormat));
    assert_eq!(read("pst_::"), Ok("pst_::".to_string()));
}

fn reported(detail: &str) -> BrokerError {
    BrokerError::new(Cause::Command(PassCliCommandError {
        command: "info".to_string(),
        detail: detail.to_string(),
    }))
}

#[test]
fn session_damage_is_recognised() {
    for detail in [
        "aead::Error",
        "The LOCAL KEY is gone",
        "cannot Decrypt the Session",
        "failed to authenticate: non-existent session",
        "Your session has been invalidated.",
        "SESSION INVALIDATED",
    ] {
        assert!(is_recoverable_session_failure(&reported(detail)), "{detail}");
        let wrapped = reported(detail).context(Context::Login);
        assert!(is_recoverable_session_failure(&wrapped), "{detail}");
    }
    for detail in ["", "decrypt", "session", "Already authenticated", "timed out", "aea d"] {
        assert!(!is_recoverable_session_failure(&reported(detail)), "{detail}");
    }
    assert!(!is_recoverable_session_failure(&BrokerError::new(Cause::WaitFailed(
        "aead".to_string()
    ))));
}

#[test]
fn errors_say_what_was_being_done() {
    let error = reported("hidden");
    assert_eq!(error.message(), "pass-cli command failed: info");
    let error = error.context(Context::Login);
    assert_eq!(error.message(), "Proton Pass login failed");
    let error = error.context(Context::SessionPreserved);
    assert_eq!(
        error.message(),
        "Proton Pass login failed without evidence of a recoverable session failure; preserving session state"
    );
    let message = |cause: Cause| BrokerError::new(cause).message();
    assert_eq!(message(Cause::CannotStart), "Unable to start pass-cli");
    assert_eq!(message(Cause::TimedOut), "pass-cli command timed out");
    assert_eq!(message(Cause::WaitFailed("broken".to_string())), "broken");
    assert_eq!(message(Cause::InvalidOutput), "pass-cli returned invalid UTF-8");
    assert_eq!(
        message(Cause::SecretTooLarge),
        "Resolved secret exceeds the configured output limit"
    );
    assert_eq!(
        message(Cause::Token(TokenError::CannotRead)),
        "Unable to read Proton Pass token file"
    );
    assert_eq!(message(Cause::Reason(ReasonError::TooLong)), "Audit reason is too long");
}

#[test]
fn commands_have_a_closed_environment() {
    let test = BrokerTest::new(Script::Plain, "", &[]);
    let set = |name: &str, value: &[u8]| Variable {
        name: name.as_bytes().to_vec(),
        value: value.to_vec(),
        quoted: format!("{value:?}"),
    };
    let own = Environment {
        variables: vec![
            set("PATH", b"/bin"),
            set("HTTP_PROXY", b"http://proxy"),
            set("HTTP_PROXY", b"http://other"),
            set("HTTPS_PROXY", &[0xff]),
        ],
    };
    let request = PassCliRequest::View {
        reference: "proton://v/i/f".to_string(),
        reason: "why".to_string(),
    };
    let command = pass_cli_command(&test.config(), &request, &own);
    assert_eq!(command.program, b"/tmp/pass-cli".to_vec());
    assert_eq!(command.timeout, 2);
    assert_eq!(command.name(), "item");
    assert_eq!(
        command.arguments,
        vec!["item", "view", "--vault-name", "v", "--item-title", "i", "--field", "f"]
    );
    let entry = |name: &str, value: &str| (name.to_string(), value.as_bytes().to_vec());
    assert_eq!(
        command.environment,
        vec![
            entry("HOME", "/var/lib/proton-pass"),
            entry("PROTON_PASS_SESSION_DIR", "/tmp/session"),
            entry("PROTON_PASS_KEY_PROVIDER", "fs"),
            entry("SSL_CERT_FILE", "/etc/ssl/certs/ca-certificates.crt"),
            entry("PROTON_PASS_AGENT_REASON", "why"),
            entry("HTTP_PROXY", "http://proxy"),
        ]
    );
    let none = Environment { variables: Vec::new() };
    let command = pass_cli_command(&test.config(), &PassCliRequest::Probe, &none);
    assert_eq!(command.arguments, vec!["info", "--output", "json"]);
    assert_eq!(command.environment.len(), 4);
    let login = PassCliRequest::Login { token: "pst_a::b".to_string() };
    let command = pass_cli_command(&test.config(), &login, &none);
    assert_eq!(command.arguments, vec!["login"]);
    assert_eq!(variable(&command, "PROTON_PASS_PERSONAL_ACCESS_TOKEN"), "pst_a::b");
}

#[test]
fn command_outcomes_become_text_or_errors() {
    let cause = |outcome| command_output("login", outcome).unwrap_err().cause;
    assert_eq!(cause(CommandOutcome::CannotStart), Cause::CannotStart);
    assert_eq!(cause(CommandOutcome::TimedOut), Cause::TimedOut);
    assert_eq!(
        cause(CommandOutcome::WaitFailed("gone".to_string())),
        Cause::WaitFailed("gone".to_string())
    );
    let invalid = CommandOutcome::Ended { success: true, stdout: vec![0xc3], stderr: vec![] };
    assert_eq!(cause(invalid), Cause::InvalidOutput);
    assert_eq!(
        command_output("item", ended(true, "gr\u{fc}n\n", "ignored")),
        Ok("gr\u{fc}n\n".to_string())
    );
    let lossy = CommandOutcome::Ended {
        success: false,
        stdout: b"secret".to_vec(),
        stderr: vec![b' ', b'a', 0xff, b'b', b'\n'],
    };
    assert_eq!(
        cause(lossy),
        Cause::Command(PassCliCommandError {
            command: "login".to_string(),
            detail: "a\u{fffd}b".to_string()
        })
    );
}

#[test]
fn diagnostics_are_cut_short() {
    let error = failed_command("info", &format!("  {}  ", "\u{fc}".repeat(501)));
    assert_eq!(error.detail, "\u{fc}".repeat(500));
    assert_eq!(error.logged_detail(), error.detail);
    let error = failed_command("info", " \n");
    assert_eq!(error.detail, "");
    assert_eq!(error.logged_detail(), "no stderr output");
    assert_eq!(error.message(), "pass-cli command failed: info");
}

#[test]
fn secrets_lose_only_their_line_end() {
    let secret = |output: &str| secret_from_output(Ok(output.to_string()));
    assert_eq!(secret(" a\nb \r\n\n"), Ok(" a\nb ".to_string()));
    assert_eq!(secret("\r\n"), Ok(String::new()));
    assert_eq!(secret(&"x".repeat(65536)), Ok("x".repeat(65536)));
    let too_large = BrokerError::new(Cause::SecretTooLarge);
    assert_eq!(secret(&"x".repeat(65537)), Err(too_large));
    let too_large = BrokerError::new(Cause::SecretTooLarge);
    assert_eq!(secret(&"\u{fc}".repeat(32769)), Err(too_large));
    let failed = || Err(BrokerError::new(Cause::TimedOut));
    assert_eq!(secret_from_output(failed()), failed());
}
