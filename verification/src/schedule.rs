//! The checks of the session that go on as long as the server runs.

use crate::config::{Config, ConfigView};
use crate::error::{BrokerError, ErrorView};
use vstd::prelude::*;
use vstd::string::*;

verus! {

/// The checks of the session: one at every tick of a clock.
#[derive(Debug)]
pub struct Schedule {
    period: u64,
    checking: bool,
}

/// The value of a `Schedule`.
pub struct ScheduleView {
    /// Seconds from one tick to the next.
    pub period: u64,
    /// A check is under way.
    pub checking: bool,
}

impl View for Schedule {
    type V = ScheduleView;

    closed spec fn view(&self) -> ScheduleView {
        ScheduleView { period: self.period, checking: self.checking }
    }
}

/// What the schedule asks for.
#[derive(Debug, PartialEq, Eq)]
pub enum ScheduleAction {
    /// Report what is said about a failed check, if one failed, and wait for the next tick of the
    /// clock. It ticks every so many seconds, for the first time when so many have passed.
    Wait { seconds: u64, report: Option<String> },
    /// Make sure of a working session.
    Check,
}

/// The value of a `ScheduleAction`.
pub enum ScheduleActionView {
    Wait { seconds: u64, report: Option<Seq<char>> },
    Check,
}

impl View for ScheduleAction {
    type V = ScheduleActionView;

    open spec fn view(&self) -> ScheduleActionView {
        match *self {
            ScheduleAction::Wait { seconds, report } => ScheduleActionView::Wait {
                seconds,
                report: report.deep_view(),
            },
            ScheduleAction::Check => ScheduleActionView::Check,
        }
    }
}

/// What came of an action.
#[derive(Debug)]
pub enum ScheduleEvent {
    /// The clock ticked.
    Tick,
    /// The check is over.
    Checked(Result<(), BrokerError>),
}

/// The value of a `ScheduleEvent`.
pub enum ScheduleEventView {
    Tick,
    Checked(Result<(), ErrorView>),
}

impl View for ScheduleEvent {
    type V = ScheduleEventView;

    open spec fn view(&self) -> ScheduleEventView {
        match *self {
            ScheduleEvent::Tick => ScheduleEventView::Tick,
            ScheduleEvent::Checked(Ok(())) => ScheduleEventView::Checked(Ok(())),
            ScheduleEvent::Checked(Err(e)) => ScheduleEventView::Checked(Err(e@)),
        }
    }
}

impl ScheduleView {
    /// The event answers the action that was asked for.
    pub open spec fn awaits(self, event: ScheduleEventView) -> bool {
        match event {
            ScheduleEventView::Tick => !self.checking,
            ScheduleEventView::Checked(_) => self.checking,
        }
    }
}

/// How the checks begin: with a wait of the configured length.
pub open spec fn schedule_start(config: ConfigView) -> (ScheduleView, ScheduleActionView) {
    let seconds = config.session_check_interval;
    (
        ScheduleView { period: seconds, checking: false },
        ScheduleActionView::Wait { seconds, report: None },
    )
}

/// What one event makes of the schedule: a check at every tick, and the next wait after every
/// check, failed or not.
pub open spec fn schedule_next(schedule: ScheduleView, event: ScheduleEventView) -> (
    ScheduleView,
    ScheduleActionView,
) {
    match event {
        ScheduleEventView::Tick => (
            ScheduleView { period: schedule.period, checking: true },
            ScheduleActionView::Check,
        ),
        ScheduleEventView::Checked(result) => (
            ScheduleView { period: schedule.period, checking: false },
            ScheduleActionView::Wait {
                seconds: schedule.period,
                report: match result {
                    Ok(()) => None,
                    Err(e) => Some(e.text()),
                },
            },
        ),
    }
}

impl Schedule {
    /// Begin the checks.
    pub fn new(config: &Config) -> (r: (Schedule, ScheduleAction))
        ensures
            r.0@ == schedule_start(config@).0,
            r.1@ == schedule_start(config@).1,
    {
        let seconds: u64 = config.session_check_interval;
        (
            Schedule { period: seconds, checking: false },
            ScheduleAction::Wait { seconds, report: None },
        )
    }

    /// Whether the event answers the action that was asked for.
    pub fn accepts(&self, event: &ScheduleEvent) -> (yes: bool)
        ensures
            yes == self@.awaits(event@),
    {
        match event {
            ScheduleEvent::Tick => !self.checking,
            ScheduleEvent::Checked(_) => self.checking,
        }
    }

    /// Take in what came of the last action, and say what to do next.
    pub fn advance(&mut self, event: ScheduleEvent) -> (action: ScheduleAction)
        requires
            old(self)@.awaits(event@),
        ensures
            final(self)@ == schedule_next(old(self)@, event@).0,
            action@ == schedule_next(old(self)@, event@).1,
    {
        match event {
            ScheduleEvent::Tick => {
                self.checking = true;
                ScheduleAction::Check
            },
            ScheduleEvent::Checked(result) => {
                self.checking = false;
                let report = match result {
                    Ok(()) => None,
                    Err(e) => Some(e.message()),
                };
                ScheduleAction::Wait { seconds: self.period, report }
            },
        }
    }
}

/// Where the schedule stands after a sequence of events.
pub open spec fn schedule_reached(config: ConfigView, events: Seq<ScheduleEventView>) -> (
    ScheduleView,
    ScheduleActionView,
)
    decreases events.len(),
{
    if events.len() == 0 {
        schedule_start(config)
    } else {
        schedule_next(schedule_reached(config, events.drop_last()).0, events.last())
    }
}

/// Each event answers the action before it.
pub open spec fn schedule_answered(config: ConfigView, events: Seq<ScheduleEventView>) -> bool
    decreases events.len(),
{
    events.len() == 0 || {
        &&& schedule_answered(config, events.drop_last())
        &&& schedule_reached(config, events.drop_last()).0.awaits(events.last())
    }
}

/// How many times the clock ticked.
pub open spec fn ticks(events: Seq<ScheduleEventView>) -> nat
    decreases events.len(),
{
    if events.len() == 0 {
        0
    } else {
        ticks(events.drop_last()) + if events.last() is Tick {
            1nat
        } else {
            0
        }
    }
}

/// How many times a check was asked for.
pub open spec fn checks(config: ConfigView, events: Seq<ScheduleEventView>) -> nat
    decreases events.len(),
{
    let here: nat = if schedule_reached(config, events).1 is Check {
        1
    } else {
        0
    };
    if events.len() == 0 {
        here
    } else {
        checks(config, events.drop_last()) + here
    }
}

/// The session is checked once at every tick of a clock with the configured period, for ever:
/// whatever came of the checks so far, a check is under way or the next tick is waited for.
pub proof fn law_checks_go_on(config: ConfigView, events: Seq<ScheduleEventView>)
    requires
        schedule_answered(config, events),
    ensures
        checks(config, events) == ticks(events),
        match schedule_reached(config, events).1 {
            ScheduleActionView::Wait { seconds, report } => {
                &&& seconds == config.session_check_interval
                &&& schedule_reached(config, events).0.awaits(ScheduleEventView::Tick)
            },
            ScheduleActionView::Check => forall|result: Result<(), ErrorView>| #[trigger]
                schedule_reached(config, events).0.awaits(ScheduleEventView::Checked(result)),
        },
        schedule_reached(config, events).0.period == config.session_check_interval,
    decreases events.len(),
{
    if events.len() > 0 {
        law_checks_go_on(config, events.drop_last());
    }
}

/// A failed check is reported and nothing else: the schedule goes on as after any other check.
pub proof fn law_failed_check_is_only_reported(schedule: ScheduleView, e: ErrorView)
    ensures
        ({
            let failed = schedule_next(schedule, ScheduleEventView::Checked(Err(e)));
            let passed = schedule_next(schedule, ScheduleEventView::Checked(Ok(())));
            &&& failed.0 == passed.0
            &&& failed.1 == (ScheduleActionView::Wait {
                seconds: schedule.period,
                report: Some(e.text()),
            })
            &&& passed.1 == (ScheduleActionView::Wait { seconds: schedule.period, report: None })
        }),
{
}

/// The checks begin with a wait of exactly the configured number of seconds, with nothing to
/// report; the tick that ends it is followed by a check, and the check by the next wait, of the
/// same length.
pub proof fn law_first_check(config: ConfigView, result: Result<(), ErrorView>)
    ensures
        ({
            let none = Seq::<ScheduleEventView>::empty();
            let one = none.push(ScheduleEventView::Tick);
            let two = one.push(ScheduleEventView::Checked(result));
            &&& schedule_answered(config, two)
            &&& schedule_reached(config, none).1 == (ScheduleActionView::Wait {
                seconds: config.session_check_interval,
                report: None,
            })
            &&& schedule_reached(config, one).1 == ScheduleActionView::Check
            &&& schedule_reached(config, two).1 == (ScheduleActionView::Wait {
                seconds: config.session_check_interval,
                report: match result {
                    Ok(()) => None,
                    Err(e) => Some(e.text()),
                },
            })
        }),
{
    let none = Seq::<ScheduleEventView>::empty();
    let one = none.push(ScheduleEventView::Tick);
    let two = one.push(ScheduleEventView::Checked(result));
    assert(one.drop_last() =~= none);
    assert(two.drop_last() =~= one);
    reveal_with_fuel(schedule_reached, 3);
    reveal_with_fuel(schedule_answered, 3);
}

/// The value of an action is all that it asks for, and that of an event all that came of it.
pub proof fn law_views_leave_nothing_out(seconds: u64, text: String, error: BrokerError)
    ensures
        (ScheduleAction::Wait { seconds, report: Some(text) })@ == (ScheduleActionView::Wait {
            seconds,
            report: Some(text@),
        }),
        (ScheduleAction::Wait { seconds, report: None })@ == (ScheduleActionView::Wait {
            seconds,
            report: None,
        }),
        ScheduleAction::Check@ == ScheduleActionView::Check,
        ScheduleEvent::Tick@ == ScheduleEventView::Tick,
        ScheduleEvent::Checked(Ok(()))@ == ScheduleEventView::Checked(Ok(())),
        ScheduleEvent::Checked(Err(error))@ == ScheduleEventView::Checked(Err(error@)),
{
}

} // verus!
