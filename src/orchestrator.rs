//! The control loop as a state machine: the caller performs each action that
//! the machine asks for (a link check, a connect, a sleep, a request, a relay
//! read or write) and hands back what came of it as an event.
use vstd::prelude::*;
use crate::dto::ConfigurationResponseDTO;
use crate::relay::{process_configuration, relay_target};
use crate::wire::{get_mac_address, mac_text, ErrorKind};

verus! {

/// Pause between two connect attempts.
pub const RETRY_DELAY_MS: u32 = 500;

/// Pause between two link checks while a connect is under way.
pub const LINK_WAIT_DELAY_MS: u32 = 1000;

/// Pause between the first connection and the registration.
pub const SETTLE_DELAY_MS: u32 = 2000;

/// Default pause between two poll cycles.
pub const DEFAULT_POLL_INTERVAL_SECONDS: u32 = 2;

/// The named states of the agent.
#[derive(Clone, Copy, Debug, PartialEq, Eq, Structural)]
pub enum Phase {
    Disconnected,
    ConnectedUnregistered,
    Running,
}

/// What the agent is waiting for.
#[derive(Clone, Copy, Debug, PartialEq, Eq, Structural)]
pub enum Stage {
    /// The link status, before any connect attempt of this round.
    LinkCheck,
    /// The outcome of configuring, starting and connecting the interface.
    Connecting,
    /// The link status after a connect was issued.
    LinkWait,
    /// The end of a pause while the link comes up.
    LinkWaitPause,
    /// The end of the pause after a failed attempt.
    RetryPause,
    /// The hardware address.
    MacRead,
    /// The end of the pause before registration.
    SettlePause,
    /// The outcome of the registration.
    Registering,
    /// The outcome of a configuration poll.
    Polling,
    /// The relay's current level.
    RelayRead,
    /// The outcome of a relay write.
    RelayWrite,
    /// The end of the pause between poll cycles.
    IntervalPause,
}

/// What the caller is asked to do next.
#[derive(Clone, Copy, Debug, PartialEq, Eq, Structural)]
pub enum Action {
    /// Ask the interface whether the link is up.
    CheckLink,
    /// Set the credentials, start the interface and issue a connect.
    IssueConnect,
    /// Sleep for this many milliseconds.
    Sleep(u32),
    /// Read the station interface's hardware address.
    ReadMacAddress,
    /// Send the registration for the device's address.
    Register,
    /// Poll the configuration for the device's address.
    Poll,
    /// Read the relay's level.
    ReadRelay,
    /// Drive the relay high (`true`) or low.
    WriteRelay(bool),
}

/// What came of the last action.
#[derive(Debug)]
pub enum Event {
    /// The link status; `None` when the interface could not tell.
    LinkStatus(Option<bool>),
    /// Whether configuring, starting and connecting the interface succeeded.
    ConnectIssued(bool),
    /// A sleep ended.
    Slept,
    /// The station interface's hardware address.
    MacAddress([u8; 6]),
    /// The outcome of the registration.
    Registered(Result<(), ErrorKind>),
    /// The outcome of a configuration poll.
    Polled(Result<ConfigurationResponseDTO, ErrorKind>),
    /// The relay's level, `true` for high.
    RelayLevel(bool),
    /// Whether the relay write succeeded.
    RelayWritten(bool),
}

/// The agent as a mathematical value.
pub struct AgentState {
    pub phase: Phase,
    pub stage: Stage,
    pub mac: Seq<char>,
    pub power_on: bool,
    pub poll_interval_ms: u32,
}

/// The agent: where it stands in the control loop, its identity once known,
/// and the desired relay state of the poll being applied.
pub struct Orchestrator {
    pub phase: Phase,
    pub stage: Stage,
    pub mac_address: String,
    pub power_on: bool,
    pub poll_interval_ms: u32,
}

impl View for Orchestrator {
    type V = AgentState;

    open spec fn view(&self) -> AgentState {
        AgentState {
            phase: self.phase,
            stage: self.stage,
            mac: self.mac_address@,
            power_on: self.power_on,
            poll_interval_ms: self.poll_interval_ms,
        }
    }
}

/// The stages of the connect-retry loop.
pub open spec fn is_connecting(stage: Stage) -> bool {
    match stage {
        Stage::LinkCheck | Stage::Connecting | Stage::LinkWait | Stage::LinkWaitPause
        | Stage::RetryPause => true,
        _ => false,
    }
}

/// The action that a state asks for.
pub open spec fn action_of(s: AgentState) -> Action {
    match s.stage {
        Stage::LinkCheck => Action::CheckLink,
        Stage::Connecting => Action::IssueConnect,
        Stage::LinkWait => Action::CheckLink,
        Stage::LinkWaitPause => Action::Sleep(LINK_WAIT_DELAY_MS),
        Stage::RetryPause => Action::Sleep(RETRY_DELAY_MS),
        Stage::MacRead => Action::ReadMacAddress,
        Stage::SettlePause => Action::Sleep(SETTLE_DELAY_MS),
        Stage::Registering => Action::Register,
        Stage::Polling => Action::Poll,
        Stage::RelayRead => Action::ReadRelay,
        Stage::RelayWrite => Action::WriteRelay(s.power_on),
        Stage::IntervalPause => Action::Sleep(s.poll_interval_ms),
    }
}

/// `s` moved to `stage`, all else kept.
pub open spec fn at_stage(s: AgentState, stage: Stage) -> AgentState {
    AgentState { stage, ..s }
}

/// Where the link coming up leads: the first time to reading the identity,
/// afterwards to the poll.
pub open spec fn link_up(s: AgentState) -> AgentState {
    if s.phase == Phase::Disconnected {
        AgentState { phase: Phase::ConnectedUnregistered, stage: Stage::MacRead, ..s }
    } else {
        at_stage(s, Stage::Polling)
    }
}

/// The connect-retry loop: check the link, connect when it is down, and after
/// a failed attempt pause before checking again.
pub open spec fn next_connection(s: AgentState, e: Event) -> AgentState {
    match (s.stage, e) {
        (Stage::LinkCheck, Event::LinkStatus(Some(true))) => link_up(s),
        (Stage::LinkCheck, Event::LinkStatus(_)) => at_stage(s, Stage::Connecting),
        (Stage::RetryPause, Event::Slept) => at_stage(s, Stage::LinkCheck),
        _ => s,
    }
}

/// One connect attempt: issue it, then wait for the link, pausing between
/// checks; any failure ends the attempt.
pub open spec fn next_attempt(s: AgentState, e: Event) -> AgentState {
    match (s.stage, e) {
        (Stage::Connecting, Event::ConnectIssued(true)) => at_stage(s, Stage::LinkWait),
        (Stage::Connecting, Event::ConnectIssued(false)) => at_stage(s, Stage::RetryPause),
        (Stage::LinkWait, Event::LinkStatus(Some(true))) => link_up(s),
        (Stage::LinkWait, Event::LinkStatus(Some(false))) => at_stage(s, Stage::LinkWaitPause),
        (Stage::LinkWait, Event::LinkStatus(None)) => at_stage(s, Stage::RetryPause),
        (Stage::LinkWaitPause, Event::Slept) => at_stage(s, Stage::LinkWait),
        _ => s,
    }
}

/// Startup after the first connection: read the identity, pause, register
/// once whatever the outcome, then run.
pub open spec fn next_startup(s: AgentState, e: Event) -> AgentState {
    match (s.stage, e) {
        (Stage::MacRead, Event::MacAddress(o)) => AgentState {
            stage: Stage::SettlePause,
            mac: mac_text(o@),
            ..s
        },
        (Stage::SettlePause, Event::Slept) => at_stage(s, Stage::Registering),
        (Stage::Registering, Event::Registered(_)) => AgentState {
            phase: Phase::Running,
            stage: Stage::LinkCheck,
            ..s
        },
        _ => s,
    }
}

/// A poll cycle: apply a configuration that arrived, skip one that did not,
/// then pause and start over at the link check.
pub open spec fn next_cycle(s: AgentState, e: Event) -> AgentState {
    match (s.stage, e) {
        (Stage::Polling, Event::Polled(Ok(c))) => AgentState {
            stage: Stage::RelayRead,
            power_on: c.power_on,
            ..s
        },
        (Stage::Polling, Event::Polled(Err(_))) => at_stage(s, Stage::IntervalPause),
        (Stage::RelayRead, Event::RelayLevel(high)) => if relay_target(s.power_on, high) is Some {
            at_stage(s, Stage::RelayWrite)
        } else {
            at_stage(s, Stage::IntervalPause)
        },
        (Stage::RelayWrite, Event::RelayWritten(_)) => at_stage(s, Stage::IntervalPause),
        (Stage::IntervalPause, Event::Slept) => at_stage(s, Stage::LinkCheck),
        _ => s,
    }
}

/// The agent's transition on an event. An event that does not answer the
/// pending action leaves the agent as it is.
pub open spec fn next(s: AgentState, e: Event) -> AgentState {
    match s.stage {
        Stage::LinkCheck | Stage::RetryPause => next_connection(s, e),
        Stage::Connecting | Stage::LinkWait | Stage::LinkWaitPause => next_attempt(s, e),
        Stage::MacRead | Stage::SettlePause | Stage::Registering => next_startup(s, e),
        _ => next_cycle(s, e),
    }
}

impl Orchestrator {
    /// A fresh agent: disconnected, about to check the link, polling every
    /// `poll_interval_seconds` once running.
    pub fn new(poll_interval_seconds: u32) -> (r: Orchestrator)
        requires
            poll_interval_seconds as int * 1000 <= u32::MAX,
        ensures
            r@.phase == Phase::Disconnected,
            r@.stage == Stage::LinkCheck,
            r@.mac == Seq::<char>::empty(),
            !r@.power_on,
            r@.poll_interval_ms == poll_interval_seconds as int * 1000,
    {
        Orchestrator {
            phase: Phase::Disconnected,
            stage: Stage::LinkCheck,
            mac_address: String::new(),
            power_on: false,
            poll_interval_ms: poll_interval_seconds * 1000,
        }
    }

    /// The action that the agent waits on.
    pub fn current_action(&self) -> (a: Action)
        ensures
            a == action_of(self@),
    {
        match self.stage {
            Stage::LinkCheck => Action::CheckLink,
            Stage::Connecting => Action::IssueConnect,
            Stage::LinkWait => Action::CheckLink,
            Stage::LinkWaitPause => Action::Sleep(LINK_WAIT_DELAY_MS),
            Stage::RetryPause => Action::Sleep(RETRY_DELAY_MS),
            Stage::MacRead => Action::ReadMacAddress,
            Stage::SettlePause => Action::Sleep(SETTLE_DELAY_MS),
            Stage::Registering => Action::Register,
            Stage::Polling => Action::Poll,
            Stage::RelayRead => Action::ReadRelay,
            Stage::RelayWrite => Action::WriteRelay(self.power_on),
            Stage::IntervalPause => Action::Sleep(self.poll_interval_ms),
        }
    }

    /// The device identity, empty until it has been read.
    pub fn mac_address(&self) -> (r: &String)
        ensures
            r@ == self@.mac,
    {
        &self.mac_address
    }

    /// Moves to where the link coming up leads.
    fn on_link_up(&mut self)
        ensures
            final(self)@ == link_up(old(self)@),
    {
        if self.phase == Phase::Disconnected {
            self.phase = Phase::ConnectedUnregistered;
            self.stage = Stage::MacRead;
        } else {
            self.stage = Stage::Polling;
        }
    }
}

/// The connect-retry loop's decisions.
pub fn connect_reconnect_wifi_if_necessary(agent: &mut Orchestrator, event: Event)
    requires
        old(agent)@.stage == Stage::LinkCheck || old(agent)@.stage == Stage::RetryPause,
    ensures
        final(agent)@ == next_connection(old(agent)@, event),
{
    match (agent.stage, event) {
        (Stage::LinkCheck, Event::LinkStatus(Some(true))) => agent.on_link_up(),
        (Stage::LinkCheck, Event::LinkStatus(_)) => agent.stage = Stage::Connecting,
        (Stage::RetryPause, Event::Slept) => agent.stage = Stage::LinkCheck,
        _ => {},
    }
}

/// The decisions within one connect attempt.
pub fn connect_wifi(agent: &mut Orchestrator, event: Event)
    requires
        old(agent)@.stage == Stage::Connecting || old(agent)@.stage == Stage::LinkWait
            || old(agent)@.stage == Stage::LinkWaitPause,
    ensures
        final(agent)@ == next_attempt(old(agent)@, event),
{
    match (agent.stage, event) {
        (Stage::Connecting, Event::ConnectIssued(true)) => agent.stage = Stage::LinkWait,
        (Stage::Connecting, Event::ConnectIssued(false)) => agent.stage = Stage::RetryPause,
        (Stage::LinkWait, Event::LinkStatus(Some(true))) => agent.on_link_up(),
        (Stage::LinkWait, Event::LinkStatus(Some(false))) => agent.stage = Stage::LinkWaitPause,
        (Stage::LinkWait, Event::LinkStatus(None)) => agent.stage = Stage::RetryPause,
        (Stage::LinkWaitPause, Event::Slept) => agent.stage = Stage::LinkWait,
        _ => {},
    }
}

/// Ends the registration: its outcome does not matter, the agent runs.
pub fn try_register_device(agent: &mut Orchestrator, outcome: Result<(), ErrorKind>)
    requires
        old(agent)@.stage == Stage::Registering,
    ensures
        final(agent)@ == next_startup(old(agent)@, Event::Registered(outcome)),
        final(agent)@.phase == Phase::Running,
        final(agent)@.stage == Stage::LinkCheck,
{
    agent.phase = Phase::Running;
    agent.stage = Stage::LinkCheck;
}

/// The startup decisions after the first connection.
fn startup(agent: &mut Orchestrator, event: Event)
    requires
        old(agent)@.stage == Stage::MacRead || old(agent)@.stage == Stage::SettlePause
            || old(agent)@.stage == Stage::Registering,
    ensures
        final(agent)@ == next_startup(old(agent)@, event),
{
    match (agent.stage, event) {
        (Stage::MacRead, Event::MacAddress(o)) => {
            agent.mac_address = get_mac_address(o);
            agent.stage = Stage::SettlePause;
        },
        (Stage::SettlePause, Event::Slept) => agent.stage = Stage::Registering,
        (Stage::Registering, Event::Registered(outcome)) => try_register_device(agent, outcome),
        _ => {},
    }
}

/// The decisions of a poll cycle.
fn poll_cycle(agent: &mut Orchestrator, event: Event)
    requires
        !is_connecting(old(agent)@.stage),
        old(agent)@.stage != Stage::MacRead,
        old(agent)@.stage != Stage::SettlePause,
        old(agent)@.stage != Stage::Registering,
    ensures
        final(agent)@ == next_cycle(old(agent)@, event),
{
    match (agent.stage, event) {
        (Stage::Polling, Event::Polled(Ok(c))) => {
            agent.power_on = c.power_on;
            agent.stage = Stage::RelayRead;
        },
        (Stage::Polling, Event::Polled(Err(_))) => agent.stage = Stage::IntervalPause,
        (Stage::RelayRead, Event::RelayLevel(high)) => {
            let desired = ConfigurationResponseDTO {
                power_on: agent.power_on,
                mac_address: String::new(),
            };
            match process_configuration(&desired, high) {
                Some(_) => agent.stage = Stage::RelayWrite,
                None => agent.stage = Stage::IntervalPause,
            }
        },
        (Stage::RelayWrite, Event::RelayWritten(_)) => agent.stage = Stage::IntervalPause,
        (Stage::IntervalPause, Event::Slept) => agent.stage = Stage::LinkCheck,
        _ => {},
    }
}

/// One step of the control loop: takes what came of the last action and
/// returns the next one.
pub fn orchestrate(agent: &mut Orchestrator, event: Event) -> (a: Action)
    ensures
        final(agent)@ == next(old(agent)@, event),
        a == action_of(final(agent)@),
{
    match agent.stage {
        Stage::LinkCheck | Stage::RetryPause => connect_reconnect_wifi_if_necessary(agent, event),
        Stage::Connecting | Stage::LinkWait | Stage::LinkWaitPause => connect_wifi(agent, event),
        Stage::MacRead | Stage::SettlePause | Stage::Registering => startup(agent, event),
        _ => poll_cycle(agent, event),
    }
    agent.current_action()
}

/// Once the link reports up during the connect-retry loop, the loop is left:
/// for the identity read the first time, for the poll afterwards.
pub proof fn lemma_link_up_ends_retry(s: AgentState)
    requires
        s.stage == Stage::LinkCheck || s.stage == Stage::LinkWait,
    ensures
        next(s, Event::LinkStatus(Some(true))) == link_up(s),
        !is_connecting(next(s, Event::LinkStatus(Some(true))).stage),
        s.phase == Phase::Disconnected ==> action_of(next(s, Event::LinkStatus(Some(true))))
            == Action::ReadMacAddress,
        s.phase == Phase::Running ==> action_of(next(s, Event::LinkStatus(Some(true))))
            == Action::Poll,
{
}

/// Connect attempts are paced: a failed attempt is followed by a pause of
/// `RETRY_DELAY_MS`, the end of that pause leads to a link check and not to an
/// attempt, and an attempt is newly asked for only after a check found the
/// link down.
pub proof fn lemma_connect_attempts_paced(s: AgentState, e: Event)
    ensures
        s.stage == Stage::Connecting && e == Event::ConnectIssued(false) ==> action_of(next(s, e))
            == Action::Sleep(RETRY_DELAY_MS),
        s.stage == Stage::LinkWait && e == Event::LinkStatus(None) ==> action_of(next(s, e))
            == Action::Sleep(RETRY_DELAY_MS),
        s.stage == Stage::RetryPause ==> action_of(next(s, e)) != Action::IssueConnect,
        s.stage == Stage::RetryPause && e == Event::Slept ==> action_of(next(s, e))
            == Action::CheckLink,
        s.stage != Stage::Connecting && action_of(next(s, e)) == Action::IssueConnect ==> (
        s.stage == Stage::LinkCheck && !(e == Event::LinkStatus(Some(true)))),
{
}

/// A failed poll, a malformed response among them, writes nothing to the
/// relay and changes nothing but the stage: the agent pauses for the poll
/// interval and then starts the next cycle with a link check.
pub proof fn lemma_poll_failure_is_not_fatal(s: AgentState, err: ErrorKind)
    requires
        s.stage == Stage::Polling,
    ensures
        ({
            let t = next(s, Event::Polled(Err(err)));
            &&& t == at_stage(s, Stage::IntervalPause)
            &&& action_of(t) == Action::Sleep(s.poll_interval_ms)
            &&& next(t, Event::Slept) == at_stage(s, Stage::LinkCheck)
            &&& action_of(next(t, Event::Slept)) == Action::CheckLink
        }),
{
}

/// Connect attempts started along `es` from `s`, counted while the agent
/// stays in the connect-retry loop.
pub open spec fn retry_attempts(s: AgentState, es: Seq<Event>) -> nat
    decreases es.len(),
{
    if es.len() == 0 || !is_connecting(s.stage) {
        0
    } else {
        let t = next(s, es[0]);
        (if s.stage == Stage::LinkCheck && t.stage == Stage::Connecting {
            1nat
        } else {
            0nat
        }) + retry_attempts(t, es.drop_first())
    }
}

/// Retry pauses of `RETRY_DELAY_MS` completed along `es` from `s`, counted
/// while the agent stays in the connect-retry loop.
pub open spec fn retry_pauses(s: AgentState, es: Seq<Event>) -> nat
    decreases es.len(),
{
    if es.len() == 0 || !is_connecting(s.stage) {
        0
    } else {
        let t = next(s, es[0]);
        (if s.stage == Stage::RetryPause && t.stage == Stage::LinkCheck {
            1nat
        } else {
            0nat
        }) + retry_pauses(t, es.drop_first())
    }
}

/// Along any run of events, the connect-retry loop starts at most one
/// attempt more than the retry pauses it completes: no more than one attempt
/// per pause of `RETRY_DELAY_MS`.
pub proof fn lemma_one_attempt_per_retry_pause(s: AgentState, es: Seq<Event>)
    ensures
        retry_attempts(s, es) <= retry_pauses(s, es) + 1,
{
    lemma_attempts_within_credit(s, es);
}

/// The inductive form: the attempts are bounded by the pauses plus one for a
/// pending link check.
proof fn lemma_attempts_within_credit(s: AgentState, es: Seq<Event>)
    ensures
        retry_attempts(s, es) <= retry_pauses(s, es) + if s.stage == Stage::LinkCheck {
            1nat
        } else {
            0nat
        },
    decreases es.len(),
{
    if es.len() != 0 && is_connecting(s.stage) {
        let t = next(s, es[0]);
        lemma_attempts_within_credit(t, es.drop_first());
    }
}

} // verus!
