//! The decisions of the control loops around the service record.
//!
//! Three tasks share one [`ServiceManager`]: the lifecycle loop, which starts
//! the service and starts it again after a failure; the health check, which
//! probes a running service; and the drain of the child process's events.
//! Each of them hands what happened to a function of this module while it
//! holds the lock on the record, and gets back what it has to do next.
//! Whatever takes time (a spawn, a request, a sleep) it does after it has
//! released the lock.

use crate::ports::{get_available_port, is_candidate, scan_verdict, ProbeStep};
use crate::service_manager::{ServiceManager, ServiceState};
use crate::text::{decimal_text, port_text, push_decimal};
use vstd::prelude::*;
use vstd::string::*;

verus! {

/// Seconds the lifecycle loop sleeps between two looks at a running service.
pub const LIFECYCLE_POLL_SECS: u64 = 5;

/// Seconds the lifecycle loop waits after a failed start.
pub const RETRY_BACKOFF_SECS: u64 = 10;

/// Seconds between two health checks.
pub const HEALTH_CHECK_INTERVAL_SECS: u64 = 5;

/// Seconds a health probe may take.
pub const HEALTH_CHECK_TIMEOUT_SECS: u64 = 2;

/// The notification that tells the frontend the port of a started service.
pub const PORT_AVAILABLE_EVENT: &'static str = "service-port-available";

/// The notification that tells the frontend of a failed start.
pub const SERVICE_ERROR_EVENT: &'static str = "service-error";

/// What a command answers, as text.
pub open spec fn reply_text(reply: Result<String, String>) -> Result<Seq<char>, Seq<char>> {
    match reply {
        Ok(text) => Ok(text@),
        Err(text) => Err(text@),
    }
}

/// The answer to the question on which port the service listens.
pub open spec fn port_query<H>(state: ServiceState<H>) -> Result<Seq<char>, Seq<char>> {
    if state.is_running && state.port.is_some() {
        Ok(decimal_text(state.port.unwrap() as nat))
    } else {
        Err("API Service is not running or port is not available"@)
    }
}

/// Answers the question on which port the service listens: the port as a
/// decimal numeral while the service runs, an error text otherwise.
pub fn get_api_service_port<H>(manager: &ServiceManager<H>) -> (reply: Result<String, String>)
    ensures
        reply_text(reply) == port_query(manager@),
{
    let running = manager.is_running();
    match manager.port() {
        Some(port) if running => Ok(port_text(port)),
        _ => Err(String::from_str("API Service is not running or port is not available")),
    }
}

/// Asking twice for the port of an unchanged record gives the same answer.
pub proof fn lemma_port_query_repeats<H>(
    state: ServiceState<H>,
    first: Result<String, String>,
    second: Result<String, String>,
)
    requires
        reply_text(first) == port_query(state),
        reply_text(second) == port_query(state),
    ensures
        reply_text(first) == reply_text(second),
{
}

/// Stops the service on request.
///
/// While the service runs, the record is cleared and the handle of the
/// process comes back for the caller to terminate, with a message of
/// success. Otherwise nothing changes and the answer is an error text.
pub fn stop_api_service<H>(manager: &mut ServiceManager<H>) -> (outcome: (
    Option<H>,
    Result<String, String>,
))
    ensures
        final(manager)@ == ServiceState::<H>::down(),
        old(manager)@.is_running ==> {
            &&& outcome.0 == old(manager)@.child_process
            &&& reply_text(outcome.1) == Ok::<Seq<char>, Seq<char>>("API Service stopped"@)
        },
        !old(manager)@.is_running ==> {
            &&& final(manager)@ == old(manager)@
            &&& outcome.0.is_none()
            &&& reply_text(outcome.1) == Err::<Seq<char>, Seq<char>>("API Service is not running"@)
        },
{
    if manager.is_running() {
        let handle = manager.kill_process();
        (handle, Ok(String::from_str("API Service stopped")))
    } else {
        (None, Err(String::from_str("API Service is not running")))
    }
}

/// Why an attempt to start the service failed.
#[derive(Debug, PartialEq, Eq)]
pub enum StartError {
    /// No port of the scanned range was free.
    PortExhausted,
    /// The operating system did not create the process; the text says why.
    SpawnFailed(String),
}

/// The message that tells of a failed start.
pub open spec fn start_error_text(error: StartError) -> Seq<char> {
    match error {
        StartError::PortExhausted => "Failed to find available port"@,
        StartError::SpawnFailed(reason) => "Failed to spawn API service: "@ + reason@,
    }
}

/// Renders the message that tells of a failed start.
pub fn start_error_message(error: &StartError) -> (message: String)
    ensures
        message@ == start_error_text(*error),
{
    match error {
        StartError::PortExhausted => String::from_str("Failed to find available port"),
        StartError::SpawnFailed(reason) => {
            let mut message = String::from_str("Failed to spawn API service: ");
            message.append(reason.as_str());
            message
        },
    }
}

/// What the child process is to be started with.
#[derive(Debug, PartialEq, Eq)]
pub struct SpawnRequest {
    /// The port the service is told to listen on.
    pub port: u16,
    /// The command line of the child process, program name excluded.
    pub arguments: Vec<String>,
}

/// The command line that starts the service on `port`.
pub open spec fn spawn_arguments(
    resources_path: Seq<char>,
    port: u16,
    data_dir: Seq<char>,
) -> Seq<Seq<char>> {
    seq![
        "run"@,
        resources_path,
        "--port"@,
        decimal_text(port as nat),
        "--app-resources-path"@,
        resources_path,
        "--app-data-dir"@,
        data_dir,
    ]
}

/// Lays out the command line that starts the service on `port`.
///
/// Both paths have to be in the canonical form of the operating system.
pub fn service_arguments(resources_path: &str, port: u16, data_dir: &str) -> (arguments:
    Vec<String>)
    ensures
        arguments.deep_view() == spawn_arguments(resources_path@, port, data_dir@),
{
    let mut arguments: Vec<String> = Vec::new();
    arguments.push(String::from_str("run"));
    arguments.push(String::from_str(resources_path));
    arguments.push(String::from_str("--port"));
    arguments.push(port_text(port));
    arguments.push(String::from_str("--app-resources-path"));
    arguments.push(String::from_str(resources_path));
    arguments.push(String::from_str("--app-data-dir"));
    arguments.push(String::from_str(data_dir));
    assert(arguments.deep_view() =~= spawn_arguments(resources_path@, port, data_dir@));
    arguments
}

/// Prepares one attempt to start the service: finds a free port and lays
/// out the command line for it.
///
/// `attempt` performs one socket operation on a port and tells whether the
/// operation succeeded. Both paths have to be in the canonical form of the
/// operating system.
pub fn start_api_service<F: Fn(u16, ProbeStep) -> bool>(
    resources_path: &str,
    data_dir: &str,
    attempt: F,
) -> (plan: Result<SpawnRequest, StartError>)
    requires
        forall|port: u16, step: ProbeStep|
            is_candidate(port as int) ==> call_requires(attempt, (port, step)),
    ensures
        match plan {
            Ok(request) => {
                &&& scan_verdict(attempt, Some(request.port))
                &&& request.arguments.deep_view() == spawn_arguments(
                    resources_path@,
                    request.port,
                    data_dir@,
                )
            },
            Err(error) => error == StartError::PortExhausted && scan_verdict(
                attempt,
                None::<u16>,
            ),
        },
{
    match get_available_port(attempt) {
        Some(port) => Ok(
            SpawnRequest { port, arguments: service_arguments(resources_path, port, data_dir) },
        ),
        None => Err(StartError::PortExhausted),
    }
}

/// What the lifecycle loop reports.
#[derive(Debug, PartialEq, Eq)]
pub enum LifecycleEvent<H> {
    /// The loop looks at the record.
    Poll,
    /// The child process was created and listens on `port`.
    Started { port: u16, child: H },
    /// The attempt to start the service failed.
    StartFailed(StartError),
}

/// What the lifecycle loop has to do next.
#[derive(Debug, PartialEq, Eq)]
pub enum LifecycleAction<H> {
    /// Terminate `stale` if there is one, then try to start the service and
    /// report how that went.
    Start { stale: Option<H> },
    /// Terminate `replaced` if there is one, tell the frontend that the
    /// service is available, with `payload`, and poll again at once.
    Announce { port: u16, payload: String, replaced: Option<H> },
    /// Tell the frontend of the failure, with `message`, and poll again
    /// after `retry_after_secs` seconds.
    ReportError { message: String, retry_after_secs: u64 },
    /// The service runs: poll again after `sleep_secs` seconds.
    Idle { sleep_secs: u64 },
}

/// How one step of the lifecycle loop changes the record, and what it asks
/// for.
pub open spec fn lifecycle_step<H>(
    before: ServiceState<H>,
    event: LifecycleEvent<H>,
    after: ServiceState<H>,
    action: LifecycleAction<H>,
) -> bool {
    match event {
        LifecycleEvent::Poll => if before.is_running {
            &&& after == before
            &&& action == LifecycleAction::<H>::Idle { sleep_secs: LIFECYCLE_POLL_SECS }
        } else {
            &&& after == ServiceState::<H>::down()
            &&& action == (LifecycleAction::Start { stale: before.child_process })
        },
        LifecycleEvent::Started { port, child } => {
            &&& after == ServiceState::up(port, child)
            &&& action matches LifecycleAction::Announce { port: announced, payload, replaced }
            &&& announced == port
            &&& payload@ == decimal_text(port as nat)
            &&& replaced == before.child_process
        },
        LifecycleEvent::StartFailed(error) => {
            &&& after == ServiceState::<H>::down()
            &&& action matches LifecycleAction::ReportError { message, retry_after_secs }
            &&& message@ == start_error_text(error)
            &&& retry_after_secs == RETRY_BACKOFF_SECS
        },
    }
}

/// One step of the lifecycle loop.
///
/// A poll starts the service where it does not run, and idles where it
/// does. A successful start is recorded and announced. A failed start
/// clears the record, is reported, and is tried again after a pause, as
/// often as it takes.
pub fn manage_api_service_lifecycle<H>(
    manager: &mut ServiceManager<H>,
    event: LifecycleEvent<H>,
) -> (action: LifecycleAction<H>)
    ensures
        lifecycle_step(old(manager)@, event, final(manager)@, action),
        final(manager)@.wf(),
{
    match event {
        LifecycleEvent::Poll => {
            if manager.is_running() {
                LifecycleAction::Idle { sleep_secs: LIFECYCLE_POLL_SECS }
            } else {
                let stale = manager.kill_process();
                LifecycleAction::Start { stale }
            }
        },
        LifecycleEvent::Started { port, child } => {
            let replaced = manager.start(port, child);
            LifecycleAction::Announce { port, payload: port_text(port), replaced }
        },
        LifecycleEvent::StartFailed(error) => {
            manager.mark_down();
            let message = start_error_message(&error);
            LifecycleAction::ReportError { message, retry_after_secs: RETRY_BACKOFF_SECS }
        },
    }
}

/// How a health probe ended.
#[derive(Clone, Copy, Debug, PartialEq, Eq)]
pub enum ProbeOutcome {
    /// The service answered with this status code.
    Status(u16),
    /// No answer came within the time allowed.
    TimedOut,
    /// Nobody listens on the port.
    ConnectionRefused,
    /// The request failed on the way.
    TransportError,
}

/// Whether a probe shows the service alive: it answered, and with a status
/// code of success.
pub open spec fn probe_alive(outcome: ProbeOutcome) -> bool {
    outcome matches ProbeOutcome::Status(code) && 200 <= code <= 299
}

/// Tells whether a probe shows the service alive.
pub fn is_alive(outcome: &ProbeOutcome) -> (alive: bool)
    ensures
        alive == probe_alive(*outcome),
{
    match outcome {
        ProbeOutcome::Status(code) => 200 <= *code && *code <= 299,
        _ => false,
    }
}

/// The address that a health probe of the service on `port` asks.
pub open spec fn health_url(port: u16) -> Seq<char> {
    "http://127.0.0.1:"@ + decimal_text(port as nat) + "/"@
}

/// Renders the address that a health probe of the service on `port` asks.
pub fn health_check_url(port: u16) -> (url: String)
    ensures
        url@ == health_url(port),
{
    let mut url = String::from_str("http://127.0.0.1:");
    push_decimal(&mut url, port);
    url.append("/");
    url
}

/// What the health check reports.
#[derive(Clone, Copy, Debug, PartialEq, Eq)]
pub enum HealthEvent {
    /// The time for the next check has come.
    Tick,
    /// The probe that was asked for has ended.
    Probed(ProbeOutcome),
}

/// What the health check has to do next. After each of them it waits for
/// the next tick.
#[derive(Debug, PartialEq, Eq)]
pub enum HealthAction {
    /// The service does not run: nothing is probed this time.
    Skip,
    /// Send a GET request to `url`, wait `timeout_secs` seconds at most,
    /// and report how it ended.
    Probe { port: u16, url: String, timeout_secs: u64 },
    /// The service answered: nothing changes.
    Alive,
    /// The probe failed: the record was cleared, so that the lifecycle loop
    /// starts the service again.
    MarkedDown,
}

/// How one step of the health check changes the record, and what it asks
/// for.
pub open spec fn health_step<H>(
    before: ServiceState<H>,
    event: HealthEvent,
    after: ServiceState<H>,
    action: HealthAction,
) -> bool {
    match event {
        HealthEvent::Tick => {
            &&& after == before
            &&& if before.is_running && before.port.is_some() {
                &&& action matches HealthAction::Probe { port, url, timeout_secs }
                &&& before.port == Some(port)
                &&& url@ == health_url(port)
                &&& timeout_secs == HEALTH_CHECK_TIMEOUT_SECS
            } else {
                action is Skip
            }
        },
        HealthEvent::Probed(outcome) => if probe_alive(outcome) {
            after == before && action is Alive
        } else {
            after == ServiceState::<H>::down() && action is MarkedDown
        },
    }
}

/// One step of the health check.
///
/// A tick asks for a probe of a running service and for nothing else. A
/// probe that shows the service alive changes nothing; any other clears
/// the record.
pub fn api_service_health_check_loop<H>(
    manager: &mut ServiceManager<H>,
    event: HealthEvent,
) -> (action: HealthAction)
    ensures
        health_step(old(manager)@, event, final(manager)@, action),
        final(manager)@.wf(),
{
    match event {
        HealthEvent::Tick => {
            let running = manager.is_running();
            match manager.port() {
                Some(port) if running => HealthAction::Probe {
                    port,
                    url: health_check_url(port),
                    timeout_secs: HEALTH_CHECK_TIMEOUT_SECS,
                },
                _ => HealthAction::Skip,
            }
        },
        HealthEvent::Probed(outcome) => {
            if is_alive(&outcome) {
                proof {
                    use_type_invariant(&*manager);
                }
                HealthAction::Alive
            } else {
                manager.mark_down();
                HealthAction::MarkedDown
            }
        },
    }
}

/// What the child process lets its supervisor know.
#[derive(Debug, PartialEq, Eq)]
pub enum ProcessEvent {
    /// A line on standard output.
    Stdout(Vec<u8>),
    /// A line on standard error.
    Stderr(Vec<u8>),
    /// The process could not go on; the text says why.
    Error(String),
    /// The process ended, with this exit code if it has one.
    Terminated(Option<i32>),
    /// Anything else.
    Other,
}

/// The stream a line of output came from.
#[derive(Clone, Copy, Debug, PartialEq, Eq, Structural)]
pub enum OutputStream {
    /// Standard output.
    Stdout,
    /// Standard error.
    Stderr,
}

/// What the drain of the process events has to do next.
#[derive(Debug, PartialEq, Eq)]
pub enum DrainAction {
    /// Write the line to the diagnostic log, under the tag of its stream.
    Forward { stream: OutputStream, line: Vec<u8> },
    /// The process failed and the record was cleared: log the reason.
    ReportFailure { reason: String },
    /// The process ended and the record was cleared: log the exit code.
    ReportExit { code: Option<i32> },
    /// Nothing.
    Ignore,
}

/// The tag under which the log shows what an action passes on.
pub open spec fn drain_tag(action: DrainAction) -> Option<Seq<char>> {
    match action {
        DrainAction::Forward { stream: OutputStream::Stdout, .. } => Some("[API::stdout]"@),
        DrainAction::Forward { stream: OutputStream::Stderr, .. } => Some("[API::stderr]"@),
        DrainAction::ReportFailure { .. } => Some("[API::error]"@),
        DrainAction::ReportExit { .. } => Some("[API::terminated]"@),
        DrainAction::Ignore => None,
    }
}

/// Gives the tag under which the log shows what an action passes on, if it
/// passes anything on.
pub fn log_tag(action: &DrainAction) -> (tag: Option<&'static str>)
    ensures
        match tag {
            Some(text) => drain_tag(*action) == Some(text@),
            None => drain_tag(*action).is_none(),
        },
{
    match action {
        DrainAction::Forward { stream: OutputStream::Stdout, .. } => Some("[API::stdout]"),
        DrainAction::Forward { stream: OutputStream::Stderr, .. } => Some("[API::stderr]"),
        DrainAction::ReportFailure { .. } => Some("[API::error]"),
        DrainAction::ReportExit { .. } => Some("[API::terminated]"),
        DrainAction::Ignore => None,
    }
}

/// How one event of the child process changes the record, and what it asks
/// for.
pub open spec fn drain_step<H>(
    before: ServiceState<H>,
    event: ProcessEvent,
    after: ServiceState<H>,
    action: DrainAction,
) -> bool {
    match event {
        ProcessEvent::Stdout(line) => {
            &&& after == before
            &&& action == (DrainAction::Forward { stream: OutputStream::Stdout, line })
        },
        ProcessEvent::Stderr(line) => {
            &&& after == before
            &&& action == (DrainAction::Forward { stream: OutputStream::Stderr, line })
        },
        ProcessEvent::Error(reason) => {
            &&& after == ServiceState::<H>::down()
            &&& action == (DrainAction::ReportFailure { reason })
        },
        ProcessEvent::Terminated(code) => {
            &&& after == ServiceState::<H>::down()
            &&& action == (DrainAction::ReportExit { code })
        },
        ProcessEvent::Other => after == before && action == DrainAction::Ignore,
    }
}

/// Takes one event of the child process.
///
/// Output is passed on to the log. An error or the end of the process
/// clears the record at once, so that the lifecycle loop starts the
/// service again without waiting for a health check to fail.
pub fn drain_process_event<H>(
    manager: &mut ServiceManager<H>,
    event: ProcessEvent,
) -> (action: DrainAction)
    ensures
        drain_step(old(manager)@, event, final(manager)@, action),
        final(manager)@.wf(),
{
    proof {
        use_type_invariant(&*manager);
    }
    match event {
        ProcessEvent::Stdout(line) => DrainAction::Forward { stream: OutputStream::Stdout, line },
        ProcessEvent::Stderr(line) => DrainAction::Forward { stream: OutputStream::Stderr, line },
        ProcessEvent::Error(reason) => {
            manager.mark_down();
            DrainAction::ReportFailure { reason }
        },
        ProcessEvent::Terminated(code) => {
            manager.mark_down();
            DrainAction::ReportExit { code }
        },
        ProcessEvent::Other => DrainAction::Ignore,
    }
}

/// The lifecycle loop keeps the record well formed. After a successful
/// start the service runs and the query answers with its port; after a
/// failed start the record is clear and the query answers with an error; a
/// poll changes nothing that the query can see.
pub proof fn lemma_lifecycle_step_outcome<H>(
    before: ServiceState<H>,
    event: LifecycleEvent<H>,
    after: ServiceState<H>,
    action: LifecycleAction<H>,
)
    requires
        before.wf(),
        lifecycle_step(before, event, after, action),
    ensures
        after.wf(),
        event matches LifecycleEvent::Started { port, .. } ==> {
            &&& after.is_running
            &&& after.port == Some(port)
            &&& port_query(after) == Ok::<Seq<char>, Seq<char>>(decimal_text(port as nat))
        },
        event is StartFailed ==> {
            &&& after == ServiceState::<H>::down()
            &&& !after.is_running
            &&& after.port.is_none()
            &&& port_query(after) is Err
        },
        event is Poll ==> after == before,
        event is Poll ==> (action is Start <==> !before.is_running),
{
}

/// The health check keeps the record well formed. A tick changes nothing,
/// and asks for a probe exactly if the service runs. A probe that shows the
/// service alive changes nothing; any other leaves the record clear.
pub proof fn lemma_health_step_outcome<H>(
    before: ServiceState<H>,
    event: HealthEvent,
    after: ServiceState<H>,
    action: HealthAction,
)
    requires
        before.wf(),
        health_step(before, event, after, action),
    ensures
        after.wf(),
        event is Tick ==> after == before && (action is Probe <==> before.is_running),
        event matches HealthEvent::Probed(outcome) ==> if probe_alive(outcome) {
            after == before
        } else {
            &&& after == ServiceState::<H>::down()
            &&& !after.is_running
            &&& after.port.is_none()
            &&& port_query(after) is Err
        },
{
}

/// The drain keeps the record well formed. Output changes nothing; an
/// error or the end of the process leaves the record clear.
pub proof fn lemma_drain_step_outcome<H>(
    before: ServiceState<H>,
    event: ProcessEvent,
    after: ServiceState<H>,
    action: DrainAction,
)
    requires
        before.wf(),
        drain_step(before, event, after, action),
    ensures
        after.wf(),
        event is Error || event is Terminated ==> {
            &&& after == ServiceState::<H>::down()
            &&& !after.is_running
            &&& after.port.is_none()
            &&& port_query(after) is Err
        },
        !(event is Error || event is Terminated) ==> after == before,
{
}

/// Where the health check and the drain report the same failure one after
/// the other, in either order, the second report changes nothing.
pub proof fn lemma_mark_down_repeats<H>(
    before: ServiceState<H>,
    outcome: ProbeOutcome,
    event: ProcessEvent,
    between: ServiceState<H>,
    after: ServiceState<H>,
    health_action: HealthAction,
    drain_action: DrainAction,
)
    requires
        !probe_alive(outcome),
        event is Error || event is Terminated,
        ({
            &&& health_step(before, HealthEvent::Probed(outcome), between, health_action)
            &&& drain_step(between, event, after, drain_action)
        }) || ({
            &&& drain_step(before, event, between, drain_action)
            &&& health_step(between, HealthEvent::Probed(outcome), after, health_action)
        }),
    ensures
        after == between,
        after == ServiceState::<H>::down(),
{
}

} // verus!
