//! The discovery session coordinator.
//!
//! One `ScanSession` drives a single bounded scan-wait-collect cycle against
//! one adapter. The session itself performs no adapter call: it tells its
//! driver which call to make next (a `DriverCommand`) and consumes the call's
//! outcome (a `DriverEvent`), classifying every failure into a
//! `BluetoothError`. The cycle is strictly sequential: resolve an adapter,
//! start the scan, wait the requested number of seconds, collect the visible
//! peripherals.

use vstd::prelude::*;

use crate::BluetoothError;
use crate::address::DeviceAddress;

verus! {

/// A reference to one wireless radio on the host: its position in the order
/// in which the host enumerated its adapters. Resolved anew for each session;
/// a session never operates on more than one adapter.
#[derive(Clone, Copy, Debug, PartialEq, Eq, Structural)]
pub struct AdapterHandle {
    pub index: usize,
}

/// The outcome of one adapter call, handed back to the session by its driver.
/// An `Err(())` carries no detail: the session only classifies at which step
/// the failure occurred.
pub enum DriverEvent {
    /// Enumeration finished; `Ok` carries how many adapters were found.
    AdaptersEnumerated(Result<usize, ()>),
    /// The adapter answered the request to start scanning.
    ScanStarted(Result<(), ()>),
    /// The requested wait has elapsed.
    WaitElapsed,
    /// The visibility query finished; `Ok` carries the addresses of the
    /// peripherals visible right now, in adapter-reported order.
    PeripheralsListed(Result<Vec<DeviceAddress>, ()>),
}

/// The next adapter call the driver must make on the session's behalf.
#[derive(Clone, Copy, Debug, PartialEq, Eq, Structural)]
pub enum DriverCommand {
    /// Enumerate the host's adapters.
    EnumerateAdapters,
    /// Start an unfiltered scan on the resolved adapter.
    StartScan(AdapterHandle),
    /// Suspend for the given number of seconds without blocking siblings.
    Wait(u64),
    /// Query the resolved adapter for the currently visible peripherals.
    ListPeripherals(AdapterHandle),
    /// The session is terminal: push its value into the result channel.
    Deliver,
}

/// Where a session stands in its cycle. Once `Succeeded` or `Failed` it is
/// terminal and accepts no further event.
pub enum SessionState {
    /// Created; no adapter resolved yet.
    Pending,
    /// An adapter is resolved; the scan has not been requested.
    Starting(AdapterHandle),
    /// The adapter accepted the scan request; the wait is running.
    Scanning(AdapterHandle),
    /// The wait has elapsed; the visibility query is outstanding.
    Collecting(AdapterHandle),
    /// The cycle produced a non-empty address list.
    Succeeded(Vec<DeviceAddress>),
    /// The cycle failed; the error says at which step.
    Failed(BluetoothError),
}

/// Whether a session in `state` is done, one way or the other.
pub open spec fn is_terminal(state: SessionState) -> bool {
    ||| state is Succeeded
    ||| state is Failed
}

/// How many events a session in `state` still consumes before it is terminal.
pub open spec fn rank(state: SessionState) -> nat {
    match state {
        SessionState::Pending => 4,
        SessionState::Starting(_) => 3,
        SessionState::Scanning(_) => 2,
        SessionState::Collecting(_) => 1,
        SessionState::Succeeded(_) => 0,
        SessionState::Failed(_) => 0,
    }
}

/// Which adapter the session operates on, if one is resolved.
pub open spec fn adapter_of(state: SessionState) -> Option<AdapterHandle> {
    match state {
        SessionState::Pending => None,
        SessionState::Starting(h) => Some(h),
        SessionState::Scanning(h) => Some(h),
        SessionState::Collecting(h) => Some(h),
        SessionState::Succeeded(_) => None,
        SessionState::Failed(_) => None,
    }
}

/// Whether `event` is the outcome a session in `state` is waiting for. The
/// cycle is strictly sequential, so each state accepts exactly one kind of
/// event, and a terminal state accepts none.
pub open spec fn accepts(state: SessionState, event: DriverEvent) -> bool {
    match (state, event) {
        (SessionState::Pending, DriverEvent::AdaptersEnumerated(_)) => true,
        (SessionState::Starting(_), DriverEvent::ScanStarted(_)) => true,
        (SessionState::Scanning(_), DriverEvent::WaitElapsed) => true,
        (SessionState::Collecting(_), DriverEvent::PeripheralsListed(_)) => true,
        _ => false,
    }
}

/// Adapter resolution policy: the first enumerated adapter is selected, and a
/// failed or empty enumeration is `AdapterNotFound`.
pub open spec fn spec_resolve(enumeration: Result<usize, ()>) -> Result<
    AdapterHandle,
    BluetoothError,
> {
    match enumeration {
        Ok(n) => if n > 0 {
            Ok(AdapterHandle { index: 0 })
        } else {
            Err(BluetoothError::AdapterNotFound)
        },
        Err(_) => Err(BluetoothError::AdapterNotFound),
    }
}

/// Classification of the adapter's answer to the scan request.
pub open spec fn spec_classify_scan_start(outcome: Result<(), ()>) -> Result<
    (),
    BluetoothError,
> {
    match outcome {
        Ok(_) => Ok(()),
        Err(_) => Err(BluetoothError::ScanStartFailed),
    }
}

/// Classification of the visibility query: a failed query is `Unknown`, an
/// empty visible set is `NoDevicesFound` (distinguishable from success), and
/// anything else is returned verbatim, in adapter-reported order.
pub open spec fn spec_collect(query: Result<Vec<DeviceAddress>, ()>) -> Result<
    Vec<DeviceAddress>,
    BluetoothError,
> {
    match query {
        Ok(v) => if v@.len() == 0 {
            Err(BluetoothError::NoDevicesFound)
        } else {
            Ok(v)
        },
        Err(_) => Err(BluetoothError::Unknown),
    }
}

/// The session's transition function: the state after consuming `event` in
/// `state`. Meaningful only for an accepted event.
pub open spec fn spec_next(state: SessionState, event: DriverEvent) -> SessionState
    recommends
        accepts(state, event),
{
    match (state, event) {
        (SessionState::Pending, DriverEvent::AdaptersEnumerated(enumeration)) => match spec_resolve(
            enumeration,
        ) {
            Ok(h) => SessionState::Starting(h),
            Err(e) => SessionState::Failed(e),
        },
        (SessionState::Starting(h), DriverEvent::ScanStarted(outcome)) => match spec_classify_scan_start(
            outcome,
        ) {
            Ok(_) => SessionState::Scanning(h),
            Err(e) => SessionState::Failed(e),
        },
        (SessionState::Scanning(h), DriverEvent::WaitElapsed) => SessionState::Collecting(h),
        (SessionState::Collecting(_), DriverEvent::PeripheralsListed(query)) => match spec_collect(
            query,
        ) {
            Ok(v) => SessionState::Succeeded(v),
            Err(e) => SessionState::Failed(e),
        },
        (s, _) => s,
    }
}

/// The call a driver must make for a session in `state`: each non-terminal
/// state owes exactly one call, and a terminal state owes the delivery of its
/// value.
pub open spec fn command_for(wait_seconds: u64, state: SessionState) -> DriverCommand {
    match state {
        SessionState::Pending => DriverCommand::EnumerateAdapters,
        SessionState::Starting(h) => DriverCommand::StartScan(h),
        SessionState::Scanning(_) => DriverCommand::Wait(wait_seconds),
        SessionState::Collecting(h) => DriverCommand::ListPeripherals(h),
        SessionState::Succeeded(_) => DriverCommand::Deliver,
        SessionState::Failed(_) => DriverCommand::Deliver,
    }
}

/// The value a terminal session hands to the result channel.
pub open spec fn terminal_value(state: SessionState) -> Result<Vec<DeviceAddress>, BluetoothError>
    recommends
        is_terminal(state),
{
    match state {
        SessionState::Succeeded(v) => Ok(v),
        SessionState::Failed(e) => Err(e),
        _ => Err(BluetoothError::Unknown),
    }
}

/// Selects one usable adapter from the enumeration outcome: deterministically
/// the first enumerated one. Fails with `AdapterNotFound` when enumeration
/// failed or yielded none. No side effect: scanning is not started here.
pub fn resolve_adapter(enumeration: Result<usize, ()>) -> (r: Result<
    AdapterHandle,
    BluetoothError,
>)
    ensures
        r == spec_resolve(enumeration),
{
    match enumeration {
        Ok(n) => if n > 0 {
            Ok(AdapterHandle { index: 0 })
        } else {
            Err(BluetoothError::AdapterNotFound)
        },
        Err(_) => Err(BluetoothError::AdapterNotFound),
    }
}

/// Classifies the adapter's answer to the scan request: a rejection is
/// `ScanStartFailed`.
pub fn classify_scan_start(outcome: Result<(), ()>) -> (r: Result<(), BluetoothError>)
    ensures
        r == spec_classify_scan_start(outcome),
{
    match outcome {
        Ok(_) => Ok(()),
        Err(_) => Err(BluetoothError::ScanStartFailed),
    }
}

/// Classifies the visibility query and projects it to the final address list:
/// a failed query is `Unknown`; an empty visible set is `NoDevicesFound`,
/// never an empty success; otherwise the addresses are returned verbatim, in
/// adapter-reported order, with no sorting and no deduplication.
pub fn collect_addresses(query: Result<Vec<DeviceAddress>, ()>) -> (r: Result<
    Vec<DeviceAddress>,
    BluetoothError,
>)
    ensures
        r == spec_collect(query),
{
    match query {
        Ok(v) => if v.len() == 0 {
            Err(BluetoothError::NoDevicesFound)
        } else {
            Ok(v)
        },
        Err(_) => Err(BluetoothError::Unknown),
    }
}

/// One discovery attempt: the requested wait duration and where the cycle
/// stands. Ephemeral — created when the consumer requests a scan, consumed
/// once its terminal value has been delivered.
pub struct ScanSession {
    pub wait_seconds: u64,
    pub state: SessionState,
}

impl ScanSession {
    /// A session is well formed when a successful terminal state carries at
    /// least one address: an empty visible set is a failure, never a success.
    pub open spec fn wf(&self) -> bool {
        self.state matches SessionState::Succeeded(v) ==> v@.len() > 0
    }

    /// Creates the session for one scan request with the given wait duration.
    pub fn new(wait_seconds: u64) -> (s: Self)
        ensures
            s.wait_seconds == wait_seconds,
            s.state == SessionState::Pending,
            s.wf(),
    {
        ScanSession { wait_seconds, state: SessionState::Pending }
    }

    /// The adapter call the driver owes the session right now.
    pub fn current_command(&self) -> (cmd: DriverCommand)
        ensures
            cmd == command_for(self.wait_seconds, self.state),
    {
        command_of(self.wait_seconds, &self.state)
    }

    /// Consumes the outcome of the commanded call and moves the session one
    /// step through its cycle, returning the moved session together with the
    /// next command. Each step strictly reduces the session's rank, so every
    /// session is terminal after at most four events; the returned command is
    /// `Deliver` exactly when the session has become terminal.
    pub fn step(self, event: DriverEvent) -> (r: (ScanSession, DriverCommand))
        requires
            accepts(self.state, event),
        ensures
            r.0.wait_seconds == self.wait_seconds,
            r.0.state == spec_next(self.state, event),
            r.1 == command_for(self.wait_seconds, r.0.state),
            rank(r.0.state) < rank(self.state),
            r.0.wf(),
    {
        let ScanSession { wait_seconds, state } = self;
        let next: SessionState = match (state, event) {
            (SessionState::Pending, DriverEvent::AdaptersEnumerated(enumeration)) => {
                match resolve_adapter(enumeration) {
                    Ok(h) => SessionState::Starting(h),
                    Err(e) => SessionState::Failed(e),
                }
            },
            (SessionState::Starting(h), DriverEvent::ScanStarted(outcome)) => {
                match classify_scan_start(outcome) {
                    Ok(_) => SessionState::Scanning(h),
                    Err(e) => SessionState::Failed(e),
                }
            },
            (SessionState::Scanning(h), DriverEvent::WaitElapsed) => SessionState::Collecting(h),
            (SessionState::Collecting(_), DriverEvent::PeripheralsListed(query)) => {
                match collect_addresses(query) {
                    Ok(v) => SessionState::Succeeded(v),
                    Err(e) => SessionState::Failed(e),
                }
            },
            (s, _) => s,
        };
        let cmd = command_of(wait_seconds, &next);
        (ScanSession { wait_seconds, state: next }, cmd)
    }

    /// Takes the terminal value out of a finished session, consuming it: at
    /// most one value per session ever reaches the result channel.
    pub fn finish(self) -> (r: Result<Vec<DeviceAddress>, BluetoothError>)
        requires
            is_terminal(self.state),
        ensures
            r == terminal_value(self.state),
    {
        match self.state {
            SessionState::Succeeded(v) => Ok(v),
            SessionState::Failed(e) => Err(e),
            _ => Err(BluetoothError::Unknown),
        }
    }
}

/// Law: a session owes the channel exactly one terminal value — the driver is
/// commanded to deliver precisely when the session is terminal, never before
/// and never again after, since a terminal session accepts no further event
/// (see `lemma_terminal_is_absorbing`) and `finish` consumes it.
pub proof fn lemma_deliver_exactly_at_terminal(wait_seconds: u64, state: SessionState)
    ensures
        command_for(wait_seconds, state) is Deliver <==> is_terminal(state),
{
}

/// Law: a terminal session accepts no event, so no step can ever produce a
/// second terminal value for the same session.
pub proof fn lemma_terminal_is_absorbing(state: SessionState, event: DriverEvent)
    ensures
        is_terminal(state) ==> !accepts(state, event),
{
}

/// Law: every accepted event strictly reduces the session's rank, and rank
/// zero means terminal — so every session reaches exactly one terminal state
/// after at most four events, never zero.
pub proof fn lemma_step_makes_progress(state: SessionState, event: DriverEvent)
    requires
        accepts(state, event),
    ensures
        rank(spec_next(state, event)) < rank(state),
        rank(state) <= 4,
        is_terminal(state) <==> rank(state) == 0,
        is_terminal(spec_next(state, event)) <==> rank(spec_next(state, event)) == 0,
{
}

/// Law: when enumeration fails or yields no adapter, the session terminates
/// in `AdapterNotFound` at once, and the next command is the delivery of that
/// failure — a scan is never requested.
pub proof fn lemma_no_adapter_no_scan(
    wait_seconds: u64,
    state: SessionState,
    event: DriverEvent,
)
    requires
        accepts(state, event),
        event matches DriverEvent::AdaptersEnumerated(r) && (r is Err || r == Ok::<usize, ()>(0)),
    ensures
        spec_next(state, event) == SessionState::Failed(BluetoothError::AdapterNotFound),
        command_for(wait_seconds, spec_next(state, event)) is Deliver,
{
}

/// Law: a scan is only ever requested on a resolved adapter — the command
/// `StartScan(h)` arises solely from a session that resolved `h`.
pub proof fn lemma_scan_needs_resolved_adapter(
    wait_seconds: u64,
    state: SessionState,
    h: AdapterHandle,
)
    requires
        command_for(wait_seconds, state) == DriverCommand::StartScan(h),
    ensures
        state == SessionState::Starting(h),
        adapter_of(state) == Some(h),
{
}

/// Law: an empty visible set after the wait terminates the session in
/// `NoDevicesFound`, never in a success carrying an empty list.
pub proof fn lemma_empty_visible_set_is_failure(
    state: SessionState,
    query: Result<Vec<DeviceAddress>, ()>,
)
    requires
        accepts(state, DriverEvent::PeripheralsListed(query)),
        query matches Ok(v) && v@.len() == 0,
    ensures
        spec_next(state, DriverEvent::PeripheralsListed(query)) == SessionState::Failed(
            BluetoothError::NoDevicesFound,
        ),
{
}

/// Law: a success carries the queried visible set verbatim — the same
/// addresses in the adapter-reported order, with no sorting, no
/// deduplication, and at least one entry.
pub proof fn lemma_success_is_verbatim(
    state: SessionState,
    event: DriverEvent,
    v: Vec<DeviceAddress>,
)
    requires
        accepts(state, event),
        spec_next(state, event) == SessionState::Succeeded(v),
    ensures
        v@.len() > 0,
        event == DriverEvent::PeripheralsListed(Ok::<Vec<DeviceAddress>, ()>(v)),
{
}

/// Law: a session never operates on more than one adapter — the handle it
/// resolved stays the same through every non-terminal step.
pub proof fn lemma_session_keeps_one_adapter(
    state: SessionState,
    event: DriverEvent,
    h: AdapterHandle,
)
    requires
        accepts(state, event),
        adapter_of(state) == Some(h),
        !is_terminal(spec_next(state, event)),
    ensures
        adapter_of(spec_next(state, event)) == Some(h),
{
}

/// The adapter call owed for a session in `state`.
fn command_of(wait_seconds: u64, state: &SessionState) -> (cmd: DriverCommand)
    ensures
        cmd == command_for(wait_seconds, *state),
{
    match state {
        SessionState::Pending => DriverCommand::EnumerateAdapters,
        SessionState::Starting(h) => DriverCommand::StartScan(*h),
        SessionState::Scanning(_) => DriverCommand::Wait(wait_seconds),
        SessionState::Collecting(h) => DriverCommand::ListPeripherals(*h),
        SessionState::Succeeded(_) => DriverCommand::Deliver,
        SessionState::Failed(_) => DriverCommand::Deliver,
    }
}

} // verus!
