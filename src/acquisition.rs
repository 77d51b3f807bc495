//! The acquisition state machine: locate a heart-rate sensor, connect to it,
//! resolve its measurement characteristic, subscribe, and turn each
//! notification into a reading to publish. Any failure restarts from the
//! beginning, after the policy's delay, until the policy's restart budget (if
//! any) is spent.
//!
//! The machine does no I/O. Its driver performs each `Action` against the
//! Bluetooth adapter and reports what came back as an `Event`.

use vstd::prelude::*;
use crate::measurement::{HeartRateReading, MalformedPayload, decode, decoded};

verus! {

/// The 16-bit id of the heart-rate GATT service.
pub const HEART_RATE_SERVICE: u16 = 0x180D;

/// The 16-bit id of the heart-rate-measurement characteristic.
pub const HEART_RATE_MEASUREMENT: u16 = 0x2A37;

/// Where the machine stands.
#[derive(Clone, Copy, Debug, PartialEq, Eq, Structural)]
pub enum Phase {
    /// Not started, or waiting to restart after a failure.
    Idle,
    /// Asking the adapter for an already-connected sensor.
    Locating,
    /// Scanning for a sensor that advertises the heart-rate service.
    Scanning,
    /// Asking a found device whether it is connected.
    Checking,
    /// Waiting for a connect request to complete.
    Connecting,
    /// Discovering the heart-rate service.
    ResolvingService,
    /// Discovering the measurement characteristic.
    ResolvingCharacteristic,
    /// Waiting for the notification subscription.
    Subscribing,
    /// Receiving notifications.
    Streaming,
    /// The restart budget is spent: nothing more is done.
    Stopped,
}

/// What the driver reports back.
#[derive(Clone, Copy, Debug, PartialEq, Eq, Structural)]
pub enum Event {
    /// Begin, or begin again after a restart delay.
    Start,
    /// The adapter lists this many connected sensors.
    ConnectedDevices { count: usize },
    /// The scan found a sensor.
    DeviceFound,
    /// The found device's connection state.
    ConnectionState { connected: bool },
    /// The connect request succeeded.
    Connected,
    /// Service discovery found this many heart-rate services.
    Services { count: usize },
    /// Characteristic discovery found this many measurement characteristics.
    Characteristics { count: usize },
    /// The notification subscription is in place.
    Subscribed,
    /// The scan or the notification stream ended.
    Ended,
    /// The adapter reported an error.
    AdapterFailed,
}

/// Why the machine restarts.
#[derive(Clone, Copy, Debug, PartialEq, Eq, Structural)]
pub enum Failure {
    /// The adapter reported an error.
    Adapter,
    /// The device offers no heart-rate service.
    ServiceNotFound,
    /// The service offers no measurement characteristic.
    CharacteristicNotFound,
    /// A notification could not be decoded.
    Malformed(MalformedPayload),
    /// The scan ended without finding a sensor.
    ScanEnded,
    /// The notification stream ended.
    StreamEnded,
    /// An event came that the current phase does not wait for.
    OutOfOrder,
}

/// What the driver is to do next.
#[derive(Clone, Copy, Debug, PartialEq, Eq, Structural)]
pub enum Action {
    /// List the connected devices that offer `service`; report `ConnectedDevices`.
    ListConnected { service: u16 },
    /// Scan for devices that offer `service`; report `DeviceFound` or `Ended`.
    Scan { service: u16 },
    /// Ask the device whether it is connected; report `ConnectionState`.
    CheckConnection,
    /// Connect the device; report `Connected`.
    Connect,
    /// Discover the device's services with id `service`; report `Services`.
    DiscoverServices { service: u16 },
    /// Discover the first service's characteristics with id
    /// `characteristic`; report `Characteristics`.
    DiscoverCharacteristics { characteristic: u16 },
    /// Subscribe to the first characteristic's notifications; report `Subscribed`.
    Subscribe,
    /// Wait for the next notification; hand its payload to `on_payload`, or
    /// report `Ended` or `AdapterFailed`.
    AwaitNotification,
    /// Publish the reading, then wait for the next notification.
    Publish(HeartRateReading),
    /// Drop the device, wait `delay_ms` milliseconds, then report `Start`.
    Restart { failure: Failure, delay_ms: u64 },
    /// Drop the device and stop: the restart budget is spent.
    Stop { failure: Failure },
    /// Nothing more to do.
    Halt,
}

/// How the machine restarts after a failure.
#[derive(Clone, Copy, Debug, PartialEq, Eq, Structural)]
pub struct RestartPolicy {
    /// The pause before each restart.
    pub delay_ms: u64,
    /// How many restarts are allowed in all; `None` for no bound.
    pub max_restarts: Option<u64>,
}

/// The acquisition state machine.
pub struct Acquisition {
    phase: Phase,
    restarts: u64,
    policy: RestartPolicy,
}

/// The mathematical state of the machine.
pub struct AcquisitionState {
    pub phase: Phase,
    pub restarts: nat,
    pub policy: RestartPolicy,
}

impl View for Acquisition {
    type V = AcquisitionState;

    closed spec fn view(&self) -> AcquisitionState {
        AcquisitionState { phase: self.phase, restarts: self.restarts as nat, policy: self.policy }
    }
}

/// The state `m` moved to `phase`.
pub open spec fn moved(m: AcquisitionState, phase: Phase) -> AcquisitionState {
    AcquisitionState { phase, ..m }
}

/// Whether the policy allows no more restarts after `m.restarts` of them.
pub open spec fn budget_spent(m: AcquisitionState) -> bool {
    match m.policy.max_restarts {
        Some(k) => m.restarts >= k,
        None => false,
    }
}

/// The restart count after one more restart (it saturates).
pub open spec fn counted(n: nat) -> nat {
    if n < u64::MAX {
        n + 1
    } else {
        n
    }
}

/// What a failure does: back to `Idle` to restart after the policy's delay,
/// or to `Stopped` once the budget is spent.
pub open spec fn after_failure(m: AcquisitionState, f: Failure) -> (AcquisitionState, Action) {
    if budget_spent(m) {
        (moved(m, Phase::Stopped), Action::Stop { failure: f })
    } else {
        (
            AcquisitionState { phase: Phase::Idle, restarts: counted(m.restarts), policy: m.policy },
            Action::Restart { failure: f, delay_ms: m.policy.delay_ms },
        )
    }
}

/// One transition of the machine on a reported event.
pub open spec fn next(m: AcquisitionState, e: Event) -> (AcquisitionState, Action) {
    match m.phase {
        Phase::Stopped => (m, Action::Halt),
        Phase::Idle => match e {
            Event::Start => (
                moved(m, Phase::Locating),
                Action::ListConnected { service: HEART_RATE_SERVICE },
            ),
            _ => after_failure(m, Failure::OutOfOrder),
        },
        Phase::Locating => match e {
            Event::ConnectedDevices { count } => if count > 0 {
                (moved(m, Phase::Checking), Action::CheckConnection)
            } else {
                (moved(m, Phase::Scanning), Action::Scan { service: HEART_RATE_SERVICE })
            },
            Event::AdapterFailed => after_failure(m, Failure::Adapter),
            _ => after_failure(m, Failure::OutOfOrder),
        },
        Phase::Scanning => match e {
            Event::DeviceFound => (moved(m, Phase::Checking), Action::CheckConnection),
            Event::Ended => after_failure(m, Failure::ScanEnded),
            Event::AdapterFailed => after_failure(m, Failure::Adapter),
            _ => after_failure(m, Failure::OutOfOrder),
        },
        Phase::Checking => match e {
            Event::ConnectionState { connected } => if connected {
                (
                    moved(m, Phase::ResolvingService),
                    Action::DiscoverServices { service: HEART_RATE_SERVICE },
                )
            } else {
                (moved(m, Phase::Connecting), Action::Connect)
            },
            Event::AdapterFailed => after_failure(m, Failure::Adapter),
            _ => after_failure(m, Failure::OutOfOrder),
        },
        Phase::Connecting => match e {
            Event::Connected => (
                moved(m, Phase::ResolvingService),
                Action::DiscoverServices { service: HEART_RATE_SERVICE },
            ),
            Event::AdapterFailed => after_failure(m, Failure::Adapter),
            _ => after_failure(m, Failure::OutOfOrder),
        },
        Phase::ResolvingService => match e {
            Event::Services { count } => if count > 0 {
                (
                    moved(m, Phase::ResolvingCharacteristic),
                    Action::DiscoverCharacteristics { characteristic: HEART_RATE_MEASUREMENT },
                )
            } else {
                after_failure(m, Failure::ServiceNotFound)
            },
            Event::AdapterFailed => after_failure(m, Failure::Adapter),
            _ => after_failure(m, Failure::OutOfOrder),
        },
        Phase::ResolvingCharacteristic => match e {
            Event::Characteristics { count } => if count > 0 {
                (moved(m, Phase::Subscribing), Action::Subscribe)
            } else {
                after_failure(m, Failure::CharacteristicNotFound)
            },
            Event::AdapterFailed => after_failure(m, Failure::Adapter),
            _ => after_failure(m, Failure::OutOfOrder),
        },
        Phase::Subscribing => match e {
            Event::Subscribed => (moved(m, Phase::Streaming), Action::AwaitNotification),
            Event::AdapterFailed => after_failure(m, Failure::Adapter),
            _ => after_failure(m, Failure::OutOfOrder),
        },
        Phase::Streaming => match e {
            Event::Ended => after_failure(m, Failure::StreamEnded),
            Event::AdapterFailed => after_failure(m, Failure::Adapter),
            _ => after_failure(m, Failure::OutOfOrder),
        },
    }
}

/// One transition of the machine on a notification payload: in `Streaming`
/// a payload that decodes is published, and one that does not ends the
/// subscription with a restart.
pub open spec fn next_on_payload(m: AcquisitionState, p: Seq<u8>) -> (AcquisitionState, Action) {
    match m.phase {
        Phase::Stopped => (m, Action::Halt),
        Phase::Streaming => match decoded(p) {
            Ok(r) => (m, Action::Publish(r)),
            Err(e) => after_failure(m, Failure::Malformed(e)),
        },
        _ => after_failure(m, Failure::OutOfOrder),
    }
}

impl Acquisition {
    /// A machine in `Idle` that has not restarted yet.
    pub fn new(policy: RestartPolicy) -> (r: Self)
        ensures
            r@ == (AcquisitionState { phase: Phase::Idle, restarts: 0, policy }),
    {
        Acquisition { phase: Phase::Idle, restarts: 0, policy }
    }

    /// Where the machine stands.
    pub fn phase(&self) -> (r: Phase)
        ensures
            r == self@.phase,
    {
        self.phase
    }

    /// How many restarts the machine has made (saturating).
    pub fn restarts(&self) -> (r: u64)
        ensures
            r == self@.restarts,
    {
        self.restarts
    }

    /// The restart policy.
    pub fn policy(&self) -> (r: RestartPolicy)
        ensures
            r == self@.policy,
    {
        self.policy
    }

    fn fail(&mut self, f: Failure) -> (r: Action)
        ensures
            (final(self)@, r) == after_failure(old(self)@, f),
    {
        let spent = match self.policy.max_restarts {
            Some(k) => self.restarts >= k,
            None => false,
        };
        if spent {
            self.phase = Phase::Stopped;
            Action::Stop { failure: f }
        } else {
            self.phase = Phase::Idle;
            self.restarts = self.restarts.saturating_add(1);
            Action::Restart { failure: f, delay_ms: self.policy.delay_ms }
        }
    }

    fn go(&mut self, phase: Phase, a: Action) -> (r: Action)
        ensures
            final(self)@ == moved(old(self)@, phase),
            r == a,
    {
        self.phase = phase;
        a
    }

    /// Takes the outcome of the last action and says what to do next.
    pub fn step(&mut self, event: Event) -> (r: Action)
        ensures
            (final(self)@, r) == next(old(self)@, event),
    {
        match self.phase {
            Phase::Stopped => Action::Halt,
            Phase::Idle => match event {
                Event::Start => self.go(
                    Phase::Locating,
                    Action::ListConnected { service: HEART_RATE_SERVICE },
                ),
                _ => self.fail(Failure::OutOfOrder),
            },
            Phase::Locating => match event {
                Event::ConnectedDevices { count } => if count > 0 {
                    self.go(Phase::Checking, Action::CheckConnection)
                } else {
                    self.go(Phase::Scanning, Action::Scan { service: HEART_RATE_SERVICE })
                },
                Event::AdapterFailed => self.fail(Failure::Adapter),
                _ => self.fail(Failure::OutOfOrder),
            },
            Phase::Scanning => match event {
                Event::DeviceFound => self.go(Phase::Checking, Action::CheckConnection),
                Event::Ended => self.fail(Failure::ScanEnded),
                Event::AdapterFailed => self.fail(Failure::Adapter),
                _ => self.fail(Failure::OutOfOrder),
            },
            Phase::Checking => match event {
                Event::ConnectionState { connected } => if connected {
                    self.go(
                        Phase::ResolvingService,
                        Action::DiscoverServices { service: HEART_RATE_SERVICE },
                    )
                } else {
                    self.go(Phase::Connecting, Action::Connect)
                },
                Event::AdapterFailed => self.fail(Failure::Adapter),
                _ => self.fail(Failure::OutOfOrder),
            },
            Phase::Connecting => match event {
                Event::Connected => self.go(
                    Phase::ResolvingService,
                    Action::DiscoverServices { service: HEART_RATE_SERVICE },
                ),
                Event::AdapterFailed => self.fail(Failure::Adapter),
                _ => self.fail(Failure::OutOfOrder),
            },
            Phase::ResolvingService => match event {
                Event::Services { count } => if count > 0 {
                    self.go(
                        Phase::ResolvingCharacteristic,
                        Action::DiscoverCharacteristics { characteristic: HEART_RATE_MEASUREMENT },
                    )
                } else {
                    self.fail(Failure::ServiceNotFound)
                },
                Event::AdapterFailed => self.fail(Failure::Adapter),
                _ => self.fail(Failure::OutOfOrder),
            },
            Phase::ResolvingCharacteristic => match event {
                Event::Characteristics { count } => if count > 0 {
                    self.go(Phase::Subscribing, Action::Subscribe)
                } else {
                    self.fail(Failure::CharacteristicNotFound)
                },
                Event::AdapterFailed => self.fail(Failure::Adapter),
                _ => self.fail(Failure::OutOfOrder),
            },
            Phase::Subscribing => match event {
                Event::Subscribed => self.go(Phase::Streaming, Action::AwaitNotification),
                Event::AdapterFailed => self.fail(Failure::Adapter),
                _ => self.fail(Failure::OutOfOrder),
            },
            Phase::Streaming => match event {
                Event::Ended => self.fail(Failure::StreamEnded),
                Event::AdapterFailed => self.fail(Failure::Adapter),
                _ => self.fail(Failure::OutOfOrder),
            },
        }
    }

    /// Takes one notification payload and says what to do next.
    pub fn on_payload(&mut self, payload: &[u8]) -> (r: Action)
        ensures
            (final(self)@, r) == next_on_payload(old(self)@, payload@),
    {
        match self.phase {
            Phase::Stopped => Action::Halt,
            Phase::Streaming => match decode(payload) {
                Ok(reading) => Action::Publish(reading),
                Err(e) => self.fail(Failure::Malformed(e)),
            },
            _ => self.fail(Failure::OutOfOrder),
        }
    }
}

/// A sensor that is already connected is used as it is: no scan and no
/// connect request come before service discovery.
pub proof fn lemma_connected_device_skips_scan(m: AcquisitionState, count: usize)
    requires
        m.phase == Phase::Locating,
        count > 0,
    ensures
        next(m, Event::ConnectedDevices { count }) == (
            moved(m, Phase::Checking),
            Action::CheckConnection,
        ),
        next(next(m, Event::ConnectedDevices { count }).0, Event::ConnectionState { connected: true })
            == (
            moved(m, Phase::ResolvingService),
            Action::DiscoverServices { service: HEART_RATE_SERVICE },
        ),
{
}

/// An empty characteristic list restarts the machine, which then locates a
/// sensor again, as long as the restart budget allows.
pub proof fn lemma_missing_characteristic_restarts(m: AcquisitionState)
    requires
        m.phase == Phase::ResolvingCharacteristic,
        !budget_spent(m),
    ensures
        next(m, Event::Characteristics { count: 0 }) == (
            AcquisitionState { phase: Phase::Idle, restarts: counted(m.restarts), policy: m.policy },
            Action::Restart { failure: Failure::CharacteristicNotFound, delay_ms: m.policy.delay_ms },
        ),
        next(next(m, Event::Characteristics { count: 0 }).0, Event::Start) == (
            AcquisitionState {
                phase: Phase::Locating,
                restarts: counted(m.restarts),
                policy: m.policy,
            },
            Action::ListConnected { service: HEART_RATE_SERVICE },
        ),
{
}

/// While streaming, every payload that decodes is published as decoded, and
/// the machine stays where it is.
pub proof fn lemma_streaming_publishes(m: AcquisitionState, p: Seq<u8>)
    requires
        m.phase == Phase::Streaming,
        decoded(p) is Ok,
    ensures
        next_on_payload(m, p) == (m, Action::Publish(decoded(p)->Ok_0)),
{
}

/// Under a policy with no restart bound the machine never stops: every
/// failure leads back to `Idle`.
pub proof fn lemma_unbounded_never_stops(m: AcquisitionState, e: Event, p: Seq<u8>)
    requires
        m.policy.max_restarts is None,
        m.phase != Phase::Stopped,
    ensures
        next(m, e).0.phase != Phase::Stopped,
        next_on_payload(m, p).0.phase != Phase::Stopped,
        next(m, e).1 is Restart ==> next(m, e).0.phase == Phase::Idle,
        next_on_payload(m, p).1 is Restart ==> next_on_payload(m, p).0.phase == Phase::Idle,
{
}

/// The machine stops only on a failure once its restart budget is spent,
/// and once stopped it stays stopped.
pub proof fn lemma_stops_only_when_spent(m: AcquisitionState, e: Event, p: Seq<u8>)
    ensures
        m.phase != Phase::Stopped && next(m, e).0.phase == Phase::Stopped ==> budget_spent(m)
            && next(m, e).1 is Stop,
        m.phase != Phase::Stopped && next_on_payload(m, p).0.phase == Phase::Stopped
            ==> budget_spent(m) && next_on_payload(m, p).1 is Stop,
        m.phase == Phase::Stopped ==> next(m, e) == (m, Action::Halt),
        m.phase == Phase::Stopped ==> next_on_payload(m, p) == (m, Action::Halt),
{
}

} // verus!
