//! The life of a connection to one device, as a machine that decides.
//!
//! A connection is asked for by port name and baud rate. From then on a
//! worker opens the port, reads from it, waits, and opens again when the
//! device was unplugged, until the connection is released. What the worker
//! does next is decided here: it carries out the command that the connection
//! gives, tells the connection what came of it, and hands on to the handler
//! each state that the connection newly reports.

use crate::device::retry::RetryPolicy;
use crate::device::stream::{dec_records, open_frame, payloads, records_of, FrameReader};
use crate::device::switch::SwitchInfo;
use crate::device::transport::{
    classify_open_failure, classify_read_failure, open_failure, read_failure, OpenFailure,
    ReadFailure, TransportError,
};
use vstd::prelude::*;

verus! {

/// Why a connection has come to an end by itself.
#[derive(Clone, Copy, Debug, PartialEq, Eq, Structural)]
pub enum ConnectionErrorKind {
    /// The port could not be set up; most likely it may not be used.
    InitializationFailed,
    /// The connection was lost while in use, beyond mending.
    ConnectionLost,
}

impl ConnectionErrorKind {
    /// The text that tells of the error.
    pub open spec fn text(self) -> Seq<char> {
        match self {
            ConnectionErrorKind::InitializationFailed => "Initialization failed."@,
            ConnectionErrorKind::ConnectionLost => "Connection lost during communication."@,
        }
    }

    /// Tells of the error in words.
    pub fn message(&self) -> (message: String)
        ensures
            message@ == self.text(),
    {
        match self {
            ConnectionErrorKind::InitializationFailed => "Initialization failed.".to_owned(),
            ConnectionErrorKind::ConnectionLost => "Connection lost during communication.".to_owned(),
        }
    }
}

/// The state of a connection, as the handler is told it.
#[derive(Clone, Copy, Debug, PartialEq, Eq, Structural)]
pub enum ConnectionHandlerType {
    /// The port is being opened, for the first time or again.
    Connecting,
    /// The port is open and read from.
    Connected,
    /// The device was unplugged.
    Disconnected,
    /// The connection has come to an end by itself.
    Error(ConnectionErrorKind),
}

/// What the worker tells the connection.
#[derive(Clone, Copy, Debug, PartialEq, Eq, Structural)]
pub enum ConnectionEvent {
    /// The port was opened.
    Opened,
    /// The port could not be opened.
    OpenFailed(TransportError),
    /// The wait has run to its end.
    Elapsed,
    /// Reading from the port failed.
    ReadFailed(TransportError),
    /// The port was closed.
    Closed,
    /// The caller has released the connection.
    Released,
}

/// What the connection has the worker do next.
#[derive(Clone, Copy, Debug, PartialEq, Eq, Structural)]
pub enum ConnectionCommand {
    /// Open the port, and tell `Opened` or `OpenFailed`.
    Open,
    /// Wait for so many milliseconds, and tell `Elapsed`; or, where the
    /// caller releases the connection in that time, tell `Released` at once.
    Wait(u64),
    /// Read from the port and hand what was read to `receive`, or tell
    /// `ReadFailed`.
    Read,
    /// Close the port, and tell `Closed`.
    Close,
    /// Close the port if it is open, and end.
    Stop,
}

/// Where a connection stands in its life.
#[derive(Clone, Copy, Debug, PartialEq, Eq, Structural)]
pub struct Lifecycle {
    /// The state that the handler was last told, or `Connecting` at the start.
    pub state: ConnectionHandlerType,
    /// Whether a wait is due before the port is opened again.
    pub waiting: bool,
    /// How many attempts to open the port have failed in a row.
    pub failures: u32,
    /// Whether the worker holds the port open.
    pub holds_port: bool,
    /// Whether the caller has released the connection.
    pub released: bool,
}

impl Lifecycle {
    /// The start of a life: the port is about to be opened for the first
    /// time.
    pub open spec fn fresh() -> Lifecycle {
        Lifecycle {
            state: ConnectionHandlerType::Connecting,
            waiting: false,
            failures: 0,
            holds_port: false,
            released: false,
        }
    }

    /// Whether the connection is at its end, by release or by an error.
    pub open spec fn is_over(self) -> bool {
        self.released || self.state is Error
    }

    /// Whether an attempt to open the port is under way or due now.
    pub open spec fn is_opening(self) -> bool {
        !self.released && self.state == ConnectionHandlerType::Connecting && !self.waiting
    }

    /// Whether what is kept of the connection fits together: the port is
    /// held open in the states that follow an opened port and come before a
    /// closed one, and in no other; and a wait is due only while connecting.
    pub open spec fn in_order(self) -> bool {
        &&& self.holds_port <==> (self.state == ConnectionHandlerType::Connected || self.state
            == ConnectionHandlerType::Disconnected || self.state == ConnectionHandlerType::Error(
            ConnectionErrorKind::ConnectionLost,
        ))
        &&& self.waiting ==> self.state == ConnectionHandlerType::Connecting
    }

    /// Whether the port is open and read from.
    pub open spec fn is_reading(self) -> bool {
        !self.released && self.state == ConnectionHandlerType::Connected
    }

    /// The failures in a row after one more, which stop being counted at the
    /// largest number that can be held.
    pub open spec fn one_more_failure(self) -> u32 {
        if self.failures < u32::MAX {
            (self.failures + 1) as u32
        } else {
            self.failures
        }
    }

    /// Where the connection stands after `event`.
    ///
    /// Nothing moves a connection that is over. A release ends any other. An
    /// opened port makes a connecting connection connected. A failure to open
    /// it that is final ends the connection with `InitializationFailed`; one
    /// that may pass lets a wait fall due, after which the port is opened
    /// again. A failed read that tells of an unplugged device makes a
    /// connected connection disconnected, and closing the port then makes it
    /// connecting again; a failed read that is a fault ends the connection
    /// with `ConnectionLost`. Every other event leaves the connection where
    /// it stands.
    pub open spec fn next(self, event: ConnectionEvent) -> Lifecycle {
        if self.is_over() {
            self
        } else if event == ConnectionEvent::Released {
            Lifecycle { released: true, ..self }
        } else {
            match self.state {
                ConnectionHandlerType::Connecting => if self.waiting {
                    match event {
                        ConnectionEvent::Elapsed => Lifecycle { waiting: false, ..self },
                        _ => self,
                    }
                } else {
                    match event {
                        ConnectionEvent::Opened => Lifecycle {
                            state: ConnectionHandlerType::Connected,
                            failures: 0,
                            holds_port: true,
                            ..self
                        },
                        ConnectionEvent::OpenFailed(error) => match open_failure(error) {
                            OpenFailure::Refused => Lifecycle {
                                state: ConnectionHandlerType::Error(
                                    ConnectionErrorKind::InitializationFailed,
                                ),
                                ..self
                            },
                            OpenFailure::Transient => Lifecycle {
                                waiting: true,
                                failures: self.one_more_failure(),
                                ..self
                            },
                        },
                        _ => self,
                    }
                },
                ConnectionHandlerType::Connected => match event {
                    ConnectionEvent::ReadFailed(error) => match read_failure(error) {
                        ReadFailure::Idle => self,
                        ReadFailure::Unplugged => Lifecycle {
                            state: ConnectionHandlerType::Disconnected,
                            ..self
                        },
                        ReadFailure::Fault => Lifecycle {
                            state: ConnectionHandlerType::Error(ConnectionErrorKind::ConnectionLost),
                            ..self
                        },
                    },
                    _ => self,
                },
                ConnectionHandlerType::Disconnected => match event {
                    ConnectionEvent::Closed => Lifecycle {
                        state: ConnectionHandlerType::Connecting,
                        waiting: false,
                        failures: 0,
                        holds_port: false,
                        ..self
                    },
                    _ => self,
                },
                ConnectionHandlerType::Error(_) => self,
            }
        }
    }

    /// What the worker is to do where the connection stands, with waits as
    /// `policy` sets them.
    pub open spec fn command(self, policy: RetryPolicy) -> ConnectionCommand {
        if self.released {
            ConnectionCommand::Stop
        } else {
            match self.state {
                ConnectionHandlerType::Connecting => if self.waiting {
                    ConnectionCommand::Wait(policy.delay_after(self.failures as nat) as u64)
                } else {
                    ConnectionCommand::Open
                },
                ConnectionHandlerType::Connected => ConnectionCommand::Read,
                ConnectionHandlerType::Disconnected => ConnectionCommand::Close,
                ConnectionHandlerType::Error(_) => ConnectionCommand::Stop,
            }
        }
    }

    /// What the handler is told when the connection has gone from `self` to
    /// `after`: the new state where it differs from the old, nothing where it
    /// does not.
    pub open spec fn report(self, after: Lifecycle) -> Option<ConnectionHandlerType> {
        if after.state != self.state {
            Some(after.state)
        } else {
            None
        }
    }

    /// Where the connection stands after `events`, one after the other.
    pub open spec fn run(self, events: Seq<ConnectionEvent>) -> Lifecycle
        decreases events.len(),
    {
        if events.len() == 0 {
            self
        } else {
            self.run(events.drop_last()).next(events.last())
        }
    }

    /// The start of a life.
    pub fn start() -> (at: Lifecycle)
        ensures
            at == Lifecycle::fresh(),
    {
        Lifecycle {
            state: ConnectionHandlerType::Connecting,
            waiting: false,
            failures: 0,
            holds_port: false,
            released: false,
        }
    }

    /// Takes one event, and gives where the connection stands after it.
    pub fn step(self, event: ConnectionEvent) -> (after: Lifecycle)
        ensures
            after == self.next(event),
    {
        if self.released {
            return self;
        }
        match (self.state, event) {
            (ConnectionHandlerType::Error(_), _) => self,
            (_, ConnectionEvent::Released) => Lifecycle { released: true, ..self },
            (ConnectionHandlerType::Connecting, ConnectionEvent::Elapsed) => {
                if self.waiting {
                    Lifecycle { waiting: false, ..self }
                } else {
                    self
                }
            },
            (ConnectionHandlerType::Connecting, ConnectionEvent::Opened) => {
                if self.waiting {
                    self
                } else {
                    Lifecycle {
                        state: ConnectionHandlerType::Connected,
                        failures: 0,
                        holds_port: true,
                        ..self
                    }
                }
            },
            (ConnectionHandlerType::Connecting, ConnectionEvent::OpenFailed(error)) => {
                if self.waiting {
                    self
                } else {
                    match classify_open_failure(error) {
                        OpenFailure::Refused => Lifecycle {
                            state: ConnectionHandlerType::Error(
                                ConnectionErrorKind::InitializationFailed,
                            ),
                            ..self
                        },
                        OpenFailure::Transient => {
                            let failures = if self.failures < u32::MAX {
                                self.failures + 1
                            } else {
                                self.failures
                            };
                            Lifecycle { waiting: true, failures, ..self }
                        },
                    }
                }
            },
            (ConnectionHandlerType::Connected, ConnectionEvent::ReadFailed(error)) => {
                match classify_read_failure(error) {
                    ReadFailure::Idle => self,
                    ReadFailure::Unplugged => Lifecycle {
                        state: ConnectionHandlerType::Disconnected,
                        ..self
                    },
                    ReadFailure::Fault => Lifecycle {
                        state: ConnectionHandlerType::Error(ConnectionErrorKind::ConnectionLost),
                        ..self
                    },
                }
            },
            (ConnectionHandlerType::Disconnected, ConnectionEvent::Closed) => Lifecycle {
                state: ConnectionHandlerType::Connecting,
                waiting: false,
                failures: 0,
                holds_port: false,
                ..self
            },
            _ => self,
        }
    }

    /// What the worker is to do next.
    pub fn order(self, policy: &RetryPolicy) -> (command: ConnectionCommand)
        ensures
            command == self.command(*policy),
    {
        if self.released {
            return ConnectionCommand::Stop;
        }
        match self.state {
            ConnectionHandlerType::Connecting => {
                if self.waiting {
                    ConnectionCommand::Wait(policy.delay(self.failures))
                } else {
                    ConnectionCommand::Open
                }
            },
            ConnectionHandlerType::Connected => ConnectionCommand::Read,
            ConnectionHandlerType::Disconnected => ConnectionCommand::Close,
            ConnectionHandlerType::Error(_) => ConnectionCommand::Stop,
        }
    }
}

/// Whether the state of a connection may go from `from` to `to` in one step.
pub open spec fn is_edge(from: ConnectionHandlerType, to: ConnectionHandlerType) -> bool {
    match from {
        ConnectionHandlerType::Connecting => to == ConnectionHandlerType::Connected || to
            == ConnectionHandlerType::Error(ConnectionErrorKind::InitializationFailed),
        ConnectionHandlerType::Connected => to == ConnectionHandlerType::Disconnected || to
            == ConnectionHandlerType::Error(ConnectionErrorKind::ConnectionLost),
        ConnectionHandlerType::Disconnected => to == ConnectionHandlerType::Connecting,
        ConnectionHandlerType::Error(_) => false,
    }
}

/// Whatever the event, the state stays as it is or goes along an edge.
pub proof fn state_keeps_to_the_edges(at: Lifecycle, event: ConnectionEvent)
    ensures
        at.next(event).state == at.state || is_edge(at.state, at.next(event).state),
{
}

/// The handler is told a state when the state has changed, and then the
/// state that was reached along an edge.
pub proof fn handler_is_told_each_change(at: Lifecycle, event: ConnectionEvent)
    ensures
        at.report(at.next(event)) is None <==> at.next(event).state == at.state,
        at.report(at.next(event)) matches Some(told) ==> told == at.next(event).state && is_edge(
            at.state,
            told,
        ),
{
}

/// A connection that is over stays as it is, whatever is told to it, and the
/// worker is told to stop.
pub proof fn over_stays_over(at: Lifecycle, policy: RetryPolicy, later: Seq<ConnectionEvent>)
    requires
        at.is_over(),
    ensures
        at.run(later) == at,
        at.run(later).command(policy) == ConnectionCommand::Stop,
    decreases later.len(),
{
    if later.len() > 0 {
        over_stays_over(at, policy, later.drop_last());
    }
}

/// A connection sets out in order, `Connecting`, with the port to be opened
/// for the first time.
pub proof fn fresh_connection_opens_the_port(policy: RetryPolicy)
    ensures
        Lifecycle::fresh().in_order(),
        Lifecycle::fresh().is_opening(),
        Lifecycle::fresh().command(policy) == ConnectionCommand::Open,
{
}

/// A connection that is in order stays so, whatever is told to it.
pub proof fn connection_stays_in_order(at: Lifecycle, events: Seq<ConnectionEvent>)
    requires
        at.in_order(),
    ensures
        at.run(events).in_order(),
    decreases events.len(),
{
    if events.len() > 0 {
        connection_stays_in_order(at, events.drop_last());
    }
}

/// No more than one port is open at a time: the worker is told to open the
/// port only while it holds none, and to read only from the port it holds.
pub proof fn one_port_at_a_time(at: Lifecycle, policy: RetryPolicy)
    requires
        at.in_order(),
    ensures
        at.command(policy) == ConnectionCommand::Open ==> !at.holds_port,
        at.command(policy) == ConnectionCommand::Read ==> at.holds_port,
        at.command(policy) == ConnectionCommand::Close ==> at.holds_port,
        at.command(policy) == ConnectionCommand::Open <==> at.is_opening(),
        at.command(policy) == ConnectionCommand::Read <==> at.is_reading(),
        at.command(policy) == ConnectionCommand::Stop <==> at.is_over(),
{
}

/// Where an attempt to open the port, the first one included, fails for
/// good, the connection ends with `InitializationFailed`: the handler is told
/// so, the worker is told to stop, and whatever comes later, the port is
/// never opened again.
pub proof fn refused_open_ends_the_connection(
    at: Lifecycle,
    policy: RetryPolicy,
    error: TransportError,
    later: Seq<ConnectionEvent>,
)
    requires
        at.is_opening(),
        open_failure(error) == OpenFailure::Refused,
    ensures
        ({
            let ended = at.next(ConnectionEvent::OpenFailed(error));
            &&& ended.state == ConnectionHandlerType::Error(
                ConnectionErrorKind::InitializationFailed,
            )
            &&& at.report(ended) == Some(ended.state)
            &&& ended.command(policy) == ConnectionCommand::Stop
            &&& ended.run(later) == ended
            &&& ended.run(later).command(policy) != ConnectionCommand::Open
        }),
{
    let ended = at.next(ConnectionEvent::OpenFailed(error));
    over_stays_over(ended, policy, later);
}

/// Where an attempt to open the port, the first one included, fails in a way
/// that may pass, the connection stays `Connecting` and reaches no error: the
/// worker is told to wait, no less than the shortest interval of the policy
/// and no more than its ceiling, and when the wait has run out, to open the
/// port again.
pub proof fn transient_failure_is_retried(at: Lifecycle, policy: RetryPolicy, error: TransportError)
    requires
        at.is_opening(),
        open_failure(error) == OpenFailure::Transient,
    ensures
        ({
            let held = at.next(ConnectionEvent::OpenFailed(error));
            let wait = policy.delay_after(held.failures as nat);
            let again = held.next(ConnectionEvent::Elapsed);
            &&& held.state == ConnectionHandlerType::Connecting
            &&& at.report(held) is None
            &&& held.command(policy) == ConnectionCommand::Wait(wait as u64)
            &&& policy.min_interval_ms <= wait <= policy.ceiling()
            &&& wait <= u64::MAX
            &&& again.state == ConnectionHandlerType::Connecting
            &&& again.command(policy) == ConnectionCommand::Open
        }),
{
    let held = at.next(ConnectionEvent::OpenFailed(error));
    policy.delay_is_bounded(held.failures as nat);
}

/// Where a read fails while connected and the failure tells of an unplugged
/// device, the connection becomes `Disconnected` and the worker is told to
/// close the port; once that is done the connection is `Connecting` again and
/// the worker is told to open the port, without a wait.
pub proof fn unplugged_device_is_connected_to_again(
    at: Lifecycle,
    policy: RetryPolicy,
    error: TransportError,
)
    requires
        at.is_reading(),
        read_failure(error) == ReadFailure::Unplugged,
    ensures
        ({
            let gone = at.next(ConnectionEvent::ReadFailed(error));
            let back = gone.next(ConnectionEvent::Closed);
            &&& gone.state == ConnectionHandlerType::Disconnected
            &&& at.report(gone) == Some(ConnectionHandlerType::Disconnected)
            &&& gone.command(policy) == ConnectionCommand::Close
            &&& back.state == ConnectionHandlerType::Connecting
            &&& gone.report(back) == Some(ConnectionHandlerType::Connecting)
            &&& back.command(policy) == ConnectionCommand::Open
        }),
{
}

/// No failed read is passed over in silence: unless the failure leaves the
/// port as it was, the connection does not stay `Connected`, and the handler
/// is told the state it went to.
pub proof fn failed_read_leaves_connected(at: Lifecycle, error: TransportError)
    requires
        at.is_reading(),
        read_failure(error) != ReadFailure::Idle,
    ensures
        ({
            let after = at.next(ConnectionEvent::ReadFailed(error));
            &&& after.state != ConnectionHandlerType::Connected
            &&& at.report(after) == Some(after.state)
            &&& read_failure(error) == ReadFailure::Fault ==> after.state
                == ConnectionHandlerType::Error(ConnectionErrorKind::ConnectionLost)
        }),
{
}

/// Wherever a connection stands, once it is released the worker is told to
/// stop, which closes the port, and whatever comes later it is told nothing
/// else.
pub proof fn release_ends_the_connection(
    at: Lifecycle,
    policy: RetryPolicy,
    later: Seq<ConnectionEvent>,
)
    ensures
        ({
            let released = at.next(ConnectionEvent::Released);
            &&& released.command(policy) == ConnectionCommand::Stop
            &&& released.run(later) == released
            &&& released.run(later).command(policy) == ConnectionCommand::Stop
        }),
{
    let released = at.next(ConnectionEvent::Released);
    over_stays_over(released, policy, later);
}

/// `Connection` with its texts and bytes as sequences.
pub struct ConnectionView {
    pub port_name: Seq<char>,
    pub baud_rate: u32,
    pub device_id: Seq<char>,
    pub policy: RetryPolicy,
    pub lifecycle: Lifecycle,
    pub pending: Seq<u8>,
}

impl ConnectionView {
    /// The connection after `event`: its life has gone one step, and the
    /// bytes of the open frame are dropped where the state has changed.
    pub open spec fn handled(self, event: ConnectionEvent) -> ConnectionView {
        let lifecycle = self.lifecycle.next(event);
        ConnectionView {
            lifecycle,
            pending: if lifecycle.state == self.lifecycle.state {
                self.pending
            } else {
                Seq::empty()
            },
            ..self
        }
    }

    /// The connection after `bytes` were read from the port. Bytes that come
    /// while the connection is not reading are dropped.
    pub open spec fn received(self, bytes: Seq<u8>) -> ConnectionView {
        if self.lifecycle.is_reading() {
            ConnectionView { pending: open_frame(self.pending + bytes), ..self }
        } else {
            self
        }
    }

    /// The records that `bytes`, read from the port, complete.
    pub open spec fn records_in(self, bytes: Seq<u8>) -> Seq<SwitchInfo> {
        if self.lifecycle.is_reading() {
            records_of(payloads(self.pending + bytes))
        } else {
            Seq::empty()
        }
    }
}

/// A connection to one device: where it is to be found, where the connection
/// stands in its life, and what was read of the frame that is still open.
pub struct Connection {
    port_name: String,
    baud_rate: u32,
    device_id: String,
    policy: RetryPolicy,
    lifecycle: Lifecycle,
    reader: FrameReader,
}

impl View for Connection {
    type V = ConnectionView;

    closed spec fn view(&self) -> ConnectionView {
        ConnectionView {
            port_name: self.port_name@,
            baud_rate: self.baud_rate,
            device_id: self.device_id@,
            policy: self.policy,
            lifecycle: self.lifecycle,
            pending: self.reader@,
        }
    }
}

impl Connection {
    /// What is kept of the life of the connection fits together.
    #[verifier::type_invariant]
    spec fn life_in_order(self) -> bool {
        self.lifecycle.in_order()
    }

    /// A connection to the device `device_id` on the port `port_name`, to be
    /// opened at `baud_rate`, with waits between attempts as `policy` sets
    /// them. It is `Connecting`, and the port is to be opened.
    pub fn new(port_name: String, baud_rate: u32, device_id: String, policy: RetryPolicy) -> (connection:
        Connection)
        ensures
            connection@ == (ConnectionView {
                port_name: port_name@,
                baud_rate,
                device_id: device_id@,
                policy,
                lifecycle: Lifecycle::fresh(),
                pending: Seq::empty(),
            }),
    {
        Connection {
            port_name,
            baud_rate,
            device_id,
            policy,
            lifecycle: Lifecycle::start(),
            reader: FrameReader::new(),
        }
    }

    /// The name of the port.
    pub fn port_name(&self) -> (port_name: &String)
        ensures
            port_name@ == self@.port_name,
    {
        &self.port_name
    }

    /// The baud rate at which the port is opened.
    pub fn baud_rate(&self) -> (baud_rate: u32)
        ensures
            baud_rate == self@.baud_rate,
    {
        self.baud_rate
    }

    /// The identifier of the device.
    pub fn device_id(&self) -> (device_id: &String)
        ensures
            device_id@ == self@.device_id,
    {
        &self.device_id
    }

    /// The state of the connection.
    pub fn state(&self) -> (state: ConnectionHandlerType)
        ensures
            state == self@.lifecycle.state,
    {
        self.lifecycle.state
    }

    /// Where the connection stands in its life.
    pub fn lifecycle(&self) -> (lifecycle: Lifecycle)
        ensures
            lifecycle == self@.lifecycle,
            lifecycle.in_order(),
    {
        proof {
            use_type_invariant(self);
        }
        self.lifecycle
    }

    /// What the worker is to do next.
    pub fn command(&self) -> (command: ConnectionCommand)
        ensures
            command == self@.lifecycle.command(self@.policy),
    {
        self.lifecycle.order(&self.policy)
    }

    /// Takes what the worker tells. Returns the state that the handler is to
    /// be told: the new state where it has changed, nothing where it has not.
    pub fn handle(&mut self, event: ConnectionEvent) -> (told: Option<ConnectionHandlerType>)
        ensures
            final(self)@ == old(self)@.handled(event),
            told == old(self)@.lifecycle.report(final(self)@.lifecycle),
    {
        proof {
            use_type_invariant(&*self);
        }
        let before = self.lifecycle;
        let after = before.step(event);
        self.lifecycle = after;
        if after.state != before.state {
            self.reader = FrameReader::new();
            Some(after.state)
        } else {
            None
        }
    }

    /// Takes the bytes that were read from the port. Returns the records of
    /// the frames that these bytes close, in order; frames and payloads that
    /// cannot be decoded give none. While the connection is not reading, the
    /// bytes are dropped and nothing is returned.
    pub fn receive(&mut self, bytes: &[u8]) -> (records: Vec<SwitchInfo>)
        ensures
            final(self)@ == old(self)@.received(bytes@),
            records@ == old(self)@.records_in(bytes@),
    {
        proof {
            use_type_invariant(&*self);
        }
        if self.lifecycle.released || self.lifecycle.state != ConnectionHandlerType::Connected {
            return Vec::new();
        }
        let mut reader = FrameReader::new();
        core::mem::swap(&mut reader, &mut self.reader);
        let closed = reader.feed(bytes);
        self.reader = reader;
        dec_records(&closed)
    }
}

} // verus!
