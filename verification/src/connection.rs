//! Connection module.
//!
//! There are two Stages of the Connection: [`Opening`] and [`Open`],
//! which are each their own modules.
//!
//! The [`Opening`] stage is responsible for the initial handshake with the remote peer. It goes
//! through several [`HandshakeState`]s until the connection is opened. Then Opening connection
//! is moved to Open stage once Noise upgrade is complete.
//!
//! A connection does no I/O: whoever drives it polls its WebRTC stack, hands the output in, and
//! carries out the [`Action`]s that come back.
pub mod open;
pub mod opening;

use libp2p_identity::PeerId;
use vstd::prelude::*;

use crate::channel::{ChannelId, ChannelTable, RtcDataChannelState, StateUpdate, StateValues};
use crate::error::Error;
use crate::fingerprint::Fingerprint;
use crate::net::SocketAddr;
use crate::rtc::{Polled, RtcStack, StackOutput};
use crate::stream::Stream;
use crate::time::Instant;

pub use self::open::{Open, OpenConfig};
pub use self::opening::Opening;

verus! {

/// The size of the buffer for incoming datagrams.
pub const DATAGRAM_BUFFER_SIZE: usize = 1024;

/// Declares `libp2p_identity::PeerId` as an opaque type.
#[verifier::external_type_specification]
#[verifier::external_body]
pub struct ExPeerId(libp2p_identity::PeerId);

/// WebRTC Connection Opening Events
#[derive(Clone, Copy, Debug, PartialEq, Eq)]
pub enum OpeningEvent {
    /// Register timeout for the connection.
    Timeout {
        /// Timeout.
        timeout: Instant,
    },
    /// Connection closed.
    ConnectionClosed,
    /// Connection established.
    ConnectionOpened { remote_fingerprint: Fingerprint },
    /// This is the default
    Nothing,
}

impl Default for OpeningEvent {
    fn default() -> (r: Self)
        ensures
            r == OpeningEvent::Nothing,
    {
        OpeningEvent::Nothing
    }
}

/// Opening Connection state.
#[derive(Clone, Copy, Debug, PartialEq, Eq)]
pub enum HandshakeState {
    /// Connection is poisoned.
    Poisoned,
    /// Connection is closed.
    Closed,
    /// Connection has been opened.
    Opened { remote_fingerprint: Fingerprint },
    /// Local Noise handshake has been sent to peer and the connection
    /// is waiting for an answer.
    HandshakeSent,
    /// Response to local Noise handshake has been received and the connection
    /// is being validated.
    Validating,
}

/// Peer Address
#[derive(Clone, Copy, Debug, PartialEq, Eq, Structural)]
pub struct PeerAddress(pub SocketAddr);

impl PeerAddress {
    /// The address itself.
    pub fn addr(&self) -> (r: SocketAddr)
        ensures
            r == self.0,
    {
        self.0
    }
}

/// What became of the timeout that the WebRTC stack asked for.
#[derive(Clone, Copy, Debug, PartialEq, Eq, Structural)]
pub enum TimeoutInput {
    /// It was not handed to the stack.
    NotFed,
    /// The stack took it.
    Taken,
    /// The stack failed on it.
    Failed,
}

/// An event that the stage of a connection answers.
#[derive(Clone, Copy, Debug, PartialEq, Eq)]
pub enum StageEvent {
    /// A channel was closed.
    ChannelClose(ChannelId),
    /// ICE and DTLS are up; the certificate of the remote has this fingerprint.
    Connected { remote_fingerprint: Fingerprint },
    /// Any other event of the WebRTC stack.
    Other,
}

/// What a stage of a connection makes of the outputs of the WebRTC stack.
pub trait Connectable: Sized {
    /// What a stage reports to whoever drives the connection.
    type Output;

    /// The report when there is nothing to report.
    spec fn quiet() -> Self::Output;

    /// The report when the connection is gone.
    spec fn gone() -> Self::Output;

    /// The report on a timeout.
    spec fn timed_out(timeout: Instant, input: TimeoutInput) -> Self::Output;

    /// A timeout that is due is handed to the WebRTC stack at once.
    spec fn feeds_due_timeouts() -> bool;

    /// The events that the stage has an answer to.
    spec fn handles(event: StageEvent) -> bool;

    /// The stage after `event`.
    spec fn after(self, event: StageEvent) -> Self;

    /// The report on `event`.
    spec fn report(self, event: StageEvent) -> Self::Output;

    /// The report when there is nothing to report.
    fn default_output() -> (r: Self::Output)
        ensures
            r == Self::quiet(),
    ;

    /// Handle Rtc Errors
    fn on_rtc_error(&mut self) -> (r: Self::Output)
        ensures
            r == Self::gone(),
            *final(self) == *old(self),
    ;

    /// Whether a timeout has to be handed to the WebRTC stack before it is reported.
    fn feeds_timeout(&self, timeout: Instant, now: Instant) -> (r: bool)
        ensures
            r == (Self::feeds_due_timeouts() && crate::time::nanos_until(timeout, now) == 0),
    ;

    /// Handle Rtc Timeout
    fn on_output_timeout(&mut self, timeout: Instant, input: TimeoutInput) -> (r: Self::Output)
        ensures
            r == Self::timed_out(timeout, input),
            *final(self) == *old(self),
    ;

    /// Handles the loss of the ICE connection.
    fn on_event_ice_disconnect(&self) -> (r: Self::Output)
        ensures
            r == Self::gone(),
    ;

    /// Handles an opened channel.
    fn on_event_channel_open(&mut self, channel_id: ChannelId) -> (r: Self::Output)
        ensures
            r == Self::quiet(),
            *final(self) == *old(self),
    ;

    /// Whether the stage has an answer to `event`.
    fn has_answer(&self, event: StageEvent) -> (r: bool)
        ensures
            r == Self::handles(event),
    ;

    /// Handles all other events; `None` where the stage has no answer.
    fn on_event(&mut self, event: StageEvent) -> (r: Option<Self::Output>)
        ensures
            match r {
                Some(output) => Self::handles(event) && output == old(self).report(event)
                    && *final(self) == old(self).after(event),
                None => !Self::handles(event) && *final(self) == *old(self),
            },
    ;
}

/// One output of the WebRTC stack, as it was polled.
#[derive(Debug, PartialEq, Eq)]
pub enum RtcOutput {
    /// The stack is no longer alive.
    NotAlive,
    /// Polling failed.
    Failed,
    /// A datagram to send.
    Transmit { destination: SocketAddr, contents: Vec<u8> },
    /// The stack wants to be woken at `timeout`.
    Timeout { timeout: Instant, input: TimeoutInput },
    /// The ICE connection is lost.
    IceDisconnected,
    /// A data channel has opened.
    ChannelOpen(ChannelId),
    /// Data arrived on a channel.
    ChannelData { id: ChannelId, data: Vec<u8> },
    /// An event that the stage answers.
    Event(StageEvent),
}

/// What is to be done for a connection.
#[derive(Debug, PartialEq, Eq)]
pub enum Action {
    /// Send a datagram.
    Send { destination: SocketAddr, contents: Vec<u8> },
    /// Pass an update on to the channel table.
    Update(StateUpdate),
    /// Tell the muxer of an inbound channel.
    NotifyInbound(ChannelId),
    /// Wake who waits for the channel to open or to close.
    WakeOpen(ChannelId),
    /// Wake who waits for data on the channel.
    WakeNewData(ChannelId),
    /// Report the connection as closed.
    ReportClosed,
}

/// The mathematical form of [`Action`].
pub enum Act {
    Send(SocketAddr, Seq<u8>),
    State(ChannelId, RtcDataChannelState),
    Data(ChannelId, Seq<u8>),
    NotifyInbound(ChannelId),
    WakeOpen(ChannelId),
    WakeNewData(ChannelId),
    ReportClosed,
}

impl View for Action {
    type V = Act;

    open spec fn view(&self) -> Act {
        match *self {
            Action::Send { destination, contents } => Act::Send(destination, contents@),
            Action::Update(update) => match update.state {
                StateValues::RtcState(state) => Act::State(update.channel_id, state),
                StateValues::ReadBuffer(data) => Act::Data(update.channel_id, data@),
            },
            Action::NotifyInbound(id) => Act::NotifyInbound(id),
            Action::WakeOpen(id) => Act::WakeOpen(id),
            Action::WakeNewData(id) => Act::WakeNewData(id),
            Action::ReportClosed => Act::ReportClosed,
        }
    }
}

/// The acts that `actions` stand for.
pub open spec fn acts(actions: Seq<Action>) -> Seq<Act> {
    actions.map_values(|a: Action| a@)
}

/// What an output of the WebRTC stack makes necessary; `known` tells whether its channel, if it
/// has one, is in the channel table.
pub open spec fn required_acts(output: RtcOutput, known: bool) -> Seq<Act> {
    match output {
        RtcOutput::NotAlive => seq![Act::ReportClosed],
        RtcOutput::Failed => seq![],
        RtcOutput::Transmit { destination, contents } => seq![Act::Send(destination, contents@)],
        RtcOutput::Timeout { .. } => seq![],
        RtcOutput::IceDisconnected => seq![Act::ReportClosed],
        RtcOutput::ChannelOpen(id) => {
            let told = seq![Act::State(id, RtcDataChannelState::Open), Act::NotifyInbound(id)];
            if known {
                told.push(Act::WakeOpen(id))
            } else {
                told
            }
        },
        RtcOutput::ChannelData { id, data } => if known {
            seq![Act::Data(id, data@), Act::WakeNewData(id)]
        } else {
            seq![]
        },
        RtcOutput::Event(StageEvent::ChannelClose(id)) => if known {
            seq![Act::State(id, RtcDataChannelState::Closed), Act::WakeOpen(id)]
        } else {
            seq![]
        },
        RtcOutput::Event(_) => seq![],
    }
}

/// The channel that an output of the WebRTC stack is about.
pub open spec fn output_channel(output: RtcOutput) -> Option<ChannelId> {
    match output {
        RtcOutput::ChannelOpen(id) => Some(id),
        RtcOutput::ChannelData { id, data } => Some(id),
        RtcOutput::Event(StageEvent::ChannelClose(id)) => Some(id),
        _ => None,
    }
}

/// The report that a stage makes of an output of the WebRTC stack.
pub open spec fn stage_report<S: Connectable>(stage: S, output: RtcOutput) -> S::Output {
    match output {
        RtcOutput::NotAlive => S::gone(),
        RtcOutput::Failed => S::gone(),
        RtcOutput::Transmit { .. } => S::quiet(),
        RtcOutput::Timeout { timeout, input } => S::timed_out(timeout, input),
        RtcOutput::IceDisconnected => S::gone(),
        RtcOutput::ChannelOpen(_) => S::quiet(),
        RtcOutput::ChannelData { .. } => S::quiet(),
        RtcOutput::Event(event) => stage.report(event),
    }
}

/// A stage after an output of the WebRTC stack.
pub open spec fn stage_after<S: Connectable>(stage: S, output: RtcOutput) -> S {
    match output {
        RtcOutput::Event(event) => stage.after(event),
        _ => stage,
    }
}

/// ICE and DTLS are up, and the remote's certificate has this digest.
pub open spec fn is_connected(output: Option<RtcOutput>, digest: Seq<u8>) -> bool {
    output matches Some(RtcOutput::Event(StageEvent::Connected { remote_fingerprint }))
        && remote_fingerprint@ == digest
}

/// What came of an output of the WebRTC stack.
pub struct Progress<O> {
    /// What the stage reports.
    pub output: O,
    /// What is to be done, in order.
    pub actions: Vec<Action>,
}

/// What became of a datagram that was put into a connection's queue.
#[derive(Clone, Copy, Debug, PartialEq, Eq, Structural)]
pub enum SendOutcome {
    /// It is in the queue.
    Sent,
    /// The queue was full.
    Full,
    /// Nobody reads the queue any more.
    Closed,
}

/// A stream over a new channel.
pub struct NewStream {
    /// The stream.
    pub stream: Stream,
    /// Whether the muxer has to be woken, to watch over the stream's end.
    pub wake_muxer: bool,
}

/// The WebRTC Connections as each of the various states
pub struct Connection<Stage> {
    /// Stage goes from Opening to Open. Holds out stage-specific values.
    pub stage: Stage,
    /// The channels of the connection.
    pub channel_details: ChannelTable,
    /// Peer address
    pub peer_address: PeerAddress,
    /// This peer's local address.
    pub local_address: SocketAddr,
    /// The number of streams of which the end is watched.
    pub drop_listeners: u64,
    /// Is set when the muxer waits for a stream to watch.
    pub no_drop_listeners_waker: bool,
}

/// Implementations that apply to both stages.
impl<Stage: Connectable> Connection<Stage> {
    /// The channel of `output`, if it has one, is in the table.
    pub open spec fn knows(self, output: RtcOutput) -> bool {
        output_channel(output) matches Some(id) && self.channel_details@.dom().contains(id)
    }

    /// Tells what came of relaying a datagram to the connection's event loop.
    pub fn dgram_recv(&mut self, outcome: SendOutcome) -> (r: Result<(), Error>)
        ensures
            r is Ok <==> outcome is Sent,
            r matches Err(e) ==> e == Error::Disconnected,
            *final(self) == *old(self),
    {
        match outcome {
            SendOutcome::Sent => Ok(()),
            SendOutcome::Full => Err(Error::Disconnected),
            SendOutcome::Closed => Err(Error::Disconnected),
        }
    }

    /// Report the connection as closed.
    pub fn report_connection_closed(&self) -> (r: Action)
        ensures
            r@ == Act::ReportClosed,
    {
        Action::ReportClosed
    }

    /// What the stage reports and what is to be done on an output of the WebRTC stack, and the
    /// connection afterwards.
    pub open spec fn progressed(
        self,
        output: RtcOutput,
        after: Connection<Stage>,
        progress: Progress<Stage::Output>,
    ) -> bool {
        &&& progress.output == stage_report(self.stage, output)
        &&& acts(progress.actions@) == required_acts(output, self.knows(output))
        &&& after == (Connection { stage: stage_after(self.stage, output), ..self })
    }

    /// Progress the [`Connection`] process by one output of the WebRTC stack.
    pub fn on_rtc_output(&mut self, output: RtcOutput) -> (r: Progress<Stage::Output>)
        requires
            output matches RtcOutput::Event(event) ==> Stage::handles(event),
        ensures
            old(self).progressed(output, *final(self), r),
    {
        let mut actions: Vec<Action> = Vec::new();
        let ghost polled = output;
        let ghost known = self.knows(output);
        let report = match output {
            RtcOutput::NotAlive => {
                // First handle connection level close
                actions.push(self.report_connection_closed());
                // Next handle the Stage specific close
                self.stage.on_event_ice_disconnect()
            },
            RtcOutput::Failed => self.stage.on_rtc_error(),
            RtcOutput::Transmit { destination, contents } => {
                actions.push(Action::Send { destination, contents });
                Stage::default_output()
            },
            RtcOutput::Timeout { timeout, input } => self.stage.on_output_timeout(timeout, input),
            RtcOutput::IceDisconnected => {
                // First handle connection level close
                actions.push(self.report_connection_closed());
                // Next handle the Stage specific close
                self.stage.on_event_ice_disconnect()
            },
            RtcOutput::ChannelOpen(id) => {
                actions.push(
                    Action::Update(
                        StateUpdate {
                            channel_id: id,
                            state: StateValues::RtcState(RtcDataChannelState::Open),
                        },
                    ),
                );
                // notify the muxer
                actions.push(Action::NotifyInbound(id));
                // prompt who waits for the channel to look again
                if self.channel_details.contains(id) {
                    actions.push(Action::WakeOpen(id));
                }
                self.stage.on_event_channel_open(id)
            },
            RtcOutput::ChannelData { id, data } => {
                if self.channel_details.contains(id) {
                    actions.push(
                        Action::Update(
                            StateUpdate { channel_id: id, state: StateValues::ReadBuffer(data) },
                        ),
                    );
                    actions.push(Action::WakeNewData(id));
                }
                Stage::default_output()
            },
            RtcOutput::Event(event) => {
                if let StageEvent::ChannelClose(id) = event {
                    // the channel stays in the table, so that its reader can learn of the close
                    if self.channel_details.contains(id) {
                        actions.push(
                            Action::Update(
                                StateUpdate {
                                    channel_id: id,
                                    state: StateValues::RtcState(RtcDataChannelState::Closed),
                                },
                            ),
                        );
                        actions.push(Action::WakeOpen(id));
                    }
                }
                match self.stage.on_event(event) {
                    Some(report) => report,
                    None => Stage::default_output(),
                }
            },
        };
        assert(acts(actions@) =~= required_acts(polled, known));
        Progress { output: report, actions }
    }

    /// What a polled output comes to at `now`, and the WebRTC stack afterwards: where the stage feeds
    /// a timeout that is due, the stack is handed the time, and disconnected if it fails on it.
    ///
    /// Where ICE and DTLS came up, the remote's certificate is the one that the stack tells of, or
    /// else the one that it had to have; there is nothing to go on with where that is no SHA-256
    /// digest.
    pub open spec fn reads(
        rtc: RtcStack,
        polled: Polled,
        now: Instant,
        after: RtcStack,
        r: Option<RtcOutput>,
    ) -> bool {
        match polled {
            Polled::Timeout(timeout) => {
                &&& r matches Some(RtcOutput::Timeout { timeout: reported, input })
                &&& reported == timeout
                &&& if Stage::feeds_due_timeouts() && crate::time::nanos_until(timeout, now) == 0 {
                    !(input is NotFed) && rtc.fed_time(input is Taken, &after)
                } else {
                    input is NotFed && after == rtc
                }
            },
            Polled::Connected => after == rtc && match rtc.told() {
                Some((hash_func, bytes)) => if hash_func == "sha-256"@ && bytes.len() == 32 {
                    is_connected(r, bytes)
                } else {
                    r is None
                },
                None => is_connected(r, rtc.expected()),
            },
            Polled::Failed => after == rtc && r == Some(RtcOutput::Failed),
            Polled::Transmit { destination, contents } => after == rtc && r == Some(
                RtcOutput::Transmit { destination, contents },
            ),
            Polled::IceDisconnected => after == rtc && r == Some(RtcOutput::IceDisconnected),
            Polled::ChannelOpen(id) => after == rtc && r == Some(RtcOutput::ChannelOpen(id)),
            Polled::ChannelData { id, data } => after == rtc && r == Some(
                RtcOutput::ChannelData { id, data },
            ),
            Polled::ChannelClose(id) => after == rtc && r == Some(
                RtcOutput::Event(StageEvent::ChannelClose(id)),
            ),
            Polled::Other => after == rtc && r == Some(RtcOutput::Event(StageEvent::Other)),
        }
    }

    /// Goes on with an output that was polled, at `now`.
    pub fn read_output(&self, rtc: &mut RtcStack, polled: Polled, now: Instant) -> (r: Option<
        RtcOutput,
    >)
        requires
            old(rtc).inv(),
        ensures
            final(rtc).inv(),
            final(rtc).same_numbers(old(rtc)),
            Self::reads(*old(rtc), polled, now, *final(rtc), r),
    {
        match polled {
            Polled::Failed => Some(RtcOutput::Failed),
            Polled::Transmit { destination, contents } => Some(
                RtcOutput::Transmit { destination, contents },
            ),
            Polled::Timeout(timeout) => {
                let input = if !self.stage.feeds_timeout(timeout, now) {
                    TimeoutInput::NotFed
                } else if rtc.feed_timeout() {
                    TimeoutInput::Taken
                } else {
                    TimeoutInput::Failed
                };
                Some(RtcOutput::Timeout { timeout, input })
            },
            Polled::IceDisconnected => Some(RtcOutput::IceDisconnected),
            Polled::Connected => match rtc.remote_fingerprint() {
                Some(remote_fingerprint) => Some(
                    RtcOutput::Event(StageEvent::Connected { remote_fingerprint }),
                ),
                None => None,
            },
            Polled::ChannelOpen(id) => Some(RtcOutput::ChannelOpen(id)),
            Polled::ChannelData { id, data } => Some(RtcOutput::ChannelData { id, data }),
            Polled::ChannelClose(id) => Some(RtcOutput::Event(StageEvent::ChannelClose(id))),
            Polled::Other => Some(RtcOutput::Event(StageEvent::Other)),
        }
    }

    /// There is an output, and the stage has an answer to it.
    pub open spec fn has_progress(output: Option<RtcOutput>) -> bool {
        output is Some && (output->0 matches RtcOutput::Event(event) ==> Stage::handles(event))
    }

    /// The WebRTC stack `before` had this output, which left it as `polled` and was read as `said`
    /// when its clock showed `now`; the connection made this progress of it, or none.
    pub open spec fn steps(
        self,
        before: RtcStack,
        had: StackOutput,
        polled: RtcStack,
        said: Polled,
        now: Instant,
        output: Option<RtcOutput>,
        rtc: RtcStack,
        after: Connection<Stage>,
        r: Option<Progress<Stage::Output>>,
    ) -> bool {
        &&& before.reads(had, said, &polled)
        &&& before.clock().shows(now)
        &&& Self::reads(polled, said, now, rtc, output)
        &&& if Self::has_progress(output) {
            r is Some && self.progressed(output->0, after, r->0)
        } else {
            r is None && after == self
        }
    }

    /// What comes of an output of the connection's WebRTC stack: that is `rtc` then.
    pub open spec fn polls_output(
        self,
        before: RtcStack,
        had: StackOutput,
        rtc: RtcStack,
        after: Connection<Stage>,
        r: Option<Progress<Stage::Output>>,
    ) -> bool {
        exists|polled: RtcStack, said: Polled, now: Instant, output: Option<RtcOutput>| #[trigger]
            self.steps(before, had, polled, said, now, output, rtc, after, r)
    }

    /// What comes of polling the connection: where its WebRTC stack no longer works, and did not fail
    /// just now, that it is closed.
    pub open spec fn progresses(
        self,
        before: RtcStack,
        had: StackOutput,
        rtc: RtcStack,
        after: Connection<Stage>,
        r: Option<Progress<Stage::Output>>,
    ) -> bool {
        if before.alive() || had is Failed {
            self.polls_output(before, had, rtc, after, r)
        } else {
            rtc == before && r is Some && self.progressed(RtcOutput::NotAlive, after, r->0)
        }
    }

    /// Progress the [`Connection`] process, with what polling its WebRTC stack gave.
    ///
    /// A connection whose WebRTC stack no longer works is closed. There is no progress where the
    /// stage has no answer to what the stack says.
    pub fn poll_progress(&mut self, rtc: &mut RtcStack, output: StackOutput) -> (r: Option<
        Progress<Stage::Output>,
    >)
        requires
            old(rtc).inv(),
        ensures
            final(rtc).inv(),
            final(rtc).remote() == old(rtc).remote(),
            old(self).progresses(*old(rtc), output, *final(rtc), *final(self), r),
            *final(self) == (Connection { stage: final(self).stage, ..*old(self) }),
    {
        let failed = match &output {
            StackOutput::Failed => true,
            _ => false,
        };
        if !failed && !rtc.is_alive() {
            let r = Some(self.on_rtc_output(RtcOutput::NotAlive));
            assert(old(self).progressed(RtcOutput::NotAlive, *self, r->0));
            return r;
        }
        self.rtc_poll_output(rtc, output)
    }

    /// Rtc Poll Output
    pub fn rtc_poll_output(&mut self, rtc: &mut RtcStack, output: StackOutput) -> (r: Option<
        Progress<Stage::Output>,
    >)
        requires
            old(rtc).inv(),
        ensures
            final(rtc).inv(),
            final(rtc).remote() == old(rtc).remote(),
            old(self).polls_output(*old(rtc), output, *final(rtc), *final(self), r),
            *final(self) == (Connection { stage: final(self).stage, ..*old(self) }),
    {
        let said = rtc.on_output(output);
        let ghost polled = *rtc;
        let ghost heard = said;
        let now = rtc.now();
        let read = self.read_output(rtc, said, now);
        let ghost had = read;
        let r = match read {
            None => None,
            Some(read) => {
                let answered = match &read {
                    RtcOutput::Event(event) => self.stage.has_answer(*event),
                    _ => true,
                };
                if answered {
                    let progress = self.on_rtc_output(read);
                    let r = Some(progress);
                    assert(r->0 == progress);
                    assert(old(self).progressed(had->0, *self, r->0));
                    r
                } else {
                    None
                }
            },
        };
        assert(old(self).steps(*old(rtc), output, polled, heard, now, had, *rtc, *self, r));
        r
    }
}

impl<Stage> Connection<Stage> {
    /// The state of a channel, where it is known.
    pub fn channel(&self, id: ChannelId) -> (r: Option<RtcDataChannelState>)
        ensures
            match r {
                Some(state) => self.channel_details@.dom().contains(id)
                    && self.channel_details@[id].state == state,
                None => !self.channel_details@.dom().contains(id),
            },
    {
        self.channel_details.state(id)
    }

    /// New Stream from Data Channel ID
    ///
    /// The channel enters the table as one that is opening and has no data; if the muxer waits for
    /// a stream to watch, it has to be woken.
    pub fn new_stream_from_data_channel_id(&mut self, channel_id: ChannelId) -> (r: Result<
        NewStream,
        Error,
    >)
        requires
            old(self).drop_listeners < u64::MAX,
        ensures
            r matches Ok(new) && new.stream.channel_id() == channel_id && new.stream.fresh()
                && new.wake_muxer == old(self).no_drop_listeners_waker,
            final(self).channel_details@ == old(self).channel_details@.insert(
                channel_id,
                (crate::channel::Details {
                    state: RtcDataChannelState::Opening,
                    bytes: Seq::empty(),
                }),
            ),
            final(self).drop_listeners == old(self).drop_listeners + 1,
            !final(self).no_drop_listeners_waker,
            final(self).stage == old(self).stage,
            final(self).peer_address == old(self).peer_address,
            final(self).local_address == old(self).local_address,
    {
        let stream = Stream::new(channel_id);
        self.channel_details.open_channel(channel_id);
        self.drop_listeners = self.drop_listeners + 1;
        let wake_muxer = self.no_drop_listeners_waker;
        self.no_drop_listeners_waker = false;
        Ok(NewStream { stream, wake_muxer })
    }
}

/// A channel that opens or closes is announced to its table with the state that an inquiry then
/// reports: whoever carries out the actions of a connection keeps the table in step with the
/// WebRTC stack.
pub proof fn law_table_follows_stack<S: Connectable>(
    connection: Connection<S>,
    output: RtcOutput,
    id: ChannelId,
)
    requires
        output == RtcOutput::ChannelOpen(id) || output == RtcOutput::Event(
            StageEvent::ChannelClose(id),
        ),
        connection.channel_details@.dom().contains(id),
    ensures
        ({
            let state = if output is ChannelOpen {
                RtcDataChannelState::Open
            } else {
                RtcDataChannelState::Closed
            };
            let update = StateUpdate { channel_id: id, state: StateValues::RtcState(state) };
            let inquiry = crate::channel::Inquiry {
                channel_id: Some(id),
                ty: crate::channel::InquiryType::State,
            };
            &&& required_acts(output, connection.knows(output))[0] == Act::State(id, state)
            &&& required_acts(output, connection.knows(output)).contains(Act::WakeOpen(id))
            &&& crate::channel::answer(
                crate::channel::updated(connection.channel_details@, update),
                inquiry,
            ) == crate::channel::Answer::State(state)
        }),
{
    let all = required_acts(output, connection.knows(output));
    assert(all[all.len() - 1] == Act::WakeOpen(id));
}

/// A connection whose WebRTC stack no longer works is gone, in whatever stage and whatever the stack
/// has: it is closed, and stays so when it is polled again. Unless the stack fails just now, the
/// connection is reported as closed and the stack left alone.
pub proof fn law_lost_connections_stay_lost<S: Connectable>(
    connection: Connection<S>,
    before: RtcStack,
    had: StackOutput,
    rtc: RtcStack,
    after: Connection<S>,
    r: Option<Progress<S::Output>>,
    next: StackOutput,
    last: RtcStack,
    end: Connection<S>,
    again: Option<Progress<S::Output>>,
)
    requires
        !before.alive(),
        connection.progresses(before, had, rtc, after, r),
        after.progresses(rtc, next, last, end, again),
    ensures
        r is Some,
        r->0.output == S::gone(),
        !rtc.alive(),
        after == connection,
        !(had is Failed) ==> rtc == before && acts(r->0.actions@) == seq![Act::ReportClosed],
        again is Some,
        again->0.output == S::gone(),
        !last.alive(),
        end == connection,
        !(next is Failed) ==> last == rtc && acts(again->0.actions@) == seq![Act::ReportClosed],
{
}

/// Data for a channel reaches the reader's buffer and wakes the reader; data for a channel that is
/// not in the table is dropped.
pub proof fn law_data_reaches_known_channels<S: Connectable>(
    connection: Connection<S>,
    id: ChannelId,
    data: Vec<u8>,
)
    ensures
        ({
            let output = RtcOutput::ChannelData { id, data };
            if connection.channel_details@.dom().contains(id) {
                required_acts(output, connection.knows(output)) == seq![
                    Act::Data(id, data@),
                    Act::WakeNewData(id),
                ]
            } else {
                required_acts(output, connection.knows(output)) == Seq::<Act>::empty()
            }
        }),
{
}

/// What a working WebRTC stack puts out is what is done for its connection, in whatever stage. A
/// datagram is sent where the stack says, with its bytes, to the remote with flow label and scope. A
/// channel that opens is entered as open and told of to the muxer, and who waits for it woken; data
/// goes to the channel it is for, whose reader is woken; a channel that closes is entered as closed
/// and who waits for it woken. Where a channel is not in the table, there is nobody to wake and
/// nowhere to put data. The loss of ICE is reported; nothing else is done.
pub proof fn law_outputs_are_carried_out<S: Connectable>(
    connection: Connection<S>,
    before: RtcStack,
    had: StackOutput,
    rtc: RtcStack,
    after: Connection<S>,
    r: Option<Progress<S::Output>>,
)
    requires
        before.inv(),
        before.alive(),
        connection.progresses(before, had, rtc, after, r),
    ensures
        after == (Connection { stage: after.stage, ..connection }),
        had matches StackOutput::Transmit { destination, contents } ==> {
            &&& r is Some
            &&& r->0.output == S::quiet()
            &&& acts(r->0.actions@) == seq![
                Act::Send(
                    if destination.ip == before.remote().ip && destination.port
                        == before.remote().port {
                        before.remote()
                    } else {
                        destination
                    },
                    contents@,
                ),
            ]
            &&& after == connection
            &&& rtc.inner() == before.inner()
        },
        had matches StackOutput::ChannelOpen(id) ==> {
            &&& r is Some
            &&& r->0.output == S::quiet()
            &&& after == connection
            &&& exists|n: ChannelId|
                {
                    &&& n < rtc.ids().len()
                    &&& #[trigger] rtc.ids()[n as int] == id
                    &&& acts(r->0.actions@) == (if connection.channel_details@.dom().contains(n) {
                        seq![
                            Act::State(n, RtcDataChannelState::Open),
                            Act::NotifyInbound(n),
                            Act::WakeOpen(n),
                        ]
                    } else {
                        seq![Act::State(n, RtcDataChannelState::Open), Act::NotifyInbound(n)]
                    })
                }
        },
        had matches StackOutput::ChannelData(id, data) ==> {
            &&& r is Some
            &&& r->0.output == S::quiet()
            &&& after == connection
            &&& exists|n: ChannelId|
                {
                    &&& n < rtc.ids().len()
                    &&& #[trigger] rtc.ids()[n as int] == id
                    &&& acts(r->0.actions@) == (if connection.channel_details@.dom().contains(n) {
                        seq![Act::Data(n, data@), Act::WakeNewData(n)]
                    } else {
                        Seq::<Act>::empty()
                    })
                }
        },
        had matches StackOutput::ChannelClose(id) ==> exists|n: ChannelId|
            {
                &&& n < rtc.ids().len()
                &&& #[trigger] rtc.ids()[n as int] == id
                &&& r is Some <==> S::handles(StageEvent::ChannelClose(n))
                &&& r is Some ==> acts(r->0.actions@) == (
                if connection.channel_details@.dom().contains(n) {
                    seq![Act::State(n, RtcDataChannelState::Closed), Act::WakeOpen(n)]
                } else {
                    Seq::<Act>::empty()
                })
            },
        had is IceDisconnected ==> {
            &&& r is Some
            &&& r->0.output == S::gone()
            &&& acts(r->0.actions@) == seq![Act::ReportClosed]
            &&& after == connection
        },
        had is Failed ==> {
            &&& r is Some
            &&& r->0.output == S::gone()
            &&& r->0.actions@.len() == 0
            &&& after == connection
            &&& !rtc.alive()
        },
        had is Timeout ==> {
            &&& r is Some
            &&& r->0.actions@.len() == 0
            &&& after == connection
        },
        (had is Connected || had is Other) && r is Some ==> r->0.actions@.len() == 0,
{
    let (polled, said, now, output) = choose|
        polled: RtcStack,
        said: Polled,
        now: Instant,
        output: Option<RtcOutput>,
    | #[trigger]
        connection.steps(before, had, polled, said, now, output, rtc, after, r);
    crate::rtc::law_outputs_are_read_as_they_are(before, had, said, polled);
    if r is Some {
        assert(acts(r->0.actions@).len() == r->0.actions@.len());
    }
    match had {
        StackOutput::ChannelOpen(id) => {
            let n = said->ChannelOpen_0;
            assert(rtc.ids()[n as int] == id);
            let known = connection.channel_details@.dom().contains(n);
            assert(acts(r->0.actions@) =~= (if known {
                seq![
                    Act::State(n, RtcDataChannelState::Open),
                    Act::NotifyInbound(n),
                    Act::WakeOpen(n),
                ]
            } else {
                seq![Act::State(n, RtcDataChannelState::Open), Act::NotifyInbound(n)]
            }));
        },
        StackOutput::ChannelData(id, _) => {
            let n = said->ChannelData_id;
            assert(rtc.ids()[n as int] == id);
        },
        StackOutput::ChannelClose(id) => {
            let n = said->ChannelClose_0;
            assert(rtc.ids()[n as int] == id);
        },
        _ => {},
    }
}

/// A new stream is over the channel it was asked for, which is entered as opening and without data in
/// place of any earlier one; it is watched, and whoever waits for a stream to watch is to be woken.
/// The other channels, the stage and the addresses stay as they are.
pub proof fn law_new_streams_enter_their_channel<Stage>(
    connection: &mut Connection<Stage>,
    id: ChannelId,
    r: Result<NewStream, Error>,
    other: ChannelId,
)
    requires
        call_ensures(
            Connection::<Stage>::new_stream_from_data_channel_id,
            (connection, id),
            r,
        ),
        other != id,
    ensures
        r matches Ok(new) && new.stream.channel_id() == id && new.stream.fresh() && new.wake_muxer
            == old(connection).no_drop_listeners_waker,
        final(connection).channel_details@.dom().contains(id),
        final(connection).channel_details@[id].state == RtcDataChannelState::Opening,
        final(connection).channel_details@[id].bytes.len() == 0,
        final(connection).channel_details@.dom().contains(other)
            == old(connection).channel_details@.dom().contains(other),
        old(connection).channel_details@.dom().contains(other) ==> final(connection).channel_details@[other] == old(connection).channel_details@[other],
        final(connection).drop_listeners == old(connection).drop_listeners + 1,
        !final(connection).no_drop_listeners_waker,
        final(connection).stage == old(connection).stage,
        final(connection).peer_address == old(connection).peer_address,
        final(connection).local_address == old(connection).local_address,
{
}

/// A datagram is relayed exactly where the queue took it, and a connection that is asked for a channel
/// tells its state, where it knows it; neither changes the connection.
pub proof fn law_relaying_succeeds_with_the_queue<S: Connectable>(
    connection: &mut Connection<S>,
    outcome: SendOutcome,
    r: Result<(), Error>,
    id: ChannelId,
    asked: &Connection<S>,
    state: Option<RtcDataChannelState>,
)
    requires
        call_ensures(Connection::<S>::dgram_recv, (connection, outcome), r),
        call_ensures(Connection::<S>::channel, (asked, id), state),
    ensures
        r is Ok <==> outcome == SendOutcome::Sent,
        *final(connection) == *old(connection),
        state is Some <==> asked.channel_details@.dom().contains(id),
        state matches Some(found) ==> asked.channel_details@[id].state == found,
{
}

} // verus!
