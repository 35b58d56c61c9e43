//! Module for the Opening Connection Stage.
use vstd::prelude::*;

use crate::channel::{ChannelId, ChannelTable};
use crate::connection::{
    Connectable, Connection, HandshakeState, Open, OpenConfig, OpeningEvent, PeerAddress, Progress,
    RtcOutput, StageEvent, TimeoutInput,
};
use crate::error::Error;
use crate::fingerprint::Fingerprint;
use crate::net::SocketAddr;
use crate::rtc::{can_elapse, Polled, RtcStack, StackOutput};
use crate::time::Instant;

verus! {

/// The Opening Connection state.
#[derive(Clone, Copy, Debug)]
pub struct Opening {
    /// The state of the opening connection handshake
    pub state: HandshakeState,
}

impl Default for Opening {
    fn default() -> (r: Self)
        ensures
            r.state == HandshakeState::Closed,
    {
        Opening::new()
    }
}

impl Opening {
    /// Creates a new `Opening` state.
    pub fn new() -> (r: Opening)
        ensures
            r.state == HandshakeState::Closed,
    {
        Opening { state: HandshakeState::Closed }
    }

    /// Handle timeouts while opening
    pub fn on_timeout(&mut self) -> (r: Result<(), Error>)
        ensures
            r == Ok::<(), Error>(()),
            *final(self) == *old(self),
    {
        Ok(())
    }

    /// The handshake after ICE and DTLS came up: opened, if it was closed before; else poisoned.
    pub open spec fn connected(self, remote_fingerprint: Fingerprint) -> Opening {
        Opening {
            state: if self.state is Closed {
                HandshakeState::Opened { remote_fingerprint }
            } else {
                HandshakeState::Poisoned
            },
        }
    }

    /// Handles ICE and DTLS coming up; the certificate of the remote has this fingerprint.
    pub fn on_event_connected(&mut self, remote_fingerprint: Fingerprint) -> (r: OpeningEvent)
        ensures
            *final(self) == old(self).connected(remote_fingerprint),
            r == (if old(self).state is Closed {
                OpeningEvent::ConnectionOpened { remote_fingerprint }
            } else {
                OpeningEvent::ConnectionClosed
            }),
    {
        match self.state {
            // Initial State should be Closed before we connect
            HandshakeState::Closed => {
                self.state = HandshakeState::Opened { remote_fingerprint };
                OpeningEvent::ConnectionOpened { remote_fingerprint }
            },
            _ => {
                self.state = HandshakeState::Poisoned;
                OpeningEvent::ConnectionClosed
            },
        }
    }
}

impl Connectable for Opening {
    type Output = OpeningEvent;

    open spec fn quiet() -> OpeningEvent {
        OpeningEvent::Nothing
    }

    open spec fn gone() -> OpeningEvent {
        OpeningEvent::ConnectionClosed
    }

    open spec fn timed_out(timeout: Instant, input: TimeoutInput) -> OpeningEvent {
        match input {
            TimeoutInput::NotFed => OpeningEvent::Timeout { timeout },
            TimeoutInput::Taken => OpeningEvent::Nothing,
            TimeoutInput::Failed => OpeningEvent::ConnectionClosed,
        }
    }

    open spec fn feeds_due_timeouts() -> bool {
        true
    }

    open spec fn handles(event: StageEvent) -> bool {
        true
    }

    open spec fn after(self, event: StageEvent) -> Opening {
        match event {
            StageEvent::Connected { remote_fingerprint } => self.connected(remote_fingerprint),
            _ => self,
        }
    }

    open spec fn report(self, event: StageEvent) -> OpeningEvent {
        match event {
            StageEvent::Connected { remote_fingerprint } => if self.state is Closed {
                OpeningEvent::ConnectionOpened { remote_fingerprint }
            } else {
                OpeningEvent::ConnectionClosed
            },
            _ => OpeningEvent::Nothing,
        }
    }

    fn default_output() -> OpeningEvent {
        OpeningEvent::Nothing
    }

    /// Handle error for Opening connection.
    fn on_rtc_error(&mut self) -> OpeningEvent {
        OpeningEvent::ConnectionClosed
    }

    fn feeds_timeout(&self, timeout: Instant, now: Instant) -> bool {
        timeout.remaining_from(now) == 0
    }

    /// A timeout that was not due yet is reported; one that the WebRTC stack failed on closes the
    /// connection.
    fn on_output_timeout(&mut self, timeout: Instant, input: TimeoutInput) -> OpeningEvent {
        match input {
            TimeoutInput::NotFed => OpeningEvent::Timeout { timeout },
            TimeoutInput::Taken => OpeningEvent::Nothing,
            TimeoutInput::Failed => OpeningEvent::ConnectionClosed,
        }
    }

    /// The connection is closed when the ICE connection is lost.
    fn on_event_ice_disconnect(&self) -> OpeningEvent {
        OpeningEvent::ConnectionClosed
    }

    /// No Opening specific logic for channel open
    fn on_event_channel_open(&mut self, channel_id: ChannelId) -> OpeningEvent {
        OpeningEvent::Nothing
    }

    fn has_answer(&self, event: StageEvent) -> bool {
        true
    }

    fn on_event(&mut self, event: StageEvent) -> Option<OpeningEvent> {
        match event {
            StageEvent::Connected { remote_fingerprint } => Some(
                self.on_event_connected(remote_fingerprint),
            ),
            StageEvent::ChannelClose(_) => Some(OpeningEvent::Nothing),
            StageEvent::Other => Some(OpeningEvent::Nothing),
        }
    }
}

/// Implementations that apply only to the Opening Connection state.
impl Connection<Opening> {
    /// Creates a new `Connection` in the Opening state.
    pub fn new(local_addr: SocketAddr, source: SocketAddr) -> (r: Connection<Opening>)
        ensures
            r.stage.state == HandshakeState::Closed,
            r.peer_address == PeerAddress(source),
            r.local_address == local_addr,
            r.channel_details@ == Map::<ChannelId, crate::channel::Details>::empty(),
            r.drop_listeners == 0,
            !r.no_drop_listeners_waker,
    {
        Connection {
            stage: Opening::new(),
            channel_details: ChannelTable::new(),
            peer_address: PeerAddress(source),
            local_address: local_addr,
            drop_listeners: 0,
            no_drop_listeners_waker: false,
        }
    }

    /// Completes the connection opening process.
    /// The only way to get to Open is to go through Opening.
    /// Opening to Open moves values into the Open state.
    pub fn open(self, config: OpenConfig) -> (r: Connection<Open>)
        ensures
            r.stage.peer == config.peer_id,
            r.channel_details == self.channel_details,
            r.peer_address == self.peer_address,
            r.local_address == self.local_address,
            r.drop_listeners == self.drop_listeners,
            r.no_drop_listeners_waker == self.no_drop_listeners_waker,
    {
        Connection {
            stage: Open { peer: config.peer_id },
            channel_details: self.channel_details,
            peer_address: self.peer_address,
            local_address: self.local_address,
            drop_listeners: self.drop_listeners,
            no_drop_listeners_waker: self.no_drop_listeners_waker,
        }
    }

    /// What follows once the WebRTC stack was handed the time: `taken` tells whether it took it.
    pub fn on_timeout_fed(&self, taken: bool) -> (r: Result<(), Error>)
        ensures
            r == (if taken {
                Ok::<(), Error>(())
            } else {
                Err::<(), Error>(Error::Disconnected)
            }),
    {
        if taken {
            Ok(())
        } else {
            Err(Error::Disconnected)
        }
    }

    /// Handle timeout: the WebRTC stack is handed the time, and disconnected if it fails on it. One
    /// that no longer works takes it.
    pub fn on_timeout(&mut self, rtc: &mut RtcStack) -> (r: Result<(), Error>)
        requires
            old(rtc).inv(),
        ensures
            final(rtc).inv(),
            final(rtc).same_numbers(old(rtc)),
            *final(self) == *old(self),
            old(rtc).fed_time(r is Ok, final(rtc)),
            r matches Err(e) ==> e == Error::Disconnected && old(rtc).alive(),
            !old(rtc).alive() ==> !final(rtc).alive(),
    {
        let taken = rtc.feed_timeout();
        self.on_timeout_fed(taken)
    }
}

/// A handshake opens at most once: when ICE and DTLS come up a second time, the connection is
/// closed and its handshake poisoned for good.
pub proof fn law_opens_at_most_once(stage: Opening, first: Fingerprint, second: Fingerprint)
    ensures
        ({
            let up1 = StageEvent::Connected { remote_fingerprint: first };
            let up2 = StageEvent::Connected { remote_fingerprint: second };
            &&& stage.after(up1).report(up2) == OpeningEvent::ConnectionClosed
            &&& stage.after(up1).after(up2).state == HandshakeState::Poisoned
            &&& stage.state is Poisoned ==> stage.after(up1).state is Poisoned
        }),
{
}

/// An opening connection is reported as opened with the fingerprint that it then holds.
pub proof fn law_reported_fingerprint_is_kept(stage: Opening, event: StageEvent)
    ensures
        stage.report(event) matches OpeningEvent::ConnectionOpened { remote_fingerprint }
            ==> stage.after(event).state == (HandshakeState::Opened { remote_fingerprint }),
{
}

/// What an opening connection with a working WebRTC stack reports. It is closed where the stack
/// failed or lost ICE. A timeout is reported where it is still to come; one that is due is handed to
/// the stack at once, and closes the connection only if the stack fails on it. When ICE and DTLS come
/// up, a handshake that was closed is opened, with the fingerprint that the stack tells, or else with
/// the one that it had to expect, and any other is poisoned and the connection closed; without a
/// SHA-256 fingerprint there is no telling. Everything else is not worth a report, and leaves the
/// connection as it is.
pub proof fn law_opening_reports(
    connection: Connection<Opening>,
    before: RtcStack,
    had: StackOutput,
    rtc: RtcStack,
    after: Connection<Opening>,
    r: Option<Progress<OpeningEvent>>,
)
    requires
        before.inv(),
        before.alive(),
        connection.progresses(before, had, rtc, after, r),
    ensures
        had is Failed || had is IceDisconnected ==> r is Some && r->0.output
            == OpeningEvent::ConnectionClosed,
        had is Transmit || had is ChannelOpen || had is ChannelData || had is ChannelClose
            || had is Other ==> r is Some && r->0.output == OpeningEvent::Nothing && after
            == connection && rtc.inner() == before.inner(),
        had matches StackOutput::Timeout(at) ==> exists|now: Instant|
            {
                &&& #[trigger] before.clock().shows(now)
                &&& r is Some
                &&& if now.nanos < at.nanos {
                    &&& r->0.output == OpeningEvent::Timeout { timeout: at }
                    &&& rtc.inner() == before.inner()
                } else {
                    ||| r->0.output == OpeningEvent::Nothing && can_elapse(
                        before.inner(),
                        rtc.inner(),
                        None,
                    )
                    ||| r->0.output == OpeningEvent::ConnectionClosed && !rtc.alive()
                }
            },
        had is Connected ==> {
            let digest = match before.told() {
                Some((hash_func, bytes)) => if hash_func == "sha-256"@ && bytes.len() == 32 {
                    Some(bytes)
                } else {
                    None
                },
                None => Some(before.expected()),
            };
            &&& rtc.inner() == before.inner()
            &&& digest is None ==> r is None && after == connection
            &&& digest matches Some(bytes) ==> {
                &&& r is Some
                &&& connection.stage.state is Closed ==> {
                    &&& r->0.output matches OpeningEvent::ConnectionOpened { remote_fingerprint }
                    &&& remote_fingerprint@ == bytes
                    &&& after.stage.state == HandshakeState::Opened { remote_fingerprint }
                }
                &&& !(connection.stage.state is Closed) ==> r->0.output
                    == OpeningEvent::ConnectionClosed && after.stage.state
                    == HandshakeState::Poisoned
            }
        },
{
    let (polled, said, now, output) = choose|
        polled: RtcStack,
        said: Polled,
        now: Instant,
        output: Option<RtcOutput>,
    | #[trigger]
        connection.steps(before, had, polled, said, now, output, rtc, after, r);
    crate::rtc::law_outputs_are_read_as_they_are(before, had, said, polled);
    if let StackOutput::Timeout(at) = had {
        assert(before.clock().shows(now));
        if now.nanos >= at.nanos {
            let taken = output->0->input is Taken;
            crate::rtc::law_failures_disconnect(polled, taken, rtc, Ok(()), polled);
        }
    }
    if had is Connected {
        crate::rtc::lemma_same_stack_tells_the_same(before, polled);
    }
}

/// A new connection is closed, has no channels, and is between the two addresses that it was made
/// for; when it opens, it keeps its channels, its addresses and its streams, and is with the peer
/// that it is told.
pub proof fn law_connections_keep_what_they_have(
    local: SocketAddr,
    source: SocketAddr,
    new: Connection<Opening>,
    config: OpenConfig,
    opening: Connection<Opening>,
    open: Connection<Open>,
)
    requires
        call_ensures(Connection::<Opening>::new, (local, source), new),
        call_ensures(Connection::<Opening>::open, (opening, config), open),
    ensures
        new.local_address == local,
        new.peer_address.0 == source,
        new.stage.state is Closed,
        forall|id: ChannelId| !(#[trigger] new.channel_details@.dom().contains(id)),
        new.drop_listeners == 0,
        open.stage.peer == config.peer_id,
        open.channel_details == opening.channel_details,
        open.peer_address == opening.peer_address,
        open.local_address == opening.local_address,
        open.drop_listeners == opening.drop_listeners,
        open.no_drop_listeners_waker == opening.no_drop_listeners_waker,
{
}

/// The time that is handed to an opening connection goes to its stack: where that takes it, nothing
/// else happens, and where it fails the connection is disconnected and the stack works no longer.
pub proof fn law_time_goes_to_the_stack(
    connection: &mut Connection<Opening>,
    rtc: &mut RtcStack,
    r: Result<(), Error>,
)
    requires
        call_ensures(Connection::<Opening>::on_timeout, (connection, rtc), r),
    ensures
        *final(connection) == *old(connection),
        r is Ok ==> can_elapse(old(rtc).inner(), final(rtc).inner(), None),
        r matches Err(e) ==> e == Error::Disconnected && !final(rtc).alive(),
        final(rtc).remote() == old(rtc).remote(),
{
    crate::rtc::law_failures_disconnect(*old(rtc), r is Ok, *final(rtc), Ok(()), *old(rtc));
}

/// When ICE and DTLS come up, a handshake that was closed is open with the remote's fingerprint, and
/// is reported so; any other is poisoned, and the connection reported as closed.
pub proof fn law_handshakes_open_from_closed(
    opening: &mut Opening,
    remote_fingerprint: Fingerprint,
    r: OpeningEvent,
)
    requires
        call_ensures(Opening::on_event_connected, (opening, remote_fingerprint), r),
    ensures
        old(opening).state is Closed ==> r == (OpeningEvent::ConnectionOpened {
            remote_fingerprint,
        }) && final(opening).state == (HandshakeState::Opened { remote_fingerprint }),
        !(old(opening).state is Closed) ==> r == OpeningEvent::ConnectionClosed
            && final(opening).state == HandshakeState::Poisoned,
{
}

} // verus!
