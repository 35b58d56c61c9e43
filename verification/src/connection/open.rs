//! Module for an Open Connection
use libp2p_identity::PeerId;
use vstd::prelude::*;

use crate::channel::ChannelId;
use crate::connection::{
    acts, stage_report, Act, Connectable, Connection, NewStream, Progress, RtcOutput, StageEvent,
    TimeoutInput,
};
use crate::error::Error;
use crate::net::SocketAddr;
use crate::rtc::{
    can_elapse, can_receive, complaint, unusable, Polled, Received, RtcStack, StackOutput,
};
use crate::stun::{is_dtls, recognised, rejection, stun_message, stun_rejection};
use crate::time::Instant;

verus! {

/// The Open Connection state.
#[derive(Debug, PartialEq, Eq)]
pub struct Open {
    /// Remote peer ID.
    pub peer: PeerId,
}

/// Configure the Open stage:
#[derive(Debug, PartialEq, Eq)]
pub struct OpenConfig {
    /// Remote peer ID.
    pub peer_id: PeerId,
}

/// What an open connection reports.
#[derive(Clone, Copy, Debug, PartialEq, Eq, Structural)]
pub enum OpenEvent {
    /// The WebRTC stack wants to be handed the time at `timeout`.
    Timeout { timeout: Instant },
    /// The connection is gone.
    ConnectionClosed,
    /// There is nothing to report.
    Nothing,
}

/// Impl Connectable for Open
impl Connectable for Open {
    type Output = OpenEvent;

    open spec fn quiet() -> OpenEvent {
        OpenEvent::Nothing
    }

    open spec fn gone() -> OpenEvent {
        OpenEvent::ConnectionClosed
    }

    open spec fn timed_out(timeout: Instant, input: TimeoutInput) -> OpenEvent {
        OpenEvent::Timeout { timeout }
    }

    open spec fn feeds_due_timeouts() -> bool {
        false
    }

    open spec fn handles(event: StageEvent) -> bool {
        event is ChannelClose
    }

    open spec fn after(self, event: StageEvent) -> Open {
        self
    }

    open spec fn report(self, event: StageEvent) -> OpenEvent {
        OpenEvent::Nothing
    }

    fn default_output() -> OpenEvent {
        OpenEvent::Nothing
    }

    /// The connection is closed when an error occurs.
    fn on_rtc_error(&mut self) -> OpenEvent {
        OpenEvent::ConnectionClosed
    }

    fn feeds_timeout(&self, timeout: Instant, now: Instant) -> bool {
        false
    }

    /// Return [`Instant`] when a timeout occurs while [`Open`].
    fn on_output_timeout(&mut self, timeout: Instant, input: TimeoutInput) -> OpenEvent {
        OpenEvent::Timeout { timeout }
    }

    /// The connection is closed when the ICE connection is lost.
    fn on_event_ice_disconnect(&self) -> OpenEvent {
        OpenEvent::ConnectionClosed
    }

    fn on_event_channel_open(&mut self, channel_id: ChannelId) -> OpenEvent {
        OpenEvent::Nothing
    }

    fn has_answer(&self, event: StageEvent) -> bool {
        match event {
            StageEvent::ChannelClose(_) => true,
            _ => false,
        }
    }

    fn on_event(&mut self, event: StageEvent) -> Option<OpenEvent> {
        match event {
            StageEvent::ChannelClose(_) => Some(OpenEvent::Nothing),
            _ => None,
        }
    }
}

/// What the event loop of an open connection does next.
#[derive(Debug, PartialEq, Eq)]
pub enum RunStep {
    /// The connection is closed; the loop ends.
    Closed,
    /// Poll the WebRTC stack again.
    Poll,
    /// Hand the current time to the WebRTC stack and poll it again.
    FeedTimeout,
    /// Wait for a datagram, at most so many nanoseconds.
    Wait { nanos: u64 },
    /// Hand a datagram to the WebRTC stack and poll it again.
    FeedDatagram { source: SocketAddr, destination: SocketAddr, contents: Vec<u8> },
}

/// What the event loop of an open connection waited for.
#[derive(Debug, PartialEq, Eq)]
pub enum Waited {
    /// A datagram arrived.
    Datagram(Vec<u8>),
    /// There will be no more datagrams.
    NoMoreDatagrams,
    /// The time is over.
    TimeIsOver,
}

/// What the event loop of an open connection does at `now`, after the stage reported this: the stack
/// is polled until there is a timeout. One that is due goes to the stack at once, another one is
/// waited for. The loop ends where the connection is gone.
pub open spec fn run_step(polled: OpenEvent, now: Instant) -> RunStep {
    match polled {
        OpenEvent::Nothing => RunStep::Poll,
        OpenEvent::ConnectionClosed => RunStep::Closed,
        OpenEvent::Timeout { timeout } => if crate::time::nanos_until(timeout, now) == 0 {
            RunStep::FeedTimeout
        } else {
            RunStep::Wait { nanos: crate::time::nanos_until(timeout, now) as u64 }
        },
    }
}

/// The event loop of an open connection polled the WebRTC stack, which had this output, and does this
/// next, when the stack's clock shows `now`.
pub open spec fn ran(
    before: Connection<Open>,
    stack: RtcStack,
    had: StackOutput,
    polled: Option<Progress<OpenEvent>>,
    now: Instant,
    rtc: RtcStack,
    after: Connection<Open>,
    r: Option<(RunStep, Progress<OpenEvent>)>,
) -> bool {
    &&& before.polls_output(stack, had, rtc, after, polled)
    &&& rtc.clock().shows(now)
    &&& r == (match polled {
        Some(progress) => Some((run_step(progress.output, now), progress)),
        None => None,
    })
}

/// Implementations that apply only to the Open Connection state.
impl Connection<Open> {
    /// Runs the main input handler by one step: what follows once the stage reported on an output.
    pub fn run(&self, polled: OpenEvent, now: Instant) -> (r: RunStep)
        ensures
            r == run_step(polled, now),
    {
        match polled {
            OpenEvent::Nothing => RunStep::Poll,
            OpenEvent::ConnectionClosed => RunStep::Closed,
            OpenEvent::Timeout { timeout } => {
                let nanos: u64 = timeout.remaining_from(now);
                if nanos == 0 {
                    RunStep::FeedTimeout
                } else {
                    RunStep::Wait { nanos }
                }
            },
        }
    }

    /// What follows once the event loop has waited: a datagram goes to the WebRTC stack as one from
    /// the peer to this side.
    pub fn on_waited(&self, waited: Waited) -> (r: RunStep)
        ensures
            match waited {
                Waited::Datagram(datagram) => r matches RunStep::FeedDatagram {
                    source,
                    destination,
                    contents,
                } && source == self.peer_address.0 && destination == self.local_address && contents@
                    == datagram@,
                Waited::NoMoreDatagrams => r is Closed,
                Waited::TimeIsOver => r is FeedTimeout,
            },
    {
        match waited {
            Waited::Datagram(datagram) => RunStep::FeedDatagram {
                source: self.peer_address.addr(),
                destination: self.local_address,
                contents: datagram,
            },
            Waited::NoMoreDatagrams => RunStep::Closed,
            Waited::TimeIsOver => RunStep::FeedTimeout,
        }
    }

    /// Runs the main input handler by one output of the WebRTC stack. There is no next step where the
    /// stage has no answer to what the stack says.
    pub fn run_once(&mut self, rtc: &mut RtcStack, output: StackOutput) -> (r: Option<
        (RunStep, Progress<OpenEvent>),
    >)
        requires
            old(rtc).inv(),
        ensures
            final(rtc).inv(),
            final(rtc).remote() == old(rtc).remote(),
            exists|polled: Option<Progress<OpenEvent>>, now: Instant| #[trigger]
                ran(*old(self), *old(rtc), output, polled, now, *final(rtc), *final(self), r),
    {
        let polled = self.rtc_poll_output(rtc, output);
        let now = rtc.now();
        let ghost had = polled;
        let r = match polled {
            None => None,
            Some(progress) => Some((self.run(progress.output, now), progress)),
        };
        assert(ran(*old(self), *old(rtc), output, had, now, *rtc, *self, r));
        r
    }

    /// Hands the time to the WebRTC stack; an error holds what it said.
    pub fn feed_timeout(&self, rtc: &mut RtcStack) -> (r: Result<(), String>)
        requires
            old(rtc).inv(),
        ensures
            final(rtc).inv(),
            old(rtc).elapses(final(rtc), complaint(r)),
            final(rtc).same_numbers(old(rtc)),
            !old(rtc).alive() ==> r is Ok && !final(rtc).alive(),
    {
        rtc.handle_timeout()
    }

    /// Hands a datagram from the peer to the WebRTC stack, unless it is DTLS, which is to be handed
    /// over.
    pub fn feed_datagram(&self, rtc: &mut RtcStack, datagram: &[u8]) -> (r: Received)
        requires
            old(rtc).inv(),
        ensures
            final(rtc).inv(),
            final(rtc).same_numbers(old(rtc)),
            match r {
                Received::Unusable => unusable(datagram@) && *final(rtc) == *old(rtc),
                Received::Rejected(text) => {
                    &&& !unusable(datagram@)
                    &&& !recognised(datagram@, stun_message(datagram@) is Some)
                    &&& text@ == rejection(datagram@, stun_rejection(datagram@))
                    &&& *final(rtc) == *old(rtc)
                },
                Received::HandOver => {
                    &&& !unusable(datagram@)
                    &&& is_dtls(datagram@)
                    &&& *final(rtc) == *old(rtc)
                },
                Received::Taken => {
                    &&& !unusable(datagram@)
                    &&& recognised(datagram@, stun_message(datagram@) is Some)
                    &&& !is_dtls(datagram@)
                    &&& old(rtc).receives(
                        self.peer_address.0,
                        self.local_address,
                        datagram@,
                        final(rtc),
                        None,
                    )
                },
                Received::Failed(text) => {
                    &&& old(rtc).alive()
                    &&& !final(rtc).alive()
                    &&& !unusable(datagram@)
                    &&& recognised(datagram@, stun_message(datagram@) is Some)
                    &&& !is_dtls(datagram@)
                    &&& old(rtc).receives(
                        self.peer_address.0,
                        self.local_address,
                        datagram@,
                        final(rtc),
                        Some(text@),
                    )
                },
            },
    {
        rtc.receive(self.peer_address.addr(), self.local_address, datagram)
    }

    /// Takes the next inbound channel, if there is one: it becomes a stream. When there will be no
    /// more, the connection is disconnected.
    pub fn poll_inbound(&mut self, channel: Option<ChannelId>) -> (r: Result<NewStream, Error>)
        requires
            old(self).drop_listeners < u64::MAX,
        ensures
            match channel {
                Some(id) => {
                    &&& r matches Ok(new) && new.stream.channel_id() == id && new.stream.fresh()
                        && new.wake_muxer == old(self).no_drop_listeners_waker
                    &&& final(self).channel_details@ == old(self).channel_details@.insert(
                        id,
                        (crate::channel::Details {
                            state: crate::channel::RtcDataChannelState::Opening,
                            bytes: Seq::empty(),
                        }),
                    )
                    &&& final(self).drop_listeners == old(self).drop_listeners + 1
                    &&& !final(self).no_drop_listeners_waker
                    &&& final(self).stage == old(self).stage
                    &&& final(self).peer_address == old(self).peer_address
                    &&& final(self).local_address == old(self).local_address
                },
                None => r == Err::<NewStream, Error>(Error::Disconnected) && *final(self) == *old(
                    self,
                ),
            },
    {
        match channel {
            Some(id) => self.new_stream_from_data_channel_id(id),
            None => Err(Error::Disconnected),
        }
    }

    /// Watches over the end of streams: `ended` tells that one ended, gracefully or not; otherwise
    /// none is left to watch. Returns whether to look for the next one; if not, the muxer waits
    /// until there is a new stream.
    pub fn poll(&mut self, ended: bool) -> (again: bool)
        requires
            ended ==> old(self).drop_listeners > 0,
        ensures
            again == ended,
            *final(self) == (if ended {
                Connection {
                    drop_listeners: (old(self).drop_listeners - 1) as u64,
                    ..*old(self)
                }
            } else {
                Connection { no_drop_listeners_waker: true, ..*old(self) }
            }),
    {
        if ended {
            self.drop_listeners = self.drop_listeners - 1;
            true
        } else {
            self.no_drop_listeners_waker = true;
            false
        }
    }
}

/// Sending a datagram and what happens to a channel never end the event loop of an open connection:
/// the stack is polled again. It ends where the connection is gone, or there are no more datagrams.
pub proof fn law_loop_ends_with_the_connection(stage: Open, output: RtcOutput, now: Instant)
    requires
        Connection::<Open>::has_progress(Some(output)),
    ensures
        run_step(stage_report(stage, output), now) is Closed <==> output is NotAlive
            || output is Failed || output is IceDisconnected,
        output is Transmit || output is ChannelOpen || output is ChannelData || output is Event
            ==> run_step(stage_report(stage, output), now) is Poll,
        output is Timeout ==> run_step(stage_report(stage, output), now) is FeedTimeout
            || run_step(stage_report(stage, output), now) is Wait,
{
}

/// What the event loop of an open connection does after an output of the WebRTC stack: it sends and
/// polls again; waits for a timeout exactly until it comes, and hands the stack the time where it is
/// due; and ends where the stack failed or lost ICE. Where ICE and DTLS come up again, or something
/// is told that an open connection does not know, there is no telling.
pub proof fn law_loop_follows_the_stack(
    connection: Connection<Open>,
    before: RtcStack,
    had: StackOutput,
    polled: Option<Progress<OpenEvent>>,
    now: Instant,
    rtc: RtcStack,
    after: Connection<Open>,
    r: Option<(RunStep, Progress<OpenEvent>)>,
)
    requires
        before.inv(),
        before.alive(),
        ran(connection, before, had, polled, now, rtc, after, r),
    ensures
        after == connection,
        had matches StackOutput::Transmit { destination, contents } ==> {
            &&& r is Some
            &&& (r->0).0 is Poll
            &&& acts((r->0).1.actions@) == seq![
                Act::Send(
                    if destination.ip == before.remote().ip && destination.port
                        == before.remote().port {
                        before.remote()
                    } else {
                        destination
                    },
                    contents@,
                ),
            ]
        },
        had is ChannelOpen || had is ChannelData || had is ChannelClose ==> r is Some
            && (r->0).0 is Poll,
        had is Failed || had is IceDisconnected ==> r is Some && (r->0).0 is Closed,
        had matches StackOutput::Timeout(at) ==> {
            &&& r is Some
            &&& rtc.inner() == before.inner()
            &&& if now.nanos < at.nanos {
                (r->0).0 matches RunStep::Wait { nanos } && now.nanos + nanos == at.nanos
            } else {
                (r->0).0 is FeedTimeout
            }
        },
        had is Connected || had is Other ==> r is None,
{
    assert(connection.progresses(before, had, rtc, after, polled));
    crate::connection::law_outputs_are_carried_out(connection, before, had, rtc, after, polled);
    let (stack, said, shown, output) = choose|
        stack: RtcStack,
        said: Polled,
        shown: Instant,
        output: Option<RtcOutput>,
    | #[trigger]
        connection.steps(before, had, stack, said, shown, output, rtc, after, polled);
    crate::rtc::law_outputs_are_read_as_they_are(before, had, said, stack);
}

/// A datagram that the event loop waited for goes to the stack with its bytes, as one from the peer to
/// this side; where there will be none, the loop ends, and where the time is over the stack is told.
/// What the event loop does next follows from what the stage reports: a timeout is waited for until
/// it comes, or handed to the stack where it is due.
pub proof fn law_loop_feeds_what_it_waited_for(
    connection: &Connection<Open>,
    waited: Waited,
    r: RunStep,
    polled: OpenEvent,
    now: Instant,
    next: RunStep,
)
    requires
        call_ensures(Connection::<Open>::on_waited, (connection, waited), r),
        call_ensures(Connection::<Open>::run, (connection, polled, now), next),
    ensures
        waited matches Waited::Datagram(datagram) ==> (r matches RunStep::FeedDatagram {
            source,
            destination,
            contents,
        } && source == connection.peer_address.0 && destination == connection.local_address
            && contents@ == datagram@),
        waited is NoMoreDatagrams <==> r is Closed,
        waited is TimeIsOver <==> r is FeedTimeout,
        polled is Nothing <==> next is Poll,
        polled is ConnectionClosed <==> next is Closed,
        polled matches OpenEvent::Timeout { timeout } ==> if timeout.nanos <= now.nanos {
            next is FeedTimeout
        } else {
            next matches RunStep::Wait { nanos } && now.nanos + nanos == timeout.nanos
        },
{
}

/// A datagram that is fed to the stack of an open connection comes, for the stack, from the peer to
/// this side, with its bytes; media is the present only. DTLS is left to be handed over, and what is
/// refused leaves the stack as it is.
pub proof fn law_fed_datagrams_come_from_the_peer(
    connection: &Connection<Open>,
    rtc: &mut RtcStack,
    datagram: &[u8],
    r: Received,
)
    requires
        call_ensures(Connection::<Open>::feed_datagram, (connection, rtc, datagram), r),
    ensures
        r is Taken ==> if datagram@.len() > 2 && 128 <= datagram@[0] < 192 {
            can_elapse(old(rtc).inner(), final(rtc).inner(), None)
        } else {
            can_receive(
                old(rtc).inner(),
                (connection.peer_address.0.ip, connection.peer_address.0.port),
                (connection.local_address.ip, connection.local_address.port),
                datagram@,
                final(rtc).inner(),
                None,
            )
        },
        r is Failed ==> !final(rtc).alive(),
        r is Unusable || r is Rejected || r is HandOver ==> *final(rtc) == *old(rtc),
        datagram@.len() > 8192 ==> r is Unusable,
        datagram@.len() <= 8192 && is_dtls(datagram@) ==> r is HandOver,
        final(rtc).remote() == old(rtc).remote(),
{
    if r is Taken {
        crate::rtc::law_stacks_are_handed_what_came(
            *old(rtc),
            connection.peer_address.0,
            connection.local_address,
            datagram@,
            *final(rtc),
            None,
        );
    }
}

/// An inbound channel becomes a stream over it, which is watched; without one the connection is
/// disconnected and stays as it is. Streams that end are watched no longer, one by one, and where
/// none is left the muxer waits for the next.
pub proof fn law_inbound_channels_become_streams(
    connection: &mut Connection<Open>,
    channel: Option<ChannelId>,
    r: Result<NewStream, Error>,
    watching: &mut Connection<Open>,
    ended: bool,
    again: bool,
)
    requires
        call_ensures(Connection::<Open>::poll_inbound, (connection, channel), r),
        call_ensures(Connection::<Open>::poll, (watching, ended), again),
        ended ==> old(watching).drop_listeners > 0,
    ensures
        r is Ok <==> channel is Some,
        channel matches Some(id) ==> {
            &&& r->Ok_0.stream.channel_id() == id
            &&& final(connection).channel_details@.dom().contains(id)
            &&& final(connection).channel_details@[id].state
                == crate::channel::RtcDataChannelState::Opening
            &&& final(connection).drop_listeners == old(connection).drop_listeners + 1
            &&& r->Ok_0.wake_muxer == old(connection).no_drop_listeners_waker
        },
        r is Err ==> *final(connection) == *old(connection),
        r matches Err(e) ==> e == Error::Disconnected,
        again == ended,
        ended ==> final(watching).drop_listeners + 1 == old(watching).drop_listeners && final(watching).no_drop_listeners_waker == old(watching).no_drop_listeners_waker,
        !ended ==> final(watching).no_drop_listeners_waker && final(watching).drop_listeners == old(
            watching,
        ).drop_listeners,
        final(watching).channel_details == old(watching).channel_details,
        final(watching).peer_address == old(watching).peer_address,
{
}

/// One round of the event loop over a working stack sends a datagram that the stack puts out as it
/// is, and polls again; it ends where the stack failed or lost ICE, and has no next step where ICE
/// and DTLS come up again. The connection stays as it is.
pub proof fn law_rounds_of_the_loop_send(
    connection: &mut Connection<Open>,
    rtc: &mut RtcStack,
    output: StackOutput,
    r: Option<(RunStep, Progress<OpenEvent>)>,
)
    requires
        call_ensures(Connection::<Open>::run_once, (connection, rtc, output), r),
        old(rtc).inv(),
        old(rtc).alive(),
    ensures
        *final(connection) == *old(connection),
        output matches StackOutput::Transmit { destination, contents } ==> {
            &&& r is Some
            &&& (r->0).0 is Poll
            &&& acts((r->0).1.actions@) == seq![
                Act::Send(
                    if destination.ip == old(rtc).remote().ip && destination.port
                        == old(rtc).remote().port {
                        old(rtc).remote()
                    } else {
                        destination
                    },
                    contents@,
                ),
            ]
        },
        output is Failed || output is IceDisconnected ==> r is Some && (r->0).0 is Closed,
        output is Connected || output is Other ==> r is None,
{
    let (polled, now) = choose|polled: Option<Progress<OpenEvent>>, now: Instant| #[trigger]
        ran(*old(connection), *old(rtc), output, polled, now, *final(rtc), *final(connection), r);
    law_loop_follows_the_stack(
        *old(connection),
        *old(rtc),
        output,
        polled,
        now,
        *final(rtc),
        *final(connection),
        r,
    );
}

} // verus!
