//! Module concerning WebRTC Data Channels.
//! Each Channel has an Id and a State.
use std::collections::HashMap;

use bytes::BytesMut;
use vstd::prelude::*;
use vstd::std_specs::hash::*;

use crate::buffer::{append, buffer_len, drain_front, empty_buffer, MAX_BUFFERED};

verus! {

broadcast use {vstd::std_specs::hash::group_hash_axioms, vstd::map::group_map_axioms};

/// The number of a data channel within its connection.
pub type ChannelId = u64;

/// Channel state.
#[derive(Clone, Copy, Debug, PartialEq, Eq, Structural)]
pub enum RtcDataChannelState {
    /// Channel is opening.
    Opening,
    /// Channel is open.
    Open,
    /// Channel is closed.
    Closed,
}

/// What is known of one channel.
pub struct ChannelDetails {
    /// The current state of the channel.
    pub state: RtcDataChannelState,
    /// Incoming data, stored until somebody reads it.
    pub read_buffer: BytesMut,
}

/// The mathematical form of [`ChannelDetails`].
pub struct Details {
    pub state: RtcDataChannelState,
    pub bytes: Seq<u8>,
}

impl View for ChannelDetails {
    type V = Details;

    open spec fn view(&self) -> Details {
        Details { state: self.state, bytes: crate::buffer::buffered(self.read_buffer) }
    }
}

/// What changed on a channel.
#[derive(Debug, PartialEq, Eq)]
pub enum StateValues {
    /// The state of the channel.
    RtcState(RtcDataChannelState),
    /// Data that arrived on the channel.
    ReadBuffer(Vec<u8>),
}

/// State Update, includes the channel id and what changed.
#[derive(Debug, PartialEq, Eq)]
pub struct StateUpdate {
    /// The channel that changed.
    pub channel_id: ChannelId,
    /// What changed.
    pub state: StateValues,
}

/// What is asked of a channel.
#[derive(Clone, Copy, Debug, PartialEq, Eq, Structural)]
pub enum InquiryType {
    /// Its state.
    State,
    /// Data that arrived on it, at most so many bytes.
    ReadBuffer { max_bytes: usize },
}

/// A question about a channel.
#[derive(Clone, Copy, Debug, PartialEq, Eq, Structural)]
pub struct Inquiry {
    /// The channel we want to know about.
    pub channel_id: Option<ChannelId>,
    /// What we want to know.
    pub ty: InquiryType,
}

/// The answer to an [`Inquiry`].
#[derive(Debug, PartialEq, Eq)]
pub enum Reply {
    /// The state of the channel.
    State(RtcDataChannelState),
    /// Data that arrived on the channel.
    ReadBuffer(Vec<u8>),
}

/// The mathematical form of [`Reply`].
pub enum Answer {
    State(RtcDataChannelState),
    Bytes(Seq<u8>),
}

impl View for Reply {
    type V = Answer;

    open spec fn view(&self) -> Answer {
        match *self {
            Reply::State(state) => Answer::State(state),
            Reply::ReadBuffer(bytes) => Answer::Bytes(bytes@),
        }
    }
}

/// The details of a channel after what `values` reports of it.
pub open spec fn changed(details: Details, values: StateValues) -> Details {
    match values {
        StateValues::RtcState(state) => Details { state, ..details },
        StateValues::ReadBuffer(data) => Details { bytes: details.bytes + data@, ..details },
    }
}

/// All channels after `update`.
pub open spec fn updated(channels: Map<ChannelId, Details>, update: StateUpdate) -> Map<
    ChannelId,
    Details,
> {
    channels.insert(update.channel_id, changed(channels[update.channel_id], update.state))
}

/// The channel of `update` is one of `channels`, and has room for data that arrived on it.
pub open spec fn has_room(channels: Map<ChannelId, Details>, update: StateUpdate) -> bool {
    &&& channels.dom().contains(update.channel_id)
    &&& update.state matches StateValues::ReadBuffer(data)
        ==> channels[update.channel_id].bytes.len() + data@.len() <= MAX_BUFFERED
}

/// The channel that `inquiry` is about is one of `channels`.
pub open spec fn concerns(channels: Map<ChannelId, Details>, inquiry: Inquiry) -> bool {
    inquiry.channel_id is Some && channels.dom().contains(inquiry.channel_id->0)
}

/// The answer to `inquiry`: of an unknown channel, that it is closed and has no data.
pub open spec fn answer(channels: Map<ChannelId, Details>, inquiry: Inquiry) -> Answer {
    match inquiry.ty {
        InquiryType::State => if concerns(channels, inquiry) {
            Answer::State(channels[inquiry.channel_id->0].state)
        } else {
            Answer::State(RtcDataChannelState::Closed)
        },
        InquiryType::ReadBuffer { max_bytes } => if concerns(channels, inquiry) {
            let bytes = channels[inquiry.channel_id->0].bytes;
            Answer::Bytes(bytes.take(crate::buffer::at_most(bytes.len(), max_bytes as nat) as int))
        } else {
            Answer::Bytes(Seq::empty())
        },
    }
}

/// All channels after `inquiry` was answered: data that was handed out is gone.
pub open spec fn answered(channels: Map<ChannelId, Details>, inquiry: Inquiry) -> Map<
    ChannelId,
    Details,
> {
    match inquiry.ty {
        InquiryType::State => channels,
        InquiryType::ReadBuffer { max_bytes } => if concerns(channels, inquiry) {
            let details = channels[inquiry.channel_id->0];
            let taken = crate::buffer::at_most(details.bytes.len(), max_bytes as nat) as int;
            channels.insert(
                inquiry.channel_id->0,
                Details { bytes: details.bytes.skip(taken), ..details },
            )
        } else {
            channels
        },
    }
}

/// All channels once the answer to `inquiry` was sent: a channel is forgotten when its asker was
/// told that it is closed.
pub open spec fn settled(
    channels: Map<ChannelId, Details>,
    inquiry: Inquiry,
    delivered: bool,
) -> Map<ChannelId, Details> {
    if inquiry.ty is State && delivered && concerns(channels, inquiry)
        && channels[inquiry.channel_id->0].state == RtcDataChannelState::Closed {
        channels.remove(inquiry.channel_id->0)
    } else {
        channels
    }
}

/// The channels of a connection.
pub struct ChannelTable {
    channels: HashMap<ChannelId, ChannelDetails>,
}

impl View for ChannelTable {
    type V = Map<ChannelId, Details>;

    closed spec fn view(&self) -> Map<ChannelId, Details> {
        self.channels@.map_values(|d: ChannelDetails| d@)
    }
}

impl ChannelTable {
    /// A table without channels.
    pub fn new() -> (r: ChannelTable)
        ensures
            r@ == Map::<ChannelId, Details>::empty(),
    {
        let r = ChannelTable { channels: HashMap::new() };
        assert(r@ =~= Map::<ChannelId, Details>::empty());
        r
    }

    /// Whether the channel is known.
    pub fn contains(&self, channel_id: ChannelId) -> (r: bool)
        ensures
            r == self@.dom().contains(channel_id),
    {
        self.channels.contains_key(&channel_id)
    }

    /// The state of the channel, where it is known.
    pub fn state(&self, channel_id: ChannelId) -> (r: Option<RtcDataChannelState>)
        ensures
            match r {
                Some(state) => self@.dom().contains(channel_id) && self@[channel_id].state == state,
                None => !self@.dom().contains(channel_id),
            },
    {
        match self.channels.get(&channel_id) {
            Some(details) => Some(details.state),
            None => None,
        }
    }

    /// Enters a channel that is opening and has no data yet.
    pub fn open_channel(&mut self, channel_id: ChannelId)
        ensures
            final(self)@ == old(self)@.insert(
                channel_id,
                (Details { state: RtcDataChannelState::Opening, bytes: Seq::empty() }),
            ),
    {
        let details = ChannelDetails {
            state: RtcDataChannelState::Opening,
            read_buffer: empty_buffer(),
        };
        self.channels.insert(channel_id, details);
        assert(self@ =~= old(self)@.insert(
            channel_id,
            (Details { state: RtcDataChannelState::Opening, bytes: Seq::empty() }),
        ));
    }

    /// Whether a channel can be updated: it has to be in the table, and to have room for data.
    pub fn can_update(&self, update: &StateUpdate) -> (r: bool)
        ensures
            r == has_room(self@, *update),
    {
        match self.channels.get(&update.channel_id) {
            None => false,
            Some(details) => match &update.state {
                StateValues::RtcState(_) => true,
                StateValues::ReadBuffer(data) => {
                    let held: usize = buffer_len(&details.read_buffer);
                    held <= MAX_BUFFERED && data.len() <= MAX_BUFFERED - held
                },
            },
        }
    }

    /// Updates a channel, which has to be in the table.
    pub fn on_update(&mut self, update: StateUpdate)
        requires
            has_room(old(self)@, update),
        ensures
            final(self)@ == updated(old(self)@, update),
    {
        let id: ChannelId = update.channel_id;
        if let Some(mut details) = self.channels.remove(&id) {
            match update.state {
                StateValues::RtcState(state) => {
                    details.state = state;
                },
                StateValues::ReadBuffer(data) => {
                    append(&mut details.read_buffer, data.as_slice());
                },
            }
            self.channels.insert(id, details);
        }
        assert(self@ =~= updated(old(self)@, update));
    }

    /// Answers a question about a channel.
    ///
    /// Of a channel that is not in the table the answer is that it is closed and has no data.
    pub fn on_inquiry(&mut self, inquiry: Inquiry) -> (r: Reply)
        ensures
            r@ == answer(old(self)@, inquiry),
            final(self)@ == answered(old(self)@, inquiry),
    {
        match inquiry.ty {
            InquiryType::State => {
                let state = match inquiry.channel_id {
                    Some(id) => self.state(id),
                    None => None,
                };
                match state {
                    Some(state) => Reply::State(state),
                    None => Reply::State(RtcDataChannelState::Closed),
                }
            },
            InquiryType::ReadBuffer { max_bytes } => {
                let id: ChannelId = match inquiry.channel_id {
                    Some(id) => id,
                    None => {
                        return Reply::ReadBuffer(Vec::new());
                    },
                };
                match self.channels.remove(&id) {
                    Some(mut details) => {
                        let bytes = drain_front(&mut details.read_buffer, max_bytes);
                        self.channels.insert(id, details);
                        assert(self@ =~= answered(old(self)@, inquiry));
                        Reply::ReadBuffer(bytes)
                    },
                    None => {
                        assert(self@ =~= old(self)@);
                        Reply::ReadBuffer(Vec::new())
                    },
                }
            },
        }
    }

    /// To be called after the answer to `inquiry` was sent, with whether it was `delivered`.
    pub fn on_reply_sent(&mut self, inquiry: Inquiry, delivered: bool)
        ensures
            final(self)@ == settled(old(self)@, inquiry, delivered),
    {
        if let InquiryType::State = inquiry.ty {
            if let Some(id) = inquiry.channel_id {
                if delivered && self.state(id) == Some(RtcDataChannelState::Closed) {
                    self.channels.remove(&id);
                    assert(self@ =~= settled(old(self)@, inquiry, delivered));
                }
            }
        }
    }
}

/// Data comes out in the order in which it went in, nothing lost and nothing twice: what a reader
/// is handed and what is then left over make up what was there and what arrived.
pub proof fn law_read_gives_back_what_arrived(
    channels: Map<ChannelId, Details>,
    id: ChannelId,
    data: Vec<u8>,
    max_bytes: usize,
)
    requires
        channels.dom().contains(id),
    ensures
        ({
            let arrived = updated(
                channels,
                (StateUpdate { channel_id: id, state: StateValues::ReadBuffer(data) }),
            );
            let inquiry = Inquiry {
                channel_id: Some(id),
                ty: InquiryType::ReadBuffer { max_bytes },
            };
            &&& answer(arrived, inquiry) matches Answer::Bytes(out)
            &&& out + answered(arrived, inquiry)[id].bytes == channels[id].bytes + data@
            &&& out.len() == crate::buffer::at_most(
                (channels[id].bytes + data@).len(),
                max_bytes as nat,
            )
            &&& answered(arrived, inquiry)[id].state == channels[id].state
        }),
{
    let all = channels[id].bytes + data@;
    let n = crate::buffer::at_most(all.len(), max_bytes as nat) as int;
    assert(all.take(n) + all.skip(n) =~= all);
}

/// Two reads hand out what one larger read would.
pub proof fn law_reads_compose(
    channels: Map<ChannelId, Details>,
    id: ChannelId,
    first: usize,
    second: usize,
)
    requires
        first + second <= usize::MAX,
    ensures
        ({
            let ask1 = Inquiry {
                channel_id: Some(id),
                ty: InquiryType::ReadBuffer { max_bytes: first },
            };
            let ask2 = Inquiry {
                channel_id: Some(id),
                ty: InquiryType::ReadBuffer { max_bytes: second },
            };
            let both = Inquiry {
                channel_id: Some(id),
                ty: InquiryType::ReadBuffer { max_bytes: (first + second) as usize },
            };
            &&& answer(channels, both)->Bytes_0 == answer(channels, ask1)->Bytes_0 + answer(
                answered(channels, ask1),
                ask2,
            )->Bytes_0
            &&& answered(channels, both) == answered(answered(channels, ask1), ask2)
        }),
{
    let ask1 = Inquiry { channel_id: Some(id), ty: InquiryType::ReadBuffer { max_bytes: first } };
    let ask2 = Inquiry { channel_id: Some(id), ty: InquiryType::ReadBuffer { max_bytes: second } };
    let both = Inquiry {
        channel_id: Some(id),
        ty: InquiryType::ReadBuffer { max_bytes: (first + second) as usize },
    };
    if channels.dom().contains(id) {
        let bytes = channels[id].bytes;
        let n1 = crate::buffer::at_most(bytes.len(), first as nat) as int;
        let rest = bytes.skip(n1);
        let n2 = crate::buffer::at_most(rest.len(), second as nat) as int;
        let n = crate::buffer::at_most(bytes.len(), (first + second) as nat) as int;
        assert(n == n1 + n2);
        assert(bytes.take(n) =~= bytes.take(n1) + rest.take(n2));
        assert(bytes.skip(n) =~= rest.skip(n2));
        assert(answered(channels, both) =~= answered(answered(channels, ask1), ask2));
    } else {
        assert(Seq::<u8>::empty() =~= Seq::<u8>::empty() + Seq::<u8>::empty());
    }
}

/// Who was told that a channel is closed is told so again, whether or not the first answer was
/// delivered and the channel forgotten.
pub proof fn law_closed_stays_closed(
    channels: Map<ChannelId, Details>,
    inquiry: Inquiry,
    delivered: bool,
)
    requires
        inquiry.ty is State,
        answer(channels, inquiry) == Answer::State(RtcDataChannelState::Closed),
    ensures
        answer(settled(answered(channels, inquiry), inquiry, delivered), inquiry) == Answer::State(
            RtcDataChannelState::Closed,
        ),
{
}

/// Updates and inquiries about one channel leave every other channel as it is.
pub proof fn law_channels_are_independent(
    channels: Map<ChannelId, Details>,
    update: StateUpdate,
    inquiry: Inquiry,
    delivered: bool,
    other: ChannelId,
)
    requires
        channels.dom().contains(other),
    ensures
        other != update.channel_id ==> updated(channels, update).dom().contains(other) && updated(
            channels,
            update,
        )[other] == channels[other],
        inquiry.channel_id != Some(other) ==> answered(channels, inquiry).dom().contains(other)
            && answered(channels, inquiry)[other] == channels[other],
        inquiry.channel_id != Some(other) ==> settled(channels, inquiry, delivered).dom().contains(
            other,
        ) && settled(channels, inquiry, delivered)[other] == channels[other],
{
}

/// What is reported of a channel is what an inquiry then finds: a new state is answered, and leaves
/// the data alone; data that arrived comes behind what was there, and leaves the state alone. Both
/// leave the channel in the table.
pub proof fn law_updates_are_found(
    channels: Map<ChannelId, Details>,
    id: ChannelId,
    state: RtcDataChannelState,
    data: Vec<u8>,
)
    ensures
        ({
            let moved = updated(
                channels,
                (StateUpdate { channel_id: id, state: StateValues::RtcState(state) }),
            );
            let filled = updated(
                channels,
                (StateUpdate { channel_id: id, state: StateValues::ReadBuffer(data) }),
            );
            let inquiry = Inquiry { channel_id: Some(id), ty: InquiryType::State };
            &&& moved.dom().contains(id) && filled.dom().contains(id)
            &&& answer(moved, inquiry) == Answer::State(state)
            &&& moved[id].bytes == channels[id].bytes
            &&& answer(filled, inquiry) == Answer::State(channels[id].state)
            &&& filled[id].bytes == channels[id].bytes + data@
        }),
{
}

/// Of a channel that is not in the table, or of none at all, the answer is that it is closed and has
/// no data. Asking changes nothing, but for data that was handed out.
pub proof fn law_unknown_channels_are_closed(
    channels: Map<ChannelId, Details>,
    id: Option<ChannelId>,
    max_bytes: usize,
)
    requires
        id matches Some(n) ==> !channels.dom().contains(n),
    ensures
        ({
            let state = Inquiry { channel_id: id, ty: InquiryType::State };
            let data = Inquiry { channel_id: id, ty: InquiryType::ReadBuffer { max_bytes } };
            &&& answer(channels, state) == Answer::State(RtcDataChannelState::Closed)
            &&& answer(channels, data) == Answer::Bytes(Seq::<u8>::empty())
            &&& answered(channels, state) == channels
            &&& answered(channels, data) == channels
            &&& settled(channels, state, true) == channels
        }),
{
}

/// A channel is forgotten exactly when its asker was told that it is closed, and not before the
/// answer was delivered; every other stays in the table as it is.
pub proof fn law_only_closed_channels_are_forgotten(
    channels: Map<ChannelId, Details>,
    inquiry: Inquiry,
    delivered: bool,
    id: ChannelId,
)
    requires
        channels.dom().contains(id),
    ensures
        settled(channels, inquiry, delivered).dom().contains(id) <==> !(delivered
            && inquiry.channel_id == Some(id) && inquiry.ty == InquiryType::State
            && channels[id].state == RtcDataChannelState::Closed),
        settled(channels, inquiry, delivered).dom().contains(id) ==> settled(
            channels,
            inquiry,
            delivered,
        )[id] == channels[id],
        answered(channels, inquiry).dom() == channels.dom(),
        answered(channels, inquiry)[id].state == channels[id].state,
{
    assert(answered(channels, inquiry).dom() =~= channels.dom());
}

/// Data that is asked for is the first that is there, as many bytes as are wanted at most, and what
/// is left is the rest.
pub proof fn law_the_first_bytes_are_handed_out(
    channels: Map<ChannelId, Details>,
    id: ChannelId,
    max_bytes: usize,
)
    requires
        channels.dom().contains(id),
    ensures
        ({
            let bytes = channels[id].bytes;
            let inquiry = Inquiry {
                channel_id: Some(id),
                ty: InquiryType::ReadBuffer { max_bytes },
            };
            if bytes.len() <= max_bytes {
                &&& answer(channels, inquiry) == Answer::Bytes(bytes)
                &&& answered(channels, inquiry)[id].bytes == Seq::<u8>::empty()
            } else {
                &&& answer(channels, inquiry) == Answer::Bytes(bytes.take(max_bytes as int))
                &&& answered(channels, inquiry)[id].bytes == bytes.skip(max_bytes as int)
            }
        }),
{
    let bytes = channels[id].bytes;
    assert(bytes.take(bytes.len() as int) =~= bytes);
    assert(bytes.skip(bytes.len() as int) =~= Seq::<u8>::empty());
}

/// A channel can be updated exactly where it is in the table and what arrived still fits: a new
/// state always does, and data as long as no more than a sixteenth of the address space is held.
pub proof fn law_what_fits(
    channels: Map<ChannelId, Details>,
    id: ChannelId,
    state: RtcDataChannelState,
    data: Vec<u8>,
)
    ensures
        has_room(channels, (StateUpdate { channel_id: id, state: StateValues::RtcState(state) }))
            <==> channels.dom().contains(id),
        has_room(channels, (StateUpdate { channel_id: id, state: StateValues::ReadBuffer(data) }))
            <==> channels.dom().contains(id) && channels[id].bytes.len() + data@.len() <= usize::MAX
            / 16,
{
}

/// What is put into a table comes out of it: data that arrived on a channel is read back behind what
/// was there, first in first, and a state that was reported is the one that is answered.
pub proof fn law_tables_give_back_what_was_put_in(
    table: &mut ChannelTable,
    id: ChannelId,
    data: Vec<u8>,
    done: (),
    read: &mut ChannelTable,
    max_bytes: usize,
    reply: Reply,
    other: &mut ChannelTable,
    state: RtcDataChannelState,
    set: (),
    asked: &mut ChannelTable,
    answer: Reply,
)
    requires
        call_ensures(
            ChannelTable::on_update,
            (table, StateUpdate { channel_id: id, state: StateValues::ReadBuffer(data) }),
            done,
        ),
        *old(read) == *final(table),
        call_ensures(
            ChannelTable::on_inquiry,
            (read, Inquiry { channel_id: Some(id), ty: InquiryType::ReadBuffer { max_bytes } }),
            reply,
        ),
        call_ensures(
            ChannelTable::on_update,
            (other, StateUpdate { channel_id: id, state: StateValues::RtcState(state) }),
            set,
        ),
        *old(asked) == *final(other),
        call_ensures(
            ChannelTable::on_inquiry,
            (asked, Inquiry { channel_id: Some(id), ty: InquiryType::State }),
            answer,
        ),
        old(table)@.dom().contains(id),
    ensures
        reply matches Reply::ReadBuffer(out) && out@ + final(read)@[id].bytes == old(
            table,
        )@[id].bytes + data@ && out@.len() <= max_bytes && (out@.len() < max_bytes
            ==> final(read)@[id].bytes.len() == 0),
        answer == Reply::State(state),
{
    law_read_gives_back_what_arrived(old(table)@, id, data, max_bytes);
}

} // verus!
