//! Telling datagrams apart.
use str0m::ice::StunMessage;
use str0m::net::DatagramRecv;
use vstd::prelude::*;

use crate::error::Error;

verus! {

/// The attributes of a STUN message on which this module looks.
pub const MESSAGE_INTEGRITY: u16 = 0x0008;

pub const ERROR_CODE: u16 = 0x0009;

pub const XOR_MAPPED_ADDRESS: u16 = 0x0020;

pub const FINGERPRINT: u16 = 0x8028;

/// The length of the header of a STUN message.
pub const STUN_HEADER_LEN: usize = 20;

/// The big-endian number in the two bytes at `i`.
pub open spec fn be16(bytes: Seq<u8>, i: int) -> int {
    bytes[i] * 256 + bytes[i + 1]
}

/// `len` rounded up to the next multiple of four.
pub open spec fn padded(len: int) -> int {
    (len + 3) / 4 * 4
}

/// The bytes from an attribute on hold all that its decoder reads.
pub open spec fn attribute_complete(bytes: Seq<u8>) -> bool {
    let typ = be16(bytes, 0);
    let len = be16(bytes, 2);
    &&& typ == ERROR_CODE ==> len >= 4
    &&& typ == FINGERPRINT ==> bytes.len() >= 8
    &&& typ == XOR_MAPPED_ADDRESS ==> bytes.len() >= 8 && (bytes[5] == 1 ==> bytes.len() >= 12) && (
    bytes[5] == 2 ==> bytes.len() >= 24)
}

/// Every attribute that is read is complete. Behind the message integrity (`sealed`) only the
/// fingerprint is read; an attribute that claims more bytes than there are ends the list.
pub open spec fn attributes_complete(bytes: Seq<u8>, sealed: bool) -> bool
    decreases bytes.len(),
{
    if bytes.len() < 4 || 4 + padded(be16(bytes, 2)) > bytes.len() {
        bytes.len() < 4 || be16(bytes, 2) > bytes.len() - 4 || sealed && be16(bytes, 0)
            != FINGERPRINT || attribute_complete(bytes)
    } else {
        &&& sealed && be16(bytes, 0) != FINGERPRINT || attribute_complete(bytes)
        &&& attributes_complete(
            bytes.skip(4 + padded(be16(bytes, 2))),
            sealed || be16(bytes, 0) == MESSAGE_INTEGRITY,
        )
    }
}

/// A datagram long enough for a STUN header, of which the attributes can be read to their end.
pub open spec fn decodable(datagram: Seq<u8>) -> bool {
    datagram.len() >= STUN_HEADER_LEN && attributes_complete(
        datagram.skip(STUN_HEADER_LEN as int),
        false,
    )
}

/// What `StunMessage::parse` of `str0m` makes of a datagram: nothing, or a STUN message with the
/// two halves of its user name, where it has one.
pub uninterp spec fn stun_message(datagram: Seq<u8>) -> Option<Option<(Seq<char>, Seq<char>)>>;

/// A STUN message, as far as this transport reads it.
#[derive(Debug, PartialEq, Eq)]
pub struct Stun {
    /// The two halves of the user name: the local and the remote `ufrag`.
    pub username: Option<(String, String)>,
}

/// The mathematical form of an optional [`Stun`].
pub open spec fn stun_view(stun: Option<Stun>) -> Option<Option<(Seq<char>, Seq<char>)>> {
    match stun {
        Some(s) => match s.username {
            Some((local, remote)) => Some(Some((local@, remote@))),
            None => Some(None),
        },
        None => None,
    }
}

/// `StunMessage::parse` and `StunMessage::split_username` of `str0m`, which depend on nothing but
/// the datagram. Parsing panics on some attributes whose bytes are not all there and on datagrams
/// shorter than a header.
#[verifier::external_body]
pub(crate) fn parse_stun(datagram: &[u8]) -> (r: Option<Stun>)
    requires
        decodable(datagram@),
    ensures
        stun_view(r) == stun_message(datagram@),
{
    let message = StunMessage::parse(datagram).ok()?;
    let username = message.split_username().map(|(l, r)| (l.to_owned(), r.to_owned()));
    Some(Stun { username })
}

/// A datagram that multiplexes onto the port of a WebRTC connection, by its first byte: a STUN
/// message, DTLS, RTP or RTCP; `is_stun` tells whether it parses as a STUN message.
pub open spec fn recognised(datagram: Seq<u8>, is_stun: bool) -> bool {
    &&& datagram.len() > 0
    &&& if datagram[0] < 2 && datagram.len() >= STUN_HEADER_LEN {
        is_stun
    } else {
        20 <= datagram[0] < 64 || 128 <= datagram[0] < 192 && datagram.len() > 2
    }
}

/// A datagram that has to be a STUN message to be of any use, by its first byte and its length.
pub open spec fn looks_like_stun(datagram: Seq<u8>) -> bool {
    datagram.len() >= STUN_HEADER_LEN && datagram[0] < 2
}

/// A datagram of DTLS, by its first byte.
pub open spec fn is_dtls(datagram: Seq<u8>) -> bool {
    datagram.len() > 0 && 20 <= datagram[0] < 64
}

/// A datagram of audio or video, or of a report on one: RTP or RTCP, by its first byte.
pub open spec fn is_media(datagram: Seq<u8>) -> bool {
    datagram.len() > 2 && 128 <= datagram[0] < 192
}

/// Whether a datagram is one of audio or video, or of a report on one.
pub fn carries_media(datagram: &[u8]) -> (r: bool)
    ensures
        r == is_media(datagram@),
{
    datagram.len() > 2 && 128 <= datagram[0] && datagram[0] < 192
}

/// What `DatagramRecv::try_from` of `str0m` says of a datagram that it does not take, where that
/// looks like STUN.
pub uninterp spec fn stun_rejection(datagram: Seq<u8>) -> Seq<char>;

/// What is said of a datagram that is not taken, given what is said where it looks like STUN.
pub open spec fn rejection(datagram: Seq<u8>, of_stun: Seq<char>) -> Seq<char> {
    if datagram.len() == 0 {
        "Empty datagram"@
    } else if datagram[0] < 2 && datagram.len() >= STUN_HEADER_LEN {
        of_stun
    } else {
        "Unknown datagram"@
    }
}

/// `DatagramRecv::try_from` of `str0m`: takes what it can multiplex, and of what looks like STUN
/// what `StunMessage::parse` takes, and says what is wrong with anything else; it panics where
/// `StunMessage::parse` does.
#[verifier::external_body]
pub(crate) fn take_datagram(datagram: &[u8]) -> (r: Result<(), String>)
    requires
        looks_like_stun(datagram@) ==> decodable(datagram@),
    ensures
        r is Ok == recognised(datagram@, stun_message(datagram@) is Some),
        r matches Err(text) ==> text@ == rejection(datagram@, stun_rejection(datagram@)),
{
    DatagramRecv::try_from(datagram).map(|_| ()).map_err(|e| e.to_string())
}

/// Whether the WebRTC stack takes a datagram, as an error where it does not.
pub fn check_datagram(datagram: &[u8]) -> (r: Result<(), Error>)
    requires
        looks_like_stun(datagram@) ==> decodable(datagram@),
    ensures
        r is Ok == recognised(datagram@, stun_message(datagram@) is Some),
        r is Err ==> (r matches Err(Error::Net(text)) && text@ == rejection(datagram@, stun_rejection(datagram@))),
{
    match take_datagram(datagram) {
        Ok(()) => Ok(()),
        Err(text) => Err(Error::Net(text)),
    }
}

/// Whether a datagram looks like a STUN message.
pub fn is_stun_packet(bytes: &[u8]) -> (r: bool)
    ensures
        r == looks_like_stun(bytes@),
{
    // 20 bytes for the header, then follows attributes.
    bytes.len() >= 20 && bytes[0] < 2
}

fn read_be16(bytes: &[u8], i: usize) -> (r: usize)
    requires
        i + 1 < bytes@.len(),
    ensures
        r == be16(bytes@, i as int),
{
    bytes[i] as usize * 256 + bytes[i + 1] as usize
}

/// Whether a STUN message can be read to its end.
pub fn is_decodable(datagram: &[u8]) -> (r: bool)
    ensures
        r == decodable(datagram@),
{
    if datagram.len() < STUN_HEADER_LEN {
        return false;
    }
    let mut at: usize = STUN_HEADER_LEN;
    let mut sealed: bool = false;
    loop
        invariant
            STUN_HEADER_LEN <= at <= datagram@.len(),
            decodable(datagram@) == attributes_complete(datagram@.skip(at as int), sealed),
        decreases datagram@.len() - at,
    {
        let ghost rest = datagram@.skip(at as int);
        if datagram.len() - at < 4 {
            return true;
        }
        let typ: usize = read_be16(datagram, at);
        let len: usize = read_be16(datagram, at + 2);
        assert(typ == be16(rest, 0));
        assert(len == be16(rest, 2));
        let left: usize = datagram.len() - at;
        let family: u8 = if left >= 8 {
            datagram[at + 5]
        } else {
            0
        };
        let complete = !(typ == ERROR_CODE as usize && len < 4) && !(typ == FINGERPRINT as usize
            && left < 8) && !(typ == XOR_MAPPED_ADDRESS as usize && (left < 8 || family == 1 && left
            < 12 || family == 2 && left < 24));
        assert(complete == attribute_complete(rest));
        let skipped = sealed && typ != FINGERPRINT as usize;
        let step: usize = 4 + (len + 3) / 4 * 4;
        if step > left {
            return len > left - 4 || skipped || complete;
        }
        if !skipped && !complete {
            return false;
        }
        sealed = sealed || typ == MESSAGE_INTEGRITY as usize;
        at = at + step;
        assert(datagram@.skip(at as int) =~= rest.skip(step as int));
    }
}

/// What a datagram from an endpoint without an open connection is good for.
#[derive(Debug, PartialEq, Eq)]
pub enum Datagram {
    /// For nothing.
    Invalid,
    /// To open a connection: a STUN message, with the two halves of its user name.
    Stun { local: String, remote: String },
    /// For a connection that is opening already.
    NotStun,
}

/// The mathematical form of [`Datagram`].
pub enum Kind {
    Invalid,
    Stun(Seq<char>, Seq<char>),
    NotStun,
}

impl View for Datagram {
    type V = Kind;

    open spec fn view(&self) -> Kind {
        match *self {
            Datagram::Invalid => Kind::Invalid,
            Datagram::Stun { local, remote } => Kind::Stun(local@, remote@),
            Datagram::NotStun => Kind::NotStun,
        }
    }
}

/// The kind of a datagram, given the STUN message that it parses as, if it does: what cannot be
/// multiplexed and STUN without a user name is invalid.
pub open spec fn datagram_kind(
    datagram: Seq<u8>,
    message: Option<Option<(Seq<char>, Seq<char>)>>,
) -> Kind {
    if !recognised(datagram, message is Some) {
        Kind::Invalid
    } else {
        match message {
            None => Kind::NotStun,
            Some(None) => Kind::Invalid,
            Some(Some((local, remote))) => Kind::Stun(local, remote),
        }
    }
}

/// The STUN message in a datagram; none, where it cannot be read to its end.
pub open spec fn readable_stun(datagram: Seq<u8>) -> Option<Option<(Seq<char>, Seq<char>)>> {
    if decodable(datagram) {
        stun_message(datagram)
    } else {
        None
    }
}

/// The kind of a datagram, given whether the WebRTC stack takes it and the STUN message that it
/// parses as.
pub fn classify(taken: bool, message: Option<Stun>) -> (r: Datagram)
    ensures
        r@ == (if !taken {
            Kind::Invalid
        } else {
            match stun_view(message) {
                None => Kind::NotStun,
                Some(None) => Kind::Invalid,
                Some(Some((local, remote))) => Kind::Stun(local, remote),
            }
        }),
{
    if !taken {
        return Datagram::Invalid;
    }
    match message {
        None => Datagram::NotStun,
        Some(stun) => match stun.username {
            Some((local, remote)) => Datagram::Stun { local, remote },
            None => Datagram::Invalid,
        },
    }
}

/// Tells what a datagram is good for.
///
/// A datagram that cannot be read to its end is no STUN message.
pub fn classify_datagram(datagram: &[u8]) -> (r: Datagram)
    ensures
        r@ == datagram_kind(datagram@, readable_stun(datagram@)),
{
    if datagram.is_empty() {
        return Datagram::Invalid;
    }
    let decodable = is_decodable(datagram);
    if is_stun_packet(datagram) && !decodable {
        return Datagram::Invalid;
    }
    let message = if decodable {
        parse_stun(datagram)
    } else {
        None
    };
    classify(check_datagram(datagram).is_ok(), message)
}

/// A datagram opens a connection only if it starts as STUN or DTLS or RTP traffic does and parses
/// as a STUN message with a user name.
pub proof fn law_only_stun_opens(datagram: Seq<u8>)
    ensures
        datagram_kind(datagram, readable_stun(datagram)) is Stun ==> {
            &&& decodable(datagram)
            &&& stun_message(datagram) is Some
            &&& stun_message(datagram)->0 is Some
            &&& datagram[0] < 2 || 20 <= datagram[0] < 64 || 128 <= datagram[0] < 192
        },
        datagram.len() == 0 ==> datagram_kind(datagram, readable_stun(datagram)) is Invalid,
{
}

/// What a datagram is good for is told by its first byte, its length and the STUN message in it,
/// where it can be read: with a user name it opens a connection, under the halves of that name;
/// without one it is good for nothing, as is what cannot be multiplexed. DTLS and media that are no
/// STUN message are for a connection that is opening.
pub proof fn law_kinds_of_datagrams(datagram: Seq<u8>, local: Seq<char>, remote: Seq<char>)
    requires
        datagram.len() > 0,
    ensures
        ({
            let kind = datagram_kind(datagram, readable_stun(datagram));
            let stun = datagram.len() >= 20 && datagram[0] < 2;
            let dtls = 20 <= datagram[0] < 64;
            let media = 128 <= datagram[0] < 192 && datagram.len() > 2;
            let readable = decodable(datagram) && stun_message(datagram) is Some;
            &&& kind == Kind::Stun(local, remote) <==> (stun || dtls || media) && decodable(datagram)
                && stun_message(datagram) == Some(Some((local, remote)))
            &&& kind is NotStun <==> (dtls || media) && !readable
            &&& kind is Invalid <==> !(stun || dtls || media) || readable && stun_message(datagram)
                == Some(None::<(Seq<char>, Seq<char>)>) || stun && !readable
        }),
{
}

/// A datagram is taken for DTLS or media by its first byte alone, but for a length of three bytes at
/// least that media has; nothing is taken for both, and nothing that looks like STUN for either.
pub proof fn law_first_byte_tells_datagrams_apart(datagram: Seq<u8>)
    ensures
        is_dtls(datagram) <==> datagram.len() >= 1 && 20 <= datagram[0] <= 63,
        is_media(datagram) <==> datagram.len() >= 3 && 128 <= datagram[0] <= 191,
        looks_like_stun(datagram) <==> datagram.len() >= 20 && datagram[0] <= 1,
        recognised(datagram, true) <==> is_dtls(datagram) || is_media(datagram) || looks_like_stun(
            datagram,
        ),
        recognised(datagram, false) <==> is_dtls(datagram) || is_media(datagram),
        !(is_dtls(datagram) && is_media(datagram)),
        looks_like_stun(datagram) ==> !is_dtls(datagram) && !is_media(datagram),
{
}

/// What is said of a datagram that is not taken: that it is empty, what is wrong with it as STUN,
/// where it looks like that, and else that it is not known.
pub proof fn law_rejections_say_why(datagram: Seq<u8>, of_stun: Seq<char>)
    ensures
        datagram.len() == 0 ==> rejection(datagram, of_stun) == "Empty datagram"@,
        datagram.len() >= 20 && datagram[0] < 2 ==> rejection(datagram, of_stun) == of_stun,
        0 < datagram.len() < 20 || datagram.len() > 0 && datagram[0] >= 2 ==> rejection(
            datagram,
            of_stun,
        ) == "Unknown datagram"@,
{
}

/// Reading a STUN message goes attribute by attribute behind its header of twenty bytes. There, an
/// error code of less than four bytes, and a fingerprint or a mapped address of which not all is
/// there, cannot be read; an attribute that claims more bytes than there are ends the message; and
/// any other, but for the message integrity, is stepped over with its padding.
pub proof fn law_attributes_are_read_one_by_one(datagram: Seq<u8>)
    ensures
        datagram.len() < 20 ==> !decodable(datagram),
        20 <= datagram.len() < 24 ==> decodable(datagram),
        datagram.len() >= 24 ==> {
            let typ = datagram[20] * 256 + datagram[21];
            let len = datagram[22] * 256 + datagram[23];
            let step = 4 + len + (4 - len % 4) % 4;
            &&& 24 + len > datagram.len() ==> decodable(datagram)
            &&& 24 + len <= datagram.len() && typ == 0x0009 && len < 4 ==> !decodable(datagram)
            &&& 24 + len <= datagram.len() && typ == 0x8028 && datagram.len() < 28 ==> !decodable(
                datagram,
            )
            &&& 24 + len <= datagram.len() && typ == 0x0020 && (datagram.len() < 28 || datagram[25]
                == 1 && datagram.len() < 32 || datagram[25] == 2 && datagram.len() < 44)
                ==> !decodable(datagram)
            &&& 20 + step <= datagram.len() && typ != 0x0008 && typ != 0x0009 && typ != 0x0020 && typ
                != 0x8028 ==> decodable(datagram) == decodable(
                datagram.take(20) + datagram.skip(20 + step),
            )
        },
{
    if datagram.len() >= 20 {
        let rest = datagram.skip(20);
        if datagram.len() >= 24 {
            assert(rest[0] == datagram[20] && rest[1] == datagram[21]);
            assert(rest[2] == datagram[22] && rest[3] == datagram[23]);
            let len = datagram[22] * 256 + datagram[23];
            let step = 4 + len + (4 - len % 4) % 4;
            assert(step == 4 + padded(len));
            assert(rest.len() >= 8 ==> rest[5] == datagram[25]);
            if 20 + step <= datagram.len() {
                let shorter = datagram.take(20) + datagram.skip(20 + step);
                assert(shorter.skip(20) =~= rest.skip(step));
            }
        }
    }
}

/// Behind the message integrity nothing but the fingerprint is read: any other attribute there is
/// stepped over with its padding, whatever it holds.
pub proof fn law_nothing_is_read_behind_the_seal(datagram: Seq<u8>, at: int)
    requires
        24 <= at,
        at + 4 <= datagram.len(),
        datagram[20] * 256 + datagram[21] == 0x0008,
        ({
            let len = datagram[22] * 256 + datagram[23];
            at == 24 + len + (4 - len % 4) % 4
        }),
        datagram[at] * 256 + datagram[at + 1] != 0x8028,
    ensures
        ({
            let len = datagram[at + 2] * 256 + datagram[at + 3];
            let step = 4 + len + (4 - len % 4) % 4;
            &&& at + step > datagram.len() ==> decodable(datagram)
            &&& at + step <= datagram.len() ==> decodable(datagram) == decodable(
                datagram.take(at) + datagram.skip(at + step),
            )
        }),
{
    let rest = datagram.skip(20);
    assert(rest[0] == datagram[20] && rest[1] == datagram[21]);
    assert(rest[2] == datagram[22] && rest[3] == datagram[23]);
    let first = datagram[22] * 256 + datagram[23];
    assert(at - 20 == 4 + padded(first));
    let sealed = rest.skip(at - 20);
    assert(sealed =~= datagram.skip(at));
    assert(sealed[0] == datagram[at] && sealed[1] == datagram[at + 1]);
    assert(sealed[2] == datagram[at + 2] && sealed[3] == datagram[at + 3]);
    let len = datagram[at + 2] * 256 + datagram[at + 3];
    let step = 4 + len + (4 - len % 4) % 4;
    assert(step == 4 + padded(len));
    assert(attributes_complete(rest, false) == attributes_complete(sealed, true));
    if at + step <= datagram.len() {
        let shorter = datagram.take(at) + datagram.skip(at + step);
        let left = shorter.skip(20);
        assert(left[0] == rest[0] && left[1] == rest[1] && left[2] == rest[2] && left[3] == rest[3]);
        assert(left.skip(at - 20) =~= sealed.skip(step));
        assert(attributes_complete(sealed, true) == attributes_complete(sealed.skip(step), true));
        assert(attributes_complete(left, false) == attributes_complete(left.skip(at - 20), true));
    }
}

/// What a datagram is good for is told from the datagram alone: as STUN by the halves of the user
/// name in it, the local one first; and whether the WebRTC stack takes it, by its first byte and, where
/// that is STUN's, by whether it parses.
pub proof fn law_datagrams_are_classified(
    bytes: &[u8],
    kind: Datagram,
    checked: Result<(), Error>,
)
    requires
        call_ensures(classify_datagram, (bytes,), kind),
        call_ensures(check_datagram, (bytes,), checked),
    ensures
        kind matches Datagram::Stun { local, remote } ==> decodable(bytes@) && stun_message(bytes@)
            == Some(Some((local@, remote@))),
        bytes@.len() >= 20 && bytes@[0] < 2 && decodable(bytes@) && stun_message(bytes@) is Some
            && stun_message(bytes@)->0 is Some ==> kind is Stun,
        bytes@.len() > 0 && 20 <= bytes@[0] < 64 && !decodable(bytes@) ==> kind is NotStun,
        bytes@.len() == 0 ==> kind is Invalid && checked is Err,
        bytes@.len() > 0 && 20 <= bytes@[0] < 64 ==> checked is Ok,
        bytes@.len() > 2 && 128 <= bytes@[0] < 192 ==> checked is Ok,
        bytes@.len() >= 20 && bytes@[0] < 2 ==> checked is Ok == stun_message(bytes@) is Some,
        checked is Err ==> (checked matches Err(Error::Net(_))),
{
}

} // verus!
