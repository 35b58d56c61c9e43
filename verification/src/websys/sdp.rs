//! Fingerprints in session descriptions.
use vstd::prelude::*;

use crate::fingerprint::{hex_digit, sdp_format, to_digest, Fingerprint};
use crate::text::{begins_with, chars_of, find, first, is_at, lemma_is_first, occurs_at};

verus! {

/// What the line with a fingerprint starts with.
pub const FINGERPRINT_ATTRIBUTE: &'static str = "a=fingerprint:";

/// A line break is at `i`.
pub open spec fn break_at(s: Seq<char>, i: int) -> bool {
    0 <= i < s.len() - 1 && s[i] == '\r' && s[i + 1] == '\n'
}

/// Where the line that goes on at `from` ends.
pub open spec fn line_end(s: Seq<char>, from: int) -> int
    decreases s.len() - from,
{
    if from >= s.len() {
        s.len() as int
    } else if break_at(s, from) {
        from
    } else {
        line_end(s, from + 1)
    }
}

/// A line ends at the first break or at the end of the text.
proof fn lemma_line_end(s: Seq<char>, from: int)
    requires
        0 <= from <= s.len(),
    ensures
        from <= line_end(s, from) <= s.len(),
        line_end(s, from) < s.len() ==> break_at(s, line_end(s, from)),
        forall|i: int| from <= i < line_end(s, from) ==> !break_at(s, i),
    decreases s.len() - from,
{
    if from < s.len() && !break_at(s, from) {
        lemma_line_end(s, from + 1);
    }
}

/// Where there is no break before one at `at`, the line ends there.
proof fn lemma_is_line_end(s: Seq<char>, from: int, at: int)
    requires
        0 <= from <= at <= s.len(),
        at < s.len() ==> break_at(s, at),
        forall|i: int| from <= i < at ==> !break_at(s, i),
    ensures
        line_end(s, from) == at,
{
    lemma_line_end(s, from);
    let found = line_end(s, from);
    if found < at {
        assert(!break_at(s, found));
    }
}

/// The first line with a fingerprint.
pub open spec fn fingerprint_line(sdp: Seq<char>) -> Option<Seq<char>>
    decreases sdp.len(),
    via fingerprint_line_decreases
{
    let end = line_end(sdp, 0);
    if begins_with(sdp.take(end), FINGERPRINT_ATTRIBUTE@) {
        Some(sdp.take(end))
    } else if end < sdp.len() {
        fingerprint_line(sdp.skip(end + 2))
    } else {
        None
    }
}

#[via_fn]
proof fn fingerprint_line_decreases(sdp: Seq<char>) {
    lemma_line_end(sdp, 0);
}

/// What stands between the first space and the second or the end of the line.
pub open spec fn second_word(line: Seq<char>) -> Option<Seq<char>> {
    let space = first(line, ' ', 0);
    if space < line.len() {
        Some(line.subrange(space + 1, first(line, ' ', space + 1)))
    } else {
        None
    }
}

/// The text without its colons.
pub open spec fn without_colons(s: Seq<char>) -> Seq<char> {
    s.filter(|c: char| c != ':')
}

/// The value of a hexadecimal digit, in upper or lower case.
pub open spec fn hex_value(c: char) -> Option<int> {
    if '0' <= c <= '9' {
        Some(c as int - '0' as int)
    } else if 'A' <= c <= 'F' {
        Some(c as int - 'A' as int + 10)
    } else if 'a' <= c <= 'f' {
        Some(c as int - 'a' as int + 10)
    } else {
        None
    }
}

/// Pairs of hexadecimal digits.
pub open spec fn is_hex(s: Seq<char>) -> bool {
    s.len() % 2 == 0 && forall|i: int| 0 <= i < s.len() ==> hex_value(#[trigger] s[i]) is Some
}

/// The bytes that pairs of hexadecimal digits stand for.
pub open spec fn hex_bytes(s: Seq<char>) -> Seq<u8> {
    Seq::new(
        s.len() / 2,
        |i: int| (16 * hex_value(s[2 * i])->0 + hex_value(s[2 * i + 1])->0) as u8,
    )
}

/// `decode` of `hex`: the bytes that pairs of hexadecimal digits stand for; nothing for any other
/// text.
#[verifier::external_body]
fn hex_decode(text: &str) -> (r: Option<Vec<u8>>)
    ensures
        match r {
            Some(bytes) => is_hex(text@) && bytes@ == hex_bytes(text@),
            None => !is_hex(text@),
        },
{
    hex::decode(text).ok()
}

/// The digest that the text of a fingerprint stands for, with colons anywhere in it.
pub open spec fn digest_of_text(text: Seq<char>) -> Option<Seq<u8>> {
    let digits = without_colons(text);
    if is_hex(digits) && digits.len() == 64 {
        Some(hex_bytes(digits))
    } else {
        None
    }
}

/// The fingerprint in a session description: `None` if there is none, `Some(None)` if the first one
/// cannot be read.
pub open spec fn sdp_digest(sdp: Seq<char>) -> Option<Option<Seq<u8>>> {
    match fingerprint_line(sdp) {
        None => None,
        Some(line) => match second_word(line) {
            None => Some(None),
            Some(text) => Some(digest_of_text(text)),
        },
    }
}

/// What a session description says of a fingerprint.
#[derive(Clone, Copy, Debug, PartialEq, Eq)]
pub enum SdpFingerprint {
    /// Nothing.
    Missing,
    /// Nothing that can be read.
    Malformed,
    /// This.
    Found(Fingerprint),
}

impl View for SdpFingerprint {
    type V = Option<Option<Seq<u8>>>;

    open spec fn view(&self) -> Option<Option<Seq<u8>>> {
        match *self {
            SdpFingerprint::Missing => None,
            SdpFingerprint::Malformed => Some(None),
            SdpFingerprint::Found(fp) => Some(Some(fp@)),
        }
    }
}

/// Reads the text of a fingerprint.
fn read_digest(text: &[char]) -> (r: SdpFingerprint)
    ensures
        r@ == Some(digest_of_text(text@)),
{
    let mut digits = String::new();
    let mut i: usize = 0;
    assert(without_colons(text@.take(0)) =~= Seq::<char>::empty()) by {
        reveal(Seq::filter);
    }
    while i < text.len()
        invariant
            i <= text@.len(),
            digits@ == without_colons(text@.take(i as int)),
        decreases text@.len() - i,
    {
        proof {
            reveal(Seq::filter);
            assert(text@.take(i + 1).drop_last() =~= text@.take(i as int));
        }
        if text[i] != ':' {
            digits.push(text[i]);
        }
        i += 1;
    }
    assert(text@.take(text@.len() as int) =~= text@);
    match hex_decode(digits.as_str()) {
        None => SdpFingerprint::Malformed,
        Some(bytes) => match to_digest(bytes.as_slice()) {
            None => SdpFingerprint::Malformed,
            Some(digest) => SdpFingerprint::Found(Fingerprint::raw(digest)),
        },
    }
}

/// Reads a line with a fingerprint.
fn read_line(line: &[char]) -> (r: SdpFingerprint)
    ensures
        r@ == (match second_word(line@) {
            None => Some(None),
            Some(text) => Some(digest_of_text(text)),
        }),
{
    // get the value after the first space
    let space: usize = find(line, ' ', 0);
    if space == line.len() {
        return SdpFingerprint::Malformed;
    }
    let end: usize = find(line, ' ', space + 1);
    let text = vstd::slice::slice_subrange(line, space + 1, end);
    read_digest(text)
}

/// Finds the fingerprint in a session description.
pub fn find_fingerprint(sdp: &str) -> (r: SdpFingerprint)
    ensures
        r@ == sdp_digest(sdp@),
{
    let text = chars_of(sdp);
    let attribute = chars_of(FINGERPRINT_ATTRIBUTE);
    let mut start: usize = 0;
    let mut at: usize = 0;
    assert(text@.skip(0) =~= text@);
    // iterate through the lines to find the one starting with a=fingerprint:
    loop
        invariant
            attribute@ == FINGERPRINT_ATTRIBUTE@,
            text@ == sdp@,
            start <= at <= text@.len(),
            forall|i: int| 0 <= i < at - start ==> !break_at(text@.skip(start as int), i),
            fingerprint_line(text@.skip(start as int)) == fingerprint_line(sdp@),
        decreases text@.len() - start, text@.len() - at,
    {
        let ghost rest = text@.skip(start as int);
        let at_break = at < text.len() && text[at] == '\r' && at + 1 < text.len() && text[at + 1]
            == '\n';
        assert(at_break == break_at(rest, at - start));
        if !at_break && at < text.len() {
            at += 1;
            continue ;
        }
        proof {
            lemma_is_line_end(rest, 0, at - start);
        }
        let line = vstd::slice::slice_subrange(text.as_slice(), start, at);
        assert(line@ =~= rest.take(at - start));
        if is_at(line, attribute.as_slice(), 0) {
            return read_line(line);
        }
        if at == text.len() {
            return SdpFingerprint::Missing;
        }
        assert(text@.skip(at + 2) =~= rest.skip(at - start + 2));
        start = at + 2;
        at = start;
    }
}

/// Parse Fingerprint from a SDP.
pub fn parse_fingerprint(sdp: &str) -> (r: Option<Fingerprint>)
    requires
        sdp_digest(sdp@) != Some(None::<Seq<u8>>),
    ensures
        match r {
            Some(fp) => sdp_digest(sdp@) == Some(Some(fp@)),
            None => sdp_digest(sdp@) is None,
        },
{
    match find_fingerprint(sdp) {
        SdpFingerprint::Found(fp) => Some(fp),
        _ => None,
    }
}

/// A line break.
pub open spec fn line_break() -> Seq<char> {
    seq!['\r', '\n']
}

/// Lines in front that hold no fingerprint are passed over.
proof fn lemma_lines_in_front(front: Seq<char>, rest: Seq<char>)
    requires
        fingerprint_line(front) is None,
    ensures
        fingerprint_line(front + line_break() + rest) == fingerprint_line(rest),
    decreases front.len(),
{
    let all = front + line_break() + rest;
    let end = line_end(front, 0);
    lemma_line_end(front, 0);
    assert forall|i: int| 0 <= i < end implies !break_at(all, i) by {
        assert(!break_at(front, i));
        assert(all[i] == front[i]);
        if i + 1 < front.len() {
            assert(all[i + 1] == front[i + 1]);
        } else {
            assert(all[i + 1] == '\r');
        }
    }
    assert(break_at(all, end));
    lemma_is_line_end(all, 0, end);
    assert(all.take(end) =~= front.take(end));
    if end < front.len() {
        lemma_lines_in_front(front.skip(end + 2), rest);
        assert(all.skip(end + 2) =~= front.skip(end + 2) + line_break() + rest);
    } else {
        assert(all.skip(end + 2) =~= rest);
    }
}

/// The digits of a digest, without colons.
spec fn digits(digest: Seq<u8>) -> Seq<char> {
    Seq::new(
        2 * digest.len(),
        |i: int|
            if i % 2 == 0 {
                hex_digit(digest[i / 2] as int / 16)
            } else {
                hex_digit(digest[i / 2] as int % 16)
            },
    )
}

proof fn lemma_hex_digit(value: int)
    requires
        0 <= value < 16,
    ensures
        hex_value(hex_digit(value)) == Some(value),
        hex_digit(value) != ':',
        hex_digit(value) != ' ',
        hex_digit(value) != '\r',
{
}

/// Without its first colons, the text of a digest starts with its digits.
proof fn lemma_without_colons(digest: Seq<u8>, n: int)
    requires
        digest.len() > 0,
        0 <= n <= sdp_format(digest).len(),
    ensures
        without_colons(sdp_format(digest).take(n)) == digits(digest).take(n - n / 3),
    decreases n,
{
    reveal(Seq::filter);
    let text = sdp_format(digest);
    if n == 0 {
        assert(digits(digest).take(0) =~= Seq::<char>::empty());
    } else {
        let i = n - 1;
        lemma_without_colons(digest, i);
        assert(text.take(n).drop_last() =~= text.take(i));
        lemma_hex_digit(digest[i / 3] as int / 16);
        lemma_hex_digit(digest[i / 3] as int % 16);
        if i % 3 == 2 {
            assert(n / 3 == i / 3 + 1);
        } else {
            assert(n / 3 == i / 3);
            let j = i - i / 3;
            assert(j / 2 == i / 3);
            assert(j % 2 == i % 3);
            assert(digits(digest)[j] == text[i]);
            assert(digits(digest).take(j + 1) =~= digits(digest).take(j).push(text[i]));
        }
    }
}

/// The text of a digest stands for the digest.
pub proof fn law_digest_text_round_trip(digest: Seq<u8>)
    requires
        digest.len() == 32,
    ensures
        digest_of_text(sdp_format(digest)) == Some(digest),
{
    let text = sdp_format(digest);
    lemma_without_colons(digest, text.len() as int);
    assert(text.take(text.len() as int) =~= text);
    assert(digits(digest).take(64) =~= digits(digest));
    let digits = digits(digest);
    assert(without_colons(text) == digits);
    assert forall|i: int| 0 <= i < digits.len() implies hex_value(#[trigger] digits[i]) is Some by {
        lemma_hex_digit(digest[i / 2] as int / 16);
        lemma_hex_digit(digest[i / 2] as int % 16);
    }
    assert forall|i: int| 0 <= i < 32 implies hex_bytes(digits)[i] == digest[i] by {
        let byte = digest[i] as int;
        lemma_hex_digit(byte / 16);
        lemma_hex_digit(byte % 16);
        assert((2 * i) / 2 == i && (2 * i + 1) / 2 == i);
        assert((2 * i) % 2 == 0 && (2 * i + 1) % 2 == 1);
        assert(16 * (byte / 16) + byte % 16 == byte);
    }
    assert(hex_bytes(digits) =~= digest);
}

/// The fingerprint of a certificate is read back from a session description that gives it in a line
/// of its own, whatever comes behind it, and whatever comes before it as long as that holds no
/// other fingerprint.
pub proof fn law_fingerprint_is_read_back(
    front: Seq<char>,
    algorithm: Seq<char>,
    digest: Seq<u8>,
    rest: Seq<char>,
)
    requires
        digest.len() == 32,
        fingerprint_line(front) is None,
        !algorithm.contains(' '),
        !algorithm.contains('\r'),
    ensures
        sdp_digest(
            front + line_break() + (FINGERPRINT_ATTRIBUTE@ + algorithm + seq![' '] + sdp_format(
                digest,
            ) + line_break() + rest),
        ) == Some(Some(digest)),
{
    reveal_strlit("a=fingerprint:");
    let attribute = FINGERPRINT_ATTRIBUTE@;
    let text = sdp_format(digest);
    let line = attribute + algorithm + seq![' '] + text;
    let behind = line + line_break() + rest;
    assert(behind =~= attribute + algorithm + seq![' '] + text + line_break() + rest);
    lemma_lines_in_front(front, behind);
    let space: int = (attribute.len() + algorithm.len()) as int;
    assert forall|i: int| 0 <= i < text.len() implies text[i] != ' ' && text[i] != '\r' by {
        lemma_hex_digit(digest[i / 3] as int / 16);
        lemma_hex_digit(digest[i / 3] as int % 16);
    }
    assert forall|i: int| 0 <= i < line.len() implies line[i] != '\r' && (line[i] == ' ' <==> i
        == space) by {
        if i < attribute.len() {
            assert(line[i] == attribute[i]);
        } else if i < space {
            assert(line[i] == algorithm[i - attribute.len()]);
            assert(algorithm.contains(line[i]));
        } else if i > space {
            assert(line[i] == text[i - space - 1]);
        }
    }
    assert forall|i: int| 0 <= i < line.len() implies !break_at(behind, i) by {
        assert(behind[i] == line[i]);
    }
    assert(break_at(behind, line.len() as int));
    lemma_is_line_end(behind, 0, line.len() as int);
    assert(behind.take(line.len() as int) =~= line);
    assert(line.subrange(0, attribute.len() as int) =~= attribute);
    lemma_is_first(line, ' ', 0, space);
    lemma_is_first(line, ' ', space + 1, line.len() as int);
    assert(line.subrange(space + 1, line.len() as int) =~= text);
    law_digest_text_round_trip(digest);
}

/// A line starts at `i`.
pub open spec fn line_starts_at(sdp: Seq<char>, i: int) -> bool {
    i == 0 || i >= 2 && break_at(sdp, i - 2)
}

/// A session description has no fingerprint exactly where none of its lines starts with the name of
/// the attribute.
pub proof fn law_fingerprints_are_found_in_any_line(sdp: Seq<char>)
    ensures
        sdp_digest(sdp) is None <==> forall|i: int|
            0 <= i <= sdp.len() && #[trigger] line_starts_at(sdp, i) ==> !occurs_at(
                sdp,
                "a=fingerprint:"@,
                i,
            ),
    decreases sdp.len(),
{
    reveal_strlit("a=fingerprint:");
    let attribute = "a=fingerprint:"@;
    let end = line_end(sdp, 0);
    lemma_line_end(sdp, 0);
    let here = begins_with(sdp.take(end), attribute);
    assert(line_starts_at(sdp, 0));
    if occurs_at(sdp, attribute, 0) {
        assert forall|i: int| 0 <= i < 14 implies sdp[i] == attribute[i] by {
            assert(sdp.subrange(0, 14)[i] == sdp[i]);
        }
        assert(end >= 14);
        assert(sdp.take(end).subrange(0, 14) =~= sdp.subrange(0, 14));
        assert(here);
    }
    if here {
        assert(sdp.take(end).subrange(0, 14) =~= sdp.subrange(0, 14));
        assert(occurs_at(sdp, attribute, 0));
    } else if end < sdp.len() {
        let rest = sdp.skip(end + 2);
        law_fingerprints_are_found_in_any_line(rest);
        assert(fingerprint_line(sdp) == fingerprint_line(rest));
        if sdp_digest(rest) is None {
            assert forall|i: int|
                0 <= i <= sdp.len() && #[trigger] line_starts_at(sdp, i) implies !occurs_at(
                sdp,
                attribute,
                i,
            ) by {
                if i > 0 {
                    assert(break_at(sdp, i - 2));
                    assert(i - 2 >= end);
                    if i - 2 == end + 1 {
                        assert(sdp[end + 1] == '\n');
                    }
                    let j = i - end - 2;
                    if j > 0 {
                        assert(j >= 2);
                        assert(rest[j - 2] == sdp[i - 2] && rest[j - 1] == sdp[i - 1]);
                        assert(break_at(rest, j - 2));
                    }
                    assert(line_starts_at(rest, j));
                    if occurs_at(sdp, attribute, i) {
                        assert(rest.subrange(j, j + 14) =~= sdp.subrange(i, i + 14));
                    }
                }
            }
        } else {
            let j = choose|j: int|
                0 <= j <= rest.len() && #[trigger] line_starts_at(rest, j) && occurs_at(
                    rest,
                    attribute,
                    j,
                );
            let i = j + end + 2;
            if j > 0 {
                assert(rest[j - 2] == sdp[i - 2] && rest[j - 1] == sdp[i - 1]);
            }
            assert(break_at(sdp, i - 2));
            assert(line_starts_at(sdp, i));
            assert(rest.subrange(j, j + 14) =~= sdp.subrange(i, i + 14));
        }
    } else {
        assert forall|i: int|
            0 <= i <= sdp.len() && #[trigger] line_starts_at(sdp, i) implies !occurs_at(
            sdp,
            attribute,
            i,
        ) by {
            if i > 0 {
                assert(!break_at(sdp, i - 2));
            }
        }
    }
}

/// What is read of a line with a fingerprint is the word behind its first space, whatever name is
/// given in front and whatever comes behind another space or in other lines.
pub proof fn law_the_second_word_is_read(
    name: Seq<char>,
    word: Seq<char>,
    tail: Seq<char>,
    rest: Seq<char>,
)
    requires
        !name.contains(' '),
        !name.contains('\r'),
        !word.contains(' '),
        !word.contains('\r'),
        tail.len() > 0 ==> tail[0] == ' ',
        !tail.contains('\r'),
    ensures
        sdp_digest("a=fingerprint:"@ + name + seq![' '] + word + tail + line_break() + rest) == Some(
            digest_of_text(word),
        ),
        sdp_digest("a=fingerprint:"@ + name + seq![' '] + word + tail) == Some(
            digest_of_text(word),
        ),
        sdp_digest("a=fingerprint:"@ + name) == Some(None::<Seq<u8>>),
{
    reveal_strlit("a=fingerprint:");
    let attribute = FINGERPRINT_ATTRIBUTE@;
    let line = attribute + name + seq![' '] + word + tail;
    let space: int = (attribute.len() + name.len()) as int;
    let end: int = space + 1 + word.len();
    assert forall|i: int| 0 <= i < line.len() implies line[i] != '\r' by {
        lemma_char_of(attribute, name, word, tail, i);
    }
    assert forall|i: int| 0 <= i < end && i != space implies line[i] != ' ' by {
        lemma_char_of(attribute, name, word, tail, i);
    }
    assert(line[space] == ' ');
    assert(end < line.len() ==> line[end] == tail[0]);
    lemma_is_first(line, ' ', 0, space);
    lemma_is_first(line, ' ', space + 1, end);
    assert(line.subrange(space + 1, end) =~= word);
    assert(line.subrange(0, attribute.len() as int) =~= attribute);
    let behind = line + line_break() + rest;
    assert forall|i: int| 0 <= i < line.len() implies !break_at(behind, i) by {
        assert(behind[i] == line[i]);
    }
    assert(break_at(behind, line.len() as int));
    lemma_is_line_end(behind, 0, line.len() as int);
    assert(behind.take(line.len() as int) =~= line);
    lemma_is_line_end(line, 0, line.len() as int);
    assert(line.take(line.len() as int) =~= line);
    let bare = attribute + name;
    assert forall|i: int| 0 <= i < bare.len() implies bare[i] != '\r' && bare[i] != ' ' by {
        assert(bare[i] == line[i]);
    }
    lemma_is_line_end(bare, 0, bare.len() as int);
    assert(bare.take(bare.len() as int) =~= bare);
    assert(bare.subrange(0, attribute.len() as int) =~= attribute);
    lemma_is_first(bare, ' ', 0, bare.len() as int);
}

/// The characters of a line with a fingerprint, in its parts.
proof fn lemma_char_of(
    attribute: Seq<char>,
    name: Seq<char>,
    word: Seq<char>,
    tail: Seq<char>,
    i: int,
)
    requires
        0 <= i < attribute.len() + name.len() + 1 + word.len() + tail.len(),
    ensures
        ({
            let line = attribute + name + seq![' '] + word + tail;
            let space: int = (attribute.len() + name.len()) as int;
            &&& i < attribute.len() ==> line[i] == attribute[i]
            &&& attribute.len() <= i < space ==> name.contains(line[i])
            &&& i == space ==> line[i] == ' '
            &&& space < i <= space + word.len() ==> word.contains(line[i])
            &&& i > space + word.len() ==> tail.contains(line[i])
        }),
{
    let line = attribute + name + seq![' '] + word + tail;
    let space: int = (attribute.len() + name.len()) as int;
    if attribute.len() <= i < space {
        assert(line[i] == name[i - attribute.len()]);
    } else if space < i <= space + word.len() {
        assert(line[i] == word[i - space - 1]);
    } else if i > space + word.len() {
        assert(line[i] == tail[i - space - 1 - word.len()]);
    }
}

/// Two texts are the same but for the case of digits.
pub open spec fn same_but_case(upper: Seq<char>, lower: Seq<char>) -> bool {
    upper.len() == lower.len() && forall|i: int|
        0 <= i < upper.len() ==> (#[trigger] upper[i] == lower[i] || 'A' <= upper[i] <= 'F'
            && lower[i] as int == upper[i] as int + 32)
}

proof fn lemma_colons_and_case(upper: Seq<char>, lower: Seq<char>)
    requires
        same_but_case(upper, lower),
    ensures
        same_but_case(without_colons(upper), without_colons(lower)),
    decreases upper.len(),
{
    reveal(Seq::filter);
    if upper.len() > 0 {
        let (a, b) = (upper.drop_last(), lower.drop_last());
        assert forall|i: int| 0 <= i < a.len() implies (#[trigger] a[i] == b[i] || 'A' <= a[i]
            <= 'F' && b[i] as int == a[i] as int + 32) by {
            assert(a[i] == upper[i] && b[i] == lower[i]);
        }
        lemma_colons_and_case(a, b);
        assert(upper.last() == upper[upper.len() - 1]);
        assert(lower.last() == lower[upper.len() - 1]);
    }
}

/// It makes no difference in what case the digits of a fingerprint are.
pub proof fn law_case_makes_no_difference(upper: Seq<char>, lower: Seq<char>)
    requires
        same_but_case(upper, lower),
    ensures
        digest_of_text(upper) == digest_of_text(lower),
{
    lemma_colons_and_case(upper, lower);
    let (a, b) = (without_colons(upper), without_colons(lower));
    assert forall|i: int| 0 <= i < a.len() implies hex_value(#[trigger] a[i]) == hex_value(b[i]) by {}
    if is_hex(a) {
        assert forall|i: int| 0 <= i < b.len() implies hex_value(#[trigger] b[i]) is Some by {
            assert(hex_value(a[i]) is Some);
        }
    }
    if is_hex(b) {
        assert forall|i: int| 0 <= i < a.len() implies hex_value(#[trigger] a[i]) is Some by {
            assert(hex_value(b[i]) is Some);
        }
    }
    assert forall|i: int| 0 <= i < a.len() / 2 implies hex_bytes(a)[i] == hex_bytes(b)[i] by {
        assert(hex_value(a[2 * i]) == hex_value(b[2 * i]));
        assert(hex_value(a[2 * i + 1]) == hex_value(b[2 * i + 1]));
    }
    assert(hex_bytes(a) =~= hex_bytes(b));
}

/// Colons in the text of a fingerprint make no difference, wherever they stand.
pub proof fn law_colons_make_no_difference(before: Seq<char>, after: Seq<char>)
    ensures
        digest_of_text(before + seq![':'] + after) == digest_of_text(before + after),
{
    let keep = |c: char| c != ':';
    let colon = seq![':'];
    Seq::filter_distributes_over_add(before + colon, after, keep);
    Seq::filter_distributes_over_add(before, colon, keep);
    Seq::filter_distributes_over_add(before, after, keep);
    assert(colon.filter(keep) =~= Seq::<char>::empty()) by {
        reveal_with_fuel(Seq::filter, 2);
        assert(colon.drop_last() =~= Seq::<char>::empty());
    }
    assert(before.filter(keep) + Seq::<char>::empty() =~= before.filter(keep));
}

/// Anything but 64 digits of base sixteen, colons aside, is no digest; and one that is has 32 bytes.
pub proof fn law_digests_have_64_digits(text: Seq<char>)
    ensures
        digest_of_text(text) matches Some(digest) ==> digest.len() == 32 && without_colons(text).len()
            == 64,
        digest_of_text(text) is Some ==> forall|i: int|
            0 <= i < text.len() ==> ('0' <= #[trigger] text[i] <= '9' || 'A' <= text[i] <= 'F'
                || 'a' <= text[i] <= 'f' || text[i] == ':'),
{
    let digits = without_colons(text);
    if digest_of_text(text) is Some {
        assert forall|i: int| 0 <= i < text.len() implies ('0' <= #[trigger] text[i] <= '9' || 'A'
            <= text[i] <= 'F' || 'a' <= text[i] <= 'f' || text[i] == ':') by {
            if text[i] != ':' {
                lemma_kept(text, i);
                let j = choose|j: int| 0 <= j < digits.len() && digits[j] == text[i];
                assert(hex_value(digits[j]) is Some);
            }
        }
    }
}

/// What is no colon is kept.
proof fn lemma_kept(text: Seq<char>, i: int)
    requires
        0 <= i < text.len(),
        text[i] != ':',
    ensures
        without_colons(text).contains(text[i]),
    decreases text.len(),
{
    reveal(Seq::filter);
    let shorter = text.drop_last();
    if i < shorter.len() {
        lemma_kept(shorter, i);
        let kept = without_colons(shorter);
        let j = choose|j: int| 0 <= j < kept.len() && kept[j] == text[i];
        assert(without_colons(text)[j] == text[i]);
    } else {
        let kept = without_colons(text);
        assert(kept[kept.len() - 1] == text[i]);
    }
}

} // verus!
