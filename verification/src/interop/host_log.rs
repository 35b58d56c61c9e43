//! Log lines from the browser, which go to the host in batches.
use vstd::prelude::*;

use crate::text::{
    begins_with, ends_with, lemma_ends, strip_prefixes, strip_trailing, trim_end, trim_start,
};

verus! {

/// How often a batch is sent, in milliseconds.
pub const FLUSH_INTERVAL_MS: u32 = 250;

/// How many lines go into a batch.
pub const MAX_BATCH: usize = 32;

/// Batched log lines from the WASM dialer (`POST /log` on the harness).
#[derive(Debug, PartialEq, Eq)]
pub struct WasmLogBatch {
    pub lines: Vec<String>,
}

/// How much a line matters.
#[derive(Clone, Copy, Debug, PartialEq, Eq, Structural)]
pub enum Level {
    Error,
    Warn,
    Info,
    Debug,
    Trace,
}

impl Level {
    /// The name of the level.
    pub open spec fn text(self) -> Seq<char> {
        match self {
            Level::Error => "ERROR"@,
            Level::Warn => "WARN"@,
            Level::Info => "INFO"@,
            Level::Debug => "DEBUG"@,
            Level::Trace => "TRACE"@,
        }
    }

    /// The name of the level.
    pub fn name(self) -> (r: &'static str)
        ensures
            r@ == self.text(),
    {
        match self {
            Level::Error => "ERROR",
            Level::Warn => "WARN",
            Level::Info => "INFO",
            Level::Debug => "DEBUG",
            Level::Trace => "TRACE",
        }
    }
}

/// The message with one field more: `name=value`, behind a space unless it is the first.
pub open spec fn with_field(message: Seq<char>, name: Seq<char>, value: Seq<char>) -> Seq<char> {
    if message.len() == 0 {
        name + "="@ + value
    } else {
        message + " "@ + name + "="@ + value
    }
}

/// Appends a field to a message.
pub fn append_field(out: &mut String, name: &str, value: &str)
    ensures
        final(out)@ == with_field(old(out)@, name@, value@),
{
    if !out.as_str().is_empty() {
        out.append(" ");
        out.append(name);
        out.append("=");
        out.append(value);
    } else {
        out.append(name);
        out.append("=");
        out.append(value);
        assert(out@ =~= name@ + "="@ + value@);
    }
}

/// The line for an event.
pub open spec fn line(level: Level, target: Seq<char>, message: Seq<char>) -> Seq<char> {
    if message.len() == 0 {
        level.text() + " "@ + target + ":(event)"@
    } else {
        level.text() + " "@ + target + ": "@ + message
    }
}

/// The line for an event that matters enough.
pub fn event_line(level: Level, target: &str, message: &str) -> (r: Option<String>)
    ensures
        match r {
            Some(text) => level != Level::Trace && text@ == line(level, target@, message@),
            None => level == Level::Trace,
        },
{
    if level == Level::Trace {
        return None;
    }
    let mut text = level.name().to_owned();
    text.append(" ");
    text.append(target);
    if message.is_empty() {
        text.append(":(event)");
    } else {
        text.append(": ");
        text.append(message);
    }
    Some(text)
}

/// A flush sends `batch` and leaves `rest` of what was pending.
pub open spec fn flushed(pending: Seq<String>, batch: Seq<String>, rest: Seq<String>) -> bool {
    &&& pending == batch + rest
    &&& batch.len() <= MAX_BATCH
    &&& batch.len() < MAX_BATCH ==> rest.len() == 0
}

/// Takes the next batch off the pending lines: the first ones, as many as fit. There is none if no
/// line is pending.
pub fn take_batch(pending: &mut Vec<String>) -> (r: Option<WasmLogBatch>)
    ensures
        match r {
            Some(batch) => batch.lines@.len() > 0 && flushed(
                old(pending)@,
                batch.lines@,
                final(pending)@,
            ),
            None => old(pending)@.len() == 0 && final(pending)@ == old(pending)@,
        },
{
    if pending.is_empty() {
        return None;
    }
    let n: usize = if pending.len() < MAX_BATCH {
        pending.len()
    } else {
        MAX_BATCH
    };
    let mut lines = pending.split_off(n);
    std::mem::swap(pending, &mut lines);
    assert(old(pending)@ =~= lines@ + pending@);
    Some(WasmLogBatch { lines })
}

/// The host in a base address: without a scheme in front and without slashes behind.
pub open spec fn host(host_base: Seq<char>) -> Seq<char> {
    strip_trailing(strip_prefixes(strip_prefixes(host_base, "http://"@), "https://"@), '/')
}

/// The host in a base address.
pub fn host_of(host_base: &str) -> (r: String)
    ensures
        r@ == host(host_base@),
{
    let rest = trim_start(host_base, "http://");
    let rest = trim_start(rest.as_str(), "https://");
    trim_end(rest.as_str(), '/')
}

/// Where the batches go.
pub fn log_url(host: &str) -> (r: String)
    ensures
        r@ == "http://"@ + host@ + "/log"@,
{
    let mut url = "http://".to_owned();
    url.append(host);
    url.append("/log");
    url
}

/// What happened to the flusher.
#[derive(Clone, Copy, Debug, PartialEq, Eq, Structural)]
pub enum FlushEvent {
    /// It was started.
    Started,
    /// It has waited.
    Waited,
    /// A batch was posted, with success or not.
    Posted { success: bool },
}

/// What the flusher does next.
#[derive(Debug, PartialEq, Eq)]
pub enum FlushStep {
    /// Nothing more, for good.
    Stop,
    /// Wait so many milliseconds.
    Wait { millis: u32 },
    /// Post the batch there.
    Post { url: String, batch: WasmLogBatch },
}

/// How many of the pending lines go into the next batch.
pub open spec fn batch_len(pending: Seq<String>) -> int {
    if pending.len() < MAX_BATCH {
        pending.len() as int
    } else {
        MAX_BATCH as int
    }
}

/// A batch is posted after this: there is a host, the flusher has waited, and lines are pending.
pub open spec fn posts(has_host: bool, event: FlushEvent, pending: Seq<String>) -> bool {
    has_host && event is Waited && pending.len() > 0
}

/// The next step of the flusher, which posts to `host`. Without a host it stops. With one it waits,
/// and then posts the next batch where there is one; what comes of that makes no difference.
pub fn next_flush(host: Option<&str>, event: FlushEvent, pending: &mut Vec<String>) -> (r: FlushStep)
    ensures
        match r {
            FlushStep::Stop => host is None,
            FlushStep::Wait { millis } => host is Some && millis == FLUSH_INTERVAL_MS && !posts(
                true,
                event,
                old(pending)@,
            ),
            FlushStep::Post { url, batch } => {
                &&& host is Some
                &&& posts(true, event, old(pending)@)
                &&& url@ == "http://"@ + host->0@ + "/log"@
                &&& batch.lines@ == old(pending)@.take(batch_len(old(pending)@))
                &&& final(pending)@ == old(pending)@.skip(batch_len(old(pending)@))
            },
        },
        !(r is Post) ==> final(pending)@ == old(pending)@,
{
    let host = match host {
        None => return FlushStep::Stop,
        Some(host) => host,
    };
    match event {
        FlushEvent::Started | FlushEvent::Posted { .. } => {},
        FlushEvent::Waited => {
            if let Some(batch) = take_batch(pending) {
                proof {
                    let n = batch_len(old(pending)@);
                    assert(old(pending)@.take(n) =~= batch.lines@);
                    assert(old(pending)@.skip(n) =~= pending@);
                }
                return FlushStep::Post { url: log_url(host), batch };
            }
        },
    }
    FlushStep::Wait { millis: FLUSH_INTERVAL_MS }
}

/// A line was logged, or something happened to the flusher.
pub enum Turn {
    Logged(String),
    Flushed(FlushEvent),
}

/// The lines that were logged so far, the batches that were posted and the lines that are pending.
pub struct Forwarded {
    pub lines: Seq<String>,
    pub batches: Seq<Seq<String>>,
    pub pending: Seq<String>,
}

/// What was forwarded once all this happened, with a host or without.
pub open spec fn forwarded(has_host: bool, turns: Seq<Turn>) -> Forwarded
    decreases turns.len(),
{
    if turns.len() == 0 {
        Forwarded { lines: Seq::empty(), batches: Seq::empty(), pending: Seq::empty() }
    } else {
        let before = forwarded(has_host, turns.drop_last());
        match turns.last() {
            Turn::Logged(line) => Forwarded {
                lines: before.lines.push(line),
                batches: before.batches,
                pending: before.pending.push(line),
            },
            Turn::Flushed(event) => if posts(has_host, event, before.pending) {
                let n = batch_len(before.pending);
                Forwarded {
                    lines: before.lines,
                    batches: before.batches.push(before.pending.take(n)),
                    pending: before.pending.skip(n),
                }
            } else {
                before
            },
        }
    }
}

/// The lines in a sequence of batches.
pub open spec fn sent(batches: Seq<Seq<String>>) -> Seq<String>
    decreases batches.len(),
{
    if batches.len() == 0 {
        Seq::empty()
    } else {
        sent(batches.drop_last()) + batches.last()
    }
}

/// No line is lost, doubled or moved: what was sent in batches so far and what is pending, one
/// behind the other, are the lines in the order in which they came; a flush keeps that so.
pub proof fn law_no_line_is_lost(
    lines: Seq<String>,
    batches: Seq<Seq<String>>,
    pending: Seq<String>,
    batch: Seq<String>,
    rest: Seq<String>,
)
    requires
        sent(batches) + pending == lines,
        flushed(pending, batch, rest),
    ensures
        sent(batches.push(batch)) + rest == lines,
{
    assert(batches.push(batch).drop_last() =~= batches);
    assert(sent(batches) + batch + rest =~= sent(batches) + (batch + rest));
}

/// Whatever happens, the batches that were posted are, one behind the other, the first of the lines
/// that were logged: in order, none twice and none left out. Each holds at least one line and no more
/// than fit. Without a host none is posted.
pub proof fn law_lines_are_posted_in_order(has_host: bool, turns: Seq<Turn>)
    ensures
        ({
            let f = forwarded(has_host, turns);
            &&& f.lines == sent(f.batches) + f.pending
            &&& sent(f.batches).is_prefix_of(f.lines)
            &&& forall|i: int|
                0 <= i < f.batches.len() ==> 1 <= (#[trigger] f.batches[i]).len() <= MAX_BATCH
            &&& !has_host ==> f.batches.len() == 0
        }),
    decreases turns.len(),
{
    let f = forwarded(has_host, turns);
    if turns.len() > 0 {
        law_lines_are_posted_in_order(has_host, turns.drop_last());
        let before = forwarded(has_host, turns.drop_last());
        match turns.last() {
            Turn::Logged(line) => {
                assert(f.lines =~= sent(f.batches) + f.pending);
            },
            Turn::Flushed(event) => {
                if posts(has_host, event, before.pending) {
                    let n = batch_len(before.pending);
                    assert(before.pending =~= before.pending.take(n) + before.pending.skip(n));
                    law_no_line_is_lost(
                        before.lines,
                        before.batches,
                        before.pending,
                        before.pending.take(n),
                        before.pending.skip(n),
                    );
                }
            },
        }
    }
    assert(sent(f.batches).is_prefix_of(sent(f.batches) + f.pending));
}

/// A batch that could not be posted is not posted again, and more follow: what comes of posting makes
/// no difference.
pub proof fn law_failed_posts_change_nothing(has_host: bool, turns: Seq<Turn>, success: bool)
    ensures
        forwarded(has_host, turns.push(Turn::Flushed(FlushEvent::Posted { success }))) == forwarded(
            has_host,
            turns,
        ),
{
    assert(turns.push(Turn::Flushed(FlushEvent::Posted { success })).drop_last() =~= turns);
}

/// Every flush shrinks what is pending by a full batch, or empties it.
pub proof fn law_flushes_drain(pending: Seq<String>, batch: Seq<String>, rest: Seq<String>)
    requires
        flushed(pending, batch, rest),
    ensures
        rest.len() == (if pending.len() <= MAX_BATCH {
            0
        } else {
            pending.len() - MAX_BATCH
        }),
{
}

/// A field is appended behind what is there, and changes none of it: the text ends with the field's
/// name, an equals sign and its value, with one space before where there was something.
pub proof fn law_fields_are_appended(message: Seq<char>, name: Seq<char>, value: Seq<char>)
    ensures
        ({
            let text = with_field(message, name, value);
            let field = name + seq!['='] + value;
            &&& text.len() >= field.len()
            &&& text.skip(text.len() - field.len()) == field
            &&& message.len() == 0 ==> text == field
            &&& message.len() > 0 ==> text.len() == message.len() + 1 + field.len() && text[
            message.len() as int] == ' '
            &&& begins_with(text, message)
        }),
{
    reveal_strlit("=");
    reveal_strlit(" ");
    let text = with_field(message, name, value);
    let field = name + seq!['='] + value;
    assert("="@ =~= seq!['=']);
    assert(" "@ =~= seq![' ']);
    assert(text.skip(text.len() - field.len()) =~= field);
    assert(text.subrange(0, message.len() as int) =~= message);
    if message.len() == 0 {
        assert(text =~= field);
    }
}

/// The line for an event tells how much it matters, where it comes from and what it says, in this
/// order and word for word; one that says nothing is marked as such. Levels have different names.
pub proof fn law_lines_tell_the_event(
    level: Level,
    other: Level,
    target: Seq<char>,
    message: Seq<char>,
)
    ensures
        ({
            let text = line(level, target, message);
            &&& begins_with(text, level.text() + seq![' '] + target + seq![':'])
            &&& message.len() > 0 ==> text == level.text() + seq![' '] + target + seq![':', ' ']
                + message
            &&& message.len() == 0 ==> text == level.text() + seq![' '] + target + ":(event)"@
        }),
        level.text() == other.text() ==> level == other,
{
    reveal_strlit(" ");
    reveal_strlit(": ");
    reveal_strlit(":(event)");
    reveal_strlit("ERROR");
    reveal_strlit("WARN");
    reveal_strlit("INFO");
    reveal_strlit("DEBUG");
    reveal_strlit("TRACE");
    let text = line(level, target, message);
    let front = level.text() + seq![' '] + target + seq![':'];
    assert(" "@ =~= seq![' ']);
    assert(": "@ =~= seq![':', ' ']);
    assert(text.subrange(0, front.len() as int) =~= front);
    assert(level.text()[0] == other.text()[0] ==> level == other);
}

/// The host is what an address names between its scheme and its slashes: with either scheme in
/// front, or none, and any number of slashes behind, it is the same.
pub proof fn law_schemes_and_slashes_are_no_part_of_the_host(name: Seq<char>, slashes: nat)
    requires
        name.len() > 0,
        name.last() != '/',
        !begins_with(name + Seq::new(slashes, |i: int| '/'), "http://"@),
        !begins_with(name + Seq::new(slashes, |i: int| '/'), "https://"@),
    ensures
        ({
            let behind = Seq::new(slashes, |i: int| '/');
            &&& host(name + behind) == name
            &&& host("http://"@ + name + behind) == name
            &&& host("https://"@ + name + behind) == name
        }),
{
    reveal_strlit("http://");
    reveal_strlit("https://");
    let behind = Seq::new(slashes, |i: int| '/');
    let rest = name + behind;
    lemma_trailing_slashes(name, slashes);
    let plain = "http://"@ + name + behind;
    assert(plain.subrange(0, 7) =~= "http://"@);
    assert(plain.skip(7) =~= rest);
    assert(strip_prefixes(plain, "http://"@) == strip_prefixes(rest, "http://"@));
    let secure = "https://"@ + name + behind;
    assert(secure.subrange(0, 7)[4] == 's');
    assert(secure.subrange(0, 8) =~= "https://"@);
    assert(secure.skip(8) =~= rest);
    assert(strip_prefixes(secure, "https://"@) == strip_prefixes(rest, "https://"@));
}

proof fn lemma_trailing_slashes(name: Seq<char>, slashes: nat)
    requires
        name.len() > 0,
        name.last() != '/',
    ensures
        strip_trailing(name + Seq::new(slashes, |i: int| '/'), '/') == name,
    decreases slashes,
{
    let behind = Seq::new(slashes, |i: int| '/');
    if slashes == 0 {
        assert(name + behind =~= name);
    } else {
        lemma_trailing_slashes(name, (slashes - 1) as nat);
        assert((name + behind).drop_last() =~= name + Seq::new(
            (slashes - 1) as nat,
            |i: int| '/',
        ));
        assert((name + behind).last() == '/');
    }
}

/// Where there is a host, every wait is followed by a post as long as lines are pending: of the first
/// 32 lines, or of all where there are fewer; and a line that was logged is pending. Nothing else
/// posts.
pub proof fn law_waits_are_followed_by_posts(
    has_host: bool,
    turns: Seq<Turn>,
    event: FlushEvent,
    text: String,
)
    ensures
        ({
            let before = forwarded(has_host, turns);
            let flushed = forwarded(has_host, turns.push(Turn::Flushed(event)));
            let logged = forwarded(has_host, turns.push(Turn::Logged(text)));
            let n = if before.pending.len() <= 32 {
                before.pending.len() as int
            } else {
                32
            };
            &&& has_host && event == FlushEvent::Waited && before.pending.len() > 0 ==> {
                &&& flushed.batches == before.batches.push(before.pending.take(n))
                &&& flushed.pending == before.pending.skip(n)
            }
            &&& !has_host || event != FlushEvent::Waited || before.pending.len() == 0 ==> flushed
                == before
            &&& logged.pending == before.pending.push(text)
            &&& logged.batches == before.batches
        }),
{
    assert(turns.push(Turn::Flushed(event)).drop_last() =~= turns);
    assert(turns.push(Turn::Logged(text)).drop_last() =~= turns);
}

/// Events that matter get a line, which tells the level, the target and the message; traces get none.
pub proof fn law_all_but_traces_get_a_line(
    level: Level,
    target: &str,
    message: &str,
    r: Option<String>,
)
    requires
        call_ensures(event_line, (level, target, message), r),
    ensures
        r is None <==> level == Level::Trace,
        r matches Some(text) ==> begins_with(
            text@,
            level.text() + seq![' '] + target@ + seq![':'],
        ) && ends_with(text@, message@),
{
    if let Some(text) = r {
        law_lines_tell_the_event(level, level, target@, message@);
        if message@.len() > 0 {
            lemma_ends(level.text() + seq![' '] + target@ + seq![':', ' '], message@);
        } else {
            assert(text@.skip(text@.len() as int) =~= message@);
        }
    }
}

/// A batch is the first of what is pending, at most 32 lines and as many as there are up to that; the
/// rest stays pending, in order. It is posted to the log of the host, when the flusher has waited;
/// without a host the flusher stops, and nothing is taken.
pub proof fn law_batches_are_the_first_lines(
    pending: &mut Vec<String>,
    batch: Option<WasmLogBatch>,
    host: Option<&str>,
    event: FlushEvent,
    flushing: &mut Vec<String>,
    step: FlushStep,
)
    requires
        call_ensures(take_batch, (pending,), batch),
        call_ensures(next_flush, (host, event, flushing), step),
    ensures
        batch is None <==> old(pending)@.len() == 0,
        batch matches Some(taken) ==> {
            &&& taken.lines@ + final(pending)@ == old(pending)@
            &&& 1 <= taken.lines@.len() <= 32
            &&& taken.lines@.len() < 32 ==> final(pending)@.len() == 0
        },
        step is Stop <==> host is None,
        step is Post <==> host is Some && event == FlushEvent::Waited && old(flushing)@.len() > 0,
        step matches FlushStep::Wait { millis } ==> millis == 250,
        step matches FlushStep::Post { url, batch: posted } ==> {
            &&& posted.lines@ + final(flushing)@ == old(flushing)@
            &&& 1 <= posted.lines@.len() <= 32
            &&& posted.lines@.len() < 32 ==> final(flushing)@.len() == 0
            &&& url@ == "http://"@ + host->0@ + "/log"@
        },
        !(step is Post) ==> final(flushing)@ == old(flushing)@,
{
    if let FlushStep::Post { url: _, batch: posted } = step {
        let n = batch_len(old(flushing)@);
        assert(old(flushing)@.take(n) + old(flushing)@.skip(n) =~= old(flushing)@);
    }
}

/// The host of a base address that names one is found under both schemes and none, with any number of
/// slashes behind.
pub proof fn law_hosts_are_found(base: &str, name: Seq<char>, slashes: nat, r: String)
    requires
        call_ensures(host_of, (base,), r),
        name.len() > 0,
        name.last() != '/',
        !begins_with(name + Seq::new(slashes, |i: int| '/'), "http://"@),
        !begins_with(name + Seq::new(slashes, |i: int| '/'), "https://"@),
        base@ == name + Seq::new(slashes, |i: int| '/') || base@ == "http://"@ + name + Seq::new(
            slashes,
            |i: int| '/',
        ) || base@ == "https://"@ + name + Seq::new(slashes, |i: int| '/'),
    ensures
        r@ == name,
{
    law_schemes_and_slashes_are_no_part_of_the_host(name, slashes);
}

/// A field that is appended stands behind what was there, with its name and its value.
pub proof fn law_appended_fields_stand_behind(
    out: &mut String,
    name: &str,
    value: &str,
    done: (),
)
    requires
        call_ensures(append_field, (out, name, value), done),
    ensures
        begins_with(final(out)@, old(out)@),
        ends_with(final(out)@, name@ + seq!['='] + value@),
        final(out)@.len() == old(out)@.len() + (if old(out)@.len() > 0 {
            1int
        } else {
            0int
        }) + name@.len() + 1 + value@.len(),
{
    law_fields_are_appended(old(out)@, name@, value@);
}

} // verus!
