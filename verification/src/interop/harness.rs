//! The host of a test in a browser: it serves the test page and waits for the outcome.
use vstd::prelude::*;

use crate::interop::ping::Report;
use crate::text::{
    begins_with, contains, decimal, ends_with, equal, law_decimal_spells_the_number,
    law_prefixes_are_stripped, law_what_occurs_is_there, lemma_ends, occurs_at, occurs_in,
    starts_with, strip_prefixes, to_decimal, trim_start,
};

verus! {

/// Where the test page is served.
pub const BIND_ADDR: &'static str = "127.0.0.1:8080";

/// The argument with which the driver of the browser is started.
pub const DRIVER_PORT_ARGUMENT: &'static str = "--port=45782";

/// Where the driver of the browser is reached.
pub const DRIVER_URL: &'static str = "http://localhost:45782";

/// What the driver of the browser says when it is ready.
pub const DRIVER_READY: &'static str = "ChromeDriver was started successfully";

/// What the test page is made from.
#[derive(Debug, PartialEq, Eq)]
pub struct Config {
    pub transport: String,
    pub ip: String,
    pub is_dialer: bool,
    pub test_timeout: u64,
    pub sec_protocol: Option<String>,
    pub muxer: Option<String>,
}

/// The page up to the transport.
pub const PAGE_HEAD: &'static str = "
        <!DOCTYPE html>
        <html>
        <head>
            <meta charset=\"UTF-8\" />
            <title>libp2p ping test</title>
            <script type=\"module\">
                // import a wasm initialization fn and our test entrypoint
                import init, { run_test_wasm } from \"/interop_tests.js\";

                // initialize wasm
                await init()
                // run our entrypoint with params from the env
                await run_test_wasm(
                    \"";

/// What stands between two parameters of which the first is in quotes and the second too.
pub const BETWEEN_QUOTED: &'static str = "\",
                    \"";

/// What stands behind a parameter in quotes before one without.
pub const AFTER_QUOTED: &'static str = "\",
                    ";

/// What stands before a parameter in quotes behind one without.
pub const BEFORE_QUOTED: &'static str = ",
                    \"";

/// What stands between two parameters without quotes.
pub const BETWEEN: &'static str = ",
                    ";

/// The page behind the last parameter.
pub const PAGE_TAIL: &'static str = "
                )
            </script>
        </head>

        <body></body>
        </html>
    ";

/// The wish for a browser without a window: nothing said means yes, as does anything but a plain no.
pub open spec fn wants_headless(setting: Option<Seq<char>>) -> bool {
    match setting {
        Some(value) => value != "0"@ && value != "false"@,
        None => true,
    }
}

/// Whether the browser is to run without a window.
pub fn headless(setting: Option<&str>) -> (r: bool)
    ensures
        r == wants_headless(
            match setting {
                Some(value) => Some(value@),
                None => None,
            },
        ),
{
    match setting {
        Some(value) => !equal(value, "0") && !equal(value, "false"),
        None => true,
    }
}

/// Whether a line from the driver of the browser tells that it is ready.
pub fn driver_is_ready(line: &str) -> (r: bool)
    ensures
        r == occurs_in(line@, DRIVER_READY@),
{
    // "successfully" line format varies by ChromeDriver version (trailing period optional).
    contains(line, DRIVER_READY)
}

/// Whether a log line from the browser is a warning or worse.
pub fn is_warning(line: &str) -> (r: bool)
    ensures
        r == (begins_with(line@, "WARN "@) || begins_with(line@, "ERROR "@)),
{
    starts_with(line, "WARN ") || starts_with(line, "ERROR ")
}

/// The address of the test page.
pub fn page_url() -> (r: String)
    ensures
        r@ == "http://"@ + BIND_ADDR@,
{
    let mut url = "http://".to_owned();
    url.append(BIND_ADDR);
    url
}

/// An optional parameter of the test: in quotes, or null.
pub open spec fn optional(value: Option<Seq<char>>) -> Seq<char> {
    match value {
        Some(value) => "\""@ + value + "\""@,
        None => "null"@,
    }
}

/// The view of an optional text.
pub open spec fn optional_view(value: Option<String>) -> Option<Seq<char>> {
    match value {
        Some(value) => Some(value@),
        None => None,
    }
}

fn optional_parameter(value: &Option<String>) -> (r: String)
    ensures
        r@ == optional(optional_view(*value)),
{
    match value {
        Some(value) => {
            let mut text = "\"".to_owned();
            text.append(value.as_str());
            text.append("\"");
            text
        },
        None => "null".to_owned(),
    }
}

/// A truth value in script.
pub open spec fn script_bool(value: bool) -> Seq<char> {
    if value {
        "true"@
    } else {
        "false"@
    }
}

/// The test page: it runs the test with the given parameters, one behind the other.
pub open spec fn page(config: Config) -> Seq<char> {
    PAGE_HEAD@ + config.transport@ + BETWEEN_QUOTED@ + config.ip@ + AFTER_QUOTED@ + script_bool(
        config.is_dialer,
    ) + BEFORE_QUOTED@ + decimal(config.test_timeout as nat) + BETWEEN_QUOTED@ + BIND_ADDR@
        + AFTER_QUOTED@ + optional(optional_view(config.sec_protocol)) + BETWEEN@ + optional(
        optional_view(config.muxer),
    ) + PAGE_TAIL@
}

/// Makes the main page which loads our javascript
pub fn index_html(config: &Config) -> (r: String)
    ensures
        r@ == page(*config),
{
    let mut html = PAGE_HEAD.to_owned();
    html.append(config.transport.as_str());
    html.append(BETWEEN_QUOTED);
    html.append(config.ip.as_str());
    html.append(AFTER_QUOTED);
    html.append(
        if config.is_dialer {
            "true"
        } else {
            "false"
        },
    );
    html.append(BEFORE_QUOTED);
    html.append(to_decimal(config.test_timeout).as_str());
    html.append(BETWEEN_QUOTED);
    html.append(BIND_ADDR);
    html.append(AFTER_QUOTED);
    html.append(optional_parameter(&config.sec_protocol).as_str());
    html.append(BETWEEN);
    html.append(optional_parameter(&config.muxer).as_str());
    html.append(PAGE_TAIL);
    html
}

/// What waiting for the outcome of a test came to.
#[derive(Debug, PartialEq, Eq)]
pub enum Waited {
    /// The test reported this.
    Reported(Result<Report, String>),
    /// Nothing can be reported any more.
    Closed,
    /// The time is over.
    TimedOut,
}

/// The outcome of a test.
pub open spec fn is_outcome(waited: Waited, r: Result<Report, String>) -> bool {
    match waited {
        Waited::Reported(Ok(report)) => r == Ok::<Report, String>(report),
        Waited::Reported(Err(error)) => r matches Err(text) && text@ == "Tests failed: "@ + error@,
        Waited::Closed => r matches Err(text) && text@ == "Tests failed: "@
            + "Results channel closed"@,
        Waited::TimedOut => r matches Err(text) && text@ == "Tests failed: "@ + "Test timed out"@,
    }
}

/// The outcome of a test: its report, or what went wrong.
pub fn outcome(waited: Waited) -> (r: Result<Report, String>)
    ensures
        is_outcome(waited, r),
{
    let error = match waited {
        Waited::Reported(Ok(report)) => return Ok(report),
        Waited::Reported(Err(error)) => error,
        Waited::Closed => "Results channel closed".to_owned(),
        Waited::TimedOut => "Test timed out".to_owned(),
    };
    let mut text = "Tests failed: ".to_owned();
    text.append(error.as_str());
    Err(text)
}

/// The file that a path names: without the slashes in front.
pub fn asset_path(path: &str) -> (r: String)
    ensures
        r@ == strip_prefixes(path@, "/"@),
{
    trim_start(path, "/")
}

/// The type of content that `mime_guess` tells by a path.
pub uninterp spec fn guessed_mime(path: Seq<char>) -> Seq<char>;

/// `from_path` of `mime_guess`, with octets where it has no guess: it depends on nothing but the
/// path.
#[verifier::external_body]
fn guess_mime(path: &str) -> (r: String)
    ensures
        r@ == guessed_mime(path@),
{
    mime_guess::from_path(path).first_or_octet_stream().as_ref().to_owned()
}

/// The type of content with which a file is served, or nothing if there is no such file.
pub fn serve_asset(path: &str, exists: bool) -> (r: Option<String>)
    ensures
        match r {
            Some(mime) => exists && mime@ == guessed_mime(path@),
            None => !exists,
        },
{
    if exists {
        Some(guess_mime(path))
    } else {
        None
    }
}

/// A text without quotation marks.
pub open spec fn unquoted(text: Seq<char>) -> bool {
    forall|i: int| 0 <= i < text.len() ==> #[trigger] text[i] != '"'
}

/// The page carries the parameters of the configuration in their places: the transport directly
/// behind the head, then the address, both in quotes; whether to dial, in script; the timeout, in
/// digits; where the page is served, in quotes; and the security protocol and the multiplexer, each
/// in quotes, or null where there is none.
pub proof fn law_page_carries_the_parameters(config: Config)
    ensures
        ({
            let dials = if config.is_dialer {
                "true"@
            } else {
                "false"@
            };
            let timeout = decimal(config.test_timeout as nat);
            let security = match config.sec_protocol {
                Some(name) => "\""@ + name@ + "\""@,
                None => "null"@,
            };
            let muxer = match config.muxer {
                Some(name) => "\""@ + name@ + "\""@,
                None => "null"@,
            };
            let transport_at = PAGE_HEAD@.len() as int;
            let ip_at = transport_at + config.transport@.len() + BETWEEN_QUOTED@.len();
            let dials_at = ip_at + config.ip@.len() + AFTER_QUOTED@.len();
            let timeout_at = dials_at + dials.len() + BEFORE_QUOTED@.len();
            let served_at = timeout_at + timeout.len() + BETWEEN_QUOTED@.len();
            let security_at = served_at + BIND_ADDR@.len() + AFTER_QUOTED@.len();
            let muxer_at = security_at + security.len() + BETWEEN@.len();
            let tail_at = muxer_at + muxer.len();
            &&& occurs_at(page(config), PAGE_HEAD@, 0)
            &&& occurs_at(page(config), config.transport@, transport_at)
            &&& occurs_at(page(config), BETWEEN_QUOTED@, ip_at - BETWEEN_QUOTED@.len())
            &&& occurs_at(page(config), config.ip@, ip_at)
            &&& occurs_at(page(config), AFTER_QUOTED@, dials_at - AFTER_QUOTED@.len())
            &&& occurs_at(page(config), dials, dials_at)
            &&& occurs_at(page(config), BEFORE_QUOTED@, timeout_at - BEFORE_QUOTED@.len())
            &&& occurs_at(page(config), timeout, timeout_at)
            &&& occurs_at(page(config), BETWEEN_QUOTED@, served_at - BETWEEN_QUOTED@.len())
            &&& occurs_at(page(config), BIND_ADDR@, served_at)
            &&& occurs_at(page(config), AFTER_QUOTED@, security_at - AFTER_QUOTED@.len())
            &&& occurs_at(page(config), security, security_at)
            &&& occurs_at(page(config), BETWEEN@, muxer_at - BETWEEN@.len())
            &&& occurs_at(page(config), muxer, muxer_at)
            &&& occurs_at(page(config), PAGE_TAIL@, tail_at)
            &&& page(config).len() == tail_at + PAGE_TAIL@.len()
        }),
{
    let security = optional(optional_view(config.sec_protocol));
    let muxer = optional(optional_view(config.muxer));
    let timeout = decimal(config.test_timeout as nat);
    let start = Seq::<char>::empty();
    assert(start + PAGE_HEAD@ =~= PAGE_HEAD@);
    lemma_appended(start, PAGE_HEAD@);
    let to_transport = PAGE_HEAD@ + config.transport@;
    lemma_appended(PAGE_HEAD@, config.transport@);
    lemma_appended(to_transport, BETWEEN_QUOTED@);
    let to_ip = to_transport + BETWEEN_QUOTED@ + config.ip@;
    lemma_appended(to_transport + BETWEEN_QUOTED@, config.ip@);
    lemma_appended(to_ip, AFTER_QUOTED@);
    let to_dials = to_ip + AFTER_QUOTED@ + script_bool(config.is_dialer);
    lemma_appended(to_ip + AFTER_QUOTED@, script_bool(config.is_dialer));
    lemma_appended(to_dials, BEFORE_QUOTED@);
    let to_timeout = to_dials + BEFORE_QUOTED@ + timeout;
    lemma_appended(to_dials + BEFORE_QUOTED@, timeout);
    lemma_appended(to_timeout, BETWEEN_QUOTED@);
    let to_served = to_timeout + BETWEEN_QUOTED@ + BIND_ADDR@;
    lemma_appended(to_timeout + BETWEEN_QUOTED@, BIND_ADDR@);
    lemma_appended(to_served, AFTER_QUOTED@);
    let to_security = to_served + AFTER_QUOTED@ + security;
    lemma_appended(to_served + AFTER_QUOTED@, security);
    lemma_appended(to_security, BETWEEN@);
    lemma_appended(to_security + BETWEEN@, muxer);
    lemma_appended(to_security + BETWEEN@ + muxer, PAGE_TAIL@);
}

/// Behind a text stands what is appended to it; what occurs in the text stays where it is.
proof fn lemma_appended(s: Seq<char>, t: Seq<char>)
    ensures
        occurs_at(s + t, t, s.len() as int),
        forall|needle: Seq<char>, at: int| #[trigger]
            occurs_at(s, needle, at) ==> occurs_at(s + t, needle, at),
{
    assert((s + t).subrange(s.len() as int, (s + t).len() as int) =~= t);
    assert forall|needle: Seq<char>, at: int| #[trigger] occurs_at(s, needle, at) implies occurs_at(
        s + t,
        needle,
        at,
    ) by {
        assert((s + t).subrange(at, at + needle.len()) =~= s.subrange(at, at + needle.len()));
    }
}

/// Two texts without a character that start two equal ones, up to that character, are equal.
proof fn lemma_split(x: Seq<char>, s: Seq<char>, y: Seq<char>, t: Seq<char>, c: char)
    requires
        x + s == y + t,
        s.len() > 0,
        t.len() > 0,
        s[0] == c,
        t[0] == c,
        !x.contains(c),
        !y.contains(c),
    ensures
        x == y,
        s == t,
{
    assert((x + s)[x.len() as int] == c);
    assert((y + t)[y.len() as int] == c);
    if x.len() < y.len() {
        assert((y + t)[x.len() as int] == y[x.len() as int]);
        assert(y.contains(c));
    }
    if y.len() < x.len() {
        assert((x + s)[y.len() as int] == x[y.len() as int]);
        assert(x.contains(c));
    }
    assert forall|i: int| 0 <= i < x.len() implies x[i] == y[i] by {
        assert((x + s)[i] == x[i] && (y + t)[i] == y[i]);
    }
    assert(x =~= y);
    lemma_same_start(x, s, t);
}

/// Two equal texts with the same start go on alike.
proof fn lemma_same_start(x: Seq<char>, s: Seq<char>, t: Seq<char>)
    requires
        x + s == x + t,
    ensures
        s == t,
{
    assert(s =~= (x + s).skip(x.len() as int));
    assert(t =~= (x + t).skip(x.len() as int));
}

/// Two equal texts that start with an optional parameter have the same, and go on alike.
proof fn lemma_optional(
    a: Option<Seq<char>>,
    s: Seq<char>,
    b: Option<Seq<char>>,
    t: Seq<char>,
)
    requires
        optional(a) + s == optional(b) + t,
        a matches Some(name) ==> unquoted(name),
        b matches Some(name) ==> unquoted(name),
    ensures
        a == b,
        s == t,
{
    reveal_strlit("\"");
    reveal_strlit("null");
    let whole = optional(a) + s;
    assert(a is Some ==> whole[0] == '"');
    assert(a is None ==> whole[0] == 'n');
    assert(b is Some ==> (optional(b) + t)[0] == '"');
    assert(b is None ==> (optional(b) + t)[0] == 'n');
    match (a, b) {
        (Some(x), Some(y)) => {
            assert("\""@ + x + "\""@ + s =~= "\""@ + (x + ("\""@ + s)));
            assert("\""@ + y + "\""@ + t =~= "\""@ + (y + ("\""@ + t)));
            lemma_same_start("\""@, x + ("\""@ + s), y + ("\""@ + t));
            lemma_split(x, "\""@ + s, y, "\""@ + t, '"');
            lemma_same_start("\""@, s, t);
        },
        _ => {
            lemma_same_start("null"@, s, t);
        },
    }
}

/// The page behind the address.
spec fn page_behind_ip(config: Config) -> Seq<char> {
    AFTER_QUOTED@ + (script_bool(config.is_dialer) + (BEFORE_QUOTED@ + (decimal(
        config.test_timeout as nat,
    ) + (BETWEEN_QUOTED@ + (BIND_ADDR@ + (AFTER_QUOTED@ + (optional(
        optional_view(config.sec_protocol),
    ) + (BETWEEN@ + (optional(optional_view(config.muxer)) + PAGE_TAIL@)))))))))
}

proof fn lemma_grouped(a: Seq<char>, b: Seq<char>, c: Seq<char>)
    ensures
        a + b + c == a + (b + c),
{
    assert(a + b + c =~= a + (b + c));
}

/// The page, taken apart from its start on.
proof fn lemma_page(config: Config)
    ensures
        page(config) == PAGE_HEAD@ + (config.transport@ + (BETWEEN_QUOTED@ + (config.ip@
            + page_behind_ip(config)))),
{
    let security = optional(optional_view(config.sec_protocol));
    let muxer = optional(optional_view(config.muxer));
    let timeout = decimal(config.test_timeout as nat);
    let dials = script_bool(config.is_dialer);
    let l0 = PAGE_HEAD@;
    let l1 = l0 + config.transport@;
    let l2 = l1 + BETWEEN_QUOTED@;
    let l3 = l2 + config.ip@;
    let l4 = l3 + AFTER_QUOTED@;
    let l5 = l4 + dials;
    let l6 = l5 + BEFORE_QUOTED@;
    let l7 = l6 + timeout;
    let l8 = l7 + BETWEEN_QUOTED@;
    let l9 = l8 + BIND_ADDR@;
    let l10 = l9 + AFTER_QUOTED@;
    let l11 = l10 + security;
    let l12 = l11 + BETWEEN@;
    let r12 = muxer + PAGE_TAIL@;
    let r11 = BETWEEN@ + r12;
    let r10 = security + r11;
    let r9 = AFTER_QUOTED@ + r10;
    let r8 = BIND_ADDR@ + r9;
    let r7 = BETWEEN_QUOTED@ + r8;
    let r6 = timeout + r7;
    let r5 = BEFORE_QUOTED@ + r6;
    let r4 = dials + r5;
    let r3 = AFTER_QUOTED@ + r4;
    lemma_grouped(l12, muxer, PAGE_TAIL@);
    lemma_grouped(l11, BETWEEN@, r12);
    lemma_grouped(l10, security, r11);
    lemma_grouped(l9, AFTER_QUOTED@, r10);
    lemma_grouped(l8, BIND_ADDR@, r9);
    lemma_grouped(l7, BETWEEN_QUOTED@, r8);
    lemma_grouped(l6, timeout, r7);
    lemma_grouped(l5, BEFORE_QUOTED@, r6);
    lemma_grouped(l4, dials, r5);
    lemma_grouped(l3, AFTER_QUOTED@, r4);
    lemma_grouped(l2, config.ip@, r3);
    lemma_grouped(l1, BETWEEN_QUOTED@, config.ip@ + r3);
    lemma_grouped(l0, config.transport@, BETWEEN_QUOTED@ + (config.ip@ + r3));
}

/// Different parameters give different pages, as long as there are no quotation marks in them: in
/// particular so do configurations that differ in nothing but the transport.
pub proof fn law_pages_tell_parameters_apart(a: Config, b: Config)
    requires
        unquoted(a.transport@),
        unquoted(b.transport@),
        page(a) == page(b),
    ensures
        a.transport@ == b.transport@,
        unquoted(a.ip@) && unquoted(b.ip@) ==> {
            &&& a.ip@ == b.ip@
            &&& a.is_dialer == b.is_dialer
            &&& a.test_timeout == b.test_timeout
            &&& (a.sec_protocol matches Some(name) ==> unquoted(name@)) && (
            b.sec_protocol matches Some(name) ==> unquoted(name@)) ==> {
                &&& optional_view(a.sec_protocol) == optional_view(b.sec_protocol)
                &&& (a.muxer matches Some(name) ==> unquoted(name@)) && (
                b.muxer matches Some(name) ==> unquoted(name@)) ==> optional_view(a.muxer)
                    == optional_view(b.muxer)
            }
        },
{
    reveal_strlit("\",
                    \"");
    reveal_strlit("\",
                    ");
    reveal_strlit(",
                    \"");
    let behind_a = BETWEEN_QUOTED@ + (a.ip@ + page_behind_ip(a));
    let behind_b = BETWEEN_QUOTED@ + (b.ip@ + page_behind_ip(b));
    lemma_page(a);
    lemma_page(b);
    lemma_same_start(PAGE_HEAD@, a.transport@ + behind_a, b.transport@ + behind_b);
    lemma_split(a.transport@, behind_a, b.transport@, behind_b, '"');
    lemma_same_start(BETWEEN_QUOTED@, a.ip@ + page_behind_ip(a), b.ip@ + page_behind_ip(b));
    if unquoted(a.ip@) && unquoted(b.ip@) {
        lemma_split(a.ip@, page_behind_ip(a), b.ip@, page_behind_ip(b), '"');
        lemma_behind_ip(a, b);
    }
}

/// Pages that are alike behind the address have the same parameters there.
proof fn lemma_behind_ip(a: Config, b: Config)
    requires
        page_behind_ip(a) == page_behind_ip(b),
    ensures
        a.is_dialer == b.is_dialer,
        a.test_timeout == b.test_timeout,
        (a.sec_protocol matches Some(name) ==> unquoted(name@)) && (
        b.sec_protocol matches Some(name) ==> unquoted(name@)) ==> {
            &&& optional_view(a.sec_protocol) == optional_view(b.sec_protocol)
            &&& (a.muxer matches Some(name) ==> unquoted(name@)) && (b.muxer matches Some(name)
                ==> unquoted(name@)) ==> optional_view(a.muxer) == optional_view(b.muxer)
        },
{
    reveal_strlit("\",
                    \"");
    reveal_strlit(",
                    \"");
    reveal_strlit("true");
    reveal_strlit("false");
    let muxer_a = optional(optional_view(a.muxer)) + PAGE_TAIL@;
    let muxer_b = optional(optional_view(b.muxer)) + PAGE_TAIL@;
    let security_a = optional(optional_view(a.sec_protocol)) + (BETWEEN@ + muxer_a);
    let security_b = optional(optional_view(b.sec_protocol)) + (BETWEEN@ + muxer_b);
    let served_a = BIND_ADDR@ + (AFTER_QUOTED@ + security_a);
    let served_b = BIND_ADDR@ + (AFTER_QUOTED@ + security_b);
    let digits_a = decimal(a.test_timeout as nat);
    let digits_b = decimal(b.test_timeout as nat);
    let timeout_a = digits_a + (BETWEEN_QUOTED@ + served_a);
    let timeout_b = digits_b + (BETWEEN_QUOTED@ + served_b);
    let dials_a = script_bool(a.is_dialer) + (BEFORE_QUOTED@ + timeout_a);
    let dials_b = script_bool(b.is_dialer) + (BEFORE_QUOTED@ + timeout_b);
    lemma_same_start(AFTER_QUOTED@, dials_a, dials_b);
    assert(dials_a[0] == script_bool(a.is_dialer)[0]);
    assert(dials_b[0] == script_bool(b.is_dialer)[0]);
    lemma_same_start(
        script_bool(a.is_dialer),
        BEFORE_QUOTED@ + timeout_a,
        BEFORE_QUOTED@ + timeout_b,
    );
    lemma_same_start(BEFORE_QUOTED@, timeout_a, timeout_b);
    law_decimal_spells_the_number(a.test_timeout as nat);
    law_decimal_spells_the_number(b.test_timeout as nat);
    lemma_split(digits_a, BETWEEN_QUOTED@ + served_a, digits_b, BETWEEN_QUOTED@ + served_b, '"');
    lemma_same_start(BETWEEN_QUOTED@, served_a, served_b);
    lemma_same_start(BIND_ADDR@, AFTER_QUOTED@ + security_a, AFTER_QUOTED@ + security_b);
    lemma_same_start(AFTER_QUOTED@, security_a, security_b);
    if (a.sec_protocol matches Some(name) ==> unquoted(name@)) && (b.sec_protocol matches Some(name)
        ==> unquoted(name@)) {
        lemma_optional(
            optional_view(a.sec_protocol),
            BETWEEN@ + muxer_a,
            optional_view(b.sec_protocol),
            BETWEEN@ + muxer_b,
        );
        lemma_same_start(BETWEEN@, muxer_a, muxer_b);
        if (a.muxer matches Some(name) ==> unquoted(name@)) && (b.muxer matches Some(name)
            ==> unquoted(name@)) {
            lemma_optional(
                optional_view(a.muxer),
                PAGE_TAIL@,
                optional_view(b.muxer),
                PAGE_TAIL@,
            );
        }
    }
}

/// The page that is made for a configuration has the transport directly behind its head, then the
/// address; and pages that are made for configurations which differ in nothing but transports without
/// quotation marks differ.
pub proof fn law_made_pages_carry_the_transport(
    config: &Config,
    html: String,
    other: &Config,
    other_html: String,
)
    requires
        call_ensures(index_html, (config,), html),
        call_ensures(index_html, (other,), other_html),
    ensures
        occurs_at(html@, PAGE_HEAD@, 0),
        occurs_at(html@, config.transport@, PAGE_HEAD@.len() as int),
        occurs_at(html@, BETWEEN_QUOTED@, PAGE_HEAD@.len() + config.transport@.len() as int),
        occurs_at(
            html@,
            config.ip@,
            PAGE_HEAD@.len() as int + config.transport@.len() + BETWEEN_QUOTED@.len(),
        ),
        unquoted(config.transport@) && unquoted(other.transport@) && config.transport@
            != other.transport@ ==> html@ != other_html@,
{
    law_page_carries_the_parameters(*config);
    if unquoted(config.transport@) && unquoted(other.transport@) && html@ == other_html@ {
        law_pages_tell_parameters_apart(*config, *other);
    }
}

/// A line of the browser's driver tells that it is ready exactly where it holds these words, and a
/// line of its log is a warning exactly where it starts with either of these levels and a space.
pub proof fn law_lines_are_told_by_their_words(
    front: Seq<char>,
    back: Seq<char>,
    said: &str,
    ready: bool,
    logged: &str,
    warning: bool,
)
    requires
        call_ensures(driver_is_ready, (said,), ready),
        call_ensures(is_warning, (logged,), warning),
    ensures
        said@ == front + "ChromeDriver was started successfully"@ + back ==> ready,
        logged@ == "WARN "@ + back ==> warning,
        logged@ == "ERROR "@ + back ==> warning,
        warning ==> logged@ == "WARN "@ + logged@.skip(5) || logged@ == "ERROR "@ + logged@.skip(6),
        ready ==> exists|at: int|
            0 <= at <= said@.len() - DRIVER_READY@.len() && said@ == #[trigger] said@.take(at)
                + DRIVER_READY@ + said@.skip(at + DRIVER_READY@.len()),
{
    reveal_strlit("WARN ");
    reveal_strlit("ERROR ");
    law_what_occurs_is_there(front, DRIVER_READY@, back);
    law_what_occurs_is_there(front, "WARN "@, back);
    law_what_occurs_is_there(front, "ERROR "@, back);
}

/// The file that a path names is the end of the path: only slashes stand before it, and it starts
/// with none. The type of content goes by the path, and nothing is served that is not there.
pub proof fn law_assets_are_served_by_their_path(
    path: &str,
    file: String,
    exists: bool,
    mime: Option<String>,
)
    requires
        call_ensures(asset_path, (path,), file),
        call_ensures(serve_asset, (path, exists), mime),
    ensures
        file@.len() <= path@.len(),
        file@ == path@.skip(path@.len() - file@.len()),
        forall|i: int| 0 <= i < path@.len() - file@.len() ==> #[trigger] path@[i] == '/',
        file@.len() > 0 ==> file@[0] != '/',
        mime is Some <==> exists,
        mime matches Some(text) ==> text@ == guessed_mime(path@),
{
    reveal_strlit("/");
    law_prefixes_are_stripped(path@, "/"@);
    let n = path@.len() - file@.len();
    assert forall|i: int| 0 <= i < n implies #[trigger] path@[i] == '/' by {
        assert(path@[i] == "/"@[i % 1]);
        assert(i % 1 == 0);
    }
    if file@.len() > 0 && file@[0] == '/' {
        assert(file@.take(1) =~= "/"@);
    }
}

/// The page is served where the host is bound.
pub proof fn law_page_is_where_it_is_served(url: String)
    requires
        call_ensures(page_url, (), url),
    ensures
        url@ == "http://127.0.0.1:8080"@,
{
    reveal_strlit("http://");
    reveal_strlit("127.0.0.1:8080");
    reveal_strlit("http://127.0.0.1:8080");
    assert(url@ =~= "http://127.0.0.1:8080"@);
}

/// A browser gets a window only where the setting is a plain no.
pub proof fn law_only_a_plain_no_shows_a_window(setting: Option<&str>, hidden: bool)
    requires
        call_ensures(headless, (setting,), hidden),
    ensures
        setting is None ==> hidden,
        setting matches Some(value) ==> hidden == (value@ != "0"@ && value@ != "false"@),
{
}

/// A test succeeds exactly with the report that it gave; all else fails, and says why.
pub proof fn law_reports_are_handed_on(waited: Waited, r: Result<Report, String>)
    requires
        call_ensures(outcome, (waited,), r),
    ensures
        r is Ok <==> waited matches Waited::Reported(Ok(_)),
        r matches Ok(report) ==> waited == Waited::Reported(Ok::<Report, String>(report)),
        r matches Err(text) ==> ends_with(
            text@,
            match waited {
                Waited::Reported(Err(error)) => error@,
                Waited::TimedOut => "Test timed out"@,
                _ => "Results channel closed"@,
            },
        ),
{
    match waited {
        Waited::Reported(Err(error)) => {
            lemma_ends("Tests failed: "@, error@);
        },
        Waited::TimedOut => {
            lemma_ends("Tests failed: "@, "Test timed out"@);
        },
        Waited::Closed => {
            lemma_ends("Tests failed: "@, "Results channel closed"@);
        },
        _ => {},
    }
}

} // verus!
