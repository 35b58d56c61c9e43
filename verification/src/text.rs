//! Working on text character by character.
use vstd::prelude::*;

verus! {

/// `String::push` of the standard library: appends the character.
pub assume_specification[ String::push ](s: &mut String, c: char)
    ensures
        final(s)@ == old(s)@.push(c),
;

/// The characters of `s`, in order.
pub fn chars_of(s: &str) -> (r: Vec<char>)
    ensures
        r@ == s@,
{
    let mut chars: Vec<char> = Vec::new();
    for c in it: s.chars()
        invariant
            it.seq() == s@,
            chars@ == s@.take(it.index()),
    {
        proof {
            assert(s@.take(it.index() + 1) =~= s@.take(it.index()).push(c));
        }
        chars.push(c);
    }
    assert(s@.take(s@.len() as int) =~= s@);
    chars
}

/// The text that `chars` spell.
pub fn string_of(chars: &[char]) -> (r: String)
    ensures
        r@ == chars@,
{
    let mut s = String::new();
    let mut i: usize = 0;
    while i < chars.len()
        invariant
            i <= chars@.len(),
            s@ == chars@.take(i as int),
        decreases chars@.len() - i,
    {
        s.push(chars[i]);
        proof {
            assert(chars@.take(i + 1) =~= chars@.take(i as int).push(chars@[i as int]));
        }
        i += 1;
    }
    assert(chars@.take(chars@.len() as int) =~= chars@);
    s
}

/// Where `c` stands first in `s` from `from` on, or the end of `s`.
pub open spec fn first(s: Seq<char>, c: char, from: int) -> int
    decreases s.len() - from,
{
    if from >= s.len() {
        s.len() as int
    } else if s[from] == c {
        from
    } else {
        first(s, c, from + 1)
    }
}

/// The first `c` is the first.
pub proof fn lemma_first(s: Seq<char>, c: char, from: int)
    requires
        0 <= from <= s.len(),
    ensures
        from <= first(s, c, from) <= s.len(),
        first(s, c, from) < s.len() ==> s[first(s, c, from)] == c,
        forall|i: int| from <= i < first(s, c, from) ==> s[i] != c,
    decreases s.len() - from,
{
    if from < s.len() && s[from] != c {
        lemma_first(s, c, from + 1);
    }
}

/// Where there is no `c` before one at `at`, that is the first.
pub proof fn lemma_is_first(s: Seq<char>, c: char, from: int, at: int)
    requires
        0 <= from <= at <= s.len(),
        at < s.len() ==> s[at] == c,
        forall|i: int| from <= i < at ==> s[i] != c,
    ensures
        first(s, c, from) == at,
{
    lemma_first(s, c, from);
    let found = first(s, c, from);
    if found < at {
        assert(s[found] != c);
    }
}

/// Finds the first `c` in `s` from `from` on, or the end of `s`.
pub fn find(s: &[char], c: char, from: usize) -> (r: usize)
    requires
        from <= s@.len(),
    ensures
        r == first(s@, c, from as int),
        from <= r <= s@.len(),
{
    let mut i: usize = from;
    while i < s.len() && s[i] != c
        invariant
            from <= i <= s@.len(),
            forall|j: int| from <= j < i ==> s@[j] != c,
        decreases s@.len() - i,
    {
        i += 1;
    }
    proof {
        lemma_is_first(s@, c, from as int, i as int);
    }
    i
}

/// `needle` occurs in `s` from `at` on.
pub open spec fn occurs_at(s: Seq<char>, needle: Seq<char>, at: int) -> bool {
    0 <= at <= s.len() - needle.len() && s.subrange(at, at + needle.len()) == needle
}

/// `needle` occurs in `s`.
pub open spec fn occurs_in(s: Seq<char>, needle: Seq<char>) -> bool {
    exists|at: int| occurs_at(s, needle, at)
}

/// Whether `needle` occurs in `s` from `at` on.
pub fn is_at(s: &[char], needle: &[char], at: usize) -> (r: bool)
    ensures
        r == occurs_at(s@, needle@, at as int),
{
    let len: usize = s.len();
    if len < needle.len() || at > len - needle.len() {
        return false;
    }
    let mut i: usize = 0;
    while i < needle.len()
        invariant
            len == s@.len(),
            i <= needle@.len(),
            at + needle@.len() <= s@.len(),
            s@.subrange(at as int, at + i) == needle@.take(i as int),
        decreases needle@.len() - i,
    {
        if s[at + i] != needle[i] {
            proof {
                if s@.subrange(at as int, at + needle@.len()) == needle@ {
                    assert(s@.subrange(at as int, at + needle@.len())[i as int] == s@[at + i]);
                }
            }
            return false;
        }
        proof {
            assert(s@.subrange(at as int, at + i + 1) =~= s@.subrange(at as int, at + i).push(
                s@[at + i],
            ));
            assert(needle@.take(i + 1) =~= needle@.take(i as int).push(needle@[i as int]));
        }
        i += 1;
    }
    assert(needle@.take(needle@.len() as int) =~= needle@);
    true
}

/// Whether `needle` occurs in `s`.
pub fn contains(s: &str, needle: &str) -> (r: bool)
    ensures
        r == occurs_in(s@, needle@),
{
    let text = chars_of(s);
    let wanted = chars_of(needle);
    if wanted.len() > text.len() {
        return false;
    }
    let last: usize = text.len() - wanted.len();
    let mut at: usize = 0;
    while at < last
        invariant
            text@ == s@,
            wanted@ == needle@,
            last == s@.len() - needle@.len(),
            at <= last,
            forall|i: int| 0 <= i < at ==> !occurs_at(s@, needle@, i),
        decreases last - at,
    {
        if is_at(text.as_slice(), wanted.as_slice(), at) {
            return true;
        }
        at += 1;
    }
    is_at(text.as_slice(), wanted.as_slice(), last)
}

/// Whether `a` and `b` are the same text.
pub fn equal(a: &str, b: &str) -> (r: bool)
    ensures
        r == (a@ == b@),
{
    let left = chars_of(a);
    let right = chars_of(b);
    if left.len() != right.len() {
        return false;
    }
    let r = is_at(left.as_slice(), right.as_slice(), 0);
    assert(a@.subrange(0, a@.len() as int) =~= a@);
    r
}

/// The digits of `n` in base ten.
pub open spec fn decimal(n: nat) -> Seq<char>
    decreases n,
{
    let digit = (('0' as int) + n % 10) as char;
    if n < 10 {
        seq![digit]
    } else {
        decimal(n / 10).push(digit)
    }
}

fn digit_of(value: u8) -> (r: char)
    requires
        value < 10,
    ensures
        r == (('0' as int) + value) as char,
{
    (48 + value) as char
}

/// Writes `n` in base ten.
pub fn to_decimal(n: u64) -> (r: String)
    ensures
        r@ == decimal(n as nat),
    decreases n,
{
    let digit = digit_of((n % 10) as u8);
    let mut text = if n < 10 {
        String::new()
    } else {
        to_decimal(n / 10)
    };
    text.push(digit);
    proof {
        if n < 10 {
            assert(text@ =~= seq![digit]);
        }
    }
    text
}

/// The text without `prefix` at its start, however often it stands there.
pub open spec fn strip_prefixes(s: Seq<char>, prefix: Seq<char>) -> Seq<char>
    decreases s.len(),
{
    if prefix.len() > 0 && begins_with(s, prefix) {
        strip_prefixes(s.skip(prefix.len() as int), prefix)
    } else {
        s
    }
}

/// The text without `c` at its end, however often it stands there.
pub open spec fn strip_trailing(s: Seq<char>, c: char) -> Seq<char>
    decreases s.len(),
{
    if s.len() > 0 && s.last() == c {
        strip_trailing(s.drop_last(), c)
    } else {
        s
    }
}

/// Takes `prefix` off the start, however often it stands there.
pub fn trim_start(s: &str, prefix: &str) -> (r: String)
    ensures
        r@ == strip_prefixes(s@, prefix@),
{
    let text = chars_of(s);
    let prefix_chars = chars_of(prefix);
    let len: usize = text.len();
    let mut at: usize = 0;
    assert(text@.skip(0) =~= text@);
    while prefix_chars.len() > 0 && is_at(text.as_slice(), prefix_chars.as_slice(), at)
        invariant
            text@ == s@,
            prefix_chars@ == prefix@,
            at <= len == text@.len(),
            strip_prefixes(text@.skip(at as int), prefix@) == strip_prefixes(s@, prefix@),
        decreases text@.len() - at,
    {
        proof {
            let rest = text@.skip(at as int);
            assert(rest.subrange(0, prefix@.len() as int) =~= text@.subrange(
                at as int,
                at + prefix@.len(),
            ));
            assert(rest.skip(prefix@.len() as int) =~= text@.skip(at + prefix@.len()));
        }
        at += prefix_chars.len();
    }
    proof {
        let rest = text@.skip(at as int);
        if prefix@.len() > 0 && begins_with(rest, prefix@) {
            assert(rest.subrange(0, prefix@.len() as int) =~= text@.subrange(
                at as int,
                at + prefix@.len(),
            ));
        }
        assert(text@.skip(at as int) =~= text@.subrange(at as int, text@.len() as int));
    }
    string_of(vstd::slice::slice_subrange(text.as_slice(), at, len))
}

/// Takes `c` off the end, however often it stands there.
pub fn trim_end(s: &str, c: char) -> (r: String)
    ensures
        r@ == strip_trailing(s@, c),
{
    let text = chars_of(s);
    let mut end: usize = text.len();
    assert(text@.take(end as int) =~= text@);
    while end > 0 && text[end - 1] == c
        invariant
            text@ == s@,
            end <= text@.len(),
            strip_trailing(text@.take(end as int), c) == strip_trailing(s@, c),
        decreases end,
    {
        assert(text@.take(end as int).drop_last() =~= text@.take(end - 1));
        end -= 1;
    }
    assert(text@.take(end as int) =~= text@.subrange(0, end as int));
    string_of(vstd::slice::slice_subrange(text.as_slice(), 0, end))
}

/// `s` starts with `prefix`.
pub open spec fn begins_with(s: Seq<char>, prefix: Seq<char>) -> bool {
    occurs_at(s, prefix, 0)
}

/// Whether `s` starts with `prefix`.
pub fn starts_with(s: &str, prefix: &str) -> (r: bool)
    ensures
        r == begins_with(s@, prefix@),
{
    let s = chars_of(s);
    let prefix = chars_of(prefix);
    is_at(s.as_slice(), prefix.as_slice(), 0)
}

/// The number that digits in base ten spell.
pub open spec fn spelled(digits: Seq<char>) -> int
    decreases digits.len(),
{
    if digits.len() == 0 {
        0
    } else {
        10 * spelled(digits.drop_last()) + (digits.last() as int - '0' as int)
    }
}

/// A number in base ten is made of digits, does not start with a zero unless it is zero, and spells
/// the number: two numbers are never written alike.
pub proof fn law_decimal_spells_the_number(n: nat)
    ensures
        spelled(decimal(n)) == n,
        decimal(n).len() > 0,
        forall|i: int| 0 <= i < decimal(n).len() ==> '0' <= #[trigger] decimal(n)[i] <= '9',
        decimal(n)[0] == '0' ==> n == 0,
    decreases n,
{
    let digit = (('0' as int) + n % 10) as char;
    if n < 10 {
        assert(seq![digit].drop_last() =~= Seq::<char>::empty());
        assert(spelled(Seq::<char>::empty()) == 0);
    } else {
        law_decimal_spells_the_number(n / 10);
        assert(decimal(n).drop_last() =~= decimal(n / 10));
    }
}

/// What is left of a text without a prefix is its end: before it stands nothing but the prefix, over
/// and over, and it does not start with the prefix again.
pub proof fn law_prefixes_are_stripped(s: Seq<char>, prefix: Seq<char>)
    requires
        prefix.len() > 0,
    ensures
        strip_prefixes(s, prefix).len() <= s.len(),
        strip_prefixes(s, prefix) == s.skip(s.len() - strip_prefixes(s, prefix).len()),
        (s.len() - strip_prefixes(s, prefix).len()) % prefix.len() as int == 0,
        forall|i: int|
            0 <= i < s.len() - strip_prefixes(s, prefix).len() ==> #[trigger] s[i] == prefix[i
                % prefix.len() as int],
        strip_prefixes(s, prefix).len() < prefix.len() || strip_prefixes(s, prefix).take(
            prefix.len() as int,
        ) != prefix,
    decreases s.len(),
{
    let n = prefix.len() as int;
    let r = strip_prefixes(s, prefix);
    if begins_with(s, prefix) {
        let rest = s.skip(n);
        law_prefixes_are_stripped(rest, prefix);
        let cut = rest.len() - r.len();
        assert(rest.skip(cut) =~= s.skip(cut + n));
        assert((cut + n) % n == 0) by (nonlinear_arith)
            requires
                n > 0,
                cut % n == 0,
        ;
        assert forall|i: int| 0 <= i < cut + n implies #[trigger] s[i] == prefix[i % n] by {
            if i < n {
                assert(s.subrange(0, n)[i] == s[i]);
                assert(i % n == i) by (nonlinear_arith)
                    requires
                        0 <= i < n,
                ;
            } else {
                assert(rest[i - n] == s[i]);
                assert((i - n) % n == i % n) by (nonlinear_arith)
                    requires
                        n > 0,
                ;
            }
        }
    } else {
        assert(s.skip(0) =~= s);
        if s.len() >= n {
            assert(s.take(n) =~= s.subrange(0, n));
        }
    }
}

/// What is left of a text without a trailing character is its start: behind it stands nothing but
/// that character, and it does not end with the character again.
pub proof fn law_trailing_is_stripped(s: Seq<char>, c: char)
    ensures
        strip_trailing(s, c).len() <= s.len(),
        strip_trailing(s, c) == s.take(strip_trailing(s, c).len() as int),
        forall|i: int| strip_trailing(s, c).len() <= i < s.len() ==> #[trigger] s[i] == c,
        strip_trailing(s, c).len() > 0 ==> strip_trailing(s, c).last() != c,
    decreases s.len(),
{
    let r = strip_trailing(s, c);
    if s.len() > 0 && s.last() == c {
        let rest = s.drop_last();
        law_trailing_is_stripped(rest, c);
        assert(rest.take(r.len() as int) =~= s.take(r.len() as int));
        assert forall|i: int| r.len() <= i < s.len() implies #[trigger] s[i] == c by {
            if i < rest.len() {
                assert(rest[i] == s[i]);
            }
        }
    } else {
        assert(s.take(s.len() as int) =~= s);
    }
}

/// A text occurs in another exactly where the other is made of something, the text, and something
/// more; it starts the other where there is nothing in front.
pub proof fn law_what_occurs_is_there(before: Seq<char>, needle: Seq<char>, after: Seq<char>)
    ensures
        occurs_in(before + needle + after, needle),
        begins_with(needle + after, needle),
        forall|s: Seq<char>| #[trigger]
            occurs_in(s, needle) ==> exists|at: int|
                0 <= at <= s.len() - needle.len() && s == #[trigger] s.take(at) + needle + s.skip(
                    at + needle.len(),
                ),
        forall|s: Seq<char>| #[trigger]
            begins_with(s, needle) ==> s == needle + s.skip(needle.len() as int),
{
    let whole = before + needle + after;
    let at = before.len() as int;
    assert(whole.subrange(at, at + needle.len()) =~= needle);
    assert(occurs_at(whole, needle, at));
    assert((needle + after).subrange(0, needle.len() as int) =~= needle);
    assert forall|s: Seq<char>| #[trigger] occurs_in(s, needle) implies exists|at: int|
        0 <= at <= s.len() - needle.len() && s == #[trigger] s.take(at) + needle + s.skip(
            at + needle.len(),
        ) by {
        let at = choose|at: int| occurs_at(s, needle, at);
        lemma_taken_apart(s, needle, at);
    }
    assert forall|s: Seq<char>| #[trigger] begins_with(s, needle) implies s == needle + s.skip(
        needle.len() as int,
    ) by {
        lemma_taken_apart(s, needle, 0);
        assert(s.take(0) + needle =~= needle);
    }
}

proof fn lemma_taken_apart(s: Seq<char>, needle: Seq<char>, at: int)
    requires
        occurs_at(s, needle, at),
    ensures
        s == s.take(at) + needle + s.skip(at + needle.len()),
{
    assert forall|i: int| at <= i < at + needle.len() implies s[i] == needle[i - at] by {
        assert(s.subrange(at, at + needle.len())[i - at] == s[i]);
    }
    assert(s =~= s.take(at) + needle + s.skip(at + needle.len()));
}

/// `s` ends with `tail`.
pub open spec fn ends_with(s: Seq<char>, tail: Seq<char>) -> bool {
    s.len() >= tail.len() && s.skip(s.len() - tail.len()) == tail
}

/// What is appended is at the end.
pub proof fn lemma_ends(front: Seq<char>, tail: Seq<char>)
    ensures
        ends_with(front + tail, tail),
{
    assert((front + tail).skip(front.len() as int) =~= tail);
}

} // verus!
