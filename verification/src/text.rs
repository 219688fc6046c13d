//! Character-level text handling: whitespace trimming and decimal parsing,
//! with the rules of Rust's `str::trim` and integer `FromStr`.
use vstd::prelude::*;

verus! {

/// The characters of `text`.
pub fn chars_of(text: &str) -> (r: Vec<char>)
    ensures
        r@ == text@,
{
    let mut out: Vec<char> = Vec::new();
    for c in it: text.chars()
        invariant
            out@ == it.seq().take(it.index() as int),
    {
        out.push(c);
    }
    out
}


/// Collects characters into a `String` (`String::from_iter`), which holds
/// exactly those characters.
#[verifier::external_body]
pub(crate) fn string_from_chars(cs: &[char]) -> (r: String)
    ensures
        r@ == cs@,
{
    String::from_iter(cs.iter())
}

/// Characters with the Unicode `White_Space` property (what
/// `char::is_whitespace` accepts).
pub open spec fn is_white_space(c: char) -> bool {
    let u = c as u32;
    ||| 0x09 <= u <= 0x0D
    ||| u == 0x20
    ||| u == 0x85
    ||| u == 0xA0
    ||| u == 0x1680
    ||| 0x2000 <= u <= 0x200A
    ||| u == 0x2028
    ||| u == 0x2029
    ||| u == 0x202F
    ||| u == 0x205F
    ||| u == 0x3000
}

/// `cs` without leading whitespace.
pub open spec fn trim_start(cs: Seq<char>) -> Seq<char>
    decreases cs.len(),
{
    if cs.len() > 0 && is_white_space(cs[0]) {
        trim_start(cs.drop_first())
    } else {
        cs
    }
}

/// `cs` without trailing whitespace.
pub open spec fn trim_end(cs: Seq<char>) -> Seq<char>
    decreases cs.len(),
{
    if cs.len() > 0 && is_white_space(cs.last()) {
        trim_end(cs.drop_last())
    } else {
        cs
    }
}

/// `cs` without leading and trailing whitespace.
pub open spec fn trim(cs: Seq<char>) -> Seq<char> {
    trim_end(trim_start(cs))
}

/// Whether `c` is a whitespace character.
pub fn is_whitespace_char(c: char) -> (r: bool)
    ensures
        r == is_white_space(c),
{
    let u = c as u32;
    (0x09 <= u && u <= 0x0D) || u == 0x20 || u == 0x85 || u == 0xA0 || u == 0x1680 || (0x2000 <= u
        && u <= 0x200A) || u == 0x2028 || u == 0x2029 || u == 0x202F || u == 0x205F || u == 0x3000
}

/// The characters of `cs` from `start` up to `end`.
pub fn copy_range(cs: &Vec<char>, start: usize, end: usize) -> (r: Vec<char>)
    requires
        start <= end <= cs.len(),
    ensures
        r@ == cs@.subrange(start as int, end as int),
{
    let mut out: Vec<char> = Vec::new();
    let mut i = start;
    while i < end
        invariant
            start <= i <= end <= cs.len(),
            out@ == cs@.subrange(start as int, i as int),
        decreases end - i,
    {
        out.push(cs[i]);
        i = i + 1;
    }
    out
}

/// `cs` without leading and trailing whitespace.
pub fn trim_chars(cs: &Vec<char>) -> (r: Vec<char>)
    ensures
        r@ == trim(cs@),
{
    let n = cs.len();
    let mut start: usize = 0;
    assert(cs@.subrange(0, n as int) =~= cs@);
    while start < n && is_whitespace_char(cs[start])
        invariant
            start <= n == cs.len(),
            trim_start(cs@) == trim_start(cs@.subrange(start as int, n as int)),
        decreases n - start,
    {
        assert(cs@.subrange(start as int, n as int).drop_first() =~= cs@.subrange(
            start + 1,
            n as int,
        ));
        start = start + 1;
    }
    assert(trim_start(cs@) == cs@.subrange(start as int, n as int));
    let mut end: usize = n;
    while end > start && is_whitespace_char(cs[end - 1])
        invariant
            start <= end <= n == cs.len(),
            trim(cs@) == trim_end(cs@.subrange(start as int, end as int)),
        decreases end,
    {
        assert(cs@.subrange(start as int, end as int).drop_last() =~= cs@.subrange(
            start as int,
            end - 1,
        ));
        end = end - 1;
    }
    assert(trim(cs@) == cs@.subrange(start as int, end as int));
    copy_range(cs, start, end)
}

/// Whether `cs` begins with `prefix`.
pub open spec fn has_prefix(cs: Seq<char>, prefix: Seq<char>) -> bool {
    prefix.len() <= cs.len() && cs.subrange(0, prefix.len() as int) == prefix
}

/// Whether `cs` begins with the characters of `prefix`.
pub fn starts_with_chars(cs: &Vec<char>, prefix: &Vec<char>) -> (r: bool)
    ensures
        r == has_prefix(cs@, prefix@),
{
    if prefix.len() > cs.len() {
        return false;
    }
    let mut i: usize = 0;
    while i < prefix.len()
        invariant
            prefix.len() <= cs.len(),
            i <= prefix.len(),
            forall|j: int| 0 <= j < i ==> cs@[j] == prefix@[j],
        decreases prefix.len() - i,
    {
        if cs[i] != prefix[i] {
            assert(cs@.subrange(0, prefix.len() as int)[i as int] != prefix@[i as int]);
            return false;
        }
        i = i + 1;
    }
    assert(cs@.subrange(0, prefix.len() as int) =~= prefix@);
    true
}

/// Whether `c` is an ASCII decimal digit.
pub open spec fn is_digit(c: char) -> bool {
    '0' <= c <= '9'
}

/// The value of the decimal digits `ds` (most significant first).
pub open spec fn digits_value(ds: Seq<char>) -> int
    decreases ds.len(),
{
    if ds.len() == 0 {
        0
    } else {
        digits_value(ds.drop_last()) * 10 + (ds.last() as int - '0' as int)
    }
}

/// Whether every character of `ds` is a decimal digit.
pub open spec fn all_digits(ds: Seq<char>) -> bool {
    forall|i: int| 0 <= i < ds.len() ==> is_digit(#[trigger] ds[i])
}

/// What `u16::from_str` returns: an optional `+` followed by at least one
/// decimal digit, with a value up to 65535.
pub open spec fn parse_u16_spec(cs: Seq<char>) -> Option<u16> {
    let ds = if cs.len() > 0 && cs[0] == '+' { cs.drop_first() } else { cs };
    if ds.len() > 0 && all_digits(ds) && digits_value(ds) <= u16::MAX {
        Some(digits_value(ds) as u16)
    } else {
        None
    }
}

/// What `i16::from_str` returns: an optional sign followed by at least one
/// decimal digit, with a value from -32768 to 32767.
pub open spec fn parse_i16_spec(cs: Seq<char>) -> Option<i16> {
    if cs.len() > 0 && cs[0] == '-' {
        let ds = cs.drop_first();
        if ds.len() > 0 && all_digits(ds) && digits_value(ds) <= 32768 {
            Some((0 - digits_value(ds)) as i16)
        } else {
            None
        }
    } else {
        let ds = if cs.len() > 0 && cs[0] == '+' { cs.drop_first() } else { cs };
        if ds.len() > 0 && all_digits(ds) && digits_value(ds) <= i16::MAX {
            Some(digits_value(ds) as i16)
        } else {
            None
        }
    }
}

proof fn lemma_digits_value_grows(ds: Seq<char>, k: int)
    requires
        all_digits(ds),
        0 <= k <= ds.len(),
    ensures
        digits_value(ds.take(k)) <= digits_value(ds),
        0 <= digits_value(ds.take(k)),
    decreases ds.len(),
{
    if k < ds.len() {
        assert(all_digits(ds.drop_last()));
        assert(ds.drop_last().take(k) =~= ds.take(k));
        lemma_digits_value_grows(ds.drop_last(), k);
        assert(is_digit(ds.last()));
    } else {
        assert(ds.take(k) =~= ds);
        if ds.len() > 0 {
            assert(all_digits(ds.drop_last()));
            assert(ds.drop_last().take(ds.len() - 1) =~= ds.drop_last());
            lemma_digits_value_grows(ds.drop_last(), ds.len() - 1);
            assert(is_digit(ds.last()));
        }
    }
}

/// The value of the decimal digits `cs[start..]` if they are all digits, at
/// least one, and their value is at most `limit`.
fn digits_up_to(cs: &Vec<char>, start: usize, limit: u32) -> (r: Option<u32>)
    requires
        start <= cs.len(),
        limit <= 100_000,
    ensures
        ({
            let ds = cs@.subrange(start as int, cs.len() as int);
            match r {
                Some(v) => ds.len() > 0 && all_digits(ds) && v == digits_value(ds) && v <= limit,
                None => !(ds.len() > 0 && all_digits(ds) && digits_value(ds) <= limit),
            }
        }),
{
    let ghost ds = cs@.subrange(start as int, cs.len() as int);
    if start == cs.len() {
        return None;
    }
    let mut acc: u32 = 0;
    let mut i = start;
    while i < cs.len()
        invariant
            start <= i <= cs.len(),
            limit <= 100_000,
            ds == cs@.subrange(start as int, cs.len() as int),
            all_digits(ds.take(i - start)),
            acc == digits_value(ds.take(i - start)),
            acc <= limit,
        decreases cs.len() - i,
    {
        let c = cs[i];
        if !('0' <= c && c <= '9') {
            assert(ds[i - start] == c);
            return None;
        }
        assert(ds.take(i - start + 1).drop_last() =~= ds.take(i - start));
        assert(ds.take(i - start + 1).last() == c);
        let next = acc * 10 + (c as u32 - '0' as u32);
        assert(all_digits(ds.take(i - start + 1)));
        if next > limit {
            proof {
                if all_digits(ds) {
                    lemma_digits_value_grows(ds, i - start + 1);
                }
            }
            return None;
        }
        acc = next;
        i = i + 1;
    }
    assert(ds.take(i - start) =~= ds);
    Some(acc)
}

/// Parses `cs` as `u16::from_str` does.
pub fn parse_u16_chars(cs: &Vec<char>) -> (r: Option<u16>)
    ensures
        r == parse_u16_spec(cs@),
{
    let start: usize = if cs.len() > 0 && cs[0] == '+' { 1 } else { 0 };
    assert(cs@.subrange(start as int, cs.len() as int) == if cs@.len() > 0 && cs@[0] == '+' {
        cs@.drop_first()
    } else {
        cs@
    });
    match digits_up_to(cs, start, 65535) {
        Some(v) => Some(v as u16),
        None => None,
    }
}

/// Parses `cs` as `i16::from_str` does.
pub fn parse_i16_chars(cs: &Vec<char>) -> (r: Option<i16>)
    ensures
        r == parse_i16_spec(cs@),
{
    if cs.len() > 0 && cs[0] == '-' {
        assert(cs@.subrange(1, cs.len() as int) == cs@.drop_first());
        match digits_up_to(cs, 1, 32768) {
            Some(v) => Some((0i32 - (v as i32)) as i16),
            None => None,
        }
    } else {
        let start: usize = if cs.len() > 0 && cs[0] == '+' { 1 } else { 0 };
        assert(cs@.subrange(start as int, cs.len() as int) == if cs@.len() > 0 && cs@[0] == '+' {
            cs@.drop_first()
        } else {
            cs@
        });
        match digits_up_to(cs, start, 32767) {
            Some(v) => Some(v as i16),
            None => None,
        }
    }
}

/// The UTF-16 code units of one character: itself below U+10000, otherwise
/// a surrogate pair.
pub open spec fn utf16_of_char(c: char) -> Seq<u16> {
    let u = c as u32;
    if u < 0x10000 {
        seq![u as u16]
    } else {
        seq![(0xD800 + (u - 0x10000) / 0x400) as u16, (0xDC00 + (u - 0x10000) % 0x400) as u16]
    }
}

/// The UTF-16 code units of a text (what `str::encode_utf16` yields).
pub open spec fn utf16_units(cs: Seq<char>) -> Seq<u16>
    decreases cs.len(),
{
    if cs.len() == 0 {
        Seq::empty()
    } else {
        utf16_units(cs.drop_last()) + utf16_of_char(cs.last())
    }
}

/// The text as UTF-16 with a terminating zero, as Win32 calls take it.
pub fn wide(value: &str) -> (r: Vec<u16>)
    ensures
        r@ == utf16_units(value@).push(0u16),
{
    let cs = chars_of(value);
    let mut out: Vec<u16> = Vec::new();
    let mut i: usize = 0;
    while i < cs.len()
        invariant
            i <= cs.len(),
            cs@ == value@,
            out@ == utf16_units(cs@.take(i as int)),
        decreases cs.len() - i,
    {
        let c = cs[i];
        let u = c as u32;
        proof { vstd::utf8::char_is_scalar(c); }
        assert(cs@.take(i + 1).drop_last() =~= cs@.take(i as int));
        assert(cs@.take(i + 1).last() == c);
        if u < 0x10000 {
            out.push(u as u16);
        } else {
            let v = u - 0x10000;
            assert(v / 0x400 < 0x400 && v % 0x400 < 0x400);
            out.push((0xD800 + v / 0x400) as u16);
            out.push((0xDC00 + v % 0x400) as u16);
        }
        i = i + 1;
    }
    assert(cs@.take(cs.len() as int) =~= cs@);
    out.push(0);
    out
}

} // verus!
