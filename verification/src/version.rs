//! Three-part dotted version identifiers: parsing, rendering, and the
//! round-trip law tying the two together.

use vstd::prelude::*;
use vstd::string::*;

verus! {

/// Error from parsing a dotted version string.
#[derive(Debug, Clone, Copy, PartialEq, Eq, Structural)]
pub enum ParseVersionError {
    /// A segment is not a valid decimal integer: empty, a stray character,
    /// or a value too large for the field.
    ParseIntError,
    /// The text does not split on `.` into exactly three segments.
    WrongLength,
}

/// A three-part dotted version identifier. Its textual form is exactly
/// `"<major>.<minor>.<patch>"`.
#[derive(Debug, Default, Hash, PartialEq, Eq, Structural)]
pub struct Version {
    pub major: u32,
    pub minor: u32,
    pub patch: u32,
}

/// A decimal digit.
pub open spec fn is_digit(c: char) -> bool {
    '0' <= c && c <= '9'
}

/// The numeric value of a decimal digit.
pub open spec fn digit_val(c: char) -> nat
    recommends
        is_digit(c),
{
    if is_digit(c) {
        ((c as nat) - ('0' as nat)) as nat
    } else {
        0
    }
}

/// The digit rendering a value below ten.
pub open spec fn digit_char(d: nat) -> char
    recommends
        d < 10,
{
    if d == 0 {
        '0'
    } else if d == 1 {
        '1'
    } else if d == 2 {
        '2'
    } else if d == 3 {
        '3'
    } else if d == 4 {
        '4'
    } else if d == 5 {
        '5'
    } else if d == 6 {
        '6'
    } else if d == 7 {
        '7'
    } else if d == 8 {
        '8'
    } else {
        '9'
    }
}

/// Every character of the sequence is a decimal digit.
pub open spec fn all_digits(s: Seq<char>) -> bool {
    forall|i: int| 0 <= i < s.len() ==> is_digit(#[trigger] s[i])
}

/// The value of a digit sequence read in base ten.
pub open spec fn digits_val(s: Seq<char>) -> nat
    decreases s.len(),
{
    if s.len() == 0 {
        0
    } else {
        digits_val(s.drop_last()) * 10 + digit_val(s.last())
    }
}

/// Unsigned decimal parsing as the standard library does it: an optional
/// leading `+`, then one or more digits, and a value that fits in 32 bits.
pub open spec fn spec_parse_u32(s: Seq<char>) -> Option<u32> {
    let t = if s.len() > 0 && s[0] == '+' {
        s.drop_first()
    } else {
        s
    };
    if t.len() == 0 || !all_digits(t) {
        None
    } else if digits_val(t) > u32::MAX {
        None
    } else {
        Some(digits_val(t) as u32)
    }
}

/// The segments of a character sequence split on `.`, as `str::split('.')`
/// yields them: always at least one segment, and one more per dot.
pub open spec fn split_dots(s: Seq<char>) -> Seq<Seq<char>>
    decreases s.len(),
{
    if s.len() == 0 {
        seq![Seq::<char>::empty()]
    } else if s[0] == '.' {
        seq![Seq::<char>::empty()] + split_dots(s.drop_first())
    } else {
        let rest = split_dots(s.drop_first());
        seq![seq![s[0]] + rest[0]] + rest.drop_first()
    }
}

/// What parsing a version string yields: exactly three dot-separated
/// segments, each a 32-bit decimal integer.
pub open spec fn spec_parse_version(s: Seq<char>) -> Result<Version, ParseVersionError> {
    let parts = split_dots(s);
    if parts.len() != 3 {
        Err(ParseVersionError::WrongLength)
    } else if spec_parse_u32(parts[0]) is Some && spec_parse_u32(parts[1]) is Some
        && spec_parse_u32(parts[2]) is Some {
        Ok(Version {
            major: spec_parse_u32(parts[0])->0,
            minor: spec_parse_u32(parts[1])->0,
            patch: spec_parse_u32(parts[2])->0,
        })
    } else {
        Err(ParseVersionError::ParseIntError)
    }
}

/// The canonical decimal rendering of a value: no sign, no leading zero
/// except for the value zero itself.
pub open spec fn spec_digits(n: nat) -> Seq<char>
    decreases n,
{
    if n < 10 {
        seq![digit_char(n)]
    } else {
        spec_digits(n / 10).push(digit_char(n % 10))
    }
}

/// The textual form of a version: `"<major>.<minor>.<patch>"`.
pub open spec fn spec_version_text(v: Version) -> Seq<char> {
    spec_digits(v.major as nat) + seq!['.'] + spec_digits(v.minor as nat) + seq!['.']
        + spec_digits(v.patch as nat)
}

pub proof fn lemma_split_dots_len(s: Seq<char>)
    ensures
        split_dots(s).len() >= 1,
    decreases s.len(),
{
    if s.len() == 0 {
    } else {
        lemma_split_dots_len(s.drop_first());
    }
}

/// A sequence without dots is a single segment.
pub proof fn lemma_split_dots_dotless(s: Seq<char>)
    requires
        forall|i: int| 0 <= i < s.len() ==> s[i] != '.',
    ensures
        split_dots(s) == seq![s],
    decreases s.len(),
{
    if s.len() == 0 {
        assert(split_dots(s) =~~= seq![s]);
    } else {
        lemma_split_dots_dotless(s.drop_first());
        assert(seq![s[0]] + s.drop_first() =~= s);
        assert(split_dots(s) =~~= seq![s]);
    }
}

/// Splitting cuts at the first dot when everything before it is dot-free.
pub proof fn lemma_split_dots_cut(x: Seq<char>, y: Seq<char>)
    requires
        forall|i: int| 0 <= i < x.len() ==> x[i] != '.',
    ensures
        split_dots(x + seq!['.'] + y) == seq![x] + split_dots(y),
    decreases x.len(),
{
    let s = x + seq!['.'] + y;
    if x.len() == 0 {
        assert(s[0] == '.');
        assert(s.drop_first() =~= y);
        assert(split_dots(s) =~~= seq![x] + split_dots(y));
    } else {
        assert(s[0] == x[0]);
        assert(s.drop_first() =~= x.drop_first() + seq!['.'] + y);
        lemma_split_dots_cut(x.drop_first(), y);
        let rest = split_dots(x.drop_first() + seq!['.'] + y);
        lemma_split_dots_len(y);
        assert(rest[0] == x.drop_first());
        assert(seq![s[0]] + rest[0] =~= x);
        assert(rest.drop_first() =~= split_dots(y));
        assert(split_dots(s) =~~= seq![x] + split_dots(y));
    }
}

/// A sequence containing a dot splits into at least two segments.
pub proof fn lemma_split_dots_has_dot(s: Seq<char>, k: int)
    requires
        0 <= k < s.len(),
        s[k] == '.',
    ensures
        split_dots(s).len() >= 2,
    decreases s.len(),
{
    if s[0] == '.' {
        lemma_split_dots_len(s.drop_first());
    } else {
        lemma_split_dots_has_dot(s.drop_first(), k - 1);
    }
}

/// Prefixes of a digit string never exceed its value.
proof fn lemma_digits_val_prefix_le(s: Seq<char>, j: int)
    requires
        0 <= j <= s.len(),
    ensures
        digits_val(s.take(j)) <= digits_val(s),
    decreases s.len() - j,
{
    if j == s.len() {
        assert(s.take(j) =~= s);
    } else {
        lemma_digits_val_prefix_le(s, j + 1);
        let t = s.take(j + 1);
        assert(t.drop_last() =~= s.take(j));
        assert(digits_val(s.take(j)) * 10 + digit_val(t.last()) >= digits_val(s.take(j)));
    }
}

/// The canonical rendering of a value is all digits.
pub proof fn lemma_spec_digits_are_digits(n: nat)
    ensures
        spec_digits(n).len() >= 1,
        all_digits(spec_digits(n)),
    decreases n,
{
    if n < 10 {
    } else {
        lemma_spec_digits_are_digits(n / 10);
        assert forall|i: int| 0 <= i < spec_digits(n).len() implies is_digit(
            #[trigger] spec_digits(n)[i],
        ) by {
            if i < spec_digits(n / 10).len() {
                assert(spec_digits(n)[i] == spec_digits(n / 10)[i]);
            }
        }
    }
}

/// Reading back the canonical rendering recovers the value.
pub proof fn lemma_digits_val_of_spec_digits(n: nat)
    ensures
        digits_val(spec_digits(n)) == n,
    decreases n,
{
    if n < 10 {
        reveal_with_fuel(digits_val, 2);
        let s = spec_digits(n);
        assert(s.drop_last() =~= Seq::<char>::empty());
        assert(digit_val(digit_char(n)) == n);
    } else {
        lemma_digits_val_of_spec_digits(n / 10);
        let s = spec_digits(n);
        assert(s.drop_last() =~= spec_digits(n / 10));
        assert(digit_val(digit_char(n % 10)) == n % 10);
        assert(digits_val(s) == (n / 10) * 10 + n % 10);
        assert((n / 10) * 10 + n % 10 == n) by (nonlinear_arith);
    }
}

/// Round trip: parsing the rendered form of any version yields that
/// version back.
pub proof fn lemma_version_round_trip(v: Version)
    ensures
        spec_parse_version(spec_version_text(v)) == Ok::<Version, ParseVersionError>(v),
{
    let a = spec_digits(v.major as nat);
    let b = spec_digits(v.minor as nat);
    let c = spec_digits(v.patch as nat);
    lemma_spec_digits_are_digits(v.major as nat);
    lemma_spec_digits_are_digits(v.minor as nat);
    lemma_spec_digits_are_digits(v.patch as nat);
    let s = spec_version_text(v);
    assert(s =~= a + seq!['.'] + (b + seq!['.'] + c));
    lemma_split_dots_cut(a, b + seq!['.'] + c);
    lemma_split_dots_cut(b, c);
    lemma_split_dots_dotless(c);
    let parts = split_dots(s);
    assert(parts =~~= seq![a, b, c]);
    lemma_parse_canonical_digits(v.major as nat);
    lemma_parse_canonical_digits(v.minor as nat);
    lemma_parse_canonical_digits(v.patch as nat);
}

/// Canonical digit strings of 32-bit values parse to themselves.
proof fn lemma_parse_canonical_digits(n: nat)
    requires
        n <= u32::MAX,
    ensures
        spec_parse_u32(spec_digits(n)) == Some(n as u32),
{
    let s = spec_digits(n);
    lemma_spec_digits_are_digits(n);
    lemma_digits_val_of_spec_digits(n);
    assert(is_digit(s[0]));
    assert(s[0] != '+');
}

impl Version {
    /// A version with the given components.
    pub fn new(major: u32, minor: u32, patch: u32) -> (v: Version)
        ensures
            v == (Version { major, minor, patch }),
    {
        Version { major, minor, patch }
    }

    /// Parses `"<major>.<minor>.<patch>"`: exactly three dot-separated
    /// segments, each a decimal 32-bit integer; anything else is an error.
    pub fn parse(text: &str) -> (r: Result<Version, ParseVersionError>)
        ensures
            r == spec_parse_version(text@),
    {
        let n = text.unicode_len();
        let ghost s = text@;
        let d1 = find_dot(text, 0);
        if d1 == n {
            proof {
                lemma_split_dots_dotless(s);
            }
            return Err(ParseVersionError::WrongLength);
        }
        let ghost head = s.subrange(0, d1 as int);
        let d2 = find_dot(text, d1 + 1);
        if d2 == n {
            proof {
                let tail = s.subrange(d1 + 1, n as int);
                assert(s =~= head + seq!['.'] + tail);
                lemma_split_dots_cut(head, tail);
                lemma_split_dots_dotless(tail);
            }
            return Err(ParseVersionError::WrongLength);
        }
        let ghost mid = s.subrange(d1 + 1, d2 as int);
        let ghost tail = s.subrange(d2 + 1, n as int);
        proof {
            assert(s =~= head + seq!['.'] + (mid + seq!['.'] + tail));
            lemma_split_dots_cut(head, mid + seq!['.'] + tail);
            lemma_split_dots_cut(mid, tail);
        }
        let d3 = find_dot(text, d2 + 1);
        if d3 < n {
            proof {
                lemma_split_dots_has_dot(tail, d3 - (d2 + 1));
            }
            return Err(ParseVersionError::WrongLength);
        }
        proof {
            lemma_split_dots_dotless(tail);
            assert(split_dots(s) =~~= seq![head, mid, tail]);
        }
        let major = match Self::parse_u32_range(text, 0, d1) {
            Some(x) => x,
            None => {
                return Err(ParseVersionError::ParseIntError);
            },
        };
        let minor = match Self::parse_u32_range(text, d1 + 1, d2) {
            Some(x) => x,
            None => {
                return Err(ParseVersionError::ParseIntError);
            },
        };
        let patch = match Self::parse_u32_range(text, d2 + 1, n) {
            Some(x) => x,
            None => {
                return Err(ParseVersionError::ParseIntError);
            },
        };
        Ok(Version { major, minor, patch })
    }

    /// Parses the characters of `text` from `start` (inclusive) to `end`
    /// (exclusive) as an unsigned decimal integer.
    #[verifier::loop_isolation(false)]
    fn parse_u32_range(text: &str, start: usize, end: usize) -> (r: Option<u32>)
        requires
            start <= end <= text@.len(),
        ensures
            r == spec_parse_u32(text@.subrange(start as int, end as int)),
    {
        let ghost seg = text@.subrange(start as int, end as int);
        let mut i = start;
        if i < end && text.get_char(i) == '+' {
            i += 1;
        }
        let ghost t = if seg.len() > 0 && seg[0] == '+' {
            seg.drop_first()
        } else {
            seg
        };
        proof {
            assert(t =~= text@.subrange(i as int, end as int));
        }
        if i == end {
            return None;
        }
        let tstart = i;
        let mut acc: u32 = 0;
        loop
            invariant
                tstart <= i <= end <= text@.len(),
                t == text@.subrange(tstart as int, end as int),
                t.len() > 0,
                all_digits(t.take(i - tstart)),
                acc == digits_val(t.take(i - tstart)),
            decreases end - i,
        {
            if i == end {
                proof {
                    assert(t.take(i - tstart) =~= t);
                }
                return Some(acc);
            }
            let c = text.get_char(i);
            proof {
                assert(t[i - tstart] == c);
            }
            let u = c as u32;
            if u < 48 || u > 57 {
                proof {
                    assert(!is_digit(t[i - tstart]));
                }
                return None;
            }
            let d = u - 48;
            proof {
                assert(is_digit(c));
                assert(digit_val(c) == d);
            }
            if acc > (u32::MAX - d) / 10 {
                proof {
                    let p = t.take(i - tstart + 1);
                    assert(p.drop_last() =~= t.take(i - tstart));
                    assert(p.last() == c);
                    assert(digits_val(p) == acc * 10 + d);
                    assert(acc * 10 + d > u32::MAX) by (nonlinear_arith)
                        requires
                            acc > (u32::MAX - d) / 10,
                            d < 10,
                            acc <= u32::MAX,
                    ;
                    if all_digits(t) {
                        lemma_digits_val_prefix_le(t, i - tstart + 1);
                        assert(digits_val(t) > u32::MAX);
                    }
                }
                return None;
            }
            proof {
                assert(acc * 10 + d <= u32::MAX) by (nonlinear_arith)
                    requires
                        acc <= (u32::MAX - d) / 10,
                        d < 10,
                ;
                let p = t.take(i - tstart + 1);
                assert(p.drop_last() =~= t.take(i - tstart));
                assert(p.last() == c);
                assert(all_digits(p));
            }
            acc = acc * 10 + d;
            i += 1;
        }
    }

    /// Renders the version as `"<major>.<minor>.<patch>"`, the exact
    /// left-inverse of `parse` on every valid input.
    pub fn to_string(&self) -> (s: String)
        ensures
            s@ == spec_version_text(*self),
    {
        let mut s = u32_digits(self.major);
        proof {
            reveal_strlit(".");
        }
        s.append(".");
        let minor = u32_digits(self.minor);
        s.append(minor.as_str());
        s.append(".");
        let patch = u32_digits(self.patch);
        s.append(patch.as_str());
        proof {
            assert(s@ =~= spec_version_text(*self));
        }
        s
    }
}

/// The index of the first dot at or after `from`, or the length if none.
fn find_dot(text: &str, from: usize) -> (r: usize)
    requires
        from <= text@.len(),
    ensures
        from <= r <= text@.len(),
        r < text@.len() ==> text@[r as int] == '.',
        forall|j: int| from <= j < r ==> text@[j] != '.',
{
    let n = text.unicode_len();
    let mut i = from;
    while i < n
        invariant
            from <= i <= n,
            n == text@.len(),
            forall|j: int| from <= j < i ==> text@[j] != '.',
        decreases n - i,
    {
        if text.get_char(i) == '.' {
            return i;
        }
        i += 1;
    }
    i
}

/// Renders a value in decimal, most significant digit first.
fn u32_digits(n: u32) -> (s: String)
    ensures
        s@ == spec_digits(n as nat),
    decreases n,
{
    if n < 10 {
        let d = digit_str(n);
        let s = d.to_owned();
        s
    } else {
        let mut s = u32_digits(n / 10);
        s.append(digit_str(n % 10));
        proof {
            assert((n / 10) as nat == (n as nat) / 10);
            assert((n % 10) as nat == (n as nat) % 10);
            assert(s@ =~= spec_digits(n as nat));
        }
        s
    }
}

/// The one-character string for a digit value.
fn digit_str(d: u32) -> (s: &'static str)
    requires
        d < 10,
    ensures
        s@ == seq![digit_char(d as nat)],
{
    if d == 0 {
        proof {
            reveal_strlit("0");
            assert("0"@ =~= seq![digit_char(0)]);
        }
        "0"
    } else if d == 1 {
        proof {
            reveal_strlit("1");
            assert("1"@ =~= seq![digit_char(1)]);
        }
        "1"
    } else if d == 2 {
        proof {
            reveal_strlit("2");
            assert("2"@ =~= seq![digit_char(2)]);
        }
        "2"
    } else if d == 3 {
        proof {
            reveal_strlit("3");
            assert("3"@ =~= seq![digit_char(3)]);
        }
        "3"
    } else if d == 4 {
        proof {
            reveal_strlit("4");
            assert("4"@ =~= seq![digit_char(4)]);
        }
        "4"
    } else if d == 5 {
        proof {
            reveal_strlit("5");
            assert("5"@ =~= seq![digit_char(5)]);
        }
        "5"
    } else if d == 6 {
        proof {
            reveal_strlit("6");
            assert("6"@ =~= seq![digit_char(6)]);
        }
        "6"
    } else if d == 7 {
        proof {
            reveal_strlit("7");
            assert("7"@ =~= seq![digit_char(7)]);
        }
        "7"
    } else if d == 8 {
        proof {
            reveal_strlit("8");
            assert("8"@ =~= seq![digit_char(8)]);
        }
        "8"
    } else {
        proof {
            reveal_strlit("9");
            assert("9"@ =~= seq![digit_char(9)]);
        }
        "9"
    }
}

} // verus!
