use vstd::prelude::*;
use crate::extended_is::{ExtendedIs, ExtendedSet};
use crate::error::Error;
use crate::str::chars_of;

verus! {

/// A SPIR-V or Vulkan version, `major.minor`.
#[derive(Debug, Clone, Copy, PartialEq, Eq, Structural, Hash)]
pub struct Version {
    pub major: u8,
    pub minor: u8,
}

impl Version {
    /// The version as a pair of integers, ordered lexicographically.
    pub open spec fn at_least(self, major: u8, minor: u8) -> bool {
        self.major > major || (self.major == major && self.minor >= minor)
    }

    pub fn new(major: u8, minor: u8) -> (r: Self)
        ensures
            r.major == major,
            r.minor == minor,
    {
        Self { major, minor }
    }

    pub(crate) fn is_at_least(&self, major: u8, minor: u8) -> (r: bool)
        ensures
            r == self.at_least(major, minor),
    {
        self.major > major || (self.major == major && self.minor >= minor)
    }
}

/// The platform a module is compiled for.
#[derive(Debug, Clone, Copy, PartialEq, Eq, Structural, Hash)]
#[non_exhaustive]
pub enum TargetPlatform {
    Universal(Version),
    Vulkan(Version),
}

/// The SPIR-V version that a target platform uses.
pub open spec fn spec_spirv_version(p: TargetPlatform) -> Version {
    match p {
        TargetPlatform::Universal(v) => v,
        TargetPlatform::Vulkan(v) => if v.at_least(1, 3) {
            Version { major: 1, minor: 6 }
        } else if v.at_least(1, 2) {
            Version { major: 1, minor: 5 }
        } else if v.at_least(1, 1) {
            Version { major: 1, minor: 3 }
        } else {
            Version { major: 1, minor: 0 }
        },
    }
}

impl TargetPlatform {
    /// The extended instruction set that the platform imports: GLSL for
    /// Vulkan, none otherwise.
    pub fn extended_is(&self) -> (r: Option<ExtendedIs>)
        ensures
            r == (if *self is Vulkan {
                Some(ExtendedIs { kind: ExtendedSet::GLSL450 })
            } else {
                None::<ExtendedIs>
            }),
    {
        let kind = match self {
            TargetPlatform::Vulkan(_) => ExtendedSet::GLSL450,
            _ => return None,
        };
        Some(ExtendedIs::new(kind))
    }

    pub fn is_vulkan(self) -> (r: bool)
        ensures
            r == (self is Vulkan),
    {
        matches!(self, TargetPlatform::Vulkan(_))
    }

    pub fn spirv_version(self) -> (r: Version)
        ensures
            r == spec_spirv_version(self),
    {
        match self {
            TargetPlatform::Universal(version) => version,
            TargetPlatform::Vulkan(version) => {
                if version.is_at_least(1, 3) {
                    Version::new(1, 6)
                } else if version.is_at_least(1, 2) {
                    Version::new(1, 5)
                } else if version.is_at_least(1, 1) {
                    Version::new(1, 3)
                } else {
                    Version::new(1, 0)
                }
            },
        }
    }
}

/// Whether `c` is a decimal digit.
pub open spec fn is_digit(c: char) -> bool {
    '0' <= c && c <= '9'
}

/// The number that the decimal digits `d` write.
pub open spec fn decimal_value(d: Seq<char>) -> int
    decreases d.len(),
{
    if d.len() == 0 {
        0
    } else {
        decimal_value(d.drop_last()) * 10 + (d.last() as int - '0' as int)
    }
}

/// `s` without the `+` that may lead it.
pub open spec fn unsigned_digits(s: Seq<char>) -> Seq<char> {
    if s.len() > 0 && s[0] == '+' {
        s.drop_first()
    } else {
        s
    }
}

/// Whether every character of `d` is a decimal digit.
pub open spec fn all_digits(d: Seq<char>) -> bool {
    forall|i: int| 0 <= i < d.len() ==> is_digit(#[trigger] d[i])
}

/// A `u8` written in decimal, as `u8::from_str` reads one: an optional
/// `+`, then one digit or more, of a value below 256.
pub open spec fn spec_parse_u8(s: Seq<char>) -> Option<u8> {
    let d = unsigned_digits(s);
    if d.len() > 0 && all_digits(d) && decimal_value(d) <= 255 {
        Some(decimal_value(d) as u8)
    } else {
        None
    }
}

/// The index of the first `.` in `s` at or after `k`, or the length of `s`.
pub open spec fn first_dot_from(s: Seq<char>, k: int) -> int
    decreases s.len() - k,
{
    if k < 0 || k >= s.len() {
        s.len() as int
    } else if s[k] == '.' {
        k
    } else {
        first_dot_from(s, k + 1)
    }
}

/// A version written as `major.minor`: split at the first `.`, each side a
/// `u8`.
pub open spec fn spec_parse_version(s: Seq<char>) -> Result<Version, Error> {
    let i = first_dot_from(s, 0);
    if i >= s.len() {
        Err(Error::VersionParsing)
    } else {
        match (spec_parse_u8(s.take(i)), spec_parse_u8(s.skip(i + 1))) {
            (Some(major), Some(minor)) => Ok(Version { major, minor }),
            _ => Err(Error::ParseInt),
        }
    }
}

proof fn lemma_first_dot_bounds(s: Seq<char>, k: int)
    requires
        0 <= k <= s.len(),
    ensures
        k <= first_dot_from(s, k) <= s.len(),
        first_dot_from(s, k) < s.len() ==> s[first_dot_from(s, k)] == '.',
    decreases s.len() - k,
{
    if k < s.len() && s[k] != '.' {
        lemma_first_dot_bounds(s, k + 1);
    }
}

/// Reads `chars[lo..hi]` as a `u8`.
fn parse_u8(chars: &Vec<char>, lo: usize, hi: usize) -> (r: Option<u8>)
    requires
        lo <= hi <= chars.len(),
    ensures
        r == spec_parse_u8(chars@.subrange(lo as int, hi as int)),
{
    let ghost s = chars@.subrange(lo as int, hi as int);
    let start = if lo < hi && chars[lo] == '+' {
        lo + 1
    } else {
        lo
    };
    let ghost d = chars@.subrange(start as int, hi as int);
    assert(d =~= unsigned_digits(s));
    if start == hi {
        return None;
    }
    let mut acc: u32 = 0;
    let mut all_digits = true;
    let mut i = start;
    while i < hi
        invariant
            start <= i <= hi <= chars.len(),
            d == chars@.subrange(start as int, hi as int),
            all_digits == (forall|j: int| start <= j < i ==> is_digit(#[trigger] chars@[j])),
            all_digits ==> acc == (if decimal_value(chars@.subrange(start as int, i as int)) < 256 {
                decimal_value(chars@.subrange(start as int, i as int))
            } else {
                256
            }),
            acc <= 256,
        decreases hi - i,
    {
        let c = chars[i];
        let ghost before = chars@.subrange(start as int, i as int);
        assert(chars@.subrange(start as int, i as int + 1).drop_last() =~= before);
        if '0' <= c && c <= '9' {
            let digit = (c as u32) - ('0' as u32);
            let next = acc * 10 + digit;
            acc = if next < 256 {
                next
            } else {
                256
            };
        } else {
            all_digits = false;
        }
        i = i + 1;
    }
    assert(chars@.subrange(start as int, hi as int) =~= d);
    if all_digits {
        assert forall|j: int| 0 <= j < d.len() implies is_digit(#[trigger] d[j]) by {
            assert(d[j] == chars@[start + j]);
        }
        if acc <= 255 {
            Some(acc as u8)
        } else {
            None
        }
    } else {
        proof {
            let j = choose|j: int| start <= j < hi && !is_digit(#[trigger] chars@[j]);
            assert(d[j - start] == chars@[j]);
            assert(!is_digit(d[j - start]));
        }
        None
    }
}

impl Version {
    /// Reads a version written as `major.minor`.
    pub fn parse(s: &str) -> (r: Result<Version, Error>)
        ensures
            r == spec_parse_version(s@),
    {
        let chars = chars_of(s);
        let n = chars.len();
        let mut i: usize = 0;
        while i < n && chars[i] != '.'
            invariant
                i <= n == chars.len(),
                chars@ == s@,
                first_dot_from(s@, i as int) == first_dot_from(s@, 0),
            decreases n - i,
        {
            i = i + 1;
        }
        proof {
            lemma_first_dot_bounds(s@, 0);
        }
        if i == n {
            return Err(Error::VersionParsing);
        }
        assert(chars@.subrange(0, i as int) =~= s@.take(i as int));
        assert(chars@.subrange(i as int + 1, n as int) =~= s@.skip(i as int + 1));
        match (parse_u8(&chars, 0, i), parse_u8(&chars, i + 1, n)) {
            (Some(major), Some(minor)) => Ok(Version::new(major, minor)),
            _ => Err(Error::ParseInt),
        }
    }
}

/// The decimal digit of `d`, for `d` below ten.
pub open spec fn digit_char(d: int) -> char {
    if d == 0 {
        '0'
    } else if d == 1 {
        '1'
    } else if d == 2 {
        '2'
    } else if d == 3 {
        '3'
    } else if d == 4 {
        '4'
    } else if d == 5 {
        '5'
    } else if d == 6 {
        '6'
    } else if d == 7 {
        '7'
    } else if d == 8 {
        '8'
    } else {
        '9'
    }
}

proof fn lemma_digit_char(d: int)
    requires
        0 <= d < 10,
    ensures
        is_digit(digit_char(d)),
        digit_char(d) as int - '0' as int == d,
        digit_char(d) != '.',
{
}

/// The decimal digits of `n`, without leading zeros.
pub open spec fn decimal_text(n: u8) -> Seq<char> {
    if n < 10 {
        seq![digit_char(n as int)]
    } else if n < 100 {
        seq![digit_char(n as int / 10), digit_char(n as int % 10)]
    } else {
        seq![digit_char(n as int / 100), digit_char((n as int / 10) % 10), digit_char(n as int % 10)]
    }
}

/// A version written as `major.minor`.
pub open spec fn version_text(v: Version) -> Seq<char> {
    decimal_text(v.major) + seq!['.'] + decimal_text(v.minor)
}

proof fn lemma_decimal_text(n: u8)
    ensures
        1 <= decimal_text(n).len() <= 3,
        all_digits(decimal_text(n)),
        decimal_value(decimal_text(n)) == n,
        spec_parse_u8(decimal_text(n)) == Some(n),
        forall|i: int| 0 <= i < decimal_text(n).len() ==> decimal_text(n)[i] != '.',
{
    let t = decimal_text(n);
    reveal_with_fuel(decimal_value, 4);
    lemma_digit_char(n as int % 10);
    lemma_digit_char((n as int / 10) % 10);
    lemma_digit_char(n as int / 100);
    if n < 10 {
        lemma_digit_char(n as int);
        assert(t.drop_last() =~= Seq::<char>::empty());
    } else if n < 100 {
        lemma_digit_char(n as int / 10);
        assert(t.drop_last() =~= seq![digit_char(n as int / 10)]);
        assert(t.drop_last().drop_last() =~= Seq::<char>::empty());
    } else {
        assert(t.drop_last() =~= seq![digit_char(n as int / 100), digit_char((n as int / 10) % 10)]);
        assert(t.drop_last().drop_last() =~= seq![digit_char(n as int / 100)]);
        assert(t.drop_last().drop_last().drop_last() =~= Seq::<char>::empty());
        assert(decimal_value(t.drop_last().drop_last()) == n as int / 100);
        assert(decimal_value(t.drop_last()) == (n as int / 100) * 10 + (n as int / 10) % 10);
    }
    assert(unsigned_digits(t) =~= t);
}

proof fn lemma_first_dot_skips(s: Seq<char>, k: int, j: int)
    requires
        0 <= k <= j <= s.len(),
        forall|i: int| k <= i < j ==> s[i] != '.',
    ensures
        first_dot_from(s, k) == first_dot_from(s, j),
    decreases j - k,
{
    if k < j {
        lemma_first_dot_skips(s, k + 1, j);
    }
}

/// Reading a version's text gives the version back.
pub proof fn lemma_version_text_roundtrip(v: Version)
    ensures
        spec_parse_version(version_text(v)) == Ok::<Version, Error>(v),
{
    let s = version_text(v);
    let a = decimal_text(v.major);
    let b = decimal_text(v.minor);
    lemma_decimal_text(v.major);
    lemma_decimal_text(v.minor);
    assert forall|i: int| 0 <= i < a.len() implies s[i] != '.' by {
        assert(s[i] == a[i]);
    }
    lemma_first_dot_skips(s, 0, a.len() as int);
    assert(s[a.len() as int] == '.');
    assert(first_dot_from(s, 0) == a.len());
    assert(s.take(a.len() as int) =~= a);
    assert(s.skip(a.len() as int + 1) =~= b);
}

impl Version {
    /// The version written as `major.minor`, character by character.
    pub fn to_chars(&self) -> (r: Vec<char>)
        ensures
            r@ == version_text(*self),
    {
        let mut r: Vec<char> = Vec::new();
        push_decimal(&mut r, self.major);
        r.push('.');
        push_decimal(&mut r, self.minor);
        assert(r@ =~= version_text(*self));
        r
    }
}

fn digit(d: u8) -> (c: char)
    requires
        d < 10,
    ensures
        c == digit_char(d as int),
{
    if d == 0 { '0' } else if d == 1 { '1' } else if d == 2 { '2' } else if d == 3 { '3' } else if d == 4 { '4' }
    else if d == 5 { '5' } else if d == 6 { '6' } else if d == 7 { '7' } else if d == 8 { '8' } else { '9' }
}

fn push_decimal(out: &mut Vec<char>, n: u8)
    ensures
        final(out)@ == old(out)@ + decimal_text(n),
{
    if n < 10 {
        out.push(digit(n));
    } else if n < 100 {
        out.push(digit(n / 10));
        out.push(digit(n % 10));
    } else {
        out.push(digit(n / 100));
        out.push(digit((n / 10) % 10));
        out.push(digit(n % 10));
    }
    assert(out@ =~= old(out)@ + decimal_text(n));
}

} // verus!
