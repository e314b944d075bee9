//! Unity version strings such as `2020.3.32f1`.

use vstd::prelude::*;
use vstd::utf8::encode_utf8;

use crate::chars::{
    all_digits, chars_of, copy_range, decimal, digits_value, is_ascii_lowercase, leak_str,
    parse_u32, push_char, push_chars, push_decimal, spec_parse_u32, split_on, split_ranges,
    string_of, pieces_of, lemma_split_on_nonempty, digit_char, is_digit,
};

verus! {

/// A Unity version: `major.minor.patch` followed by a suffix such as `f1`.
#[derive(Clone, PartialEq, Eq, PartialOrd, Ord, Debug)]
pub struct Version {
    pub major: u32,
    pub minor: u32,
    pub patch: u32,
    pub suffix: &'static str,
}

/// The abstract value of a version: its three numbers and suffix characters.
pub type VersionView = (u32, u32, u32, Seq<char>);

impl View for Version {
    type V = VersionView;

    open spec fn view(&self) -> VersionView {
        (self.major, self.minor, self.patch, self.suffix@)
    }
}

/// Error returned when a string is not a valid version.
#[derive(Debug)]
pub struct InvalidVersion {
    /// The rejected input.
    pub input: String,
}

/// The kind of I/O error a rejected version is reported as; the names
/// follow `std::io::ErrorKind`.
#[derive(Debug, Clone, Copy, PartialEq, Eq, Structural)]
pub enum VersionErrorKind {
    /// The input is not a version.
    InvalidInput,
}

impl InvalidVersion {
    /// The kind of I/O error this is reported as: invalid input.
    pub fn kind(&self) -> (k: VersionErrorKind)
        ensures
            k == VersionErrorKind::InvalidInput,
    {
        VersionErrorKind::InvalidInput
    }

    /// The message of this error: `invalid version: {input}`.
    pub fn message(&self) -> (m: String)
        ensures
            m@ == "invalid version: "@ + self.input@,
    {
        let mut m = String::new();
        push_chars(&mut m, "invalid version: ");
        push_chars(&mut m, self.input.as_str());
        m
    }
}

/// Index of the first ASCII lowercase letter of `s`, or `s.len()` if none.
pub open spec fn first_lowercase(s: Seq<char>) -> int
    decreases s.len(),
{
    if s.len() == 0 {
        0
    } else if is_ascii_lowercase(s[0]) {
        0
    } else {
        1 + first_lowercase(s.drop_first())
    }
}

/// What parsing `s` as a version gives: three `.`-separated parts; the
/// first two are `u32`s, the third is a `u32` followed by a suffix that
/// starts at its first ASCII lowercase letter.
pub open spec fn spec_parse_version(s: Seq<char>) -> Option<VersionView> {
    let p = split_on(s, '.');
    if p.len() != 3 {
        None
    } else {
        let k = first_lowercase(p[2]);
        match (spec_parse_u32(p[0]), spec_parse_u32(p[1]), spec_parse_u32(p[2].take(k))) {
            (Some(a), Some(b), Some(c)) => Some((a, b, c, p[2].skip(k))),
            _ => None,
        }
    }
}

/// The text of a version: `major.minor.patch` then the suffix.
pub open spec fn version_text(v: VersionView) -> Seq<char> {
    decimal(v.0 as nat) + seq!['.'] + decimal(v.1 as nat) + seq!['.'] + decimal(v.2 as nat)
        + v.3
}

/// Lexicographic order on byte sequences.
pub open spec fn bytes_le(a: Seq<u8>, b: Seq<u8>) -> bool
    decreases a.len(),
{
    if a.len() == 0 {
        true
    } else if b.len() == 0 {
        false
    } else if a[0] != b[0] {
        a[0] < b[0]
    } else {
        bytes_le(a.drop_first(), b.drop_first())
    }
}

/// The order of versions: by major, minor and patch number, then by the
/// bytes of the suffix.
pub open spec fn version_le(a: VersionView, b: VersionView) -> bool {
    if a.0 != b.0 {
        a.0 < b.0
    } else if a.1 != b.1 {
        a.1 < b.1
    } else if a.2 != b.2 {
        a.2 < b.2
    } else {
        bytes_le(encode_utf8(a.3), encode_utf8(b.3))
    }
}

/// The version `major.minor.patch` with `suffix`.
pub open spec fn unity(major: u32, minor: u32, patch: u32, suffix: &str) -> VersionView {
    (major, minor, patch, suffix@)
}

/// Whether `lo <= v <= hi` in version order.
pub open spec fn version_between(v: VersionView, lo: VersionView, hi: VersionView) -> bool {
    version_le(lo, v) && version_le(v, hi)
}

/// Lexicographic comparison of two byte slices.
fn slice_le(a: &[u8], b: &[u8]) -> (r: bool)
    ensures
        r == bytes_le(a@, b@),
{
    let mut i: usize = 0;
    assert(a@.skip(0) =~= a@);
    assert(b@.skip(0) =~= b@);
    while i < a.len() && i < b.len()
        invariant
            i <= a@.len(),
            i <= b@.len(),
            bytes_le(a@, b@) == bytes_le(a@.skip(i as int), b@.skip(i as int)),
        decreases a.len() - i,
    {
        if a[i] != b[i] {
            return a[i] < b[i];
        }
        assert(a@.skip(i as int).drop_first() =~= a@.skip(i + 1));
        assert(b@.skip(i as int).drop_first() =~= b@.skip(i + 1));
        i += 1;
    }
    i == a.len()
}

impl Version {
    /// The version `major.minor.patch` with `suffix`.
    pub fn new(major: u32, minor: u32, patch: u32, suffix: &'static str) -> (v: Version)
        ensures
            v@ == (major, minor, patch, suffix@),
    {
        Version { major, minor, patch, suffix }
    }

    /// Parses a version such as `2020.3.32f1`.
    pub fn from_str(s: &str) -> (r: Result<Version, InvalidVersion>)
        ensures
            r matches Ok(v) ==> spec_parse_version(s@) == Some(v@),
            r is Err <==> spec_parse_version(s@) is None,
            r matches Err(e) ==> e.input@ == s@,
    {
        let chars = chars_of(s);
        let ranges = split_ranges(&chars, '.');
        let ghost p = split_on(s@, '.');
        if ranges.len() != 3 {
            return Err(InvalidVersion { input: s.to_owned() });
        }
        assert(p[0] == chars@.subrange(ranges@[0].0 as int, ranges@[0].1 as int));
        assert(p[1] == chars@.subrange(ranges@[1].0 as int, ranges@[1].1 as int));
        assert(p[2] == chars@.subrange(ranges@[2].0 as int, ranges@[2].1 as int));
        let (a0, a1) = ranges[0];
        let (b0, b1) = ranges[1];
        let (c0, c1) = ranges[2];
        let major = match parse_u32(&copy_range(&chars, a0, a1)) {
            Some(v) => v,
            None => return Err(InvalidVersion { input: s.to_owned() }),
        };
        let minor = match parse_u32(&copy_range(&chars, b0, b1)) {
            Some(v) => v,
            None => return Err(InvalidVersion { input: s.to_owned() }),
        };
        let third = copy_range(&chars, c0, c1);
        let k = find_lowercase(&third);
        let patch = match parse_u32(&copy_range(&third, 0, k)) {
            Some(v) => v,
            None => {
                assert(third@.subrange(0, k as int) =~= p[2].take(k as int));
                return Err(InvalidVersion { input: s.to_owned() });
            },
        };
        assert(third@.subrange(0, k as int) =~= p[2].take(k as int));
        let suffix = leak_str(string_of(&third, k, third.len()));
        assert(third@.subrange(k as int, third@.len() as int) =~= p[2].skip(k as int));
        Ok(Version { major, minor, patch, suffix })
    }

    /// Whether `self <= other` in version order.
    pub fn le(&self, other: &Version) -> (r: bool)
        ensures
            r == version_le(self@, other@),
    {
        if self.major != other.major {
            self.major < other.major
        } else if self.minor != other.minor {
            self.minor < other.minor
        } else if self.patch != other.patch {
            self.patch < other.patch
        } else {
            slice_le(self.suffix.as_bytes(), other.suffix.as_bytes())
        }
    }

    /// Whether `lo <= self <= hi` in version order.
    pub fn between(&self, lo: &Version, hi: &Version) -> (r: bool)
        ensures
            r == version_between(self@, lo@, hi@),
    {
        lo.le(self) && self.le(hi)
    }

    /// The text of the version, as its `Display` writes it.
    pub fn to_string(&self) -> (s: String)
        ensures
            s@ == version_text(self@),
    {
        let mut s = String::new();
        push_decimal(&mut s, self.major as u64);
        push_char(&mut s, '.');
        push_decimal(&mut s, self.minor as u64);
        push_char(&mut s, '.');
        push_decimal(&mut s, self.patch as u64);
        push_chars(&mut s, self.suffix);
        s
    }
}

/// Index of the first ASCII lowercase letter, or the length if none.
fn find_lowercase(s: &Vec<char>) -> (k: usize)
    ensures
        k == first_lowercase(s@),
        k <= s@.len(),
{
    let mut i: usize = 0;
    assert(s@.skip(0) =~= s@);
    while i < s.len()
        invariant
            i <= s@.len(),
            first_lowercase(s@) == i + first_lowercase(s@.skip(i as int)),
        decreases s.len() - i,
    {
        if 'a' <= s[i] && s[i] <= 'z' {
            return i;
        }
        assert(s@.skip(i as int).drop_first() =~= s@.skip(i + 1));
        i += 1;
    }
    i
}

impl Default for Version {
    fn default() -> (v: Version)
        ensures
            v.major == 2 && v.minor == 5 && v.patch == 0 && v.suffix@ == "f5"@,
    {
        Version { major: 2, minor: 5, patch: 0, suffix: "f5" }
    }
}


/// Whether a suffix survives being written after the patch number: it is
/// empty or starts with an ASCII lowercase letter, and holds no `.`.
pub open spec fn suffix_reads_back(suffix: Seq<char>) -> bool {
    &&& suffix.len() == 0 || is_ascii_lowercase(suffix[0])
    &&& !suffix.contains('.')
}

/// The first lowercase letter after a digit string is where the rest begins.
proof fn lemma_first_lowercase_after_digits(d: Seq<char>, rest: Seq<char>)
    requires
        all_digits(d),
        rest.len() == 0 || is_ascii_lowercase(rest[0]),
    ensures
        first_lowercase(d + rest) == d.len(),
    decreases d.len(),
{
    if d.len() == 0 {
        assert(d + rest =~= rest);
    } else {
        assert((d + rest).drop_first() =~= d.drop_first() + rest);
        assert(all_digits(d.drop_first())) by {
            assert forall|i: int| 0 <= i < d.drop_first().len() implies is_digit(
                #[trigger] d.drop_first()[i],
            ) by {
                assert(d.drop_first()[i] == d[i + 1]);
            }
        }
        assert(is_digit(d[0]));
        lemma_first_lowercase_after_digits(d.drop_first(), rest);
    }
}

/// Parsing the text of a version gives the version back, for every suffix
/// that reads back after the patch number.
pub proof fn law_version_text_parses_back(v: VersionView)
    requires
        suffix_reads_back(v.3),
    ensures
        spec_parse_version(version_text(v)) == Some(v),
{
    let a = decimal(v.0 as nat);
    let b = decimal(v.1 as nat);
    let c = decimal(v.2 as nat) + v.3;
    crate::chars::lemma_decimal_digits(v.0 as nat);
    crate::chars::lemma_decimal_digits(v.1 as nat);
    crate::chars::lemma_decimal_digits(v.2 as nat);
    assert(!a.contains('.')) by {
        if a.contains('.') {
            let i = choose|i: int| 0 <= i < a.len() && a[i] == '.';
            assert(is_digit(a[i]));
        }
    }
    assert(!b.contains('.')) by {
        if b.contains('.') {
            let i = choose|i: int| 0 <= i < b.len() && b[i] == '.';
            assert(is_digit(b[i]));
        }
    }
    assert(!c.contains('.')) by {
        if c.contains('.') {
            let i = choose|i: int| 0 <= i < c.len() && c[i] == '.';
            if i < decimal(v.2 as nat).len() {
                assert(is_digit(decimal(v.2 as nat)[i]));
            } else {
                assert(v.3[i - decimal(v.2 as nat).len()] == '.');
            }
        }
    }
    let t = version_text(v);
    assert(t =~= a + seq!['.'] + (b + seq!['.'] + c));
    crate::chars::lemma_split_on_join(a, b + seq!['.'] + c, '.');
    crate::chars::lemma_split_on_join(b, c, '.');
    crate::chars::lemma_split_on_no_sep(a, '.');
    crate::chars::lemma_split_on_no_sep(b, '.');
    crate::chars::lemma_split_on_no_sep(c, '.');
    let p = split_on(t, '.');
    assert(p =~= seq![a, b, c]);
    lemma_first_lowercase_after_digits(decimal(v.2 as nat), v.3);
    let k = first_lowercase(c);
    assert(c.take(k) =~= decimal(v.2 as nat));
    assert(c.skip(k) =~= v.3);
    crate::chars::lemma_parse_decimal(v.0);
    crate::chars::lemma_parse_decimal(v.1);
    crate::chars::lemma_parse_decimal(v.2);
}

/// The byte order is reflexive, transitive, total and antisymmetric.
proof fn lemma_bytes_le_order(a: Seq<u8>, b: Seq<u8>, c: Seq<u8>)
    ensures
        bytes_le(a, a),
        bytes_le(a, b) || bytes_le(b, a),
        bytes_le(a, b) && bytes_le(b, c) ==> bytes_le(a, c),
        bytes_le(a, b) && bytes_le(b, a) ==> a == b,
    decreases a.len(),
{
    if a.len() > 0 && b.len() > 0 && c.len() > 0 {
        lemma_bytes_le_order(a.drop_first(), b.drop_first(), c.drop_first());
    } else if a.len() > 0 && b.len() > 0 {
        lemma_bytes_le_order(a.drop_first(), b.drop_first(), b.drop_first());
    } else if a.len() > 0 {
        lemma_bytes_le_order(a.drop_first(), a.drop_first(), a.drop_first());
    }
    if a.len() > 0 && b.len() > 0 && a[0] == b[0] && a.drop_first() == b.drop_first() {
        assert(a =~= b) by {
            assert(a == seq![a[0]] + a.drop_first());
            assert(b == seq![b[0]] + b.drop_first());
        }
    }
    if a.len() == 0 && b.len() == 0 {
        assert(a =~= b);
    }
}

/// Versions are totally ordered: by major, minor and patch number, then by
/// the suffix; two versions that each come before the other are equal.
pub proof fn law_version_order(a: VersionView, b: VersionView, c: VersionView)
    ensures
        version_le(a, a),
        version_le(a, b) || version_le(b, a),
        version_le(a, b) && version_le(b, c) ==> version_le(a, c),
        version_le(a, b) && version_le(b, a) ==> a == b,
{
    let (x, y, z) = (encode_utf8(a.3), encode_utf8(b.3), encode_utf8(c.3));
    lemma_bytes_le_order(x, y, z);
    lemma_bytes_le_order(y, x, z);
    if version_le(a, b) && version_le(b, a) {
        if a.0 == b.0 && a.1 == b.1 && a.2 == b.2 {
            assert(x == y);
            vstd::utf8::encode_utf8_decode_utf8(a.3);
            vstd::utf8::encode_utf8_decode_utf8(b.3);
        }
    }
}

/// Versions are ordered by major number first, then minor, then patch,
/// then suffix: a smaller number in the first place where two versions
/// differ puts that version first, whatever follows; equal versions come
/// before each other.
pub proof fn law_version_order_is_lexicographic(a: VersionView, b: VersionView)
    ensures
        a.0 < b.0 ==> version_le(a, b) && !version_le(b, a),
        a.0 == b.0 && a.1 < b.1 ==> version_le(a, b) && !version_le(b, a),
        a.0 == b.0 && a.1 == b.1 && a.2 < b.2 ==> version_le(a, b) && !version_le(b, a),
        a == b ==> version_le(a, b),
        a.0 == b.0 && a.1 == b.1 && a.2 == b.2 && a.3 == b.3 ==> version_le(a, b) && version_le(b, a),
{
    law_version_order(a, b, b);
    law_version_order(b, a, a);
}

} // verus!
