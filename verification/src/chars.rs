//! Character-level helpers shared by the parsers of this crate: collecting
//! characters, building strings, the decimal grammar of Rust's integer
//! parsing, decimal formatting, and splitting on a separator.

use vstd::prelude::*;

verus! {

/// Collects the characters of `s` into a vector.
pub fn chars_of(s: &str) -> (v: Vec<char>)
    ensures
        v@ == s@,
{
    let mut v: Vec<char> = Vec::new();
    for c in it: s.chars()
        invariant
            v@ == it.seq().take(it.index() as int),
            it.seq() == s@,
    {
        v.push(c);
    }
    v
}

/// Appends one character to a string (`String::push`).
#[verifier::external_body]
pub fn push_char(s: &mut String, c: char)
    ensures
        final(s)@ == old(s)@.push(c),
{
    s.push(c);
}

/// Builds a string from the characters `chars[from..to]`.
pub fn string_of(chars: &[char], from: usize, to: usize) -> (s: String)
    requires
        from <= to <= chars@.len(),
    ensures
        s@ == chars@.subrange(from as int, to as int),
{
    let mut s = String::new();
    let mut i = from;
    while i < to
        invariant
            from <= i <= to <= chars@.len(),
            s@ == chars@.subrange(from as int, i as int),
        decreases to - i,
    {
        push_char(&mut s, chars[i]);
        i += 1;
    }
    s
}

/// Appends all characters of `extra` to `s`.
pub fn push_chars(s: &mut String, extra: &str)
    ensures
        final(s)@ == old(s)@ + extra@,
{
    let ghost start = s@;
    for c in it: extra.chars()
        invariant
            it.seq() == extra@,
            s@ == start + it.seq().take(it.index() as int),
    {
        push_char(s, c);
    }
    assert(extra@.take(extra@.len() as int) =~= extra@);
}

/// Whether `c` is an ASCII decimal digit.
pub open spec fn is_digit(c: char) -> bool {
    '0' <= c && c <= '9'
}

/// Whether `c` is an ASCII lowercase letter (`char::is_ascii_lowercase`).
pub open spec fn is_ascii_lowercase(c: char) -> bool {
    'a' <= c && c <= 'z'
}

/// Whether every character of `s` is an ASCII decimal digit.
pub open spec fn all_digits(s: Seq<char>) -> bool {
    forall|i: int| 0 <= i < s.len() ==> is_digit(#[trigger] s[i])
}

/// The value of a decimal digit.
pub open spec fn digit_value(c: char) -> int {
    c as int - '0' as int
}

/// The value of a sequence of decimal digits, most significant first.
pub open spec fn digits_value(s: Seq<char>) -> int
    decreases s.len(),
{
    if s.len() == 0 {
        0
    } else {
        digits_value(s.drop_last()) * 10 + digit_value(s.last())
    }
}

/// What `u32::from_str` returns: an optional `+`, then one or more digits
/// whose value fits in a `u32`.
pub open spec fn spec_parse_u32(s: Seq<char>) -> Option<u32> {
    let d = if s.len() > 0 && s[0] == '+' { s.drop_first() } else { s };
    if d.len() > 0 && all_digits(d) && digits_value(d) <= u32::MAX {
        Some(digits_value(d) as u32)
    } else {
        None
    }
}

/// What `i32::from_str` returns: an optional `+` or `-`, then one or more
/// digits whose signed value fits in an `i32`.
pub open spec fn spec_parse_i32(s: Seq<char>) -> Option<i32> {
    let neg = s.len() > 0 && s[0] == '-';
    let d = if s.len() > 0 && (s[0] == '+' || s[0] == '-') { s.drop_first() } else { s };
    let v = if neg { -digits_value(d) } else { digits_value(d) };
    if d.len() > 0 && all_digits(d) && i32::MIN <= v <= i32::MAX {
        Some(v as i32)
    } else {
        None
    }
}

/// Digit strings never lose value when more digits follow.
pub proof fn lemma_digits_value_prefix(s: Seq<char>, k: int)
    requires
        0 <= k <= s.len(),
        all_digits(s),
    ensures
        0 <= digits_value(s.take(k)) <= digits_value(s),
    decreases s.len(),
{
    if s.len() == 0 {
        assert(s.take(k) =~= s);
    } else if k == s.len() {
        assert(s.take(k) =~= s);
        lemma_digits_value_prefix(s.drop_last(), k - 1);
        assert(s.drop_last().take(k - 1) =~= s.drop_last().take(k - 1));
    } else {
        assert(all_digits(s.drop_last()));
        lemma_digits_value_prefix(s.drop_last(), k);
        assert(s.drop_last().take(k) =~= s.take(k));
        lemma_digits_value_prefix(s.drop_last(), s.len() - 1);
        assert(s.drop_last().take(s.len() - 1) =~= s.drop_last());
    }
}

/// Reads the digits `s[start..]`, giving up once the value passes `limit`.
fn parse_digits(s: &[char], start: usize, limit: u64) -> (r: Option<u64>)
    requires
        start < s@.len(),
        limit <= u32::MAX + 1,
    ensures
        r matches Some(v) ==> all_digits(s@.subrange(start as int, s@.len() as int)) && v
            == digits_value(s@.subrange(start as int, s@.len() as int)) && v <= limit,
        r is None ==> !all_digits(s@.subrange(start as int, s@.len() as int)) || digits_value(
            s@.subrange(start as int, s@.len() as int),
        ) > limit,
{
    let n = s.len();
    let mut acc: u64 = 0;
    let mut i = start;
    let ghost d = s@.subrange(start as int, n as int);
    while i < n
        invariant
            start <= i <= n == s@.len(),
            limit <= u32::MAX + 1,
            d == s@.subrange(start as int, n as int),
            all_digits(d.take(i - start)),
            acc == digits_value(d.take(i - start)),
            acc <= limit,
        decreases n - i,
    {
        let c = s[i];
        if !('0' <= c && c <= '9') {
            assert(d[i - start] == c);
            return None;
        }
        assert(d.take(i - start + 1).drop_last() =~= d.take(i - start));
        assert(d.take(i - start + 1).last() == c);
        let dv = (c as u32 - '0' as u32) as u64;
        acc = acc * 10 + dv;
        i += 1;
        if acc > limit {
            proof {
                if all_digits(d) {
                    lemma_digits_value_prefix(d, i - start);
                }
            }
            return None;
        }
    }
    assert(d.take(n - start) =~= d);
    Some(acc)
}

/// `u32::from_str` on a sequence of characters.
pub fn parse_u32(s: &[char]) -> (r: Option<u32>)
    ensures
        r == spec_parse_u32(s@),
{
    let n = s.len();
    if n == 0 {
        return None;
    }
    let start: usize = if s[0] == '+' { 1 } else { 0 };
    proof {
        let d = if s@[0] == '+' { s@.drop_first() } else { s@ };
        assert(d =~= s@.subrange(start as int, n as int));
    }
    if start == n {
        return None;
    }
    match parse_digits(s, start, 0xffff_ffffu64) {
        Some(v) => Some(v as u32),
        None => None,
    }
}

/// `i32::from_str` on a sequence of characters.
pub fn parse_i32(s: &[char]) -> (r: Option<i32>)
    ensures
        r == spec_parse_i32(s@),
{
    let n = s.len();
    if n == 0 {
        return None;
    }
    let neg = s[0] == '-';
    let start: usize = if s[0] == '+' || s[0] == '-' { 1 } else { 0 };
    proof {
        let d = if s@[0] == '+' || s@[0] == '-' { s@.drop_first() } else { s@ };
        assert(d =~= s@.subrange(start as int, n as int));
    }
    if start == n {
        return None;
    }
    let limit: u64 = if neg { 0x8000_0000 } else { 0x7fff_ffff };
    match parse_digits(s, start, limit) {
        Some(v) => {
            if neg {
                if v == 0x8000_0000 {
                    Some(i32::MIN)
                } else {
                    Some(-(v as i32))
                }
            } else {
                Some(v as i32)
            }
        },
        None => None,
    }
}

/// The character of a decimal digit.
pub open spec fn digit_char(d: nat) -> char {
    (d + '0' as nat) as char
}

/// The decimal representation of `n`, as `u64`'s `Display` writes it.
pub open spec fn decimal(n: nat) -> Seq<char>
    decreases n,
{
    if n < 10 {
        seq![digit_char(n)]
    } else {
        decimal(n / 10).push(digit_char(n % 10))
    }
}

/// Appends the decimal representation of `n` to `s`.
pub fn push_decimal(s: &mut String, n: u64)
    ensures
        final(s)@ == old(s)@ + decimal(n as nat),
    decreases n,
{
    if n >= 10 {
        push_decimal(s, n / 10);
    }
    let d = (n % 10) as u32;
    let c = char_of_digit(d);
    push_char(s, c);
    assert(old(s)@ + decimal(n as nat) =~= if n >= 10 {
        (old(s)@ + decimal((n / 10) as nat)).push(c)
    } else {
        old(s)@.push(c)
    });
}

/// The character of the digit `d`.
fn char_of_digit(d: u32) -> (c: char)
    requires
        d < 10,
    ensures
        c == digit_char(d as nat),
{
    let chars = ['0', '1', '2', '3', '4', '5', '6', '7', '8', '9'];
    let c = chars[d as usize];
    assert(c == digit_char(d as nat)) by {
        assert(chars@ =~= seq!['0', '1', '2', '3', '4', '5', '6', '7', '8', '9']);
    }
    c
}


/// The pieces of `s` between occurrences of `sep`, as `str::split` yields
/// them: always at least one piece, empty pieces kept.
pub open spec fn split_on(s: Seq<char>, sep: char) -> Seq<Seq<char>>
    decreases s.len(),
{
    if s.len() == 0 {
        seq![Seq::empty()]
    } else {
        let r = split_on(s.drop_last(), sep);
        if s.last() == sep {
            r.push(Seq::empty())
        } else {
            r.update(r.len() - 1, r.last().push(s.last()))
        }
    }
}

/// `split_on` always yields at least one piece.
pub proof fn lemma_split_on_nonempty(s: Seq<char>, sep: char)
    ensures
        split_on(s, sep).len() >= 1,
    decreases s.len(),
{
    if s.len() > 0 {
        lemma_split_on_nonempty(s.drop_last(), sep);
    }
}

/// The pieces that `ranges` cut out of `s`.
pub open spec fn pieces_of(s: Seq<char>, ranges: Seq<(usize, usize)>) -> Seq<Seq<char>> {
    ranges.map_values(|r: (usize, usize)| s.subrange(r.0 as int, r.1 as int))
}

/// Splits `s` at every `sep`, returning the index range of each piece.
pub fn split_ranges(s: &[char], sep: char) -> (r: Vec<(usize, usize)>)
    ensures
        pieces_of(s@, r@) == split_on(s@, sep),
        forall|i: int| 0 <= i < r@.len() ==> #[trigger] r@[i].0 <= r@[i].1 <= s@.len(),
{
    let n = s.len();
    let mut done: Vec<(usize, usize)> = Vec::new();
    let mut start: usize = 0;
    let mut i: usize = 0;
    assert(s@.take(0) =~= Seq::<char>::empty());
    while i < n
        invariant
            0 <= start <= i <= n == s@.len(),
            forall|k: int| 0 <= k < done@.len() ==> #[trigger] done@[k].0 <= done@[k].1 <= start,
            split_on(s@.take(i as int), sep) == pieces_of(s@, done@).push(
                s@.subrange(start as int, i as int),
            ),
        decreases n - i,
    {
        let ghost prev = s@.take(i as int);
        assert(s@.take(i + 1).drop_last() =~= prev);
        assert(s@.take(i + 1).last() == s@[i as int]);
        if s[i] == sep {
            let ghost before = done@;
            let ghost st = start;
            done.push((start, i));
            start = i + 1;
            assert(pieces_of(s@, done@) =~= pieces_of(s@, before).push(
                s@.subrange(st as int, i as int),
            ));
            assert(s@.subrange(start as int, i + 1) =~= Seq::<char>::empty());
            assert forall|k: int| 0 <= k < done@.len() implies #[trigger] done@[k].0 <= done@[k].1
                <= start by {
                if k < before.len() {
                    assert(done@[k] == before[k]);
                    assert(before[k].0 <= before[k].1 <= st);
                } else {
                    assert(done@[k] == (st, i));
                }
            }
        } else {
            assert(s@.subrange(start as int, i + 1) =~= s@.subrange(start as int, i as int).push(
                s@[i as int],
            ));
        }
        i += 1;
        assert(split_on(s@.take(i as int), sep) =~= pieces_of(s@, done@).push(
            s@.subrange(start as int, i as int),
        ));
    }
    done.push((start, n));
    assert(s@.take(n as int) =~= s@);
    assert(pieces_of(s@, done@) =~= pieces_of(s@, done@.drop_last()).push(
        s@.subrange(start as int, n as int),
    ));
    done
}


/// Copies the characters `s[from..to]` into a new vector.
pub fn copy_range(s: &[char], from: usize, to: usize) -> (v: Vec<char>)
    requires
        from <= to <= s@.len(),
    ensures
        v@ == s@.subrange(from as int, to as int),
{
    let mut v: Vec<char> = Vec::new();
    let mut i = from;
    while i < to
        invariant
            from <= i <= to <= s@.len(),
            v@ == s@.subrange(from as int, i as int),
        decreases to - i,
    {
        v.push(s[i]);
        assert(s@.subrange(from as int, i + 1) =~= s@.subrange(from as int, i as int).push(
            s@[i as int],
        ));
        i += 1;
    }
    v
}

/// Turns a string into a `&'static str` that lives for the rest of the
/// program (`Box::leak` on the string's boxed form).
#[verifier::external_body]
pub fn leak_str(s: String) -> (r: &'static str)
    ensures
        r@ == s@,
{
    Box::leak(s.into_boxed_str())
}


/// A piece without the separator splits into itself.
pub proof fn lemma_split_on_no_sep(s: Seq<char>, sep: char)
    requires
        !s.contains(sep),
    ensures
        split_on(s, sep) == seq![s],
    decreases s.len(),
{
    if s.len() == 0 {
        assert(s =~= Seq::<char>::empty());
        assert(split_on(s, sep) =~= seq![s]);
    } else {
        assert(!s.drop_last().contains(sep)) by {
            if s.drop_last().contains(sep) {
                let i = choose|i: int| 0 <= i < s.drop_last().len() && s.drop_last()[i] == sep;
                assert(s[i] == sep);
            }
        }
        lemma_split_on_no_sep(s.drop_last(), sep);
        assert(s.last() != sep) by {
            assert(s[s.len() - 1] == s.last());
        }
        assert(s.drop_last().push(s.last()) =~= s);
        let r = split_on(s.drop_last(), sep);
        assert(r.len() == 1 && r.last() == s.drop_last());
        assert(r.update(0, r.last().push(s.last())) =~= seq![s]);
    }
}

/// Splitting text joined by a separator splits each side.
pub proof fn lemma_split_on_join(s: Seq<char>, t: Seq<char>, sep: char)
    ensures
        split_on(s + seq![sep] + t, sep) == split_on(s, sep) + split_on(t, sep),
    decreases t.len(),
{
    lemma_split_on_nonempty(s, sep);
    if t.len() == 0 {
        assert((s + seq![sep] + t).drop_last() =~= s);
        assert(split_on(s + seq![sep] + t, sep) =~= split_on(s, sep) + split_on(t, sep));
    } else {
        let u = s + seq![sep] + t;
        assert(u.drop_last() =~= s + seq![sep] + t.drop_last());
        lemma_split_on_join(s, t.drop_last(), sep);
        lemma_split_on_nonempty(t.drop_last(), sep);
        assert(u.last() == t.last());
        assert(split_on(u, sep) =~= split_on(s, sep) + split_on(t, sep));
    }
}

/// A digit's character is a digit worth the digit.
pub proof fn lemma_digit_char(d: nat)
    requires
        d < 10,
    ensures
        is_digit(digit_char(d)),
        digit_value(digit_char(d)) == d,
{
    assert(((d + '0' as nat) as char) as int == d + 48);
}

/// The decimal text of `n` is a nonempty digit string worth `n`.
pub proof fn lemma_decimal_digits(n: nat)
    ensures
        decimal(n).len() >= 1,
        all_digits(decimal(n)),
        digits_value(decimal(n)) == n,
    decreases n,
{
    lemma_digit_char((n % 10) as nat);
    if n >= 10 {
        lemma_decimal_digits(n / 10);
        let d = decimal(n);
        assert(d.drop_last() =~= decimal(n / 10));
        assert(d.last() == digit_char(n % 10));
        assert(digits_value(d) == digits_value(decimal(n / 10)) * 10 + digit_value(
            digit_char(n % 10),
        ));
        assert((n / 10) * 10 + n % 10 == n);
        assert(all_digits(d)) by {
            assert forall|i: int| 0 <= i < d.len() implies is_digit(#[trigger] d[i]) by {
                if i < d.len() - 1 {
                    assert(d[i] == decimal(n / 10)[i]);
                }
            }
        }
    } else {
        let d = decimal(n);
        assert(d.drop_last() =~= Seq::<char>::empty());
        assert(d.last() == digit_char(n));
        lemma_digit_char(n);
        assert(digits_value(d) == digits_value(d.drop_last()) * 10 + digit_value(d.last()));
        assert(digits_value(d.drop_last()) == 0);
    }
}

/// `u32::from_str` reads back the decimal text of a `u32`.
pub proof fn lemma_parse_decimal(n: u32)
    ensures
        spec_parse_u32(decimal(n as nat)) == Some(n),
{
    lemma_decimal_digits(n as nat);
    let d = decimal(n as nat);
    assert(is_digit(d[0]));
}

/// Whether two strings hold the same characters.
pub fn same_text(a: &str, b: &str) -> (r: bool)
    ensures
        r == (a@ == b@),
{
    let x = chars_of(a);
    let y = chars_of(b);
    if x.len() != y.len() {
        return false;
    }
    let mut i: usize = 0;
    while i < x.len()
        invariant
            i <= x@.len() == y@.len(),
            x@ == a@,
            y@ == b@,
            x@.take(i as int) == y@.take(i as int),
        decreases x.len() - i,
    {
        if x[i] != y[i] {
            assert(a@ != b@) by {
                if a@ == b@ {
                    assert(x@[i as int] == y@[i as int]);
                }
            }
            return false;
        }
        assert(x@.take(i + 1) =~= x@.take(i as int).push(x@[i as int]));
        assert(y@.take(i + 1) =~= y@.take(i as int).push(y@[i as int]));
        i += 1;
    }
    assert(x@.take(x@.len() as int) =~= x@);
    assert(y@.take(y@.len() as int) =~= y@);
    true
}

/// The decimal text of a signed integer.
pub open spec fn signed_decimal(n: i64) -> Seq<char> {
    if n < 0 { seq!['-'] + decimal((-(n as int)) as nat) } else { decimal(n as nat) }
}

/// Appends the decimal text of a signed integer.
pub fn push_signed(s: &mut String, n: i64)
    ensures
        final(s)@ == old(s)@ + signed_decimal(n),
{
    if n < 0 {
        proof {
            reveal_strlit("-");
        }
        push_chars(s, "-");
        let m: u64 = if n == i64::MIN { 0x8000_0000_0000_0000u64 } else { (-n) as u64 };
        push_decimal(s, m);
        assert(final(s)@ =~= old(s)@ + signed_decimal(n));
    } else {
        push_decimal(s, n as u64);
    }
}

/// The index of the first `c` in `s`, if any.
#[verifier::opaque]
pub open spec fn first_index(s: Seq<char>, c: char) -> Option<int> {
    if exists|i: int| 0 <= i < s.len() && s[i] == c {
        Some(choose|i: int| 0 <= i < s.len() && s[i] == c && forall|k: int| 0 <= k < i ==> s[k] != c)
    } else {
        None
    }
}

/// The index of the last `c` in `s`, if any.
#[verifier::opaque]
pub open spec fn last_index(s: Seq<char>, c: char) -> Option<int> {
    if exists|i: int| 0 <= i < s.len() && s[i] == c {
        Some(choose|i: int| 0 <= i < s.len() && s[i] == c && forall|k: int| i < k < s.len() ==> s[k] != c)
    } else {
        None
    }
}

/// Finds the first `c` in `s`.
pub fn find_first(s: &[char], c: char) -> (r: Option<usize>)
    ensures
        match r {
            Some(i) => first_index(s@, c) == Some(i as int) && i < s@.len() && s@[i as int] == c
                && forall|k: int| 0 <= k < i ==> s@[k] != c,
            None => first_index(s@, c) is None && forall|k: int| 0 <= k < s@.len() ==> s@[k] != c,
        },
{
    reveal(first_index);
    let mut i: usize = 0;
    while i < s.len()
        invariant
            i <= s@.len(),
            forall|k: int| 0 <= k < i ==> s@[k] != c,
        decreases s.len() - i,
    {
        if s[i] == c {
            reveal(first_index);
            let ghost j = choose|j: int| 0 <= j < s@.len() && s@[j] == c && forall|k: int| 0 <= k < j ==> s@[k] != c;
            assert(0 <= i < s@.len() && s@[i as int] == c);
            assert(j == i) by {
                if j < i {
                } else if j > i {
                    assert(s@[i as int] != c);
                }
            }
            assert(first_index(s@, c) == Some(i as int));
            assert(forall|k: int| 0 <= k < i ==> s@[k] != c);
            return Some(i);
        }
        i += 1;
    }
    None
}

/// Finds the last `c` in `s`.
pub fn find_last(s: &[char], c: char) -> (r: Option<usize>)
    ensures
        match r {
            Some(i) => last_index(s@, c) == Some(i as int) && i < s@.len() && s@[i as int] == c
                && forall|k: int| i < k < s@.len() ==> s@[k] != c,
            None => last_index(s@, c) is None && forall|k: int| 0 <= k < s@.len() ==> s@[k] != c,
        },
{
    reveal(last_index);
    let mut i: usize = s.len();
    while i > 0
        invariant
            i <= s@.len(),
            forall|k: int| i <= k < s@.len() ==> s@[k] != c,
        decreases i,
    {
        if s[i - 1] == c {
            reveal(last_index);
            let ghost m = (i - 1) as int;
            let ghost j = choose|j: int| 0 <= j < s@.len() && s@[j] == c && forall|k: int| j < k < s@.len() ==> s@[k] != c;
            assert(0 <= m < s@.len() && s@[m] == c);
            assert(j == m) by {
                if j > m {
                } else if j < m {
                    assert(s@[m] != c);
                }
            }
            assert(last_index(s@, c) == Some(m));
            assert(forall|k: int| m < k < s@.len() ==> s@[k] != c);
            return Some(i - 1);
        }
        i -= 1;
    }
    None
}

/// Whether `s` ends with `suffix`.
pub open spec fn ends_with(s: Seq<char>, suffix: Seq<char>) -> bool {
    suffix.len() <= s.len() && s.skip(s.len() - suffix.len()) == suffix
}

/// Whether `s` ends with `suffix`.
pub fn text_ends_with(s: &str, suffix: &str) -> (r: bool)
    ensures
        r == ends_with(s@, suffix@),
{
    let a = chars_of(s);
    let b = chars_of(suffix);
    if b.len() > a.len() {
        return false;
    }
    let off = a.len() - b.len();
    let mut i: usize = 0;
    while i < b.len()
        invariant
            off + b@.len() == a@.len() <= usize::MAX,
            a@ == s@,
            b@ == suffix@,
            i <= b@.len(),
            forall|k: int| 0 <= k < i ==> a@[off + k] == b@[k],
        decreases b.len() - i,
    {
        if a[off + i] != b[i] {
            assert(!ends_with(s@, suffix@)) by {
                if ends_with(s@, suffix@) {
                    assert(a@.skip(off as int)[i as int] == b@[i as int]);
                }
            }
            return false;
        }
        i += 1;
    }
    assert(a@.skip(off as int) =~= b@);
    true
}

} // verus!
