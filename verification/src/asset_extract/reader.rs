//! Sequential reading of the binary layout of Unity's serialized objects:
//! fixed-width integers in either byte order, length-prefixed byte arrays
//! and strings, and 4-byte alignment, from a position in a byte slice.
//!
//! Every reader takes the data, a position and the byte order, and gives
//! back the value read together with the position just after it.

use vstd::prelude::*;
use vstd::utf8::{decode_utf8, valid_utf8};

use crate::bytes::{signed32, signed64, spec_u16, spec_u32, spec_u64, to_i32, to_i64, u16_at, u32_at, u64_at};

verus! {

/// Why reading an object failed.
#[derive(Debug, Clone, Copy, PartialEq, Eq, Structural)]
pub enum ParseError {
    /// The data ended before the value did.
    UnexpectedEof,
    /// A string's bytes are not UTF-8.
    InvalidUtf8,
    /// A byte array announced more than [`MAX_READ_BYTES_LEN`] bytes.
    TooLarge,
    /// The serialized file's Unity version string is not a version.
    InvalidUnityVersion,
}

/// The largest byte array a reader accepts (1 GiB).
pub const MAX_READ_BYTES_LEN: u32 = 1073741824;

/// A value read, with the position after it, or why reading failed.
pub type Read<T> = Result<(T, usize), ParseError>;

/// The positions a reader can be at: within the data, or past its end
/// only by an alignment step.
pub open spec fn pos_ok(d: Seq<u8>, p: usize) -> bool {
    &&& d.len() <= isize::MAX
    &&& (p <= d.len() || (p % 4 == 0 && p <= d.len() + 3))
}

/// A read's position after success is again a valid position.
pub open spec fn read_ok<T>(d: Seq<u8>, r: Read<T>) -> bool {
    r matches Ok((_, q)) ==> pos_ok(d, q)
}

/// One byte.
pub open spec fn spec_read_u8(d: Seq<u8>, p: usize) -> Read<u8> {
    if p + 1 <= d.len() {
        Ok((d[p as int], (p + 1) as usize))
    } else {
        Err(ParseError::UnexpectedEof)
    }
}

/// One byte, nonzero meaning `true`.
pub open spec fn spec_read_bool(d: Seq<u8>, p: usize) -> Read<bool> {
    match spec_read_u8(d, p) {
        Ok((b, q)) => Ok((b != 0, q)),
        Err(e) => Err(e),
    }
}

/// A 2-byte unsigned integer.
pub open spec fn spec_read_u16(d: Seq<u8>, p: usize, be: bool) -> Read<u16> {
    if p + 2 <= d.len() {
        Ok((spec_u16(d, p as int, be) as u16, (p + 2) as usize))
    } else {
        Err(ParseError::UnexpectedEof)
    }
}

/// A 4-byte unsigned integer.
pub open spec fn spec_read_u32(d: Seq<u8>, p: usize, be: bool) -> Read<u32> {
    if p + 4 <= d.len() {
        Ok((spec_u32(d, p as int, be) as u32, (p + 4) as usize))
    } else {
        Err(ParseError::UnexpectedEof)
    }
}

/// A 4-byte two's complement integer.
pub open spec fn spec_read_i32(d: Seq<u8>, p: usize, be: bool) -> Read<i32> {
    if p + 4 <= d.len() {
        Ok((signed32(spec_u32(d, p as int, be)) as i32, (p + 4) as usize))
    } else {
        Err(ParseError::UnexpectedEof)
    }
}

/// An 8-byte unsigned integer.
pub open spec fn spec_read_u64(d: Seq<u8>, p: usize, be: bool) -> Read<u64> {
    if p + 8 <= d.len() {
        Ok((spec_u64(d, p as int, be) as u64, (p + 8) as usize))
    } else {
        Err(ParseError::UnexpectedEof)
    }
}

/// An 8-byte two's complement integer.
pub open spec fn spec_read_i64(d: Seq<u8>, p: usize, be: bool) -> Read<i64> {
    if p + 8 <= d.len() {
        Ok((signed64(spec_u64(d, p as int, be)) as i64, (p + 8) as usize))
    } else {
        Err(ParseError::UnexpectedEof)
    }
}

/// `n` raw bytes; reading none always succeeds, even past the end.
pub open spec fn spec_read_exact(d: Seq<u8>, p: usize, n: nat) -> Read<Seq<u8>> {
    if n == 0 {
        Ok((seq![], p))
    } else if p + n <= d.len() {
        Ok((d.subrange(p as int, p + n), (p + n) as usize))
    } else {
        Err(ParseError::UnexpectedEof)
    }
}

/// A byte array: its length as a 4-byte unsigned integer, then its bytes.
pub open spec fn spec_read_bytes(d: Seq<u8>, p: usize, be: bool) -> Read<Seq<u8>> {
    match spec_read_u32(d, p, be) {
        Err(e) => Err(e),
        Ok((n, q)) => if n > MAX_READ_BYTES_LEN {
            Err(ParseError::TooLarge)
        } else {
            spec_read_exact(d, q, n as nat)
        },
    }
}

/// A string: a byte array holding UTF-8.
pub open spec fn spec_read_string(d: Seq<u8>, p: usize, be: bool) -> Read<Seq<char>> {
    match spec_read_bytes(d, p, be) {
        Err(e) => Err(e),
        Ok((b, q)) => if valid_utf8(b) {
            Ok((decode_utf8(b), q))
        } else {
            Err(ParseError::InvalidUtf8)
        },
    }
}

/// The first multiple of 4 at or after `p`.
pub open spec fn align4(p: usize) -> usize {
    if p % 4 == 0 {
        p
    } else {
        (p + (4 - p % 4)) as usize
    }
}

/// A string followed by padding to a multiple of 4.
pub open spec fn spec_read_aligned_string(d: Seq<u8>, p: usize, be: bool) -> Read<Seq<char>> {
    match spec_read_string(d, p, be) {
        Err(e) => Err(e),
        Ok((s, q)) => Ok((s, align4(q))),
    }
}

/// The view of a read whose value is a vector.
pub open spec fn vec_read<T>(r: Read<Vec<T>>) -> Read<Seq<T>> {
    match r {
        Ok((v, q)) => Ok((v@, q)),
        Err(e) => Err(e),
    }
}

/// The view of a read whose value is a string.
pub open spec fn string_read(r: Read<String>) -> Read<Seq<char>> {
    match r {
        Ok((s, q)) => Ok((s@, q)),
        Err(e) => Err(e),
    }
}

/// Decodes UTF-8 (`String::from_utf8`).
///
/// Trusted: `String::from_utf8` succeeds exactly on valid UTF-8, and its
/// string holds the characters that the bytes encode.
#[verifier::external_body]
fn string_from_utf8(bytes: Vec<u8>) -> (r: Option<String>)
    ensures
        match r {
            Some(s) => valid_utf8(bytes@) && s@ == decode_utf8(bytes@),
            None => !valid_utf8(bytes@),
        },
{
    String::from_utf8(bytes).ok()
}

/// Reads one byte.
pub fn read_u8(d: &[u8], p: usize) -> (r: Read<u8>)
    requires
        pos_ok(d@, p),
    ensures
        r == spec_read_u8(d@, p),
        read_ok(d@, r),
{
    if p < d.len() {
        Ok((d[p], p + 1))
    } else {
        Err(ParseError::UnexpectedEof)
    }
}

/// Reads a boolean byte.
pub fn read_bool(d: &[u8], p: usize) -> (r: Read<bool>)
    requires
        pos_ok(d@, p),
    ensures
        r == spec_read_bool(d@, p),
        read_ok(d@, r),
{
    match read_u8(d, p) {
        Ok((b, q)) => Ok((b != 0, q)),
        Err(e) => Err(e),
    }
}

/// Whether `n` more bytes are there at `p`.
fn fits(d: &[u8], p: usize, n: usize) -> (r: bool)
    requires
        pos_ok(d@, p),
    ensures
        r == (p + n <= d@.len()),
{
    p <= d.len() && n <= d.len() - p
}

/// Reads a 2-byte unsigned integer.
pub fn read_u16(d: &[u8], p: usize, be: bool) -> (r: Read<u16>)
    requires
        pos_ok(d@, p),
    ensures
        r == spec_read_u16(d@, p, be),
        read_ok(d@, r),
{
    if fits(d, p, 2) {
        Ok((u16_at(d, p, be), p + 2))
    } else {
        Err(ParseError::UnexpectedEof)
    }
}

/// Reads a 4-byte unsigned integer.
pub fn read_u32(d: &[u8], p: usize, be: bool) -> (r: Read<u32>)
    requires
        pos_ok(d@, p),
    ensures
        r == spec_read_u32(d@, p, be),
        read_ok(d@, r),
{
    if fits(d, p, 4) {
        Ok((u32_at(d, p, be), p + 4))
    } else {
        Err(ParseError::UnexpectedEof)
    }
}

/// Reads a 4-byte two's complement integer.
pub fn read_i32(d: &[u8], p: usize, be: bool) -> (r: Read<i32>)
    requires
        pos_ok(d@, p),
    ensures
        r == spec_read_i32(d@, p, be),
        read_ok(d@, r),
{
    if fits(d, p, 4) {
        Ok((to_i32(u32_at(d, p, be)), p + 4))
    } else {
        Err(ParseError::UnexpectedEof)
    }
}

/// Reads an 8-byte unsigned integer.
pub fn read_u64(d: &[u8], p: usize, be: bool) -> (r: Read<u64>)
    requires
        pos_ok(d@, p),
    ensures
        r == spec_read_u64(d@, p, be),
        read_ok(d@, r),
{
    if fits(d, p, 8) {
        Ok((u64_at(d, p, be), p + 8))
    } else {
        Err(ParseError::UnexpectedEof)
    }
}

/// Reads an 8-byte two's complement integer.
pub fn read_i64(d: &[u8], p: usize, be: bool) -> (r: Read<i64>)
    requires
        pos_ok(d@, p),
    ensures
        r == spec_read_i64(d@, p, be),
        read_ok(d@, r),
{
    if fits(d, p, 8) {
        Ok((to_i64(u64_at(d, p, be)), p + 8))
    } else {
        Err(ParseError::UnexpectedEof)
    }
}

/// Reads `n` raw bytes.
pub fn read_exact(d: &[u8], p: usize, n: usize) -> (r: Read<Vec<u8>>)
    requires
        pos_ok(d@, p),
    ensures
        vec_read(r) == spec_read_exact(d@, p, n as nat),
        read_ok(d@, r),
{
    if n == 0 {
        return Ok((Vec::new(), p));
    }
    if !fits(d, p, n) {
        return Err(ParseError::UnexpectedEof);
    }
    let end = p + n;
    let mut v: Vec<u8> = Vec::new();
    let mut i: usize = p;
    while i < end
        invariant
            p <= i <= end,
            end == p + n,
            end <= d@.len(),
            v@ == d@.subrange(p as int, i as int),
        decreases end - i,
    {
        v.push(d[i]);
        i += 1;
    }
    Ok((v, end))
}

/// Reads a length-prefixed byte array.
pub fn read_bytes(d: &[u8], p: usize, be: bool) -> (r: Read<Vec<u8>>)
    requires
        pos_ok(d@, p),
    ensures
        vec_read(r) == spec_read_bytes(d@, p, be),
        read_ok(d@, r),
{
    match read_u32(d, p, be) {
        Err(e) => Err(e),
        Ok((n, q)) => {
            if n > MAX_READ_BYTES_LEN {
                Err(ParseError::TooLarge)
            } else {
                read_exact(d, q, n as usize)
            }
        },
    }
}

/// Reads a length-prefixed UTF-8 string.
pub fn read_string(d: &[u8], p: usize, be: bool) -> (r: Read<String>)
    requires
        pos_ok(d@, p),
    ensures
        string_read(r) == spec_read_string(d@, p, be),
        read_ok(d@, r),
{
    match read_bytes(d, p, be) {
        Err(e) => Err(e),
        Ok((b, q)) => match string_from_utf8(b) {
            Some(s) => Ok((s, q)),
            None => Err(ParseError::InvalidUtf8),
        },
    }
}

/// Moves to the first multiple of 4 at or after `p`.
pub fn align(d: &[u8], p: usize) -> (q: usize)
    requires
        pos_ok(d@, p),
    ensures
        q == align4(p),
        pos_ok(d@, q),
{
    let m = p % 4;
    if m == 0 {
        p
    } else {
        p + (4 - m)
    }
}

/// Reads a string and moves to the next multiple of 4.
pub fn read_aligned_string(d: &[u8], p: usize, be: bool) -> (r: Read<String>)
    requires
        pos_ok(d@, p),
    ensures
        string_read(r) == spec_read_aligned_string(d@, p, be),
        read_ok(d@, r),
{
    match read_string(d, p, be) {
        Err(e) => Err(e),
        Ok((s, q)) => Ok((s, align(d, q))),
    }
}


/// `n` consecutive 4-byte unsigned integers.
pub open spec fn spec_read_u32s(d: Seq<u8>, p: usize, be: bool, n: nat) -> Read<Seq<u32>> {
    if p + 4 * n <= d.len() {
        Ok((Seq::new(n, |i: int| spec_u32(d, p + 4 * i, be) as u32), (p + 4 * n) as usize))
    } else {
        Err(ParseError::UnexpectedEof)
    }
}

/// Reads `n` consecutive 4-byte unsigned integers.
pub fn read_u32s(d: &[u8], p: usize, be: bool, n: usize) -> (r: Read<Vec<u32>>)
    requires
        pos_ok(d@, p),
        n <= 16,
    ensures
        vec_read(r) == spec_read_u32s(d@, p, be, n as nat),
        read_ok(d@, r),
{
    if !fits(d, p, 4 * n) {
        return Err(ParseError::UnexpectedEof);
    }
    let mut v: Vec<u32> = Vec::new();
    let mut i: usize = 0;
    while i < n
        invariant
            i <= n <= 16,
            p + 4 * n <= d@.len() <= isize::MAX,
            v@ =~= Seq::new(i as nat, |k: int| spec_u32(d@, p + 4 * k, be) as u32),
        decreases n - i,
    {
        let at: usize = p + 4 * i;
        v.push(u32_at(d, at, be));
        i += 1;
    }
    Ok((v, p + 4 * n))
}


/// The abstract value of a read, by deep view.
pub open spec fn deep_read<T: DeepView>(r: Read<T>) -> Read<T::V> {
    match r {
        Ok((x, q)) => Ok((x.deep_view(), q)),
        Err(e) => Err(e),
    }
}

/// `n` elements read one after the other from `p` with `elem`.
pub open spec fn spec_read_seq<T>(n: nat, p: usize, elem: spec_fn(usize) -> Read<T>) -> Read<Seq<T>>
    decreases n,
{
    if n == 0 {
        Ok((seq![], p))
    } else {
        match spec_read_seq((n - 1) as nat, p, elem) {
            Err(e) => Err(e),
            Ok((s, q)) => match elem(q) {
                Err(e) => Err(e),
                Ok((x, q2)) => Ok((s.push(x), q2)),
            },
        }
    }
}

/// An array: its length as a 4-byte unsigned integer, then its elements.
pub open spec fn spec_read_array<T>(d: Seq<u8>, p: usize, be: bool, elem: spec_fn(usize) -> Read<T>) -> Read<Seq<T>> {
    match spec_read_u32(d, p, be) {
        Err(e) => Err(e),
        Ok((n, q)) => spec_read_seq(n as nat, q, elem),
    }
}

/// Once reading the first elements fails, reading more fails the same way.
pub proof fn lemma_read_seq_fails<T>(i: nat, n: nat, p: usize, elem: spec_fn(usize) -> Read<T>)
    requires
        i <= n,
        spec_read_seq(i, p, elem) is Err,
    ensures
        spec_read_seq(n, p, elem) == spec_read_seq(i, p, elem),
    decreases n - i,
{
    if i < n {
        lemma_read_seq_fails(i, (n - 1) as nat, p, elem);
    }
}

/// A reader of the elements of an array.
pub trait ElementReader: Sized {
    /// The elements read.
    type Elem: DeepView;

    /// An element read at `q`.
    spec fn spec_read(&self, d: Seq<u8>, q: usize) -> Read<<Self::Elem as DeepView>::V>;

    /// Reads an element at `q`.
    fn read(&self, d: &[u8], q: usize) -> (r: Read<Self::Elem>)
        requires
            pos_ok(d@, q),
        ensures
            deep_read(r) == self.spec_read(d@, q),
            read_ok(d@, r);
}

/// The element reading of `r` as a function of the position.
pub open spec fn elements_of<R: ElementReader>(r: R, d: Seq<u8>) -> spec_fn(usize) -> Read<<R::Elem as DeepView>::V> {
    |q: usize| r.spec_read(d, q)
}

/// An array whose elements `r` reads.
pub open spec fn spec_read_array_of<R: ElementReader>(d: Seq<u8>, p: usize, be: bool, r: R) -> Read<Seq<<R::Elem as DeepView>::V>> {
    spec_read_array(d, p, be, elements_of(r, d))
}

/// Reads an array whose elements `elem` reads.
pub fn read_array<R: ElementReader>(d: &[u8], p: usize, be: bool, elem: &R) -> (r: Read<Vec<R::Elem>>)
    requires
        pos_ok(d@, p),
    ensures
        deep_read(r) == spec_read_array_of(d@, p, be, *elem),
        read_ok(d@, r),
{
    let ghost f = elements_of(*elem, d@);
    let (n, q0) = read_u32(d, p, be)?;
    let mut v: Vec<R::Elem> = Vec::new();
    let mut q = q0;
    let mut i: u32 = 0;
    assert(v.deep_view() =~= Seq::<<R::Elem as DeepView>::V>::empty());
    while i < n
        invariant
            i <= n,
            pos_ok(d@, q),
            f == elements_of(*elem, d@),
            spec_read_u32(d@, p, be) == Ok::<(u32, usize), ParseError>((n, q0)),
            spec_read_seq(i as nat, q0, f) == Ok::<(Seq<<R::Elem as DeepView>::V>, usize), ParseError>((v.deep_view(), q)),
        decreases n - i,
    {
        let x = elem.read(d, q);
        match x {
            Err(e) => {
                proof {
                    assert(spec_read_seq((i + 1) as nat, q0, f) == Err::<(Seq<<R::Elem as DeepView>::V>, usize), ParseError>(e));
                    lemma_read_seq_fails((i + 1) as nat, n as nat, q0, f);
                }
                return Err(e);
            },
            Ok((t, q2)) => {
                let ghost before = v.deep_view();
                let ghost tv = t.deep_view();
                v.push(t);
                assert(v.deep_view() =~= before.push(tv));
                q = q2;
                i += 1;
            },
        }
    }
    Ok((v, q))
}

} // verus!
