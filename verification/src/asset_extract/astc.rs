//! The block headers of ASTC texture data: which blocks the ASTC decoder
//! can work through. A block's header gives its weight grid, the
//! precision of its weights, its partitions and its color endpoint modes;
//! from these follow the bits that the weights, the configuration and the
//! endpoints take up, which must fit in the block's 128 bits.

use vstd::prelude::*;

verus! {

/// Whether a block is a void-extent block: one color for the whole block.
pub open spec fn is_void_extent(b0: u8, b1: u8) -> bool {
    b0 == 0xfc && b1 & 1 == 1
}

/// Whether a block uses a reserved encoding, drawn as magenta.
pub open spec fn is_reserved(b0: u8, b1: u8) -> bool {
    (b0 & 0xc3 == 0xc0 && b1 & 1 == 1) || b0 & 0xf == 0
}

/// The first two bytes of a block as a little-endian 16-bit number.
pub open spec fn header16(b0: u8, b1: u8) -> u16 {
    (b0 as u16) | ((b1 as u16) << 8u16)
}

/// The weight grid of a block: its width and height, whether it has two
/// weight planes, and its weight range.
pub open spec fn weight_grid(b0: u8, b1: u8) -> (int, int, bool, int) {
    let dual = b1 & 4 != 0;
    let low = ((b0 >> 4u8) & 1) | ((b1 << 2u8) & 8);
    let h16 = header16(b0, b1);
    if b0 & 3 != 0 {
        let range = (low | ((b0 << 1u8) & 6)) as int;
        let a = ((h16 >> 7u16) & 3) as int;
        let c = ((b0 >> 5u8) & 3) as int;
        if b0 & 0xc == 0 {
            (a + 4, c + 2, dual, range)
        } else if b0 & 0xc == 4 {
            (a + 8, c + 2, dual, range)
        } else if b0 & 0xc == 8 {
            (c + 2, a + 8, dual, range)
        } else if b1 & 1 != 0 {
            (((b0 >> 7u8) & 1) as int + 2, c + 2, dual, range)
        } else {
            (c + 2, ((b0 >> 7u8) & 1) as int + 6, dual, range)
        }
    } else {
        let range = (low | ((b0 >> 1u8) & 6)) as int;
        let c = ((b0 >> 5u8) & 3) as int;
        let m = h16 & 0x180;
        if m == 0 {
            (12, c + 2, dual, range)
        } else if m == 0x80 {
            (c + 2, 12, dual, range)
        } else if m == 0x100 {
            (c + 6, ((b1 >> 1u8) & 3) as int + 6, false, range % 8)
        } else if b0 & 0x20 != 0 {
            (10, 6, dual, range)
        } else {
            (6, 10, dual, range)
        }
    }
}

/// The trit/quint part of a weight range (0, 3 or 5).
pub open spec fn weight_prec_a(range: int) -> int {
    seq![0int, 0, 0, 3, 0, 5, 3, 0, 0, 0, 5, 3, 0, 5, 3, 0][range]
}

/// The bit part of a weight range.
pub open spec fn weight_prec_b(range: int) -> int {
    seq![0int, 0, 1, 0, 2, 0, 1, 3, 0, 0, 1, 2, 4, 2, 3, 5][range]
}

/// The bits that `count` weights of weight range `range` take up.
pub open spec fn weight_bits(count: int, range: int) -> int {
    let a = weight_prec_a(range);
    let b = weight_prec_b(range);
    if a == 3 {
        count * b + (count * 8 + 4) / 5
    } else if a == 5 {
        count * b + (count * 7 + 2) / 3
    } else {
        count * b
    }
}

/// The number of partitions of a block.
pub open spec fn partition_count(b1: u8) -> int {
    ((b1 >> 3u8) & 3) as int + 1
}

/// The class selector of a multi-partition block's endpoint modes; 0
/// means one mode for all partitions.
pub open spec fn cem_base(b2: u8, b3: u8) -> int {
    ((header16(b2, b3) >> 7u16) & 3) as int
}

/// The endpoint values that a color endpoint mode takes.
pub open spec fn cem_values(cem: int) -> int {
    (cem / 4) * 2 + 2
}

/// The configuration bits of a block: the header, partition and mode
/// fields before the endpoints, and the plane selector of a dual-plane
/// block.
pub open spec fn config_bits(b: Seq<u8>, dual: bool) -> int {
    let parts = partition_count(b[1]);
    let base = if parts == 1 {
        17
    } else if cem_base(b[2], b[3]) == 0 {
        29
    } else {
        25 + parts * 3
    };
    if dual { base + 2 } else { base }
}

/// The endpoint values of a block, over all its partitions.
pub open spec fn endpoint_values(b: Seq<u8>) -> int {
    let parts = partition_count(b[1]);
    if parts == 1 {
        cem_values(((header16(b[1], b[2]) >> 5u16) & 0xf) as int)
    } else if cem_base(b[2], b[3]) == 0 {
        parts * cem_values(((b[3] >> 1u8) & 0xf) as int)
    } else {
        let cb = cem_base(b[2], b[3]);
        let e = |i: int| if i < parts { 2 * ((((b[3] as int) / pow2_spec(i + 1)) % 2) + cb) } else { 0 };
        e(0) + e(1) + e(2) + e(3)
    }
}

/// `2` to the `n`, for the bits of a header byte.
pub open spec fn pow2_spec(n: int) -> int {
    if n == 1 { 2 } else if n == 2 { 4 } else if n == 3 { 8 } else { 16 }
}

/// Whether the decoder can work through a 16-byte block: void-extent and
/// reserved blocks always; other blocks when their weights and
/// configuration fit in 128 bits, the endpoints fit in what is left at
/// the narrowest endpoint range, and the weight grid's interpolation
/// stays inside the decoder's 128 weight slots.
pub open spec fn astc_block_ok(b: Seq<u8>) -> bool {
    if is_void_extent(b[0], b[1]) || is_reserved(b[0], b[1]) {
        true
    } else {
        let (w, h, dual, range) = weight_grid(b[0], b[1]);
        let planes = if dual { 2int } else { 1int };
        let wb = weight_bits(w * h * planes, range);
        let cfg = config_bits(b, dual);
        &&& cfg + wb <= 128
        &&& endpoint_values(b) <= 128 - cfg - wb
        &&& planes * (w * h + w + 1) <= 128
    }
}

/// Whether the first `count` 16-byte blocks of `data` can all be worked
/// through.
pub open spec fn astc_blocks_ok(data: Seq<u8>, count: int) -> bool {
    forall|k: int| 0 <= k < count ==> #[trigger] astc_block_ok(data.subrange(16 * k, 16 * k + 16))
}

/// The weight grid of a block, as `weight_grid` gives it.
fn grid_of(b0: u8, b1: u8) -> (r: (u64, u64, bool, usize))
    ensures
        weight_grid(b0, b1) == (r.0 as int, r.1 as int, r.2, r.3 as int),
        r.0 <= 12,
        r.1 <= 12,
        r.3 < 16,
{
    let dual0 = b1 & 4 != 0;
    let low = ((b0 >> 4u8) & 1) | ((b1 << 2u8) & 8);
    let h16: u16 = (b0 as u16) | ((b1 as u16) << 8u16);
    assert(h16 == header16(b0, b1));
    assert((h16 >> 7u16) & 3 <= 3) by (bit_vector);
    assert((b0 >> 5u8) & 3 <= 3) by (bit_vector);
    assert((b0 >> 7u8) & 1 <= 1) by (bit_vector);
    assert((b1 >> 1u8) & 3 <= 3) by (bit_vector);
    assert(low | ((b0 << 1u8) & 6) < 16) by (bit_vector)
        requires
            low == ((b0 >> 4u8) & 1) | ((b1 << 2u8) & 8),
    ;
    assert(low | ((b0 >> 1u8) & 6) < 16) by (bit_vector)
        requires
            low == ((b0 >> 4u8) & 1) | ((b1 << 2u8) & 8),
    ;
    if b0 & 3 != 0 {
        let range = (low | ((b0 << 1u8) & 6)) as usize;
        let a = ((h16 >> 7u16) & 3) as u64;
        let c = ((b0 >> 5u8) & 3) as u64;
        if b0 & 0xc == 0 {
            (a + 4, c + 2, dual0, range)
        } else if b0 & 0xc == 4 {
            (a + 8, c + 2, dual0, range)
        } else if b0 & 0xc == 8 {
            (c + 2, a + 8, dual0, range)
        } else if b1 & 1 != 0 {
            (((b0 >> 7u8) & 1) as u64 + 2, c + 2, dual0, range)
        } else {
            (c + 2, ((b0 >> 7u8) & 1) as u64 + 6, dual0, range)
        }
    } else {
        let range = (low | ((b0 >> 1u8) & 6)) as usize;
        let c = ((b0 >> 5u8) & 3) as u64;
        let m = h16 & 0x180;
        if m == 0 {
            (12, c + 2, dual0, range)
        } else if m == 0x80 {
            (c + 2, 12, dual0, range)
        } else if m == 0x100 {
            (c + 6, ((b1 >> 1u8) & 3) as u64 + 6, false, range % 8)
        } else if b0 & 0x20 != 0 {
            (10, 6, dual0, range)
        } else {
            (6, 10, dual0, range)
        }
    }
}

/// The bits that `count` weights of weight range `range` take up.
fn weight_bits_of(count: u64, range: usize) -> (r: u64)
    requires
        count <= 288,
        range < 16,
    ensures
        r == weight_bits(count as int, range as int),
        r <= 2200,
{
    let prec_a: [u64; 16] = [0, 0, 0, 3, 0, 5, 3, 0, 0, 0, 5, 3, 0, 5, 3, 0];
    let prec_b: [u64; 16] = [0, 0, 1, 0, 2, 0, 1, 3, 0, 0, 1, 2, 4, 2, 3, 5];
    let pa = prec_a[range];
    let pb = prec_b[range];
    assert(pa == weight_prec_a(range as int) && pb == weight_prec_b(range as int));
    assert(pb <= 5);
    assert(count * pb <= 1440) by (nonlinear_arith)
        requires
            count <= 288,
            pb <= 5,
    ;
    assert((count * 8 + 4) / 5 <= 462 && (count * 7 + 2) / 3 <= 673) by (nonlinear_arith)
        requires
            count <= 288,
    ;
    if pa == 3 {
        count * pb + (count * 8 + 4) / 5
    } else if pa == 5 {
        count * pb + (count * 7 + 2) / 3
    } else {
        count * pb
    }
}

/// The configuration bits and endpoint values of the block whose first
/// four bytes are given.
fn config_and_endpoints(b: Ghost<Seq<u8>>, b1: u8, b2: u8, b3: u8, dual: bool) -> (r: (u64, u64))
    requires
        b@.len() == 16,
        b@[1] == b1,
        b@[2] == b2,
        b@[3] == b3,
    ensures
        r.0 == config_bits(b@, dual),
        r.1 == endpoint_values(b@),
        r.0 <= 39,
        r.1 <= 32,
{
    assert((b1 >> 3u8) & 3 <= 3) by (bit_vector);
    let parts: u64 = ((b1 >> 3u8) & 3) as u64 + 1;
    let h23: u16 = (b2 as u16) | ((b3 as u16) << 8u16);
    assert(h23 == header16(b2, b3));
    assert((h23 >> 7u16) & 3 <= 3) by (bit_vector);
    assert((b3 >> 1u8) & 0xf <= 15) by (bit_vector);
    let cb: u64 = ((h23 >> 7u16) & 3) as u64;
    let base: u64 = if parts == 1 {
        17
    } else if cb == 0 {
        29
    } else {
        25 + parts * 3
    };
    let cfg = if dual { base + 2 } else { base };
    let evn: u64 = if parts == 1 {
        let h12: u16 = (b1 as u16) | ((b2 as u16) << 8u16);
        assert(h12 == header16(b1, b2));
        assert((h12 >> 5u16) & 0xf <= 15) by (bit_vector);
        (((h12 >> 5u16) & 0xf) as u64 / 4) * 2 + 2
    } else if cb == 0 {
        let per = (((b3 >> 1u8) & 0xf) as u64 / 4) * 2 + 2;
        assert(parts * per <= 32) by (nonlinear_arith)
            requires
                parts <= 4,
                per <= 8,
        ;
        parts * per
    } else {
        let x = b3 as u64;
        let e0 = 2 * ((x / 2) % 2 + cb);
        let e1 = if 1 < parts { 2 * ((x / 4) % 2 + cb) } else { 0 };
        let e2 = if 2 < parts { 2 * ((x / 8) % 2 + cb) } else { 0 };
        let e3 = if 3 < parts { 2 * ((x / 16) % 2 + cb) } else { 0 };
        e0 + e1 + e2 + e3
    };
    (cfg, evn)
}

/// Whether the block at `off` can be worked through.
pub fn astc_block_ok_at(data: &[u8], off: usize) -> (r: bool)
    requires
        off + 16 <= data@.len(),
    ensures
        r == astc_block_ok(data@.subrange(off as int, off + 16)),
{
    let ghost b = data@.subrange(off as int, off + 16);
    let b0 = data[off];
    let b1 = data[off + 1];
    let b2 = data[off + 2];
    let b3 = data[off + 3];
    assert(b[0] == b0 && b[1] == b1 && b[2] == b2 && b[3] == b3);
    if (b0 == 0xfc && b1 & 1 == 1) || (b0 & 0xc3 == 0xc0 && b1 & 1 == 1) || b0 & 0xf == 0 {
        return true;
    }
    let (w, h, dual, range) = grid_of(b0, b1);
    let planes: u64 = if dual { 2 } else { 1 };
    assert(w * h <= 144) by (nonlinear_arith)
        requires
            w <= 12,
            h <= 12,
    ;
    let count = w * h * planes;
    let wb = weight_bits_of(count, range);
    let (cfg, evn) = config_and_endpoints(Ghost(b), b1, b2, b3, dual);
    assert(planes * (w * h + w + 1) <= 2 * 157) by (nonlinear_arith)
        requires
            planes <= 2,
            w * h <= 144,
            w <= 12,
    ;
    cfg + wb <= 128 && evn + cfg + wb <= 128 && planes * (w * h + w + 1) <= 128
}

/// Whether the first `count` blocks of `data` can all be worked through.
pub fn astc_blocks_ok_exec(data: &[u8], count: usize) -> (r: bool)
    requires
        count * 16 <= data@.len(),
    ensures
        r == astc_blocks_ok(data@, count as int),
{
    let n = data.len();
    let mut k: usize = 0;
    while k < count
        invariant
            k <= count,
            n == data@.len(),
            count * 16 <= data@.len(),
            astc_blocks_ok(data@, k as int),
        decreases count - k,
    {
        assert(16 * k + 16 <= data@.len()) by (nonlinear_arith)
            requires
                k < count,
                count * 16 <= data@.len(),
        ;
        if !astc_block_ok_at(data, 16 * k) {
            return false;
        }
        k += 1;
    }
    true
}

} // verus!
