//! Readback of a captured surface into a tightly packed BGRA buffer, and the
//! captured bitmap handed to an image sink.
use vstd::prelude::*;

verus! {

/// Bytes per pixel of the packed output (32-bit BGRA).
pub const BYTES_PER_PIXEL: usize = 4;

/// The rows `0..height` of a mapped surface whose rows start `row_pitch`
/// bytes apart, each cut to its leading `row_bytes` bytes and put end to end.
pub open spec fn packed_rows(mapped: Seq<u8>, row_pitch: nat, row_bytes: nat, height: nat) -> Seq<u8>
    decreases height,
{
    if height == 0 {
        Seq::<u8>::empty()
    } else {
        let r = (height - 1) as nat;
        packed_rows(mapped, row_pitch, row_bytes, r) + mapped.subrange(
            (r * row_pitch) as int,
            (r * row_pitch + row_bytes) as int,
        )
    }
}

/// Whether a mapped surface of `len` bytes holds `height` rows of
/// `row_bytes` bytes that start `row_pitch` bytes apart.
pub open spec fn mapped_holds_rows(len: nat, row_pitch: nat, row_bytes: nat, height: nat) -> bool {
    &&& row_bytes <= row_pitch
    &&& height == 0 || (height - 1) * row_pitch + row_bytes <= len
}

proof fn lemma_row_in_bounds(len: nat, row_pitch: nat, row_bytes: nat, height: nat, r: nat)
    requires
        mapped_holds_rows(len, row_pitch, row_bytes, height),
        r < height,
    ensures
        r * row_pitch + row_bytes <= len,
{
    vstd::arithmetic::mul::lemma_mul_inequality(r as int, (height - 1) as int, row_pitch as int);
}

/// The packed rows hold exactly `row_bytes` bytes per row.
pub proof fn lemma_packed_rows_len(mapped: Seq<u8>, row_pitch: nat, row_bytes: nat, height: nat)
    requires
        mapped_holds_rows(mapped.len(), row_pitch, row_bytes, height),
    ensures
        packed_rows(mapped, row_pitch, row_bytes, height).len() == row_bytes * height,
    decreases height,
{
    if height > 0 {
        let r = (height - 1) as nat;
        lemma_row_in_bounds(mapped.len(), row_pitch, row_bytes, height, r);
        assert(mapped_holds_rows(mapped.len(), row_pitch, row_bytes, r)) by {
            if r > 0 {
                vstd::arithmetic::mul::lemma_mul_inequality(
                    (r - 1) as int,
                    (height - 1) as int,
                    row_pitch as int,
                );
            }
        }
        lemma_packed_rows_len(mapped, row_pitch, row_bytes, r);
        vstd::arithmetic::mul::lemma_mul_is_distributive_add(row_bytes as int, r as int, 1);
        assert(row_bytes * 1 == row_bytes);
        assert(packed_rows(mapped, row_pitch, row_bytes, height).len() == row_bytes * r
            + row_bytes);
        assert(row_bytes * height == row_bytes * (r + 1));
    } else {
        assert(row_bytes * 0 == 0);
    }
}

/// Byte `c` of row `r` of a mapped surface whose rows start `row_pitch`
/// bytes apart.
pub open spec fn mapped_byte(mapped: Seq<u8>, row_pitch: nat, r: nat, c: nat) -> u8 {
    mapped[(r * row_pitch + c) as int]
}

/// Byte `c` of packed row `r` is byte `c` of row `r` of the mapped surface.
pub proof fn lemma_packed_row_content(
    mapped: Seq<u8>,
    row_pitch: nat,
    row_bytes: nat,
    height: nat,
    r: nat,
    c: nat,
)
    requires
        mapped_holds_rows(mapped.len(), row_pitch, row_bytes, height),
        r < height,
        c < row_bytes,
    ensures
        r * row_bytes + c < packed_rows(mapped, row_pitch, row_bytes, height).len(),
        packed_rows(mapped, row_pitch, row_bytes, height)[(r * row_bytes + c) as int] == mapped[(r
            * row_pitch + c) as int],
    decreases height,
{
    let last = (height - 1) as nat;
    assert(mapped_holds_rows(mapped.len(), row_pitch, row_bytes, last)) by {
        if last > 0 {
            vstd::arithmetic::mul::lemma_mul_inequality(
                (last - 1) as int,
                (height - 1) as int,
                row_pitch as int,
            );
        }
    }
    lemma_packed_rows_len(mapped, row_pitch, row_bytes, height);
    lemma_packed_rows_len(mapped, row_pitch, row_bytes, last);
    lemma_row_in_bounds(mapped.len(), row_pitch, row_bytes, height, last);
    vstd::arithmetic::mul::lemma_mul_is_commutative(row_bytes as int, height as int);
    vstd::arithmetic::mul::lemma_mul_is_commutative(row_bytes as int, last as int);
    vstd::arithmetic::mul::lemma_mul_is_distributive_add(row_bytes as int, r as int, 1);
    vstd::arithmetic::mul::lemma_mul_is_distributive_add(row_bytes as int, last as int, 1);
    if r < last {
        lemma_packed_row_content(mapped, row_pitch, row_bytes, last, r, c);
        vstd::arithmetic::mul::lemma_mul_inequality((r + 1) as int, last as int, row_bytes as int);
    }
}

/// The packed rows depend only on the leading `row_bytes` bytes of each row:
/// two mapped surfaces that agree there, whatever their padding holds, pack
/// to the same bytes.
pub proof fn lemma_packed_rows_ignore_padding(
    a: Seq<u8>,
    b: Seq<u8>,
    row_pitch: nat,
    row_bytes: nat,
    height: nat,
)
    requires
        mapped_holds_rows(a.len(), row_pitch, row_bytes, height),
        mapped_holds_rows(b.len(), row_pitch, row_bytes, height),
        forall|r: nat, c: nat|
            r < height && c < row_bytes ==> #[trigger] mapped_byte(a, row_pitch, r, c)
                == mapped_byte(b, row_pitch, r, c),
    ensures
        packed_rows(a, row_pitch, row_bytes, height) == packed_rows(b, row_pitch, row_bytes, height),
    decreases height,
{
    if height > 0 {
        let last = (height - 1) as nat;
        assert(mapped_holds_rows(a.len(), row_pitch, row_bytes, last)
            && mapped_holds_rows(b.len(), row_pitch, row_bytes, last)) by {
            if last > 0 {
                vstd::arithmetic::mul::lemma_mul_inequality(
                    (last - 1) as int,
                    (height - 1) as int,
                    row_pitch as int,
                );
            }
        }
        lemma_packed_rows_ignore_padding(a, b, row_pitch, row_bytes, last);
        lemma_row_in_bounds(a.len(), row_pitch, row_bytes, height, last);
        lemma_row_in_bounds(b.len(), row_pitch, row_bytes, height, last);
        let start = (last * row_pitch) as int;
        let end = start + row_bytes;
        assert forall|c: int| 0 <= c < row_bytes implies a.subrange(start, end)[c] == b.subrange(
            start,
            end,
        )[c] by {
            assert(mapped_byte(a, row_pitch, last, c as nat) == mapped_byte(
                b,
                row_pitch,
                last,
                c as nat,
            ));
        }
        assert(a.subrange(start, end) =~= b.subrange(start, end));
    }
}

/// Copies `height` rows of `width` pixels out of a mapped surface whose rows
/// start `row_pitch` bytes apart, dropping the padding at the end of each row.
pub fn repack_rows(mapped: &Vec<u8>, row_pitch: usize, width: usize, height: usize) -> (r: Vec<u8>)
    requires
        width * BYTES_PER_PIXEL <= usize::MAX,
        mapped_holds_rows(mapped@.len(), row_pitch as nat, (width * BYTES_PER_PIXEL) as nat, height as nat),
    ensures
        r@ == packed_rows(mapped@, row_pitch as nat, (width * BYTES_PER_PIXEL) as nat, height as nat),
        r@.len() == width * height * BYTES_PER_PIXEL,
{
    let row_bytes: usize = width * BYTES_PER_PIXEL;
    let ghost rb = row_bytes as nat;
    let ghost rp = row_pitch as nat;
    let mapped_len: usize = mapped.len();
    let mut out: Vec<u8> = Vec::new();
    let mut row: usize = 0;
    while row < height
        invariant
            row <= height,
            row_bytes == width * BYTES_PER_PIXEL,
            rb == row_bytes,
            rp == row_pitch,
            mapped_len == mapped@.len(),
            mapped_holds_rows(mapped@.len(), rp, rb, height as nat),
            out@ == packed_rows(mapped@, rp, rb, row as nat),
        decreases height - row,
    {
        proof {
            lemma_row_in_bounds(mapped@.len(), rp, rb, height as nat, row as nat);
        }
        let start: usize = row * row_pitch;
        let ghost before = out@;
        let mut c: usize = 0;
        while c < row_bytes
            invariant
                c <= row_bytes,
                start == row * row_pitch,
                start + row_bytes <= mapped@.len(),
                mapped_len == mapped@.len(),
                out@ == before + mapped@.subrange(start as int, start + c),
            decreases row_bytes - c,
        {
            out.push(mapped[start + c]);
            c = c + 1;
            assert(out@ =~= before + mapped@.subrange(start as int, start + c));
        }
        row = row + 1;
        assert(packed_rows(mapped@, rp, rb, row as nat) == before + mapped@.subrange(
            start as int,
            start + row_bytes,
        ));
    }
    proof {
        lemma_packed_rows_len(mapped@, rp, rb, height as nat);
        vstd::arithmetic::mul::lemma_mul_is_commutative(width as int, height as int);
        vstd::arithmetic::mul::lemma_mul_is_associative(width as int, 4, height as int);
        vstd::arithmetic::mul::lemma_mul_is_associative(width as int, height as int, 4);
    }
    out
}

/// The pixel layout of a captured bitmap.
#[derive(Clone, Copy, Debug, PartialEq, Eq, Structural)]
pub enum PixelFormat {
    /// 32 bits per pixel: blue, green, red, alpha.
    Bgra8,
}

/// A captured bitmap: `width` by `height` BGRA pixels, row after row, with
/// no padding.
pub struct CaptureResult {
    width: u32,
    height: u32,
    pixels: Vec<u8>,
}

/// The number of bytes of a packed `width` by `height` BGRA bitmap.
pub open spec fn packed_len(width: nat, height: nat) -> nat {
    width * height * 4
}

impl CaptureResult {
    #[verifier::type_invariant]
    spec fn inv(&self) -> bool {
        self.pixels@.len() == packed_len(self.width as nat, self.height as nat)
    }

    pub closed spec fn spec_width(&self) -> u32 {
        self.width
    }

    pub closed spec fn spec_height(&self) -> u32 {
        self.height
    }

    pub closed spec fn spec_pixels(&self) -> Seq<u8> {
        self.pixels@
    }

    /// A bitmap of `width` by `height` pixels made of `pixels`, or `None`
    /// when `pixels` does not hold exactly four bytes per pixel.
    pub fn new(width: u32, height: u32, pixels: Vec<u8>) -> (r: Option<CaptureResult>)
        ensures
            r is Some <==> pixels@.len() == packed_len(width as nat, height as nat),
            r matches Some(c) ==> c.spec_width() == width && c.spec_height() == height
                && c.spec_pixels() == pixels@,
    {
        let n = pixels.len() as u128;
        let w = width as u128;
        let h = height as u128;
        proof {
            assert(w * h <= 0xffff_ffffu128 * 0xffff_ffffu128) by (nonlinear_arith)
                requires
                    w <= 0xffff_ffffu128,
                    h <= 0xffff_ffffu128,
            ;
        }
        if n == w * h * 4 {
            Some(CaptureResult { width, height, pixels })
        } else {
            None
        }
    }

    /// The bitmap of a capture of zero area.
    pub fn empty(width: u32, height: u32) -> (r: Option<CaptureResult>)
        ensures
            r is Some <==> width == 0 || height == 0,
            r matches Some(c) ==> c.spec_width() == width && c.spec_height() == height
                && c.spec_pixels().len() == 0,
    {
        if width == 0 || height == 0 {
            proof {
                assert(packed_len(width as nat, height as nat) == 0) by (nonlinear_arith)
                    requires
                        width == 0 || height == 0,
                ;
            }
            Some(CaptureResult { width, height, pixels: Vec::new() })
        } else {
            None
        }
    }

    pub fn width(&self) -> (r: u32)
        ensures
            r == self.spec_width(),
    {
        self.width
    }

    pub fn height(&self) -> (r: u32)
        ensures
            r == self.spec_height(),
    {
        self.height
    }

    pub fn pixels(&self) -> (r: &Vec<u8>)
        ensures
            r@ == self.spec_pixels(),
            r@.len() == packed_len(self.spec_width() as nat, self.spec_height() as nat),
    {
        proof {
            use_type_invariant(self);
        }
        &self.pixels
    }

    /// Hands the bitmap over as what an image sink takes: its size, the BGRA
    /// layout, premultiplied alpha, and the pixels unchanged.
    pub fn into_image(self) -> (r: ImageData)
        ensures
            r.width == self.spec_width(),
            r.height == self.spec_height(),
            r.format == PixelFormat::Bgra8,
            r.premultiplied_alpha,
            r.pixels@ == self.spec_pixels(),
            r.pixels@.len() == packed_len(r.width as nat, r.height as nat),
    {
        proof {
            use_type_invariant(&self);
        }
        ImageData {
            width: self.width,
            height: self.height,
            format: PixelFormat::Bgra8,
            premultiplied_alpha: true,
            pixels: self.pixels,
        }
    }
}

/// What an image sink is given to encode and write.
pub struct ImageData {
    pub width: u32,
    pub height: u32,
    pub format: PixelFormat,
    pub premultiplied_alpha: bool,
    pub pixels: Vec<u8>,
}

} // verus!
