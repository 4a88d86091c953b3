use vstd::prelude::*;

use crate::pixel::Pixel;

verus! {

/// A rectangular, row-major grid of RGBA samples, immutable once built.
pub struct Image {
    data: Vec<Pixel>,
    width: u16,
    height: u16,
}

/// Bytes needed for one raster row of `w` pixels: one bit per pixel, eight
/// pixels per byte, rounded up to whole bytes.
pub open spec fn row_bytes(w: u16) -> int {
    (w + 7) / 8
}

/// The binary weight of position `k` in a raster byte.  Position 0 is the
/// most significant bit and carries the leftmost pixel of a group of eight.
pub open spec fn bit_weight(k: int) -> u8 {
    if k == 0 {
        0x80
    } else if k == 1 {
        0x40
    } else if k == 2 {
        0x20
    } else if k == 3 {
        0x10
    } else if k == 4 {
        0x08
    } else if k == 5 {
        0x04
    } else if k == 6 {
        0x02
    } else {
        0x01
    }
}

/// The combined weight of positions `k` to 7 of a raster byte; what an
/// accumulated byte can still grow by.
pub open spec fn rest_weight(k: int) -> int {
    if k <= 0 {
        255
    } else if k == 1 {
        127
    } else if k == 2 {
        63
    } else if k == 3 {
        31
    } else if k == 4 {
        15
    } else if k == 5 {
        7
    } else if k == 6 {
        3
    } else if k == 7 {
        1
    } else {
        0
    }
}

/// Whether the pixel of `img` at `row`, `col` prints as a dark dot; positions
/// outside the buffer are light.
pub open spec fn dark_at(img: Image, row: int, col: int) -> bool {
    &&& 0 <= row < img.height_spec()
    &&& 0 <= col < img.width_spec()
    &&& img.pixels()[row * img.width_spec() + col].dark()
}

/// The value of the raster byte for group `group` of row `row`, accumulated
/// over its first `k` bit positions.
pub open spec fn raster_byte_upto(img: Image, row: int, group: int, k: int) -> int
    decreases k,
{
    if k <= 0 {
        0
    } else {
        raster_byte_upto(img, row, group, k - 1) + if dark_at(img, row, group * 8 + (k - 1)) {
            bit_weight(k - 1) as int
        } else {
            0
        }
    }
}

/// The raster byte for group `group` of row `row` of `img`: one bit per
/// pixel, most significant bit first.
pub open spec fn raster_byte(img: Image, row: int, group: int) -> u8 {
    raster_byte_upto(img, row, group, 8) as u8
}

/// The packed monochrome raster of `img`: row-major, top to bottom, each row
/// `row_bytes` bytes wide.
pub open spec fn raster_seq(img: Image) -> Seq<u8> {
    Seq::new(
        (img.height_spec() * row_bytes(img.width_spec())) as nat,
        |idx: int|
            raster_byte(
                img,
                idx / row_bytes(img.width_spec()),
                idx % row_bytes(img.width_spec()),
            ),
    )
}

/// An accumulated raster byte never exceeds what the remaining bit positions
/// leave room for, so adding one more weight cannot overflow.
proof fn lemma_raster_byte_upto_bound(img: Image, row: int, group: int, k: int)
    requires
        0 <= k <= 8,
    ensures
        0 <= raster_byte_upto(img, row, group, k) <= 255 - rest_weight(k),
    decreases k,
{
    if k > 0 {
        lemma_raster_byte_upto_bound(img, row, group, k - 1);
    }
}

impl Image {
    /// The pixels of the buffer, row-major.
    pub closed spec fn pixels(&self) -> Seq<Pixel> {
        self.data@
    }

    /// The width of the buffer in pixels.
    pub closed spec fn width_spec(&self) -> u16 {
        self.width
    }

    /// The height of the buffer in pixels.
    pub closed spec fn height_spec(&self) -> u16 {
        self.height
    }

    /// The grid is rectangular: one sample for each of width times height
    /// positions.
    #[verifier::type_invariant]
    spec fn wf(&self) -> bool {
        self.data@.len() == self.width * self.height
    }

    /// Build an image from row-major samples of the given dimensions.
    pub fn new(data: Vec<Pixel>, width: u16, height: u16) -> (img: Image)
        requires
            data@.len() == width * height,
        ensures
            img.pixels() == data@,
            img.width_spec() == width,
            img.height_spec() == height,
    {
        Image { data, width, height }
    }

    /// The height of the buffer in pixels.
    pub fn height(&self) -> (h: u16)
        ensures
            h == self.height_spec(),
    {
        self.height
    }

    /// The width of the buffer in pixels.
    pub fn width(&self) -> (w: u16)
        ensures
            w == self.width_spec(),
    {
        self.width
    }

    /// Pack the buffer into the monochrome raster format: one bit per pixel,
    /// most significant bit first, each row padded on the right with light
    /// bits up to a whole byte.
    pub fn to_raster(&self) -> (r: Vec<u8>)
        ensures
            r@ == raster_seq(*self),
    {
        proof {
            use_type_invariant(self);
        }
        let w: usize = self.width as usize;
        let h: usize = self.height as usize;
        let rb: usize = (w + 7) / 8;
        let mut raster: Vec<u8> = Vec::new();
        let mut i: usize = 0;
        while i < h
            invariant
                self.data@.len() == self.width * self.height,
                w == self.width_spec(),
                h == self.height_spec(),
                rb == row_bytes(self.width_spec()),
                0 <= i <= h,
                raster@.len() == i * rb,
                forall|t: int|
                    0 <= t < raster@.len() ==> raster@[t] == #[trigger] raster_seq(*self)[t],
            decreases h - i,
        {
            let mut j: usize = 0;
            while j < rb
                invariant
                    self.data@.len() == self.width * self.height,
                    w == self.width_spec(),
                    h == self.height_spec(),
                    rb == row_bytes(self.width_spec()),
                    0 <= i < h,
                    0 <= j <= rb,
                    raster@.len() == i * rb + j,
                    forall|t: int|
                        0 <= t < raster@.len() ==> raster@[t] == #[trigger] raster_seq(*self)[t],
                decreases rb - j,
            {
                let mut byte: u8 = 0;
                let mut k: usize = 0;
                while k < 8
                    invariant
                        self.data@.len() == self.width * self.height,
                        w == self.width_spec(),
                        h == self.height_spec(),
                        rb == row_bytes(self.width_spec()),
                        0 <= i < h,
                        0 <= j < rb,
                        0 <= k <= 8,
                        byte as int == raster_byte_upto(*self, i as int, j as int, k as int),
                    decreases 8 - k,
                {
                    let col: usize = j * 8 + k;
                    let dark: bool = if col < w {
                        proof {
                            assert(i * w + col < w * h && w * h <= 0xffff * 0xffff)
                                by (nonlinear_arith)
                                requires
                                    0 <= i,
                                    0 <= col < w,
                                    i < h,
                                    h <= 0xffff,
                                    w <= 0xffff,
                            ;
                        }
                        let idx: usize = i * w + col;
                        self.data[idx].is_gray()
                    } else {
                        false
                    };
                    proof {
                        assert(dark == dark_at(*self, i as int, (j * 8 + k) as int));
                    }
                    if dark {
                        let mask: u8 = match k {
                            0 => 0x80,
                            1 => 0x40,
                            2 => 0x20,
                            3 => 0x10,
                            4 => 0x08,
                            5 => 0x04,
                            6 => 0x02,
                            _ => 0x01,
                        };
                        proof {
                            assert(mask == bit_weight(k as int));
                            lemma_raster_byte_upto_bound(*self, i as int, j as int, k as int);
                            assert(byte + mask <= 255);
                        }
                        byte = byte + mask;
                    }
                    k += 1;
                }
                proof {
                    assert(byte == raster_byte(*self, i as int, j as int));
                    let idx = i * rb + j;
                    vstd::arithmetic::div_mod::lemma_fundamental_div_mod_converse(
                        idx as int,
                        rb as int,
                        i as int,
                        j as int,
                    );
                    assert(idx / rb as int == i as int && idx % rb as int == j as int);
                    assert(i * rb + j < h * rb) by (nonlinear_arith)
                        requires
                            0 <= i,
                            0 <= j < rb,
                            i < h,
                    ;
                    assert(raster_seq(*self)[idx as int] == byte);
                }
                raster.push(byte);
                j += 1;
            }
            proof {
                assert((i + 1) * rb == i * rb + rb) by (nonlinear_arith);
            }
            i += 1;
        }
        proof {
            assert(raster@ =~= raster_seq(*self));
        }
        raster
    }

    /// The buffer split into rows: one vector of `width` pixels for each of
    /// the `height` rows, top to bottom.
    pub fn get_pixels(&self) -> (rows: Vec<Vec<Pixel>>)
        ensures
            rows@.len() == self.height_spec(),
            forall|i: int|
                0 <= i < self.height_spec() ==> #[trigger] rows@[i]@.len() == self.width_spec(),
            forall|i: int, j: int|
                0 <= i < self.height_spec() && 0 <= j < self.width_spec() ==> #[trigger] rows@[i]@[j]
                    == self.pixels()[i * self.width_spec() + j],
    {
        proof {
            use_type_invariant(self);
        }
        let w: usize = self.width as usize;
        let h: usize = self.height as usize;
        let mut rows: Vec<Vec<Pixel>> = Vec::new();
        let mut i: usize = 0;
        while i < h
            invariant
                self.data@.len() == self.width * self.height,
                w == self.width_spec(),
                h == self.height_spec(),
                0 <= i <= h,
                rows@.len() == i,
                forall|t: int| 0 <= t < i ==> #[trigger] rows@[t]@.len() == w,
                forall|t: int, j: int|
                    0 <= t < i && 0 <= j < w ==> #[trigger] rows@[t]@[j] == self.pixels()[t * w + j],
            decreases h - i,
        {
            let mut line: Vec<Pixel> = Vec::new();
            let mut j: usize = 0;
            while j < w
                invariant
                    self.data@.len() == self.width * self.height,
                    w == self.width_spec(),
                    h == self.height_spec(),
                    0 <= i < h,
                    0 <= j <= w,
                    line@.len() == j,
                    forall|t: int| 0 <= t < j ==> #[trigger] line@[t] == self.pixels()[i * w + t],
                decreases w - j,
            {
                proof {
                    assert(i * w + j < w * h && w * h <= 0xffff * 0xffff) by (nonlinear_arith)
                        requires
                            0 <= i,
                            0 <= j < w,
                            i < h,
                            h <= 0xffff,
                            w <= 0xffff,
                    ;
                }
                let idx: usize = i * w + j;
                line.push(self.data[idx]);
                j += 1;
            }
            rows.push(line);
            i += 1;
        }
        rows
    }
}

/// A raster holds one byte for each group of eight pixels of each row: the
/// bytes per row are the width divided by eight, rounded up.
pub proof fn lemma_raster_size(img: Image)
    ensures
        raster_seq(img).len() == img.height_spec() * row_bytes(img.width_spec()),
{
}

/// In every raster row of a buffer whose width is not a multiple of eight,
/// the padding bits of the last byte are light: that byte is a multiple of
/// the weight of the last pixel-carrying position.
pub proof fn lemma_raster_row_padding(img: Image, row: int)
    requires
        0 <= row < img.height_spec(),
        img.width_spec() % 8 != 0,
    ensures
        raster_byte(img, row, row_bytes(img.width_spec()) - 1) as int % (bit_weight(
            img.width_spec() % 8 - 1,
        ) as int) == 0,
{
    let r = img.width_spec() % 8;
    let group = row_bytes(img.width_spec()) - 1;
    lemma_raster_padding_upto(img, row, group, 8);
    lemma_raster_byte_upto_bound(img, row, group, 8);
}

/// Accumulating the last group of a short row only ever adds weights that are
/// multiples of the last pixel-carrying position's weight.
proof fn lemma_raster_padding_upto(img: Image, row: int, group: int, k: int)
    requires
        0 <= k <= 8,
        img.width_spec() % 8 != 0,
        group == row_bytes(img.width_spec()) - 1,
    ensures
        raster_byte_upto(img, row, group, k) % (bit_weight(img.width_spec() % 8 - 1) as int) == 0,
    decreases k,
{
    let r = img.width_spec() % 8;
    let m = bit_weight(r - 1) as int;
    if k > 0 {
        lemma_raster_padding_upto(img, row, group, k - 1);
        let prev = raster_byte_upto(img, row, group, k - 1);
        if dark_at(img, row, group * 8 + (k - 1)) {
            // a dark pixel lies inside the row, so its position is below r and
            // its weight is a multiple of the last carried position's weight
            assert(group * 8 + (k - 1) < img.width_spec());
            assert(8 * group + r == img.width_spec()) by {
                vstd::arithmetic::div_mod::lemma_fundamental_div_mod(
                    img.width_spec() as int,
                    8,
                );
            };
            assert(k - 1 < r);
            assert((bit_weight(k - 1) as int) % m == 0);
            assert((prev + bit_weight(k - 1) as int) % m == 0) by (nonlinear_arith)
                requires
                    prev % m == 0,
                    (bit_weight(k - 1) as int) % m == 0,
                    m > 0,
            ;
        }
    }
}

} // verus!
