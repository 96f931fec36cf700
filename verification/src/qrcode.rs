//! Showing a login QR code on a terminal: the code's image is sampled on a
//! grid, and each pair of samples, one above the other, becomes a block
//! character.
use vstd::prelude::*;
use crate::strutil::push_char;

verus! {

/// A grey image: its size, and one byte per pixel, row by row.
#[derive(Debug)]
pub struct LumaImage {
    pub width: u32,
    pub height: u32,
    pub pixels: Vec<u8>,
}

/// The grey image a PNG file decodes to, if it decodes.
pub uninterp spec fn luma_of(data: Seq<u8>) -> Option<(u32, u32, Seq<u8>)>;

/// `image::load_from_memory` followed by `DynamicImage::into_luma8`: the
/// decoded image in grey, one byte per pixel row by row, or `None` when the
/// data is no image this build can decode.  The buffer of an `ImageBuffer`
/// always holds at least width times height pixels.
#[verifier::external_body]
fn decode_luma(data: &[u8]) -> (r: Option<LumaImage>)
    ensures
        match r {
            Some(img) => luma_of(data@) == Some((img.width, img.height, img.pixels@)) && img.pixels@.len()
                >= img.width * img.height,
            None => luma_of(data@) is None,
        },
{
    match image::load_from_memory(data) {
        Ok(img) => {
            let g = img.into_luma8();
            Some(LumaImage { width: g.width(), height: g.height(), pixels: g.into_raw() })
        },
        Err(_) => None,
    }
}

/// The character for a sample pair: full where both are black, lower half
/// where only the lower one is, upper half where only the upper one is, and a
/// space where neither is.
pub open spec fn qr_char(top: u8, bottom: u8) -> char {
    if top == 0 && bottom == 0 {
        '█'
    } else if bottom == 0 {
        '▄'
    } else if top == 0 {
        '▀'
    } else {
        ' '
    }
}

/// The pixel at column `x` and row `y`.
pub open spec fn pixel_at(w: u32, px: Seq<u8>, x: int, y: int) -> u8 {
    px[y * w + x]
}

/// Line `j` of the rendering: 44 characters, sampling every third column, at
/// rows `6j` and `6j + 3`, and a line break.
pub open spec fn qr_line(w: u32, px: Seq<u8>, j: int) -> Seq<char> {
    Seq::new(44, |i: int| qr_char(pixel_at(w, px, 3 * i, 6 * j), pixel_at(w, px, 3 * i, 6 * j + 3))).push(
        '\n',
    )
}

/// The first `n` lines of the rendering.
pub open spec fn qr_lines(w: u32, px: Seq<u8>, n: nat) -> Seq<char>
    decreases n,
{
    if n == 0 {
        Seq::empty()
    } else {
        qr_lines(w, px, (n - 1) as nat) + qr_line(w, px, n - 1)
    }
}

/// Whether an image is large enough to be sampled: the samples reach column
/// and row 129.
pub open spec fn samplable(w: u32, h: u32, px: Seq<u8>) -> bool {
    w >= 130 && h >= 130 && px.len() >= w * h
}

proof fn lemma_index_in(w: u32, h: u32, x: int, y: int)
    requires
        0 <= x < w,
        0 <= y < h,
    ensures
        0 <= y * w + x < w * h,
{
    assert(y * w + x < w * h) by (nonlinear_arith)
        requires
            0 <= x < w,
            0 <= y < h,
    ;
    assert(0 <= y * w) by (nonlinear_arith)
        requires
            0 <= y,
            0 <= w,
    ;
}

/// Line `j` of the first `n` lines starts at character `45 j`: 44 sample
/// characters, then a line break.
proof fn lemma_qr_lines_at(w: u32, px: Seq<u8>, n: nat, j: int, i: int)
    requires
        0 <= j < n,
        0 <= i < 44,
    ensures
        qr_lines(w, px, n).len() == 45 * n,
        qr_lines(w, px, n)[45 * j + i] == qr_char(pixel_at(w, px, 3 * i, 6 * j), pixel_at(w, px, 3 * i, 6 * j + 3)),
        qr_lines(w, px, n)[45 * j + 44] == '\n',
    decreases n,
{
    let prev = qr_lines(w, px, (n - 1) as nat);
    if j < n - 1 {
        lemma_qr_lines_at(w, px, (n - 1) as nat, j, i);
    } else if n > 1 {
        lemma_qr_lines_at(w, px, (n - 1) as nat, 0, 0);
    }
    if n == 1 {
        assert(prev.len() == 0);
    }
    assert(prev.len() == 45 * (n - 1));
    assert(qr_line(w, px, n - 1).len() == 45);
}

/// How a pair of samples shows: both black as a full block, only the lower
/// one black as a lower half block, only the upper one black as an upper half
/// block, neither as a space; the four are different characters.
pub proof fn law_qr_char(top: u8, bottom: u8)
    ensures
        top == 0 && bottom == 0 ==> qr_char(top, bottom) == '█',
        top != 0 && bottom == 0 ==> qr_char(top, bottom) == '▄',
        top == 0 && bottom != 0 ==> qr_char(top, bottom) == '▀',
        top != 0 && bottom != 0 ==> qr_char(top, bottom) == ' ',
        '█' != '▄' && '█' != '▀' && '█' != ' ' && '▄' != '▀' && '▄' != ' ' && '▀' != ' ',
{
}

/// In the rendering, line `j` holds at place `i` the character for the
/// samples at column `3 i` of rows `6 j` and `6 j + 3`, and ends in a line
/// break: a black upper sample over a non-black lower one shows as `▀`, and
/// so on for the other three pairs.
pub proof fn law_render_samples(w: u32, px: Seq<u8>, j: int, i: int)
    requires
        0 <= j < 22,
        0 <= i < 44,
    ensures
        qr_lines(w, px, 22).len() == 990,
        qr_lines(w, px, 22)[45 * j + 44] == '\n',
        pixel_at(w, px, 3 * i, 6 * j) == 0 && pixel_at(w, px, 3 * i, 6 * j + 3) == 0 ==> qr_lines(w, px, 22)[45 * j + i] == '█',
        pixel_at(w, px, 3 * i, 6 * j) != 0 && pixel_at(w, px, 3 * i, 6 * j + 3) == 0 ==> qr_lines(w, px, 22)[45 * j + i] == '▄',
        pixel_at(w, px, 3 * i, 6 * j) == 0 && pixel_at(w, px, 3 * i, 6 * j + 3) != 0 ==> qr_lines(w, px, 22)[45 * j + i] == '▀',
        pixel_at(w, px, 3 * i, 6 * j) != 0 && pixel_at(w, px, 3 * i, 6 * j + 3) != 0 ==> qr_lines(w, px, 22)[45 * j + i] == ' ',
{
    lemma_qr_lines_at(w, px, 22, j, i);
    law_qr_char(pixel_at(w, px, 3 * i, 6 * j), pixel_at(w, px, 3 * i, 6 * j + 3));
}

/// The 22 lines of 44 characters that show a grey image of a QR code.
pub fn render_qrcode(img: &LumaImage) -> (s: String)
    requires
        samplable(img.width, img.height, img.pixels@),
    ensures
        s@ == qr_lines(img.width, img.pixels@, 22),
{
    let w = img.width;
    let n = img.pixels.len();
    let ghost px = img.pixels@;
    let mut s = String::new();
    let mut j: u32 = 0;
    while j < 22
        invariant
            w == img.width,
            px == img.pixels@,
            n == px.len(),
            samplable(img.width, img.height, px),
            j <= 22,
            s@ == qr_lines(w, px, j as nat),
        decreases 22 - j,
    {
        let ghost before = s@;
        let mut i: u32 = 0;
        while i < 44
            invariant
                w == img.width,
                px == img.pixels@,
                n == px.len(),
                samplable(img.width, img.height, px),
                j < 22,
                i <= 44,
                s@ == before + Seq::new(
                    i as nat,
                    |k: int| qr_char(pixel_at(w, px, 3 * k, 6 * j), pixel_at(w, px, 3 * k, 6 * j + 3)),
                ),
            decreases 44 - i,
        {
            proof {
                lemma_index_in(w, img.height, 3 * i as int, 6 * j as int);
                lemma_index_in(w, img.height, 3 * i as int, 6 * j + 3);
            }
            let top_at = (6 * j as usize) * (w as usize) + 3 * i as usize;
            let bottom_at = (6 * j as usize + 3) * (w as usize) + 3 * i as usize;
            let top = img.pixels[top_at];
            let bottom = img.pixels[bottom_at];
            let c = if top == 0 && bottom == 0 {
                '█'
            } else if bottom == 0 {
                '▄'
            } else if top == 0 {
                '▀'
            } else {
                ' '
            };
            push_char(&mut s, c);
            proof {
                assert(s@ =~= before + Seq::new(
                    (i + 1) as nat,
                    |k: int| qr_char(pixel_at(w, px, 3 * k, 6 * j), pixel_at(w, px, 3 * k, 6 * j + 3)),
                ));
            }
            i = i + 1;
        }
        push_char(&mut s, '\n');
        proof {
            assert(s@ =~= qr_lines(w, px, (j + 1) as nat));
        }
        j = j + 1;
    }
    s
}

/// The rendering of a PNG image of a QR code, for data that decodes to an
/// image large enough to sample.
pub fn qrcode2str(data: &[u8]) -> (s: String)
    requires
        luma_of(data@) matches Some((w, h, px)) && samplable(w, h, px),
    ensures
        luma_of(data@) matches Some((w, h, px)) && s@ == qr_lines(w, px, 22),
{
    match decode_luma(data) {
        Some(img) => render_qrcode(&img),
        None => String::new(),
    }
}

/// The rendering of a PNG image of a QR code, or `None` when the data is no
/// image, or an image too small to sample.
pub fn try_qrcode2str(data: &[u8]) -> (r: Option<String>)
    ensures
        match luma_of(data@) {
            Some((w, h, px)) => if samplable(w, h, px) {
                r matches Some(s) && s@ == qr_lines(w, px, 22)
            } else {
                r is None
            },
            None => r is None,
        },
{
    match decode_luma(data) {
        Some(img) => if img.width >= 130 && img.height >= 130 {
            Some(qrcode2str(data))
        } else {
            None
        },
        None => None,
    }
}

} // verus!
