use vstd::prelude::*;

use crate::fixed::fix_mul;
use crate::fixed::spec_mul;
use crate::fixed::tdiv;
use crate::fixed::FIX_ONE;

verus! {

/// The glyph palette, densest glyph first and blank last, together with the
/// fixed-point dimensions of the character grid.
#[derive(Debug, Clone)]
pub struct Buffer {
    pub width: i64,
    pub height: i64,
    pub palette: Vec<char>,
}

/// The stock palette: glyphs ordered from dense to sparse, ending in blank.
pub open spec fn spec_default_palette() -> Seq<char> {
    seq![
        '$', '@', 'B', '%', '8', '&', 'W', 'M', '#', 'o', 'a', 'h', 'k', 'b', 'd', 'p', 'q', 'w',
        'm', 'Z', 'O', '0', 'Q', 'L', 'C', 'J', 'U', 'Y', 'X', 'z', 'c', 'v', 'u', 'n', 'x', 'r',
        'j', 'f', 't', '/', '\\', '|', '(', ')', '1', '{', '}', '[', ']', '?', '-', '_', '+', '~',
        '<', '>', 'i', '!', 'l', 'I', ';', ':', ',', '"', '^', '`', '\'', '.', ' ',
    ]
}

impl Buffer {
    /// The palette index that a brightness selects: the brightness is clamped
    /// into `[0, FIX_ONE]`, complemented, scaled over the palette, and
    /// rounded to the nearest index (half rounds up).
    pub open spec fn spec_glyph_index(&self, b: int) -> int {
        let bc = if b < 0 {
            0
        } else if b > FIX_ONE {
            FIX_ONE as int
        } else {
            b
        };
        tdiv(
            ((FIX_ONE as int) - bc) * (self.palette@.len() - 1) + (FIX_ONE as int) / 2,
            FIX_ONE as int,
        )
    }

    pub open spec fn spec_glyph_for(&self, b: int) -> char {
        self.palette@[self.spec_glyph_index(b)]
    }

    /// Builds a buffer of the given fixed-point height, a width derived from
    /// the aspect ratio, and the stock palette.
    pub fn from_height(height: i64, aspect_ratio: i64) -> (r: Buffer)
        ensures
            r.height == height,
            r.width == spec_mul(height as int, aspect_ratio as int),
            r.palette@ == spec_default_palette(),
    {
        let palette: Vec<char> = vec![
            '$', '@', 'B', '%', '8', '&', 'W', 'M', '#', 'o', 'a', 'h', 'k', 'b', 'd', 'p', 'q',
            'w', 'm', 'Z', 'O', '0', 'Q', 'L', 'C', 'J', 'U', 'Y', 'X', 'z', 'c', 'v', 'u', 'n',
            'x', 'r', 'j', 'f', 't', '/', '\\', '|', '(', ')', '1', '{', '}', '[', ']', '?', '-',
            '_', '+', '~', '<', '>', 'i', '!', 'l', 'I', ';', ':', ',', '"', '^', '`', '\'', '.',
            ' ',
        ];
        proof {
            assert(palette@ =~= spec_default_palette());
        }
        Buffer { height, width: fix_mul(height, aspect_ratio), palette }
    }

    /// Maps a brightness to its glyph: full brightness selects the first
    /// (densest) glyph, zero brightness the last (blank) one.
    pub fn glyph_for(&self, brightness: i64) -> (c: char)
        requires
            self.palette.len() >= 1,
        ensures
            c == self.spec_glyph_for(brightness as int),
    {
        let bc: i64 = if brightness < 0 {
            0
        } else if brightness > FIX_ONE {
            FIX_ONE
        } else {
            brightness
        };
        let len: usize = self.palette.len();
        proof {
            assert(((FIX_ONE - bc) as u128) * (((len - 1) as usize) as u128) <= 65536 * (
            0xffff_ffff_ffff_ffffu128)) by (nonlinear_arith)
                requires
                    0 <= ((FIX_ONE - bc) as u128) <= 65536,
                    (((len - 1) as usize) as u128) <= 0xffff_ffff_ffff_ffffu128,
            ;
        }
        let num: u128 = ((FIX_ONE - bc) as u128) * ((len - 1) as u128) + 32768;
        let idx128: u128 = num / 65536;
        proof {
            lemma_glyph_index_in_range(self, brightness as int);
            assert(num == ((FIX_ONE as int) - bc) * (self.palette@.len() - 1) + (FIX_ONE as int)
                / 2);
        }
        let idx: usize = idx128 as usize;
        self.palette[idx]
    }
}

/// The glyph index always lands inside the palette.
pub proof fn lemma_glyph_index_in_range(buf: &Buffer, b: int)
    requires
        buf.palette@.len() >= 1,
    ensures
        0 <= buf.spec_glyph_index(b) < buf.palette@.len(),
{
    let len = buf.palette@.len() as int;
    let bc = if b < 0 {
        0
    } else if b > FIX_ONE {
        FIX_ONE as int
    } else {
        b
    };
    let half = (FIX_ONE as int) / 2;
    let num = ((FIX_ONE as int) - bc) * (len - 1) + half;
    assert(half <= num <= (FIX_ONE as int) * (len - 1) + half) by (nonlinear_arith)
        requires
            0 <= bc <= FIX_ONE as int,
            len >= 1,
            half >= 0,
            num == ((FIX_ONE as int) - bc) * (len - 1) + half,
    ;
    vstd::arithmetic::div_mod::lemma_div_pos_is_pos(num, FIX_ONE as int);
    vstd::arithmetic::div_mod::lemma_div_is_ordered(
        num,
        (FIX_ONE as int) * (len - 1) + half,
        FIX_ONE as int,
    );
    vstd::arithmetic::div_mod::lemma_div_multiples_vanish_fancy(len - 1, half, FIX_ONE as int);
}

/// Zero brightness selects the last (blank) glyph and full brightness the
/// first (densest) one.
pub proof fn lemma_glyph_extremes(buf: &Buffer)
    requires
        buf.palette@.len() >= 1,
    ensures
        buf.spec_glyph_index(0) == buf.palette@.len() - 1,
        buf.spec_glyph_index(FIX_ONE as int) == 0,
        buf.spec_glyph_for(0) == buf.palette@.last(),
        buf.spec_glyph_for(FIX_ONE as int) == buf.palette@.first(),
{
    let len = buf.palette@.len() as int;
    let half = (FIX_ONE as int) / 2;
    vstd::arithmetic::div_mod::lemma_div_multiples_vanish_fancy(len - 1, half, FIX_ONE as int);
    vstd::arithmetic::div_mod::lemma_div_multiples_vanish_fancy(0, half, FIX_ONE as int);
    assert(((FIX_ONE as int) - (FIX_ONE as int)) * (len - 1) == 0) by (nonlinear_arith);
    assert((FIX_ONE as int) * 0 == 0) by (nonlinear_arith);
}

/// The glyph mapping is monotone: a brighter value never selects a glyph
/// later in the palette.
pub proof fn lemma_glyph_monotone(buf: &Buffer, b1: int, b2: int)
    requires
        buf.palette@.len() >= 1,
        b1 <= b2,
    ensures
        buf.spec_glyph_index(b1) >= buf.spec_glyph_index(b2),
{
    let len = buf.palette@.len() as int;
    let c1 = if b1 < 0 {
        0
    } else if b1 > FIX_ONE {
        FIX_ONE as int
    } else {
        b1
    };
    let c2 = if b2 < 0 {
        0
    } else if b2 > FIX_ONE {
        FIX_ONE as int
    } else {
        b2
    };
    let half = (FIX_ONE as int) / 2;
    assert(0 <= ((FIX_ONE as int) - c2) * (len - 1) <= ((FIX_ONE as int) - c1) * (len - 1))
        by (nonlinear_arith)
        requires
            c1 <= c2 <= FIX_ONE as int,
            len >= 1,
    ;
    vstd::arithmetic::div_mod::lemma_div_is_ordered(
        ((FIX_ONE as int) - c2) * (len - 1) + half,
        ((FIX_ONE as int) - c1) * (len - 1) + half,
        FIX_ONE as int,
    );
    vstd::arithmetic::div_mod::lemma_div_pos_is_pos(
        ((FIX_ONE as int) - c2) * (len - 1) + half,
        FIX_ONE as int,
    );
}

} // verus!
