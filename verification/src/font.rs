//! Layout of the 8x13 monospaced bitmap font of the display.
//!
//! The glyphs of a bitmap font lie in one image, row after row, in the order
//! of the character ranges that the font covers. The layout says how large a
//! glyph is, where its decorations go and which characters have a glyph; the
//! caller pairs it with the image data.

use vstd::prelude::*;

verus! {

/// A horizontal line drawn through or under a glyph.
#[derive(Clone, Copy, Debug, PartialEq, Eq, Structural)]
pub struct Decoration {
    /// Rows from the top of the glyph to the top of the line.
    pub offset: u32,
    /// Thickness of the line in rows.
    pub height: u32,
}

/// An inclusive range of characters that have glyphs, in glyph order.
#[derive(Clone, Copy, Debug, PartialEq, Eq, Structural)]
pub struct GlyphRange {
    pub first: char,
    pub last: char,
}

impl GlyphRange {
    /// Number of characters in the range.
    pub open spec fn size(self) -> int {
        if self.first <= self.last {
            self.last as int - self.first as int + 1
        } else {
            0
        }
    }
}

/// Number of characters in all the ranges together.
pub open spec fn total_glyphs(ranges: Seq<GlyphRange>) -> int
    decreases ranges.len(),
{
    if ranges.len() == 0 {
        0
    } else {
        total_glyphs(ranges.drop_last()) + ranges.last().size()
    }
}

/// The ranges are not empty, and each begins after the one before it ends.
pub open spec fn ranges_ascending(ranges: Seq<GlyphRange>) -> bool {
    &&& forall|i: int| 0 <= i < ranges.len() ==> (#[trigger] ranges[i]).first <= ranges[i].last
    &&& forall|i: int, j: int|
        0 <= i < j < ranges.len() ==> (#[trigger] ranges[i]).last < (#[trigger] ranges[j]).first
}

/// The character ranges of the 8x13 font: printable ASCII, Latin-1 and
/// Latin Extended-A, currency signs, technical signs, box drawing with block
/// elements and geometric shapes, miscellaneous symbols, and Braille.
pub open spec fn mono_8x13_ranges() -> Seq<GlyphRange> {
    seq![
        GlyphRange { first: ' ', last: '~' },
        GlyphRange { first: '\u{a0}', last: '\u{17f}' },
        GlyphRange { first: '\u{20a0}', last: '\u{20b1}' },
        GlyphRange { first: '\u{2300}', last: '\u{232f}' },
        GlyphRange { first: '\u{2350}', last: '\u{23ce}' },
        GlyphRange { first: '\u{2500}', last: '\u{25cf}' },
        GlyphRange { first: '\u{25e2}', last: '\u{2689}' },
        GlyphRange { first: '\u{2800}', last: '\u{28ff}' },
    ]
}

/// Layout of a monospaced bitmap font.
#[derive(Debug)]
pub struct FontLayout {
    /// Width of the glyph image in pixels.
    pub image_width: u32,
    /// Width of one glyph in pixels.
    pub character_width: u32,
    /// Height of one glyph in pixels.
    pub character_height: u32,
    /// Empty pixels between two glyphs on a line.
    pub character_spacing: u32,
    /// Rows from the top of a glyph to its baseline.
    pub baseline: u32,
    /// The underline.
    pub underline: Decoration,
    /// The strikethrough.
    pub strikethrough: Decoration,
    /// The characters that have a glyph, in glyph order.
    pub glyph_ranges: Vec<GlyphRange>,
}

impl FontLayout {
    /// The layout is usable: a glyph has an area and fits into a row of the
    /// image, baseline and decorations lie inside the glyph, and the ranges
    /// ascend.
    pub open spec fn wf(self) -> bool {
        &&& 0 < self.character_width <= self.image_width
        &&& 0 < self.character_height
        &&& self.baseline < self.character_height
        &&& self.underline.offset + self.underline.height <= self.character_height
        &&& self.strikethrough.offset + self.strikethrough.height <= self.character_height
        &&& ranges_ascending(self.glyph_ranges@)
    }

    /// Number of glyphs in one row of the image.
    pub open spec fn row_capacity(self) -> int {
        self.image_width as int / self.character_width as int
    }

    /// Number of characters that have a glyph, or nothing where the count
    /// does not fit the machine word.
    pub fn glyph_count(&self) -> (count: Option<usize>)
        ensures
            count matches Some(n) ==> n == total_glyphs(self.glyph_ranges@),
            count is None ==> total_glyphs(self.glyph_ranges@) > usize::MAX,
    {
        let mut total: usize = 0;
        let mut i: usize = 0;
        while i < self.glyph_ranges.len()
            invariant
                i <= self.glyph_ranges.len(),
                total == total_glyphs(self.glyph_ranges@.take(i as int)),
            decreases self.glyph_ranges.len() - i,
        {
            let range = self.glyph_ranges[i];
            let size: u32 = if range.first <= range.last {
                (range.last as u32) - (range.first as u32) + 1
            } else {
                0
            };
            proof {
                let seen = self.glyph_ranges@.take(i as int + 1);
                assert(seen.drop_last() == self.glyph_ranges@.take(i as int));
                assert(seen.last() == range);
                lemma_total_glyphs_monotonic(self.glyph_ranges@, i as int + 1);
            }
            if size as usize > usize::MAX - total {
                return None;
            }
            total = total + size as usize;
            i += 1;
        }
        assert(self.glyph_ranges@.take(i as int) == self.glyph_ranges@);
        Some(total)
    }
}

/// The count of glyphs only grows along the ranges.
pub proof fn lemma_total_glyphs_monotonic(ranges: Seq<GlyphRange>, upto: int)
    requires
        0 <= upto <= ranges.len(),
    ensures
        0 <= total_glyphs(ranges.take(upto)) <= total_glyphs(ranges),
    decreases ranges.len() - upto,
{
    if upto == ranges.len() {
        assert(ranges.take(upto) == ranges);
        lemma_total_glyphs_nonnegative(ranges);
    } else {
        lemma_total_glyphs_monotonic(ranges, upto + 1);
        assert(ranges.take(upto + 1).drop_last() == ranges.take(upto));
        lemma_total_glyphs_nonnegative(ranges.take(upto));
    }
}

/// A count of glyphs is never negative.
pub proof fn lemma_total_glyphs_nonnegative(ranges: Seq<GlyphRange>)
    ensures
        total_glyphs(ranges) >= 0,
    decreases ranges.len(),
{
    if ranges.len() > 0 {
        lemma_total_glyphs_nonnegative(ranges.drop_last());
    }
}

/// The layout of the 8x13 font: glyphs of 8 by 13 pixels, 16 to a row of
/// the 128 pixels wide image, baseline in row 10, underline in the last row
/// and strikethrough in row 6.
pub fn mono_8x13_atlas() -> (font: FontLayout)
    ensures
        font.wf(),
        font.image_width == 128,
        font.character_width == 8,
        font.character_height == 13,
        font.character_spacing == 0,
        font.baseline == 10,
        font.underline == (Decoration { offset: 12, height: 1 }),
        font.strikethrough == (Decoration { offset: 6, height: 1 }),
        font.glyph_ranges@ == mono_8x13_ranges(),
        font.row_capacity() == 16,
{
    let mut glyph_ranges: Vec<GlyphRange> = Vec::new();
    glyph_ranges.push(GlyphRange { first: ' ', last: '~' });
    glyph_ranges.push(GlyphRange { first: '\u{a0}', last: '\u{17f}' });
    glyph_ranges.push(GlyphRange { first: '\u{20a0}', last: '\u{20b1}' });
    glyph_ranges.push(GlyphRange { first: '\u{2300}', last: '\u{232f}' });
    glyph_ranges.push(GlyphRange { first: '\u{2350}', last: '\u{23ce}' });
    glyph_ranges.push(GlyphRange { first: '\u{2500}', last: '\u{25cf}' });
    glyph_ranges.push(GlyphRange { first: '\u{25e2}', last: '\u{2689}' });
    glyph_ranges.push(GlyphRange { first: '\u{2800}', last: '\u{28ff}' });
    assert(glyph_ranges@ =~= mono_8x13_ranges());
    FontLayout {
        image_width: 128,
        character_width: 8,
        character_height: 13,
        character_spacing: 0,
        baseline: 10,
        underline: Decoration { offset: 12, height: 1 },
        strikethrough: Decoration { offset: 6, height: 1 },
        glyph_ranges,
    }
}

/// The 8x13 font has 1144 glyphs.
pub proof fn lemma_mono_8x13_glyph_total()
    ensures
        total_glyphs(mono_8x13_ranges()) == 1144,
{
    reveal_with_fuel(total_glyphs, 10);
    let ranges = mono_8x13_ranges();
    assert(ranges.drop_last().len() == 7);
    assert(ranges.drop_last().drop_last().len() == 6);
    assert(ranges.drop_last().drop_last().drop_last().len() == 5);
    assert(ranges.drop_last().drop_last().drop_last().drop_last().len() == 4);
    assert(ranges.drop_last().drop_last().drop_last().drop_last().drop_last().len() == 3);
}

} // verus!
