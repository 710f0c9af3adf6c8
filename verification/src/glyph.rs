//! The catalogue of symbols that a streak's head is drawn with.

use vstd::prelude::*;

verus! {

/// Number of symbols in the catalogue.
pub const GLYPH_COUNT: u16 = 32;

/// The symbol that marks an erased cell.
pub const BLANK: char = ' ';

/// The catalogue, in its fixed order: half-width katakana.
pub open spec fn glyph_set() -> Seq<char> {
    seq![
        'ﾊ', 'ﾐ', 'ﾋ', 'ｰ', 'ｳ', 'ｼ', 'ﾅ', 'ﾓ',
        'ﾆ', 'ｻ', 'ﾜ', 'ﾂ', 'ｵ', 'ﾘ', 'ｱ', 'ﾎ',
        'ﾃ', 'ﾏ', 'ｹ', 'ﾒ', 'ｴ', 'ｶ', 'ｷ', 'ﾑ',
        'ﾕ', 'ﾗ', 'ｾ', 'ﾈ', 'ｽ', 'ﾀ', 'ﾇ', 'ﾍ',
    ]
}

/// Whether `c` is one of the catalogue's symbols.
pub open spec fn is_glyph(c: char) -> bool {
    glyph_set().contains(c)
}

/// The catalogue as a vector, in the order of `glyph_set`.
pub fn glyphs() -> (table: Vec<char>)
    ensures
        table@ == glyph_set(),
        table@.len() == GLYPH_COUNT,
{
    let table = vec![
        'ﾊ', 'ﾐ', 'ﾋ', 'ｰ', 'ｳ', 'ｼ', 'ﾅ', 'ﾓ',
        'ﾆ', 'ｻ', 'ﾜ', 'ﾂ', 'ｵ', 'ﾘ', 'ｱ', 'ﾎ',
        'ﾃ', 'ﾏ', 'ｹ', 'ﾒ', 'ｴ', 'ｶ', 'ｷ', 'ﾑ',
        'ﾕ', 'ﾗ', 'ｾ', 'ﾈ', 'ｽ', 'ﾀ', 'ﾇ', 'ﾍ',
    ];
    assert(table@ =~= glyph_set());
    table
}

} // verus!
