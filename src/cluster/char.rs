use vstd::prelude::*;

use super::info::CharInfo;
use crate::paragraph::LineBoundary;
use crate::unicode::{JoiningType, Record};

verus! {

/// Arbitrary user data that can be associated with a character throughout
/// the shaping pipeline.
pub type UserData = u32;

/// Character output from the cluster parser.
#[derive(Copy, Clone, PartialEq, Eq, Structural, Debug)]
pub struct Char {
    /// The character.
    pub ch: char,
    /// Offset of the character in code units.
    pub offset: usize,
    /// Shaping class of the character.
    pub shape_class: ShapeClass,
    /// Joining type of the character.
    pub joining_type: JoiningType,
    /// True if the character is ignorable.
    pub ignorable: bool,
    /// True if the character should be considered when mapping glyphs.
    pub contributes_to_shaping: bool,
    /// Nominal glyph identifier.
    pub glyph_id: u32,
    /// Arbitrary user data.
    pub data: UserData,
}

impl Default for Char {
    /// A NUL character of class base that joins nothing.
    fn default() -> (r: Char)
        ensures
            r == (Char {
                ch: '\0',
                offset: 0,
                shape_class: ShapeClass::Base,
                joining_type: JoiningType::U,
                ignorable: false,
                contributes_to_shaping: true,
                glyph_id: 0,
                data: 0,
            }),
    {
        Char {
            ch: '\0',
            offset: 0,
            shape_class: ShapeClass::Base,
            joining_type: JoiningType::U,
            ignorable: false,
            contributes_to_shaping: true,
            glyph_id: 0,
            data: 0,
        }
    }
}

/// Shaping class of a character, in order of shaping priority.
#[derive(Copy, Clone, PartialEq, Eq, Structural, Debug)]
pub enum ShapeClass {
    /// Reph form.
    Reph,
    /// Pre-base form.
    Pref,
    /// Myanmar three character prefix.
    Kinzi,
    /// Base character.
    Base,
    /// Mark character.
    Mark,
    /// Halant modifier.
    Halant,
    /// Medial consonant Ra.
    MedialRa,
    /// Pre-base vowel modifier.
    VmPre,
    /// Pre-base dependent vowel.
    VPre,
    /// Below base dependent vowel.
    VBlw,
    /// Anusvara class.
    Anusvara,
    /// Zero width joiner.
    Zwj,
    /// Zero width non-joiner.
    Zwnj,
    /// Control character.
    Control,
    /// Variation selector.
    Vs,
    /// Other character.
    Other,
}

impl Default for ShapeClass {
    /// The base class.
    fn default() -> (r: ShapeClass)
        ensures
            r == ShapeClass::Base,
    {
        ShapeClass::Base
    }
}

/// Character input to the cluster parser.
#[derive(Copy, Clone, PartialEq, Eq, Structural, Debug)]
pub struct SourceChar {
    /// The character.
    pub ch: char,
    /// Offset of the character in code units.
    pub offset: usize,
    /// Length of the character in code units.
    pub len: u8,
    /// Character information.
    pub info: CharInfo,
    /// Arbitrary user data.
    pub data: UserData,
}

impl SourceChar {
    /// The table record of the character.
    pub open spec fn rec(self) -> Record {
        self.info.0.record
    }
}

impl Default for SourceChar {
    /// A NUL character one code unit long, with the properties of an
    /// unassigned code point.
    fn default() -> (r: SourceChar)
        ensures
            r.ch == '\0',
            r.offset == 0,
            r.len == 1,
            r.rec() == Record::spec_unassigned(),
            r.info.0.boundary == 0,
            !r.info.word(),
            r.info.line() == LineBoundary::NoBreak,
            r.data == 0,
    {
        SourceChar { ch: '\0', offset: 0, len: 1, info: CharInfo::default(), data: 0 }
    }
}

/// The output character for `s` with shaping class `class`: the character,
/// its offset and user data carried over, its joining type and ignorability
/// taken from its properties. An ignorable character never contributes to
/// shaping.
pub open spec fn char_of(s: SourceChar, class: ShapeClass) -> Char {
    Char {
        ch: s.ch,
        offset: s.offset,
        shape_class: class,
        joining_type: s.rec().joining_type,
        ignorable: s.rec().is_ignorable,
        contributes_to_shaping: s.rec().contributes_to_shaping && !s.rec().is_ignorable,
        glyph_id: 0,
        data: s.data,
    }
}

/// Builds the output character for `s` with shaping class `class`.
pub fn make_char(s: &SourceChar, class: ShapeClass) -> (r: Char)
    ensures
        r == char_of(*s, class),
{
    let p = s.info.0;
    let ignorable = p.is_ignorable();
    Char {
        ch: s.ch,
        offset: s.offset,
        shape_class: class,
        joining_type: p.joining_type(),
        ignorable,
        contributes_to_shaping: p.contributes_to_shaping() && !ignorable,
        glyph_id: 0,
        data: s.data,
    }
}

} // verus!
