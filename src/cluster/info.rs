use vstd::prelude::*;
use vstd::string::{StrSliceExecFns, StringExecFns};

use crate::paragraph::LineBoundary;
use crate::unicode::Properties;

verus! {

/// Information about a character: its Unicode properties and the result of
/// boundary analysis.
#[derive(Copy, Clone, PartialEq, Eq, Structural, Debug)]
pub struct CharInfo(pub Properties);

impl CharInfo {
    /// True if the character starts a word.
    pub open spec fn word(self) -> bool {
        self.0.bound() & 4 != 0
    }

    /// The line boundary state of the character.
    pub open spec fn line(self) -> LineBoundary {
        LineBoundary::spec_from_raw(self.0.bound() & 3)
    }

    /// Creates new character information from Unicode properties and
    /// boundary analysis.
    pub fn new(properties: Properties, is_word_boundary: bool, line_boundary: LineBoundary) -> (r:
        CharInfo)
        ensures
            r.0.record == properties.record,
            r.0.boundary == ((if is_word_boundary {
                1u16
            } else {
                0u16
            }) << 2u16 | line_boundary.code()),
            r.word() == is_word_boundary,
            r.line() == line_boundary,
    {
        let w: u16 = if is_word_boundary {
            1
        } else {
            0
        };
        let l = line_boundary.to_raw();
        let bits: u16 = w << 2u16 | l;
        proof {
            assert(w < 2 && l < 3 ==> ((((w << 2u16 | l) & 7) & 4 != 0) <==> w == 1) && ((w << 2u16
                | l) & 7) & 3 == l) by (bit_vector);
            assert((l & 3) == l) by (bit_vector)
                requires
                    l < 3,
            ;
            assert(w < 2 && l < 3 ==> (w << 2u16 | l) & 7 == (w << 2u16 | l)) by (bit_vector);
        }
        CharInfo(properties.with_boundary(bits))
    }

    /// Returns the Unicode properties for the character.
    pub fn properties(self) -> (r: Properties)
        ensures
            r == self.0,
    {
        self.0
    }

    /// Returns true if the character is a word boundary.
    pub fn is_word_boundary(self) -> (r: bool)
        ensures
            r == self.word(),
    {
        self.0.boundary() & 4 != 0
    }

    /// Returns the line boundary state for the character.
    pub fn line_boundary(self) -> (r: LineBoundary)
        ensures
            r == self.line(),
    {
        LineBoundary::from_raw(self.0.boundary() & 3)
    }

    /// Returns new information with the given properties and the boundary
    /// state of this one.
    pub fn with_properties(self, props: Properties) -> (r: CharInfo)
        ensures
            r.0.record == props.record,
            r.0.boundary == self.0.bound(),
            r.0.bound() == self.0.bound(),
    {
        let b = self.0.boundary();
        proof {
            assert(b < 8 ==> b & 7 == b) by (bit_vector);
        }
        CharInfo(props.with_boundary(b))
    }
}

impl Default for CharInfo {
    /// Information of an unassigned code point with no boundary.
    fn default() -> (r: CharInfo)
        ensures
            r.0.record == crate::unicode::Record::spec_unassigned(),
            r.0.boundary == 0,
            !r.word(),
            r.line() == LineBoundary::NoBreak,
    {
        let p = Properties::default();
        proof {
            assert(0u16 & 4 == 0 && 0u16 & 3 == 0 && (0u16 & 3) & 3 == 0) by (bit_vector);
        }
        CharInfo(p)
    }
}

/// Presentation mode for an emoji cluster.
#[derive(Copy, Clone, PartialEq, Eq, Structural, Debug)]
pub enum Emoji {
    /// Not an emoji.
    NoEmoji,
    /// Emoji with default presentation.
    Default,
    /// Emoji with text presentation.
    Text,
    /// Emoji with color presentation.
    Color,
}

impl Emoji {
    /// The two bit code of the mode.
    pub open spec fn code(self) -> u16 {
        match self {
            Emoji::NoEmoji => 0,
            Emoji::Default => 1,
            Emoji::Text => 2,
            Emoji::Color => 3,
        }
    }

    /// The mode that the low two bits of `bits` stand for.
    pub open spec fn spec_from_raw(bits: u16) -> Emoji {
        let b = bits & 3;
        if b == 0 {
            Emoji::NoEmoji
        } else if b == 1 {
            Emoji::Default
        } else if b == 2 {
            Emoji::Text
        } else {
            Emoji::Color
        }
    }

    /// Decodes the low two bits of `bits`.
    pub fn from_raw(bits: u16) -> (r: Emoji)
        ensures
            r == Emoji::spec_from_raw(bits),
    {
        let b = bits & 3;
        if b == 0 {
            Emoji::NoEmoji
        } else if b == 1 {
            Emoji::Default
        } else if b == 2 {
            Emoji::Text
        } else {
            Emoji::Color
        }
    }

    /// Returns the two bit code of the mode.
    pub fn to_raw(self) -> (r: u16)
        ensures
            r == self.code(),
            r < 4,
    {
        match self {
            Emoji::NoEmoji => 0,
            Emoji::Default => 1,
            Emoji::Text => 2,
            Emoji::Color => 3,
        }
    }
}

/// Whitespace content of a cluster.
#[derive(Copy, Clone, PartialEq, Eq, Structural, Debug)]
pub enum Whitespace {
    /// Not a space.
    NoSpace,
    /// Standard space.
    Space,
    /// Non-breaking space (U+00A0).
    NoBreakSpace,
    /// Horizontal tab.
    Tab,
    /// Newline (CR, LF, or CRLF).
    Newline,
    /// Other space.
    Other,
}

impl Whitespace {
    /// The three bit code of the kind.
    pub open spec fn code(self) -> u16 {
        match self {
            Whitespace::NoSpace => 0,
            Whitespace::Space => 1,
            Whitespace::NoBreakSpace => 2,
            Whitespace::Tab => 3,
            Whitespace::Newline => 4,
            Whitespace::Other => 5,
        }
    }

    /// The kind that the low three bits of `bits` stand for; the unused
    /// codes read as no space.
    pub open spec fn spec_from_raw(bits: u16) -> Whitespace {
        let b = bits & 7;
        if b == 1 {
            Whitespace::Space
        } else if b == 2 {
            Whitespace::NoBreakSpace
        } else if b == 3 {
            Whitespace::Tab
        } else if b == 4 {
            Whitespace::Newline
        } else if b == 5 {
            Whitespace::Other
        } else {
            Whitespace::NoSpace
        }
    }

    /// Returns true for space or no break space.
    pub fn is_space_or_nbsp(self) -> (r: bool)
        ensures
            r == (self == Whitespace::Space || self == Whitespace::NoBreakSpace),
    {
        matches!(self, Whitespace::Space | Whitespace::NoBreakSpace)
    }

    /// Decodes the low three bits of `bits`.
    pub fn from_raw(bits: u16) -> (r: Whitespace)
        ensures
            r == Whitespace::spec_from_raw(bits),
    {
        let b = bits & 7;
        if b == 1 {
            Whitespace::Space
        } else if b == 2 {
            Whitespace::NoBreakSpace
        } else if b == 3 {
            Whitespace::Tab
        } else if b == 4 {
            Whitespace::Newline
        } else if b == 5 {
            Whitespace::Other
        } else {
            Whitespace::NoSpace
        }
    }

    /// Returns the three bit code of the kind.
    pub fn to_raw(self) -> (r: u16)
        ensures
            r == self.code(),
            r < 6,
    {
        match self {
            Whitespace::NoSpace => 0,
            Whitespace::Space => 1,
            Whitespace::NoBreakSpace => 2,
            Whitespace::Tab => 3,
            Whitespace::Newline => 4,
            Whitespace::Other => 5,
        }
    }
}

/// Information about a cluster including content properties and boundary
/// analysis, packed in 16 bits: bit 0 marks a broken cluster, bits 1 to 3
/// hold the whitespace kind, bits 8 and 9 the emoji presentation and bits 13
/// to 15 the boundary state (bit 2 of it a word boundary, bits 0 and 1 the
/// line boundary).
#[derive(Copy, Clone, PartialEq, Eq, Structural, Debug)]
pub struct ClusterInfo(pub u16);

impl ClusterInfo {
    /// The cluster misses its base.
    pub open spec fn broken(self) -> bool {
        self.0 & 1 != 0
    }

    /// The code of the whitespace kind.
    pub open spec fn space_bits(self) -> u16 {
        (self.0 >> 1u16) & 7
    }

    /// The code of the emoji presentation.
    pub open spec fn emoji_bits(self) -> u16 {
        (self.0 >> 8u16) & 3
    }

    /// The three boundary bits.
    pub open spec fn bound(self) -> u16 {
        self.0 >> 13u16
    }

    /// The emoji presentation.
    pub open spec fn spec_emoji(self) -> Emoji {
        Emoji::spec_from_raw(self.emoji_bits())
    }

    /// The whitespace kind.
    pub open spec fn spec_whitespace(self) -> Whitespace {
        Whitespace::spec_from_raw(self.space_bits())
    }

    /// The cluster is a word boundary.
    pub open spec fn word(self) -> bool {
        self.bound() & 4 != 0
    }

    /// The line boundary of the cluster.
    pub open spec fn line(self) -> LineBoundary {
        LineBoundary::spec_from_raw(self.bound() & 3)
    }

    /// Information with no flag set.
    pub fn empty() -> (r: ClusterInfo)
        ensures
            r.0 == 0,
            !r.broken(),
            r.space_bits() == 0,
            r.emoji_bits() == 0,
            r.bound() == 0,
    {
        proof {
            assert(0u16 & 1 == 0 && (0u16 >> 1u16) & 7 == 0 && (0u16 >> 8u16) & 3 == 0 && 0u16
                >> 13u16 == 0) by (bit_vector);
        }
        ClusterInfo(0)
    }

    /// Returns true if the cluster is missing an appropriate base
    /// character.
    pub fn is_broken(self) -> (r: bool)
        ensures
            r == self.broken(),
    {
        self.0 & 1 != 0
    }

    /// Returns true if the cluster is an emoji.
    pub fn is_emoji(self) -> (r: bool)
        ensures
            r == (self.spec_emoji() != Emoji::NoEmoji),
    {
        let v = self.0;
        let b = v >> 8u16 & 3;
        proof {
            assert(b & 3 == b) by (bit_vector)
                requires
                    b == v >> 8u16 & 3,
            ;
        }
        b != 0
    }

    /// Returns the emoji presentation mode of the cluster.
    pub fn emoji(self) -> (r: Emoji)
        ensures
            r == self.spec_emoji(),
    {
        Emoji::from_raw(self.0 >> 8u16 & 3)
    }

    /// Returns true if the cluster is whitespace.
    pub fn is_whitespace(self) -> (r: bool)
        ensures
            r == (self.space_bits() != 0),
    {
        (self.0 >> 1u16 & 7) != 0
    }

    /// Returns the whitespace content of the cluster.
    pub fn whitespace(self) -> (r: Whitespace)
        ensures
            r == self.spec_whitespace(),
    {
        Whitespace::from_raw(self.0 >> 1u16 & 7)
    }

    /// Returns true if the cluster is a word or line boundary.
    pub fn is_boundary(self) -> (r: bool)
        ensures
            r == (self.word() || self.line() != LineBoundary::NoBreak),
    {
        let v = self.0;
        let b = v >> 13u16;
        proof {
            assert(b != 0 <==> (b & 4 != 0 || (b & 3) & 3 != 0)) by (bit_vector)
                requires
                    b == v >> 13u16,
            ;
        }
        b != 0
    }

    /// Returns true if the cluster is a word boundary.
    pub fn is_word_boundary(self) -> (r: bool)
        ensures
            r == self.word(),
    {
        self.0 >> 13u16 & 4 != 0
    }

    /// Returns the line boundary state of the cluster.
    pub fn line_boundary(self) -> (r: LineBoundary)
        ensures
            r == self.line(),
    {
        LineBoundary::from_raw((self.0 >> 13u16) & 3)
    }

    /// Marks the cluster as missing a base.
    pub fn set_broken(&mut self)
        ensures
            final(self).0 == old(self).0 | 1,
            final(self).broken(),
            final(self).space_bits() == old(self).space_bits(),
            final(self).emoji_bits() == old(self).emoji_bits(),
            final(self).bound() == old(self).bound(),
    {
        let v = self.0;
        proof {
            assert((v | 1) & 1 != 0 && ((v | 1) >> 1u16) & 7 == (v >> 1u16) & 7 && ((v | 1)
                >> 8u16) & 3 == (v >> 8u16) & 3 && (v | 1) >> 13u16 == v >> 13u16) by (bit_vector);
        }
        self.0 = v | 1;
    }

    /// Sets the emoji presentation mode.
    pub fn set_emoji(&mut self, emoji: Emoji)
        ensures
            final(self).spec_emoji() == emoji,
            final(self).emoji_bits() == emoji.code(),
            final(self).0 & !0x300u16 == old(self).0 & !0x300u16,
            final(self).broken() == old(self).broken(),
            final(self).space_bits() == old(self).space_bits(),
            final(self).bound() == old(self).bound(),
    {
        let v = self.0;
        let c = emoji.to_raw();
        let n: u16 = v & !(3u16 << 8u16) | c << 8u16;
        proof {
            assert(c < 4 ==> (n >> 8u16) & 3 == c && n & 1 == v & 1 && (n >> 1u16) & 7 == (v
                >> 1u16) & 7 && n >> 13u16 == v >> 13u16 && c & 3 == c && n & !0x300u16 == v
                & !0x300u16) by (bit_vector)
                requires
                    n == v & !(3u16 << 8u16) | c << 8u16,
            ;
        }
        self.0 = n;
    }

    /// Sets the whitespace kind.
    pub fn set_space(&mut self, space: Whitespace)
        ensures
            final(self).spec_whitespace() == space,
            final(self).space_bits() == space.code(),
            final(self).0 & !0b1110u16 == old(self).0 & !0b1110u16,
            final(self).broken() == old(self).broken(),
            final(self).emoji_bits() == old(self).emoji_bits(),
            final(self).bound() == old(self).bound(),
    {
        let v = self.0;
        let c = space.to_raw();
        let n: u16 = v & !(7u16 << 1u16) | c << 1u16;
        proof {
            assert(c < 8 ==> (n >> 1u16) & 7 == c && n & 1 == v & 1 && (n >> 8u16) & 3 == (v
                >> 8u16) & 3 && n >> 13u16 == v >> 13u16 && c & 7 == c && n & !0b1110u16 == v
                & !0b1110u16) by (bit_vector)
                requires
                    n == v & !(7u16 << 1u16) | c << 1u16,
            ;
        }
        self.0 = n;
    }

    /// Sets the whitespace kind of a space, a no break space or a tab; other
    /// characters leave it as it is.
    pub fn set_space_from_char(&mut self, ch: char)
        ensures
            final(self).space_bits() == (if ch == ' ' {
                Whitespace::Space.code()
            } else if ch == '\u{a0}' {
                Whitespace::NoBreakSpace.code()
            } else if ch == '\t' {
                Whitespace::Tab.code()
            } else {
                old(self).space_bits()
            }),
            !(ch == ' ' || ch == '\u{a0}' || ch == '\t') ==> *final(self) == *old(self),
            final(self).0 & !0b1110u16 == old(self).0 & !0b1110u16,
            final(self).broken() == old(self).broken(),
            final(self).emoji_bits() == old(self).emoji_bits(),
            final(self).bound() == old(self).bound(),
    {
        if ch == ' ' {
            self.set_space(Whitespace::Space);
        } else if ch == '\u{a0}' {
            self.set_space(Whitespace::NoBreakSpace);
        } else if ch == '\t' {
            self.set_space(Whitespace::Tab);
        }
    }

    /// Merges the boundary bits of a character into those of the cluster.
    pub fn merge_boundary(&mut self, boundary: u16)
        requires
            boundary < 8,
        ensures
            final(self).bound() == old(self).bound() | boundary,
            final(self).0 & 0x1fffu16 == old(self).0 & 0x1fffu16,
            final(self).broken() == old(self).broken(),
            final(self).space_bits() == old(self).space_bits(),
            final(self).emoji_bits() == old(self).emoji_bits(),
    {
        let v = self.0;
        let bits: u16 = ((v >> 13u16) | boundary) << 13u16;
        let n: u16 = ((v << 3u16) >> 3u16) | bits;
        proof {
            assert(boundary < 8 ==> n >> 13u16 == (v >> 13u16) | boundary && n & 1 == v & 1 && (n
                >> 1u16) & 7 == (v >> 1u16) & 7 && (n >> 8u16) & 3 == (v >> 8u16) & 3 && n
                & 0x1fffu16 == v & 0x1fffu16) by (bit_vector)
                requires
                    bits == ((v >> 13u16) | boundary) << 13u16,
                    n == ((v << 3u16) >> 3u16) | bits,
            ;
        }
        self.0 = n;
    }
}

/// One character of text.
fn one(c: char) -> (r: &'static str)
    requires
        c == ' ' || c == '!' || c == 'E' || c == 'T' || c == 'C' || c == 's' || c == 'b' || c
            == 't' || c == 'n' || c == 'o' || c == 'w' || c == 'L' || c == 'l',
    ensures
        r@ == seq![c],
{
    if c == ' ' {
        proof { reveal_strlit(" "); }
        " "
    } else if c == '!' {
        proof { reveal_strlit("!"); }
        "!"
    } else if c == 'E' {
        proof { reveal_strlit("E"); }
        "E"
    } else if c == 'T' {
        proof { reveal_strlit("T"); }
        "T"
    } else if c == 'C' {
        proof { reveal_strlit("C"); }
        "C"
    } else if c == 's' {
        proof { reveal_strlit("s"); }
        "s"
    } else if c == 'b' {
        proof { reveal_strlit("b"); }
        "b"
    } else if c == 't' {
        proof { reveal_strlit("t"); }
        "t"
    } else if c == 'n' {
        proof { reveal_strlit("n"); }
        "n"
    } else if c == 'o' {
        proof { reveal_strlit("o"); }
        "o"
    } else if c == 'w' {
        proof { reveal_strlit("w"); }
        "w"
    } else if c == 'L' {
        proof { reveal_strlit("L"); }
        "L"
    } else {
        proof { reveal_strlit("l"); }
        "l"
    }
}

/// The letter that stands for an emoji presentation in a summary.
pub open spec fn emoji_letter(e: Emoji) -> char {
    match e {
        Emoji::NoEmoji => ' ',
        Emoji::Default => 'E',
        Emoji::Text => 'T',
        Emoji::Color => 'C',
    }
}

/// The letter that stands for a whitespace kind in a summary.
pub open spec fn space_letter(w: Whitespace) -> char {
    match w {
        Whitespace::NoSpace => ' ',
        Whitespace::Space => 's',
        Whitespace::NoBreakSpace => 'b',
        Whitespace::Tab => 't',
        Whitespace::Newline => 'n',
        Whitespace::Other => 'o',
    }
}

/// The letter that stands for a line boundary in a summary.
pub open spec fn line_letter(l: LineBoundary) -> char {
    match l {
        LineBoundary::NoBreak => ' ',
        LineBoundary::Soft => 'l',
        LineBoundary::Hard => 'L',
    }
}

impl ClusterInfo {
    /// A five letter summary: `!` if broken, the emoji presentation, the
    /// whitespace kind, `w` for a word boundary and the line boundary; a
    /// space where a flag is not set.
    pub open spec fn summary(self) -> Seq<char> {
        seq![
            if self.broken() { '!' } else { ' ' },
            emoji_letter(self.spec_emoji()),
            space_letter(self.spec_whitespace()),
            if self.word() { 'w' } else { ' ' },
            line_letter(self.line()),
        ]
    }

    /// Returns the five letter summary of the flags.
    pub fn describe(self) -> (r: String)
        ensures
            r@ == self.summary(),
    {
        let mut out = String::from_str(one(if self.is_broken() { '!' } else { ' ' }));
        let e = match self.emoji() {
            Emoji::NoEmoji => ' ',
            Emoji::Default => 'E',
            Emoji::Text => 'T',
            Emoji::Color => 'C',
        };
        out.append(one(e));
        let w = match self.whitespace() {
            Whitespace::NoSpace => ' ',
            Whitespace::Space => 's',
            Whitespace::NoBreakSpace => 'b',
            Whitespace::Tab => 't',
            Whitespace::Newline => 'n',
            Whitespace::Other => 'o',
        };
        out.append(one(w));
        out.append(one(if self.is_word_boundary() { 'w' } else { ' ' }));
        let l = match self.line_boundary() {
            LineBoundary::NoBreak => ' ',
            LineBoundary::Soft => 'l',
            LineBoundary::Hard => 'L',
        };
        out.append(one(l));
        proof {
            assert(out@ =~= self.summary());
        }
        out
    }
}

} // verus!
