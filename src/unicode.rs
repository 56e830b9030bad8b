//! Unicode character properties.
//!
//! The property table itself is generated outside this crate. A lookup in it
//! yields a [`Record`]; [`Properties`] carries that record together with three
//! boundary bits that the boundary analysis attaches later.

use vstd::prelude::*;

verus! {

/// General category of a character.
#[derive(Copy, Clone, PartialEq, Eq, Structural, Debug)]
pub enum Category {
    UppercaseLetter,
    LowercaseLetter,
    TitlecaseLetter,
    ModifierLetter,
    OtherLetter,
    NonspacingMark,
    SpacingMark,
    EnclosingMark,
    DecimalNumber,
    LetterNumber,
    OtherNumber,
    ConnectorPunctuation,
    DashPunctuation,
    OpenPunctuation,
    ClosePunctuation,
    InitialPunctuation,
    FinalPunctuation,
    OtherPunctuation,
    MathSymbol,
    CurrencySymbol,
    ModifierSymbol,
    OtherSymbol,
    SpaceSeparator,
    LineSeparator,
    ParagraphSeparator,
    Control,
    Format,
    Surrogate,
    PrivateUse,
    Unassigned,
}

/// Bidirectional class of a character.
#[derive(Copy, Clone, PartialEq, Eq, Structural, Debug)]
pub enum BidiClass {
    L,
    R,
    AL,
    EN,
    ES,
    ET,
    AN,
    CS,
    NSM,
    BN,
    B,
    S,
    WS,
    ON,
    LRE,
    LRO,
    RLE,
    RLO,
    PDF,
    LRI,
    RLI,
    FSI,
    PDI,
}

/// Cursive joining type of a character.
#[derive(Copy, Clone, PartialEq, Eq, Structural, Debug)]
pub enum JoiningType {
    /// Non joining.
    U,
    /// Join causing.
    C,
    /// Transparent.
    T,
    /// Dual joining.
    D,
    /// Left joining.
    L,
    /// Right joining.
    R,
}

/// Grapheme cluster break property of a character.
#[derive(Copy, Clone, PartialEq, Eq, Structural, Debug)]
pub enum ClusterBreak {
    /// Control.
    CN,
    /// Carriage return.
    CR,
    /// Extend.
    EX,
    /// Hangul leading jamo.
    L,
    /// Line feed.
    LF,
    /// Hangul LV syllable.
    LV,
    /// Hangul LVT syllable.
    LVT,
    /// Prepend.
    PP,
    /// Regional indicator.
    RI,
    /// Spacing mark.
    SM,
    /// Hangul trailing jamo.
    T,
    /// Hangul vowel jamo.
    V,
    /// Any other character.
    XX,
    /// Zero width joiner.
    ZWJ,
}

/// Word break property of a character.
#[derive(Copy, Clone, PartialEq, Eq, Structural, Debug)]
pub enum WordBreak {
    Other,
    CR,
    LF,
    Newline,
    Extend,
    ZWJ,
    RegionalIndicator,
    Format,
    Katakana,
    HebrewLetter,
    ALetter,
    SingleQuote,
    DoubleQuote,
    MidNumLet,
    MidLetter,
    MidNum,
    Numeric,
    ExtendNumLet,
    WSegSpace,
}

/// Line break property of a character.
#[derive(Copy, Clone, PartialEq, Eq, Structural, Debug)]
pub enum LineBreak {
    BK,
    CR,
    LF,
    CM,
    NL,
    SG,
    WJ,
    ZW,
    GL,
    SP,
    ZWJ,
    B2,
    BA,
    BB,
    HY,
    CB,
    CL,
    CP,
    EX,
    IN,
    NS,
    OP,
    QU,
    IS,
    NU,
    PO,
    PR,
    SY,
    AI,
    AL,
    CJ,
    EB,
    EM,
    H2,
    H3,
    HL,
    ID,
    JL,
    JV,
    JT,
    RI,
    SA,
    XX,
}

/// Syllabic class of a character for the generic complex engine.
#[derive(Copy, Clone, PartialEq, Eq, Structural, Debug)]
pub enum UseClass {
    /// Not part of a syllable.
    O,
    /// Base consonant.
    B,
    /// Independent vowel.
    IV,
    /// Generic base, such as a dotted circle.
    GB,
    /// Repha.
    R,
    /// Halant or virama.
    H,
    /// Nukta.
    N,
    /// Medial consonant.
    CM,
    /// Pre-base medial consonant.
    MPre,
    /// Pre-base dependent vowel.
    VPre,
    /// Below-base dependent vowel.
    VBlw,
    /// Other dependent vowel.
    V,
    /// Pre-base vowel modifier.
    VMPre,
    /// Vowel modifier.
    VM,
    /// Zero width joiner.
    ZWJ,
    /// Zero width non-joiner.
    ZWNJ,
    /// Variation selector.
    VS,
}

/// Syllabic class of a character for the Myanmar engine.
#[derive(Copy, Clone, PartialEq, Eq, Structural, Debug)]
pub enum MyanmarClass {
    /// Not part of a syllable.
    O,
    /// Consonant.
    C,
    /// Independent vowel.
    IV,
    /// Generic base, such as a dotted circle.
    GB,
    /// Asat.
    As,
    /// Stacking virama.
    H,
    /// Medial ra.
    MR,
    /// Other medial consonant.
    M,
    /// Pre-base vowel sign.
    VPre,
    /// Below-base vowel sign.
    VBlw,
    /// Other vowel sign.
    V,
    /// Anusvara.
    A,
    /// Dot below, visarga and tone marks.
    SM,
    /// Zero width joiner.
    ZWJ,
    /// Zero width non-joiner.
    ZWNJ,
    /// Variation selector.
    VS,
}

/// Script of a character.
#[derive(Copy, Clone, PartialEq, Eq, Structural, Debug)]
pub enum Script {
    /// Common.
    Common,
    /// Inherited.
    Inherited,
    /// Unknown.
    Unknown,
    /// Adlam.
    Adlam,
    /// Arabic.
    Arabic,
    /// Armenian.
    Armenian,
    /// Balinese.
    Balinese,
    /// Bengali.
    Bengali,
    /// Cyrillic.
    Cyrillic,
    /// Devanagari.
    Devanagari,
    /// Ethiopic.
    Ethiopic,
    /// Georgian.
    Georgian,
    /// Greek.
    Greek,
    /// Gujarati.
    Gujarati,
    /// Gurmukhi.
    Gurmukhi,
    /// Han.
    Han,
    /// Hangul.
    Hangul,
    /// Hebrew.
    Hebrew,
    /// Hiragana.
    Hiragana,
    /// Javanese.
    Javanese,
    /// Kannada.
    Kannada,
    /// Katakana.
    Katakana,
    /// Khmer.
    Khmer,
    /// Lao.
    Lao,
    /// Latin.
    Latin,
    /// Malayalam.
    Malayalam,
    /// Mandaic.
    Mandaic,
    /// Manichaean.
    Manichaean,
    /// Mongolian.
    Mongolian,
    /// Myanmar.
    Myanmar,
    /// Nko.
    Nko,
    /// Oriya.
    Oriya,
    /// Phags Pa.
    PhagsPa,
    /// Psalter Pahlavi.
    PsalterPahlavi,
    /// Sinhala.
    Sinhala,
    /// Syriac.
    Syriac,
    /// Tamil.
    Tamil,
    /// Telugu.
    Telugu,
    /// Thaana.
    Thaana,
    /// Thai.
    Thai,
    /// Tibetan.
    Tibetan,
}

/// The OpenType tag of a script, as a big endian `u32`.
pub open spec fn script_tag(s: Script) -> u32 {
    match s {
        Script::Common => 0x7a797979,
        Script::Inherited => 0x7a696e68,
        Script::Unknown => 0x7a7a7a7a,
        Script::Adlam => 0x61646c6d,
        Script::Arabic => 0x61726162,
        Script::Armenian => 0x61726d6e,
        Script::Balinese => 0x62616c69,
        Script::Bengali => 0x62656e67,
        Script::Cyrillic => 0x6379726c,
        Script::Devanagari => 0x64657661,
        Script::Ethiopic => 0x65746869,
        Script::Georgian => 0x67656f72,
        Script::Greek => 0x6772656b,
        Script::Gujarati => 0x67756a72,
        Script::Gurmukhi => 0x67757275,
        Script::Han => 0x68616e69,
        Script::Hangul => 0x68616e67,
        Script::Hebrew => 0x68656272,
        Script::Hiragana => 0x6b616e61,
        Script::Javanese => 0x6a617661,
        Script::Kannada => 0x6b6e6461,
        Script::Katakana => 0x6b616e61,
        Script::Khmer => 0x6b686d72,
        Script::Lao => 0x6c616f20,
        Script::Latin => 0x6c61746e,
        Script::Malayalam => 0x6d6c796d,
        Script::Mandaic => 0x6d616e64,
        Script::Manichaean => 0x6d616e69,
        Script::Mongolian => 0x6d6f6e67,
        Script::Myanmar => 0x6d796d72,
        Script::Nko => 0x6e6b6f20,
        Script::Oriya => 0x6f727961,
        Script::PhagsPa => 0x70686167,
        Script::PsalterPahlavi => 0x70686c70,
        Script::Sinhala => 0x73696e68,
        Script::Syriac => 0x73797263,
        Script::Tamil => 0x74616d6c,
        Script::Telugu => 0x74656c75,
        Script::Thaana => 0x74686161,
        Script::Thai => 0x74686169,
        Script::Tibetan => 0x74696274,
    }
}

/// The scripts that need a script specific cluster engine.
pub open spec fn script_complex(s: Script) -> bool {
    match s {
        Script::Balinese
        | Script::Bengali
        | Script::Devanagari
        | Script::Gujarati
        | Script::Gurmukhi
        | Script::Javanese
        | Script::Kannada
        | Script::Khmer
        | Script::Malayalam
        | Script::Myanmar
        | Script::Oriya
        | Script::Sinhala
        | Script::Tamil
        | Script::Telugu
        | Script::Tibetan => true,
        _ => false,
    }
}

/// The scripts that join cursively.
pub open spec fn script_joined(s: Script) -> bool {
    match s {
        Script::Arabic
        | Script::Mongolian
        | Script::Syriac
        | Script::Nko
        | Script::PhagsPa
        | Script::Mandaic
        | Script::Manichaean
        | Script::PsalterPahlavi
        | Script::Adlam => true,
        _ => false,
    }
}

/// The name of a script.
pub open spec fn script_name(s: Script) -> Seq<char> {
    match s {
        Script::Common => "Common"@,
        Script::Inherited => "Inherited"@,
        Script::Unknown => "Unknown"@,
        Script::Adlam => "Adlam"@,
        Script::Arabic => "Arabic"@,
        Script::Armenian => "Armenian"@,
        Script::Balinese => "Balinese"@,
        Script::Bengali => "Bengali"@,
        Script::Cyrillic => "Cyrillic"@,
        Script::Devanagari => "Devanagari"@,
        Script::Ethiopic => "Ethiopic"@,
        Script::Georgian => "Georgian"@,
        Script::Greek => "Greek"@,
        Script::Gujarati => "Gujarati"@,
        Script::Gurmukhi => "Gurmukhi"@,
        Script::Han => "Han"@,
        Script::Hangul => "Hangul"@,
        Script::Hebrew => "Hebrew"@,
        Script::Hiragana => "Hiragana"@,
        Script::Javanese => "Javanese"@,
        Script::Kannada => "Kannada"@,
        Script::Katakana => "Katakana"@,
        Script::Khmer => "Khmer"@,
        Script::Lao => "Lao"@,
        Script::Latin => "Latin"@,
        Script::Malayalam => "Malayalam"@,
        Script::Mandaic => "Mandaic"@,
        Script::Manichaean => "Manichaean"@,
        Script::Mongolian => "Mongolian"@,
        Script::Myanmar => "Myanmar"@,
        Script::Nko => "Nko"@,
        Script::Oriya => "Oriya"@,
        Script::PhagsPa => "Phags_Pa"@,
        Script::PsalterPahlavi => "Psalter_Pahlavi"@,
        Script::Sinhala => "Sinhala"@,
        Script::Syriac => "Syriac"@,
        Script::Tamil => "Tamil"@,
        Script::Telugu => "Telugu"@,
        Script::Thaana => "Thaana"@,
        Script::Thai => "Thai"@,
        Script::Tibetan => "Tibetan"@,
    }
}
/// Mask of the bidi classes that call for resolution: RLE, LRE, RLO, LRO,
/// RLI, LRI, FSI, R, AL and AN, each at the bit of its ordinal.
pub const BIDI_RESOLUTION_MASK: u32 = 0x3bc046;

/// Bracket type of a character.
#[derive(Copy, Clone, PartialEq, Eq, Structural, Debug)]
pub enum BracketType {
    /// Not a bracket.
    NotBracket,
    /// An opening bracket with the associated closing bracket.
    Open(char),
    /// A closing bracket with the associated opening bracket.
    Close(char),
}

/// Index of a Unicode block in the property table, blocks counted in code
/// point order.
#[derive(Copy, Clone, PartialEq, Eq, Structural, Debug)]
pub struct Block(pub u16);

impl BracketType {
    /// The bracket type of a character from the pair lookups: `closing` is
    /// its closing pair if it opens a bracket, `opening` its opening pair if
    /// it closes one. An opening bracket wins.
    pub fn from_pairs(closing: Option<char>, opening: Option<char>) -> (r: BracketType)
        ensures
            r == (match closing {
                Some(c) => BracketType::Open(c),
                None => match opening {
                    Some(o) => BracketType::Close(o),
                    None => BracketType::NotBracket,
                },
            }),
    {
        match closing {
            Some(other) => BracketType::Open(other),
            None => match opening {
                Some(other) => BracketType::Close(other),
                None => BracketType::NotBracket,
            },
        }
    }
}

/// One entry of the Unicode property table: everything that the analysis
/// reads about a character.
#[derive(Copy, Clone, PartialEq, Eq, Structural, Debug)]
pub struct Record {
    /// General category.
    pub category: Category,
    /// Block that holds the character.
    pub block: Block,
    /// Script of the character.
    pub script: Script,
    /// Canonical combining class.
    pub combining_class: u8,
    /// Bidirectional class.
    pub bidi_class: BidiClass,
    /// Cursive joining type.
    pub joining_type: JoiningType,
    /// Grapheme cluster break property.
    pub cluster_break: ClusterBreak,
    /// Word break property.
    pub word_break: WordBreak,
    /// Line break property.
    pub line_break: LineBreak,
    /// Class for the generic complex engine.
    pub use_class: UseClass,
    /// Class for the Myanmar engine.
    pub myanmar_class: MyanmarClass,
    /// Emoji property.
    pub is_emoji: bool,
    /// Extended pictographic property.
    pub is_extended_pictographic: bool,
    /// Opening paired bracket.
    pub is_open_bracket: bool,
    /// Closing paired bracket.
    pub is_close_bracket: bool,
    /// Default ignorable code point.
    pub is_ignorable: bool,
    /// Variation selector.
    pub is_variation_selector: bool,
    /// Taken into account when glyphs are mapped.
    pub contributes_to_shaping: bool,
    /// Decomposed before cluster analysis.
    pub needs_decomp: bool,
}

impl Record {
    /// The record of an unassigned code point.
    pub open spec fn spec_unassigned() -> Record {
        Record {
            category: Category::Unassigned,
            block: Block(0),
            script: Script::Unknown,
            combining_class: 0,
            bidi_class: BidiClass::L,
            joining_type: JoiningType::U,
            cluster_break: ClusterBreak::XX,
            word_break: WordBreak::Other,
            line_break: LineBreak::XX,
            use_class: UseClass::O,
            myanmar_class: MyanmarClass::O,
            is_emoji: false,
            is_extended_pictographic: false,
            is_open_bracket: false,
            is_close_bracket: false,
            is_ignorable: false,
            is_variation_selector: false,
            contributes_to_shaping: true,
            needs_decomp: false,
        }
    }
}

impl Default for Record {
    /// The record that an unassigned code point resolves to.
    fn default() -> (r: Record)
        ensures
            r == Record::spec_unassigned(),
    {
        Record {
            category: Category::Unassigned,
            block: Block(0),
            script: Script::Unknown,
            combining_class: 0,
            bidi_class: BidiClass::L,
            joining_type: JoiningType::U,
            cluster_break: ClusterBreak::XX,
            word_break: WordBreak::Other,
            line_break: LineBreak::XX,
            use_class: UseClass::O,
            myanmar_class: MyanmarClass::O,
            is_emoji: false,
            is_extended_pictographic: false,
            is_open_bracket: false,
            is_close_bracket: false,
            is_ignorable: false,
            is_variation_selector: false,
            contributes_to_shaping: true,
            needs_decomp: false,
        }
    }
}

/// Unicode properties of a character, with three boundary bits that the
/// boundary analysis attaches. Only the low three bits of `boundary` are
/// meaningful.
#[derive(Copy, Clone, PartialEq, Eq, Structural, Debug)]
pub struct Properties {
    /// The table record of the character.
    pub record: Record,
    /// Boundary bits: bit 2 marks a word boundary, bits 0 and 1 hold the
    /// line boundary.
    pub boundary: u16,
}

impl Properties {
    /// The three boundary bits.
    pub open spec fn bound(self) -> u16 {
        self.boundary & 7
    }

    /// Creates properties from a table record, with no boundary bits.
    pub fn new(record: Record) -> (r: Properties)
        ensures
            r.record == record,
            r.boundary == 0,
            r.bound() == 0,
    {
        proof {
            assert(0u16 & 7 == 0) by (bit_vector);
        }
        Properties { record, boundary: 0 }
    }

    /// Returns the category of the character.
    pub fn category(self) -> (r: Category)
        ensures
            r == self.record.category,
    {
        self.record.category
    }

    /// Returns the Unicode block that contains the character.
    pub fn block(self) -> (r: Block)
        ensures
            r == self.record.block,
    {
        self.record.block
    }

    /// Returns the script to which the character belongs.
    pub fn script(self) -> (r: Script)
        ensures
            r == self.record.script,
    {
        self.record.script
    }

    /// Returns the canonical combining class of the character.
    pub fn combining_class(self) -> (r: u8)
        ensures
            r == self.record.combining_class,
    {
        self.record.combining_class
    }

    /// Returns the bidirectional type of the character.
    pub fn bidi_class(self) -> (r: BidiClass)
        ensures
            r == self.record.bidi_class,
    {
        self.record.bidi_class
    }

    /// Returns the joining type of the character.
    pub fn joining_type(self) -> (r: JoiningType)
        ensures
            r == self.record.joining_type,
    {
        self.record.joining_type
    }

    /// Returns the cluster break property for the character.
    pub fn cluster_break(self) -> (r: ClusterBreak)
        ensures
            r == self.record.cluster_break,
    {
        self.record.cluster_break
    }

    /// Returns the word break property for the character.
    pub fn word_break(self) -> (r: WordBreak)
        ensures
            r == self.record.word_break,
    {
        self.record.word_break
    }

    /// Returns the line break property for the character.
    pub fn line_break(self) -> (r: LineBreak)
        ensures
            r == self.record.line_break,
    {
        self.record.line_break
    }

    /// Returns true if the character is an emoji.
    pub fn is_emoji(self) -> (r: bool)
        ensures
            r == self.record.is_emoji,
    {
        self.record.is_emoji
    }

    /// Returns true if the character is an extended pictographic symbol.
    pub fn is_extended_pictographic(self) -> (r: bool)
        ensures
            r == self.record.is_extended_pictographic,
    {
        self.record.is_extended_pictographic
    }

    /// Returns true if the character is an opening bracket.
    pub fn is_open_bracket(self) -> (r: bool)
        ensures
            r == self.record.is_open_bracket,
    {
        self.record.is_open_bracket
    }

    /// Returns true if the character is a closing bracket.
    pub fn is_close_bracket(self) -> (r: bool)
        ensures
            r == self.record.is_close_bracket,
    {
        self.record.is_close_bracket
    }

    /// Returns true if the character is default ignorable.
    pub fn is_ignorable(self) -> (r: bool)
        ensures
            r == self.record.is_ignorable,
    {
        self.record.is_ignorable
    }

    /// Returns true if the character is a variation selector.
    pub fn is_variation_selector(self) -> (r: bool)
        ensures
            r == self.record.is_variation_selector,
    {
        self.record.is_variation_selector
    }

    /// Returns true if the character takes part in glyph mapping.
    pub fn contributes_to_shaping(self) -> (r: bool)
        ensures
            r == self.record.contributes_to_shaping,
    {
        self.record.contributes_to_shaping
    }

    /// Returns a copy with the boundary bits replaced by the low three bits
    /// of `b`.
    pub fn with_boundary(self, b: u16) -> (r: Properties)
        ensures
            r.record == self.record,
            r.boundary == b & 7,
            r.bound() == b & 7,
    {
        let mut p = self;
        p.set_boundary(b);
        p
    }

    /// Returns the boundary bits.
    pub fn boundary(self) -> (r: u16)
        ensures
            r == self.bound(),
            r < 8,
    {
        proof {
            let x = self.boundary;
            assert(x & 7 < 8) by (bit_vector);
        }
        self.boundary & 7
    }

    /// Replaces the boundary bits by the low three bits of `b`.
    pub fn set_boundary(&mut self, b: u16)
        ensures
            final(self).record == old(self).record,
            final(self).boundary == b & 7,
            final(self).bound() == b & 7,
    {
        proof {
            assert((b & 7) & 7 == b & 7) by (bit_vector);
        }
        self.boundary = b & 7;
    }

    /// Returns the generic complex engine class, whether the character
    /// needs decomposition and whether it is extended pictographic.
    pub fn use_class(self) -> (r: (UseClass, bool, bool))
        ensures
            r == (self.record.use_class, self.record.needs_decomp, self.record.is_extended_pictographic),
    {
        (self.record.use_class, self.record.needs_decomp, self.record.is_extended_pictographic)
    }

    /// Returns the Myanmar engine class and whether the character is
    /// extended pictographic.
    pub fn myanmar_class(self) -> (r: (MyanmarClass, bool))
        ensures
            r == (self.record.myanmar_class, self.record.is_extended_pictographic),
    {
        (self.record.myanmar_class, self.record.is_extended_pictographic)
    }

    /// Returns the cluster break property and whether the character is
    /// extended pictographic.
    pub fn cluster_class(self) -> (r: (ClusterBreak, bool))
        ensures
            r == (self.record.cluster_break, self.record.is_extended_pictographic),
    {
        (self.record.cluster_break, self.record.is_extended_pictographic)
    }
}

impl Default for Properties {
    /// Properties of an unassigned code point, with no boundary bits.
    fn default() -> (r: Properties)
        ensures
            r.record == Record::spec_unassigned(),
            r.boundary == 0,
            r.bound() == 0,
    {
        Properties::new(Record::default())
    }
}

impl Script {
    /// Returns the script associated with the specified OpenType script
    /// tag.
    pub fn from_opentype(tag: u32) -> (r: Option<Script>)
        ensures
            r.is_none() ==> forall|s: Script| script_tag(s) != tag,
            r.is_some() ==> script_tag(r.unwrap()) == tag,
    {
        match tag {
            0x7a797979 => Some(Script::Common),
            0x7a696e68 => Some(Script::Inherited),
            0x7a7a7a7a => Some(Script::Unknown),
            0x61646c6d => Some(Script::Adlam),
            0x61726162 => Some(Script::Arabic),
            0x61726d6e => Some(Script::Armenian),
            0x62616c69 => Some(Script::Balinese),
            0x62656e67 => Some(Script::Bengali),
            0x6379726c => Some(Script::Cyrillic),
            0x64657661 => Some(Script::Devanagari),
            0x65746869 => Some(Script::Ethiopic),
            0x67656f72 => Some(Script::Georgian),
            0x6772656b => Some(Script::Greek),
            0x67756a72 => Some(Script::Gujarati),
            0x67757275 => Some(Script::Gurmukhi),
            0x68616e69 => Some(Script::Han),
            0x68616e67 => Some(Script::Hangul),
            0x68656272 => Some(Script::Hebrew),
            0x6b616e61 => Some(Script::Hiragana),
            0x6a617661 => Some(Script::Javanese),
            0x6b6e6461 => Some(Script::Kannada),
            0x6b686d72 => Some(Script::Khmer),
            0x6c616f20 => Some(Script::Lao),
            0x6c61746e => Some(Script::Latin),
            0x6d6c796d => Some(Script::Malayalam),
            0x6d616e64 => Some(Script::Mandaic),
            0x6d616e69 => Some(Script::Manichaean),
            0x6d6f6e67 => Some(Script::Mongolian),
            0x6d796d72 => Some(Script::Myanmar),
            0x6e6b6f20 => Some(Script::Nko),
            0x6f727961 => Some(Script::Oriya),
            0x70686167 => Some(Script::PhagsPa),
            0x70686c70 => Some(Script::PsalterPahlavi),
            0x73696e68 => Some(Script::Sinhala),
            0x73797263 => Some(Script::Syriac),
            0x74616d6c => Some(Script::Tamil),
            0x74656c75 => Some(Script::Telugu),
            0x74686161 => Some(Script::Thaana),
            0x74686169 => Some(Script::Thai),
            0x74696274 => Some(Script::Tibetan),
            _ => {
                proof {
                    assert forall|s: Script| script_tag(s) != tag by {
                        match s {
                            Script::Common => {},
                            Script::Inherited => {},
                            Script::Unknown => {},
                            Script::Adlam => {},
                            Script::Arabic => {},
                            Script::Armenian => {},
                            Script::Balinese => {},
                            Script::Bengali => {},
                            Script::Cyrillic => {},
                            Script::Devanagari => {},
                            Script::Ethiopic => {},
                            Script::Georgian => {},
                            Script::Greek => {},
                            Script::Gujarati => {},
                            Script::Gurmukhi => {},
                            Script::Han => {},
                            Script::Hangul => {},
                            Script::Hebrew => {},
                            Script::Hiragana => {},
                            Script::Javanese => {},
                            Script::Kannada => {},
                            Script::Katakana => {},
                            Script::Khmer => {},
                            Script::Lao => {},
                            Script::Latin => {},
                            Script::Malayalam => {},
                            Script::Mandaic => {},
                            Script::Manichaean => {},
                            Script::Mongolian => {},
                            Script::Myanmar => {},
                            Script::Nko => {},
                            Script::Oriya => {},
                            Script::PhagsPa => {},
                            Script::PsalterPahlavi => {},
                            Script::Sinhala => {},
                            Script::Syriac => {},
                            Script::Tamil => {},
                            Script::Telugu => {},
                            Script::Thaana => {},
                            Script::Thai => {},
                            Script::Tibetan => {},
                        }
                    }
                }
                None
            },
        }
    }

    /// Returns the name of the script.
    pub fn name(self) -> (r: &'static str)
        ensures
            r@ == script_name(self),
    {
        match self {
            Script::Common => {
                proof { reveal_strlit("Common"); }
                "Common"
            },
            Script::Inherited => {
                proof { reveal_strlit("Inherited"); }
                "Inherited"
            },
            Script::Unknown => {
                proof { reveal_strlit("Unknown"); }
                "Unknown"
            },
            Script::Adlam => {
                proof { reveal_strlit("Adlam"); }
                "Adlam"
            },
            Script::Arabic => {
                proof { reveal_strlit("Arabic"); }
                "Arabic"
            },
            Script::Armenian => {
                proof { reveal_strlit("Armenian"); }
                "Armenian"
            },
            Script::Balinese => {
                proof { reveal_strlit("Balinese"); }
                "Balinese"
            },
            Script::Bengali => {
                proof { reveal_strlit("Bengali"); }
                "Bengali"
            },
            Script::Cyrillic => {
                proof { reveal_strlit("Cyrillic"); }
                "Cyrillic"
            },
            Script::Devanagari => {
                proof { reveal_strlit("Devanagari"); }
                "Devanagari"
            },
            Script::Ethiopic => {
                proof { reveal_strlit("Ethiopic"); }
                "Ethiopic"
            },
            Script::Georgian => {
                proof { reveal_strlit("Georgian"); }
                "Georgian"
            },
            Script::Greek => {
                proof { reveal_strlit("Greek"); }
                "Greek"
            },
            Script::Gujarati => {
                proof { reveal_strlit("Gujarati"); }
                "Gujarati"
            },
            Script::Gurmukhi => {
                proof { reveal_strlit("Gurmukhi"); }
                "Gurmukhi"
            },
            Script::Han => {
                proof { reveal_strlit("Han"); }
                "Han"
            },
            Script::Hangul => {
                proof { reveal_strlit("Hangul"); }
                "Hangul"
            },
            Script::Hebrew => {
                proof { reveal_strlit("Hebrew"); }
                "Hebrew"
            },
            Script::Hiragana => {
                proof { reveal_strlit("Hiragana"); }
                "Hiragana"
            },
            Script::Javanese => {
                proof { reveal_strlit("Javanese"); }
                "Javanese"
            },
            Script::Kannada => {
                proof { reveal_strlit("Kannada"); }
                "Kannada"
            },
            Script::Katakana => {
                proof { reveal_strlit("Katakana"); }
                "Katakana"
            },
            Script::Khmer => {
                proof { reveal_strlit("Khmer"); }
                "Khmer"
            },
            Script::Lao => {
                proof { reveal_strlit("Lao"); }
                "Lao"
            },
            Script::Latin => {
                proof { reveal_strlit("Latin"); }
                "Latin"
            },
            Script::Malayalam => {
                proof { reveal_strlit("Malayalam"); }
                "Malayalam"
            },
            Script::Mandaic => {
                proof { reveal_strlit("Mandaic"); }
                "Mandaic"
            },
            Script::Manichaean => {
                proof { reveal_strlit("Manichaean"); }
                "Manichaean"
            },
            Script::Mongolian => {
                proof { reveal_strlit("Mongolian"); }
                "Mongolian"
            },
            Script::Myanmar => {
                proof { reveal_strlit("Myanmar"); }
                "Myanmar"
            },
            Script::Nko => {
                proof { reveal_strlit("Nko"); }
                "Nko"
            },
            Script::Oriya => {
                proof { reveal_strlit("Oriya"); }
                "Oriya"
            },
            Script::PhagsPa => {
                proof { reveal_strlit("Phags_Pa"); }
                "Phags_Pa"
            },
            Script::PsalterPahlavi => {
                proof { reveal_strlit("Psalter_Pahlavi"); }
                "Psalter_Pahlavi"
            },
            Script::Sinhala => {
                proof { reveal_strlit("Sinhala"); }
                "Sinhala"
            },
            Script::Syriac => {
                proof { reveal_strlit("Syriac"); }
                "Syriac"
            },
            Script::Tamil => {
                proof { reveal_strlit("Tamil"); }
                "Tamil"
            },
            Script::Telugu => {
                proof { reveal_strlit("Telugu"); }
                "Telugu"
            },
            Script::Thaana => {
                proof { reveal_strlit("Thaana"); }
                "Thaana"
            },
            Script::Thai => {
                proof { reveal_strlit("Thai"); }
                "Thai"
            },
            Script::Tibetan => {
                proof { reveal_strlit("Tibetan"); }
                "Tibetan"
            },
        }
    }

    /// Returns true if the script requires complex shaping.
    pub fn is_complex(self) -> (r: bool)
        ensures
            r == script_complex(self),
    {
        match self {
            Script::Balinese
            | Script::Bengali
            | Script::Devanagari
            | Script::Gujarati
            | Script::Gurmukhi
            | Script::Javanese
            | Script::Kannada
            | Script::Khmer
            | Script::Malayalam
            | Script::Myanmar
            | Script::Oriya
            | Script::Sinhala
            | Script::Tamil
            | Script::Telugu
            | Script::Tibetan => true,
            _ => false,
        }
    }

    /// Returns true if the script has cursive joining.
    pub fn is_joined(self) -> (r: bool)
        ensures
            r == script_joined(self),
    {
        matches!(
            self,
            Script::Arabic
                | Script::Mongolian
                | Script::Syriac
                | Script::Nko
                | Script::PhagsPa
                | Script::Mandaic
                | Script::Manichaean
                | Script::PsalterPahlavi
                | Script::Adlam
        )
    }

    /// Returns the script as an OpenType tag.
    pub fn to_opentype(self) -> (r: u32)
        ensures
            r == script_tag(self),
    {
        match self {
            Script::Common => 0x7a797979,
            Script::Inherited => 0x7a696e68,
            Script::Unknown => 0x7a7a7a7a,
            Script::Adlam => 0x61646c6d,
            Script::Arabic => 0x61726162,
            Script::Armenian => 0x61726d6e,
            Script::Balinese => 0x62616c69,
            Script::Bengali => 0x62656e67,
            Script::Cyrillic => 0x6379726c,
            Script::Devanagari => 0x64657661,
            Script::Ethiopic => 0x65746869,
            Script::Georgian => 0x67656f72,
            Script::Greek => 0x6772656b,
            Script::Gujarati => 0x67756a72,
            Script::Gurmukhi => 0x67757275,
            Script::Han => 0x68616e69,
            Script::Hangul => 0x68616e67,
            Script::Hebrew => 0x68656272,
            Script::Hiragana => 0x6b616e61,
            Script::Javanese => 0x6a617661,
            Script::Kannada => 0x6b6e6461,
            Script::Katakana => 0x6b616e61,
            Script::Khmer => 0x6b686d72,
            Script::Lao => 0x6c616f20,
            Script::Latin => 0x6c61746e,
            Script::Malayalam => 0x6d6c796d,
            Script::Mandaic => 0x6d616e64,
            Script::Manichaean => 0x6d616e69,
            Script::Mongolian => 0x6d6f6e67,
            Script::Myanmar => 0x6d796d72,
            Script::Nko => 0x6e6b6f20,
            Script::Oriya => 0x6f727961,
            Script::PhagsPa => 0x70686167,
            Script::PsalterPahlavi => 0x70686c70,
            Script::Sinhala => 0x73696e68,
            Script::Syriac => 0x73797263,
            Script::Tamil => 0x74616d6c,
            Script::Telugu => 0x74656c75,
            Script::Thaana => 0x74686161,
            Script::Thai => 0x74686169,
            Script::Tibetan => 0x74696274,
        }
    }
}
impl WordBreak {
    /// Position of the class in declaration order.
    pub open spec fn ordinal(self) -> u32 {
        match self {
            WordBreak::Other => 0,
            WordBreak::CR => 1,
            WordBreak::LF => 2,
            WordBreak::Newline => 3,
            WordBreak::Extend => 4,
            WordBreak::ZWJ => 5,
            WordBreak::RegionalIndicator => 6,
            WordBreak::Format => 7,
            WordBreak::Katakana => 8,
            WordBreak::HebrewLetter => 9,
            WordBreak::ALetter => 10,
            WordBreak::SingleQuote => 11,
            WordBreak::DoubleQuote => 12,
            WordBreak::MidNumLet => 13,
            WordBreak::MidLetter => 14,
            WordBreak::MidNum => 15,
            WordBreak::Numeric => 16,
            WordBreak::ExtendNumLet => 17,
            WordBreak::WSegSpace => 18,
        }
    }

    /// Returns the word break class as a 32 bit bitmask.
    pub fn mask(self) -> (r: u32)
        ensures
            r == 1u32 << self.ordinal(),
    {
        match self {
            WordBreak::Other => 1u32 << 0u32,
            WordBreak::CR => 1u32 << 1u32,
            WordBreak::LF => 1u32 << 2u32,
            WordBreak::Newline => 1u32 << 3u32,
            WordBreak::Extend => 1u32 << 4u32,
            WordBreak::ZWJ => 1u32 << 5u32,
            WordBreak::RegionalIndicator => 1u32 << 6u32,
            WordBreak::Format => 1u32 << 7u32,
            WordBreak::Katakana => 1u32 << 8u32,
            WordBreak::HebrewLetter => 1u32 << 9u32,
            WordBreak::ALetter => 1u32 << 10u32,
            WordBreak::SingleQuote => 1u32 << 11u32,
            WordBreak::DoubleQuote => 1u32 << 12u32,
            WordBreak::MidNumLet => 1u32 << 13u32,
            WordBreak::MidLetter => 1u32 << 14u32,
            WordBreak::MidNum => 1u32 << 15u32,
            WordBreak::Numeric => 1u32 << 16u32,
            WordBreak::ExtendNumLet => 1u32 << 17u32,
            WordBreak::WSegSpace => 1u32 << 18u32,
        }
    }
}

impl BidiClass {
    /// Position of the class in declaration order.
    pub open spec fn ordinal(self) -> u32 {
        match self {
            BidiClass::L => 0,
            BidiClass::R => 1,
            BidiClass::AL => 2,
            BidiClass::EN => 3,
            BidiClass::ES => 4,
            BidiClass::ET => 5,
            BidiClass::AN => 6,
            BidiClass::CS => 7,
            BidiClass::NSM => 8,
            BidiClass::BN => 9,
            BidiClass::B => 10,
            BidiClass::S => 11,
            BidiClass::WS => 12,
            BidiClass::ON => 13,
            BidiClass::LRE => 14,
            BidiClass::LRO => 15,
            BidiClass::RLE => 16,
            BidiClass::RLO => 17,
            BidiClass::PDF => 18,
            BidiClass::LRI => 19,
            BidiClass::RLI => 20,
            BidiClass::FSI => 21,
            BidiClass::PDI => 22,
        }
    }

    /// Returns the bidi class as a 32 bit bitmask.
    pub fn mask(self) -> (r: u32)
        ensures
            r == 1u32 << self.ordinal(),
    {
        match self {
            BidiClass::L => 1u32 << 0u32,
            BidiClass::R => 1u32 << 1u32,
            BidiClass::AL => 1u32 << 2u32,
            BidiClass::EN => 1u32 << 3u32,
            BidiClass::ES => 1u32 << 4u32,
            BidiClass::ET => 1u32 << 5u32,
            BidiClass::AN => 1u32 << 6u32,
            BidiClass::CS => 1u32 << 7u32,
            BidiClass::NSM => 1u32 << 8u32,
            BidiClass::BN => 1u32 << 9u32,
            BidiClass::B => 1u32 << 10u32,
            BidiClass::S => 1u32 << 11u32,
            BidiClass::WS => 1u32 << 12u32,
            BidiClass::ON => 1u32 << 13u32,
            BidiClass::LRE => 1u32 << 14u32,
            BidiClass::LRO => 1u32 << 15u32,
            BidiClass::RLE => 1u32 << 16u32,
            BidiClass::RLO => 1u32 << 17u32,
            BidiClass::PDF => 1u32 << 18u32,
            BidiClass::LRI => 1u32 << 19u32,
            BidiClass::RLI => 1u32 << 20u32,
            BidiClass::FSI => 1u32 << 21u32,
            BidiClass::PDI => 1u32 << 22u32,
        }
    }

    /// The classes whose presence calls for bidi resolution: the explicit
    /// embeddings, overrides and isolates, and the right to left classes.
    pub open spec fn spec_needs_resolution(self) -> bool {
        match self {
            BidiClass::RLE | BidiClass::LRE | BidiClass::RLO | BidiClass::LRO | BidiClass::RLI
            | BidiClass::LRI | BidiClass::FSI | BidiClass::R | BidiClass::AL | BidiClass::AN => true,
            _ => false,
        }
    }

    /// Returns true if the presence of this bidi class requires
    /// resolution.
    pub fn needs_resolution(self) -> (r: bool)
        ensures
            r == self.spec_needs_resolution(),
    {
        let m = self.mask();
        let ghost o = self.ordinal();
        proof {
            assert(o < 23);
            assert(forall|k: u32| k < 23 ==> (((1u32 << k) & 0x3bc046u32) != 0 <==> (k == 1
                || k == 2 || k == 6 || k == 14 || k == 15 || k == 16 || k == 17 || k == 19
                || k == 20 || k == 21))) by (bit_vector);
        }
        m & BIDI_RESOLUTION_MASK != 0
    }
}

} // verus!
