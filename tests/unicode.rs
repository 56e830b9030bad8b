use text_analysis::cluster::info::{CharInfo, ClusterInfo, Emoji, Whitespace};
use text_analysis::paragraph::LineBoundary;
use text_analysis::unicode::{
    BidiClass, Block, BracketType, Category, ClusterBreak, JoiningType, LineBreak, MyanmarClass,
    Properties, Record,
    Script, UseClass, WordBreak, BIDI_RESOLUTION_MASK,
};

#[test]
fn script_tags_round_trip() {
    let latn = u32::from_be_bytes(*b"latn");
    assert_eq!(Script::Latin.to_opentype(), latn);
    assert_eq!(Script::from_opentype(latn), Some(Script::Latin));
    assert_eq!(Script::from_opentype(u32::from_be_bytes(*b"mymr")), Some(Script::Myanmar));
    assert_eq!(Script::from_opentype(u32::from_be_bytes(*b"qqqq")), None);
    for s in [Script::Arabic, Script::Devanagari, Script::Myanmar, Script::Nko, Script::Common] {
        assert_eq!(Script::from_opentype(s.to_opentype()), Some(s));
    }
}

#[test]
fn script_names_and_classes() {
    assert_eq!(Script::Latin.name(), "Latin");
    assert_eq!(Script::PhagsPa.name(), "Phags_Pa");
    assert!(Script::Devanagari.is_complex());
    assert!(Script::Myanmar.is_complex());
    assert!(!Script::Latin.is_complex());
    assert!(!Script::Arabic.is_complex());
    assert!(Script::Arabic.is_joined());
    assert!(Script::Adlam.is_joined());
    assert!(!Script::Latin.is_joined());
    assert!(!Script::Devanagari.is_joined());
}

#[test]
fn bidi_masks_and_resolution() {
    assert_eq!(BidiClass::L.mask(), 1);
    assert_eq!(BidiClass::R.mask(), 2);
    assert_eq!(BidiClass::PDI.mask(), 1 << 22);
    assert_eq!(BIDI_RESOLUTION_MASK & BidiClass::AL.mask(), BidiClass::AL.mask());
    assert!(BidiClass::R.needs_resolution());
    assert!(BidiClass::AL.needs_resolution());
    assert!(BidiClass::AN.needs_resolution());
    assert!(BidiClass::RLI.needs_resolution());
    assert!(BidiClass::LRO.needs_resolution());
    assert!(!BidiClass::L.needs_resolution());
    assert!(!BidiClass::EN.needs_resolution());
    assert!(!BidiClass::PDF.needs_resolution());
    assert!(!BidiClass::PDI.needs_resolution());
}

#[test]
fn word_break_masks() {
    assert_eq!(WordBreak::Other.mask(), 1);
    assert_eq!(WordBreak::ALetter.mask(), 1 << 10);
    assert_eq!(WordBreak::WSegSpace.mask(), 1 << 18);
}

#[test]
fn properties_read_their_record() {
    let mut r = Record::default();
    assert_eq!(r.category, Category::Unassigned);
    assert_eq!(r.script, Script::Unknown);
    r.category = Category::NonspacingMark;
    r.script = Script::Bengali;
    r.combining_class = 7;
    r.bidi_class = BidiClass::NSM;
    r.joining_type = JoiningType::T;
    r.cluster_break = ClusterBreak::EX;
    r.word_break = WordBreak::Extend;
    r.line_break = LineBreak::CM;
    r.use_class = UseClass::N;
    r.myanmar_class = MyanmarClass::SM;
    r.is_emoji = true;
    r.is_open_bracket = true;
    r.needs_decomp = true;
    let p = Properties::new(r);
    assert_eq!(p.category(), Category::NonspacingMark);
    assert_eq!(p.script(), Script::Bengali);
    assert_eq!(p.combining_class(), 7);
    assert_eq!(p.bidi_class(), BidiClass::NSM);
    assert_eq!(p.joining_type(), JoiningType::T);
    assert_eq!(p.cluster_break(), ClusterBreak::EX);
    assert_eq!(p.word_break(), WordBreak::Extend);
    assert_eq!(p.line_break(), LineBreak::CM);
    assert!(p.is_emoji());
    assert!(!p.is_extended_pictographic());
    assert!(p.is_open_bracket());
    assert!(!p.is_close_bracket());
    assert!(!p.is_ignorable());
    assert!(!p.is_variation_selector());
    assert!(p.contributes_to_shaping());
    assert_eq!(p.use_class(), (UseClass::N, true, false));
    assert_eq!(p.myanmar_class(), (MyanmarClass::SM, false));
    assert_eq!(p.cluster_class(), (ClusterBreak::EX, false));
    assert_eq!(p.boundary(), 0);
    let q = p.with_boundary(0b1101);
    assert_eq!(q.boundary(), 0b101);
    assert_eq!(q.category(), Category::NonspacingMark);
    let mut m = q;
    m.set_boundary(2);
    assert_eq!(m.boundary(), 2);
    assert_eq!(Properties::default().boundary(), 0);
}

#[test]
fn char_info_packs_boundaries() {
    let p = Properties::new(Record::default());
    for word in [false, true] {
        for line in [LineBoundary::NoBreak, LineBoundary::Soft, LineBoundary::Hard] {
            let info = CharInfo::new(p, word, line);
            assert_eq!(info.is_word_boundary(), word);
            assert_eq!(info.line_boundary(), line);
            assert_eq!(info.properties().category(), Category::Unassigned);
        }
    }
    let info = CharInfo::new(p, true, LineBoundary::Hard);
    assert_eq!(info.properties().boundary(), 0b110);
    let mut r = Record::default();
    r.script = Script::Thai;
    let moved = info.with_properties(Properties::new(r));
    assert_eq!(moved.properties().script(), Script::Thai);
    assert!(moved.is_word_boundary());
    assert_eq!(moved.line_boundary(), LineBoundary::Hard);
    assert!(!CharInfo::default().is_word_boundary());
}

#[test]
fn line_boundary_codes() {
    assert_eq!(LineBoundary::from_raw(0), LineBoundary::NoBreak);
    assert_eq!(LineBoundary::from_raw(1), LineBoundary::Soft);
    assert_eq!(LineBoundary::from_raw(2), LineBoundary::Hard);
    assert_eq!(LineBoundary::from_raw(3), LineBoundary::Hard);
    assert_eq!(LineBoundary::Soft.to_raw(), 1);
}

#[test]
fn cluster_info_bit_layout() {
    let mut info = ClusterInfo::empty();
    assert_eq!(info, ClusterInfo(0));
    info.set_broken();
    assert_eq!(info.0, 1);
    info.set_space(Whitespace::Tab);
    assert_eq!(info.0, 1 | 3 << 1);
    info.set_emoji(Emoji::Color);
    assert_eq!(info.0, 1 | 3 << 1 | 3 << 8);
    info.merge_boundary(0b001);
    info.merge_boundary(0b100);
    assert_eq!(info.0, 1 | 3 << 1 | 3 << 8 | 0b101 << 13);
    assert!(info.is_broken());
    assert_eq!(info.whitespace(), Whitespace::Tab);
    assert_eq!(info.emoji(), Emoji::Color);
    assert!(info.is_word_boundary());
    assert_eq!(info.line_boundary(), LineBoundary::Soft);
    info.set_emoji(Emoji::Text);
    assert_eq!(info.emoji(), Emoji::Text);
    assert!(info.is_broken());
    info.set_space_from_char('\u{a0}');
    assert_eq!(info.whitespace(), Whitespace::NoBreakSpace);
    info.set_space_from_char('q');
    assert_eq!(info.whitespace(), Whitespace::NoBreakSpace);
    info.set_space_from_char(' ');
    assert_eq!(info.whitespace(), Whitespace::Space);
    assert_eq!(Whitespace::from_raw(6), Whitespace::NoSpace);
    assert_eq!(Whitespace::from_raw(5), Whitespace::Other);
    assert_eq!(Emoji::from_raw(1), Emoji::Default);
    assert_eq!(Emoji::Default.to_raw(), 1);
    assert_eq!(Whitespace::Newline.to_raw(), 4);
}

#[test]
fn cluster_info_summary() {
    assert_eq!(ClusterInfo::empty().describe(), "     ");
    let mut info = ClusterInfo::empty();
    info.set_broken();
    info.set_emoji(Emoji::Color);
    info.set_space(Whitespace::Tab);
    info.merge_boundary(0b110);
    assert_eq!(info.describe(), "!CtwL");
    let mut soft = ClusterInfo::empty();
    soft.set_space(Whitespace::Newline);
    soft.set_emoji(Emoji::Text);
    soft.merge_boundary(0b001);
    assert_eq!(soft.describe(), " Tn l");
}

#[test]
fn bracket_type_from_pairs() {
    assert_eq!(BracketType::from_pairs(Some(')'), None), BracketType::Open(')'));
    assert_eq!(BracketType::from_pairs(None, Some('(')), BracketType::Close('('));
    assert_eq!(BracketType::from_pairs(None, None), BracketType::NotBracket);
}

#[test]
fn block_is_read_from_the_record() {
    let mut r = Record::default();
    assert_eq!(r.block, Block(0));
    r.block = Block(42);
    assert_eq!(Properties::new(r).block(), Block(42));
}
