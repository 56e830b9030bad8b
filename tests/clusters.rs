use text_analysis::cluster::char::{Char, ShapeClass, SourceChar};
use text_analysis::cluster::cluster::{Cluster, MAX_CLUSTER_SIZE};
use text_analysis::cluster::info::{CharInfo, ClusterInfo, Emoji, Whitespace};
use text_analysis::cluster::parse::{clusters, Parser};
use text_analysis::paragraph::LineBoundary;
use text_analysis::unicode::{
    Category, ClusterBreak, MyanmarClass, Properties, Record, Script, UseClass,
};

fn source(ch: char, offset: usize, record: Record, word: bool, line: LineBoundary) -> SourceChar {
    SourceChar {
        ch,
        offset,
        len: 1,
        info: CharInfo::new(Properties::new(record), word, line),
        data: offset as u32 + 100,
    }
}

fn plain(ch: char, offset: usize) -> SourceChar {
    let mut r = Record::default();
    r.category = Category::LowercaseLetter;
    r.script = Script::Latin;
    source(ch, offset, r, false, LineBoundary::NoBreak)
}

fn with_break(ch: char, offset: usize, b: ClusterBreak) -> SourceChar {
    let mut r = Record::default();
    r.cluster_break = b;
    if b == ClusterBreak::CN || b == ClusterBreak::CR || b == ClusterBreak::LF {
        r.category = Category::Control;
    }
    source(ch, offset, r, false, LineBoundary::NoBreak)
}

fn mark(ch: char, offset: usize) -> SourceChar {
    let mut r = Record::default();
    r.cluster_break = ClusterBreak::EX;
    r.combining_class = 230;
    r.category = Category::NonspacingMark;
    source(ch, offset, r, false, LineBoundary::NoBreak)
}

fn indic(ch: char, offset: usize, c: UseClass) -> SourceChar {
    let mut r = Record::default();
    r.script = Script::Devanagari;
    r.use_class = c;
    source(ch, offset, r, false, LineBoundary::NoBreak)
}

fn myanmar(ch: char, offset: usize, c: MyanmarClass) -> SourceChar {
    let mut r = Record::default();
    r.script = Script::Myanmar;
    r.myanmar_class = c;
    source(ch, offset, r, false, LineBoundary::NoBreak)
}

fn text_of(cs: &[Cluster]) -> Vec<char> {
    cs.iter().flat_map(|c| c.chars().iter().map(|x| x.ch)).collect()
}

fn classes(c: &Cluster) -> Vec<ShapeClass> {
    c.chars().iter().map(|x| x.shape_class).collect()
}

#[test]
fn ascii_text_gives_single_character_clusters() {
    let input = vec![plain('c', 0), plain('a', 1), plain('t', 2)];
    let cs = clusters(Script::Latin, input);
    assert_eq!(cs.len(), 3);
    for (i, c) in cs.iter().enumerate() {
        assert_eq!(c.len(), 1);
        assert_eq!(c.chars()[0].ch, ['c', 'a', 't'][i]);
        assert_eq!(c.chars()[0].shape_class, ShapeClass::Base);
        assert_eq!(c.info(), ClusterInfo(0));
        assert!(!c.info().is_broken());
        assert!(!c.info().is_emoji());
        assert!(!c.info().is_whitespace());
        assert!(!c.info().is_boundary());
    }
}

#[test]
fn crlf_is_one_newline_cluster() {
    let input = vec![
        plain('a', 0),
        with_break('\r', 1, ClusterBreak::CR),
        with_break('\n', 2, ClusterBreak::LF),
        plain('b', 3),
    ];
    let cs = clusters(Script::Latin, input);
    assert_eq!(cs.len(), 3);
    assert_eq!(text_of(&cs[0..1]), vec!['a']);
    assert_eq!(text_of(&cs[1..2]), vec!['\r', '\n']);
    assert_eq!(cs[1].info().whitespace(), Whitespace::Newline);
    assert!(cs[1].info().is_whitespace());
    assert_eq!(text_of(&cs[2..3]), vec!['b']);
    assert_eq!(cs[0].info().whitespace(), Whitespace::NoSpace);
}

#[test]
fn lone_line_feed_and_carriage_return_are_newlines() {
    let input = vec![
        with_break('\n', 0, ClusterBreak::LF),
        with_break('\r', 1, ClusterBreak::CR),
        plain('z', 2),
    ];
    let cs = clusters(Script::Latin, input);
    assert_eq!(cs.len(), 3);
    assert_eq!(cs[0].info().whitespace(), Whitespace::Newline);
    assert_eq!(cs[1].info().whitespace(), Whitespace::Newline);
}

#[test]
fn crlf_folds_in_complex_scripts_too() {
    let input = vec![
        with_break('\r', 0, ClusterBreak::CR),
        with_break('\n', 1, ClusterBreak::LF),
    ];
    let cs = clusters(Script::Devanagari, input);
    assert_eq!(cs.len(), 1);
    assert_eq!(cs[0].info().whitespace(), Whitespace::Newline);
}

#[test]
fn spaces_are_classified() {
    let mut sp = Record::default();
    sp.category = Category::SpaceSeparator;
    let mut tab = Record::default();
    tab.category = Category::Control;
    tab.cluster_break = ClusterBreak::CN;
    let input = vec![
        source(' ', 0, sp, false, LineBoundary::NoBreak),
        source('\u{a0}', 1, sp, false, LineBoundary::NoBreak),
        source('\t', 2, tab, false, LineBoundary::NoBreak),
        source('\u{2003}', 3, sp, false, LineBoundary::NoBreak),
    ];
    let cs = clusters(Script::Common, input);
    assert_eq!(cs.len(), 4);
    assert_eq!(cs[0].info().whitespace(), Whitespace::Space);
    assert_eq!(cs[1].info().whitespace(), Whitespace::NoBreakSpace);
    assert_eq!(cs[2].info().whitespace(), Whitespace::Tab);
    assert_eq!(cs[2].chars()[0].shape_class, ShapeClass::Control);
    assert_eq!(cs[3].info().whitespace(), Whitespace::Other);
    assert!(cs[0].info().whitespace().is_space_or_nbsp());
    assert!(cs[1].info().whitespace().is_space_or_nbsp());
    assert!(!cs[2].info().whitespace().is_space_or_nbsp());
}

fn emoji_base(ch: char, offset: usize) -> SourceChar {
    let mut r = Record::default();
    r.is_emoji = true;
    r.is_extended_pictographic = true;
    r.category = Category::OtherSymbol;
    source(ch, offset, r, false, LineBoundary::NoBreak)
}

fn selector(ch: char, offset: usize) -> SourceChar {
    let mut r = Record::default();
    r.cluster_break = ClusterBreak::EX;
    r.is_variation_selector = true;
    r.is_ignorable = true;
    r.category = Category::NonspacingMark;
    source(ch, offset, r, false, LineBoundary::NoBreak)
}

#[test]
fn emoji_with_text_selector() {
    let input = vec![emoji_base('\u{2764}', 0), selector('\u{fe0e}', 3)];
    let cs = clusters(Script::Common, input);
    assert_eq!(cs.len(), 1);
    let info = cs[0].info();
    assert!(info.is_emoji());
    assert_eq!(info.emoji(), Emoji::Text);
    let vs = cs[0].chars()[1];
    assert_eq!(vs.ch, '\u{fe0e}');
    assert!(vs.ignorable);
    assert!(!vs.contributes_to_shaping);
    assert_eq!(vs.shape_class, ShapeClass::Vs);
}

#[test]
fn emoji_with_color_selector_and_alone() {
    let cs = clusters(Script::Common, vec![emoji_base('\u{2764}', 0), selector('\u{fe0f}', 3)]);
    assert_eq!(cs.len(), 1);
    assert_eq!(cs[0].info().emoji(), Emoji::Color);
    let cs = clusters(Script::Common, vec![emoji_base('\u{1f600}', 0)]);
    assert_eq!(cs[0].info().emoji(), Emoji::Default);
    assert!(cs[0].info().is_emoji());
    let cs = clusters(Script::Common, vec![plain('q', 0)]);
    assert_eq!(cs[0].info().emoji(), Emoji::NoEmoji);
}

#[test]
fn zwj_sequence_is_one_cluster() {
    let mut zwj = Record::default();
    zwj.cluster_break = ClusterBreak::ZWJ;
    zwj.is_ignorable = true;
    let input = vec![
        emoji_base('\u{1f468}', 0),
        source('\u{200d}', 4, zwj, false, LineBoundary::NoBreak),
        emoji_base('\u{1f469}', 7),
    ];
    let cs = clusters(Script::Common, input);
    assert_eq!(cs.len(), 1);
    assert_eq!(classes(&cs[0]), vec![ShapeClass::Base, ShapeClass::Zwj, ShapeClass::Base]);
}

#[test]
fn malformed_indic_vowel_sign_is_broken() {
    let input = vec![indic('\u{93f}', 0, UseClass::VPre), indic('\u{915}', 3, UseClass::B)];
    let cs = clusters(Script::Devanagari, input);
    assert_eq!(cs.len(), 2);
    assert_eq!(text_of(&cs[0..1]), vec!['\u{93f}']);
    assert!(cs[0].info().is_broken());
    assert!(!cs[1].info().is_broken());
    assert_eq!(classes(&cs[0]), vec![ShapeClass::VPre]);
}

#[test]
fn indic_syllable_with_conjunct() {
    let input = vec![
        indic('\u{915}', 0, UseClass::B),
        indic('\u{94d}', 3, UseClass::H),
        indic('\u{937}', 6, UseClass::B),
        indic('\u{93f}', 9, UseClass::VPre),
        indic('\u{902}', 12, UseClass::VM),
        indic('\u{915}', 15, UseClass::B),
    ];
    let cs = clusters(Script::Devanagari, input);
    assert_eq!(cs.len(), 2);
    assert_eq!(
        classes(&cs[0]),
        vec![
            ShapeClass::Base,
            ShapeClass::Halant,
            ShapeClass::MedialRa,
            ShapeClass::VPre,
            ShapeClass::Anusvara
        ]
    );
    assert!(!cs[0].info().is_broken());
    assert_eq!(classes(&cs[1]), vec![ShapeClass::Base]);
}

#[test]
fn repha_before_base_and_alone() {
    let cs = clusters(
        Script::Javanese,
        vec![indic('\u{a982}', 0, UseClass::R), indic('\u{a98f}', 3, UseClass::B)],
    );
    assert_eq!(cs.len(), 1);
    assert_eq!(classes(&cs[0]), vec![ShapeClass::Reph, ShapeClass::Base]);
    assert!(!cs[0].info().is_broken());
    let cs = clusters(Script::Javanese, vec![indic('\u{a982}', 0, UseClass::R)]);
    assert_eq!(cs.len(), 1);
    assert!(cs[0].info().is_broken());
}

#[test]
fn myanmar_kinzi_is_kept_before_base() {
    let input = vec![
        myanmar('\u{1004}', 0, MyanmarClass::C),
        myanmar('\u{103a}', 3, MyanmarClass::As),
        myanmar('\u{1039}', 6, MyanmarClass::H),
        myanmar('\u{1000}', 9, MyanmarClass::C),
        myanmar('\u{102c}', 12, MyanmarClass::V),
    ];
    let cs = clusters(Script::Myanmar, input);
    assert_eq!(cs.len(), 1);
    assert_eq!(
        classes(&cs[0]),
        vec![
            ShapeClass::Kinzi,
            ShapeClass::Kinzi,
            ShapeClass::Kinzi,
            ShapeClass::Base,
            ShapeClass::Mark
        ]
    );
    assert!(!cs[0].info().is_broken());
    let offsets: Vec<usize> = cs[0].chars().iter().map(|c| c.offset).collect();
    assert_eq!(offsets, vec![0, 3, 6, 9, 12]);
}

#[test]
fn myanmar_sign_without_base_is_broken() {
    let input = vec![myanmar('\u{1031}', 0, MyanmarClass::VPre), myanmar('\u{1000}', 3, MyanmarClass::C)];
    let cs = clusters(Script::Myanmar, input);
    assert_eq!(cs.len(), 2);
    assert!(cs[0].info().is_broken());
    assert!(!cs[1].info().is_broken());
}

#[test]
fn every_character_comes_out_once_in_order() {
    let input = vec![
        plain('x', 0),
        mark('\u{301}', 1),
        mark('\u{302}', 3),
        with_break('\r', 5, ClusterBreak::CR),
        with_break('\n', 6, ClusterBreak::LF),
        plain('y', 7),
        emoji_base('\u{2764}', 8),
        selector('\u{fe0f}', 11),
    ];
    let expected: Vec<(char, usize, u32)> = input.iter().map(|s| (s.ch, s.offset, s.data)).collect();
    let cs = clusters(Script::Latin, input);
    let got: Vec<(char, usize, u32)> = cs
        .iter()
        .flat_map(|c| c.chars().iter().map(|x| (x.ch, x.offset, x.data)))
        .collect();
    assert_eq!(got, expected);
    assert_eq!(cs.len(), 4);
    assert_eq!(classes(&cs[0]), vec![ShapeClass::Base, ShapeClass::Mark, ShapeClass::Mark]);
}

#[test]
fn long_cluster_is_cut_at_the_limit() {
    let mut input = vec![plain('e', 0)];
    for i in 1..40 {
        input.push(mark('\u{301}', i));
    }
    let cs = clusters(Script::Latin, input);
    assert_eq!(MAX_CLUSTER_SIZE, 32);
    assert_eq!(cs.len(), 2);
    assert_eq!(cs[0].len(), MAX_CLUSTER_SIZE);
    assert_eq!(cs[1].len(), 40 - MAX_CLUSTER_SIZE);
    assert!(!cs[1].info().is_broken());
    for c in &cs {
        assert!(c.len() >= 1 && c.len() <= MAX_CLUSTER_SIZE);
    }
}

#[test]
fn empty_input_gives_no_cluster() {
    let mut p = Parser::new(Script::Latin, vec![]);
    assert!(p.is_done());
    assert!(p.next().is_none());
    assert!(clusters(Script::Myanmar, vec![]).is_empty());
}

#[test]
fn parser_yields_clusters_one_at_a_time() {
    let mut p = Parser::new(Script::Latin, vec![plain('o', 0), mark('\u{308}', 1), plain('k', 3)]);
    let a = p.next().unwrap();
    assert_eq!(a.len(), 2);
    assert_eq!(p.pos, 2);
    let b = p.next().unwrap();
    assert_eq!(b.chars()[0].ch, 'k');
    assert!(p.next().is_none());
    assert!(p.next().is_none());
}

#[test]
fn cluster_boundary_merges_its_characters() {
    let mut r = Record::default();
    r.cluster_break = ClusterBreak::XX;
    let mut m = Record::default();
    m.cluster_break = ClusterBreak::EX;
    let input = vec![
        source('a', 0, r, false, LineBoundary::Soft),
        source('\u{301}', 1, m, true, LineBoundary::Hard),
        source('b', 2, r, false, LineBoundary::NoBreak),
    ];
    let cs = clusters(Script::Latin, input);
    assert_eq!(cs.len(), 2);
    assert!(cs[0].info().is_word_boundary());
    assert_eq!(cs[0].info().line_boundary(), LineBoundary::Hard);
    assert!(cs[0].info().is_boundary());
    assert!(!cs[1].info().is_word_boundary());
    assert_eq!(cs[1].info().line_boundary(), LineBoundary::NoBreak);
    assert!(!cs[1].info().is_boundary());
    let cs = clusters(Script::Latin, vec![source('c', 0, r, false, LineBoundary::Soft)]);
    assert_eq!(cs[0].info().line_boundary(), LineBoundary::Soft);
}

#[test]
fn segmenting_the_output_again_keeps_boundaries() {
    let input = vec![
        plain('x', 0),
        mark('\u{301}', 1),
        plain('y', 3),
        with_break('\r', 4, ClusterBreak::CR),
        with_break('\n', 5, ClusterBreak::LF),
        plain('z', 6),
        mark('\u{302}', 7),
        mark('\u{303}', 9),
    ];
    let first = clusters(Script::Latin, input.clone());
    let flat: Vec<Char> = first.iter().flat_map(|c| c.chars().iter().copied()).collect();
    let again: Vec<SourceChar> = flat
        .iter()
        .zip(input.iter())
        .map(|(c, s)| SourceChar { ch: c.ch, offset: c.offset, len: s.len, info: s.info, data: c.data })
        .collect();
    let second = clusters(Script::Latin, again);
    let lens = |cs: &[Cluster]| cs.iter().map(|c| c.len()).collect::<Vec<_>>();
    assert_eq!(lens(&first), lens(&second));
    assert_eq!(lens(&first), vec![2, 1, 2, 3]);
}

#[test]
fn hangul_jamo_form_one_cluster() {
    let input = vec![
        with_break('\u{1100}', 0, ClusterBreak::L),
        with_break('\u{1161}', 3, ClusterBreak::V),
        with_break('\u{11a8}', 6, ClusterBreak::T),
        with_break('\u{ac00}', 9, ClusterBreak::LV),
    ];
    let cs = clusters(Script::Hangul, input);
    assert_eq!(cs.len(), 2);
    assert_eq!(cs[0].len(), 3);
}

#[test]
fn regional_indicators_pair_up() {
    let input = vec![
        with_break('\u{1f1fa}', 0, ClusterBreak::RI),
        with_break('\u{1f1f8}', 4, ClusterBreak::RI),
        with_break('\u{1f1eb}', 8, ClusterBreak::RI),
    ];
    let cs = clusters(Script::Common, input);
    assert_eq!(cs.len(), 2);
    assert_eq!(cs[0].len(), 2);
    assert_eq!(cs[1].len(), 1);
}

#[test]
fn output_char_carries_properties() {
    let mut r = Record::default();
    r.joining_type = text_analysis::unicode::JoiningType::D;
    r.script = Script::Arabic;
    let cs = clusters(Script::Arabic, vec![source('\u{628}', 5, r, false, LineBoundary::NoBreak)]);
    let c = cs[0].chars()[0];
    assert_eq!(c.joining_type, text_analysis::unicode::JoiningType::D);
    assert_eq!(c.offset, 5);
    assert_eq!(c.data, 105);
    assert_eq!(c.glyph_id, 0);
    assert!(c.contributes_to_shaping);
    assert!(!c.ignorable);
}

