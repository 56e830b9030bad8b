//! Clusters and the rules that delimit and classify them.

use vstd::prelude::*;

use super::char::{char_of, make_char, Char, ShapeClass, SourceChar};
use super::complex::{use_broken, use_class_of, use_continues, use_is_broken, use_joins, use_shape_class};
use super::info::{ClusterInfo, Emoji, Whitespace};
use super::myanmar::{
    my_broken, my_class_of, my_continues, my_is_broken, my_is_kinzi, my_joins, my_kinzi,
    my_shape_class,
};
use super::simple::{simple_class, simple_continues, simple_joins, simple_shape_class};
use crate::unicode::{script_complex, Category, ClusterBreak, MyanmarClass, Script, UseClass};

verus! {

/// The largest number of characters in a cluster. A longer syllable is cut
/// at this size and goes on in the next cluster.
pub const MAX_CLUSTER_SIZE: usize = 32;

/// Shaping cluster: its characters in logical order and its information.
#[derive(Clone, Debug)]
pub struct Cluster {
    pub chars: Vec<Char>,
    pub info: ClusterInfo,
}

impl Cluster {
    /// Returns the characters of the cluster.
    pub fn chars(&self) -> (r: &Vec<Char>)
        ensures
            r@ == self.chars@,
    {
        &self.chars
    }

    /// Returns the information of the cluster.
    pub fn info(&self) -> (r: ClusterInfo)
        ensures
            r == self.info,
    {
        self.info
    }

    /// Returns the number of characters in the cluster.
    pub fn len(&self) -> (r: usize)
        ensures
            r == self.chars@.len(),
    {
        self.chars.len()
    }
}

/// The engine that delimits and classifies clusters of a script.
#[derive(Copy, Clone, PartialEq, Eq, Structural, Debug)]
pub enum Engine {
    /// Grapheme clusters.
    Simple,
    /// Syllables of Indic style scripts.
    Complex,
    /// Syllables of Myanmar.
    Myanmar,
}

/// Complex scripts go to a syllable engine, Myanmar to its own; all others
/// to the grapheme segmenter.
pub open spec fn engine_for(script: Script) -> Engine {
    if script_complex(script) {
        if script == Script::Myanmar {
            Engine::Myanmar
        } else {
            Engine::Complex
        }
    } else {
        Engine::Simple
    }
}

/// Returns the engine for `script`.
pub fn select_engine(script: Script) -> (r: Engine)
    ensures
        r == engine_for(script),
{
    if script.is_complex() {
        if script == Script::Myanmar {
            Engine::Myanmar
        } else {
            Engine::Complex
        }
    } else {
        Engine::Simple
    }
}

/// A carriage return followed by a line feed: one newline in every engine.
pub open spec fn is_crlf(prev: SourceChar, cur: SourceChar) -> bool {
    prev.rec().cluster_break == ClusterBreak::CR && cur.rec().cluster_break == ClusterBreak::LF
}

/// True if `s[j]` belongs to the cluster that starts at `start` and holds
/// `s[start..j]`.
pub open spec fn joins(e: Engine, s: Seq<SourceChar>, start: int, j: int) -> bool {
    let prev = s[j - 1];
    let cur = s[j];
    is_crlf(prev, cur) || match e {
        Engine::Simple => simple_joins(prev, cur, j == start + 1),
        Engine::Complex => use_joins(prev, cur, j == start + 1),
        Engine::Myanmar => my_joins(prev, cur),
    }
}

/// The end of the cluster that starts at `start`, which holds `s[start..j]`
/// so far: it grows while the next character joins and the size limit is
/// not reached.
pub open spec fn extent(e: Engine, s: Seq<SourceChar>, start: int, j: int) -> int
    decreases s.len() - j,
{
    if start < j < s.len() && j - start < MAX_CLUSTER_SIZE && joins(e, s, start, j) {
        extent(e, s, start, j + 1)
    } else {
        j
    }
}

/// The end of the cluster that starts at `start`.
pub open spec fn cluster_end(e: Engine, s: Seq<SourceChar>, start: int) -> int {
    extent(e, s, start, start + 1)
}

/// True if the cluster at `start` opens with a kinzi prefix.
pub open spec fn kinzi_at(s: Seq<SourceChar>, start: int) -> bool {
    start + 3 < s.len() && my_kinzi(s[start], s[start + 1], s[start + 2], s[start + 3])
}

/// The shaping class of `s[j]` in the cluster that starts at `start`.
pub open spec fn class_at(e: Engine, s: Seq<SourceChar>, start: int, j: int) -> ShapeClass {
    match e {
        Engine::Simple => simple_class(s[j]),
        Engine::Complex => use_class_of(
            s[j],
            j > start && s[j - 1].rec().use_class == UseClass::H,
        ),
        Engine::Myanmar => if kinzi_at(s, start) && j < start + 3 {
            ShapeClass::Kinzi
        } else if kinzi_at(s, start) && j == start + 3 {
            ShapeClass::Base
        } else {
            my_class_of(s[j], j > start && s[j - 1].rec().myanmar_class == MyanmarClass::H)
        },
    }
}

/// True if the cluster at `start` misses its base.
pub open spec fn broken_at(e: Engine, s: Seq<SourceChar>, start: int) -> bool {
    match e {
        Engine::Simple => false,
        Engine::Complex => use_broken(s[start], start + 1 < s.len(), s[start + 1]),
        Engine::Myanmar => my_broken(s[start]),
    }
}

/// The whitespace kind of a cluster that starts with `c`.
pub open spec fn space_of(c: SourceChar) -> Whitespace {
    let b = c.rec().cluster_break;
    if b == ClusterBreak::CR || b == ClusterBreak::LF {
        Whitespace::Newline
    } else if c.ch == ' ' {
        Whitespace::Space
    } else if c.ch == '\u{a0}' {
        Whitespace::NoBreakSpace
    } else if c.ch == '\t' {
        Whitespace::Tab
    } else if c.rec().category == Category::SpaceSeparator {
        Whitespace::Other
    } else {
        Whitespace::NoSpace
    }
}

/// The emoji presentation of the cluster `s[start..end]`: none unless its
/// first character is an emoji; a text or an emoji presentation selector
/// right after it overrides its default presentation.
pub open spec fn emoji_of(s: Seq<SourceChar>, start: int, end: int) -> Emoji {
    if !s[start].rec().is_emoji {
        Emoji::NoEmoji
    } else if end > start + 1 && s[start + 1].ch == '\u{fe0e}' {
        Emoji::Text
    } else if end > start + 1 && s[start + 1].ch == '\u{fe0f}' {
        Emoji::Color
    } else {
        Emoji::Default
    }
}

/// The bitwise OR of the boundary bits of the characters of `seg`.
pub open spec fn or_bounds(seg: Seq<SourceChar>) -> u16
    decreases seg.len(),
{
    if seg.len() == 0 {
        0
    } else {
        or_bounds(seg.drop_last()) | seg.last().info.0.bound()
    }
}

/// `c` is the cluster that engine `e` builds at `start` of `s`.
pub open spec fn cluster_matches(e: Engine, s: Seq<SourceChar>, start: int, c: Cluster) -> bool {
    let end = cluster_end(e, s, start);
    &&& c.chars@.len() == end - start
    &&& forall|i: int|
        0 <= i < end - start ==> #[trigger] c.chars@[i] == char_of(
            s[start + i],
            class_at(e, s, start, start + i),
        )
    &&& c.info.broken() == broken_at(e, s, start)
    &&& c.info.spec_whitespace() == space_of(s[start])
    &&& c.info.spec_emoji() == emoji_of(s, start, end)
    &&& c.info.bound() == or_bounds(s.subrange(start, end))
}

/// Every cluster holds at least one and at most `MAX_CLUSTER_SIZE`
/// characters, and never runs past the input.
pub proof fn lemma_extent_bounds(e: Engine, s: Seq<SourceChar>, start: int, j: int)
    requires
        0 <= start < j <= s.len(),
        j - start <= MAX_CLUSTER_SIZE,
    ensures
        j <= extent(e, s, start, j) <= s.len(),
        extent(e, s, start, j) - start <= MAX_CLUSTER_SIZE,
    decreases s.len() - j,
{
    if j < s.len() && j - start < MAX_CLUSTER_SIZE && joins(e, s, start, j) {
        lemma_extent_bounds(e, s, start, j + 1);
    }
}

fn continues(e: Engine, s: &Vec<SourceChar>, start: usize, j: usize) -> (r: bool)
    requires
        start < j < s@.len(),
    ensures
        r == joins(e, s@, start as int, j as int),
{
    let prev = &s[j - 1];
    let cur = &s[j];
    if prev.info.0.record.cluster_break == ClusterBreak::CR && cur.info.0.record.cluster_break
        == ClusterBreak::LF {
        return true;
    }
    match e {
        Engine::Simple => simple_continues(prev, cur, j == start + 1),
        Engine::Complex => use_continues(prev, cur, j == start + 1),
        Engine::Myanmar => my_continues(prev, cur),
    }
}

fn shape_at(e: Engine, s: &Vec<SourceChar>, start: usize, j: usize, kinzi: bool) -> (r:
    ShapeClass)
    requires
        start <= j < s@.len(),
        kinzi == kinzi_at(s@, start as int),
    ensures
        r == class_at(e, s@, start as int, j as int),
{
    match e {
        Engine::Simple => simple_shape_class(&s[j]),
        Engine::Complex => {
            let after = j > start && s[j - 1].info.0.record.use_class == UseClass::H;
            use_shape_class(&s[j], after)
        },
        Engine::Myanmar => {
            if kinzi && j - start < 3 {
                ShapeClass::Kinzi
            } else if kinzi && j - start == 3 {
                ShapeClass::Base
            } else {
                let after = j > start && s[j - 1].info.0.record.myanmar_class == MyanmarClass::H;
                my_shape_class(&s[j], after)
            }
        },
    }
}

fn is_broken_at(e: Engine, s: &Vec<SourceChar>, start: usize) -> (r: bool)
    requires
        start < s@.len(),
    ensures
        r == broken_at(e, s@, start as int),
{
    match e {
        Engine::Simple => false,
        Engine::Complex => {
            if s.len() - start > 1 {
                use_is_broken(&s[start], Some(&s[start + 1]))
            } else {
                use_is_broken(&s[start], None)
            }
        },
        Engine::Myanmar => my_is_broken(&s[start]),
    }
}

fn emoji_at(s: &Vec<SourceChar>, start: usize, end: usize) -> (r: Emoji)
    requires
        start < end <= s@.len(),
    ensures
        r == emoji_of(s@, start as int, end as int),
{
    if !s[start].info.0.record.is_emoji {
        Emoji::NoEmoji
    } else if end > start + 1 && s[start + 1].ch == '\u{fe0e}' {
        Emoji::Text
    } else if end > start + 1 && s[start + 1].ch == '\u{fe0f}' {
        Emoji::Color
    } else {
        Emoji::Default
    }
}

/// Sets the whitespace kind of `info` for a cluster that starts with `c`.
fn set_space_of(info: &mut ClusterInfo, c: &SourceChar)
    ensures
        final(info).spec_whitespace() == space_of(*c),
        final(info).broken() == old(info).broken(),
        final(info).emoji_bits() == old(info).emoji_bits(),
        final(info).bound() == old(info).bound(),
{
    let b = c.info.0.record.cluster_break;
    if b == ClusterBreak::CR || b == ClusterBreak::LF {
        info.set_space(Whitespace::Newline);
    } else {
        if c.info.0.record.category == Category::SpaceSeparator {
            info.set_space(Whitespace::Other);
        } else {
            info.set_space(Whitespace::NoSpace);
        }
        info.set_space_from_char(c.ch);
        proof {
            let v = info.space_bits();
            assert(v < 8 ==> v & 7 == v) by (bit_vector);
            assert(v == 0 || v == 1 || v == 2 || v == 3 || v == 5);
        }
    }
}

/// Builds the cluster that engine `e` delimits at `start` of `s`.
pub fn build_cluster(e: Engine, s: &Vec<SourceChar>, start: usize) -> (r: Cluster)
    requires
        start < s@.len(),
    ensures
        cluster_matches(e, s@, start as int, r),
{
    let len = s.len();
    let kinzi = len - start > 3 && my_is_kinzi(
        &s[start],
        &s[start + 1],
        &s[start + 2],
        &s[start + 3],
    );
    let mut chars: Vec<Char> = Vec::new();
    let mut info = ClusterInfo::empty();
    let mut j: usize = start;
    proof {
        assert(s@.subrange(start as int, start as int) =~= Seq::<SourceChar>::empty());
    }
    loop
        invariant
            len == s@.len(),
            start < s@.len(),
            start <= j <= s@.len(),
            j - start <= MAX_CLUSTER_SIZE,
            kinzi == kinzi_at(s@, start as int),
            j > start ==> extent(e, s@, start as int, j as int) == cluster_end(
                e,
                s@,
                start as int,
            ),
            chars@.len() == j - start,
            forall|i: int|
                0 <= i < j - start ==> #[trigger] chars@[i] == char_of(
                    s@[start + i],
                    class_at(e, s@, start as int, start + i),
                ),
            info.bound() == or_bounds(s@.subrange(start as int, j as int)),
            !info.broken(),
            info.space_bits() == 0,
            info.emoji_bits() == 0,
        ensures
            start < j,
            extent(e, s@, start as int, j as int) == j,
        decreases s@.len() - j,
    {
        if j > start {
            if j >= s.len() || j - start >= MAX_CLUSTER_SIZE {
                break;
            }
            if !continues(e, s, start, j) {
                break;
            }
        }
        let class = shape_at(e, s, start, j, kinzi);
        let c = make_char(&s[j], class);
        chars.push(c);
        let b = s[j].info.0.boundary();
        info.merge_boundary(b);
        proof {
            assert(s@.subrange(start as int, j + 1).drop_last() =~= s@.subrange(
                start as int,
                j as int,
            ));
        }
        j = j + 1;
    }
    if is_broken_at(e, s, start) {
        info.set_broken();
    }
    set_space_of(&mut info, &s[start]);
    let emoji = emoji_at(s, start, j);
    info.set_emoji(emoji);
    Cluster { chars, info }
}

} // verus!
