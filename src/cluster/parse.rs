//! The cluster parser: a cursor over a run of characters of one script that
//! yields one cluster at a time.

use vstd::prelude::*;

use super::char::{char_of, Char, ShapeClass, SourceChar};
use super::cluster::{
    build_cluster, class_at, cluster_end, cluster_matches, emoji_of, engine_for, extent, joins,
    kinzi_at, lemma_extent_bounds, or_bounds, select_engine, space_of, Cluster, Engine, MAX_CLUSTER_SIZE,
};
use super::complex::{use_class_of, use_is_base, use_joins};
use super::myanmar::{my_is_base, my_joins};
use crate::paragraph::LineBoundary;
use crate::unicode::{ClusterBreak, MyanmarClass, Script, UseClass};

verus! {

/// Parser over the characters of a run of one script. The caller splits
/// text into runs of one script before it builds a parser.
pub struct Parser {
    /// The engine chosen for the script of the run.
    pub engine: Engine,
    /// The characters of the run.
    pub chars: Vec<SourceChar>,
    /// Index of the first character that no cluster has taken yet.
    pub pos: usize,
}

impl Parser {
    /// Creates a parser for a run of `script` made of `chars`.
    pub fn new(script: Script, chars: Vec<SourceChar>) -> (r: Parser)
        ensures
            r.engine == engine_for(script),
            r.chars@ == chars@,
            r.pos == 0,
    {
        Parser { engine: select_engine(script), chars, pos: 0 }
    }

    /// Returns true when every character has been taken into a cluster.
    pub fn is_done(&self) -> (r: bool)
        ensures
            r == (self.pos >= self.chars@.len()),
    {
        self.pos >= self.chars.len()
    }

    /// Returns the next cluster, or `None` once the input is exhausted.
    pub fn next(&mut self) -> (r: Option<Cluster>)
        ensures
            final(self).engine == old(self).engine,
            final(self).chars@ == old(self).chars@,
            old(self).pos >= old(self).chars@.len() ==> r.is_none() && final(self).pos == old(
                self,
            ).pos,
            old(self).pos < old(self).chars@.len() ==> {
                &&& r.is_some()
                &&& cluster_matches(
                    old(self).engine,
                    old(self).chars@,
                    old(self).pos as int,
                    r.unwrap(),
                )
                &&& 1 <= r.unwrap().chars@.len() <= MAX_CLUSTER_SIZE
                &&& final(self).pos == cluster_end(
                    old(self).engine,
                    old(self).chars@,
                    old(self).pos as int,
                )
            },
    {
        if self.pos >= self.chars.len() {
            return None;
        }
        let c = build_cluster(self.engine, &self.chars, self.pos);
        proof {
            lemma_extent_bounds(self.engine, self.chars@, self.pos as int, self.pos + 1);
        }
        self.pos = self.pos + c.len();
        Some(c)
    }
}

/// The characters of `cs` one after another.
pub open spec fn flat(cs: Seq<Cluster>) -> Seq<Char>
    decreases cs.len(),
{
    if cs.len() == 0 {
        Seq::empty()
    } else {
        flat(cs.drop_last()) + cs.last().chars@
    }
}

/// The index in the input of the first character of cluster `k` of `cs`.
pub open spec fn start_of(cs: Seq<Cluster>, k: int) -> int {
    flat(cs.take(k)).len() as int
}

/// `out` holds the input characters `s` in order: the same characters at
/// the same offsets with the same user data, none dropped, none repeated.
pub open spec fn carries(out: Seq<Char>, s: Seq<SourceChar>) -> bool {
    &&& out.len() == s.len()
    &&& forall|i: int|
        0 <= i < s.len() ==> (#[trigger] out[i]).ch == s[i].ch && out[i].offset == s[i].offset
            && out[i].data == s[i].data
}

/// `cs` is the segmentation of `s` by engine `e`: each cluster is the one
/// that the engine builds where the clusters before it end, and together
/// they cover the input.
pub open spec fn segmented(e: Engine, s: Seq<SourceChar>, cs: Seq<Cluster>) -> bool {
    &&& flat(cs).len() == s.len()
    &&& forall|k: int|
        0 <= k < cs.len() ==> cluster_matches(e, s, start_of(cs, k), #[trigger] cs[k])
}

/// Splits a run of `script` made of `chars` into clusters.
pub fn clusters(script: Script, chars: Vec<SourceChar>) -> (r: Vec<Cluster>)
    ensures
        segmented(engine_for(script), chars@, r@),
        carries(flat(r@), chars@),
        forall|k: int|
            0 <= k < r@.len() ==> 1 <= (#[trigger] r@[k]).chars@.len() <= MAX_CLUSTER_SIZE,
{
    let ghost s = chars@;
    let mut parser = Parser::new(script, chars);
    let ghost e = parser.engine;
    let mut out: Vec<Cluster> = Vec::new();
    loop
        invariant
            parser.engine == e,
            e == engine_for(script),
            parser.chars@ == s,
            parser.pos <= s.len(),
            flat(out@).len() == parser.pos,
            forall|k: int|
                0 <= k < out@.len() ==> cluster_matches(e, s, start_of(out@, k), #[trigger] out@[k]),
            forall|k: int|
                0 <= k < out@.len() ==> 1 <= (#[trigger] out@[k]).chars@.len() <= MAX_CLUSTER_SIZE,
        ensures
            parser.pos == s.len(),
        decreases s.len() - parser.pos,
    {
        let ghost before = parser.pos as int;
        let ghost old_out = out@;
        match parser.next() {
            None => {
                break;
            },
            Some(c) => {
                proof {
                    lemma_extent_bounds(e, s, before, before + 1);
                    assert(old_out.push(c).drop_last() =~= old_out);
                    assert(flat(old_out.push(c)) == flat(old_out) + c.chars@);
                    assert forall|k: int| 0 <= k < old_out.len() + 1 implies start_of(
                        old_out.push(c),
                        k,
                    ) == if k < old_out.len() {
                        start_of(old_out, k)
                    } else {
                        before
                    } by {
                        if k < old_out.len() {
                            assert(old_out.push(c).take(k) =~= old_out.take(k));
                        } else {
                            assert(old_out.push(c).take(k) =~= old_out);
                        }
                    }
                }
                out.push(c);
                proof {
                    assert forall|k: int| 0 <= k < out@.len() implies cluster_matches(
                        e,
                        s,
                        start_of(out@, k),
                        #[trigger] out@[k],
                    ) by {
                        if k < old_out.len() {
                            assert(out@[k] == old_out[k]);
                        }
                    }
                }
            },
        }
    }
    proof {
        lemma_segmented_carries(e, s, out@);
    }
    out
}

/// The most severe line boundary among the characters of `seg`.
pub open spec fn max_line(seg: Seq<SourceChar>) -> nat
    decreases seg.len(),
{
    if seg.len() == 0 {
        0
    } else {
        let m = max_line(seg.drop_last());
        let r = seg.last().info.line().rank();
        if m >= r {
            m
        } else {
            r
        }
    }
}

/// Merging boundary bits by OR makes a word boundary of any word boundary
/// among the characters, and the most severe of their line boundaries.
pub proof fn lemma_or_bounds(seg: Seq<SourceChar>)
    ensures
        or_bounds(seg) < 8,
        (or_bounds(seg) & 4 != 0) <==> exists|i: int|
            0 <= i < seg.len() && (#[trigger] seg[i]).info.word(),
        LineBoundary::spec_from_raw(or_bounds(seg) & 3).rank() == max_line(seg),
    decreases seg.len(),
{
    if seg.len() > 0 {
        let d = seg.drop_last();
        lemma_or_bounds(d);
        let a = or_bounds(d);
        let b = seg.last().info.0.bound();
        let v = seg.last().info.0.boundary;
        assert(b == v & 7);
        assert(a < 8 && b == v & 7 ==> (a | b) < 8 && (((a | b) & 4 != 0) <==> (a & 4 != 0 || b
            & 4 != 0)) && ((((a | b) & 3) & 3 == 0) <==> ((a & 3) & 3 == 0 && (b & 3) & 3 == 0))
            && ((((a | b) & 3) & 3 == 1) <==> (((a & 3) & 3 == 1 && (b & 3) & 3 <= 1) || ((b & 3)
            & 3 == 1 && (a & 3) & 3 <= 1))) && (a & 3) & 3 <= 3 && (b & 3) & 3 <= 3)
            by (bit_vector);
        if exists|i: int| 0 <= i < d.len() && (#[trigger] d[i]).info.word() {
            let i = choose|i: int| 0 <= i < d.len() && (#[trigger] d[i]).info.word();
            assert(seg[i] == d[i]);
        }
        if exists|i: int| 0 <= i < seg.len() && (#[trigger] seg[i]).info.word() {
            let i = choose|i: int| 0 <= i < seg.len() && (#[trigger] seg[i]).info.word();
            if i < d.len() {
                assert(d[i] == seg[i]);
            }
        }
        if b & 4 != 0 {
            assert(seg[seg.len() - 1].info.word());
        }
        assert(or_bounds(seg) == a | b);
        assert(seg.last().info.line() == LineBoundary::spec_from_raw(b & 3));
    } else {
        assert(0u16 & 4 == 0 && (0u16 & 3) & 3 == 0) by (bit_vector);
    }
}

/// A cluster is a word boundary exactly when one of its characters is,
/// and its line boundary is the most severe one among its characters.
pub proof fn lemma_cluster_boundary(e: Engine, s: Seq<SourceChar>, start: int, c: Cluster)
    requires
        0 <= start < s.len(),
        cluster_matches(e, s, start, c),
    ensures
        c.info.word() <==> exists|i: int|
            start <= i < cluster_end(e, s, start) && (#[trigger] s[i]).info.word(),
        c.info.line().rank() == max_line(s.subrange(start, cluster_end(e, s, start))),
{
    let end = cluster_end(e, s, start);
    lemma_extent_bounds(e, s, start, start + 1);
    let seg = s.subrange(start, end);
    lemma_or_bounds(seg);
    if c.info.word() {
        let k = choose|k: int| 0 <= k < seg.len() && (#[trigger] seg[k]).info.word();
        assert(s[start + k] == seg[k]);
    }
    if exists|i: int| start <= i < end && (#[trigger] s[i]).info.word() {
        let i = choose|i: int| start <= i < end && (#[trigger] s[i]).info.word();
        assert(seg[i - start] == s[i]);
    }
}

/// Runs that carry the same properties are cut at the same places by the
/// generic segmenter.
proof fn lemma_simple_extent_tags(s: Seq<SourceChar>, t: Seq<SourceChar>, start: int, j: int)
    requires
        t.len() == s.len(),
        forall|i: int| 0 <= i < s.len() ==> (#[trigger] t[i]).info == s[i].info,
        0 <= start < j,
    ensures
        extent(Engine::Simple, t, start, j) == extent(Engine::Simple, s, start, j),
    decreases s.len() - j,
{
    if start < j < s.len() && j - start < MAX_CLUSTER_SIZE {
        assert(t[j - 1].info == s[j - 1].info && t[j].info == s[j].info);
        assert(joins(Engine::Simple, t, start, j) == joins(Engine::Simple, s, start, j));
        lemma_simple_extent_tags(s, t, start, j + 1);
    }
}

/// Sequences whose characters carry the same boundary bits merge to the
/// same bits.
proof fn lemma_or_bounds_tags(a: Seq<SourceChar>, b: Seq<SourceChar>)
    requires
        a.len() == b.len(),
        forall|i: int| 0 <= i < a.len() ==> (#[trigger] a[i]).info == b[i].info,
    ensures
        or_bounds(a) == or_bounds(b),
    decreases a.len(),
{
    if a.len() > 0 {
        lemma_or_bounds_tags(a.drop_last(), b.drop_last());
        assert(a.last().info == b.last().info);
    }
}

/// Segmenting again the characters that the generic segmenter put out,
/// tagged with the properties they came in with, gives the same clusters,
/// cut at the same boundaries.
pub proof fn lemma_simple_resegment(s: Seq<SourceChar>, cs: Seq<Cluster>, t: Seq<SourceChar>)
    requires
        segmented(Engine::Simple, s, cs),
        t.len() == flat(cs).len(),
        forall|i: int|
            0 <= i < t.len() ==> (#[trigger] t[i]).ch == flat(cs)[i].ch && t[i].offset == flat(
                cs,
            )[i].offset && t[i].data == flat(cs)[i].data && t[i].info == s[i].info,
    ensures
        segmented(Engine::Simple, t, cs),
        forall|k: int|
            0 <= k < cs.len() ==> cluster_end(Engine::Simple, t, start_of(cs, k)) == start_of(cs, k)
                + (#[trigger] cs[k]).chars@.len(),
{
    lemma_segmented_carries(Engine::Simple, s, cs);
    assert forall|i: int| 0 <= i < t.len() implies (#[trigger] t[i]).ch == s[i].ch && t[i].offset
        == s[i].offset && t[i].data == s[i].data && t[i].info == s[i].info by {
        assert(flat(cs)[i].ch == s[i].ch);
    }
    assert forall|k: int| 0 <= k < cs.len() implies cluster_matches(
        Engine::Simple,
        t,
        start_of(cs, k),
        #[trigger] cs[k],
    ) && cluster_end(Engine::Simple, t, start_of(cs, k)) == start_of(cs, k) + cs[k].chars@.len() by {
        lemma_resegment_at(s, cs, t, k);
    }
}

/// A cluster ends after the character that opens it.
proof fn lemma_extent_grows(e: Engine, s: Seq<SourceChar>, start: int, j: int)
    ensures
        extent(e, s, start, j) >= j,
    decreases s.len() - j,
{
    if start < j < s.len() && j - start < MAX_CLUSTER_SIZE && joins(e, s, start, j) {
        lemma_extent_grows(e, s, start, j + 1);
    }
}

/// Cluster `k` of a segmentation is built the same way from an input that
/// differs only in the code unit lengths of its characters.
proof fn lemma_resegment_at(s: Seq<SourceChar>, cs: Seq<Cluster>, t: Seq<SourceChar>, k: int)
    requires
        segmented(Engine::Simple, s, cs),
        0 <= k < cs.len(),
        t.len() == s.len(),
        forall|i: int|
            0 <= i < t.len() ==> (#[trigger] t[i]).ch == s[i].ch && t[i].offset == s[i].offset
                && t[i].data == s[i].data && t[i].info == s[i].info,
    ensures
        cluster_matches(Engine::Simple, t, start_of(cs, k), cs[k]),
        cluster_end(Engine::Simple, t, start_of(cs, k)) == start_of(cs, k) + cs[k].chars@.len(),
{
    let st = start_of(cs, k);
    assert(cluster_matches(Engine::Simple, s, st, cs[k]));
    lemma_flat_prefix(cs, k + 1);
    assert(cs.take(k + 1).drop_last() =~= cs.take(k));
    assert(cs.take(k + 1).last() == cs[k]);
    assert(flat(cs.take(k + 1)).len() == st + cs[k].chars@.len());
    lemma_extent_grows(Engine::Simple, s, st, st + 1);
    lemma_resegment_one(s, t, st, cs[k]);
}

/// One cluster of the generic segmenter is cut and built the same way from
/// an input that differs only in the code unit lengths of its characters.
proof fn lemma_resegment_one(s: Seq<SourceChar>, t: Seq<SourceChar>, st: int, c: Cluster)
    requires
        0 <= st < s.len(),
        t.len() == s.len(),
        forall|i: int|
            0 <= i < t.len() ==> (#[trigger] t[i]).ch == s[i].ch && t[i].offset == s[i].offset
                && t[i].data == s[i].data && t[i].info == s[i].info,
        cluster_matches(Engine::Simple, s, st, c),
    ensures
        cluster_matches(Engine::Simple, t, st, c),
        cluster_end(Engine::Simple, t, st) == cluster_end(Engine::Simple, s, st),
{
    lemma_simple_extent_tags(s, t, st, st + 1);
    lemma_extent_bounds(Engine::Simple, s, st, st + 1);
    let end = cluster_end(Engine::Simple, s, st);
    assert forall|i: int| 0 <= i < end - st implies #[trigger] c.chars@[i] == char_of(
        t[st + i],
        class_at(Engine::Simple, t, st, st + i),
    ) by {
        assert(c.chars@[i] == char_of(s[st + i], class_at(Engine::Simple, s, st, st + i)));
        assert(t[st + i].info == s[st + i].info && t[st + i].ch == s[st + i].ch);
    }
    assert(t[st].ch == s[st].ch && t[st].info == s[st].info);
    if end > st + 1 {
        assert(t[st + 1].ch == s[st + 1].ch);
    }
    assert(space_of(t[st]) == space_of(s[st]));
    assert(emoji_of(t, st, end) == emoji_of(s, st, end));
    assert forall|i: int| 0 <= i < end - st implies (#[trigger] t.subrange(st, end)[i]).info
        == s.subrange(st, end)[i].info by {
        assert(t[st + i].info == s[st + i].info);
    }
    lemma_or_bounds_tags(t.subrange(st, end), s.subrange(st, end));
}

/// The number of characters of class base in `cs`.
pub open spec fn base_count(cs: Seq<Char>) -> nat
    decreases cs.len(),
{
    if cs.len() == 0 {
        0
    } else {
        base_count(cs.drop_last()) + if cs.last().shape_class == ShapeClass::Base {
            1nat
        } else {
            0nat
        }
    }
}

/// Each character after the first one of a cluster joined the cluster.
proof fn lemma_inside(e: Engine, s: Seq<SourceChar>, start: int, j: int, k: int)
    requires
        start < j <= k < extent(e, s, start, j),
    ensures
        joins(e, s, start, k),
        k < s.len(),
    decreases k - j,
{
    if k > j {
        lemma_inside(e, s, start, j + 1, k);
    }
}

/// The count of base characters in the first `m` characters of a syllable
/// of the complex engine: one for a base that opens it, one for a base right
/// after an opening repha. No character of the syllable after the first one
/// is outside the syllabic classes.
proof fn lemma_use_prefix(s: Seq<SourceChar>, start: int, c: Cluster, m: int)
    requires
        0 <= start < s.len(),
        cluster_matches(Engine::Complex, s, start, c),
        s[start].rec().use_class != UseClass::O,
        forall|i: int|
            0 <= i < s.len() && (#[trigger] s[i]).rec().cluster_break == ClusterBreak::CR
                ==> s[i].rec().use_class == UseClass::O,
        1 <= m <= c.chars@.len(),
    ensures
        base_count(c.chars@.take(m)) == (if use_is_base(s[start].rec().use_class) {
            1nat
        } else {
            0nat
        }) + (if m >= 2 && s[start].rec().use_class == UseClass::R && use_is_base(
            s[start + 1].rec().use_class,
        ) {
            1nat
        } else {
            0nat
        }),
        s[start + m - 1].rec().use_class != UseClass::O,
    decreases m,
{
    let cs = c.chars@;
    if m == 1 {
        assert(cs.take(1).drop_last() =~= Seq::<Char>::empty());
        assert(cs.take(1).last() == cs[0]);
        assert(cs[0] == char_of(s[start + 0], class_at(Engine::Complex, s, start, start + 0)));
        assert(cs[0].shape_class == use_class_of(s[start], false));
        assert(base_count(cs.take(1)) == base_count(Seq::<Char>::empty()) + (if cs[0].shape_class
            == ShapeClass::Base {
            1nat
        } else {
            0nat
        }));
    } else {
        lemma_use_prefix(s, start, c, m - 1);
        let k = start + m - 1;
        lemma_extent_bounds(Engine::Complex, s, start, start + 1);
        lemma_inside(Engine::Complex, s, start, start + 1, k);
        assert(cs.take(m).drop_last() =~= cs.take(m - 1));
        assert(cs.take(m).last() == cs[m - 1]);
        assert(s[k - 1].rec().cluster_break != ClusterBreak::CR);
        assert(use_joins(s[k - 1], s[k], k == start + 1));
        assert(cs[m - 1] == char_of(
            s[start + (m - 1)],
            class_at(Engine::Complex, s, start, start + (m - 1)),
        ));
        assert(cs[m - 1].shape_class == use_class_of(s[k], s[k - 1].rec().use_class == UseClass::H));
        assert(base_count(cs.take(m)) == base_count(cs.take(m - 1)) + (if cs[m - 1].shape_class
            == ShapeClass::Base {
            1nat
        } else {
            0nat
        }));
        if k > start + 1 {
            assert(cs[m - 1].shape_class != ShapeClass::Base);
        } else {
            assert(cs[m - 1].shape_class == ShapeClass::Base <==> (s[start].rec().use_class
                == UseClass::R && use_is_base(s[start + 1].rec().use_class)));
        }
    }
}

/// A syllable of the complex engine that opens with a syllabic character
/// is broken exactly when it does not hold one base. Carriage returns are
/// taken to be outside the syllabic classes, as the property table has
/// them.
pub proof fn lemma_use_well_formed(s: Seq<SourceChar>, start: int, c: Cluster)
    requires
        0 <= start < s.len(),
        cluster_matches(Engine::Complex, s, start, c),
        s[start].rec().use_class != UseClass::O,
        forall|i: int|
            0 <= i < s.len() && (#[trigger] s[i]).rec().cluster_break == ClusterBreak::CR
                ==> s[i].rec().use_class == UseClass::O,
    ensures
        c.info.broken() <==> base_count(c.chars@) != 1,
{
    lemma_extent_bounds(Engine::Complex, s, start, start + 1);
    let n = c.chars@.len() as int;
    lemma_use_prefix(s, start, c, n);
    assert(c.chars@.take(n) =~= c.chars@);
    if start + 1 < s.len() && s[start].rec().use_class == UseClass::R && use_is_base(
        s[start + 1].rec().use_class,
    ) {
        assert(joins(Engine::Complex, s, start, start + 1));
        lemma_extent_bounds(Engine::Complex, s, start, start + 2);
    }
}

/// The count of base characters in the first `m` characters of a Myanmar
/// syllable: one for the base after a kinzi, else one for a base that opens
/// it. No character of the syllable after the first one is outside the
/// syllabic classes.
proof fn lemma_my_prefix(s: Seq<SourceChar>, start: int, c: Cluster, m: int)
    requires
        0 <= start < s.len(),
        cluster_matches(Engine::Myanmar, s, start, c),
        s[start].rec().myanmar_class != MyanmarClass::O,
        forall|i: int|
            0 <= i < s.len() && (#[trigger] s[i]).rec().cluster_break == ClusterBreak::CR
                ==> s[i].rec().myanmar_class == MyanmarClass::O,
        1 <= m <= c.chars@.len(),
    ensures
        base_count(c.chars@.take(m)) == if kinzi_at(s, start) {
            if m >= 4 {
                1nat
            } else {
                0nat
            }
        } else if my_is_base(s[start].rec().myanmar_class) {
            1nat
        } else {
            0nat
        },
        s[start + m - 1].rec().myanmar_class != MyanmarClass::O,
    decreases m,
{
    let cs = c.chars@;
    if m == 1 {
        assert(cs.take(1).drop_last() =~= Seq::<Char>::empty());
        assert(cs.take(1).last() == cs[0]);
        assert(cs[0] == char_of(s[start + 0], class_at(Engine::Myanmar, s, start, start + 0)));
        assert(base_count(cs.take(1)) == base_count(Seq::<Char>::empty()) + (if cs[0].shape_class
            == ShapeClass::Base {
            1nat
        } else {
            0nat
        }));
    } else {
        lemma_my_prefix(s, start, c, m - 1);
        let k = start + m - 1;
        lemma_extent_bounds(Engine::Myanmar, s, start, start + 1);
        lemma_inside(Engine::Myanmar, s, start, start + 1, k);
        assert(cs.take(m).drop_last() =~= cs.take(m - 1));
        assert(cs.take(m).last() == cs[m - 1]);
        assert(s[k - 1].rec().cluster_break != ClusterBreak::CR);
        assert(my_joins(s[k - 1], s[k]));
        assert(cs[m - 1] == char_of(
            s[start + (m - 1)],
            class_at(Engine::Myanmar, s, start, start + (m - 1)),
        ));
        assert(base_count(cs.take(m)) == base_count(cs.take(m - 1)) + (if cs[m - 1].shape_class
            == ShapeClass::Base {
            1nat
        } else {
            0nat
        }));
        if kinzi_at(s, start) && k == start + 3 {
            assert(cs[m - 1].shape_class == ShapeClass::Base);
        } else {
            assert(cs[m - 1].shape_class != ShapeClass::Base);
        }
    }
}

/// A Myanmar syllable that opens with a syllabic character is broken
/// exactly when it does not hold one base; a kinzi before the base leaves
/// it well formed. Carriage returns are taken to be outside the syllabic
/// classes, as the property table has them.
pub proof fn lemma_my_well_formed(s: Seq<SourceChar>, start: int, c: Cluster)
    requires
        0 <= start < s.len(),
        cluster_matches(Engine::Myanmar, s, start, c),
        s[start].rec().myanmar_class != MyanmarClass::O,
        forall|i: int|
            0 <= i < s.len() && (#[trigger] s[i]).rec().cluster_break == ClusterBreak::CR
                ==> s[i].rec().myanmar_class == MyanmarClass::O,
    ensures
        c.info.broken() <==> base_count(c.chars@) != 1,
        kinzi_at(s, start) ==> !c.info.broken() && c.chars@.len() >= 4,
{
    lemma_extent_bounds(Engine::Myanmar, s, start, start + 1);
    let n = c.chars@.len() as int;
    if kinzi_at(s, start) {
        assert(s[start].rec().cluster_break != ClusterBreak::CR);
        assert(s[start + 1].rec().cluster_break != ClusterBreak::CR);
        assert(s[start + 2].rec().cluster_break != ClusterBreak::CR);
        assert(joins(Engine::Myanmar, s, start, start + 1));
        assert(joins(Engine::Myanmar, s, start, start + 2));
        assert(joins(Engine::Myanmar, s, start, start + 3));
        lemma_extent_bounds(Engine::Myanmar, s, start, start + 4);
        assert(extent(Engine::Myanmar, s, start, start + 3) == extent(
            Engine::Myanmar,
            s,
            start,
            start + 4,
        ));
        assert(extent(Engine::Myanmar, s, start, start + 2) == extent(
            Engine::Myanmar,
            s,
            start,
            start + 3,
        ));
        assert(extent(Engine::Myanmar, s, start, start + 1) == extent(
            Engine::Myanmar,
            s,
            start,
            start + 2,
        ));
    }
    lemma_my_prefix(s, start, c, n);
    assert(c.chars@.take(n) =~= c.chars@);
}

/// The characters of the first `k` clusters come first among the
/// characters of all of them.
proof fn lemma_flat_prefix(cs: Seq<Cluster>, k: int)
    requires
        0 <= k <= cs.len(),
    ensures
        flat(cs.take(k)).len() <= flat(cs).len(),
        forall|i: int|
            0 <= i < flat(cs.take(k)).len() ==> #[trigger] flat(cs.take(k))[i] == flat(cs)[i],
    decreases cs.len(),
{
    if k == cs.len() {
        assert(cs.take(k) =~= cs);
    } else {
        let d = cs.drop_last();
        lemma_flat_prefix(d, k);
        assert(cs.take(k) =~= d.take(k));
    }
}

/// The characters of the first `k` clusters of a segmentation carry the
/// first input characters.
proof fn lemma_segmented_prefix(e: Engine, s: Seq<SourceChar>, cs: Seq<Cluster>, k: int)
    requires
        segmented(e, s, cs),
        0 <= k <= cs.len(),
    ensures
        flat(cs.take(k)).len() <= s.len(),
        forall|i: int|
            0 <= i < flat(cs.take(k)).len() ==> (#[trigger] flat(cs.take(k))[i]).ch == s[i].ch
                && flat(cs.take(k))[i].offset == s[i].offset && flat(cs.take(k))[i].data
                == s[i].data,
    decreases k,
{
    lemma_flat_prefix(cs, k);
    if k > 0 {
        lemma_segmented_prefix(e, s, cs, k - 1);
        let p = cs.take(k - 1);
        let q = cs.take(k);
        assert(q.drop_last() =~= p);
        assert(q.last() == cs[k - 1]);
        let st = flat(p).len() as int;
        assert(st == start_of(cs, k - 1));
        assert(cluster_matches(e, s, st, cs[k - 1]));
        assert(flat(q) == flat(p) + cs[k - 1].chars@);
        assert forall|i: int| 0 <= i < flat(q).len() implies (#[trigger] flat(q)[i]).ch == s[i].ch
            && flat(q)[i].offset == s[i].offset && flat(q)[i].data == s[i].data by {
            if i >= st {
                assert(flat(q)[i] == cs[k - 1].chars@[i - st]);
                assert(cs[k - 1].chars@[i - st] == char_of(
                    s[st + (i - st)],
                    class_at(e, s, st, st + (i - st)),
                ));
            } else {
                assert(flat(q)[i] == flat(p)[i]);
            }
        }
    }
}

/// Any sequence of clusters that the parser produces for an input, one
/// after another from its start, holds every input character once, in
/// order, with its offset and user data.
pub proof fn lemma_segmented_carries(e: Engine, s: Seq<SourceChar>, cs: Seq<Cluster>)
    requires
        segmented(e, s, cs),
    ensures
        carries(flat(cs), s),
{
    lemma_segmented_prefix(e, s, cs, cs.len() as int);
    assert(cs.take(cs.len() as int) =~= cs);
}

} // verus!