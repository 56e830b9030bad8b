//! Decomposition of a BCP 47 locale into its subtags.

use vstd::prelude::*;

verus! {

/// Subtag in a locale.
#[derive(Copy, Clone, PartialEq, Eq, Debug)]
pub enum Subtag<'a> {
    /// Primary language subtag.
    Language(&'a str),
    /// Script subtag.
    Script(&'a str),
    /// Region subtag.
    Region(&'a str),
    /// Variant subtag.
    Variant(&'a str),
    /// Extension subtag.
    Extension(&'a str),
    /// Private-use subtag.
    Private(&'a str),
}

#[derive(Copy, Clone, PartialEq, Eq, Structural, Debug)]
/// The kind of subtag that the parser expects next.
pub enum ParseStage {
    Language,
    Script,
    Region,
    Variant,
    Extension,
    Private,
}

/// An ASCII letter.
pub open spec fn is_alpha(c: char) -> bool {
    ('a' <= c && c <= 'z') || ('A' <= c && c <= 'Z')
}

/// An ASCII digit.
pub open spec fn is_digit(c: char) -> bool {
    '0' <= c && c <= '9'
}

/// An ASCII letter or digit.
pub open spec fn is_alnum(c: char) -> bool {
    is_alpha(c) || is_digit(c)
}

/// The end of the part of `s` that starts at `p`: the first `-` at or after
/// `p`, or the end of `s`.
pub open spec fn part_end(s: Seq<char>, p: int) -> int
    decreases s.len() - p,
{
    if p >= s.len() || s[p] == '-' {
        p
    } else {
        part_end(s, p + 1)
    }
}

/// A part ends at a `-`, or at the end of the text.
pub proof fn lemma_part_end_dash(s: Seq<char>, p: int)
    requires
        0 <= p <= s.len(),
    ensures
        p <= part_end(s, p) <= s.len(),
        part_end(s, p) < s.len() ==> s[part_end(s, p)] == '-',
    decreases s.len() - p,
{
    if p < s.len() && s[p] != '-' {
        lemma_part_end_dash(s, p + 1);
    }
}

/// A language subtag: two or three characters.
pub open spec fn language_ok(t: Seq<char>) -> bool {
    2 <= t.len() <= 3
}

/// A script subtag: four letters.
pub open spec fn script_ok(t: Seq<char>) -> bool {
    t.len() == 4 && forall|i: int| 0 <= i < t.len() ==> is_alpha(#[trigger] t[i])
}

/// A region subtag: two letters or three digits.
pub open spec fn region_ok(t: Seq<char>) -> bool {
    (t.len() == 2 && forall|i: int| 0 <= i < t.len() ==> is_alpha(#[trigger] t[i])) || (t.len()
        == 3 && forall|i: int| 0 <= i < t.len() ==> is_digit(#[trigger] t[i]))
}

/// A variant subtag: a digit and three letters or digits, or five to eight
/// letters or digits.
pub open spec fn variant_ok(t: Seq<char>) -> bool {
    (t.len() == 4 && is_digit(t[0]) && forall|i: int| 1 <= i < t.len() ==> is_alnum(#[trigger] t[i]))
        || (5 <= t.len() <= 8 && forall|i: int| 0 <= i < t.len() ==> is_alnum(#[trigger] t[i]))
}

/// The text opens with a part of one character.
pub open spec fn singleton_first(t: Seq<char>) -> bool {
    t.len() >= 1 && (t.len() == 1 || t[1] == '-')
}

/// The characters of `s[a..b]` are all ASCII.
pub open spec fn ascii_range(s: Seq<char>, a: int, b: int) -> bool {
    forall|i: int| a <= i < b ==> #[trigger] s[i] <= '\u{7f}'
}

/// The length of the part that starts at `p`, which decides the subtags it
/// can be: its number of characters, or 0 when it holds a character outside
/// ASCII, which fits no subtag.
pub open spec fn unit_len(s: Seq<char>, p: int) -> int {
    let e = part_end(s, p);
    if ascii_range(s, p, e) {
        e - p
    } else {
        0
    }
}

/// The stage at which a part is matched when the parser expects `stage`:
/// a part that is no script may be a region, and one that is no region is
/// read as a variant.
pub open spec fn matched_stage(stage: ParseStage, p: Seq<char>) -> ParseStage {
    match stage {
        ParseStage::Script => if script_ok(p) {
            ParseStage::Script
        } else if region_ok(p) {
            ParseStage::Region
        } else {
            ParseStage::Variant
        },
        ParseStage::Region => if region_ok(p) {
            ParseStage::Region
        } else {
            ParseStage::Variant
        },
        _ => stage,
    }
}

/// Reading the parts that follow the singleton of an extension (`private`
/// false) or a private use sequence, from the part that starts at `p`: parts
/// of two to eight characters, and in a private use sequence singletons other
/// than `x`, belong to it. Gives the end of the sequence, where the next part
/// starts, whether every part is read, and whether an `x` singleton ended an
/// extension.
pub open spec fn scan(s: Seq<char>, p: int, private: bool) -> (int, int, bool, bool)
    decreases s.len() - p,
{
    let e = part_end(s, p);
    let l = unit_len(s, p);
    let take = (2 <= l <= 8) || (l == 1 && s[p] != 'x' && private);
    if p < 0 || p > s.len() {
        (p - 1, p, false, false)
    } else if take {
        if e >= s.len() {
            (e, p, true, false)
        } else {
            scan(s, e + 1, private)
        }
    } else {
        (p - 1, p, false, l == 1 && s[p] == 'x' && !private)
    }
}

/// The kind of a subtag, named by the stage that yields it.
pub open spec fn kind_of<'a>(t: Subtag<'a>) -> ParseStage {
    match t {
        Subtag::Language(_) => ParseStage::Language,
        Subtag::Script(_) => ParseStage::Script,
        Subtag::Region(_) => ParseStage::Region,
        Subtag::Variant(_) => ParseStage::Variant,
        Subtag::Extension(_) => ParseStage::Extension,
        Subtag::Private(_) => ParseStage::Private,
    }
}

/// The text of a subtag.
pub open spec fn text_of<'a>(t: Subtag<'a>) -> Seq<char> {
    match t {
        Subtag::Language(x) => x@,
        Subtag::Script(x) => x@,
        Subtag::Region(x) => x@,
        Subtag::Variant(x) => x@,
        Subtag::Extension(x) => x@,
        Subtag::Private(x) => x@,
    }
}

/// What a subtag of each kind looks like: the first four kinds are one part
/// of the locale of the right shape; an extension or a private use sequence
/// is never empty.
pub open spec fn subtag_ok<'a>(t: Subtag<'a>) -> bool {
    match t {
        Subtag::Language(x) => language_ok(x@),
        Subtag::Script(x) => script_ok(x@),
        Subtag::Region(x) => region_ok(x@),
        Subtag::Variant(x) => variant_ok(x@),
        Subtag::Extension(x) => singleton_first(x@) && x@[0] != 'x',
        Subtag::Private(x) => singleton_first(x@) && x@[0] == 'x',
    }
}

/// Returns an iterator that yields subtags of the specified locale.
pub fn subtags<'a>(locale: &'a str) -> (r: Subtags<'a>)
    requires
        locale@.len() < usize::MAX,
    ensures
        r.wf(),
        r.source@ == locale@,
        r.chars@ == locale@,
        r.stage == ParseStage::Language,
        r.pos == 0,
        r.next_part == 0,
        !r.done,
{
    let n = locale.unicode_len();
    let mut chars: Vec<char> = Vec::new();
    let mut i: usize = 0;
    while i < n
        invariant
            n == locale@.len(),
            i <= n,
            chars@ == locale@.take(i as int),
        decreases n - i,
    {
        chars.push(locale.get_char(i));
        proof {
            assert(locale@.take(i + 1) =~= locale@.take(i as int).push(locale@[i as int]));
        }
        i = i + 1;
    }
    proof {
        assert(locale@.take(n as int) =~= locale@);
    }
    Subtags { stage: ParseStage::Language, source: locale, chars, next_part: 0, done: false, pos: 0 }
}

/// Iterator over the subtags in a locale.
#[derive(Clone)]
pub struct Subtags<'a> {
    /// The kind of subtag expected next.
    pub stage: ParseStage,
    /// The locale.
    pub source: &'a str,
    /// The characters of the locale.
    pub chars: Vec<char>,
    /// Where the next part of the locale starts.
    pub next_part: usize,
    /// True once every part has been read.
    pub done: bool,
    /// Where the remainder of the locale starts.
    pub pos: usize,
}

impl<'a> Subtags<'a> {
    /// The characters of the locale are at hand and the positions stay in
    /// it, or one past it.
    pub closed spec fn wf(&self) -> bool {
        &&& self.chars@ == self.source@
        &&& self.chars@.len() < usize::MAX
        &&& self.next_part <= self.chars@.len()
        &&& self.pos <= self.chars@.len() + 1
        &&& !self.done ==> self.pos <= self.next_part
    }

    fn part_end(&self, p: usize) -> (r: usize)
        requires
            self.wf(),
            p <= self.chars@.len(),
        ensures
            p <= r <= self.chars@.len(),
            r == part_end(self.chars@, p as int),
    {
        let n = self.chars.len();
        let mut i = p;
        while i < n && self.chars[i] != '-'
            invariant
                n == self.chars@.len(),
                p <= i <= n,
                part_end(self.chars@, p as int) == part_end(self.chars@, i as int),
            decreases n - i,
        {
            i = i + 1;
        }
        i
    }

    /// Moves past the part that ends at `stop`.
    fn take_part(&mut self, stop: usize)
        requires
            old(self).wf(),
            !old(self).done,
            old(self).next_part <= stop <= old(self).chars@.len(),
        ensures
            final(self).wf(),
            final(self).source == old(self).source,
            final(self).chars@ == old(self).chars@,
            final(self).pos == old(self).pos,
            final(self).stage == old(self).stage,
            final(self).done == (stop == old(self).chars@.len()),
            !final(self).done ==> final(self).next_part == stop + 1,
            final(self).done ==> final(self).next_part == old(self).next_part,
    {
        if stop == self.chars.len() {
            self.done = true;
        } else {
            self.next_part = stop + 1;
        }
    }

    /// Takes the part `ps..pe` as a subtag, with the remainder moved past it.
    fn take(&mut self, ps: usize, pe: usize) -> (r: &'a str)
        requires
            old(self).wf(),
            ps <= pe <= old(self).chars@.len(),
            old(self).pos <= ps,
            !old(self).done ==> pe < old(self).next_part,
        ensures
            final(self).wf(),
            final(self).source == old(self).source,
            final(self).chars@ == old(self).chars@,
            final(self).stage == old(self).stage,
            final(self).done == old(self).done,
            final(self).next_part == old(self).next_part,
            final(self).pos == old(self).pos + (pe - ps) + 1,
            r@ == old(self).source@.subrange(ps as int, pe as int),
    {
        self.pos = self.pos + (pe - ps) + 1;
        self.source.substring_char(ps, pe)
    }

    fn all_alpha(&self, a: usize, b: usize) -> (r: bool)
        requires
            self.wf(),
            a <= b <= self.chars@.len(),
        ensures
            r == forall|i: int| a <= i < b ==> is_alpha(#[trigger] self.chars@[i]),
    {
        let mut i = a;
        while i < b
            invariant
                a <= i <= b <= self.chars@.len(),
                forall|k: int| a <= k < i ==> is_alpha(#[trigger] self.chars@[k]),
            decreases b - i,
        {
            let c = self.chars[i];
            if !(('a' <= c && c <= 'z') || ('A' <= c && c <= 'Z')) {
                return false;
            }
            i = i + 1;
        }
        true
    }

    fn all_digit(&self, a: usize, b: usize) -> (r: bool)
        requires
            self.wf(),
            a <= b <= self.chars@.len(),
        ensures
            r == forall|i: int| a <= i < b ==> is_digit(#[trigger] self.chars@[i]),
    {
        let mut i = a;
        while i < b
            invariant
                a <= i <= b <= self.chars@.len(),
                forall|k: int| a <= k < i ==> is_digit(#[trigger] self.chars@[k]),
            decreases b - i,
        {
            let c = self.chars[i];
            if !('0' <= c && c <= '9') {
                return false;
            }
            i = i + 1;
        }
        true
    }

    fn all_alnum(&self, a: usize, b: usize) -> (r: bool)
        requires
            self.wf(),
            a <= b <= self.chars@.len(),
        ensures
            r == forall|i: int| a <= i < b ==> is_alnum(#[trigger] self.chars@[i]),
    {
        let mut i = a;
        while i < b
            invariant
                a <= i <= b <= self.chars@.len(),
                forall|k: int| a <= k < i ==> is_alnum(#[trigger] self.chars@[k]),
            decreases b - i,
        {
            let c = self.chars[i];
            if !(('a' <= c && c <= 'z') || ('A' <= c && c <= 'Z') || ('0' <= c && c <= '9')) {
                return false;
            }
            i = i + 1;
        }
        true
    }

    /// Returns the remainder of the underlying string.
    pub fn remainder(&self) -> (r: &'a str)
        requires
            self.wf(),
        ensures
            self.pos <= self.source@.len() ==> r@ == self.source@.subrange(
                self.pos as int,
                self.source@.len() as int,
            ),
            self.pos > self.source@.len() ==> r@.len() == 0,
    {
        let n = self.chars.len();
        if self.pos <= n {
            self.source.substring_char(self.pos, n)
        } else {
            self.source.substring_char(n, n)
        }
    }

    /// One step of the parser: the kind of subtag found with the range of
    /// the locale that it spans, if any, and the stage, the start of the next
    /// part, the end flag and the remainder position that follow.
    pub open spec fn spec_next(self) -> (Option<(ParseStage, int, int)>, ParseStage, int, bool, int) {
        let s = self.chars@;
        let ps = self.next_part as int;
        let pe = part_end(s, ps);
        let p = s.subrange(ps, pe);
        let l = unit_len(s, ps);
        let pos = self.pos as int;
        let dn = pe == s.len();
        let nx = if dn {
            ps
        } else {
            pe + 1
        };
        let m = matched_stage(self.stage, p);
        let took = pos + (pe - ps) + 1;
        if self.done {
            (None, self.stage, ps, true, pos)
        } else if m == ParseStage::Language {
            if 2 <= l <= 3 {
                (Some((ParseStage::Language, ps, pe)), ParseStage::Script, nx, dn, took)
            } else {
                (None, ParseStage::Script, nx, dn, pos)
            }
        } else if m == ParseStage::Script {
            (Some((ParseStage::Script, ps, pe)), ParseStage::Region, nx, dn, took)
        } else if m == ParseStage::Region {
            (Some((ParseStage::Region, ps, pe)), ParseStage::Variant, nx, dn, took)
        } else if m == ParseStage::Variant && variant_ok(p) {
            (Some((ParseStage::Variant, ps, pe)), ParseStage::Variant, nx, dn, took)
        } else if m == ParseStage::Variant && l != 1 {
            (None, ParseStage::Variant, nx, dn, pos)
        } else {
            let st2 = if (m == ParseStage::Variant || m == ParseStage::Extension) && l == 1 {
                if s[ps] == 'x' {
                    ParseStage::Private
                } else {
                    ParseStage::Extension
                }
            } else {
                m
            };
            let private = st2 == ParseStage::Private;
            if l != 1 || (private && s[ps] != 'x') {
                (None, st2, nx, dn, pos)
            } else {
                let sc = if dn {
                    (pe, ps, true, false)
                } else {
                    scan(s, pe + 1, private)
                };
                (
                    Some((st2, pos, pos + (sc.0 - ps))),
                    if sc.3 {
                        ParseStage::Private
                    } else {
                        st2
                    },
                    sc.1,
                    sc.2,
                    pos + (sc.0 - ps) + 1,
                )
            }
        }
    }

    fn all_ascii(&self, a: usize, b: usize) -> (r: bool)
        requires
            self.wf(),
            a <= b <= self.chars@.len(),
        ensures
            r == ascii_range(self.chars@, a as int, b as int),
    {
        let mut i = a;
        while i < b
            invariant
                a <= i <= b <= self.chars@.len(),
                ascii_range(self.chars@, a as int, i as int),
            decreases b - i,
        {
            if self.chars[i] > '\u{7f}' {
                return false;
            }
            i = i + 1;
        }
        true
    }

    /// The length of the part `a..b` in the sense of `unit_len`.
    fn unit_len_of(&self, a: usize, b: usize) -> (r: usize)
        requires
            self.wf(),
            a <= b <= self.chars@.len(),
            b == part_end(self.chars@, a as int),
        ensures
            r == unit_len(self.chars@, a as int),
    {
        if self.all_ascii(a, b) {
            b - a
        } else {
            0
        }
    }

    /// Returns the next subtag, or `None` at the end of the locale or at a
    /// part that fits no subtag where it stands.
    pub fn next(&mut self) -> (r: Option<Subtag<'a>>)
        requires
            old(self).wf(),
        ensures
            final(self).wf(),
            final(self).source == old(self).source,
            final(self).chars@ == old(self).chars@,
            final(self).stage == old(self).spec_next().1,
            final(self).next_part == old(self).spec_next().2,
            final(self).done == old(self).spec_next().3,
            final(self).pos == old(self).spec_next().4,
            r.is_some() == old(self).spec_next().0.is_some(),
            r.is_some() ==> kind_of(r.unwrap()) == old(self).spec_next().0.unwrap().0 && text_of(
                r.unwrap(),
            ) == old(self).source@.subrange(
                old(self).spec_next().0.unwrap().1,
                old(self).spec_next().0.unwrap().2,
            ),
            r.is_some() && old(self).pos == old(self).next_part ==> subtag_ok(r.unwrap()),
            r.is_some() && old(self).pos == old(self).next_part && !final(self).done
                ==> final(self).pos == final(self).next_part,
    {
        if self.done {
            return None;
        }
        let n = self.chars.len();
        let ghost s = self.chars@;
        let part_start = self.next_part;
        let part_stop = self.part_end(part_start);
        let part_len = self.unit_len_of(part_start, part_stop);
        self.take_part(part_stop);
        let start = self.pos;
        let ghost part = s.subrange(part_start as int, part_stop as int);
        proof {
            assert forall|i: int| part_start <= i < part_stop implies part[i - part_start]
                == #[trigger] s[i] by {}
            if script_ok(part) || region_ok(part) || variant_ok(part) {
                assert forall|i: int| part_start <= i < part_stop implies (script_ok(part)
                    ==> is_alpha(#[trigger] s[i])) && (part.len() == 2 && region_ok(part)
                    ==> is_alpha(s[i])) && (part.len() == 3 && region_ok(part) ==> is_digit(s[i]))
                    && (variant_ok(part) && (part.len() > 4 || i > part_start) ==> is_alnum(s[i]))
                    && s[i] <= '\u{7f}' by {
                    assert(part[i - part_start] == s[i]);
                }
            }
        }
        if self.stage == ParseStage::Language {
            self.stage = ParseStage::Script;
            if part_len == 2 || part_len == 3 {
                return Some(Subtag::Language(self.take(part_start, part_stop)));
            }
            return None;
        }
        if self.stage == ParseStage::Script {
            self.stage = ParseStage::Region;
            if part_stop - part_start == 4 && self.all_alpha(part_start, part_stop) {
                return Some(Subtag::Script(self.take(part_start, part_stop)));
            }
        }
        if self.stage == ParseStage::Region {
            self.stage = ParseStage::Variant;
            if part_stop - part_start == 2 && self.all_alpha(part_start, part_stop) {
                return Some(Subtag::Region(self.take(part_start, part_stop)));
            }
            if part_stop - part_start == 3 && self.all_digit(part_start, part_stop) {
                return Some(Subtag::Region(self.take(part_start, part_stop)));
            }
        }
        if self.stage == ParseStage::Variant {
            let plen = part_stop - part_start;
            if plen == 4 {
                let c = self.chars[part_start];
                if '0' <= c && c <= '9' && self.all_alnum(part_start + 1, part_stop) {
                    return Some(Subtag::Variant(self.take(part_start, part_stop)));
                }
            } else if 5 <= plen && plen <= 8 {
                if self.all_alnum(part_start, part_stop) {
                    return Some(Subtag::Variant(self.take(part_start, part_stop)));
                }
            }
            if part_len != 1 {
                return None;
            }
        }
        if part_len == 1 && (self.stage == ParseStage::Variant || self.stage
            == ParseStage::Extension) {
            self.stage = if self.chars[part_start] == 'x' {
                ParseStage::Private
            } else {
                ParseStage::Extension
            };
        }
        let private = self.stage == ParseStage::Private;
        if part_len != 1 || (private && self.chars[part_start] != 'x') {
            return None;
        }
        let ghost st2 = self.stage;
        let ghost res = if self.done {
            (part_stop as int, part_start as int, true, false)
        } else {
            scan(s, part_stop + 1, private)
        };
        // The end of the sequence read so far: the singleton, then the parts
        // of two to eight characters after it; in a private use sequence
        // other singletons but `x` too.
        let mut last: usize = part_stop;
        let mut saw_x = false;
        loop
            invariant_except_break
                !saw_x,
                !self.done ==> last + 1 == self.next_part && scan(s, self.next_part as int, private)
                    == res,
                self.done ==> res == (last as int, self.next_part as int, true, false),
            invariant
                self.stage == st2,
                self.wf(),
                self.source == old(self).source,
                self.chars@ == s,
                n == s.len(),
                start == self.pos,
                start <= part_start < part_stop <= last <= n,
                private == (st2 == ParseStage::Private),
            ensures
                res == (last as int, self.next_part as int, self.done, saw_x),
                !self.done ==> last + 1 == self.next_part,
            decreases n - self.next_part + (if self.done {
                0int
            } else {
                1int
            }),
        {
            if self.done {
                break;
            }
            let sub_start = self.next_part;
            let sub_stop = self.part_end(sub_start);
            let sub_len = self.unit_len_of(sub_start, sub_stop);
            let take = if 2 <= sub_len && sub_len <= 8 {
                true
            } else if sub_len == 1 {
                self.chars[sub_start] != 'x' && private
            } else {
                false
            };
            if !take {
                saw_x = sub_len == 1 && self.chars[sub_start] == 'x' && !private;
                break;
            }
            self.take_part(sub_stop);
            last = sub_stop;
        }
        if saw_x {
            self.stage = ParseStage::Private;
        }
        let end = start + (last - part_start);
        let tag = self.source.substring_char(start, end);
        self.pos = end + 1;
        proof {
            if start == part_start {
                assert(tag@[0] == s[start as int]);
                if end > start + 1 {
                    lemma_part_end_dash(s, part_start as int);
                    assert(tag@[1] == s[part_stop as int]);
                }
            }
        }
        if private {
            Some(Subtag::Private(tag))
        } else {
            Some(Subtag::Extension(tag))
        }
    }
}

} // verus!
