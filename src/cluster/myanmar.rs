//! Rules of the Myanmar engine: a syllable is an optional kinzi (a
//! consonant, an asat and a stacking virama before the base), one base, the
//! consonants stacked under it and the signs that follow.

use vstd::prelude::*;

use super::char::{ShapeClass, SourceChar};
use crate::unicode::MyanmarClass;

verus! {

/// Classes that can anchor a syllable.
pub open spec fn my_is_base(c: MyanmarClass) -> bool {
    c == MyanmarClass::C || c == MyanmarClass::IV || c == MyanmarClass::GB
}

/// Classes that attach to the syllable before them.
pub open spec fn my_is_dependent(c: MyanmarClass) -> bool {
    !(c == MyanmarClass::O || my_is_base(c))
}

/// True if `cur` continues the syllable whose last character is `prev`.
pub open spec fn my_joins(prev: SourceChar, cur: SourceChar) -> bool {
    let p = prev.rec().myanmar_class;
    let c = cur.rec().myanmar_class;
    if my_is_dependent(c) {
        p != MyanmarClass::O
    } else {
        c == MyanmarClass::C && p == MyanmarClass::H
    }
}

/// True if `a`, `b`, `c`, `d` are a kinzi prefix followed by its base: a
/// consonant, an asat, a stacking virama and a consonant.
pub open spec fn my_kinzi(a: SourceChar, b: SourceChar, c: SourceChar, d: SourceChar) -> bool {
    a.rec().myanmar_class == MyanmarClass::C && b.rec().myanmar_class == MyanmarClass::As
        && c.rec().myanmar_class == MyanmarClass::H && d.rec().myanmar_class == MyanmarClass::C
}

/// The shaping class of `c` outside a kinzi prefix; `after_halant` tells
/// that the character before it in the syllable is a stacking virama.
pub open spec fn my_class_of(c: SourceChar, after_halant: bool) -> ShapeClass {
    match c.rec().myanmar_class {
        MyanmarClass::O => ShapeClass::Other,
        MyanmarClass::C => if after_halant {
            ShapeClass::MedialRa
        } else {
            ShapeClass::Base
        },
        MyanmarClass::IV => ShapeClass::Base,
        MyanmarClass::GB => ShapeClass::Base,
        MyanmarClass::As => ShapeClass::Halant,
        MyanmarClass::H => ShapeClass::Halant,
        MyanmarClass::MR => ShapeClass::MedialRa,
        MyanmarClass::M => ShapeClass::Mark,
        MyanmarClass::VPre => ShapeClass::VPre,
        MyanmarClass::VBlw => ShapeClass::VBlw,
        MyanmarClass::V => ShapeClass::Mark,
        MyanmarClass::A => ShapeClass::Anusvara,
        MyanmarClass::SM => ShapeClass::Mark,
        MyanmarClass::ZWJ => ShapeClass::Zwj,
        MyanmarClass::ZWNJ => ShapeClass::Zwnj,
        MyanmarClass::VS => ShapeClass::Vs,
    }
}

/// A syllable is broken when it starts with a dependent sign.
pub open spec fn my_broken(first: SourceChar) -> bool {
    my_is_dependent(first.rec().myanmar_class)
}

fn is_base(c: MyanmarClass) -> (r: bool)
    ensures
        r == my_is_base(c),
{
    matches!(c, MyanmarClass::C | MyanmarClass::IV | MyanmarClass::GB)
}

fn is_dependent(c: MyanmarClass) -> (r: bool)
    ensures
        r == my_is_dependent(c),
{
    !(c == MyanmarClass::O || is_base(c))
}

/// Decides whether `cur` continues the syllable whose last character is
/// `prev`.
pub fn my_continues(prev: &SourceChar, cur: &SourceChar) -> (r: bool)
    ensures
        r == my_joins(*prev, *cur),
{
    let p = prev.info.0.record.myanmar_class;
    let c = cur.info.0.record.myanmar_class;
    if is_dependent(c) {
        p != MyanmarClass::O
    } else {
        c == MyanmarClass::C && p == MyanmarClass::H
    }
}

/// Decides whether four characters are a kinzi prefix and its base.
pub fn my_is_kinzi(a: &SourceChar, b: &SourceChar, c: &SourceChar, d: &SourceChar) -> (r: bool)
    ensures
        r == my_kinzi(*a, *b, *c, *d),
{
    a.info.0.record.myanmar_class == MyanmarClass::C && b.info.0.record.myanmar_class
        == MyanmarClass::As && c.info.0.record.myanmar_class == MyanmarClass::H
        && d.info.0.record.myanmar_class == MyanmarClass::C
}

/// Returns the shaping class of `c` outside a kinzi prefix.
pub fn my_shape_class(c: &SourceChar, after_halant: bool) -> (r: ShapeClass)
    ensures
        r == my_class_of(*c, after_halant),
{
    match c.info.0.record.myanmar_class {
        MyanmarClass::O => ShapeClass::Other,
        MyanmarClass::C => if after_halant {
            ShapeClass::MedialRa
        } else {
            ShapeClass::Base
        },
        MyanmarClass::IV => ShapeClass::Base,
        MyanmarClass::GB => ShapeClass::Base,
        MyanmarClass::As => ShapeClass::Halant,
        MyanmarClass::H => ShapeClass::Halant,
        MyanmarClass::MR => ShapeClass::MedialRa,
        MyanmarClass::M => ShapeClass::Mark,
        MyanmarClass::VPre => ShapeClass::VPre,
        MyanmarClass::VBlw => ShapeClass::VBlw,
        MyanmarClass::V => ShapeClass::Mark,
        MyanmarClass::A => ShapeClass::Anusvara,
        MyanmarClass::SM => ShapeClass::Mark,
        MyanmarClass::ZWJ => ShapeClass::Zwj,
        MyanmarClass::ZWNJ => ShapeClass::Zwnj,
        MyanmarClass::VS => ShapeClass::Vs,
    }
}

/// Returns true if the syllable that starts with `first` is broken.
pub fn my_is_broken(first: &SourceChar) -> (r: bool)
    ensures
        r == my_broken(*first),
{
    is_dependent(first.info.0.record.myanmar_class)
}

} // verus!
