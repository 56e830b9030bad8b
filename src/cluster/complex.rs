//! Rules of the generic complex engine for Indic style scripts: a syllable
//! is an optional repha, one base and the halant, medial, vowel and modifier
//! signs that follow it.

use vstd::prelude::*;

use super::char::{ShapeClass, SourceChar};
use crate::unicode::UseClass;

verus! {

/// Classes that can anchor a syllable.
pub open spec fn use_is_base(c: UseClass) -> bool {
    c == UseClass::B || c == UseClass::IV || c == UseClass::GB
}

/// Classes that attach to the syllable before them.
pub open spec fn use_is_dependent(c: UseClass) -> bool {
    !(c == UseClass::O || c == UseClass::R || use_is_base(c))
}

/// True if `cur` continues the syllable whose last character is `prev`.
/// `second` tells that `prev` is the first character of the syllable.
pub open spec fn use_joins(prev: SourceChar, cur: SourceChar, second: bool) -> bool {
    let p = prev.rec().use_class;
    let c = cur.rec().use_class;
    if use_is_dependent(c) {
        p != UseClass::O
    } else if c == UseClass::B && p == UseClass::H {
        true
    } else {
        second && p == UseClass::R && use_is_base(c)
    }
}

/// The shaping class of `c`; `after_halant` tells that the character
/// before it in the syllable is a halant.
pub open spec fn use_class_of(c: SourceChar, after_halant: bool) -> ShapeClass {
    match c.rec().use_class {
        UseClass::O => ShapeClass::Other,
        UseClass::B => if after_halant {
            ShapeClass::MedialRa
        } else {
            ShapeClass::Base
        },
        UseClass::IV => ShapeClass::Base,
        UseClass::GB => ShapeClass::Base,
        UseClass::R => ShapeClass::Reph,
        UseClass::H => ShapeClass::Halant,
        UseClass::N => ShapeClass::Mark,
        UseClass::CM => ShapeClass::MedialRa,
        UseClass::MPre => ShapeClass::Pref,
        UseClass::VPre => ShapeClass::VPre,
        UseClass::VBlw => ShapeClass::VBlw,
        UseClass::V => ShapeClass::Mark,
        UseClass::VMPre => ShapeClass::VmPre,
        UseClass::VM => ShapeClass::Anusvara,
        UseClass::ZWJ => ShapeClass::Zwj,
        UseClass::ZWNJ => ShapeClass::Zwnj,
        UseClass::VS => ShapeClass::Vs,
    }
}

/// A syllable is broken when it starts with a dependent sign, or with a
/// repha that no base follows.
pub open spec fn use_broken(first: SourceChar, has_next: bool, next: SourceChar) -> bool {
    let c = first.rec().use_class;
    use_is_dependent(c) || (c == UseClass::R && !(has_next && use_is_base(next.rec().use_class)))
}

fn is_base(c: UseClass) -> (r: bool)
    ensures
        r == use_is_base(c),
{
    matches!(c, UseClass::B | UseClass::IV | UseClass::GB)
}

fn is_dependent(c: UseClass) -> (r: bool)
    ensures
        r == use_is_dependent(c),
{
    !(matches!(c, UseClass::O | UseClass::R) || is_base(c))
}

/// Decides whether `cur` continues the syllable whose last character is
/// `prev`.
pub fn use_continues(prev: &SourceChar, cur: &SourceChar, second: bool) -> (r: bool)
    ensures
        r == use_joins(*prev, *cur, second),
{
    let p = prev.info.0.record.use_class;
    let c = cur.info.0.record.use_class;
    if is_dependent(c) {
        p != UseClass::O
    } else if c == UseClass::B && p == UseClass::H {
        true
    } else {
        second && p == UseClass::R && is_base(c)
    }
}

/// Returns the shaping class of `c` in a syllable.
pub fn use_shape_class(c: &SourceChar, after_halant: bool) -> (r: ShapeClass)
    ensures
        r == use_class_of(*c, after_halant),
{
    match c.info.0.record.use_class {
        UseClass::O => ShapeClass::Other,
        UseClass::B => if after_halant {
            ShapeClass::MedialRa
        } else {
            ShapeClass::Base
        },
        UseClass::IV => ShapeClass::Base,
        UseClass::GB => ShapeClass::Base,
        UseClass::R => ShapeClass::Reph,
        UseClass::H => ShapeClass::Halant,
        UseClass::N => ShapeClass::Mark,
        UseClass::CM => ShapeClass::MedialRa,
        UseClass::MPre => ShapeClass::Pref,
        UseClass::VPre => ShapeClass::VPre,
        UseClass::VBlw => ShapeClass::VBlw,
        UseClass::V => ShapeClass::Mark,
        UseClass::VMPre => ShapeClass::VmPre,
        UseClass::VM => ShapeClass::Anusvara,
        UseClass::ZWJ => ShapeClass::Zwj,
        UseClass::ZWNJ => ShapeClass::Zwnj,
        UseClass::VS => ShapeClass::Vs,
    }
}

/// Returns true if the syllable that starts with `first` is broken; `next`
/// is the character after it, if any.
pub fn use_is_broken(first: &SourceChar, next: Option<&SourceChar>) -> (r: bool)
    ensures
        r == use_broken(
            *first,
            next.is_some(),
            match next {
                Some(n) => *n,
                None => *first,
            },
        ),
{
    let c = first.info.0.record.use_class;
    if is_dependent(c) {
        true
    } else if c == UseClass::R {
        match next {
            Some(n) => !is_base(n.info.0.record.use_class),
            None => true,
        }
    } else {
        false
    }
}

} // verus!
