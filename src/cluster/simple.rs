//! Rules of the generic segmenter: an approximation of extended grapheme
//! clusters read from each character's cluster break property.

use vstd::prelude::*;

use super::char::{ShapeClass, SourceChar};
use crate::unicode::ClusterBreak;

verus! {

/// True for control characters, carriage return and line feed, which stand
/// alone in a grapheme cluster.
pub open spec fn is_control_break(b: ClusterBreak) -> bool {
    b == ClusterBreak::CN || b == ClusterBreak::CR || b == ClusterBreak::LF
}

/// True if `cur` continues the cluster whose last character is `prev`.
/// `second` tells that `prev` is the first character of the cluster.
pub open spec fn simple_joins(prev: SourceChar, cur: SourceChar, second: bool) -> bool {
    let p = prev.rec().cluster_break;
    let c = cur.rec().cluster_break;
    if p == ClusterBreak::CR && c == ClusterBreak::LF {
        true
    } else if is_control_break(p) || is_control_break(c) {
        false
    } else if p == ClusterBreak::L && (c == ClusterBreak::L || c == ClusterBreak::V || c
        == ClusterBreak::LV || c == ClusterBreak::LVT) {
        true
    } else if (p == ClusterBreak::LV || p == ClusterBreak::V) && (c == ClusterBreak::V || c
        == ClusterBreak::T) {
        true
    } else if (p == ClusterBreak::LVT || p == ClusterBreak::T) && c == ClusterBreak::T {
        true
    } else if c == ClusterBreak::EX || c == ClusterBreak::ZWJ || c == ClusterBreak::SM {
        true
    } else if cur.rec().is_variation_selector || cur.rec().combining_class != 0 {
        true
    } else if p == ClusterBreak::PP {
        true
    } else if p == ClusterBreak::ZWJ && cur.rec().is_extended_pictographic {
        true
    } else {
        second && p == ClusterBreak::RI && c == ClusterBreak::RI
    }
}

/// The shaping class that the generic segmenter gives a character.
pub open spec fn simple_class(c: SourceChar) -> ShapeClass {
    let r = c.rec();
    if r.is_variation_selector {
        ShapeClass::Vs
    } else if r.cluster_break == ClusterBreak::ZWJ {
        ShapeClass::Zwj
    } else if c.ch == '\u{200c}' {
        ShapeClass::Zwnj
    } else if r.cluster_break == ClusterBreak::CN {
        ShapeClass::Control
    } else if r.combining_class != 0 {
        ShapeClass::Mark
    } else {
        ShapeClass::Base
    }
}

fn control_break(b: ClusterBreak) -> (r: bool)
    ensures
        r == is_control_break(b),
{
    matches!(b, ClusterBreak::CN | ClusterBreak::CR | ClusterBreak::LF)
}

/// Decides whether `cur` continues the cluster whose last character is
/// `prev`.
pub fn simple_continues(prev: &SourceChar, cur: &SourceChar, second: bool) -> (r: bool)
    ensures
        r == simple_joins(*prev, *cur, second),
{
    let p = prev.info.0.record.cluster_break;
    let c = cur.info.0.record.cluster_break;
    if p == ClusterBreak::CR && c == ClusterBreak::LF {
        true
    } else if control_break(p) || control_break(c) {
        false
    } else if p == ClusterBreak::L && (c == ClusterBreak::L || c == ClusterBreak::V || c
        == ClusterBreak::LV || c == ClusterBreak::LVT) {
        true
    } else if (p == ClusterBreak::LV || p == ClusterBreak::V) && (c == ClusterBreak::V || c
        == ClusterBreak::T) {
        true
    } else if (p == ClusterBreak::LVT || p == ClusterBreak::T) && c == ClusterBreak::T {
        true
    } else if c == ClusterBreak::EX || c == ClusterBreak::ZWJ || c == ClusterBreak::SM {
        true
    } else if cur.info.0.record.is_variation_selector || cur.info.0.record.combining_class != 0 {
        true
    } else if p == ClusterBreak::PP {
        true
    } else if p == ClusterBreak::ZWJ && cur.info.0.record.is_extended_pictographic {
        true
    } else {
        second && p == ClusterBreak::RI && c == ClusterBreak::RI
    }
}

/// Returns the shaping class that the generic segmenter gives `c`.
pub fn simple_shape_class(c: &SourceChar) -> (r: ShapeClass)
    ensures
        r == simple_class(*c),
{
    let r = c.info.0.record;
    if r.is_variation_selector {
        ShapeClass::Vs
    } else if r.cluster_break == ClusterBreak::ZWJ {
        ShapeClass::Zwj
    } else if c.ch == '\u{200c}' {
        ShapeClass::Zwnj
    } else if r.cluster_break == ClusterBreak::CN {
        ShapeClass::Control
    } else if r.combining_class != 0 {
        ShapeClass::Mark
    } else {
        ShapeClass::Base
    }
}

} // verus!
