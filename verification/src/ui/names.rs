//! The names that components get when the user gives none.

use crate::ui::dummies::DummyComponentView;
use vstd::prelude::*;

verus! {

/// The character of a decimal digit.
pub open spec fn digit(d: nat) -> char {
    if d == 0 {
        '0'
    } else if d == 1 {
        '1'
    } else if d == 2 {
        '2'
    } else if d == 3 {
        '3'
    } else if d == 4 {
        '4'
    } else if d == 5 {
        '5'
    } else if d == 6 {
        '6'
    } else if d == 7 {
        '7'
    } else if d == 8 {
        '8'
    } else {
        '9'
    }
}

/// A number in decimal digits, without leading zeros.
pub open spec fn decimal(n: nat) -> Seq<char>
    decreases n,
{
    if n < 10 {
        seq![digit(n)]
    } else {
        decimal(n / 10).push(digit(n % 10))
    }
}

/// The counter after one more name was given. It starts again at zero
/// after the largest number.
pub open spec fn spec_next_count(count: usize) -> usize {
    if count == usize::MAX {
        0
    } else {
        (count + 1) as usize
    }
}

#[verifier::when_used_as_spec(spec_next_count)]
pub fn next_count(count: usize) -> (next: usize)
    ensures
        next == spec_next_count(count),
{
    if count == usize::MAX {
        0
    } else {
        count + 1
    }
}

/// The name that a component gets where the user gave none: "base" for a
/// base, "body" and "revolute" with the number `count` behind for the
/// others.
pub open spec fn default_name(dummy: DummyComponentView, count: usize) -> Seq<char> {
    match dummy {
        DummyComponentView::Base(_) => "base"@,
        DummyComponentView::Body(_) => "body"@ + decimal(count as nat),
        DummyComponentView::Revolute(_) => "revolute"@ + decimal(count as nat),
    }
}

/// Writes `count` in decimal digits behind `prefix`. Trusted: the text is
/// made by the standard library's `format!`, which writes an unsigned
/// number in decimal digits without sign or leading zeros.
#[verifier::external_body]
pub(crate) fn numbered(prefix: &str, count: usize) -> (name: String)
    ensures
        name@ == prefix@ + decimal(count as nat),
{
    format!("{}{}", prefix, count)
}

} // verus!
