//! The cursor-position and mode types of `console_traits`, which the frame
//! buffer's text API takes and returns.
//!
//! These types are plain data with public fields; Verus reads the fields
//! as `console_traits` declares them.
use vstd::prelude::*;

verus! {

/// `console_traits::Row`: a text row, zero at the top.
#[verifier::external_type_specification]
pub struct ExRow(console_traits::Row);

/// `console_traits::Col`: a text column, zero on the left.
#[verifier::external_type_specification]
pub struct ExCol(console_traits::Col);

/// `console_traits::Position`: a row and a column.
#[verifier::external_type_specification]
pub struct ExPosition(console_traits::Position);

/// `console_traits::ControlCharMode`: whether control bytes are obeyed or
/// shown.
#[verifier::external_type_specification]
pub struct ExControlCharMode(console_traits::ControlCharMode);

/// `console_traits::EscapeCharMode`: whether the byte before was the
/// escape byte.
#[verifier::external_type_specification]
pub struct ExEscapeCharMode(console_traits::EscapeCharMode);

/// Relies on `console_traits::Position::origin`, which builds row 0,
/// column 0.
pub assume_specification[ console_traits::Position::origin ]() -> (r: console_traits::Position)
    ensures
        r.row.0 == 0,
        r.col.0 == 0,
;

} // verus!
