use vstd::prelude::*;

verus! {

/// Whether `cell` is a well-formed index of a hexagonal-grid cell.
pub uninterp spec fn h3_cell_valid(cell: u64) -> bool;

/// The lower-case hexadecimal digit for `d < 16`.
pub open spec fn hex_digit(d: nat) -> char {
    seq!['0', '1', '2', '3', '4', '5', '6', '7', '8', '9', 'a', 'b', 'c', 'd', 'e', 'f'][d as int]
}

/// `n` written in lower-case hexadecimal, without leading zeros.
pub open spec fn lower_hex(n: nat) -> Seq<char>
    decreases n,
{
    if n < 16 {
        seq![hex_digit(n)]
    } else {
        lower_hex(n / 16).push(hex_digit(n % 16))
    }
}

/// The textual label of a spatial cell, or `None` when `cell` is no valid cell.
///
/// Relies on h3o's `CellIndex::try_from(u64)`, which accepts exactly the valid
/// cell indexes, and on `CellIndex`'s `Display`, which writes the index in
/// lower-case hexadecimal (`{:x}`).
#[verifier::external_body]
pub(crate) fn cell_label(cell: u64) -> (r: Option<String>)
    ensures
        r.is_some() == h3_cell_valid(cell),
        r matches Some(s) ==> s@ == lower_hex(cell as nat),
{
    match h3o::CellIndex::try_from(cell) {
        Ok(index) => Some(index.to_string()),
        Err(_) => None,
    }
}

} // verus!
