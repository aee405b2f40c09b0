//! Rendering of rows of text cells as a table, by the `tabled` crate.

use vstd::prelude::*;
use crate::text::texts;

verus! {

/// The cells of each record, as text.
pub open spec fn records_view(records: Seq<Vec<String>>) -> Seq<Seq<Seq<char>>> {
    records.map_values(|r: Vec<String>| texts(r@))
}

/// The text of the table that `tabled` builds from these records (the first
/// one being the header) in its bordered ASCII style (`+---+` lines).
pub uninterp spec fn ascii_table(records: Seq<Seq<Seq<char>>>) -> Seq<char>;

/// Renders records of cells with `tabled`: `Table::from_iter` over the
/// records, then `Table::with(Style::ascii())`, then its `Display` text.
/// Claimed: the text is a function of the records' cells alone, named
/// [`ascii_table`]; nothing more is stated of it.
#[verifier::external_body]
pub(crate) fn render_ascii(records: &Vec<Vec<String>>) -> (r: String)
    ensures
        r@ == ascii_table(records_view(records@)),
{
    let mut table = tabled::Table::from_iter(records.iter().cloned());
    table.with(tabled::settings::Style::ascii());
    table.to_string()
}

/// A record of two cells.
pub fn record2(a: String, b: String) -> (r: Vec<String>)
    ensures
        texts(r@) == seq![a@, b@],
{
    let ghost va = a@;
    let ghost vb = b@;
    let mut r: Vec<String> = Vec::new();
    r.push(a);
    r.push(b);
    assert(texts(r@) =~= seq![va, vb]);
    r
}

/// A record of three cells.
pub fn record3(a: String, b: String, c: String) -> (r: Vec<String>)
    ensures
        texts(r@) == seq![a@, b@, c@],
{
    let ghost va = a@;
    let ghost vb = b@;
    let ghost vc = c@;
    let mut r: Vec<String> = Vec::new();
    r.push(a);
    r.push(b);
    r.push(c);
    assert(texts(r@) =~= seq![va, vb, vc]);
    r
}

} // verus!
