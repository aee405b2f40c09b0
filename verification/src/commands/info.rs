//! The `info` subcommand: what the ManagedApplication service tells about
//! itself, and the rows that show it.

use vstd::prelude::*;
use crate::table::{ascii_table, record2, records_view, render_ascii};
use crate::text::{clone_texts, join, join_texts, texts};

verus! {

/// Request payload for the Info operation (no parameters required).
#[derive(Debug)]
pub struct InfoRequest {}

/// A listening address paired with the services reachable at that address.
#[derive(Debug)]
pub struct ListeningAddress {
    pub address: String,
    pub services: Vec<String>,
}

impl View for ListeningAddress {
    type V = (Seq<char>, Seq<Seq<char>>);

    open spec fn view(&self) -> (Seq<char>, Seq<Seq<char>>) {
        (self.address@, texts(self.services@))
    }
}

/// Response payload for the Info operation.
#[derive(Debug)]
pub struct InfoResponse {
    pub app_name: String,
    pub listening_addresses: Vec<ListeningAddress>,
}

/// Table row used when rendering the info response.
#[derive(Debug)]
pub struct ListeningAddressRow {
    pub address: String,
    pub services: String,
}

/// The views of a list of listening addresses.
pub open spec fn addresses_view(v: Seq<ListeningAddress>) -> Seq<(Seq<char>, Seq<Seq<char>>)> {
    v.map_values(|a: ListeningAddress| a@)
}

/// Copies a listening address.
pub fn clone_address(a: &ListeningAddress) -> (r: ListeningAddress)
    ensures
        r@ == a@,
{
    ListeningAddress { address: a.address.clone(), services: clone_texts(&a.services) }
}

/// Copies a list of listening addresses.
pub fn clone_addresses(v: &Vec<ListeningAddress>) -> (r: Vec<ListeningAddress>)
    ensures
        addresses_view(r@) == addresses_view(v@),
{
    let mut out: Vec<ListeningAddress> = Vec::new();
    let n = v.len();
    let mut i: usize = 0;
    while i < n
        invariant
            n == v@.len(),
            i <= n,
            out@.len() == i,
            forall|j: int| 0 <= j < i ==> (#[trigger] out@[j])@ == v@[j]@,
        decreases n - i,
    {
        out.push(clone_address(&v[i]));
        i += 1;
    }
    assert(addresses_view(out@) =~= addresses_view(v@));
    out
}

/// The table rows that show an Info response: one per listening address,
/// with its services separated by `, ` in one cell.
pub fn info_rows(response: &InfoResponse) -> (rows: Vec<ListeningAddressRow>)
    ensures
        rows@.len() == response.listening_addresses@.len(),
        forall|i: int|
            0 <= i < rows@.len() ==> (#[trigger] rows@[i]).address@
                == response.listening_addresses@[i].address@ && rows@[i].services@ == join(
                texts(response.listening_addresses@[i].services@),
                ", "@,
            ),
{
    let mut rows: Vec<ListeningAddressRow> = Vec::new();
    let n = response.listening_addresses.len();
    let mut i: usize = 0;
    while i < n
        invariant
            n == response.listening_addresses@.len(),
            i <= n,
            rows@.len() == i,
            forall|j: int|
                0 <= j < i ==> (#[trigger] rows@[j]).address@
                    == response.listening_addresses@[j].address@ && rows@[j].services@ == join(
                    texts(response.listening_addresses@[j].services@),
                    ", "@,
                ),
        decreases n - i,
    {
        let a = &response.listening_addresses[i];
        rows.push(
            ListeningAddressRow {
                address: a.address.clone(),
                services: join_texts(&a.services, ", "),
            },
        );
        i += 1;
    }
    rows
}

/// The records of the table that shows the listening addresses of an Info response: the header, then
/// the cells of each row.
pub open spec fn info_records(rows: Seq<ListeningAddressRow>) -> Seq<Seq<Seq<char>>> {
    seq![seq!["Address"@, "Services"@]] + rows.map_values(|r: ListeningAddressRow| seq![r.address@, r.services@])
}

/// The table that shows the listening addresses of an Info response.
pub fn info_table(rows: &Vec<ListeningAddressRow>) -> (r: String)
    ensures
        r@ == ascii_table(info_records(rows@)),
{
    let mut records: Vec<Vec<String>> = Vec::new();
    records.push(record2(String::from_str("Address"), String::from_str("Services")));
    let n = rows.len();
    let mut i: usize = 0;
    while i < n
        invariant
            n == rows@.len(),
            i <= n,
            records_view(records@) == info_records(rows@.take(i as int)),
        decreases n - i,
    {
        let ghost before = records_view(records@);
        let row = &rows[i];
        let record = record2(row.address.clone(), row.services.clone());
        let ghost rv = texts(record@);
        records.push(record);
        assert(records_view(records@) =~= before.push(rv));
        assert(info_records(rows@.take(i + 1)) =~= info_records(rows@.take(i as int)).push(rv));
        i += 1;
    }
    assert(rows@.take(n as int) =~= rows@);
    render_ascii(&records)
}

/// The line above the table of an Info response, naming the application.
pub fn info_title(response: &InfoResponse) -> (r: String)
    ensures
        r@ == "Application: "@ + response.app_name@,
{
    let mut t = String::from_str("Application: ");
    t.append(response.app_name.as_str());
    t
}

/// The Info table has the header `Address | Services`, then one record per listening address in order, with the address under `Address` and its services under `Services`.
pub proof fn lemma_info_table_columns(rows: Seq<ListeningAddressRow>)
    ensures
        info_records(rows).len() == rows.len() + 1,
        info_records(rows)[0] == seq!["Address"@, "Services"@],
        forall|i: int|
            0 <= i < rows.len() ==> #[trigger] info_records(rows)[i + 1] == seq![rows[i].address@, rows[i].services@],
{
    assert forall|i: int| 0 <= i < rows.len() implies #[trigger] info_records(rows)[i + 1] == seq![rows[i].address@, rows[i].services@] by {
        let r = rows[i];
        assert(info_records(rows)[i + 1] == seq![r.address@, r.services@]);
    }
}

} // verus!
