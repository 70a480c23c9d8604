//! The mathematical model of the record store: the view of one service
//! record, the view of a whole table, and what it means for a listing to
//! enumerate a table.

use vstd::prelude::*;

verus! {

/// The mathematical value of one service record.
///
/// The price is carried as the 64-bit pattern the caller supplied; the store
/// performs no arithmetic on it and keeps it verbatim.
pub ghost struct ServiceView {
    pub id: Seq<char>,
    pub name: Seq<char>,
    pub price_bits: u64,
    pub duration: i32,
    pub is_active: bool,
}

/// A table of records, keyed by the record id.
pub type TableView = Map<Seq<char>, ServiceView>;

/// A listing `l` enumerates the table `m`: every listed record is stored
/// under its own id, no id is listed twice, and every stored id is listed.
/// No order is promised.
pub open spec fn lists_table(l: Seq<ServiceView>, m: TableView) -> bool {
    &&& forall|i: int|
        0 <= i < l.len() ==> m.contains_key(#[trigger] l[i].id) && m[l[i].id] == l[i]
    &&& forall|i: int, j: int|
        0 <= i < l.len() && 0 <= j < l.len() && #[trigger] l[i].id == #[trigger] l[j].id ==> i
            == j
    &&& forall|k: Seq<char>| #[trigger] m.contains_key(k) ==> exists|i: int|
        0 <= i < l.len() && l[i].id == k
}

} // verus!
