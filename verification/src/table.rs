//! The rows of a table as records of named fields.
use vstd::prelude::*;
use crate::bytes::texts;

verus! {

/// What a record of named fields holds: the names paired with the values of
/// a row, position by position, as far as both reach.
pub open spec fn paired(headers: Seq<Seq<char>>, row: Seq<Seq<char>>) -> Seq<(Seq<char>, Seq<char>)> {
    Seq::new(
        if headers.len() <= row.len() {
            headers.len()
        } else {
            row.len()
        },
        |i: int| (headers[i], row[i]),
    )
}

/// The texts of a list of pairs of strings.
pub open spec fn pair_texts(list: Seq<(String, String)>) -> Seq<(Seq<char>, Seq<char>)> {
    Seq::new(list.len(), |i: int| (list[i].0@, list[i].1@))
}

/// Pairs the names of the columns with the values of one row. A row with
/// fewer values than there are names leaves the last names out; values
/// beyond the last name are dropped.
pub fn pair_fields(headers: &Vec<String>, row: &Vec<String>) -> (r: Vec<(String, String)>)
    ensures
        pair_texts(r@) == paired(texts(headers@), texts(row@)),
{
    let n = if headers.len() <= row.len() {
        headers.len()
    } else {
        row.len()
    };
    let mut out: Vec<(String, String)> = Vec::new();
    let mut i: usize = 0;
    while i < n
        invariant
            i <= n,
            n <= headers@.len(),
            n <= row@.len(),
            out@.len() == i,
            forall|j: int| 0 <= j < i ==> out@[j].0@ == headers@[j]@ && out@[j].1@ == row@[j]@,
        decreases n - i,
    {
        out.push((headers[i].clone(), row[i].clone()));
        i += 1;
    }
    out
}

} // verus!
