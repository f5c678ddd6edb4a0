use vstd::prelude::*;

verus! {

/// A page of results together with the total number of matching rows.
pub struct SearchType<T> {
    pub results: Vec<T>,
    pub total: usize,
}

/// A raw result row that carries the full count of the query it came from.
pub trait Total {
    /// The full count this row carries.
    spec fn spec_total(&self) -> usize;

    fn total(&self) -> (r: usize)
        ensures
            r == self.spec_total(),
    ;
}

/// Folds raw rows into a results page: the rows are kept, in order, and the
/// total is the full count the last row carries, or zero when there is none.
pub fn into_search_type<T: Total>(data: Vec<T>) -> (r: SearchType<T>)
    ensures
        r.results@ == data@,
        data@.len() == 0 ==> r.total == 0,
        data@.len() > 0 ==> r.total == data@.last().spec_total(),
{
    let mut total: usize = 0;
    if data.len() > 0 {
        total = data[data.len() - 1].total();
    }
    SearchType { results: data, total }
}

} // verus!
