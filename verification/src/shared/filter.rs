use vstd::prelude::*;

verus! {

/// How a query treats one column: keep the rows whose value is the given one
/// (`Val`), keep the rows where it is missing (`Null`), or keep every row
/// (`Ignore`).
#[derive(Clone, Debug)]
pub enum QueryFilter<T> {
    Val(T),
    Null,
    Ignore,
}

impl<T> Default for QueryFilter<T> {
    /// The filter that keeps every row.
    fn default() -> (r: Self)
        ensures
            r is Ignore,
    {
        QueryFilter::Ignore
    }
}

impl<T> QueryFilter<T> {
    /// Converts the value of a `Val` filter with `f`, which may fail; the
    /// other two filters are kept as they are and `f` is not called.
    pub fn try_map<U, E>(self, f: impl FnOnce(T) -> Result<U, E>) -> (r: Result<QueryFilter<U>, E>)
        requires
            self matches QueryFilter::Val(v) ==> f.requires((v,)),
        ensures
            match self {
                QueryFilter::Val(v) => match r {
                    Ok(QueryFilter::Val(u)) => f.ensures((v,), Ok(u)),
                    Ok(_) => false,
                    Err(e) => f.ensures((v,), Err(e)),
                },
                QueryFilter::Null => r matches Ok(QueryFilter::Null),
                QueryFilter::Ignore => r matches Ok(QueryFilter::Ignore),
            },
    {
        match self {
            QueryFilter::Val(value) => match f(value) {
                Ok(u) => Ok(QueryFilter::Val(u)),
                Err(e) => Err(e),
            },
            QueryFilter::Null => Ok(QueryFilter::Null),
            QueryFilter::Ignore => Ok(QueryFilter::Ignore),
        }
    }
}

} // verus!
