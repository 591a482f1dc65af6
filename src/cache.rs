use vstd::prelude::*;

verus! {

/// What the metadata store holds for one cached query result.
#[derive(Clone, Debug)]
pub struct ResultCacheValue {
    /// A digest of the partitions the result was computed from.
    pub partitions_sha: String,
    pub num_rows: u64,
    /// Where the result's blocks were written.
    pub location: String,
}

/// How a cached result is to be served.
#[derive(Clone, Debug)]
pub enum CacheLookup {
    /// Nothing usable is cached: run the query.
    Miss,
    /// The cached result has no rows: serve one empty block.
    EmptyResult,
    /// Read the cached blocks from this location.
    ReadFrom(String),
}

/// Decides how to serve a query from the cache: an entry is usable only when
/// it was computed from the same partitions the query reads now.
pub fn lookup_cached_result(entry: Option<&ResultCacheValue>, partitions_sha: &String) -> (r: CacheLookup)
    ensures
        match entry {
            None => r is Miss,
            Some(v) => if v.partitions_sha@ != partitions_sha@ {
                r is Miss
            } else if v.num_rows == 0 {
                r is EmptyResult
            } else {
                r matches CacheLookup::ReadFrom(l) && l@ == v.location@
            },
        },
{
    match entry {
        None => CacheLookup::Miss,
        Some(v) => if v.partitions_sha != *partitions_sha {
            CacheLookup::Miss
        } else if v.num_rows == 0 {
            CacheLookup::EmptyResult
        } else {
            CacheLookup::ReadFrom(v.location.clone())
        },
    }
}

} // verus!
