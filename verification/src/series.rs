use vstd::prelude::*;
use vstd::string::StringExecFns;

verus! {

/// The lowercase form of a string as `str::to_lowercase` computes it
/// (Unicode lowercasing, which depends only on the characters given).
pub uninterp spec fn lowercase_of(s: Seq<char>) -> Seq<char>;

/// Calls `str::to_lowercase`. The contract only gives the result its name:
/// it is the lowercase form of the argument.
#[verifier::external_body]
pub(crate) fn to_lowercase(s: &str) -> (r: String)
    ensures
        r@ == lowercase_of(s@),
{
    s.to_lowercase()
}

/// The name of the series that an asset's points are written to: its symbol
/// in lowercase.
pub fn series_key(symbol: &str) -> (key: String)
    ensures
        key@ == lowercase_of(symbol@),
{
    to_lowercase(symbol)
}

/// The text of the query that reads every point of a series.
pub fn read_data(series: &str) -> (query: String)
    ensures
        query@ == "SELECT * FROM "@ + series@,
{
    "SELECT * FROM ".to_owned().concat(series)
}

} // verus!
