use vstd::prelude::*;
use vstd::string::StringExecFns;
use crate::error::CollectError;
use crate::model::{first_ill_formed, CryptoListing};

verus! {

/// The request that one cycle sends: a GET of `url` with the credential in
/// the header named `header`.
#[derive(Debug, Clone, PartialEq, Eq)]
pub struct ListingRequest {
    pub url: String,
    pub header: String,
    pub credential: String,
}

/// What came back from the source: the HTTP status, and the body as text
/// or the reason why the body could not be read.
#[derive(Debug, PartialEq, Eq)]
pub struct HttpReply {
    pub status: u16,
    pub body: Result<String, String>,
}

/// The listings endpoint: the first 5000 ranked assets, quoted in USD.
pub open spec fn spec_listings_url() -> Seq<char> {
    "https://pro-api.coinmarketcap.com/v1/cryptocurrency/listings/latest?start=1&limit=5000&convert=USD"@
}

/// The name of the header that carries the credential.
pub open spec fn spec_credential_header() -> Seq<char> {
    "X-CMC_PRO_API_KEY"@
}

/// The listings endpoint: the first 5000 ranked assets, quoted in USD.
pub fn listings_url() -> (r: &'static str)
    ensures
        r@ == spec_listings_url(),
{
    "https://pro-api.coinmarketcap.com/v1/cryptocurrency/listings/latest?start=1&limit=5000&convert=USD"
}

/// The name of the header that carries the credential.
pub fn credential_header() -> (r: &'static str)
    ensures
        r@ == spec_credential_header(),
{
    "X-CMC_PRO_API_KEY"
}

/// Describes the one request of a cycle for the given credential.
pub fn listing_request(api_key: &str) -> (r: ListingRequest)
    ensures
        r.url@ == spec_listings_url(),
        r.header@ == spec_credential_header(),
        r.credential@ == api_key@,
{
    ListingRequest {
        url: listings_url().to_owned(),
        header: credential_header().to_owned(),
        credential: api_key.to_owned(),
    }
}

/// Whether an HTTP status signals success.
pub open spec fn success_status(status: u16) -> bool {
    200 <= status <= 299
}

/// What the network path yields for each outcome of the exchange.
pub open spec fn web_outcome(exchange: Result<HttpReply, String>) -> Result<
    String,
    CollectError,
> {
    match exchange {
        Err(reason) => Err(CollectError::Transport(reason)),
        Ok(reply) => if !success_status(reply.status) {
            Err(CollectError::Upstream(reply.status as i32, None))
        } else {
            match reply.body {
                Ok(text) => Ok(text),
                Err(reason) => Err(CollectError::Transport(reason)),
            }
        },
    }
}

/// How the description of a listing with a number that is not finite
/// begins; the symbol of the offending asset follows.
pub open spec fn spec_not_finite() -> Seq<char> {
    "a number is not finite in the asset "@
}

/// How the description of a listing with a number that is not finite
/// begins; the symbol of the offending asset follows.
pub fn not_finite() -> (r: &'static str)
    ensures
        r@ == spec_not_finite(),
{
    "a number is not finite in the asset "
}

impl CryptoListing {
    /// Judges the outcome of the HTTP exchange. A connection failure is a
    /// transport error carrying its reason. A reply outside 200..=299 is an
    /// upstream error carrying the status and no message, whether or not
    /// its body could be read, and its body is never decoded. A successful
    /// reply whose body could not be read is a transport error; otherwise
    /// the body is handed on as it came. No request is repeated here.
    pub fn fetch_web(exchange: Result<HttpReply, String>) -> (r: Result<String, CollectError>)
        ensures
            r == web_outcome(exchange),
    {
        match exchange {
            Err(reason) => Err(CollectError::Transport(reason)),
            Ok(reply) => {
                if !(200 <= reply.status && reply.status <= 299) {
                    Err(CollectError::Upstream(reply.status as i32, None))
                } else {
                    match reply.body {
                        Ok(text) => Ok(text),
                        Err(reason) => Err(CollectError::Transport(reason)),
                    }
                }
            },
        }
    }

    /// Judges the outcome of parsing a payload. A parser failure is a decode
    /// error carrying the parser's description. A listing whose status block
    /// reports a non-zero error code is an upstream error carrying that code
    /// and the block's error message, whatever `data` holds. A listing that
    /// holds a number that is not finite does not have the expected shape
    /// and is a decode error that names the symbol of the first asset with
    /// such a number. Any other listing is accepted unchanged.
    pub fn fetch(decoded: Result<CryptoListing, String>) -> (r: Result<CryptoListing, CollectError>)
        ensures
            decoded matches Err(description) ==> r == Err::<CryptoListing, CollectError>(
                CollectError::Decode(description),
            ),
            decoded matches Ok(listing) ==> (listing.status.error_code != 0 ==> r == Err::<
                CryptoListing,
                CollectError,
            >(CollectError::Upstream(listing.status.error_code, listing.status.error_message))),
            decoded matches Ok(listing) ==> (listing.status.error_code == 0 && !listing.wf() ==> (r
                matches Err(CollectError::Decode(d)) && exists|k: int| #[trigger]
                first_ill_formed(listing.data@, k) && d@ == spec_not_finite()
                    + listing.data@[k].symbol@)),
            decoded matches Ok(listing) ==> (listing.status.error_code == 0 && listing.wf() ==> r
                == Ok::<CryptoListing, CollectError>(listing)),
    {
        match decoded {
            Err(description) => Err(CollectError::Decode(description)),
            Ok(listing) => {
                if listing.status.error_code != 0 {
                    Err(
                        CollectError::Upstream(
                            listing.status.error_code,
                            listing.status.error_message,
                        ),
                    )
                } else {
                    match listing.find_ill_formed() {
                        Some(k) => {
                            let symbol = listing.data[k].symbol.as_str();
                            Err(CollectError::Decode(not_finite().to_owned().concat(symbol)))
                        },
                        None => Ok(listing),
                    }
                }
            },
        }
    }
}

} // verus!
