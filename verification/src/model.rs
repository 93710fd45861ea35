use vstd::prelude::*;

verus! {

/// Whether a bit pattern is that of a finite IEEE-754 double: its eleven
/// exponent bits are not all set.
pub open spec fn finite_bits(bits: u64) -> bool {
    (bits >> 52u64) & 0x7ffu64 != 0x7ffu64
}

/// Tests whether `bits` encodes a finite double (neither infinite nor NaN).
pub fn is_finite_bits(bits: u64) -> (r: bool)
    ensures
        r == finite_bits(bits),
{
    (bits >> 52u64) & 0x7ffu64 != 0x7ffu64
}

/// Whether an optional number is absent or finite.
pub open spec fn finite_or_absent(bits: Option<u64>) -> bool {
    bits matches Some(b) ==> finite_bits(b)
}

/// Tests whether an optional number is absent or finite.
pub fn is_finite_or_absent(bits: Option<u64>) -> (r: bool)
    ensures
        r == finite_or_absent(bits),
{
    match bits {
        Some(b) => is_finite_bits(b),
        None => true,
    }
}

/// Marker for the platform an asset is issued on. It carries no fields: only
/// its presence or absence is recorded.
#[derive(Debug, Clone)]
pub struct CryptoPlatform {}

/// A snapshot of price, volume and market capitalisation in one currency.
/// Every number is the bit pattern of a double.
#[derive(Debug, Clone, PartialEq, Eq)]
pub struct CurrencyQuote {
    pub price: u64,
    pub volume_24h: u64,
    pub volume_change_24h: u64,
    pub percent_change_1h: u64,
    pub percent_change_24h: u64,
    pub percent_change_7d: u64,
    pub percent_change_30d: u64,
    pub percent_change_60d: u64,
    pub percent_change_90d: u64,
    pub market_cap: u64,
    pub market_cap_dominance: u64,
    pub fully_diluted_market_cap: u64,
    pub tvl: Option<u64>,
    /// Reported by the source; advisory only, never used as a point's time.
    pub last_updated: String,
}

impl CurrencyQuote {
    /// All numbers of the quote are finite.
    pub open spec fn wf(self) -> bool {
        &&& finite_bits(self.price)
        &&& finite_bits(self.volume_24h)
        &&& finite_bits(self.volume_change_24h)
        &&& finite_bits(self.percent_change_1h)
        &&& finite_bits(self.percent_change_24h)
        &&& finite_bits(self.percent_change_7d)
        &&& finite_bits(self.percent_change_30d)
        &&& finite_bits(self.percent_change_60d)
        &&& finite_bits(self.percent_change_90d)
        &&& finite_bits(self.market_cap)
        &&& finite_bits(self.market_cap_dominance)
        &&& finite_bits(self.fully_diluted_market_cap)
        &&& finite_or_absent(self.tvl)
    }

    /// Tests whether all numbers of the quote are finite.
    pub fn is_well_formed(&self) -> (r: bool)
        ensures
            r == self.wf(),
    {
        is_finite_bits(self.price) && is_finite_bits(self.volume_24h) && is_finite_bits(
            self.volume_change_24h,
        ) && is_finite_bits(self.percent_change_1h) && is_finite_bits(self.percent_change_24h)
            && is_finite_bits(self.percent_change_7d) && is_finite_bits(self.percent_change_30d)
            && is_finite_bits(self.percent_change_60d) && is_finite_bits(self.percent_change_90d)
            && is_finite_bits(self.market_cap) && is_finite_bits(self.market_cap_dominance)
            && is_finite_bits(self.fully_diluted_market_cap) && is_finite_or_absent(self.tvl)
    }
}

/// The quotes of one asset, keyed by currency code. Only one is consumed.
#[allow(non_snake_case)]
#[derive(Debug, Clone, PartialEq, Eq)]
pub struct CryptoQuote {
    pub USD: CurrencyQuote,
}

/// One asset of a listing: identity, supply metrics and its quote.
#[derive(Debug, Clone)]
pub struct CryptoData {
    pub id: i32,
    pub name: String,
    pub symbol: String,
    pub slug: String,
    pub num_market_pairs: i32,
    pub date_added: String,
    pub tags: Vec<String>,
    pub max_supply: Option<u64>,
    pub circulating_supply: Option<u64>,
    pub total_supply: Option<u64>,
    pub infinite_supply: Option<bool>,
    pub platform: Option<CryptoPlatform>,
    pub cmc_rank: i32,
    pub self_reported_circulating_supply: Option<u64>,
    pub self_reported_market_cap: Option<u64>,
    pub tvl_ratio: Option<u64>,
    pub last_updated: String,
    pub quote: CryptoQuote,
}

/// The status block of a listing.
#[derive(Debug, Clone, PartialEq, Eq)]
pub struct CryptoListingStatus {
    pub timestamp: String,
    pub error_code: i32,
    pub error_message: Option<String>,
    pub elapsed: i32,
    pub credit_count: i32,
    pub notice: Option<String>,
    /// Informational: it need not equal the number of entries in `data`.
    pub total_count: i32,
}

/// A decoded listing: the status block and the assets in the order received.
#[derive(Debug, Clone)]
pub struct CryptoListing {
    pub status: CryptoListingStatus,
    pub data: Vec<CryptoData>,
}

/// One write-ready record: the time it was collected at, in nanoseconds
/// since the Unix epoch, and eight numbers as bit patterns of doubles.
#[derive(Debug, Clone, Copy, PartialEq, Eq, Structural)]
pub struct CmcPrice {
    pub time: i128,
    pub day_change: u64,
    pub hour_change: u64,
    pub week_change: u64,
    pub month_change: u64,
    pub market_cap: u64,
    pub price: u64,
    pub volume: u64,
    pub quarter_change: u64,
}

impl CmcPrice {
    /// All eight numbers of the record are finite.
    pub open spec fn wf(self) -> bool {
        &&& finite_bits(self.day_change)
        &&& finite_bits(self.hour_change)
        &&& finite_bits(self.week_change)
        &&& finite_bits(self.month_change)
        &&& finite_bits(self.market_cap)
        &&& finite_bits(self.price)
        &&& finite_bits(self.volume)
        &&& finite_bits(self.quarter_change)
    }
}

/// The record that an asset maps to at a given collection time: the time is
/// the caller's, never the source's own `last_updated`.
pub open spec fn record_of(entry: CryptoData, time: i128) -> CmcPrice {
    CmcPrice {
        time,
        day_change: entry.quote.USD.percent_change_24h,
        hour_change: entry.quote.USD.percent_change_1h,
        week_change: entry.quote.USD.percent_change_7d,
        month_change: entry.quote.USD.percent_change_30d,
        market_cap: entry.quote.USD.market_cap,
        price: entry.quote.USD.price,
        volume: entry.quote.USD.volume_24h,
        quarter_change: entry.quote.USD.percent_change_90d,
    }
}

impl CryptoData {
    /// Every number of the asset that is present is finite.
    pub open spec fn wf(self) -> bool {
        &&& finite_or_absent(self.max_supply)
        &&& finite_or_absent(self.circulating_supply)
        &&& finite_or_absent(self.total_supply)
        &&& finite_or_absent(self.self_reported_circulating_supply)
        &&& finite_or_absent(self.self_reported_market_cap)
        &&& finite_or_absent(self.tvl_ratio)
        &&& self.quote.USD.wf()
    }

    /// Tests whether every number of the asset that is present is finite.
    pub fn is_well_formed(&self) -> (r: bool)
        ensures
            r == self.wf(),
    {
        is_finite_or_absent(self.max_supply) && is_finite_or_absent(self.circulating_supply)
            && is_finite_or_absent(self.total_supply) && is_finite_or_absent(
            self.self_reported_circulating_supply,
        ) && is_finite_or_absent(self.self_reported_market_cap) && is_finite_or_absent(
            self.tvl_ratio,
        ) && self.quote.USD.is_well_formed()
    }

    /// Flattens this asset into one record stamped with `time`.
    pub fn to_record(&self, time: i128) -> (r: CmcPrice)
        ensures
            r == record_of(*self, time),
            r.time == time,
            self.wf() ==> r.wf(),
    {
        CmcPrice {
            time,
            day_change: self.quote.USD.percent_change_24h,
            hour_change: self.quote.USD.percent_change_1h,
            week_change: self.quote.USD.percent_change_7d,
            month_change: self.quote.USD.percent_change_30d,
            market_cap: self.quote.USD.market_cap,
            price: self.quote.USD.price,
            volume: self.quote.USD.volume_24h,
            quarter_change: self.quote.USD.percent_change_90d,
        }
    }
}

/// Whether the asset at `k` is the first of `data` that is not well formed.
pub open spec fn first_ill_formed(data: Seq<CryptoData>, k: int) -> bool {
    &&& 0 <= k < data.len()
    &&& !data[k].wf()
    &&& forall|j: int| 0 <= j < k ==> (#[trigger] data[j]).wf()
}

impl CryptoListing {
    /// Every asset of the listing is well formed. The status block's
    /// `total_count` plays no part.
    pub open spec fn wf(self) -> bool {
        forall|i: int| 0 <= i < self.data@.len() ==> (#[trigger] self.data@[i]).wf()
    }

    /// Finds the first asset that is not well formed: `None` exactly when
    /// the listing is well formed.
    pub fn find_ill_formed(&self) -> (r: Option<usize>)
        ensures
            r.is_none() == self.wf(),
            r matches Some(k) ==> first_ill_formed(self.data@, k as int),
    {
        let mut i: usize = 0;
        while i < self.data.len()
            invariant
                i <= self.data@.len(),
                forall|k: int| 0 <= k < i ==> (#[trigger] self.data@[k]).wf(),
            decreases self.data@.len() - i,
        {
            if !self.data[i].is_well_formed() {
                return Some(i);
            }
            i = i + 1;
        }
        None
    }

    /// Tests whether every asset of the listing is well formed.
    pub fn is_well_formed(&self) -> (r: bool)
        ensures
            r == self.wf(),
    {
        self.find_ill_formed().is_none()
    }
}

} // verus!
