use vstd::prelude::*;
use crate::model::CmcPrice;

verus! {

/// The eight columns of a point, in the order in which they are written.
#[derive(Debug, Clone, Copy, PartialEq, Eq, Structural)]
pub enum Column {
    DayChange,
    HourChange,
    WeekChange,
    MonthChange,
    MarketCap,
    Price,
    Volume,
    QuarterChange,
}

impl Column {
    /// The column's name in the store.
    pub open spec fn spec_name(self) -> Seq<char> {
        match self {
            Column::DayChange => "day_change"@,
            Column::HourChange => "hour_change"@,
            Column::WeekChange => "week_change"@,
            Column::MonthChange => "month_change"@,
            Column::MarketCap => "market_cap"@,
            Column::Price => "price"@,
            Column::Volume => "volume"@,
            Column::QuarterChange => "quarter_change"@,
        }
    }

    /// The column's name in the store.
    pub fn name(&self) -> (r: &'static str)
        ensures
            r@ == self.spec_name(),
    {
        match self {
            Column::DayChange => "day_change",
            Column::HourChange => "hour_change",
            Column::WeekChange => "week_change",
            Column::MonthChange => "month_change",
            Column::MarketCap => "market_cap",
            Column::Price => "price",
            Column::Volume => "volume",
            Column::QuarterChange => "quarter_change",
        }
    }
}

/// One column of a point with its value, the bit pattern of a double.
#[derive(Debug, Clone, Copy, PartialEq, Eq, Structural)]
pub struct Field {
    pub column: Column,
    pub bits: u64,
}

/// A single point as it is handed to the store: the series it belongs to,
/// its time and its columns.
#[derive(Debug, Clone, PartialEq, Eq)]
pub struct Point {
    pub series: String,
    pub time: i128,
    pub fields: Vec<Field>,
}

/// The columns that encode a record: its eight numbers, unchanged, in the
/// fixed column order.
pub open spec fn fields_of(r: CmcPrice) -> Seq<Field> {
    seq![
        Field { column: Column::DayChange, bits: r.day_change },
        Field { column: Column::HourChange, bits: r.hour_change },
        Field { column: Column::WeekChange, bits: r.week_change },
        Field { column: Column::MonthChange, bits: r.month_change },
        Field { column: Column::MarketCap, bits: r.market_cap },
        Field { column: Column::Price, bits: r.price },
        Field { column: Column::Volume, bits: r.volume },
        Field { column: Column::QuarterChange, bits: r.quarter_change },
    ]
}

/// Whether a sequence of columns is a complete encoding: all eight columns,
/// each once, in the fixed order.
pub open spec fn complete(fields: Seq<Field>) -> bool {
    &&& fields.len() == 8
    &&& fields[0].column == Column::DayChange
    &&& fields[1].column == Column::HourChange
    &&& fields[2].column == Column::WeekChange
    &&& fields[3].column == Column::MonthChange
    &&& fields[4].column == Column::MarketCap
    &&& fields[5].column == Column::Price
    &&& fields[6].column == Column::Volume
    &&& fields[7].column == Column::QuarterChange
}

/// The record that a complete encoding stands for, at a given time.
pub open spec fn record_from(time: i128, fields: Seq<Field>) -> CmcPrice
    recommends
        complete(fields),
{
    CmcPrice {
        time,
        day_change: fields[0].bits,
        hour_change: fields[1].bits,
        week_change: fields[2].bits,
        month_change: fields[3].bits,
        market_cap: fields[4].bits,
        price: fields[5].bits,
        volume: fields[6].bits,
        quarter_change: fields[7].bits,
    }
}

impl CmcPrice {
    /// Encodes the eight numbers of this record as columns.
    pub fn encode(&self) -> (fields: Vec<Field>)
        ensures
            fields@ == fields_of(*self),
            complete(fields@),
    {
        let fields = vec![
            Field { column: Column::DayChange, bits: self.day_change },
            Field { column: Column::HourChange, bits: self.hour_change },
            Field { column: Column::WeekChange, bits: self.week_change },
            Field { column: Column::MonthChange, bits: self.month_change },
            Field { column: Column::MarketCap, bits: self.market_cap },
            Field { column: Column::Price, bits: self.price },
            Field { column: Column::Volume, bits: self.volume },
            Field { column: Column::QuarterChange, bits: self.quarter_change },
        ];
        assert(fields@ =~= fields_of(*self));
        fields
    }

    /// Decodes columns back into a record stamped with `time`. Succeeds
    /// exactly on a complete encoding.
    pub fn decode(time: i128, fields: &Vec<Field>) -> (r: Option<CmcPrice>)
        ensures
            r.is_some() == complete(fields@),
            complete(fields@) ==> r == Some(record_from(time, fields@)),
    {
        if fields.len() != 8 {
            return None;
        }
        if fields[0].column == Column::DayChange && fields[1].column == Column::HourChange
            && fields[2].column == Column::WeekChange && fields[3].column == Column::MonthChange
            && fields[4].column == Column::MarketCap && fields[5].column == Column::Price
            && fields[6].column == Column::Volume && fields[7].column == Column::QuarterChange {
            Some(
                CmcPrice {
                    time,
                    day_change: fields[0].bits,
                    hour_change: fields[1].bits,
                    week_change: fields[2].bits,
                    month_change: fields[3].bits,
                    market_cap: fields[4].bits,
                    price: fields[5].bits,
                    volume: fields[6].bits,
                    quarter_change: fields[7].bits,
                },
            )
        } else {
            None
        }
    }

    /// Builds the point that writes this record to the series `ticker`.
    pub fn insert_to_db(&self, ticker: &str) -> (p: Point)
        ensures
            p.series@ == ticker@,
            p.time == self.time,
            p.fields@ == fields_of(*self),
    {
        Point { series: ticker.to_owned(), time: self.time, fields: self.encode() }
    }
}

/// Why a point with incomplete columns is not written.
pub open spec fn spec_incomplete() -> Seq<char> {
    "incomplete point"@
}

/// Why a point with a time before the Unix epoch is not written.
pub open spec fn spec_before_epoch() -> Seq<char> {
    "time before the epoch"@
}

impl Point {
    /// Decides whether this point can be handed to the store, and with
    /// which time. A point whose columns are incomplete is refused, and so
    /// is one whose time lies before the Unix epoch, each with its reason;
    /// any other point is written at its time in nanoseconds.
    pub fn store_time(&self) -> (r: Result<u128, String>)
        ensures
            !complete(self.fields@) ==> (r matches Err(d) && d@ == spec_incomplete()),
            complete(self.fields@) && self.time < 0 ==> (r matches Err(d) && d@
                == spec_before_epoch()),
            complete(self.fields@) && self.time >= 0 ==> (r matches Ok(t) && t == self.time),
    {
        if self.record().is_none() {
            Err("incomplete point".to_owned())
        } else if self.time < 0 {
            Err("time before the epoch".to_owned())
        } else {
            Ok(self.time as u128)
        }
    }

    /// The record that this point carries, if its columns are complete.
    pub fn record(&self) -> (r: Option<CmcPrice>)
        ensures
            r.is_some() == complete(self.fields@),
            complete(self.fields@) ==> r == Some(record_from(self.time, self.fields@)),
    {
        CmcPrice::decode(self.time, &self.fields)
    }
}

/// Encoding a record and decoding the columns again gives the record back,
/// every number bit for bit.
pub proof fn encode_decode_round_trip(r: CmcPrice)
    ensures
        complete(fields_of(r)),
        record_from(r.time, fields_of(r)) == r,
{
}

/// A complete encoding is determined by the record it decodes to: decoding
/// and encoding again gives the same columns.
pub proof fn decode_encode_round_trip(time: i128, fields: Seq<Field>)
    requires
        complete(fields),
    ensures
        fields_of(record_from(time, fields)) == fields,
{
    assert(fields_of(record_from(time, fields)) =~= fields);
}

} // verus!
