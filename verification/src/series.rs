//! The daily time series of a response.
//!
//! A decoded response is a sequence of rows, each a sequence of binary64
//! numbers given by their bit patterns. A row holds, in this order: the Unix
//! timestamp of a moment of its trading day, in whole seconds; the opening,
//! highest, lowest and closing price of that day. Fields after these five are
//! not read.
use crate::binary64::{is_non_negative, non_negative, whole_number, whole_value};
use crate::instant::{day_number, day_of};
use crate::price::{price_bits, Price};
use vstd::prelude::*;

verus! {

/// The index of the field that holds a row's timestamp.
pub const DATE_FIELD: usize = 0;

/// The index of the field that holds a row's opening price.
pub const OPEN_FIELD: usize = 1;

/// The index of the field that holds a row's highest price.
pub const HIGH_FIELD: usize = 2;

/// The index of the field that holds a row's lowest price.
pub const LOW_FIELD: usize = 3;

/// The index of the field that holds a row's closing price.
pub const CLOSE_FIELD: usize = 4;

/// The number of fields that a row must hold.
pub const ROW_FIELDS: usize = 5;

/// One trading day of the series: a moment of the day as a Unix timestamp, and
/// the day's four prices as bit patterns.
#[derive(Clone, Copy, Debug, PartialEq, Eq, Structural)]
pub struct DailyRow {
    pub timestamp: i64,
    pub open: u64,
    pub high: u64,
    pub low: u64,
    pub close: u64,
}

/// Why a series yields no price.
#[derive(Clone, Copy, Debug, PartialEq, Eq, Structural)]
pub enum SeriesFault {
    /// A row does not fit the schema.
    Malformed,
    /// The series has no rows.
    Empty,
    /// No row falls on the day asked for.
    NoRowForDay,
}

/// The row that the fields hold, if they fit the schema: at least five fields,
/// the first a whole number of magnitude below 2^53, the next four numbers not
/// below zero.
pub open spec fn row_of(fields: Seq<u64>) -> Option<DailyRow> {
    if fields.len() >= ROW_FIELDS && whole_value(fields[DATE_FIELD as int]) is Some
        && is_non_negative(fields[OPEN_FIELD as int]) && is_non_negative(fields[HIGH_FIELD as int])
        && is_non_negative(fields[LOW_FIELD as int]) && is_non_negative(
        fields[CLOSE_FIELD as int],
    ) {
        Some(
            DailyRow {
                timestamp: whole_value(fields[DATE_FIELD as int]).unwrap() as i64,
                open: fields[OPEN_FIELD as int],
                high: fields[HIGH_FIELD as int],
                low: fields[LOW_FIELD as int],
                close: fields[CLOSE_FIELD as int],
            },
        )
    } else {
        None
    }
}

/// The rows that a decoded response holds, if every one of them fits the
/// schema.
pub open spec fn series_of(raw: Seq<Seq<u64>>) -> Option<Seq<DailyRow>> {
    if forall|i: int| 0 <= i < raw.len() ==> (#[trigger] row_of(raw[i])) is Some {
        Some(Seq::new(raw.len(), |i: int| row_of(raw[i]).unwrap()))
    } else {
        None
    }
}

/// The row's timestamp falls on the given UTC day.
pub open spec fn falls_on(row: DailyRow, day: int) -> bool {
    day_of(row.timestamp as int) == day
}

/// The row at `i` is the first of the series that falls on the given day.
pub open spec fn is_first_on(rows: Seq<DailyRow>, day: int, i: int) -> bool {
    &&& 0 <= i < rows.len()
    &&& falls_on(rows[i], day)
    &&& forall|j: int| 0 <= j < i ==> !falls_on(#[trigger] rows[j], day)
}

/// The closing price of the first row that falls on the given day, if there is
/// such a row.
pub open spec fn close_on(rows: Seq<DailyRow>, day: int) -> Option<u64> {
    if exists|i: int| is_first_on(rows, day, i) {
        Some(rows[choose|i: int| is_first_on(rows, day, i)].close)
    } else {
        None
    }
}

/// What a decoded response yields for the day of a Unix timestamp: a fault if a
/// row does not fit the schema, else if there are no rows, else if no row falls
/// on that day; otherwise the closing price of the first row that does.
pub open spec fn closing_price_of(raw: Seq<Seq<u64>>, seconds: int) -> Result<u64, SeriesFault> {
    match series_of(raw) {
        None => Err(SeriesFault::Malformed),
        Some(rows) => if rows.len() == 0 {
            Err(SeriesFault::Empty)
        } else {
            match close_on(rows, day_of(seconds)) {
                None => Err(SeriesFault::NoRowForDay),
                Some(close) => Ok(close),
            }
        },
    }
}

/// A row of a response, read as the sequence of its fields.
pub proof fn lemma_row_fields(raw: Vec<Vec<u64>>, i: int)
    requires
        0 <= i < raw.len(),
    ensures
        raw.deep_view()[i] == raw@[i]@,
{
    assert(raw.deep_view()[i] =~= raw@[i]@);
}

/// Decodes one row.
pub fn decode_row(fields: &Vec<u64>) -> (row: Option<DailyRow>)
    ensures
        row == row_of(fields@),
{
    if fields.len() < ROW_FIELDS {
        return None;
    }
    let open: u64 = fields[OPEN_FIELD];
    let high: u64 = fields[HIGH_FIELD];
    let low: u64 = fields[LOW_FIELD];
    let close: u64 = fields[CLOSE_FIELD];
    match whole_number(fields[DATE_FIELD]) {
        None => None,
        Some(timestamp) => {
            if non_negative(open) && non_negative(high) && non_negative(low) && non_negative(
                close,
            ) {
                Some(DailyRow { timestamp, open, high, low, close })
            } else {
                None
            }
        },
    }
}

/// Decodes every row of a response, or none if one of them does not fit the
/// schema.
pub fn decode_series(raw: &Vec<Vec<u64>>) -> (rows: Option<Vec<DailyRow>>)
    ensures
        match series_of(raw.deep_view()) {
            Some(series) => rows matches Some(decoded) && decoded@ == series,
            None => rows is None,
        },
{
    let mut rows: Vec<DailyRow> = Vec::new();
    let mut i: usize = 0;
    while i < raw.len()
        invariant
            i <= raw.len(),
            rows@.len() == i,
            raw.deep_view().len() == raw.len(),
            forall|k: int|
                0 <= k < i ==> (#[trigger] row_of(raw.deep_view()[k])) == Some(rows@[k]),
        decreases raw.len() - i,
    {
        proof {
            lemma_row_fields(*raw, i as int);
        }
        match decode_row(&raw[i]) {
            None => {
                return None;
            },
            Some(row) => {
                rows.push(row);
            },
        }
        i += 1;
    }
    proof {
        assert(rows@ =~= series_of(raw.deep_view()).unwrap());
    }
    Some(rows)
}

/// Finds the first row that falls on the given day.
pub fn find_first_on(rows: &Vec<DailyRow>, day: i64) -> (found: Option<usize>)
    ensures
        match found {
            Some(i) => is_first_on(rows@, day as int, i as int),
            None => forall|i: int| 0 <= i < rows.len() ==> !falls_on(#[trigger] rows@[i], day as int),
        },
{
    let mut i: usize = 0;
    while i < rows.len()
        invariant
            i <= rows.len(),
            forall|j: int| 0 <= j < i ==> !falls_on(#[trigger] rows@[j], day as int),
        decreases rows.len() - i,
    {
        if day_number(rows[i].timestamp) == day {
            return Some(i);
        }
        i += 1;
    }
    None
}

/// A series has at most one first row on a day, so `close_on` speaks of it.
pub proof fn lemma_first_is_unique(rows: Seq<DailyRow>, day: int, i: int)
    requires
        is_first_on(rows, day, i),
    ensures
        forall|j: int| is_first_on(rows, day, j) ==> j == i,
        close_on(rows, day) == Some(rows[i].close),
{
    assert forall|j: int| is_first_on(rows, day, j) implies j == i by {
        if j < i {
            assert(!falls_on(rows[j], day));
        } else if i < j {
            assert(!falls_on(rows[i], day));
        }
    }
}

/// The closing price that a decoded response holds for the day of a Unix
/// timestamp.
pub fn closing_price(raw: &Vec<Vec<u64>>, seconds: i64) -> (result: Result<Price, SeriesFault>)
    ensures
        price_bits(result) == closing_price_of(raw.deep_view(), seconds as int),
{
    match decode_series(raw) {
        None => Err(SeriesFault::Malformed),
        Some(rows) => {
            if rows.len() == 0 {
                return Err(SeriesFault::Empty);
            }
            match find_first_on(&rows, day_number(seconds)) {
                None => Err(SeriesFault::NoRowForDay),
                Some(i) => {
                    proof {
                        lemma_first_is_unique(rows@, day_of(seconds as int), i as int);
                        assert(row_of(raw.deep_view()[i as int]) is Some);
                    }
                    Ok(Price::of_non_negative(rows[i].close))
                },
            }
        },
    }
}

} // verus!
