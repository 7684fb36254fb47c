//! Tolerant decoding of JSON documents into records.
//!
//! Each field of a record follows one of these rules:
//! - required (an id, a date, a nested record that holds one): where it is missing or of
//!   the wrong type, the record does not decode;
//! - defaulted text, number or flag: where it is missing, it is the empty text, zero or
//!   `false`; where it is present with another type (`null` included), the record does not
//!   decode;
//! - optional (`Option`): where it is missing, `null`, or does not decode, it is absent,
//!   and its siblings are decoded as if it were not there;
//! - a list that may be left out: missing is the empty list; otherwise it must be an array
//!   whose every item decodes.
//! A record that does not decode under an optional parent is absent there; under a
//! required parent, the parent does not decode either.
//! Members that a record does not name are ignored.

use vstd::prelude::*;
use crate::json::{member, Json, JsonValue};

verus! {

/// A calendar date.
#[derive(Clone, Copy, Debug, PartialEq, Eq, Structural)]
pub struct Date {
    pub year: i32,
    pub month: u32,
    pub day: u32,
}

/// An instant, as seconds and nanoseconds since 1970-01-01T00:00:00Z.
#[derive(Clone, Copy, Debug, PartialEq, Eq, Structural)]
pub struct Timestamp {
    pub seconds: i64,
    pub nanos: u32,
}

/// Whether `year` is a leap year of the proleptic Gregorian calendar.
pub open spec fn leap_year(year: int) -> bool {
    (year % 4 == 0 && year % 100 != 0) || year % 400 == 0
}

/// The number of days of a month.
pub open spec fn days_in_month(year: int, month: int) -> int {
    if month == 2 {
        if leap_year(year) {
            29
        } else {
            28
        }
    } else if month == 4 || month == 6 || month == 9 || month == 11 {
        30
    } else {
        31
    }
}

impl Date {
    /// The date exists in the proleptic Gregorian calendar.
    pub open spec fn wf(&self) -> bool {
        1 <= self.month <= 12 && 1 <= self.day <= days_in_month(self.year as int, self.month as int)
    }

    /// Whether the date exists in the proleptic Gregorian calendar.
    pub fn is_valid(&self) -> (r: bool)
        ensures
            r == self.wf(),
    {
        if self.month < 1 || self.month > 12 || self.day < 1 {
            return false;
        }
        let y = self.year as i64;
        let leap = (y % 4 == 0 && y % 100 != 0) || y % 400 == 0;
        let days: u32 = if self.month == 2 {
            if leap {
                29
            } else {
                28
            }
        } else if self.month == 4 || self.month == 6 || self.month == 9 || self.month == 11 {
            30
        } else {
            31
        };
        self.day <= days
    }
}

impl View for Date {
    type V = Date;

    open spec fn view(&self) -> Date {
        *self
    }
}

impl View for Timestamp {
    type V = Timestamp;

    open spec fn view(&self) -> Timestamp {
        *self
    }
}

/// The date that chrono reads from text such as `2019-11-10`, as (year, month, day).
pub uninterp spec fn date_of(text: Seq<char>) -> Option<(i32, u32, u32)>;

/// The instant that chrono reads from RFC 3339 text, as (seconds, nanoseconds) since the epoch.
pub uninterp spec fn instant_of(text: Seq<char>) -> Option<(i64, u32)>;

/// Relies on chrono's `NaiveDate::from_str`, which serde uses to read a `NaiveDate`.
#[verifier::external_body]
fn read_calendar_date(text: &str) -> (r: Option<(i32, u32, u32)>)
    ensures
        r == date_of(text@),
{
    text.parse::<chrono::NaiveDate>().ok().map(
        |d| (chrono::Datelike::year(&d), chrono::Datelike::month(&d), chrono::Datelike::day(&d)),
    )
}

/// Relies on chrono's `DateTime<Utc>::from_str`, which serde uses to read a `DateTime<Utc>`.
#[verifier::external_body]
fn read_rfc3339(text: &str) -> (r: Option<(i64, u32)>)
    ensures
        r == instant_of(text@),
{
    text.parse::<chrono::DateTime<chrono::Utc>>().ok().map(
        |t| (t.timestamp(), t.timestamp_subsec_nanos()),
    )
}

/// The view of a member that may be absent.
pub open spec fn found(f: Option<&JsonValue>) -> Option<Json> {
    match f {
        Some(v) => Some(v@),
        None => None,
    }
}

/// The views of the items of a sequence.
pub open spec fn views<T: View>(s: Seq<T>) -> Seq<T::V> {
    s.map_values(|x: T| x@)
}

/// The view of a value that may be absent.
pub open spec fn opt_view<T: View>(o: Option<T>) -> Option<T::V> {
    match o {
        Some(x) => Some(x@),
        None => None,
    }
}

/// The views of the items of a list that may be absent.
pub open spec fn opt_views<T: View>(o: Option<Vec<T>>) -> Option<Seq<T::V>> {
    match o {
        Some(x) => Some(views(x@)),
        None => None,
    }
}

/// A non-negative integer that fits in 64 bits.
pub open spec fn number_u64(f: Option<Json>) -> Option<u64> {
    match f {
        Some(Json::Number(Some(n))) => Some(n),
        _ => None,
    }
}

/// A non-negative integer that fits in 32 bits.
pub open spec fn number_u32(f: Option<Json>) -> Option<u32> {
    match number_u64(f) {
        Some(n) => if n <= u32::MAX {
            Some(n as u32)
        } else {
            None
        },
        None => None,
    }
}

/// A non-negative integer that fits in 8 bits.
pub open spec fn number_u8(f: Option<Json>) -> Option<u8> {
    match number_u64(f) {
        Some(n) => if n <= u8::MAX {
            Some(n as u8)
        } else {
            None
        },
        None => None,
    }
}

/// A boolean.
pub open spec fn flag_of(f: Option<Json>) -> Option<bool> {
    match f {
        Some(Json::Bool(b)) => Some(b),
        _ => None,
    }
}

/// A string.
pub open spec fn text_of(f: Option<Json>) -> Option<Seq<char>> {
    match f {
        Some(Json::Str(s)) => Some(s),
        _ => None,
    }
}

/// A date written as text that chrono reads, kept only where it is a calendar date.
pub open spec fn date_field(f: Option<Json>) -> Option<Date> {
    match text_of(f) {
        Some(s) => match date_of(s) {
            Some((year, month, day)) => if (Date { year, month, day }).wf() {
                Some(Date { year, month, day })
            } else {
                None
            },
            None => None,
        },
        None => None,
    }
}

/// An instant written as RFC 3339 text that chrono reads.
pub open spec fn instant_field(f: Option<Json>) -> Option<Timestamp> {
    match text_of(f) {
        Some(s) => match instant_of(s) {
            Some((seconds, nanos)) => Some(Timestamp { seconds, nanos }),
            None => None,
        },
        None => None,
    }
}

/// A text field that may be left out: absent is the empty text, and a member that is
/// present must be a string.
pub open spec fn text_or_empty(f: Option<Json>) -> Option<Seq<char>> {
    match f {
        None => Some(Seq::empty()),
        _ => text_of(f),
    }
}

/// An 8-bit field that may be left out: absent is zero, and a member that is present must
/// be such a number.
pub open spec fn u8_or_zero(f: Option<Json>) -> Option<u8> {
    match f {
        None => Some(0),
        _ => number_u8(f),
    }
}

/// A 32-bit field that may be left out: absent is zero, and a member that is present must
/// be such a number.
pub open spec fn u32_or_zero(f: Option<Json>) -> Option<u32> {
    match f {
        None => Some(0),
        _ => number_u32(f),
    }
}

/// A flag that may be left out: absent is `false`, and a member that is present must be a
/// boolean.
pub open spec fn bool_or_false(f: Option<Json>) -> Option<bool> {
    match f {
        None => Some(false),
        _ => flag_of(f),
    }
}

/// The views of a string that may be absent.
pub open spec fn text_views(o: Option<String>) -> Option<Seq<char>> {
    match o {
        Some(s) => Some(s@),
        None => None,
    }
}

impl JsonValue {
    /// Whether this value is an object.
    pub fn is_object(&self) -> (r: bool)
        ensures
            r == self@ is Object,
    {
        match self {
            JsonValue::Object(_) => true,
            _ => false,
        }
    }
}

/// A member that holds a non-negative integer of 64 bits.
pub fn read_u64(f: Option<&JsonValue>) -> (r: Option<u64>)
    ensures
        r == number_u64(found(f)),
{
    match f {
        Some(JsonValue::Number(n)) => *n,
        _ => None,
    }
}

/// A member that holds a non-negative integer of 32 bits.
pub fn read_u32(f: Option<&JsonValue>) -> (r: Option<u32>)
    ensures
        r == number_u32(found(f)),
{
    match read_u64(f) {
        Some(n) => if n <= u32::MAX as u64 {
            Some(n as u32)
        } else {
            None
        },
        None => None,
    }
}

/// A member that holds a non-negative integer of 8 bits.
pub fn read_u8(f: Option<&JsonValue>) -> (r: Option<u8>)
    ensures
        r == number_u8(found(f)),
{
    match read_u64(f) {
        Some(n) => if n <= u8::MAX as u64 {
            Some(n as u8)
        } else {
            None
        },
        None => None,
    }
}

/// A member that holds a boolean.
pub fn read_bool(f: Option<&JsonValue>) -> (r: Option<bool>)
    ensures
        r == flag_of(found(f)),
{
    match f {
        Some(JsonValue::Bool(b)) => Some(*b),
        _ => None,
    }
}

/// A member that holds a string.
pub fn read_text(f: Option<&JsonValue>) -> (r: Option<String>)
    ensures
        text_views(r) == text_of(found(f)),
{
    match f {
        Some(JsonValue::Str(s)) => Some(s.clone()),
        _ => None,
    }
}

/// A member that holds a date that chrono reads and that is a calendar date.
pub fn read_date(f: Option<&JsonValue>) -> (r: Option<Date>)
    ensures
        r == date_field(found(f)),
{
    match f {
        Some(JsonValue::Str(s)) => match read_calendar_date(s.as_str()) {
            Some((year, month, day)) => {
                let d = Date { year, month, day };
                if d.is_valid() {
                    Some(d)
                } else {
                    None
                }
            },
            None => None,
        },
        _ => None,
    }
}

/// A member that holds an RFC 3339 instant that chrono reads.
pub fn read_instant(f: Option<&JsonValue>) -> (r: Option<Timestamp>)
    ensures
        r == instant_field(found(f)),
{
    match f {
        Some(JsonValue::Str(s)) => match read_rfc3339(s.as_str()) {
            Some((seconds, nanos)) => Some(Timestamp { seconds, nanos }),
            None => None,
        },
        _ => None,
    }
}

/// A string member, or the empty string where it is absent; `None` where it is present
/// and not a string.
pub fn text_or_default(f: Option<&JsonValue>) -> (r: Option<String>)
    ensures
        text_views(r) == text_or_empty(found(f)),
{
    match f {
        None => Some(String::new()),
        _ => read_text(f),
    }
}

/// An 8-bit member, or zero where it is absent; `None` where it is present and not such a
/// number.
pub fn u8_or_default(f: Option<&JsonValue>) -> (r: Option<u8>)
    ensures
        r == u8_or_zero(found(f)),
{
    match f {
        None => Some(0),
        _ => read_u8(f),
    }
}

/// A 32-bit member, or zero where it is absent; `None` where it is present and not such a
/// number.
pub fn u32_or_default(f: Option<&JsonValue>) -> (r: Option<u32>)
    ensures
        r == u32_or_zero(found(f)),
{
    match f {
        None => Some(0),
        _ => read_u32(f),
    }
}

/// A boolean member, or `false` where it is absent; `None` where it is present and not a
/// boolean.
pub fn bool_or_default(f: Option<&JsonValue>) -> (r: Option<bool>)
    ensures
        r == bool_or_false(found(f)),
{
    match f {
        None => Some(false),
        _ => read_bool(f),
    }
}

/// A record that decodes from a JSON document.
pub trait Decode: Sized + View {
    /// The record that `j` decodes to; `None` where `j` lacks a required field.
    spec fn decoded(j: Json) -> Option<Self::V>;

    fn decode(j: &JsonValue) -> (r: Option<Self>)
        ensures
            opt_view(r) == Self::decoded(j@),
    ;
}

/// The record held by a member that may be absent.
pub open spec fn record_of<T: Decode>(f: Option<Json>) -> Option<T::V> {
    match f {
        Some(j) => T::decoded(j),
        None => None,
    }
}

/// The records held by an array, where every item decodes.
pub open spec fn list_of<T: Decode>(f: Option<Json>) -> Option<Seq<T::V>> {
    match f {
        Some(Json::Array(items)) => if forall|i: int|
            0 <= i < items.len() ==> (#[trigger] T::decoded(items[i])) is Some {
            Some(items.map_values(|x: Json| T::decoded(x)->0))
        } else {
            None
        },
        _ => None,
    }
}

/// A list field that may be left out: absent is the empty list, and a member that is
/// present must decode as a list of records.
pub open spec fn list_or_empty<T: Decode>(f: Option<Json>) -> Option<Seq<T::V>> {
    match f {
        None => Some(Seq::empty()),
        _ => list_of::<T>(f),
    }
}

/// A member decoded as a record; `None` where it is absent or does not decode, whatever
/// the rest of the document holds.
pub fn read_record<T: Decode>(f: Option<&JsonValue>) -> (r: Option<T>)
    ensures
        opt_view(r) == record_of::<T>(found(f)),
{
    match f {
        Some(j) => T::decode(j),
        None => None,
    }
}

/// A member decoded as an array of records; `None` where it is absent, not an array, or
/// has an item that does not decode.
pub fn read_list<T: Decode>(f: Option<&JsonValue>) -> (r: Option<Vec<T>>)
    ensures
        opt_views(r) == list_of::<T>(found(f)),
{
    match f {
        Some(JsonValue::Array(items)) => {
            proof {
                reveal_with_fuel(<JsonValue as View>::view, 2);
            }
            let ghost model = found(f)->0->Array_0;
            assert(model.len() == items@.len());
            assert(forall|k: int| 0 <= k < items@.len() ==> #[trigger] model[k] == items@[k]@);
            let mut out: Vec<T> = Vec::new();
            let mut i: usize = 0;
            while i < items.len()
                invariant
                    found(f) == Some(Json::Array(model)),
                    model.len() == items@.len(),
                    forall|k: int| 0 <= k < items@.len() ==> #[trigger] model[k] == items@[k]@,
                    i <= items@.len(),
                    out@.len() == i,
                    forall|k: int| 0 <= k < i ==> (#[trigger] T::decoded(model[k])) is Some,
                    forall|k: int| 0 <= k < i ==> T::decoded(model[k]) == Some((#[trigger] out@[k])@),
                decreases items.len() - i,
            {
                match T::decode(&items[i]) {
                    Some(x) => {
                        out.push(x);
                    },
                    None => {
                        assert(T::decoded(model[i as int]) is None);
                        return None;
                    },
                }
                i = i + 1;
            }
            assert(views(out@) =~= model.map_values(|x: Json| T::decoded(x)->0));
            Some(out)
        },
        _ => None,
    }
}

/// A list member that may be left out: absent gives the empty list.
pub fn list_or_default<T: Decode>(f: Option<&JsonValue>) -> (r: Option<Vec<T>>)
    ensures
        opt_views(r) == list_or_empty::<T>(found(f)),
{
    match f {
        None => {
            let v: Vec<T> = Vec::new();
            assert(views(v@) =~= Seq::<T::V>::empty());
            Some(v)
        },
        _ => read_list::<T>(f),
    }
}

} // verus!
