//! Calendar events, their recurrence and the exceptions to it.

use crate::json::{
    keys_ascend, lemma_deepened_lookup, lemma_deepened_put, lemma_found_is_entry,
    lemma_found_is_part, lemma_lookup_own_entry, lemma_lookup_put, lemma_lookup_put_slot,
    lemma_object_value, lemma_put_ascends, lookup, put, put_slot, Json, JsonValue, TextMap,
};
use crate::parse::{
    get_field, put_field, result_view, Duplicate, FieldCodec, FromJson, FromJsonField, JsonCodec,
    ParseError, ParseErrorView, Presence, ToJson, ToJsonField,
};
use crate::record::{
    chosen, copy_asked, copy_patched, field_of, is_fresh_id, new_id, PartialRecord, Record,
};
use crate::text::same_text;
use crate::types::{holds_instant, instant_in_range, Date, File, FileView};
use vstd::prelude::*;

verus! {

/// The text that the time library writes for the day of an instant:
/// `YYYY-MM-DD`.
pub uninterp spec fn local_day_text(secs: i64, nanos: u32) -> Seq<char>;

/// The instant that the time library reads from a text with date and time
/// and no offset, if it reads one.
pub uninterp spec fn local_instant(text: Seq<char>) -> Option<(i64, u32)>;

/// Writes the day of an instant.
///
/// Makes the value with `chrono::DateTime::from_timestamp`, takes its
/// `naive_utc` and calls `format` on it with `%Y-%m-%d`. The contract names
/// the text; what it holds is not stated.
#[verifier::external_body]
fn write_day(secs: i64, nanos: u32) -> (r: String)
    requires
        instant_in_range(secs, nanos),
    ensures
        r@ == local_day_text(secs, nanos),
{
    let instant = chrono::DateTime::from_timestamp(secs, nanos).unwrap();
    instant.naive_utc().format("%Y-%m-%d").to_string()
}

/// Reads date and time from a text without offset.
///
/// Calls the `FromStr` impl of `chrono::NaiveDateTime` and hands out the
/// value, taken as UTC, as its `timestamp` and `timestamp_subsec_nanos`. The
/// contract names the outcome and states that an instant that was read is
/// in range, as the documentation of `from_timestamp` says of these two
/// numbers.
#[verifier::external_body]
fn read_local(text: &str) -> (r: Option<(i64, u32)>)
    ensures
        r == local_instant(text@),
        r matches Some(t) ==> instant_in_range(t.0, t.1),
{
    match text.parse::<chrono::NaiveDateTime>() {
        Ok(d) => Some((d.and_utc().timestamp(), d.and_utc().timestamp_subsec_nanos())),
        Err(_) => None,
    }
}

/// A date and time without a time zone, held as the seconds and nanoseconds
/// between the epoch and the same date and time in UTC. Every value is one
/// that the time library can hold.
#[derive(Clone, Copy, Debug, PartialEq, Eq, PartialOrd, Ord)]
pub struct LocalDate {
    secs: i64,
    nanos: u32,
}

impl DeepView for LocalDate {
    type V = LocalDate;

    open spec fn deep_view(&self) -> LocalDate {
        *self
    }
}

impl LocalDate {
    #[verifier::type_invariant]
    pub closed spec fn in_range(self) -> bool {
        instant_in_range(self.secs, self.nanos)
    }

    /// The date and time `secs` seconds and `nanos` nanoseconds after the
    /// first midnight of 1970.
    pub closed spec fn at(secs: i64, nanos: u32) -> LocalDate {
        LocalDate { secs, nanos }
    }

    /// The whole seconds since the first midnight of 1970.
    pub closed spec fn secs(self) -> i64 {
        self.secs
    }

    /// The nanoseconds since the last whole second.
    pub closed spec fn nanos(self) -> u32 {
        self.nanos
    }

    /// The first midnight of 1970.
    pub open spec fn blank() -> LocalDate {
        LocalDate::at(0, 0)
    }

    /// Whether `self` is earlier than `other`.
    pub open spec fn before(self, other: LocalDate) -> bool {
        self.secs() < other.secs() || (self.secs() == other.secs() && self.nanos() < other.nanos())
    }

    /// The text of the day, as the time library writes it.
    pub open spec fn text(self) -> Seq<char> {
        local_day_text(self.secs(), self.nanos())
    }

    /// A date is told by its seconds and nanoseconds.
    pub broadcast proof fn lemma_at(secs: i64, nanos: u32)
        ensures
            (#[trigger] LocalDate::at(secs, nanos)).secs() == secs,
            LocalDate::at(secs, nanos).nanos() == nanos,
    {
    }

    /// A date is the date of its seconds and nanoseconds.
    pub broadcast proof fn lemma_parts(self)
        ensures
            LocalDate::at(#[trigger] self.secs(), self.nanos()) == self,
    {
    }

    /// The date and time, if the time library can hold it.
    pub fn from_timestamp(secs: i64, nanos: u32) -> (r: Option<LocalDate>)
        ensures
            r == if instant_in_range(secs, nanos) {
                Some(LocalDate::at(secs, nanos))
            } else {
                None
            },
            secs == 0 && nanos == 0 ==> r is Some,
    {
        if holds_instant(secs, nanos) {
            Some(LocalDate { secs, nanos })
        } else {
            None
        }
    }

    pub fn timestamp(&self) -> (r: i64)
        ensures
            r == self.secs(),
    {
        self.secs
    }

    pub fn timestamp_subsec_nanos(&self) -> (r: u32)
        ensures
            r == self.nanos(),
    {
        self.nanos
    }

    /// Whether `self` is earlier than `other`.
    pub fn is_before(&self, other: &LocalDate) -> (r: bool)
        ensures
            r == self.before(*other),
    {
        self.secs < other.secs || (self.secs == other.secs && self.nanos < other.nanos)
    }

    /// Whether `self` and `other` are the same date and time.
    pub fn is_same(&self, other: &LocalDate) -> (r: bool)
        ensures
            r == (*self == *other),
    {
        self.secs == other.secs && self.nanos == other.nanos
    }

    /// The day as text.
    pub fn to_string(&self) -> (r: String)
        ensures
            r@ == self.text(),
    {
        proof {
            use_type_invariant(self);
        }
        write_day(self.secs, self.nanos)
    }

    /// The date and time that a text writes.
    fn from_text(text: &str) -> (r: Option<LocalDate>)
        ensures
            r == match local_instant(text@) {
                Some(t) => Some(LocalDate::at(t.0, t.1)),
                None => None,
            },
    {
        match read_local(text) {
            Some(t) => Some(LocalDate { secs: t.0, nanos: t.1 }),
            None => None,
        }
    }
}

impl Default for LocalDate {
    fn default() -> (r: Self)
        ensures
            r == LocalDate::blank(),
    {
        match LocalDate::from_timestamp(0, 0) {
            Some(epoch) => epoch,
            None => unreached(),
        }
    }
}

impl Duplicate for LocalDate {
    fn duplicate(&self) -> (r: Self) {
        *self
    }
}

impl FromJson for LocalDate {
    open spec fn decoded(json: JsonValue) -> Result<LocalDate, ParseErrorView> {
        match json {
            JsonValue::String(s) => match local_instant(s) {
                Some(t) => Ok(LocalDate::at(t.0, t.1)),
                None => Err(ParseErrorView::InvalidStructure("LocalDate"@)),
            },
            _ => Err(ParseErrorView::InvalidJsonType("LocalDate"@)),
        }
    }

    fn from_json(json: &Json) -> (r: Result<LocalDate, ParseError>) {
        match json {
            Json::String(v) => match LocalDate::from_text(v.as_str()) {
                Some(date) => Ok(date),
                None => Err(ParseError::InvalidStructure("LocalDate".to_string())),
            },
            _ => Err(ParseError::InvalidJsonType("LocalDate".to_string())),
        }
    }
}

impl ToJson for LocalDate {
    open spec fn encoded(v: LocalDate) -> JsonValue {
        JsonValue::String(v.text())
    }

    fn to_json(&self) -> (json: Json) {
        Json::String(self.to_string())
    }
}

impl JsonCodec for LocalDate {
    /// The dates that the time library reads back from what it writes for
    /// them.
    open spec fn valid(v: LocalDate) -> bool {
        local_instant(v.text()) == Some((v.secs(), v.nanos()))
    }

    proof fn round_trip(v: LocalDate) {
        broadcast use LocalDate::lemma_parts;

    }
}

/// Every date is earlier than the dates after it.
pub open spec fn dates_ascend<X>(es: Seq<(LocalDate, X)>) -> bool {
    forall|i: int, j: int|
        #![trigger es[i], es[j]]
        0 <= i < j < es.len() ==> es[i].0.before(es[j].0)
}

/// The value of the first entry under `date`, if there is one.
pub open spec fn lookup_dated<X>(es: Seq<(LocalDate, X)>, date: LocalDate) -> Option<X>
    decreases es.len(),
{
    if es.len() == 0 {
        None
    } else if es[0].0 == date {
        Some(es[0].1)
    } else {
        lookup_dated(es.drop_first(), date)
    }
}

/// The entries with `value` under `date`: in place of the entry that had
/// the date, or else in front of the first entry with a later date.
pub open spec fn put_dated<X>(es: Seq<(LocalDate, X)>, date: LocalDate, value: X) -> Seq<
    (LocalDate, X),
>
    decreases es.len(),
{
    if es.len() == 0 {
        seq![(date, value)]
    } else if es[0].0 == date {
        es.update(0, (date, value))
    } else if date.before(es[0].0) {
        seq![(date, value)] + es
    } else {
        seq![es[0]] + put_dated(es.drop_first(), date, value)
    }
}

/// What was put under a date is found there, and the other dates are as
/// before.
pub proof fn lemma_lookup_put_dated<X>(
    es: Seq<(LocalDate, X)>,
    date: LocalDate,
    value: X,
    other: LocalDate,
)
    ensures
        lookup_dated(put_dated(es, date, value), other) == if other == date {
            Some(value)
        } else {
            lookup_dated(es, other)
        },
    decreases es.len(),
{
    let after = put_dated(es, date, value);
    if es.len() == 0 {
        assert(after.drop_first() =~= es);
    } else if es[0].0 == date {
        assert(after.drop_first() =~= es.drop_first());
    } else if date.before(es[0].0) {
        assert(after.drop_first() =~= es);
    } else {
        lemma_lookup_put_dated(es.drop_first(), date, value, other);
        assert(after.drop_first() =~= put_dated(es.drop_first(), date, value));
    }
}

/// A date that is later than every date of the entries is put at their end.
pub proof fn lemma_put_dated_last<X>(es: Seq<(LocalDate, X)>, date: LocalDate, value: X)
    requires
        forall|i: int| 0 <= i < es.len() ==> (#[trigger] es[i]).0.before(date),
    ensures
        put_dated(es, date, value) == es.push((date, value)),
    decreases es.len(),
{
    if es.len() > 0 {
        assert(es[0].0.before(date));
        assert forall|i: int| 0 <= i < es.drop_first().len() implies (#[trigger] es.drop_first()[i]).0.before(
            date,
        ) by {
            assert(es[i + 1].0.before(date));
        }
        lemma_put_dated_last(es.drop_first(), date, value);
        assert(seq![es[0]] + es.drop_first().push((date, value)) =~= es.push((date, value)));
    } else {
        assert(seq![(date, value)] =~= es.push((date, value)));
    }
}

/// A date is equal to another, earlier or later.
proof fn lemma_dates_total(a: LocalDate, b: LocalDate)
    ensures
        a == b || a.before(b) || b.before(a),
{
    broadcast use LocalDate::lemma_parts;

    if a.secs() == b.secs() && a.nanos() == b.nanos() {
        assert(LocalDate::at(a.secs(), a.nanos()) == LocalDate::at(b.secs(), b.nanos()));
    }
}

/// Putting a value into ascending entries gives ascending entries, and each
/// of their dates is the date put or a date that was there.
proof fn lemma_put_dated_ascends<X>(es: Seq<(LocalDate, X)>, date: LocalDate, value: X)
    requires
        dates_ascend(es),
    ensures
        dates_ascend(put_dated(es, date, value)),
        forall|i: int|
            0 <= i < put_dated(es, date, value).len() ==> (#[trigger] put_dated(
                es,
                date,
                value,
            )[i]).0 == date || exists|k: int|
                0 <= k < es.len() && (#[trigger] es[k]).0 == put_dated(es, date, value)[i].0,
    decreases es.len(),
{
    let after = put_dated(es, date, value);
    if es.len() == 0 {
    } else if es[0].0 == date {
        assert forall|i: int, j: int| 0 <= i < j < after.len() implies (#[trigger] after[i]).0.before(
            (#[trigger] after[j]).0,
        ) by {
            assert(es[i].0.before(es[j].0));
        }
        assert forall|i: int| 0 <= i < after.len() implies (#[trigger] after[i]).0 == date
            || exists|k: int| 0 <= k < es.len() && (#[trigger] es[k]).0 == after[i].0 by {
            assert(es[i].0 == after[i].0);
        }
    } else if date.before(es[0].0) {
        assert forall|i: int, j: int| 0 <= i < j < after.len() implies (#[trigger] after[i]).0.before(
            (#[trigger] after[j]).0,
        ) by {
            if i == 0 {
                if j > 1 {
                    assert(es[0].0.before(es[j - 1].0));
                }
            } else {
                assert(es[i - 1].0.before(es[j - 1].0));
            }
        }
        assert forall|i: int| 0 <= i < after.len() implies (#[trigger] after[i]).0 == date
            || exists|k: int| 0 <= k < es.len() && (#[trigger] es[k]).0 == after[i].0 by {
            if i > 0 {
                assert(es[i - 1].0 == after[i].0);
            }
        }
    } else {
        let rest = es.drop_first();
        assert(dates_ascend(rest)) by {
            assert forall|i: int, j: int| 0 <= i < j < rest.len() implies (#[trigger] rest[i]).0.before(
                (#[trigger] rest[j]).0,
            ) by {
                assert(es[i + 1].0.before(es[j + 1].0));
            }
        }
        lemma_put_dated_ascends(rest, date, value);
        lemma_dates_total(date, es[0].0);
        let tail = put_dated(rest, date, value);
        assert forall|i: int| 0 <= i < after.len() implies (#[trigger] after[i]).0 == date
            || exists|k: int| 0 <= k < es.len() && (#[trigger] es[k]).0 == after[i].0 by {
            if i == 0 {
                assert(es[0].0 == after[0].0);
            } else {
                assert(after[i] == tail[i - 1]);
                if tail[i - 1].0 != date {
                    let k = choose|k: int|
                        0 <= k < rest.len() && (#[trigger] rest[k]).0 == tail[i - 1].0;
                    assert(es[k + 1].0 == after[i].0);
                }
            }
        }
        assert forall|i: int, j: int| 0 <= i < j < after.len() implies (#[trigger] after[i]).0.before(
            (#[trigger] after[j]).0,
        ) by {
            if i == 0 {
                assert(after[j] == tail[j - 1]);
                if tail[j - 1].0 != date {
                    let k = choose|k: int|
                        0 <= k < rest.len() && (#[trigger] rest[k]).0 == tail[j - 1].0;
                    assert(es[0].0.before(es[k + 1].0));
                }
            } else {
                assert(tail[i - 1].0.before(tail[j - 1].0));
            }
        }
    }
}

/// A map from dates to `V` that keeps its entries in ascending date order.
#[derive(Debug, PartialEq)]
pub struct DateMap<V> {
    entries: Vec<(LocalDate, V)>,
}

impl<V> View for DateMap<V> {
    type V = Seq<(LocalDate, V)>;

    closed spec fn view(&self) -> Seq<(LocalDate, V)> {
        self.entries@
    }
}

impl<V> DateMap<V> {
    /// The invariant of every map: its dates ascend, so none occurs twice.
    #[verifier::type_invariant]
    pub open spec fn ordered(&self) -> bool {
        dates_ascend(self@)
    }

    /// The map without entries.
    pub fn new() -> (m: Self)
        ensures
            m@ == Seq::<(LocalDate, V)>::empty(),
    {
        DateMap { entries: Vec::new() }
    }

    /// The number of entries.
    pub fn len(&self) -> (n: usize)
        ensures
            n == self@.len(),
    {
        self.entries.len()
    }

    /// The date of the entry at position `i` in date order.
    pub fn date_at(&self, i: usize) -> (date: LocalDate)
        requires
            i < self@.len(),
        ensures
            date == self@[i as int].0,
    {
        self.entries[i].0
    }

    /// The value of the entry at position `i` in date order.
    pub fn value_at(&self, i: usize) -> (value: &V)
        requires
            i < self@.len(),
        ensures
            *value == self@[i as int].1,
            decreases_to!(self => value),
    {
        assert(decreases_to!(self.entries => self.entries[i as int]));
        &self.entries[i].1
    }

    /// The value under `date`, if the map has the date.
    pub fn get(&self, date: &LocalDate) -> (r: Option<&V>)
        ensures
            match r {
                Some(v) => lookup_dated(self@, *date) == Some(*v),
                None => lookup_dated(self@, *date) is None,
            },
    {
        let mut i: usize = 0;
        assert(self@.skip(0) =~= self@);
        while i < self.entries.len()
            invariant
                i <= self@.len(),
                self@ == self.entries@,
                lookup_dated(self@, *date) == lookup_dated(self@.skip(i as int), *date),
            decreases self.entries.len() - i,
        {
            assert(self@.skip(i as int).drop_first() =~= self@.skip(i + 1));
            if self.entries[i].0.is_same(date) {
                return Some(&self.entries[i].1);
            }
            i += 1;
        }
        None
    }

    /// Puts `value` under `date`, in place of what was there.
    pub fn insert(&mut self, date: LocalDate, value: V)
        ensures
            final(self)@ == put_dated(old(self)@, date, value),
    {
        proof {
            use_type_invariant(&*self);
            lemma_put_dated_ascends(self@, date, value);
        }
        let ghost before = self@;
        let mut entries: Vec<(LocalDate, V)> = Vec::new();
        core::mem::swap(&mut self.entries, &mut entries);
        let mut i: usize = 0;
        assert(before.skip(0) =~= before && before.take(0) + put_dated(before, date, value)
            =~= put_dated(before, date, value));
        while i < entries.len() && entries[i].0.is_before(&date)
            invariant
                i <= before.len(),
                before == entries@,
                put_dated(before, date, value) == before.take(i as int) + put_dated(
                    before.skip(i as int),
                    date,
                    value,
                ),
            decreases entries.len() - i,
        {
            proof {
                assert(before.skip(i as int).drop_first() =~= before.skip(i + 1));
                assert(before.take(i as int) + (seq![before[i as int]] + put_dated(
                    before.skip(i + 1),
                    date,
                    value,
                )) =~= before.take(i + 1) + put_dated(before.skip(i + 1), date, value));
            }
            i += 1;
        }
        let ghost after = put_dated(before, date, value);
        if i < entries.len() && entries[i].0.is_same(&date) {
            entries.remove(i);
            entries.insert(i, (date, value));
            assert(entries@ =~= before.take(i as int) + before.skip(i as int).update(
                0,
                (date, value),
            ));
        } else {
            proof {
                if i < before.len() {
                    lemma_dates_total(date, before[i as int].0);
                }
            }
            entries.insert(i, (date, value));
            assert(entries@ =~= before.take(i as int) + (seq![(date, value)] + before.skip(
                i as int,
            )));
        }
        core::mem::swap(&mut self.entries, &mut entries);
        assert(self@ =~= after);
    }
}

impl<V: Clone> Clone for DateMap<V> {
    fn clone(&self) -> (r: Self)
        ensures
            r@.len() == self@.len(),
            forall|i: int|
                0 <= i < self@.len() ==> (#[trigger] r@[i]).0 == self@[i].0 && cloned(
                    self@[i].1,
                    r@[i].1,
                ),
    {
        proof {
            use_type_invariant(self);
        }
        let mut entries: Vec<(LocalDate, V)> = Vec::new();
        for i in 0..self.entries.len()
            invariant
                entries.len() == i,
                forall|k: int|
                    0 <= k < i ==> (#[trigger] entries@[k]).0 == self.entries@[k].0 && cloned(
                        self.entries@[k].1,
                        entries@[k].1,
                    ),
        {
            entries.push((self.entries[i].0, self.entries[i].1.clone()));
        }
        assert forall|i: int, j: int| 0 <= i < j < entries@.len() implies (#[trigger] entries@[i]).0.before(
            (#[trigger] entries@[j]).0,
        ) by {
            assert(self@[i].0.before(self@[j].0));
        }
        DateMap { entries }
    }
}

/// How often an event recurs.
#[derive(Clone, Copy, Debug, PartialEq, Eq)]
pub enum Frequency {
    Yearly,
    Monthly,
    Weekly,
    Daily,
    Hourly,
    Minutely,
    Secondly,
}

impl DeepView for Frequency {
    type V = Frequency;

    open spec fn deep_view(&self) -> Frequency {
        *self
    }
}

impl Frequency {
    /// The token that stands for the value on the wire.
    pub open spec fn token(self) -> Seq<char> {
        match self {
            Frequency::Yearly => "yearly"@,
            Frequency::Monthly => "monthly"@,
            Frequency::Weekly => "weekly"@,
            Frequency::Daily => "daily"@,
            Frequency::Hourly => "hourly"@,
            Frequency::Minutely => "minutely"@,
            Frequency::Secondly => "secondly"@,
        }
    }

    /// The value that the token `s` stands for, if it is a token.
    pub open spec fn of_token(s: Seq<char>) -> Option<Frequency> {
        if s == "yearly"@ {
            Some(Frequency::Yearly)
        } else if s == "monthly"@ {
            Some(Frequency::Monthly)
        } else if s == "weekly"@ {
            Some(Frequency::Weekly)
        } else if s == "daily"@ {
            Some(Frequency::Daily)
        } else if s == "hourly"@ {
            Some(Frequency::Hourly)
        } else if s == "minutely"@ {
            Some(Frequency::Minutely)
        } else if s == "secondly"@ {
            Some(Frequency::Secondly)
        } else {
            None
        }
    }

    /// What tells the tokens apart: the length of each, and for tokens of
    /// one length a character in which they differ.
    pub proof fn lemma_tokens()
        ensures
            "yearly"@.len() == 6,
            "monthly"@.len() == 7,
            "weekly"@.len() == 6,
            "daily"@.len() == 5,
            "hourly"@.len() == 6,
            "minutely"@.len() == 8,
            "secondly"@.len() == 8,
            "yearly"@[0] == 'y',
            "weekly"@[0] == 'w',
            "hourly"@[0] == 'h',
            "minutely"@[0] == 'm',
            "secondly"@[0] == 's',
    {
        reveal_strlit("yearly");
        reveal_strlit("monthly");
        reveal_strlit("weekly");
        reveal_strlit("daily");
        reveal_strlit("hourly");
        reveal_strlit("minutely");
        reveal_strlit("secondly");
    }

    pub fn to_string(&self) -> (r: String)
        ensures
            r@ == self.token(),
    {
        match self {
            Frequency::Yearly => "yearly".to_string(),
            Frequency::Monthly => "monthly".to_string(),
            Frequency::Weekly => "weekly".to_string(),
            Frequency::Daily => "daily".to_string(),
            Frequency::Hourly => "hourly".to_string(),
            Frequency::Minutely => "minutely".to_string(),
            Frequency::Secondly => "secondly".to_string(),
        }
    }
}

impl Default for Frequency {
    fn default() -> (r: Self)
        ensures
            r == Frequency::Secondly,
    {
        Frequency::Secondly
    }
}

impl Duplicate for Frequency {
    fn duplicate(&self) -> (r: Self) {
        *self
    }
}

impl ToJson for Frequency {
    open spec fn encoded(v: Frequency) -> JsonValue {
        JsonValue::String(v.token())
    }

    fn to_json(&self) -> (json: Json) {
        Json::String(self.to_string())
    }
}

impl FromJson for Frequency {
    open spec fn decoded(json: JsonValue) -> Result<Frequency, ParseErrorView> {
        match json {
            JsonValue::String(s) => match Self::of_token(s) {
                Some(v) => Ok(v),
                None => Err(ParseErrorView::InvalidStructure("Frequency"@)),
            },
            _ => Err(ParseErrorView::InvalidJsonType("Frequency"@)),
        }
    }

    fn from_json(json: &Json) -> (r: Result<Frequency, ParseError>) {
        match json {
            Json::String(v) => {
                if same_text(v.as_str(), "yearly") {
                    Ok(Frequency::Yearly)
                } else if same_text(v.as_str(), "monthly") {
                    Ok(Frequency::Monthly)
                } else if same_text(v.as_str(), "weekly") {
                    Ok(Frequency::Weekly)
                } else if same_text(v.as_str(), "daily") {
                    Ok(Frequency::Daily)
                } else if same_text(v.as_str(), "hourly") {
                    Ok(Frequency::Hourly)
                } else if same_text(v.as_str(), "minutely") {
                    Ok(Frequency::Minutely)
                } else if same_text(v.as_str(), "secondly") {
                    Ok(Frequency::Secondly)
                } else {
                    Err(ParseError::InvalidStructure("Frequency".to_string()))
                }
            },
            _ => Err(ParseError::InvalidJsonType("Frequency".to_string())),
        }
    }
}

impl JsonCodec for Frequency {
    open spec fn valid(v: Frequency) -> bool {
        true
    }

    proof fn round_trip(v: Frequency) {
        Self::lemma_tokens();
    }
}

/// The rule by which an event recurs.
#[derive(Clone, Debug, PartialEq)]
pub struct Recurrence {
    frequency: Frequency,
    interval: Option<i32>,
    first_day_of_week: Option<i32>,
    by_day: Option<Vec<i32>>,
    by_date: Option<Vec<i32>>,
    by_month: Option<Vec<i32>>,
    by_year_day: Option<Vec<i32>>,
    by_week_no: Option<Vec<i32>>,
    by_hour: Option<Vec<i32>>,
    by_minute: Option<Vec<i32>>,
    by_second: Option<Vec<i32>>,
    by_set_position: Option<Vec<i32>>,
    count: Option<u64>,
    until: LocalDate,
}

/// A value of [`Recurrence`] in contracts.
pub ghost struct RecurrenceView {
    pub frequency: Frequency,
    pub interval: Option<i32>,
    pub first_day_of_week: Option<i32>,
    pub by_day: Option<Seq<i32>>,
    pub by_date: Option<Seq<i32>>,
    pub by_month: Option<Seq<i32>>,
    pub by_year_day: Option<Seq<i32>>,
    pub by_week_no: Option<Seq<i32>>,
    pub by_hour: Option<Seq<i32>>,
    pub by_minute: Option<Seq<i32>>,
    pub by_second: Option<Seq<i32>>,
    pub by_set_position: Option<Seq<i32>>,
    pub count: Option<u64>,
    pub until: LocalDate,
}

impl DeepView for Recurrence {
    type V = RecurrenceView;

    closed spec fn deep_view(&self) -> RecurrenceView {
        RecurrenceView {
            frequency: self.frequency.deep_view(),
            interval: self.interval.deep_view(),
            first_day_of_week: self.first_day_of_week.deep_view(),
            by_day: self.by_day.deep_view(),
            by_date: self.by_date.deep_view(),
            by_month: self.by_month.deep_view(),
            by_year_day: self.by_year_day.deep_view(),
            by_week_no: self.by_week_no.deep_view(),
            by_hour: self.by_hour.deep_view(),
            by_minute: self.by_minute.deep_view(),
            by_second: self.by_second.deep_view(),
            by_set_position: self.by_set_position.deep_view(),
            count: self.count.deep_view(),
            until: self.until.deep_view(),
        }
    }
}

impl Recurrence {
    /// The default value: every field at the default of its type.
    pub open spec fn blank() -> RecurrenceView {
        RecurrenceView {
            frequency: Frequency::Secondly,
            interval: None,
            first_day_of_week: None,
            by_day: None,
            by_date: None,
            by_month: None,
            by_year_day: None,
            by_week_no: None,
            by_hour: None,
            by_minute: None,
            by_second: None,
            by_set_position: None,
            count: None,
            until: LocalDate::blank(),
        }
    }
}

impl Default for Recurrence {
    fn default() -> (r: Self)
        ensures
            r.deep_view() == Self::blank(),
    {
        let frequency: Frequency = Frequency::default();
        let interval: Option<i32> = None;
        let first_day_of_week: Option<i32> = None;
        let by_day: Option<Vec<i32>> = None;
        let by_date: Option<Vec<i32>> = None;
        let by_month: Option<Vec<i32>> = None;
        let by_year_day: Option<Vec<i32>> = None;
        let by_week_no: Option<Vec<i32>> = None;
        let by_hour: Option<Vec<i32>> = None;
        let by_minute: Option<Vec<i32>> = None;
        let by_second: Option<Vec<i32>> = None;
        let by_set_position: Option<Vec<i32>> = None;
        let count: Option<u64> = None;
        let until: LocalDate = LocalDate::default();
        Recurrence {
            frequency,
            interval,
            first_day_of_week,
            by_day,
            by_date,
            by_month,
            by_year_day,
            by_week_no,
            by_hour,
            by_minute,
            by_second,
            by_set_position,
            count,
            until,
        }
    }
}

impl Recurrence {
    /// What tells the wire names of this type apart: the length of each, and
    /// for
    /// names of one length a character in which they differ.
    pub proof fn lemma_wire_names()
        ensures
            "frequency"@.len() == 9,
            "interval"@.len() == 8,
            "firstDayOfWeek"@.len() == 14,
            "byDay"@.len() == 5,
            "byDate"@.len() == 6,
            "byMonth"@.len() == 7,
            "byYearDay"@.len() == 9,
            "byWeekNo"@.len() == 8,
            "byHour"@.len() == 6,
            "byMinute"@.len() == 8,
            "bySecond"@.len() == 8,
            "bySetPosition"@.len() == 13,
            "count"@.len() == 5,
            "until"@.len() == 5,
            "byDay"@[0] == 'b',
            "count"@[0] == 'c',
            "until"@[0] == 'u',
            "byDate"@[2] == 'D',
            "byHour"@[2] == 'H',
            "interval"@[2] == 't',
            "byWeekNo"@[2] == 'W',
            "byMinute"@[2] == 'M',
            "bySecond"@[2] == 'S',
            "frequency"@[0] == 'f',
            "byYearDay"@[0] == 'b',
    {
        reveal_strlit("frequency");
        reveal_strlit("interval");
        reveal_strlit("firstDayOfWeek");
        reveal_strlit("byDay");
        reveal_strlit("byDate");
        reveal_strlit("byMonth");
        reveal_strlit("byYearDay");
        reveal_strlit("byWeekNo");
        reveal_strlit("byHour");
        reveal_strlit("byMinute");
        reveal_strlit("bySecond");
        reveal_strlit("bySetPosition");
        reveal_strlit("count");
        reveal_strlit("until");
    }
}

impl Duplicate for Recurrence {
    fn duplicate(&self) -> (r: Self) {
        let frequency = self.frequency.duplicate();
        let interval = self.interval.duplicate();
        let first_day_of_week = self.first_day_of_week.duplicate();
        let by_day = self.by_day.duplicate();
        let by_date = self.by_date.duplicate();
        let by_month = self.by_month.duplicate();
        let by_year_day = self.by_year_day.duplicate();
        let by_week_no = self.by_week_no.duplicate();
        let by_hour = self.by_hour.duplicate();
        let by_minute = self.by_minute.duplicate();
        let by_second = self.by_second.duplicate();
        let by_set_position = self.by_set_position.duplicate();
        let count = self.count.duplicate();
        let until = self.until.duplicate();
        Recurrence {
            frequency,
            interval,
            first_day_of_week,
            by_day,
            by_date,
            by_month,
            by_year_day,
            by_week_no,
            by_hour,
            by_minute,
            by_second,
            by_set_position,
            count,
            until,
        }
    }
}

impl ToJson for Recurrence {
    /// An object with one key for each field.
    open spec fn encoded(v: RecurrenceView) -> JsonValue {
        let o = Seq::empty();
        let o = put_field::<Frequency>(o, "frequency"@, v.frequency);
        let o = put_field::<Option<i32>>(o, "interval"@, v.interval);
        let o = put_field::<Option<i32>>(o, "firstDayOfWeek"@, v.first_day_of_week);
        let o = put_field::<Option<Vec<i32>>>(o, "byDay"@, v.by_day);
        let o = put_field::<Option<Vec<i32>>>(o, "byDate"@, v.by_date);
        let o = put_field::<Option<Vec<i32>>>(o, "byMonth"@, v.by_month);
        let o = put_field::<Option<Vec<i32>>>(o, "byYearDay"@, v.by_year_day);
        let o = put_field::<Option<Vec<i32>>>(o, "byWeekNo"@, v.by_week_no);
        let o = put_field::<Option<Vec<i32>>>(o, "byHour"@, v.by_hour);
        let o = put_field::<Option<Vec<i32>>>(o, "byMinute"@, v.by_minute);
        let o = put_field::<Option<Vec<i32>>>(o, "bySecond"@, v.by_second);
        let o = put_field::<Option<Vec<i32>>>(o, "bySetPosition"@, v.by_set_position);
        let o = put_field::<Option<u64>>(o, "count"@, v.count);
        let o = put_field::<LocalDate>(o, "until"@, v.until);
        JsonValue::Object(o)
    }

    fn to_json(&self) -> (json: Json) {
        let mut d: TextMap<Json> = TextMap::new();
        assert(d.deep_view() =~= Seq::empty());
        self.frequency.to_json_field(&mut d, "frequency");
        self.interval.to_json_field(&mut d, "interval");
        self.first_day_of_week.to_json_field(&mut d, "firstDayOfWeek");
        self.by_day.to_json_field(&mut d, "byDay");
        self.by_date.to_json_field(&mut d, "byDate");
        self.by_month.to_json_field(&mut d, "byMonth");
        self.by_year_day.to_json_field(&mut d, "byYearDay");
        self.by_week_no.to_json_field(&mut d, "byWeekNo");
        self.by_hour.to_json_field(&mut d, "byHour");
        self.by_minute.to_json_field(&mut d, "byMinute");
        self.by_second.to_json_field(&mut d, "bySecond");
        self.by_set_position.to_json_field(&mut d, "bySetPosition");
        self.count.to_json_field(&mut d, "count");
        self.until.to_json_field(&mut d, "until");
        proof {
            lemma_object_value(d);
        }
        Json::Object(d)
    }
}

impl FromJson for Recurrence {
    /// The fields are read in the order in which they are declared; the
    /// first that fails gives the error.
    open spec fn decoded(json: JsonValue) -> Result<RecurrenceView, ParseErrorView> {
        match json {
            JsonValue::Object(o) => {
                let frequency = get_field::<Frequency>(o, "frequency"@);
                let interval = get_field::<Option<i32>>(o, "interval"@);
                let first_day_of_week = get_field::<Option<i32>>(o, "firstDayOfWeek"@);
                let by_day = get_field::<Option<Vec<i32>>>(o, "byDay"@);
                let by_date = get_field::<Option<Vec<i32>>>(o, "byDate"@);
                let by_month = get_field::<Option<Vec<i32>>>(o, "byMonth"@);
                let by_year_day = get_field::<Option<Vec<i32>>>(o, "byYearDay"@);
                let by_week_no = get_field::<Option<Vec<i32>>>(o, "byWeekNo"@);
                let by_hour = get_field::<Option<Vec<i32>>>(o, "byHour"@);
                let by_minute = get_field::<Option<Vec<i32>>>(o, "byMinute"@);
                let by_second = get_field::<Option<Vec<i32>>>(o, "bySecond"@);
                let by_set_position = get_field::<Option<Vec<i32>>>(o, "bySetPosition"@);
                let count = get_field::<Option<u64>>(o, "count"@);
                let until = get_field::<LocalDate>(o, "until"@);
                if frequency is Err {
                    Err(frequency->Err_0)
                } else if interval is Err {
                    Err(interval->Err_0)
                } else if first_day_of_week is Err {
                    Err(first_day_of_week->Err_0)
                } else if by_day is Err {
                    Err(by_day->Err_0)
                } else if by_date is Err {
                    Err(by_date->Err_0)
                } else if by_month is Err {
                    Err(by_month->Err_0)
                } else if by_year_day is Err {
                    Err(by_year_day->Err_0)
                } else if by_week_no is Err {
                    Err(by_week_no->Err_0)
                } else if by_hour is Err {
                    Err(by_hour->Err_0)
                } else if by_minute is Err {
                    Err(by_minute->Err_0)
                } else if by_second is Err {
                    Err(by_second->Err_0)
                } else if by_set_position is Err {
                    Err(by_set_position->Err_0)
                } else if count is Err {
                    Err(count->Err_0)
                } else if until is Err {
                    Err(until->Err_0)
                } else {
                    Ok(
                        RecurrenceView {
                            frequency: frequency->Ok_0,
                            interval: interval->Ok_0,
                            first_day_of_week: first_day_of_week->Ok_0,
                            by_day: by_day->Ok_0,
                            by_date: by_date->Ok_0,
                            by_month: by_month->Ok_0,
                            by_year_day: by_year_day->Ok_0,
                            by_week_no: by_week_no->Ok_0,
                            by_hour: by_hour->Ok_0,
                            by_minute: by_minute->Ok_0,
                            by_second: by_second->Ok_0,
                            by_set_position: by_set_position->Ok_0,
                            count: count->Ok_0,
                            until: until->Ok_0,
                        },
                    )
                }
            },
            _ => Err(ParseErrorView::InvalidJsonType("Recurrence"@)),
        }
    }

    fn from_json(json: &Json) -> (r: Result<Self, ParseError>) {
        match json {
            Json::Object(o) => {
                proof {
                    lemma_object_value(*o);
                }
                let frequency = match <Frequency as FromJsonField>::from_json_field(
                    o,
                    "frequency",
                ) {
                    Ok(v) => v,
                    Err(e) => return Err(e),
                };
                let interval = match <Option<i32> as FromJsonField>::from_json_field(
                    o,
                    "interval",
                ) {
                    Ok(v) => v,
                    Err(e) => return Err(e),
                };
                let first_day_of_week = match <Option<i32> as FromJsonField>::from_json_field(
                    o,
                    "firstDayOfWeek",
                ) {
                    Ok(v) => v,
                    Err(e) => return Err(e),
                };
                let by_day = match <Option<Vec<i32>> as FromJsonField>::from_json_field(
                    o,
                    "byDay",
                ) {
                    Ok(v) => v,
                    Err(e) => return Err(e),
                };
                let by_date = match <Option<Vec<i32>> as FromJsonField>::from_json_field(
                    o,
                    "byDate",
                ) {
                    Ok(v) => v,
                    Err(e) => return Err(e),
                };
                let by_month = match <Option<Vec<i32>> as FromJsonField>::from_json_field(
                    o,
                    "byMonth",
                ) {
                    Ok(v) => v,
                    Err(e) => return Err(e),
                };
                let by_year_day = match <Option<Vec<i32>> as FromJsonField>::from_json_field(
                    o,
                    "byYearDay",
                ) {
                    Ok(v) => v,
                    Err(e) => return Err(e),
                };
                let by_week_no = match <Option<Vec<i32>> as FromJsonField>::from_json_field(
                    o,
                    "byWeekNo",
                ) {
                    Ok(v) => v,
                    Err(e) => return Err(e),
                };
                let by_hour = match <Option<Vec<i32>> as FromJsonField>::from_json_field(
                    o,
                    "byHour",
                ) {
                    Ok(v) => v,
                    Err(e) => return Err(e),
                };
                let by_minute = match <Option<Vec<i32>> as FromJsonField>::from_json_field(
                    o,
                    "byMinute",
                ) {
                    Ok(v) => v,
                    Err(e) => return Err(e),
                };
                let by_second = match <Option<Vec<i32>> as FromJsonField>::from_json_field(
                    o,
                    "bySecond",
                ) {
                    Ok(v) => v,
                    Err(e) => return Err(e),
                };
                let by_set_position = match <Option<Vec<i32>> as FromJsonField>::from_json_field(
                    o,
                    "bySetPosition",
                ) {
                    Ok(v) => v,
                    Err(e) => return Err(e),
                };
                let count = match <Option<u64> as FromJsonField>::from_json_field(o, "count") {
                    Ok(v) => v,
                    Err(e) => return Err(e),
                };
                let until = match <LocalDate as FromJsonField>::from_json_field(o, "until") {
                    Ok(v) => v,
                    Err(e) => return Err(e),
                };
                Ok(Recurrence {
                    frequency,
                    interval,
                    first_day_of_week,
                    by_day,
                    by_date,
                    by_month,
                    by_year_day,
                    by_week_no,
                    by_hour,
                    by_minute,
                    by_second,
                    by_set_position,
                    count,
                    until,
                })
            },
            _ => Err(ParseError::InvalidJsonType("Recurrence".to_string())),
        }
    }
}

impl JsonCodec for Recurrence {
    open spec fn valid(v: RecurrenceView) -> bool {
        &&& <Frequency as FieldCodec>::field_valid(v.frequency)
        &&& <Option<i32> as FieldCodec>::field_valid(v.interval)
        &&& <Option<i32> as FieldCodec>::field_valid(v.first_day_of_week)
        &&& <Option<Vec<i32>> as FieldCodec>::field_valid(v.by_day)
        &&& <Option<Vec<i32>> as FieldCodec>::field_valid(v.by_date)
        &&& <Option<Vec<i32>> as FieldCodec>::field_valid(v.by_month)
        &&& <Option<Vec<i32>> as FieldCodec>::field_valid(v.by_year_day)
        &&& <Option<Vec<i32>> as FieldCodec>::field_valid(v.by_week_no)
        &&& <Option<Vec<i32>> as FieldCodec>::field_valid(v.by_hour)
        &&& <Option<Vec<i32>> as FieldCodec>::field_valid(v.by_minute)
        &&& <Option<Vec<i32>> as FieldCodec>::field_valid(v.by_second)
        &&& <Option<Vec<i32>> as FieldCodec>::field_valid(v.by_set_position)
        &&& <Option<u64> as FieldCodec>::field_valid(v.count)
        &&& <LocalDate as FieldCodec>::field_valid(v.until)
    }

    proof fn round_trip(v: RecurrenceView) {
        let o = Self::encoded(v)->Object_0;
        Self::lemma_wire_names();
        assert(get_field::<Frequency>(o, "frequency"@) == Ok::<
            Frequency,
            ParseErrorView,
        >(v.frequency)) by {
            Self::lemma_slots(v, "frequency"@);
            <Frequency as FieldCodec>::field_round_trip(v.frequency, "frequency"@);
        }
        assert(get_field::<Option<i32>>(o, "interval"@) == Ok::<
            Option<i32>,
            ParseErrorView,
        >(v.interval)) by {
            Self::lemma_slots(v, "interval"@);
            <Option<i32> as FieldCodec>::field_round_trip(v.interval, "interval"@);
        }
        assert(get_field::<Option<i32>>(o, "firstDayOfWeek"@) == Ok::<
            Option<i32>,
            ParseErrorView,
        >(v.first_day_of_week)) by {
            Self::lemma_slots(v, "firstDayOfWeek"@);
            <Option<i32> as FieldCodec>::field_round_trip(v.first_day_of_week, "firstDayOfWeek"@);
        }
        assert(get_field::<Option<Vec<i32>>>(o, "byDay"@) == Ok::<
            Option<Seq<i32>>,
            ParseErrorView,
        >(v.by_day)) by {
            Self::lemma_slots(v, "byDay"@);
            <Option<Vec<i32>> as FieldCodec>::field_round_trip(v.by_day, "byDay"@);
        }
        assert(get_field::<Option<Vec<i32>>>(o, "byDate"@) == Ok::<
            Option<Seq<i32>>,
            ParseErrorView,
        >(v.by_date)) by {
            Self::lemma_slots(v, "byDate"@);
            <Option<Vec<i32>> as FieldCodec>::field_round_trip(v.by_date, "byDate"@);
        }
        assert(get_field::<Option<Vec<i32>>>(o, "byMonth"@) == Ok::<
            Option<Seq<i32>>,
            ParseErrorView,
        >(v.by_month)) by {
            Self::lemma_slots(v, "byMonth"@);
            <Option<Vec<i32>> as FieldCodec>::field_round_trip(v.by_month, "byMonth"@);
        }
        assert(get_field::<Option<Vec<i32>>>(o, "byYearDay"@) == Ok::<
            Option<Seq<i32>>,
            ParseErrorView,
        >(v.by_year_day)) by {
            Self::lemma_slots(v, "byYearDay"@);
            <Option<Vec<i32>> as FieldCodec>::field_round_trip(v.by_year_day, "byYearDay"@);
        }
        assert(get_field::<Option<Vec<i32>>>(o, "byWeekNo"@) == Ok::<
            Option<Seq<i32>>,
            ParseErrorView,
        >(v.by_week_no)) by {
            Self::lemma_slots(v, "byWeekNo"@);
            <Option<Vec<i32>> as FieldCodec>::field_round_trip(v.by_week_no, "byWeekNo"@);
        }
        assert(get_field::<Option<Vec<i32>>>(o, "byHour"@) == Ok::<
            Option<Seq<i32>>,
            ParseErrorView,
        >(v.by_hour)) by {
            Self::lemma_slots(v, "byHour"@);
            <Option<Vec<i32>> as FieldCodec>::field_round_trip(v.by_hour, "byHour"@);
        }
        assert(get_field::<Option<Vec<i32>>>(o, "byMinute"@) == Ok::<
            Option<Seq<i32>>,
            ParseErrorView,
        >(v.by_minute)) by {
            Self::lemma_slots(v, "byMinute"@);
            <Option<Vec<i32>> as FieldCodec>::field_round_trip(v.by_minute, "byMinute"@);
        }
        assert(get_field::<Option<Vec<i32>>>(o, "bySecond"@) == Ok::<
            Option<Seq<i32>>,
            ParseErrorView,
        >(v.by_second)) by {
            Self::lemma_slots(v, "bySecond"@);
            <Option<Vec<i32>> as FieldCodec>::field_round_trip(v.by_second, "bySecond"@);
        }
        assert(get_field::<Option<Vec<i32>>>(o, "bySetPosition"@) == Ok::<
            Option<Seq<i32>>,
            ParseErrorView,
        >(v.by_set_position)) by {
            Self::lemma_slots(v, "bySetPosition"@);
            <Option<Vec<i32>> as FieldCodec>::field_round_trip(v.by_set_position, "bySetPosition"@);
        }
        assert(get_field::<Option<u64>>(o, "count"@) == Ok::<
            Option<u64>,
            ParseErrorView,
        >(v.count)) by {
            Self::lemma_slots(v, "count"@);
            <Option<u64> as FieldCodec>::field_round_trip(v.count, "count"@);
        }
        assert(get_field::<LocalDate>(o, "until"@) == Ok::<LocalDate, ParseErrorView>(v.until)) by {
            Self::lemma_slots(v, "until"@);
            <LocalDate as FieldCodec>::field_round_trip(v.until, "until"@);
        }
    }
}

impl Recurrence {
    /// What the written form of `v` holds under `name`.
    pub open spec fn slot(v: RecurrenceView, name: Seq<char>) -> Option<JsonValue> {
        if name == "frequency"@ {
            <Frequency as ToJsonField>::field_encoded(v.frequency)
        } else if name == "interval"@ {
            <Option<i32> as ToJsonField>::field_encoded(v.interval)
        } else if name == "firstDayOfWeek"@ {
            <Option<i32> as ToJsonField>::field_encoded(v.first_day_of_week)
        } else if name == "byDay"@ {
            <Option<Vec<i32>> as ToJsonField>::field_encoded(v.by_day)
        } else if name == "byDate"@ {
            <Option<Vec<i32>> as ToJsonField>::field_encoded(v.by_date)
        } else if name == "byMonth"@ {
            <Option<Vec<i32>> as ToJsonField>::field_encoded(v.by_month)
        } else if name == "byYearDay"@ {
            <Option<Vec<i32>> as ToJsonField>::field_encoded(v.by_year_day)
        } else if name == "byWeekNo"@ {
            <Option<Vec<i32>> as ToJsonField>::field_encoded(v.by_week_no)
        } else if name == "byHour"@ {
            <Option<Vec<i32>> as ToJsonField>::field_encoded(v.by_hour)
        } else if name == "byMinute"@ {
            <Option<Vec<i32>> as ToJsonField>::field_encoded(v.by_minute)
        } else if name == "bySecond"@ {
            <Option<Vec<i32>> as ToJsonField>::field_encoded(v.by_second)
        } else if name == "bySetPosition"@ {
            <Option<Vec<i32>> as ToJsonField>::field_encoded(v.by_set_position)
        } else if name == "count"@ {
            <Option<u64> as ToJsonField>::field_encoded(v.count)
        } else if name == "until"@ {
            <LocalDate as ToJsonField>::field_encoded(v.until)
        } else {
            None
        }
    }

    /// The written form holds each field under its wire name and nothing
    /// under any other name.
    pub proof fn lemma_slots(v: RecurrenceView, name: Seq<char>)
        ensures
            field_of(Self::encoded(v), name) == Self::slot(v, name),
    {
        Self::lemma_wire_names();
        if name == "frequency"@ {
            assert(field_of(Self::encoded(v), name) == Self::slot(v, name)) by {
                broadcast use lemma_lookup_put_slot;

            }
        } else if name == "interval"@ {
            assert(field_of(Self::encoded(v), name) == Self::slot(v, name)) by {
                broadcast use lemma_lookup_put_slot;

            }
        } else if name == "firstDayOfWeek"@ {
            assert(field_of(Self::encoded(v), name) == Self::slot(v, name)) by {
                broadcast use lemma_lookup_put_slot;

            }
        } else if name == "byDay"@ {
            assert(field_of(Self::encoded(v), name) == Self::slot(v, name)) by {
                broadcast use lemma_lookup_put_slot;

            }
        } else if name == "byDate"@ {
            assert(field_of(Self::encoded(v), name) == Self::slot(v, name)) by {
                broadcast use lemma_lookup_put_slot;

            }
        } else if name == "byMonth"@ {
            assert(field_of(Self::encoded(v), name) == Self::slot(v, name)) by {
                broadcast use lemma_lookup_put_slot;

            }
        } else if name == "byYearDay"@ {
            assert(field_of(Self::encoded(v), name) == Self::slot(v, name)) by {
                broadcast use lemma_lookup_put_slot;

            }
        } else if name == "byWeekNo"@ {
            assert(field_of(Self::encoded(v), name) == Self::slot(v, name)) by {
                broadcast use lemma_lookup_put_slot;

            }
        } else if name == "byHour"@ {
            assert(field_of(Self::encoded(v), name) == Self::slot(v, name)) by {
                broadcast use lemma_lookup_put_slot;

            }
        } else if name == "byMinute"@ {
            assert(field_of(Self::encoded(v), name) == Self::slot(v, name)) by {
                broadcast use lemma_lookup_put_slot;

            }
        } else if name == "bySecond"@ {
            assert(field_of(Self::encoded(v), name) == Self::slot(v, name)) by {
                broadcast use lemma_lookup_put_slot;

            }
        } else if name == "bySetPosition"@ {
            assert(field_of(Self::encoded(v), name) == Self::slot(v, name)) by {
                broadcast use lemma_lookup_put_slot;

            }
        } else if name == "count"@ {
            assert(field_of(Self::encoded(v), name) == Self::slot(v, name)) by {
                broadcast use lemma_lookup_put_slot;

            }
        } else if name == "until"@ {
            assert(field_of(Self::encoded(v), name) == Self::slot(v, name)) by {
                broadcast use lemma_lookup_put_slot;

            }
        } else {
            assert(field_of(Self::encoded(v), name) is None) by {
                broadcast use lemma_lookup_put_slot;

            }
        }
    }
}

/// How an alert reaches the user.
#[derive(Clone, Copy, Debug, PartialEq, Eq)]
pub enum AlertType {
    Email,
    Alert,
}

impl DeepView for AlertType {
    type V = AlertType;

    open spec fn deep_view(&self) -> AlertType {
        *self
    }
}

impl AlertType {
    /// The token that stands for the value on the wire.
    pub open spec fn token(self) -> Seq<char> {
        match self {
            AlertType::Email => "email"@,
            AlertType::Alert => "alert"@,
        }
    }

    /// The value that the token `s` stands for, if it is a token.
    pub open spec fn of_token(s: Seq<char>) -> Option<AlertType> {
        if s == "email"@ {
            Some(AlertType::Email)
        } else if s == "alert"@ {
            Some(AlertType::Alert)
        } else {
            None
        }
    }

    /// What tells the tokens apart: the length of each, and for tokens of
    /// one length a character in which they differ.
    pub proof fn lemma_tokens()
        ensures
            "email"@.len() == 5,
            "alert"@.len() == 5,
            "email"@[0] == 'e',
            "alert"@[0] == 'a',
    {
        reveal_strlit("email");
        reveal_strlit("alert");
    }

    pub fn to_string(&self) -> (r: String)
        ensures
            r@ == self.token(),
    {
        match self {
            AlertType::Email => "email".to_string(),
            AlertType::Alert => "alert".to_string(),
        }
    }
}

impl Default for AlertType {
    fn default() -> (r: Self)
        ensures
            r == AlertType::Alert,
    {
        AlertType::Alert
    }
}

impl Duplicate for AlertType {
    fn duplicate(&self) -> (r: Self) {
        *self
    }
}

impl ToJson for AlertType {
    open spec fn encoded(v: AlertType) -> JsonValue {
        JsonValue::String(v.token())
    }

    fn to_json(&self) -> (json: Json) {
        Json::String(self.to_string())
    }
}

impl FromJson for AlertType {
    open spec fn decoded(json: JsonValue) -> Result<AlertType, ParseErrorView> {
        match json {
            JsonValue::String(s) => match Self::of_token(s) {
                Some(v) => Ok(v),
                None => Err(ParseErrorView::InvalidStructure("AlertType"@)),
            },
            _ => Err(ParseErrorView::InvalidJsonType("AlertType"@)),
        }
    }

    fn from_json(json: &Json) -> (r: Result<AlertType, ParseError>) {
        match json {
            Json::String(v) => {
                if same_text(v.as_str(), "email") {
                    Ok(AlertType::Email)
                } else if same_text(v.as_str(), "alert") {
                    Ok(AlertType::Alert)
                } else {
                    Err(ParseError::InvalidStructure("AlertType".to_string()))
                }
            },
            _ => Err(ParseError::InvalidJsonType("AlertType".to_string())),
        }
    }
}

impl JsonCodec for AlertType {
    open spec fn valid(v: AlertType) -> bool {
        true
    }

    proof fn round_trip(v: AlertType) {
        Self::lemma_tokens();
    }
}

/// An alert ahead of an event.
#[derive(Clone, Debug, PartialEq)]
pub struct Alert {
    minutes_before: i32,
    typ: AlertType,
}

/// A value of [`Alert`] in contracts.
pub ghost struct AlertView {
    pub minutes_before: i32,
    pub typ: AlertType,
}

impl DeepView for Alert {
    type V = AlertView;

    closed spec fn deep_view(&self) -> AlertView {
        AlertView {
            minutes_before: self.minutes_before.deep_view(),
            typ: self.typ.deep_view(),
        }
    }
}

impl Alert {
    /// The default value: every field at the default of its type.
    pub open spec fn blank() -> AlertView {
        AlertView {
            minutes_before: 0,
            typ: AlertType::Alert,
        }
    }
}

impl Default for Alert {
    fn default() -> (r: Self)
        ensures
            r.deep_view() == Self::blank(),
    {
        let minutes_before: i32 = 0;
        let typ: AlertType = AlertType::default();
        Alert { minutes_before, typ }
    }
}

impl Alert {
    /// What tells the wire names of this type apart: the length of each, and
    /// for
    /// names of one length a character in which they differ.
    pub proof fn lemma_wire_names()
        ensures
            "minutesBefore"@.len() == 13,
            "type"@.len() == 4,
    {
        reveal_strlit("minutesBefore");
        reveal_strlit("type");
    }
}

impl Duplicate for Alert {
    fn duplicate(&self) -> (r: Self) {
        let minutes_before = self.minutes_before.duplicate();
        let typ = self.typ.duplicate();
        Alert { minutes_before, typ }
    }
}

impl ToJson for Alert {
    /// An object with one key for each field.
    open spec fn encoded(v: AlertView) -> JsonValue {
        let o = Seq::empty();
        let o = put_field::<i32>(o, "minutesBefore"@, v.minutes_before);
        let o = put_field::<AlertType>(o, "type"@, v.typ);
        JsonValue::Object(o)
    }

    fn to_json(&self) -> (json: Json) {
        let mut d: TextMap<Json> = TextMap::new();
        assert(d.deep_view() =~= Seq::empty());
        self.minutes_before.to_json_field(&mut d, "minutesBefore");
        self.typ.to_json_field(&mut d, "type");
        proof {
            lemma_object_value(d);
        }
        Json::Object(d)
    }
}

impl FromJson for Alert {
    /// The fields are read in the order in which they are declared; the
    /// first that fails gives the error.
    open spec fn decoded(json: JsonValue) -> Result<AlertView, ParseErrorView> {
        match json {
            JsonValue::Object(o) => {
                let minutes_before = get_field::<i32>(o, "minutesBefore"@);
                let typ = get_field::<AlertType>(o, "type"@);
                if minutes_before is Err {
                    Err(minutes_before->Err_0)
                } else if typ is Err {
                    Err(typ->Err_0)
                } else {
                    Ok(
                        AlertView {
                            minutes_before: minutes_before->Ok_0,
                            typ: typ->Ok_0,
                        },
                    )
                }
            },
            _ => Err(ParseErrorView::InvalidJsonType("Alert"@)),
        }
    }

    fn from_json(json: &Json) -> (r: Result<Self, ParseError>) {
        match json {
            Json::Object(o) => {
                proof {
                    lemma_object_value(*o);
                }
                let minutes_before = match <i32 as FromJsonField>::from_json_field(
                    o,
                    "minutesBefore",
                ) {
                    Ok(v) => v,
                    Err(e) => return Err(e),
                };
                let typ = match <AlertType as FromJsonField>::from_json_field(o, "type") {
                    Ok(v) => v,
                    Err(e) => return Err(e),
                };
                Ok(Alert { minutes_before, typ })
            },
            _ => Err(ParseError::InvalidJsonType("Alert".to_string())),
        }
    }
}

impl JsonCodec for Alert {
    open spec fn valid(v: AlertView) -> bool {
        &&& <i32 as FieldCodec>::field_valid(v.minutes_before)
        &&& <AlertType as FieldCodec>::field_valid(v.typ)
    }

    proof fn round_trip(v: AlertView) {
        let o = Self::encoded(v)->Object_0;
        Self::lemma_wire_names();
        assert(get_field::<i32>(o, "minutesBefore"@) == Ok::<
            i32,
            ParseErrorView,
        >(v.minutes_before)) by {
            Self::lemma_slots(v, "minutesBefore"@);
            <i32 as FieldCodec>::field_round_trip(v.minutes_before, "minutesBefore"@);
        }
        assert(get_field::<AlertType>(o, "type"@) == Ok::<AlertType, ParseErrorView>(v.typ)) by {
            Self::lemma_slots(v, "type"@);
            <AlertType as FieldCodec>::field_round_trip(v.typ, "type"@);
        }
    }
}

impl Alert {
    /// What the written form of `v` holds under `name`.
    pub open spec fn slot(v: AlertView, name: Seq<char>) -> Option<JsonValue> {
        if name == "minutesBefore"@ {
            <i32 as ToJsonField>::field_encoded(v.minutes_before)
        } else if name == "type"@ {
            <AlertType as ToJsonField>::field_encoded(v.typ)
        } else {
            None
        }
    }

    /// The written form holds each field under its wire name and nothing
    /// under any other name.
    pub proof fn lemma_slots(v: AlertView, name: Seq<char>)
        ensures
            field_of(Self::encoded(v), name) == Self::slot(v, name),
    {
        Self::lemma_wire_names();
        if name == "minutesBefore"@ {
            assert(field_of(Self::encoded(v), name) == Self::slot(v, name)) by {
                broadcast use lemma_lookup_put_slot;

            }
        } else if name == "type"@ {
            assert(field_of(Self::encoded(v), name) == Self::slot(v, name)) by {
                broadcast use lemma_lookup_put_slot;

            }
        } else {
            assert(field_of(Self::encoded(v), name) is None) by {
                broadcast use lemma_lookup_put_slot;

            }
        }
    }
}

/// The answer of a participant to an invitation.
#[derive(Clone, Copy, Debug, PartialEq, Eq)]
pub enum Rsvp {
    Unanswered,
    Yes,
    Maybe,
    No,
}

impl DeepView for Rsvp {
    type V = Rsvp;

    open spec fn deep_view(&self) -> Rsvp {
        *self
    }
}

impl Rsvp {
    /// The token that stands for the value on the wire.
    pub open spec fn token(self) -> Seq<char> {
        match self {
            Rsvp::Unanswered => ""@,
            Rsvp::Yes => "yes"@,
            Rsvp::Maybe => "maybe"@,
            Rsvp::No => "no"@,
        }
    }

    /// The value that the token `s` stands for, if it is a token.
    pub open spec fn of_token(s: Seq<char>) -> Option<Rsvp> {
        if s == ""@ {
            Some(Rsvp::Unanswered)
        } else if s == "yes"@ {
            Some(Rsvp::Yes)
        } else if s == "maybe"@ {
            Some(Rsvp::Maybe)
        } else if s == "no"@ {
            Some(Rsvp::No)
        } else {
            None
        }
    }

    /// What tells the tokens apart: the length of each, and for tokens of
    /// one length a character in which they differ.
    pub proof fn lemma_tokens()
        ensures
            ""@.len() == 0,
            "yes"@.len() == 3,
            "maybe"@.len() == 5,
            "no"@.len() == 2,
    {
        reveal_strlit("");
        reveal_strlit("yes");
        reveal_strlit("maybe");
        reveal_strlit("no");
    }

    pub fn to_string(&self) -> (r: String)
        ensures
            r@ == self.token(),
    {
        match self {
            Rsvp::Unanswered => "".to_string(),
            Rsvp::Yes => "yes".to_string(),
            Rsvp::Maybe => "maybe".to_string(),
            Rsvp::No => "no".to_string(),
        }
    }
}

impl Default for Rsvp {
    fn default() -> (r: Self)
        ensures
            r == Rsvp::Unanswered,
    {
        Rsvp::Unanswered
    }
}

impl Duplicate for Rsvp {
    fn duplicate(&self) -> (r: Self) {
        *self
    }
}

impl ToJson for Rsvp {
    open spec fn encoded(v: Rsvp) -> JsonValue {
        JsonValue::String(v.token())
    }

    fn to_json(&self) -> (json: Json) {
        Json::String(self.to_string())
    }
}

impl FromJson for Rsvp {
    open spec fn decoded(json: JsonValue) -> Result<Rsvp, ParseErrorView> {
        match json {
            JsonValue::String(s) => match Self::of_token(s) {
                Some(v) => Ok(v),
                None => Err(ParseErrorView::InvalidStructure("Rsvp"@)),
            },
            _ => Err(ParseErrorView::InvalidJsonType("Rsvp"@)),
        }
    }

    fn from_json(json: &Json) -> (r: Result<Rsvp, ParseError>) {
        match json {
            Json::String(v) => {
                if same_text(v.as_str(), "") {
                    Ok(Rsvp::Unanswered)
                } else if same_text(v.as_str(), "yes") {
                    Ok(Rsvp::Yes)
                } else if same_text(v.as_str(), "maybe") {
                    Ok(Rsvp::Maybe)
                } else if same_text(v.as_str(), "no") {
                    Ok(Rsvp::No)
                } else {
                    Err(ParseError::InvalidStructure("Rsvp".to_string()))
                }
            },
            _ => Err(ParseError::InvalidJsonType("Rsvp".to_string())),
        }
    }
}

impl JsonCodec for Rsvp {
    open spec fn valid(v: Rsvp) -> bool {
        true
    }

    proof fn round_trip(v: Rsvp) {
        Self::lemma_tokens();
    }
}

/// Someone who takes part in an event.
#[derive(Clone, Debug, PartialEq)]
pub struct Participant {
    name: String,
    email: String,
    is_you: bool,
    rsvp: Rsvp,
}

/// A value of [`Participant`] in contracts.
pub ghost struct ParticipantView {
    pub name: Seq<char>,
    pub email: Seq<char>,
    pub is_you: bool,
    pub rsvp: Rsvp,
}

impl DeepView for Participant {
    type V = ParticipantView;

    closed spec fn deep_view(&self) -> ParticipantView {
        ParticipantView {
            name: self.name.deep_view(),
            email: self.email.deep_view(),
            is_you: self.is_you.deep_view(),
            rsvp: self.rsvp.deep_view(),
        }
    }
}

impl Participant {
    /// The default value: every field at the default of its type.
    pub open spec fn blank() -> ParticipantView {
        ParticipantView {
            name: Seq::<char>::empty(),
            email: Seq::<char>::empty(),
            is_you: false,
            rsvp: Rsvp::Unanswered,
        }
    }
}

impl Default for Participant {
    fn default() -> (r: Self)
        ensures
            r.deep_view() == Self::blank(),
    {
        let name: String = String::new();
        let email: String = String::new();
        let is_you: bool = false;
        let rsvp: Rsvp = Rsvp::default();
        Participant { name, email, is_you, rsvp }
    }
}

impl Participant {
    /// What tells the wire names of this type apart: the length of each, and
    /// for
    /// names of one length a character in which they differ.
    pub proof fn lemma_wire_names()
        ensures
            "name"@.len() == 4,
            "email"@.len() == 5,
            "isYou"@.len() == 5,
            "rsvp"@.len() == 4,
            "name"@[0] == 'n',
            "rsvp"@[0] == 'r',
            "email"@[0] == 'e',
            "isYou"@[0] == 'i',
    {
        reveal_strlit("name");
        reveal_strlit("email");
        reveal_strlit("isYou");
        reveal_strlit("rsvp");
    }
}

impl Duplicate for Participant {
    fn duplicate(&self) -> (r: Self) {
        let name = self.name.duplicate();
        let email = self.email.duplicate();
        let is_you = self.is_you.duplicate();
        let rsvp = self.rsvp.duplicate();
        Participant { name, email, is_you, rsvp }
    }
}

impl ToJson for Participant {
    /// An object with one key for each field.
    open spec fn encoded(v: ParticipantView) -> JsonValue {
        let o = Seq::empty();
        let o = put_field::<String>(o, "name"@, v.name);
        let o = put_field::<String>(o, "email"@, v.email);
        let o = put_field::<bool>(o, "isYou"@, v.is_you);
        let o = put_field::<Rsvp>(o, "rsvp"@, v.rsvp);
        JsonValue::Object(o)
    }

    fn to_json(&self) -> (json: Json) {
        let mut d: TextMap<Json> = TextMap::new();
        assert(d.deep_view() =~= Seq::empty());
        self.name.to_json_field(&mut d, "name");
        self.email.to_json_field(&mut d, "email");
        self.is_you.to_json_field(&mut d, "isYou");
        self.rsvp.to_json_field(&mut d, "rsvp");
        proof {
            lemma_object_value(d);
        }
        Json::Object(d)
    }
}

impl FromJson for Participant {
    /// The fields are read in the order in which they are declared; the
    /// first that fails gives the error.
    open spec fn decoded(json: JsonValue) -> Result<ParticipantView, ParseErrorView> {
        match json {
            JsonValue::Object(o) => {
                let name = get_field::<String>(o, "name"@);
                let email = get_field::<String>(o, "email"@);
                let is_you = get_field::<bool>(o, "isYou"@);
                let rsvp = get_field::<Rsvp>(o, "rsvp"@);
                if name is Err {
                    Err(name->Err_0)
                } else if email is Err {
                    Err(email->Err_0)
                } else if is_you is Err {
                    Err(is_you->Err_0)
                } else if rsvp is Err {
                    Err(rsvp->Err_0)
                } else {
                    Ok(
                        ParticipantView {
                            name: name->Ok_0,
                            email: email->Ok_0,
                            is_you: is_you->Ok_0,
                            rsvp: rsvp->Ok_0,
                        },
                    )
                }
            },
            _ => Err(ParseErrorView::InvalidJsonType("Participant"@)),
        }
    }

    fn from_json(json: &Json) -> (r: Result<Self, ParseError>) {
        match json {
            Json::Object(o) => {
                proof {
                    lemma_object_value(*o);
                }
                let name = match <String as FromJsonField>::from_json_field(o, "name") {
                    Ok(v) => v,
                    Err(e) => return Err(e),
                };
                let email = match <String as FromJsonField>::from_json_field(o, "email") {
                    Ok(v) => v,
                    Err(e) => return Err(e),
                };
                let is_you = match <bool as FromJsonField>::from_json_field(o, "isYou") {
                    Ok(v) => v,
                    Err(e) => return Err(e),
                };
                let rsvp = match <Rsvp as FromJsonField>::from_json_field(o, "rsvp") {
                    Ok(v) => v,
                    Err(e) => return Err(e),
                };
                Ok(Participant { name, email, is_you, rsvp })
            },
            _ => Err(ParseError::InvalidJsonType("Participant".to_string())),
        }
    }
}

impl JsonCodec for Participant {
    open spec fn valid(v: ParticipantView) -> bool {
        &&& <String as FieldCodec>::field_valid(v.name)
        &&& <String as FieldCodec>::field_valid(v.email)
        &&& <bool as FieldCodec>::field_valid(v.is_you)
        &&& <Rsvp as FieldCodec>::field_valid(v.rsvp)
    }

    proof fn round_trip(v: ParticipantView) {
        let o = Self::encoded(v)->Object_0;
        Self::lemma_wire_names();
        assert(get_field::<String>(o, "name"@) == Ok::<Seq<char>, ParseErrorView>(v.name)) by {
            Self::lemma_slots(v, "name"@);
            <String as FieldCodec>::field_round_trip(v.name, "name"@);
        }
        assert(get_field::<String>(o, "email"@) == Ok::<Seq<char>, ParseErrorView>(v.email)) by {
            Self::lemma_slots(v, "email"@);
            <String as FieldCodec>::field_round_trip(v.email, "email"@);
        }
        assert(get_field::<bool>(o, "isYou"@) == Ok::<bool, ParseErrorView>(v.is_you)) by {
            Self::lemma_slots(v, "isYou"@);
            <bool as FieldCodec>::field_round_trip(v.is_you, "isYou"@);
        }
        assert(get_field::<Rsvp>(o, "rsvp"@) == Ok::<Rsvp, ParseErrorView>(v.rsvp)) by {
            Self::lemma_slots(v, "rsvp"@);
            <Rsvp as FieldCodec>::field_round_trip(v.rsvp, "rsvp"@);
        }
    }
}

impl Participant {
    /// What the written form of `v` holds under `name`.
    pub open spec fn slot(v: ParticipantView, name: Seq<char>) -> Option<JsonValue> {
        if name == "name"@ {
            <String as ToJsonField>::field_encoded(v.name)
        } else if name == "email"@ {
            <String as ToJsonField>::field_encoded(v.email)
        } else if name == "isYou"@ {
            <bool as ToJsonField>::field_encoded(v.is_you)
        } else if name == "rsvp"@ {
            <Rsvp as ToJsonField>::field_encoded(v.rsvp)
        } else {
            None
        }
    }

    /// The written form holds each field under its wire name and nothing
    /// under any other name.
    pub proof fn lemma_slots(v: ParticipantView, name: Seq<char>)
        ensures
            field_of(Self::encoded(v), name) == Self::slot(v, name),
    {
        Self::lemma_wire_names();
        if name == "name"@ {
            assert(field_of(Self::encoded(v), name) == Self::slot(v, name)) by {
                broadcast use lemma_lookup_put_slot;

            }
        } else if name == "email"@ {
            assert(field_of(Self::encoded(v), name) == Self::slot(v, name)) by {
                broadcast use lemma_lookup_put_slot;

            }
        } else if name == "isYou"@ {
            assert(field_of(Self::encoded(v), name) == Self::slot(v, name)) by {
                broadcast use lemma_lookup_put_slot;

            }
        } else if name == "rsvp"@ {
            assert(field_of(Self::encoded(v), name) == Self::slot(v, name)) by {
                broadcast use lemma_lookup_put_slot;

            }
        } else {
            assert(field_of(Self::encoded(v), name) is None) by {
                broadcast use lemma_lookup_put_slot;

            }
        }
    }
}

/// A [`CalendarEvent`] with every field given or left out.
#[derive(Debug, PartialEq)]
pub struct PartialCalendarEvent {
    id: Presence<String>,
    calendar_id: Presence<String>,
    summary: Presence<String>,
    description: Presence<String>,
    location: Presence<String>,
    show_as_free: Presence<bool>,
    is_all_day: Presence<bool>,
    start: Presence<Date>,
    end: Presence<Date>,
    start_time_zone: Presence<Option<String>>,
    end_time_zone: Presence<Option<String>>,
    recurrence: Presence<Option<Recurrence>>,
    inclusions: Presence<Option<Vec<LocalDate>>>,
    exceptions: Presence<Option<ExceptionMap>>,
    alerts: Presence<Option<Vec<Alert>>>,
    organizer: Presence<Option<Participant>>,
    attendees: Presence<Option<Vec<Participant>>>,
    attachments: Presence<Option<Vec<File>>>,
}

/// A value of [`PartialCalendarEvent`] in contracts.
pub ghost struct PartialCalendarEventView {
    pub id: Presence<Seq<char>>,
    pub calendar_id: Presence<Seq<char>>,
    pub summary: Presence<Seq<char>>,
    pub description: Presence<Seq<char>>,
    pub location: Presence<Seq<char>>,
    pub show_as_free: Presence<bool>,
    pub is_all_day: Presence<bool>,
    pub start: Presence<Date>,
    pub end: Presence<Date>,
    pub start_time_zone: Presence<Option<Seq<char>>>,
    pub end_time_zone: Presence<Option<Seq<char>>>,
    pub recurrence: Presence<Option<RecurrenceView>>,
    pub inclusions: Presence<Option<Seq<LocalDate>>>,
    pub exceptions: Presence<Option<Seq<(LocalDate, Option<PartialCalendarEventView>)>>>,
    pub alerts: Presence<Option<Seq<AlertView>>>,
    pub organizer: Presence<Option<ParticipantView>>,
    pub attendees: Presence<Option<Seq<ParticipantView>>>,
    pub attachments: Presence<Option<Seq<FileView>>>,
}

/// What a value of [`PartialCalendarEvent`] stands for.
pub closed spec fn partial_event_view(p: PartialCalendarEvent) -> PartialCalendarEventView
    decreases p, 0nat,
{
    PartialCalendarEventView {
        id: p.id.deep_view(),
        calendar_id: p.calendar_id.deep_view(),
        summary: p.summary.deep_view(),
        description: p.description.deep_view(),
        location: p.location.deep_view(),
        show_as_free: p.show_as_free.deep_view(),
        is_all_day: p.is_all_day.deep_view(),
        start: p.start.deep_view(),
        end: p.end.deep_view(),
        start_time_zone: p.start_time_zone.deep_view(),
        end_time_zone: p.end_time_zone.deep_view(),
        recurrence: p.recurrence.deep_view(),
        inclusions: p.inclusions.deep_view(),
        exceptions: match p.exceptions {
            Presence::Present(Some(m)) => Presence::Present(Some(exceptions_view(m))),
            Presence::Present(None) => Presence::Present(None),
            Presence::Absent => Presence::Absent,
        },
        alerts: p.alerts.deep_view(),
        organizer: p.organizer.deep_view(),
        attendees: p.attendees.deep_view(),
        attachments: p.attachments.deep_view(),
    }
}

impl DeepView for PartialCalendarEvent {
    type V = PartialCalendarEventView;

    closed spec fn deep_view(&self) -> PartialCalendarEventView {
        partial_event_view(*self)
    }
}

/// The written form of a value of [`PartialCalendarEvent`]: an object with one
/// key for each
/// field.
pub open spec fn partial_event_encoded(v: PartialCalendarEventView) -> JsonValue
    decreases v, 0nat,
{
    let o = Seq::empty();
    let o = put_field::<Presence<String>>(o, "id"@, v.id);
    let o = put_field::<Presence<String>>(o, "calendarId"@, v.calendar_id);
    let o = put_field::<Presence<String>>(o, "summary"@, v.summary);
    let o = put_field::<Presence<String>>(o, "description"@, v.description);
    let o = put_field::<Presence<String>>(o, "location"@, v.location);
    let o = put_field::<Presence<bool>>(o, "showAsFree"@, v.show_as_free);
    let o = put_field::<Presence<bool>>(o, "isAllDay"@, v.is_all_day);
    let o = put_field::<Presence<Date>>(o, "start"@, v.start);
    let o = put_field::<Presence<Date>>(o, "end"@, v.end);
    let o = put_field::<Presence<Option<String>>>(o, "startTimeZone"@, v.start_time_zone);
    let o = put_field::<Presence<Option<String>>>(o, "endTimeZone"@, v.end_time_zone);
    let o = put_field::<Presence<Option<Recurrence>>>(o, "recurrence"@, v.recurrence);
    let o = put_field::<Presence<Option<Vec<LocalDate>>>>(o, "inclusions"@, v.inclusions);
    let o = put_slot(o, "exceptions"@, exceptions_slot(v.exceptions));
    let o = put_field::<Presence<Option<Vec<Alert>>>>(o, "alerts"@, v.alerts);
    let o = put_field::<Presence<Option<Participant>>>(o, "organizer"@, v.organizer);
    let o = put_field::<Presence<Option<Vec<Participant>>>>(o, "attendees"@, v.attendees);
    let o = put_field::<Presence<Option<Vec<File>>>>(o, "attachments"@, v.attachments);
    JsonValue::Object(o)
}

/// What a JSON value is read as: the fields in the order in which they are
/// declared; the first that fails gives the error.
pub open spec fn partial_event_decoded(
    json: JsonValue,
) -> Result<PartialCalendarEventView, ParseErrorView>
    decreases json, 0nat,
{
    match json {
        JsonValue::Object(o) => {
            let id = get_field::<Presence<String>>(o, "id"@);
            let calendar_id = get_field::<Presence<String>>(o, "calendarId"@);
            let summary = get_field::<Presence<String>>(o, "summary"@);
            let description = get_field::<Presence<String>>(o, "description"@);
            let location = get_field::<Presence<String>>(o, "location"@);
            let show_as_free = get_field::<Presence<bool>>(o, "showAsFree"@);
            let is_all_day = get_field::<Presence<bool>>(o, "isAllDay"@);
            let start = get_field::<Presence<Date>>(o, "start"@);
            let end = get_field::<Presence<Date>>(o, "end"@);
            let start_time_zone = get_field::<Presence<Option<String>>>(o, "startTimeZone"@);
            let end_time_zone = get_field::<Presence<Option<String>>>(o, "endTimeZone"@);
            let recurrence = get_field::<Presence<Option<Recurrence>>>(o, "recurrence"@);
            let inclusions = get_field::<Presence<Option<Vec<LocalDate>>>>(o, "inclusions"@);
            let exceptions = exceptions_field_decoded(o, "exceptions"@);
            let alerts = get_field::<Presence<Option<Vec<Alert>>>>(o, "alerts"@);
            let organizer = get_field::<Presence<Option<Participant>>>(o, "organizer"@);
            let attendees = get_field::<Presence<Option<Vec<Participant>>>>(o, "attendees"@);
            let attachments = get_field::<Presence<Option<Vec<File>>>>(o, "attachments"@);
            if id is Err {
                Err(id->Err_0)
            } else if calendar_id is Err {
                Err(calendar_id->Err_0)
            } else if summary is Err {
                Err(summary->Err_0)
            } else if description is Err {
                Err(description->Err_0)
            } else if location is Err {
                Err(location->Err_0)
            } else if show_as_free is Err {
                Err(show_as_free->Err_0)
            } else if is_all_day is Err {
                Err(is_all_day->Err_0)
            } else if start is Err {
                Err(start->Err_0)
            } else if end is Err {
                Err(end->Err_0)
            } else if start_time_zone is Err {
                Err(start_time_zone->Err_0)
            } else if end_time_zone is Err {
                Err(end_time_zone->Err_0)
            } else if recurrence is Err {
                Err(recurrence->Err_0)
            } else if inclusions is Err {
                Err(inclusions->Err_0)
            } else if exceptions is Err {
                Err(exceptions->Err_0)
            } else if alerts is Err {
                Err(alerts->Err_0)
            } else if organizer is Err {
                Err(organizer->Err_0)
            } else if attendees is Err {
                Err(attendees->Err_0)
            } else if attachments is Err {
                Err(attachments->Err_0)
            } else {
                Ok(
                    PartialCalendarEventView {
                        id: id->Ok_0,
                        calendar_id: calendar_id->Ok_0,
                        summary: summary->Ok_0,
                        description: description->Ok_0,
                        location: location->Ok_0,
                        show_as_free: show_as_free->Ok_0,
                        is_all_day: is_all_day->Ok_0,
                        start: start->Ok_0,
                        end: end->Ok_0,
                        start_time_zone: start_time_zone->Ok_0,
                        end_time_zone: end_time_zone->Ok_0,
                        recurrence: recurrence->Ok_0,
                        inclusions: inclusions->Ok_0,
                        exceptions: exceptions->Ok_0,
                        alerts: alerts->Ok_0,
                        organizer: organizer->Ok_0,
                        attendees: attendees->Ok_0,
                        attachments: attachments->Ok_0,
                    },
                )
            }
        },
        _ => Err(ParseErrorView::InvalidJsonType("CalendarEvent"@)),
    }
}

/// The values of [`PartialCalendarEvent`] that read back from their written
/// form.
pub open spec fn partial_event_valid(v: PartialCalendarEventView) -> bool
    decreases v, 0nat,
{
    &&& <Presence<String> as FieldCodec>::field_valid(v.id)
    &&& <Presence<String> as FieldCodec>::field_valid(v.calendar_id)
    &&& <Presence<String> as FieldCodec>::field_valid(v.summary)
    &&& <Presence<String> as FieldCodec>::field_valid(v.description)
    &&& <Presence<String> as FieldCodec>::field_valid(v.location)
    &&& <Presence<bool> as FieldCodec>::field_valid(v.show_as_free)
    &&& <Presence<bool> as FieldCodec>::field_valid(v.is_all_day)
    &&& <Presence<Date> as FieldCodec>::field_valid(v.start)
    &&& <Presence<Date> as FieldCodec>::field_valid(v.end)
    &&& <Presence<Option<String>> as FieldCodec>::field_valid(v.start_time_zone)
    &&& <Presence<Option<String>> as FieldCodec>::field_valid(v.end_time_zone)
    &&& <Presence<Option<Recurrence>> as FieldCodec>::field_valid(v.recurrence)
    &&& <Presence<Option<Vec<LocalDate>>> as FieldCodec>::field_valid(v.inclusions)
    &&& (v.exceptions matches Presence::Present(Some(m)) ==> exceptions_valid(m))
    &&& <Presence<Option<Vec<Alert>>> as FieldCodec>::field_valid(v.alerts)
    &&& <Presence<Option<Participant>> as FieldCodec>::field_valid(v.organizer)
    &&& <Presence<Option<Vec<Participant>>> as FieldCodec>::field_valid(v.attendees)
    &&& <Presence<Option<Vec<File>>> as FieldCodec>::field_valid(v.attachments)
}

/// Reads a value of [`PartialCalendarEvent`].
pub fn read_partial_event(json: &Json) -> (r: Result<PartialCalendarEvent, ParseError>)
    ensures
        result_view(r) == partial_event_decoded(json@),
    decreases json, 0nat,
{
    match json {
        Json::Object(o) => {
            proof {
                lemma_object_value(*o);
            }
            let id = match <Presence<String> as FromJsonField>::from_json_field(o, "id") {
                Ok(v) => v,
                Err(e) => return Err(e),
            };
            let calendar_id = match <Presence<String> as FromJsonField>::from_json_field(
                o,
                "calendarId",
            ) {
                Ok(v) => v,
                Err(e) => return Err(e),
            };
            let summary = match <Presence<String> as FromJsonField>::from_json_field(o, "summary") {
                Ok(v) => v,
                Err(e) => return Err(e),
            };
            let description = match <Presence<String> as FromJsonField>::from_json_field(
                o,
                "description",
            ) {
                Ok(v) => v,
                Err(e) => return Err(e),
            };
            let location = match <Presence<String> as FromJsonField>::from_json_field(
                o,
                "location",
            ) {
                Ok(v) => v,
                Err(e) => return Err(e),
            };
            let show_as_free = match <Presence<bool> as FromJsonField>::from_json_field(
                o,
                "showAsFree",
            ) {
                Ok(v) => v,
                Err(e) => return Err(e),
            };
            let is_all_day = match <Presence<bool> as FromJsonField>::from_json_field(
                o,
                "isAllDay",
            ) {
                Ok(v) => v,
                Err(e) => return Err(e),
            };
            let start = match <Presence<Date> as FromJsonField>::from_json_field(o, "start") {
                Ok(v) => v,
                Err(e) => return Err(e),
            };
            let end = match <Presence<Date> as FromJsonField>::from_json_field(o, "end") {
                Ok(v) => v,
                Err(e) => return Err(e),
            };
            let start_time_zone = match <Presence<Option<String>> as FromJsonField>::from_json_field(
                o,
                "startTimeZone",
            ) {
                Ok(v) => v,
                Err(e) => return Err(e),
            };
            let end_time_zone = match <Presence<Option<String>> as FromJsonField>::from_json_field(
                o,
                "endTimeZone",
            ) {
                Ok(v) => v,
                Err(e) => return Err(e),
            };
            let recurrence = match <Presence<Option<Recurrence>> as FromJsonField>::from_json_field(
                o,
                "recurrence",
            ) {
                Ok(v) => v,
                Err(e) => return Err(e),
            };
            let inclusions = match <Presence<Option<Vec<LocalDate>>> as FromJsonField>::from_json_field(
                o,
                "inclusions",
            ) {
                Ok(v) => v,
                Err(e) => return Err(e),
            };
            let exceptions = match read_exceptions_field(o, "exceptions") {
                Ok(v) => v,
                Err(e) => return Err(e),
            };
            let alerts = match <Presence<Option<Vec<Alert>>> as FromJsonField>::from_json_field(
                o,
                "alerts",
            ) {
                Ok(v) => v,
                Err(e) => return Err(e),
            };
            let organizer = match <Presence<Option<Participant>> as FromJsonField>::from_json_field(
                o,
                "organizer",
            ) {
                Ok(v) => v,
                Err(e) => return Err(e),
            };
            let attendees = match <Presence<Option<Vec<Participant>>> as FromJsonField>::from_json_field(
                o,
                "attendees",
            ) {
                Ok(v) => v,
                Err(e) => return Err(e),
            };
            let attachments = match <Presence<Option<Vec<File>>> as FromJsonField>::from_json_field(
                o,
                "attachments",
            ) {
                Ok(v) => v,
                Err(e) => return Err(e),
            };
            Ok(PartialCalendarEvent {
                id,
                calendar_id,
                summary,
                description,
                location,
                show_as_free,
                is_all_day,
                start,
                end,
                start_time_zone,
                end_time_zone,
                recurrence,
                inclusions,
                exceptions,
                alerts,
                organizer,
                attendees,
                attachments,
            })
        },
        _ => Err(ParseError::InvalidJsonType("CalendarEvent".to_string())),
    }
}

/// Writes a value of [`PartialCalendarEvent`].
pub fn write_partial_event(p: &PartialCalendarEvent) -> (json: Json)
    ensures
        json@ == partial_event_encoded(p.deep_view()),
    decreases p, 0nat,
{
    let mut d: TextMap<Json> = TextMap::new();
    assert(d.deep_view() =~= Seq::empty());
    p.id.to_json_field(&mut d, "id");
    p.calendar_id.to_json_field(&mut d, "calendarId");
    p.summary.to_json_field(&mut d, "summary");
    p.description.to_json_field(&mut d, "description");
    p.location.to_json_field(&mut d, "location");
    p.show_as_free.to_json_field(&mut d, "showAsFree");
    p.is_all_day.to_json_field(&mut d, "isAllDay");
    p.start.to_json_field(&mut d, "start");
    p.end.to_json_field(&mut d, "end");
    p.start_time_zone.to_json_field(&mut d, "startTimeZone");
    p.end_time_zone.to_json_field(&mut d, "endTimeZone");
    p.recurrence.to_json_field(&mut d, "recurrence");
    p.inclusions.to_json_field(&mut d, "inclusions");
    write_exceptions_field(&p.exceptions, &mut d, "exceptions");
    p.alerts.to_json_field(&mut d, "alerts");
    p.organizer.to_json_field(&mut d, "organizer");
    p.attendees.to_json_field(&mut d, "attendees");
    p.attachments.to_json_field(&mut d, "attachments");
    proof {
        lemma_object_value(d);
    }
    Json::Object(d)
}

/// Copies a value of [`PartialCalendarEvent`].
pub fn copy_partial_event(p: &PartialCalendarEvent) -> (r: PartialCalendarEvent)
    ensures
        r.deep_view() == p.deep_view(),
    decreases p, 0nat,
{
    let exceptions = copy_exceptions_field(&p.exceptions);
    assert(match exceptions {
        Presence::Present(Some(m)) => Presence::Present(Some(exceptions_view(m))),
        Presence::Present(None) => Presence::Present(None),
        Presence::Absent => Presence::Absent,
    } == match p.exceptions {
        Presence::Present(Some(m)) => Presence::Present(Some(exceptions_view(m))),
        Presence::Present(None) => Presence::Present(None),
        Presence::Absent => Presence::Absent,
    });
    let id = p.id.duplicate();
    let calendar_id = p.calendar_id.duplicate();
    let summary = p.summary.duplicate();
    let description = p.description.duplicate();
    let location = p.location.duplicate();
    let show_as_free = p.show_as_free.duplicate();
    let is_all_day = p.is_all_day.duplicate();
    let start = p.start.duplicate();
    let end = p.end.duplicate();
    let start_time_zone = p.start_time_zone.duplicate();
    let end_time_zone = p.end_time_zone.duplicate();
    let recurrence = p.recurrence.duplicate();
    let inclusions = p.inclusions.duplicate();
    let alerts = p.alerts.duplicate();
    let organizer = p.organizer.duplicate();
    let attendees = p.attendees.duplicate();
    let attachments = p.attachments.duplicate();
    PartialCalendarEvent {
        id,
        calendar_id,
        summary,
        description,
        location,
        show_as_free,
        is_all_day,
        start,
        end,
        start_time_zone,
        end_time_zone,
        recurrence,
        inclusions,
        exceptions,
        alerts,
        organizer,
        attendees,
        attachments,
    }
}

impl PartialCalendarEvent {
    /// The default value: every field at the default of its type.
    pub open spec fn blank() -> PartialCalendarEventView {
        PartialCalendarEventView {
            id: Presence::Absent,
            calendar_id: Presence::Absent,
            summary: Presence::Absent,
            description: Presence::Absent,
            location: Presence::Absent,
            show_as_free: Presence::Absent,
            is_all_day: Presence::Absent,
            start: Presence::Absent,
            end: Presence::Absent,
            start_time_zone: Presence::Absent,
            end_time_zone: Presence::Absent,
            recurrence: Presence::Absent,
            inclusions: Presence::Absent,
            exceptions: Presence::Absent,
            alerts: Presence::Absent,
            organizer: Presence::Absent,
            attendees: Presence::Absent,
            attachments: Presence::Absent,
        }
    }

    /// What the written form of `v` holds under `name`.
    pub open spec fn slot(v: PartialCalendarEventView, name: Seq<char>) -> Option<JsonValue> {
        if name == "id"@ {
            <Presence<String> as ToJsonField>::field_encoded(v.id)
        } else if name == "calendarId"@ {
            <Presence<String> as ToJsonField>::field_encoded(v.calendar_id)
        } else if name == "summary"@ {
            <Presence<String> as ToJsonField>::field_encoded(v.summary)
        } else if name == "description"@ {
            <Presence<String> as ToJsonField>::field_encoded(v.description)
        } else if name == "location"@ {
            <Presence<String> as ToJsonField>::field_encoded(v.location)
        } else if name == "showAsFree"@ {
            <Presence<bool> as ToJsonField>::field_encoded(v.show_as_free)
        } else if name == "isAllDay"@ {
            <Presence<bool> as ToJsonField>::field_encoded(v.is_all_day)
        } else if name == "start"@ {
            <Presence<Date> as ToJsonField>::field_encoded(v.start)
        } else if name == "end"@ {
            <Presence<Date> as ToJsonField>::field_encoded(v.end)
        } else if name == "startTimeZone"@ {
            <Presence<Option<String>> as ToJsonField>::field_encoded(v.start_time_zone)
        } else if name == "endTimeZone"@ {
            <Presence<Option<String>> as ToJsonField>::field_encoded(v.end_time_zone)
        } else if name == "recurrence"@ {
            <Presence<Option<Recurrence>> as ToJsonField>::field_encoded(v.recurrence)
        } else if name == "inclusions"@ {
            <Presence<Option<Vec<LocalDate>>> as ToJsonField>::field_encoded(v.inclusions)
        } else if name == "exceptions"@ {
            exceptions_slot(v.exceptions)
        } else if name == "alerts"@ {
            <Presence<Option<Vec<Alert>>> as ToJsonField>::field_encoded(v.alerts)
        } else if name == "organizer"@ {
            <Presence<Option<Participant>> as ToJsonField>::field_encoded(v.organizer)
        } else if name == "attendees"@ {
            <Presence<Option<Vec<Participant>>> as ToJsonField>::field_encoded(v.attendees)
        } else if name == "attachments"@ {
            <Presence<Option<Vec<File>>> as ToJsonField>::field_encoded(v.attachments)
        } else {
            None
        }
    }

    /// The written form holds each field under its wire name and nothing
    /// under any other name.
    pub proof fn lemma_slots(v: PartialCalendarEventView, name: Seq<char>)
        ensures
            field_of(partial_event_encoded(v), name) == Self::slot(v, name),
    {
        CalendarEvent::lemma_wire_names();
        if name == "id"@ {
            assert(field_of(partial_event_encoded(v), name) == Self::slot(v, name)) by {
                broadcast use lemma_lookup_put_slot;

            }
        } else if name == "calendarId"@ {
            assert(field_of(partial_event_encoded(v), name) == Self::slot(v, name)) by {
                broadcast use lemma_lookup_put_slot;

            }
        } else if name == "summary"@ {
            assert(field_of(partial_event_encoded(v), name) == Self::slot(v, name)) by {
                broadcast use lemma_lookup_put_slot;

            }
        } else if name == "description"@ {
            assert(field_of(partial_event_encoded(v), name) == Self::slot(v, name)) by {
                broadcast use lemma_lookup_put_slot;

            }
        } else if name == "location"@ {
            assert(field_of(partial_event_encoded(v), name) == Self::slot(v, name)) by {
                broadcast use lemma_lookup_put_slot;

            }
        } else if name == "showAsFree"@ {
            assert(field_of(partial_event_encoded(v), name) == Self::slot(v, name)) by {
                broadcast use lemma_lookup_put_slot;

            }
        } else if name == "isAllDay"@ {
            assert(field_of(partial_event_encoded(v), name) == Self::slot(v, name)) by {
                broadcast use lemma_lookup_put_slot;

            }
        } else if name == "start"@ {
            assert(field_of(partial_event_encoded(v), name) == Self::slot(v, name)) by {
                broadcast use lemma_lookup_put_slot;

            }
        } else if name == "end"@ {
            assert(field_of(partial_event_encoded(v), name) == Self::slot(v, name)) by {
                broadcast use lemma_lookup_put_slot;

            }
        } else if name == "startTimeZone"@ {
            assert(field_of(partial_event_encoded(v), name) == Self::slot(v, name)) by {
                broadcast use lemma_lookup_put_slot;

            }
        } else if name == "endTimeZone"@ {
            assert(field_of(partial_event_encoded(v), name) == Self::slot(v, name)) by {
                broadcast use lemma_lookup_put_slot;

            }
        } else if name == "recurrence"@ {
            assert(field_of(partial_event_encoded(v), name) == Self::slot(v, name)) by {
                broadcast use lemma_lookup_put_slot;

            }
        } else if name == "inclusions"@ {
            assert(field_of(partial_event_encoded(v), name) == Self::slot(v, name)) by {
                broadcast use lemma_lookup_put_slot;

            }
        } else if name == "exceptions"@ {
            assert(field_of(partial_event_encoded(v), name) == Self::slot(v, name)) by {
                broadcast use lemma_lookup_put_slot;

            }
        } else if name == "alerts"@ {
            assert(field_of(partial_event_encoded(v), name) == Self::slot(v, name)) by {
                broadcast use lemma_lookup_put_slot;

            }
        } else if name == "organizer"@ {
            assert(field_of(partial_event_encoded(v), name) == Self::slot(v, name)) by {
                broadcast use lemma_lookup_put_slot;

            }
        } else if name == "attendees"@ {
            assert(field_of(partial_event_encoded(v), name) == Self::slot(v, name)) by {
                broadcast use lemma_lookup_put_slot;

            }
        } else if name == "attachments"@ {
            assert(field_of(partial_event_encoded(v), name) == Self::slot(v, name)) by {
                broadcast use lemma_lookup_put_slot;

            }
        } else {
            assert(field_of(partial_event_encoded(v), name) is None) by {
                broadcast use lemma_lookup_put_slot;

            }
        }
    }
}

/// Reading the written form of a valid value of [`PartialCalendarEvent`] gives
/// it back.
pub proof fn lemma_partial_event_round_trip(v: PartialCalendarEventView)
    requires
        partial_event_valid(v),
    ensures
        partial_event_decoded(partial_event_encoded(v)) == Ok::<
            PartialCalendarEventView,
            ParseErrorView,
        >(v),
    decreases v, 0nat,
{
    let o = partial_event_encoded(v)->Object_0;
    CalendarEvent::lemma_wire_names();
    assert(get_field::<Presence<String>>(o, "id"@) == Ok::<
        Presence<Seq<char>>,
        ParseErrorView,
    >(v.id)) by {
        PartialCalendarEvent::lemma_slots(v, "id"@);
        <Presence<String> as FieldCodec>::field_round_trip(v.id, "id"@);
    }
    assert(get_field::<Presence<String>>(o, "calendarId"@) == Ok::<
        Presence<Seq<char>>,
        ParseErrorView,
    >(v.calendar_id)) by {
        PartialCalendarEvent::lemma_slots(v, "calendarId"@);
        <Presence<String> as FieldCodec>::field_round_trip(v.calendar_id, "calendarId"@);
    }
    assert(get_field::<Presence<String>>(o, "summary"@) == Ok::<
        Presence<Seq<char>>,
        ParseErrorView,
    >(v.summary)) by {
        PartialCalendarEvent::lemma_slots(v, "summary"@);
        <Presence<String> as FieldCodec>::field_round_trip(v.summary, "summary"@);
    }
    assert(get_field::<Presence<String>>(o, "description"@) == Ok::<
        Presence<Seq<char>>,
        ParseErrorView,
    >(v.description)) by {
        PartialCalendarEvent::lemma_slots(v, "description"@);
        <Presence<String> as FieldCodec>::field_round_trip(v.description, "description"@);
    }
    assert(get_field::<Presence<String>>(o, "location"@) == Ok::<
        Presence<Seq<char>>,
        ParseErrorView,
    >(v.location)) by {
        PartialCalendarEvent::lemma_slots(v, "location"@);
        <Presence<String> as FieldCodec>::field_round_trip(v.location, "location"@);
    }
    assert(get_field::<Presence<bool>>(o, "showAsFree"@) == Ok::<
        Presence<bool>,
        ParseErrorView,
    >(v.show_as_free)) by {
        PartialCalendarEvent::lemma_slots(v, "showAsFree"@);
        <Presence<bool> as FieldCodec>::field_round_trip(v.show_as_free, "showAsFree"@);
    }
    assert(get_field::<Presence<bool>>(o, "isAllDay"@) == Ok::<
        Presence<bool>,
        ParseErrorView,
    >(v.is_all_day)) by {
        PartialCalendarEvent::lemma_slots(v, "isAllDay"@);
        <Presence<bool> as FieldCodec>::field_round_trip(v.is_all_day, "isAllDay"@);
    }
    assert(get_field::<Presence<Date>>(o, "start"@) == Ok::<
        Presence<Date>,
        ParseErrorView,
    >(v.start)) by {
        PartialCalendarEvent::lemma_slots(v, "start"@);
        <Presence<Date> as FieldCodec>::field_round_trip(v.start, "start"@);
    }
    assert(get_field::<Presence<Date>>(o, "end"@) == Ok::<
        Presence<Date>,
        ParseErrorView,
    >(v.end)) by {
        PartialCalendarEvent::lemma_slots(v, "end"@);
        <Presence<Date> as FieldCodec>::field_round_trip(v.end, "end"@);
    }
    assert(get_field::<Presence<Option<String>>>(o, "startTimeZone"@) == Ok::<
        Presence<Option<Seq<char>>>,
        ParseErrorView,
    >(v.start_time_zone)) by {
        PartialCalendarEvent::lemma_slots(v, "startTimeZone"@);
        <Presence<Option<String>> as FieldCodec>::field_round_trip(
            v.start_time_zone,
            "startTimeZone"@,
        );
    }
    assert(get_field::<Presence<Option<String>>>(o, "endTimeZone"@) == Ok::<
        Presence<Option<Seq<char>>>,
        ParseErrorView,
    >(v.end_time_zone)) by {
        PartialCalendarEvent::lemma_slots(v, "endTimeZone"@);
        <Presence<Option<String>> as FieldCodec>::field_round_trip(v.end_time_zone, "endTimeZone"@);
    }
    assert(get_field::<Presence<Option<Recurrence>>>(o, "recurrence"@) == Ok::<
        Presence<Option<RecurrenceView>>,
        ParseErrorView,
    >(v.recurrence)) by {
        PartialCalendarEvent::lemma_slots(v, "recurrence"@);
        <Presence<Option<Recurrence>> as FieldCodec>::field_round_trip(v.recurrence, "recurrence"@);
    }
    assert(get_field::<Presence<Option<Vec<LocalDate>>>>(o, "inclusions"@) == Ok::<
        Presence<Option<Seq<LocalDate>>>,
        ParseErrorView,
    >(v.inclusions)) by {
        PartialCalendarEvent::lemma_slots(v, "inclusions"@);
        <Presence<Option<Vec<LocalDate>>> as FieldCodec>::field_round_trip(
            v.inclusions,
            "inclusions"@,
        );
    }
    assert(exceptions_field_decoded(o, "exceptions"@) == Ok::<
        Presence<Option<Seq<(LocalDate, Option<PartialCalendarEventView>)>>>,
        ParseErrorView,
    >(v.exceptions)) by {
        PartialCalendarEvent::lemma_slots(v, "exceptions"@);
        if let Presence::Present(Some(m)) = v.exceptions {
            lemma_exceptions_round_trip(m);
        }
    }
    assert(get_field::<Presence<Option<Vec<Alert>>>>(o, "alerts"@) == Ok::<
        Presence<Option<Seq<AlertView>>>,
        ParseErrorView,
    >(v.alerts)) by {
        PartialCalendarEvent::lemma_slots(v, "alerts"@);
        <Presence<Option<Vec<Alert>>> as FieldCodec>::field_round_trip(v.alerts, "alerts"@);
    }
    assert(get_field::<Presence<Option<Participant>>>(o, "organizer"@) == Ok::<
        Presence<Option<ParticipantView>>,
        ParseErrorView,
    >(v.organizer)) by {
        PartialCalendarEvent::lemma_slots(v, "organizer"@);
        <Presence<Option<Participant>> as FieldCodec>::field_round_trip(v.organizer, "organizer"@);
    }
    assert(get_field::<Presence<Option<Vec<Participant>>>>(o, "attendees"@) == Ok::<
        Presence<Option<Seq<ParticipantView>>>,
        ParseErrorView,
    >(v.attendees)) by {
        PartialCalendarEvent::lemma_slots(v, "attendees"@);
        <Presence<Option<Vec<Participant>>> as FieldCodec>::field_round_trip(
            v.attendees,
            "attendees"@,
        );
    }
    assert(get_field::<Presence<Option<Vec<File>>>>(o, "attachments"@) == Ok::<
        Presence<Option<Seq<FileView>>>,
        ParseErrorView,
    >(v.attachments)) by {
        PartialCalendarEvent::lemma_slots(v, "attachments"@);
        <Presence<Option<Vec<File>>> as FieldCodec>::field_round_trip(
            v.attachments,
            "attachments"@,
        );
    }
}

impl Clone for PartialCalendarEvent {
    fn clone(&self) -> (r: Self)
        ensures
            r.deep_view() == self.deep_view(),
    {
        copy_partial_event(self)
    }
}

impl Duplicate for PartialCalendarEvent {
    fn duplicate(&self) -> (r: Self) {
        copy_partial_event(self)
    }
}

impl ToJson for PartialCalendarEvent {
    open spec fn encoded(v: PartialCalendarEventView) -> JsonValue {
        partial_event_encoded(v)
    }

    fn to_json(&self) -> (json: Json) {
        write_partial_event(self)
    }
}

impl FromJson for PartialCalendarEvent {
    open spec fn decoded(json: JsonValue) -> Result<PartialCalendarEventView, ParseErrorView> {
        partial_event_decoded(json)
    }

    fn from_json(json: &Json) -> (r: Result<Self, ParseError>) {
        read_partial_event(json)
    }
}

impl JsonCodec for PartialCalendarEvent {
    open spec fn valid(v: PartialCalendarEventView) -> bool {
        partial_event_valid(v)
    }

    proof fn round_trip(v: PartialCalendarEventView) {
        lemma_partial_event_round_trip(v);
    }
}

impl Default for PartialCalendarEvent {
    fn default() -> (r: Self)
        ensures
            r.deep_view() == Self::blank(),
    {
        let id: Presence<String> = Presence::Absent;
        let calendar_id: Presence<String> = Presence::Absent;
        let summary: Presence<String> = Presence::Absent;
        let description: Presence<String> = Presence::Absent;
        let location: Presence<String> = Presence::Absent;
        let show_as_free: Presence<bool> = Presence::Absent;
        let is_all_day: Presence<bool> = Presence::Absent;
        let start: Presence<Date> = Presence::Absent;
        let end: Presence<Date> = Presence::Absent;
        let start_time_zone: Presence<Option<String>> = Presence::Absent;
        let end_time_zone: Presence<Option<String>> = Presence::Absent;
        let recurrence: Presence<Option<Recurrence>> = Presence::Absent;
        let inclusions: Presence<Option<Vec<LocalDate>>> = Presence::Absent;
        let exceptions: Presence<Option<ExceptionMap>> = Presence::Absent;
        assert(match exceptions {
            Presence::Present(Some(m)) => Presence::Present(Some(exceptions_view(m))),
            Presence::Present(None) => Presence::Present(None),
            Presence::Absent => Presence::Absent,
        } =~= Presence::Absent);
        let alerts: Presence<Option<Vec<Alert>>> = Presence::Absent;
        let organizer: Presence<Option<Participant>> = Presence::Absent;
        let attendees: Presence<Option<Vec<Participant>>> = Presence::Absent;
        let attachments: Presence<Option<Vec<File>>> = Presence::Absent;
        PartialCalendarEvent {
            id,
            calendar_id,
            summary,
            description,
            location,
            show_as_free,
            is_all_day,
            start,
            end,
            start_time_zone,
            end_time_zone,
            recurrence,
            inclusions,
            exceptions,
            alerts,
            organizer,
            attendees,
            attachments,
        }
    }
}

/// The exceptions to the recurrence of an event: for each date that
/// departs from the rule the event that takes place instead, or nothing
/// where the occurrence is dropped.
#[derive(Debug, PartialEq)]
pub struct ExceptionMap(pub DateMap<Option<PartialCalendarEvent>>);

/// What an [`ExceptionMap`] stands for: its entries in date order.
pub open spec fn exceptions_view(
    m: ExceptionMap,
) -> Seq<(LocalDate, Option<PartialCalendarEventView>)>
    decreases m, 0nat,
{
    Seq::new(
        m.0@.len(),
        |i: int|
            if 0 <= i < m.0@.len() {
                (
                    m.0@[i].0,
                    match m.0@[i].1 {
                        Some(p) => Some(partial_event_view(p)),
                        None => None,
                    },
                )
            } else {
                (LocalDate::blank(), None)
            },
    )
}

impl DeepView for ExceptionMap {
    type V = Seq<(LocalDate, Option<PartialCalendarEventView>)>;

    open spec fn deep_view(&self) -> Seq<(LocalDate, Option<PartialCalendarEventView>)> {
        exceptions_view(*self)
    }
}

/// The entries with each event replaced by what it stands for.
pub open spec fn dated_views(es: Seq<(LocalDate, Option<PartialCalendarEvent>)>) -> Seq<
    (LocalDate, Option<PartialCalendarEventView>),
> {
    Seq::new(es.len(), |i: int| (es[i].0, es[i].1.deep_view()))
}

proof fn lemma_dated_views_put(
    es: Seq<(LocalDate, Option<PartialCalendarEvent>)>,
    date: LocalDate,
    value: Option<PartialCalendarEvent>,
)
    ensures
        dated_views(put_dated(es, date, value)) == put_dated(
            dated_views(es),
            date,
            value.deep_view(),
        ),
    decreases es.len(),
{
    let ds = dated_views(es);
    if es.len() == 0 {
        assert(dated_views(put_dated(es, date, value)) =~= put_dated(ds, date, value.deep_view()));
    } else if es[0].0 == date {
        assert(dated_views(put_dated(es, date, value)) =~= put_dated(ds, date, value.deep_view()));
    } else if date.before(es[0].0) {
        assert(dated_views(put_dated(es, date, value)) =~= put_dated(ds, date, value.deep_view()));
    } else {
        lemma_dated_views_put(es.drop_first(), date, value);
        assert(ds.drop_first() =~= dated_views(es.drop_first()));
        assert(dated_views(put_dated(es, date, value)) =~= seq![ds[0]] + dated_views(
            put_dated(es.drop_first(), date, value),
        ));
    }
}

/// The first `n` entries written one after the other, each under the text
/// of its date: an event as an object, a dropped occurrence as `null`.
pub open spec fn exception_entries_encoded(
    v: Seq<(LocalDate, Option<PartialCalendarEventView>)>,
    n: nat,
) -> Seq<(Seq<char>, JsonValue)>
    decreases v, n,
{
    if n == 0 || n > v.len() {
        Seq::empty()
    } else {
        put(
            exception_entries_encoded(v, (n - 1) as nat),
            v[n - 1].0.text(),
            match v[n - 1].1 {
                Some(p) => partial_event_encoded(p),
                None => JsonValue::Null,
            },
        )
    }
}

/// The written form of an [`ExceptionMap`]: an object with one key for each
/// day. Of two entries on one day the later stays.
pub open spec fn exceptions_encoded(
    v: Seq<(LocalDate, Option<PartialCalendarEventView>)>,
) -> JsonValue
    decreases v, v.len() + 1,
{
    JsonValue::Object(exception_entries_encoded(v, v.len()))
}

/// The first `n` entries read one after the other, the key as a date and
/// the value as an event or, from `null`, as none: all of them put under
/// their dates, or the error of the first that fails.
pub open spec fn exception_entries_decoded(o: Seq<(Seq<char>, JsonValue)>, n: nat) -> Result<
    Seq<(LocalDate, Option<PartialCalendarEventView>)>,
    ParseErrorView,
>
    decreases o, n,
{
    if n == 0 || n > o.len() {
        Ok(Seq::empty())
    } else {
        match exception_entries_decoded(o, (n - 1) as nat) {
            Err(e) => Err(e),
            Ok(m) => match LocalDate::decoded(JsonValue::String(o[n - 1].0)) {
                Err(e) => Err(e),
                Ok(date) => if o[n - 1].1 is Null {
                    Ok(put_dated(m, date, None))
                } else {
                    match partial_event_decoded(o[n - 1].1) {
                        Err(e) => Err(e),
                        Ok(p) => Ok(put_dated(m, date, Some(p))),
                    }
                },
            },
        }
    }
}

/// What a JSON value is read as: the entries of an object in key order.
pub open spec fn exceptions_decoded(json: JsonValue) -> Result<
    Seq<(LocalDate, Option<PartialCalendarEventView>)>,
    ParseErrorView,
>
    decreases json, 0nat,
{
    match json {
        JsonValue::Object(o) => exception_entries_decoded(o, o.len()),
        _ => Err(ParseErrorView::InvalidJsonType("ExceptionMap"@)),
    }
}

/// What is written for the exceptions of a partial event: nothing where
/// the field is left out, `null` where the event has none.
pub open spec fn exceptions_slot(
    x: Presence<Option<Seq<(LocalDate, Option<PartialCalendarEventView>)>>>,
) -> Option<JsonValue>
    decreases x, 0nat,
{
    match x {
        Presence::Present(Some(m)) => Some(exceptions_encoded(m)),
        Presence::Present(None) => Some(JsonValue::Null),
        Presence::Absent => None,
    }
}

/// What the exceptions of a partial event are read as from the field
/// `name` of the object `o`.
pub open spec fn exceptions_field_decoded(
    o: Seq<(Seq<char>, JsonValue)>,
    name: Seq<char>,
) -> Result<
    Presence<Option<Seq<(LocalDate, Option<PartialCalendarEventView>)>>>,
    ParseErrorView,
>
    decreases o, 0nat,
{
    match lookup(o, name) {
        Some(JsonValue::Null) => Ok(Presence::Present(None)),
        Some(j) => {
            proof {
                lemma_found_is_part(o, name);
            }
            match exceptions_decoded(j) {
                Ok(m) => Ok(Presence::Present(Some(m))),
                Err(e) => Err(e),
            }
        },
        None => Ok(Presence::Absent),
    }
}

/// The first `n` events of the entries are valid.
pub open spec fn exception_events_valid(
    v: Seq<(LocalDate, Option<PartialCalendarEventView>)>,
    n: nat,
) -> bool
    decreases v, n,
{
    n == 0 || n > v.len() || (exception_events_valid(v, (n - 1) as nat) && match v[n - 1].1 {
        Some(p) => partial_event_valid(p),
        None => true,
    })
}

/// Every date of the entries reads back from the text that is written for
/// it.
pub open spec fn exception_dates_valid(
    v: Seq<(LocalDate, Option<PartialCalendarEventView>)>,
) -> bool {
    forall|i: int| 0 <= i < v.len() ==> LocalDate::valid((#[trigger] v[i]).0)
}

/// The exception maps that read back from their written form: their dates
/// ascend and read back from their texts, and their events are valid.
pub open spec fn exceptions_valid(v: Seq<(LocalDate, Option<PartialCalendarEventView>)>) -> bool
    decreases v, v.len() + 1,
{
    dates_ascend(v) && exception_dates_valid(v) && exception_events_valid(v, v.len())
}

/// What is written for the event of an entry.
pub open spec fn event_json(e: Option<PartialCalendarEventView>) -> JsonValue {
    match e {
        Some(p) => partial_event_encoded(p),
        None => JsonValue::Null,
    }
}

/// The event of an entry reads back from what is written for it.
pub open spec fn event_reads_back(e: Option<PartialCalendarEventView>) -> bool {
    match e {
        Some(p) => partial_event_decoded(partial_event_encoded(p)) == Ok::<
            PartialCalendarEventView,
            ParseErrorView,
        >(p),
        None => true,
    }
}

/// Every event of the entries reads back.
pub open spec fn events_read_back(v: Seq<(LocalDate, Option<PartialCalendarEventView>)>) -> bool {
    forall|i: int| 0 <= i < v.len() ==> event_reads_back((#[trigger] v[i]).1)
}

/// One of the first `n` entries has the key `key`.
pub open spec fn key_among(o: Seq<(Seq<char>, JsonValue)>, n: int, key: Seq<char>) -> bool {
    exists|j: int| 0 <= j < n && j < o.len() && (#[trigger] o[j]).0 == key
}

/// One of the entries has the date `date`.
pub open spec fn date_among<X>(es: Seq<(LocalDate, X)>, date: LocalDate) -> bool {
    exists|i: int| 0 <= i < es.len() && (#[trigger] es[i]).0 == date
}

proof fn lemma_dated_rest_ascends<X>(es: Seq<(LocalDate, X)>)
    requires
        dates_ascend(es),
        es.len() > 0,
    ensures
        dates_ascend(es.drop_first()),
{
    let rest = es.drop_first();
    assert forall|i: int, j: int| 0 <= i < j < rest.len() implies (#[trigger] rest[i]).0.before(
        (#[trigger] rest[j]).0,
    ) by {
        assert(es[i + 1].0.before(es[j + 1].0));
    }
}

/// In ascending entries every entry is found under its own date.
proof fn lemma_lookup_dated_own<X>(es: Seq<(LocalDate, X)>, j: int)
    requires
        dates_ascend(es),
        0 <= j < es.len(),
    ensures
        lookup_dated(es, es[j].0) == Some(es[j].1),
    decreases es.len(),
{
    if j > 0 {
        assert(es[0].0.before(es[j].0));
        lemma_dated_rest_ascends(es);
        lemma_lookup_dated_own(es.drop_first(), j - 1);
    }
}

/// A date under which something is found is the date of an entry.
proof fn lemma_dated_found<X>(es: Seq<(LocalDate, X)>, date: LocalDate)
    ensures
        lookup_dated(es, date) is Some ==> date_among(es, date),
    decreases es.len(),
{
    if es.len() > 0 {
        if es[0].0 == date {
            assert(es[0].0 == date);
        } else {
            lemma_dated_found(es.drop_first(), date);
            if lookup_dated(es.drop_first(), date) is Some {
                let i = choose|i: int|
                    0 <= i < es.drop_first().len() && (#[trigger] es.drop_first()[i]).0 == date;
                assert(es[i + 1].0 == date);
            }
        }
    }
}

/// Ascending entries under which the same is found for every date are the
/// same entries.
proof fn lemma_dated_entries_equal<X>(a: Seq<(LocalDate, X)>, b: Seq<(LocalDate, X)>)
    requires
        dates_ascend(a),
        dates_ascend(b),
        forall|d: LocalDate| lookup_dated(a, d) == lookup_dated(b, d),
    ensures
        a == b,
    decreases a.len(),
{
    if a.len() == 0 {
        if b.len() > 0 {
            assert(lookup_dated(b, b[0].0) is Some);
            assert(lookup_dated(a, b[0].0) is None);
        }
        assert(a =~= b);
    } else {
        let d0 = a[0].0;
        assert(lookup_dated(a, d0) == Some(a[0].1));
        assert(lookup_dated(b, d0) is Some);
        assert(b.len() > 0);
        if b[0].0 != d0 {
            lemma_dated_found(b, d0);
            let i = choose|i: int| 0 <= i < b.len() && (#[trigger] b[i]).0 == d0;
            assert(b[0].0.before(b[i].0));
            assert(lookup_dated(b, b[0].0) is Some);
            lemma_dated_found(a, b[0].0);
            let k = choose|k: int| 0 <= k < a.len() && (#[trigger] a[k]).0 == b[0].0;
            if k > 0 {
                assert(a[0].0.before(a[k].0));
            }
            lemma_dates_total(d0, b[0].0);
        }
        lemma_dated_rest_ascends(a);
        lemma_dated_rest_ascends(b);
        let ra = a.drop_first();
        let rb = b.drop_first();
        assert forall|d: LocalDate| lookup_dated(ra, d) == lookup_dated(rb, d) by {
            if d == d0 {
                lemma_dated_found(ra, d);
                if lookup_dated(ra, d) is Some {
                    let i = choose|i: int| 0 <= i < ra.len() && (#[trigger] ra[i]).0 == d;
                    assert(a[0].0.before(a[i + 1].0));
                }
                lemma_dated_found(rb, d);
                if lookup_dated(rb, d) is Some {
                    let i = choose|i: int| 0 <= i < rb.len() && (#[trigger] rb[i]).0 == d;
                    assert(b[0].0.before(b[i + 1].0));
                }
            } else {
                assert(lookup_dated(a, d) == lookup_dated(b, d));
            }
        }
        lemma_dated_entries_equal(ra, rb);
        assert(a =~= seq![a[0]] + ra);
        assert(b =~= seq![b[0]] + rb);
    }
}

/// Entries with different places have different dates, and different texts
/// are written for them.
proof fn lemma_exception_dates_differ(
    v: Seq<(LocalDate, Option<PartialCalendarEventView>)>,
    i: int,
    j: int,
)
    requires
        dates_ascend(v),
        exception_dates_valid(v),
        0 <= i < v.len(),
        0 <= j < v.len(),
        i != j,
    ensures
        v[i].0 != v[j].0,
        v[i].0.text() != v[j].0.text(),
{
    if i < j {
        assert(v[i].0.before(v[j].0));
    } else {
        assert(v[j].0.before(v[i].0));
    }
    assert(LocalDate::valid(v[i].0));
    assert(LocalDate::valid(v[j].0));
}

proof fn lemma_encoded_ascends(v: Seq<(LocalDate, Option<PartialCalendarEventView>)>, n: nat)
    requires
        n <= v.len(),
    ensures
        keys_ascend(exception_entries_encoded(v, n)),
    decreases n,
{
    if n > 0 {
        lemma_encoded_ascends(v, (n - 1) as nat);
        lemma_put_ascends(
            exception_entries_encoded(v, (n - 1) as nat),
            v[n - 1].0.text(),
            event_json(v[n - 1].1),
        );
    }
}

proof fn lemma_encoded_missing(
    v: Seq<(LocalDate, Option<PartialCalendarEventView>)>,
    n: nat,
    key: Seq<char>,
)
    requires
        n <= v.len(),
        forall|i: int| 0 <= i < n ==> (#[trigger] v[i]).0.text() != key,
    ensures
        lookup(exception_entries_encoded(v, n), key) is None,
    decreases n,
{
    if n > 0 {
        lemma_encoded_missing(v, (n - 1) as nat, key);
        assert(v[n - 1].0.text() != key);
        lemma_lookup_put(
            exception_entries_encoded(v, (n - 1) as nat),
            v[n - 1].0.text(),
            event_json(v[n - 1].1),
            key,
        );
    }
}

proof fn lemma_encoded_found(v: Seq<(LocalDate, Option<PartialCalendarEventView>)>, n: nat, i: int)
    requires
        n <= v.len(),
        dates_ascend(v),
        exception_dates_valid(v),
        0 <= i < n,
    ensures
        lookup(exception_entries_encoded(v, n), v[i].0.text()) == Some(event_json(v[i].1)),
    decreases n,
{
    lemma_lookup_put(
        exception_entries_encoded(v, (n - 1) as nat),
        v[n - 1].0.text(),
        event_json(v[n - 1].1),
        v[i].0.text(),
    );
    if i < n - 1 {
        lemma_exception_dates_differ(v, i, n - 1);
        lemma_encoded_found(v, (n - 1) as nat, i);
    }
}

/// Every entry of the written form is what is written for one of the
/// entries.
proof fn lemma_encoded_entry(v: Seq<(LocalDate, Option<PartialCalendarEventView>)>, j: int)
    requires
        dates_ascend(v),
        exception_dates_valid(v),
        0 <= j < exception_entries_encoded(v, v.len()).len(),
    ensures
        exists|i: int|
            0 <= i < v.len() && exception_entries_encoded(v, v.len())[j] == (
                (#[trigger] v[i]).0.text(),
                event_json(v[i].1),
            ),
{
    let o = exception_entries_encoded(v, v.len());
    lemma_encoded_ascends(v, v.len());
    lemma_lookup_own_entry(o, j);
    if forall|i: int| 0 <= i < v.len() ==> (#[trigger] v[i]).0.text() != o[j].0 {
        lemma_encoded_missing(v, v.len(), o[j].0);
    } else {
        let i = choose|i: int| 0 <= i < v.len() && (#[trigger] v[i]).0.text() == o[j].0;
        lemma_encoded_found(v, v.len(), i);
        assert(o[j] == (v[i].0.text(), event_json(v[i].1)));
    }
}

/// The first `n` entries of the written form read as ascending entries
/// that hold, under the date of each entry that was read, its event, and
/// nothing under any other date.
proof fn lemma_decoded_entries(v: Seq<(LocalDate, Option<PartialCalendarEventView>)>, n: nat)
    requires
        dates_ascend(v),
        exception_dates_valid(v),
        events_read_back(v),
        n <= exception_entries_encoded(v, v.len()).len(),
    ensures
        ({
            let o = exception_entries_encoded(v, v.len());
            let r = exception_entries_decoded(o, n);
            &&& r is Ok
            &&& dates_ascend(r->Ok_0)
            &&& forall|i: int|
                0 <= i < v.len() && key_among(o, n as int, (#[trigger] v[i]).0.text())
                    ==> lookup_dated(r->Ok_0, v[i].0) == Some(v[i].1)
            &&& forall|d: LocalDate|
                (#[trigger] lookup_dated(r->Ok_0, d)) is Some ==> date_among(v, d)
        }),
    decreases n,
{
    broadcast use LocalDate::lemma_parts;

    let o = exception_entries_encoded(v, v.len());
    if n > 0 {
        lemma_decoded_entries(v, (n - 1) as nat);
        let before = exception_entries_decoded(o, (n - 1) as nat)->Ok_0;
        lemma_encoded_entry(v, n - 1);
        let i = choose|i: int|
            0 <= i < v.len() && o[n - 1] == ((#[trigger] v[i]).0.text(), event_json(v[i].1));
        assert(LocalDate::valid(v[i].0));
        assert(<LocalDate as FromJson>::decoded(JsonValue::String(o[n - 1].0)) == Ok::<
            LocalDate,
            ParseErrorView,
        >(v[i].0));
        assert(event_reads_back(v[i].1));
        let after = put_dated(before, v[i].0, v[i].1);
        assert(exception_entries_decoded(o, n) == Ok::<
            Seq<(LocalDate, Option<PartialCalendarEventView>)>,
            ParseErrorView,
        >(after));
        lemma_put_dated_ascends(before, v[i].0, v[i].1);
        assert forall|k: int|
            0 <= k < v.len() && key_among(o, n as int, (#[trigger] v[k]).0.text())
                implies lookup_dated(after, v[k].0) == Some(v[k].1) by {
            lemma_lookup_put_dated(before, v[i].0, v[i].1, v[k].0);
            if k != i {
                lemma_exception_dates_differ(v, k, i);
                let j = choose|j: int|
                    0 <= j < n && j < o.len() && (#[trigger] o[j]).0 == v[k].0.text();
                assert(j < n - 1);
                assert(key_among(o, n - 1, v[k].0.text()));
            }
        }
        assert forall|d: LocalDate| (#[trigger] lookup_dated(after, d)) is Some implies date_among(
            v,
            d,
        ) by {
            lemma_lookup_put_dated(before, v[i].0, v[i].1, d);
            if d == v[i].0 {
                assert(v[i].0 == d);
            } else {
                assert(lookup_dated(before, d) is Some);
            }
        }
    }
}

proof fn lemma_exception_event_valid(
    v: Seq<(LocalDate, Option<PartialCalendarEventView>)>,
    n: nat,
    i: int,
)
    requires
        n <= v.len(),
        exception_events_valid(v, n),
        0 <= i < n,
    ensures
        v[i].1 matches Some(p) ==> partial_event_valid(p),
    decreases n,
{
    if i < n - 1 {
        lemma_exception_event_valid(v, (n - 1) as nat, i);
    }
}

/// Entries whose dates ascend and read back, and whose events read back,
/// read back from their written form.
proof fn lemma_exception_entries_round_trip(v: Seq<(LocalDate, Option<PartialCalendarEventView>)>)
    requires
        dates_ascend(v),
        exception_dates_valid(v),
        events_read_back(v),
    ensures
        exceptions_decoded(exceptions_encoded(v)) == Ok::<
            Seq<(LocalDate, Option<PartialCalendarEventView>)>,
            ParseErrorView,
        >(v),
{
    let o = exception_entries_encoded(v, v.len());
    lemma_decoded_entries(v, o.len());
    let m = exception_entries_decoded(o, o.len())->Ok_0;
    assert forall|d: LocalDate| lookup_dated(m, d) == lookup_dated(v, d) by {
        lemma_dated_found(v, d);
        if date_among(v, d) {
            let i = choose|i: int| 0 <= i < v.len() && (#[trigger] v[i]).0 == d;
            lemma_lookup_dated_own(v, i);
            lemma_encoded_found(v, v.len(), i);
            lemma_found_is_entry(o, v[i].0.text());
            let j = choose|j: int|
                0 <= j < o.len() && o[j].0 == v[i].0.text() && #[trigger] o[j].1 == event_json(
                    v[i].1,
                );
            assert(o[j].0 == v[i].0.text());
            assert(key_among(o, o.len() as int, v[i].0.text()));
        } else {
            if lookup_dated(m, d) is Some {
                assert(date_among(v, d));
            }
        }
    }
    lemma_dated_entries_equal(m, v);
}

/// Reading the written form of a valid exception map gives it back.
pub proof fn lemma_exceptions_round_trip(v: Seq<(LocalDate, Option<PartialCalendarEventView>)>)
    requires
        exceptions_valid(v),
    ensures
        exceptions_decoded(exceptions_encoded(v)) == Ok::<
            Seq<(LocalDate, Option<PartialCalendarEventView>)>,
            ParseErrorView,
        >(v),
    decreases v, v.len() + 1,
{
    assert forall|i: int| 0 <= i < v.len() implies event_reads_back((#[trigger] v[i]).1) by {
        lemma_exception_event_valid(v, v.len(), i);
        if let Some(p) = v[i].1 {
            assert(decreases_to!(v => v[i]));
            lemma_partial_event_round_trip(p);
        }
    }
    lemma_exception_entries_round_trip(v);
}

/// Reads an [`ExceptionMap`].
pub fn read_exceptions(json: &Json) -> (r: Result<ExceptionMap, ParseError>)
    ensures
        result_view(r) == exceptions_decoded(json@),
    decreases json, 0nat,
{
    match json {
        Json::Object(o) => {
            proof {
                lemma_object_value(*o);
            }
            let ghost entries = o.deep_view();
            let mut out: DateMap<Option<PartialCalendarEvent>> = DateMap::new();
            let n = o.len();
            assert(dated_views(out@) =~= Seq::empty());
            for i in 0..n
                invariant
                    n == o@.len(),
                    entries == o.deep_view(),
                    json@ == JsonValue::Object(entries),
                    decreases_to!(json => o),
                    exception_entries_decoded(entries, i as nat) == Ok::<
                        Seq<(LocalDate, Option<PartialCalendarEventView>)>,
                        ParseErrorView,
                    >(dated_views(out@)),
            {
                assert(entries[i as int] == (o@[i as int].0, o@[i as int].1@));
                let date = match LocalDate::from_text(o.key_at(i).as_str()) {
                    Some(date) => date,
                    None => {
                        proof {
                            lemma_exception_entries_error_stays(entries, (i + 1) as nat);
                        }
                        return Err(ParseError::InvalidStructure("LocalDate".to_string()));
                    },
                };
                let found = o.value_at(i);
                let event = match found {
                    Json::Null => None,
                    _ => match read_partial_event(found) {
                        Ok(p) => Some(p),
                        Err(e) => {
                            proof {
                                lemma_exception_entries_error_stays(entries, (i + 1) as nat);
                            }
                            return Err(e);
                        },
                    },
                };
                proof {
                    lemma_dated_views_put(out@, date, event);
                }
                out.insert(date, event);
            }
            let r = ExceptionMap(out);
            assert(exceptions_view(r) =~= dated_views(out@));
            Ok(r)
        },
        _ => Err(ParseError::InvalidJsonType("ExceptionMap".to_string())),
    }
}

proof fn lemma_exception_entries_error_stays(o: Seq<(Seq<char>, JsonValue)>, n: nat)
    requires
        n <= o.len(),
        exception_entries_decoded(o, n) is Err,
    ensures
        exception_entries_decoded(o, o.len()) == exception_entries_decoded(o, n),
    decreases o.len() - n,
{
    if n < o.len() {
        lemma_exception_entries_error_stays(o, n + 1);
    }
}

/// Writes an [`ExceptionMap`].
pub fn write_exceptions(m: &ExceptionMap) -> (json: Json)
    ensures
        json@ == exceptions_encoded(m.deep_view()),
    decreases m, 0nat,
{
    let mut d: TextMap<Json> = TextMap::new();
    let ghost v = m.deep_view();
    let n = m.0.len();
    assert(d.deep_view() =~= Seq::empty());
    for i in 0..n
        invariant
            n == m.0@.len(),
            v == m.deep_view(),
            d.deep_view() == exception_entries_encoded(v, i as nat),
    {
        let key = m.0.date_at(i).to_string();
        let value = match m.0.value_at(i) {
            Some(p) => write_partial_event(p),
            None => Json::Null,
        };
        proof {
            lemma_deepened_put(d@, key@, value);
        }
        d.insert(key, value);
    }
    proof {
        lemma_object_value(d);
    }
    Json::Object(d)
}

/// Copies an [`ExceptionMap`].
pub fn copy_exceptions(m: &ExceptionMap) -> (r: ExceptionMap)
    ensures
        r.deep_view() == m.deep_view(),
    decreases m, 0nat,
{
    let mut out: DateMap<Option<PartialCalendarEvent>> = DateMap::new();
    proof {
        use_type_invariant(&m.0);
    }
    let n = m.0.len();
    for i in 0..n
        invariant
            n == m.0@.len(),
            dates_ascend(m.0@),
            out@.len() == i,
            forall|k: int|
                0 <= k < i ==> (#[trigger] out@[k]).0 == m.0@[k].0 && out@[k].1.deep_view()
                    == m.0@[k].1.deep_view(),
    {
        let date = m.0.date_at(i);
        let event = match m.0.value_at(i) {
            Some(p) => Some(copy_partial_event(p)),
            None => None,
        };
        proof {
            assert forall|k: int| 0 <= k < out@.len() implies (#[trigger] out@[k]).0.before(
                date,
            ) by {
                assert(m.0@[k].0.before(m.0@[i as int].0));
            }
            lemma_put_dated_last(out@, date, event);
        }
        out.insert(date, event);
    }
    let r = ExceptionMap(out);
    assert(exceptions_view(r) =~= exceptions_view(*m));
    r
}

/// Reads the exceptions of a partial event from the field `name`.
pub fn read_exceptions_field(o: &TextMap<Json>, name: &str) -> (r: Result<
    Presence<Option<ExceptionMap>>,
    ParseError,
>)
    ensures
        result_view(r) == exceptions_field_decoded(o.deep_view(), name@),
    decreases o, 0nat,
{
    proof {
        lemma_deepened_lookup(o@, name@);
    }
    match o.get(name) {
        Some(found) => match found {
            Json::Null => Ok(Presence::Present(None)),
            _ => match read_exceptions(found) {
                Ok(m) => Ok(Presence::Present(Some(m))),
                Err(e) => Err(e),
            },
        },
        None => Ok(Presence::Absent),
    }
}

/// Writes the exceptions of a partial event to the field `name`.
pub fn write_exceptions_field(x: &Presence<Option<ExceptionMap>>, d: &mut TextMap<Json>, name: &str)
    ensures
        final(d).deep_view() == put_slot(
            old(d).deep_view(),
            name@,
            exceptions_slot(x.deep_view()),
        ),
    decreases x, 0nat,
{
    reveal(put_slot);
    if let Presence::Present(given) = x {
        let value = match given {
            Some(m) => write_exceptions(m),
            None => Json::Null,
        };
        proof {
            lemma_deepened_put(d@, name@, value);
        }
        d.insert(name.to_string(), value);
    }
}

/// Copies the exceptions of a partial event.
pub fn copy_exceptions_field(x: &Presence<Option<ExceptionMap>>) -> (r: Presence<
    Option<ExceptionMap>,
>)
    ensures
        r.deep_view() == x.deep_view(),
    decreases x, 0nat,
{
    match x {
        Presence::Present(Some(m)) => Presence::Present(Some(copy_exceptions(m))),
        Presence::Present(None) => Presence::Present(None),
        Presence::Absent => Presence::Absent,
    }
}

impl Clone for ExceptionMap {
    fn clone(&self) -> (r: Self)
        ensures
            r.deep_view() == self.deep_view(),
    {
        copy_exceptions(self)
    }
}

impl Duplicate for ExceptionMap {
    fn duplicate(&self) -> (r: Self) {
        copy_exceptions(self)
    }
}

impl ToJson for ExceptionMap {
    open spec fn encoded(v: Seq<(LocalDate, Option<PartialCalendarEventView>)>) -> JsonValue {
        exceptions_encoded(v)
    }

    fn to_json(&self) -> (json: Json) {
        write_exceptions(self)
    }
}

impl FromJson for ExceptionMap {
    open spec fn decoded(json: JsonValue) -> Result<
        Seq<(LocalDate, Option<PartialCalendarEventView>)>,
        ParseErrorView,
    > {
        exceptions_decoded(json)
    }

    fn from_json(json: &Json) -> (r: Result<Self, ParseError>) {
        read_exceptions(json)
    }
}

impl JsonCodec for ExceptionMap {
    open spec fn valid(v: Seq<(LocalDate, Option<PartialCalendarEventView>)>) -> bool {
        exceptions_valid(v)
    }

    proof fn round_trip(v: Seq<(LocalDate, Option<PartialCalendarEventView>)>) {
        lemma_exceptions_round_trip(v);
    }
}

/// An event in a calendar.
#[derive(Clone, Debug, PartialEq)]
pub struct CalendarEvent {
    id: String,
    calendar_id: String,
    summary: String,
    description: String,
    location: String,
    show_as_free: bool,
    is_all_day: bool,
    start: Date,
    end: Date,
    start_time_zone: Option<String>,
    end_time_zone: Option<String>,
    recurrence: Option<Recurrence>,
    inclusions: Option<Vec<LocalDate>>,
    exceptions: Option<ExceptionMap>,
    alerts: Option<Vec<Alert>>,
    organizer: Option<Participant>,
    attendees: Option<Vec<Participant>>,
    attachments: Option<Vec<File>>,
}

/// A value of [`CalendarEvent`] in contracts.
pub ghost struct CalendarEventView {
    pub id: Seq<char>,
    pub calendar_id: Seq<char>,
    pub summary: Seq<char>,
    pub description: Seq<char>,
    pub location: Seq<char>,
    pub show_as_free: bool,
    pub is_all_day: bool,
    pub start: Date,
    pub end: Date,
    pub start_time_zone: Option<Seq<char>>,
    pub end_time_zone: Option<Seq<char>>,
    pub recurrence: Option<RecurrenceView>,
    pub inclusions: Option<Seq<LocalDate>>,
    pub exceptions: Option<Seq<(LocalDate, Option<PartialCalendarEventView>)>>,
    pub alerts: Option<Seq<AlertView>>,
    pub organizer: Option<ParticipantView>,
    pub attendees: Option<Seq<ParticipantView>>,
    pub attachments: Option<Seq<FileView>>,
}

impl DeepView for CalendarEvent {
    type V = CalendarEventView;

    closed spec fn deep_view(&self) -> CalendarEventView {
        CalendarEventView {
            id: self.id.deep_view(),
            calendar_id: self.calendar_id.deep_view(),
            summary: self.summary.deep_view(),
            description: self.description.deep_view(),
            location: self.location.deep_view(),
            show_as_free: self.show_as_free.deep_view(),
            is_all_day: self.is_all_day.deep_view(),
            start: self.start.deep_view(),
            end: self.end.deep_view(),
            start_time_zone: self.start_time_zone.deep_view(),
            end_time_zone: self.end_time_zone.deep_view(),
            recurrence: self.recurrence.deep_view(),
            inclusions: self.inclusions.deep_view(),
            exceptions: self.exceptions.deep_view(),
            alerts: self.alerts.deep_view(),
            organizer: self.organizer.deep_view(),
            attendees: self.attendees.deep_view(),
            attachments: self.attachments.deep_view(),
        }
    }
}

impl CalendarEvent {
    /// The record with the id `id` and every other field at the default of
    /// its type.
    pub open spec fn blank(id: Seq<char>) -> CalendarEventView {
        CalendarEventView {
            id,
            calendar_id: Seq::<char>::empty(),
            summary: Seq::<char>::empty(),
            description: Seq::<char>::empty(),
            location: Seq::<char>::empty(),
            show_as_free: false,
            is_all_day: false,
            start: Date::blank(),
            end: Date::blank(),
            start_time_zone: None,
            end_time_zone: None,
            recurrence: None,
            inclusions: None,
            exceptions: None,
            alerts: None,
            organizer: None,
            attendees: None,
            attachments: None,
        }
    }

    /// What tells the wire names of the record apart: the length of each, and
    /// for
    /// names of one length a character in which they differ.
    pub proof fn lemma_wire_names()
        ensures
            "id"@.len() == 2,
            "calendarId"@.len() == 10,
            "summary"@.len() == 7,
            "description"@.len() == 11,
            "location"@.len() == 8,
            "showAsFree"@.len() == 10,
            "isAllDay"@.len() == 8,
            "start"@.len() == 5,
            "end"@.len() == 3,
            "startTimeZone"@.len() == 13,
            "endTimeZone"@.len() == 11,
            "recurrence"@.len() == 10,
            "inclusions"@.len() == 10,
            "exceptions"@.len() == 10,
            "alerts"@.len() == 6,
            "organizer"@.len() == 9,
            "attendees"@.len() == 9,
            "attachments"@.len() == 11,
            "location"@[0] == 'l',
            "isAllDay"@[0] == 'i',
            "organizer"@[0] == 'o',
            "attendees"@[0] == 'a',
            "calendarId"@[0] == 'c',
            "showAsFree"@[0] == 's',
            "recurrence"@[0] == 'r',
            "inclusions"@[0] == 'i',
            "exceptions"@[0] == 'e',
            "description"@[0] == 'd',
            "endTimeZone"@[0] == 'e',
            "attachments"@[0] == 'a',
    {
        reveal_strlit("id");
        reveal_strlit("calendarId");
        reveal_strlit("summary");
        reveal_strlit("description");
        reveal_strlit("location");
        reveal_strlit("showAsFree");
        reveal_strlit("isAllDay");
        reveal_strlit("start");
        reveal_strlit("end");
        reveal_strlit("startTimeZone");
        reveal_strlit("endTimeZone");
        reveal_strlit("recurrence");
        reveal_strlit("inclusions");
        reveal_strlit("exceptions");
        reveal_strlit("alerts");
        reveal_strlit("organizer");
        reveal_strlit("attendees");
        reveal_strlit("attachments");
    }
}

impl Default for CalendarEvent {
    /// A record with a fresh id.
    fn default() -> (r: Self)
        ensures
            is_fresh_id(r.deep_view().id),
            r.deep_view() == Self::blank(r.deep_view().id),
    {
        let r = CalendarEvent {
            id: new_id(),
            calendar_id: String::new(),
            summary: String::new(),
            description: String::new(),
            location: String::new(),
            show_as_free: false,
            is_all_day: false,
            start: Date::default(),
            end: Date::default(),
            start_time_zone: None,
            end_time_zone: None,
            recurrence: None,
            inclusions: None,
            exceptions: None,
            alerts: None,
            organizer: None,
            attendees: None,
            attachments: None,
        };
        assert(r.deep_view() =~~= Self::blank(r.deep_view().id));
        r
    }
}

impl Duplicate for CalendarEvent {
    fn duplicate(&self) -> (r: Self) {
        let id = self.id.duplicate();
        let calendar_id = self.calendar_id.duplicate();
        let summary = self.summary.duplicate();
        let description = self.description.duplicate();
        let location = self.location.duplicate();
        let show_as_free = self.show_as_free.duplicate();
        let is_all_day = self.is_all_day.duplicate();
        let start = self.start.duplicate();
        let end = self.end.duplicate();
        let start_time_zone = self.start_time_zone.duplicate();
        let end_time_zone = self.end_time_zone.duplicate();
        let recurrence = self.recurrence.duplicate();
        let inclusions = self.inclusions.duplicate();
        let exceptions = self.exceptions.duplicate();
        let alerts = self.alerts.duplicate();
        let organizer = self.organizer.duplicate();
        let attendees = self.attendees.duplicate();
        let attachments = self.attachments.duplicate();
        CalendarEvent {
            id,
            calendar_id,
            summary,
            description,
            location,
            show_as_free,
            is_all_day,
            start,
            end,
            start_time_zone,
            end_time_zone,
            recurrence,
            inclusions,
            exceptions,
            alerts,
            organizer,
            attendees,
            attachments,
        }
    }
}

impl ToJson for CalendarEvent {
    /// An object with one key for each field.
    open spec fn encoded(v: CalendarEventView) -> JsonValue {
        let o = Seq::empty();
        let o = put_field::<String>(o, "id"@, v.id);
        let o = put_field::<String>(o, "calendarId"@, v.calendar_id);
        let o = put_field::<String>(o, "summary"@, v.summary);
        let o = put_field::<String>(o, "description"@, v.description);
        let o = put_field::<String>(o, "location"@, v.location);
        let o = put_field::<bool>(o, "showAsFree"@, v.show_as_free);
        let o = put_field::<bool>(o, "isAllDay"@, v.is_all_day);
        let o = put_field::<Date>(o, "start"@, v.start);
        let o = put_field::<Date>(o, "end"@, v.end);
        let o = put_field::<Option<String>>(o, "startTimeZone"@, v.start_time_zone);
        let o = put_field::<Option<String>>(o, "endTimeZone"@, v.end_time_zone);
        let o = put_field::<Option<Recurrence>>(o, "recurrence"@, v.recurrence);
        let o = put_field::<Option<Vec<LocalDate>>>(o, "inclusions"@, v.inclusions);
        let o = put_field::<Option<ExceptionMap>>(o, "exceptions"@, v.exceptions);
        let o = put_field::<Option<Vec<Alert>>>(o, "alerts"@, v.alerts);
        let o = put_field::<Option<Participant>>(o, "organizer"@, v.organizer);
        let o = put_field::<Option<Vec<Participant>>>(o, "attendees"@, v.attendees);
        let o = put_field::<Option<Vec<File>>>(o, "attachments"@, v.attachments);
        JsonValue::Object(o)
    }

    fn to_json(&self) -> (json: Json) {
        let mut d: TextMap<Json> = TextMap::new();
        assert(d.deep_view() =~= Seq::empty());
        self.id.to_json_field(&mut d, "id");
        self.calendar_id.to_json_field(&mut d, "calendarId");
        self.summary.to_json_field(&mut d, "summary");
        self.description.to_json_field(&mut d, "description");
        self.location.to_json_field(&mut d, "location");
        self.show_as_free.to_json_field(&mut d, "showAsFree");
        self.is_all_day.to_json_field(&mut d, "isAllDay");
        self.start.to_json_field(&mut d, "start");
        self.end.to_json_field(&mut d, "end");
        self.start_time_zone.to_json_field(&mut d, "startTimeZone");
        self.end_time_zone.to_json_field(&mut d, "endTimeZone");
        self.recurrence.to_json_field(&mut d, "recurrence");
        self.inclusions.to_json_field(&mut d, "inclusions");
        self.exceptions.to_json_field(&mut d, "exceptions");
        self.alerts.to_json_field(&mut d, "alerts");
        self.organizer.to_json_field(&mut d, "organizer");
        self.attendees.to_json_field(&mut d, "attendees");
        self.attachments.to_json_field(&mut d, "attachments");
        proof {
            lemma_object_value(d);
        }
        Json::Object(d)
    }
}

impl FromJson for CalendarEvent {
    /// The fields are read in the order in which they are declared; the
    /// first that fails gives the error.
    open spec fn decoded(json: JsonValue) -> Result<CalendarEventView, ParseErrorView> {
        match json {
            JsonValue::Object(o) => {
                let id = get_field::<String>(o, "id"@);
                let calendar_id = get_field::<String>(o, "calendarId"@);
                let summary = get_field::<String>(o, "summary"@);
                let description = get_field::<String>(o, "description"@);
                let location = get_field::<String>(o, "location"@);
                let show_as_free = get_field::<bool>(o, "showAsFree"@);
                let is_all_day = get_field::<bool>(o, "isAllDay"@);
                let start = get_field::<Date>(o, "start"@);
                let end = get_field::<Date>(o, "end"@);
                let start_time_zone = get_field::<Option<String>>(o, "startTimeZone"@);
                let end_time_zone = get_field::<Option<String>>(o, "endTimeZone"@);
                let recurrence = get_field::<Option<Recurrence>>(o, "recurrence"@);
                let inclusions = get_field::<Option<Vec<LocalDate>>>(o, "inclusions"@);
                let exceptions = get_field::<Option<ExceptionMap>>(o, "exceptions"@);
                let alerts = get_field::<Option<Vec<Alert>>>(o, "alerts"@);
                let organizer = get_field::<Option<Participant>>(o, "organizer"@);
                let attendees = get_field::<Option<Vec<Participant>>>(o, "attendees"@);
                let attachments = get_field::<Option<Vec<File>>>(o, "attachments"@);
                if id is Err {
                    Err(id->Err_0)
                } else if calendar_id is Err {
                    Err(calendar_id->Err_0)
                } else if summary is Err {
                    Err(summary->Err_0)
                } else if description is Err {
                    Err(description->Err_0)
                } else if location is Err {
                    Err(location->Err_0)
                } else if show_as_free is Err {
                    Err(show_as_free->Err_0)
                } else if is_all_day is Err {
                    Err(is_all_day->Err_0)
                } else if start is Err {
                    Err(start->Err_0)
                } else if end is Err {
                    Err(end->Err_0)
                } else if start_time_zone is Err {
                    Err(start_time_zone->Err_0)
                } else if end_time_zone is Err {
                    Err(end_time_zone->Err_0)
                } else if recurrence is Err {
                    Err(recurrence->Err_0)
                } else if inclusions is Err {
                    Err(inclusions->Err_0)
                } else if exceptions is Err {
                    Err(exceptions->Err_0)
                } else if alerts is Err {
                    Err(alerts->Err_0)
                } else if organizer is Err {
                    Err(organizer->Err_0)
                } else if attendees is Err {
                    Err(attendees->Err_0)
                } else if attachments is Err {
                    Err(attachments->Err_0)
                } else {
                    Ok(
                        CalendarEventView {
                            id: id->Ok_0,
                            calendar_id: calendar_id->Ok_0,
                            summary: summary->Ok_0,
                            description: description->Ok_0,
                            location: location->Ok_0,
                            show_as_free: show_as_free->Ok_0,
                            is_all_day: is_all_day->Ok_0,
                            start: start->Ok_0,
                            end: end->Ok_0,
                            start_time_zone: start_time_zone->Ok_0,
                            end_time_zone: end_time_zone->Ok_0,
                            recurrence: recurrence->Ok_0,
                            inclusions: inclusions->Ok_0,
                            exceptions: exceptions->Ok_0,
                            alerts: alerts->Ok_0,
                            organizer: organizer->Ok_0,
                            attendees: attendees->Ok_0,
                            attachments: attachments->Ok_0,
                        },
                    )
                }
            },
            _ => Err(ParseErrorView::InvalidJsonType("CalendarEvent"@)),
        }
    }

    fn from_json(json: &Json) -> (r: Result<Self, ParseError>) {
        match json {
            Json::Object(o) => {
                proof {
                    lemma_object_value(*o);
                }
                let id = match <String as FromJsonField>::from_json_field(o, "id") {
                    Ok(v) => v,
                    Err(e) => return Err(e),
                };
                let calendar_id = match <String as FromJsonField>::from_json_field(
                    o,
                    "calendarId",
                ) {
                    Ok(v) => v,
                    Err(e) => return Err(e),
                };
                let summary = match <String as FromJsonField>::from_json_field(o, "summary") {
                    Ok(v) => v,
                    Err(e) => return Err(e),
                };
                let description = match <String as FromJsonField>::from_json_field(
                    o,
                    "description",
                ) {
                    Ok(v) => v,
                    Err(e) => return Err(e),
                };
                let location = match <String as FromJsonField>::from_json_field(o, "location") {
                    Ok(v) => v,
                    Err(e) => return Err(e),
                };
                let show_as_free = match <bool as FromJsonField>::from_json_field(o, "showAsFree") {
                    Ok(v) => v,
                    Err(e) => return Err(e),
                };
                let is_all_day = match <bool as FromJsonField>::from_json_field(o, "isAllDay") {
                    Ok(v) => v,
                    Err(e) => return Err(e),
                };
                let start = match <Date as FromJsonField>::from_json_field(o, "start") {
                    Ok(v) => v,
                    Err(e) => return Err(e),
                };
                let end = match <Date as FromJsonField>::from_json_field(o, "end") {
                    Ok(v) => v,
                    Err(e) => return Err(e),
                };
                let start_time_zone = match <Option<String> as FromJsonField>::from_json_field(
                    o,
                    "startTimeZone",
                ) {
                    Ok(v) => v,
                    Err(e) => return Err(e),
                };
                let end_time_zone = match <Option<String> as FromJsonField>::from_json_field(
                    o,
                    "endTimeZone",
                ) {
                    Ok(v) => v,
                    Err(e) => return Err(e),
                };
                let recurrence = match <Option<Recurrence> as FromJsonField>::from_json_field(
                    o,
                    "recurrence",
                ) {
                    Ok(v) => v,
                    Err(e) => return Err(e),
                };
                let inclusions = match <Option<Vec<LocalDate>> as FromJsonField>::from_json_field(
                    o,
                    "inclusions",
                ) {
                    Ok(v) => v,
                    Err(e) => return Err(e),
                };
                let exceptions = match <Option<ExceptionMap> as FromJsonField>::from_json_field(
                    o,
                    "exceptions",
                ) {
                    Ok(v) => v,
                    Err(e) => return Err(e),
                };
                let alerts = match <Option<Vec<Alert>> as FromJsonField>::from_json_field(
                    o,
                    "alerts",
                ) {
                    Ok(v) => v,
                    Err(e) => return Err(e),
                };
                let organizer = match <Option<Participant> as FromJsonField>::from_json_field(
                    o,
                    "organizer",
                ) {
                    Ok(v) => v,
                    Err(e) => return Err(e),
                };
                let attendees = match <Option<Vec<Participant>> as FromJsonField>::from_json_field(
                    o,
                    "attendees",
                ) {
                    Ok(v) => v,
                    Err(e) => return Err(e),
                };
                let attachments = match <Option<Vec<File>> as FromJsonField>::from_json_field(
                    o,
                    "attachments",
                ) {
                    Ok(v) => v,
                    Err(e) => return Err(e),
                };
                Ok(CalendarEvent {
                    id,
                    calendar_id,
                    summary,
                    description,
                    location,
                    show_as_free,
                    is_all_day,
                    start,
                    end,
                    start_time_zone,
                    end_time_zone,
                    recurrence,
                    inclusions,
                    exceptions,
                    alerts,
                    organizer,
                    attendees,
                    attachments,
                })
            },
            _ => Err(ParseError::InvalidJsonType("CalendarEvent".to_string())),
        }
    }
}

impl JsonCodec for CalendarEvent {
    open spec fn valid(v: CalendarEventView) -> bool {
        &&& <String as FieldCodec>::field_valid(v.id)
        &&& <String as FieldCodec>::field_valid(v.calendar_id)
        &&& <String as FieldCodec>::field_valid(v.summary)
        &&& <String as FieldCodec>::field_valid(v.description)
        &&& <String as FieldCodec>::field_valid(v.location)
        &&& <bool as FieldCodec>::field_valid(v.show_as_free)
        &&& <bool as FieldCodec>::field_valid(v.is_all_day)
        &&& <Date as FieldCodec>::field_valid(v.start)
        &&& <Date as FieldCodec>::field_valid(v.end)
        &&& <Option<String> as FieldCodec>::field_valid(v.start_time_zone)
        &&& <Option<String> as FieldCodec>::field_valid(v.end_time_zone)
        &&& <Option<Recurrence> as FieldCodec>::field_valid(v.recurrence)
        &&& <Option<Vec<LocalDate>> as FieldCodec>::field_valid(v.inclusions)
        &&& <Option<ExceptionMap> as FieldCodec>::field_valid(v.exceptions)
        &&& <Option<Vec<Alert>> as FieldCodec>::field_valid(v.alerts)
        &&& <Option<Participant> as FieldCodec>::field_valid(v.organizer)
        &&& <Option<Vec<Participant>> as FieldCodec>::field_valid(v.attendees)
        &&& <Option<Vec<File>> as FieldCodec>::field_valid(v.attachments)
    }

    proof fn round_trip(v: CalendarEventView) {
        let o = Self::encoded(v)->Object_0;
        Self::lemma_wire_names();
        assert(get_field::<String>(o, "id"@) == Ok::<Seq<char>, ParseErrorView>(v.id)) by {
            Self::lemma_slots(v, "id"@);
            <String as FieldCodec>::field_round_trip(v.id, "id"@);
        }
        assert(get_field::<String>(o, "calendarId"@) == Ok::<
            Seq<char>,
            ParseErrorView,
        >(v.calendar_id)) by {
            Self::lemma_slots(v, "calendarId"@);
            <String as FieldCodec>::field_round_trip(v.calendar_id, "calendarId"@);
        }
        assert(get_field::<String>(o, "summary"@) == Ok::<
            Seq<char>,
            ParseErrorView,
        >(v.summary)) by {
            Self::lemma_slots(v, "summary"@);
            <String as FieldCodec>::field_round_trip(v.summary, "summary"@);
        }
        assert(get_field::<String>(o, "description"@) == Ok::<
            Seq<char>,
            ParseErrorView,
        >(v.description)) by {
            Self::lemma_slots(v, "description"@);
            <String as FieldCodec>::field_round_trip(v.description, "description"@);
        }
        assert(get_field::<String>(o, "location"@) == Ok::<
            Seq<char>,
            ParseErrorView,
        >(v.location)) by {
            Self::lemma_slots(v, "location"@);
            <String as FieldCodec>::field_round_trip(v.location, "location"@);
        }
        assert(get_field::<bool>(o, "showAsFree"@) == Ok::<
            bool,
            ParseErrorView,
        >(v.show_as_free)) by {
            Self::lemma_slots(v, "showAsFree"@);
            <bool as FieldCodec>::field_round_trip(v.show_as_free, "showAsFree"@);
        }
        assert(get_field::<bool>(o, "isAllDay"@) == Ok::<bool, ParseErrorView>(v.is_all_day)) by {
            Self::lemma_slots(v, "isAllDay"@);
            <bool as FieldCodec>::field_round_trip(v.is_all_day, "isAllDay"@);
        }
        assert(get_field::<Date>(o, "start"@) == Ok::<Date, ParseErrorView>(v.start)) by {
            Self::lemma_slots(v, "start"@);
            <Date as FieldCodec>::field_round_trip(v.start, "start"@);
        }
        assert(get_field::<Date>(o, "end"@) == Ok::<Date, ParseErrorView>(v.end)) by {
            Self::lemma_slots(v, "end"@);
            <Date as FieldCodec>::field_round_trip(v.end, "end"@);
        }
        assert(get_field::<Option<String>>(o, "startTimeZone"@) == Ok::<
            Option<Seq<char>>,
            ParseErrorView,
        >(v.start_time_zone)) by {
            Self::lemma_slots(v, "startTimeZone"@);
            <Option<String> as FieldCodec>::field_round_trip(v.start_time_zone, "startTimeZone"@);
        }
        assert(get_field::<Option<String>>(o, "endTimeZone"@) == Ok::<
            Option<Seq<char>>,
            ParseErrorView,
        >(v.end_time_zone)) by {
            Self::lemma_slots(v, "endTimeZone"@);
            <Option<String> as FieldCodec>::field_round_trip(v.end_time_zone, "endTimeZone"@);
        }
        assert(get_field::<Option<Recurrence>>(o, "recurrence"@) == Ok::<
            Option<RecurrenceView>,
            ParseErrorView,
        >(v.recurrence)) by {
            Self::lemma_slots(v, "recurrence"@);
            <Option<Recurrence> as FieldCodec>::field_round_trip(v.recurrence, "recurrence"@);
        }
        assert(get_field::<Option<Vec<LocalDate>>>(o, "inclusions"@) == Ok::<
            Option<Seq<LocalDate>>,
            ParseErrorView,
        >(v.inclusions)) by {
            Self::lemma_slots(v, "inclusions"@);
            <Option<Vec<LocalDate>> as FieldCodec>::field_round_trip(v.inclusions, "inclusions"@);
        }
        assert(get_field::<Option<ExceptionMap>>(o, "exceptions"@) == Ok::<
            Option<Seq<(LocalDate, Option<PartialCalendarEventView>)>>,
            ParseErrorView,
        >(v.exceptions)) by {
            Self::lemma_slots(v, "exceptions"@);
            <Option<ExceptionMap> as FieldCodec>::field_round_trip(v.exceptions, "exceptions"@);
        }
        assert(get_field::<Option<Vec<Alert>>>(o, "alerts"@) == Ok::<
            Option<Seq<AlertView>>,
            ParseErrorView,
        >(v.alerts)) by {
            Self::lemma_slots(v, "alerts"@);
            <Option<Vec<Alert>> as FieldCodec>::field_round_trip(v.alerts, "alerts"@);
        }
        assert(get_field::<Option<Participant>>(o, "organizer"@) == Ok::<
            Option<ParticipantView>,
            ParseErrorView,
        >(v.organizer)) by {
            Self::lemma_slots(v, "organizer"@);
            <Option<Participant> as FieldCodec>::field_round_trip(v.organizer, "organizer"@);
        }
        assert(get_field::<Option<Vec<Participant>>>(o, "attendees"@) == Ok::<
            Option<Seq<ParticipantView>>,
            ParseErrorView,
        >(v.attendees)) by {
            Self::lemma_slots(v, "attendees"@);
            <Option<Vec<Participant>> as FieldCodec>::field_round_trip(v.attendees, "attendees"@);
        }
        assert(get_field::<Option<Vec<File>>>(o, "attachments"@) == Ok::<
            Option<Seq<FileView>>,
            ParseErrorView,
        >(v.attachments)) by {
            Self::lemma_slots(v, "attachments"@);
            <Option<Vec<File>> as FieldCodec>::field_round_trip(v.attachments, "attachments"@);
        }
    }
}

impl CalendarEvent {
    /// What the written form of `v` holds under `name`.
    pub open spec fn slot(v: CalendarEventView, name: Seq<char>) -> Option<JsonValue> {
        if name == "id"@ {
            <String as ToJsonField>::field_encoded(v.id)
        } else if name == "calendarId"@ {
            <String as ToJsonField>::field_encoded(v.calendar_id)
        } else if name == "summary"@ {
            <String as ToJsonField>::field_encoded(v.summary)
        } else if name == "description"@ {
            <String as ToJsonField>::field_encoded(v.description)
        } else if name == "location"@ {
            <String as ToJsonField>::field_encoded(v.location)
        } else if name == "showAsFree"@ {
            <bool as ToJsonField>::field_encoded(v.show_as_free)
        } else if name == "isAllDay"@ {
            <bool as ToJsonField>::field_encoded(v.is_all_day)
        } else if name == "start"@ {
            <Date as ToJsonField>::field_encoded(v.start)
        } else if name == "end"@ {
            <Date as ToJsonField>::field_encoded(v.end)
        } else if name == "startTimeZone"@ {
            <Option<String> as ToJsonField>::field_encoded(v.start_time_zone)
        } else if name == "endTimeZone"@ {
            <Option<String> as ToJsonField>::field_encoded(v.end_time_zone)
        } else if name == "recurrence"@ {
            <Option<Recurrence> as ToJsonField>::field_encoded(v.recurrence)
        } else if name == "inclusions"@ {
            <Option<Vec<LocalDate>> as ToJsonField>::field_encoded(v.inclusions)
        } else if name == "exceptions"@ {
            <Option<ExceptionMap> as ToJsonField>::field_encoded(v.exceptions)
        } else if name == "alerts"@ {
            <Option<Vec<Alert>> as ToJsonField>::field_encoded(v.alerts)
        } else if name == "organizer"@ {
            <Option<Participant> as ToJsonField>::field_encoded(v.organizer)
        } else if name == "attendees"@ {
            <Option<Vec<Participant>> as ToJsonField>::field_encoded(v.attendees)
        } else if name == "attachments"@ {
            <Option<Vec<File>> as ToJsonField>::field_encoded(v.attachments)
        } else {
            None
        }
    }

    /// The written form holds each field under its wire name and nothing
    /// under any other name.
    pub proof fn lemma_slots(v: CalendarEventView, name: Seq<char>)
        ensures
            field_of(Self::encoded(v), name) == Self::slot(v, name),
    {
        Self::lemma_wire_names();
        if name == "id"@ {
            assert(field_of(Self::encoded(v), name) == Self::slot(v, name)) by {
                broadcast use lemma_lookup_put_slot;

            }
        } else if name == "calendarId"@ {
            assert(field_of(Self::encoded(v), name) == Self::slot(v, name)) by {
                broadcast use lemma_lookup_put_slot;

            }
        } else if name == "summary"@ {
            assert(field_of(Self::encoded(v), name) == Self::slot(v, name)) by {
                broadcast use lemma_lookup_put_slot;

            }
        } else if name == "description"@ {
            assert(field_of(Self::encoded(v), name) == Self::slot(v, name)) by {
                broadcast use lemma_lookup_put_slot;

            }
        } else if name == "location"@ {
            assert(field_of(Self::encoded(v), name) == Self::slot(v, name)) by {
                broadcast use lemma_lookup_put_slot;

            }
        } else if name == "showAsFree"@ {
            assert(field_of(Self::encoded(v), name) == Self::slot(v, name)) by {
                broadcast use lemma_lookup_put_slot;

            }
        } else if name == "isAllDay"@ {
            assert(field_of(Self::encoded(v), name) == Self::slot(v, name)) by {
                broadcast use lemma_lookup_put_slot;

            }
        } else if name == "start"@ {
            assert(field_of(Self::encoded(v), name) == Self::slot(v, name)) by {
                broadcast use lemma_lookup_put_slot;

            }
        } else if name == "end"@ {
            assert(field_of(Self::encoded(v), name) == Self::slot(v, name)) by {
                broadcast use lemma_lookup_put_slot;

            }
        } else if name == "startTimeZone"@ {
            assert(field_of(Self::encoded(v), name) == Self::slot(v, name)) by {
                broadcast use lemma_lookup_put_slot;

            }
        } else if name == "endTimeZone"@ {
            assert(field_of(Self::encoded(v), name) == Self::slot(v, name)) by {
                broadcast use lemma_lookup_put_slot;

            }
        } else if name == "recurrence"@ {
            assert(field_of(Self::encoded(v), name) == Self::slot(v, name)) by {
                broadcast use lemma_lookup_put_slot;

            }
        } else if name == "inclusions"@ {
            assert(field_of(Self::encoded(v), name) == Self::slot(v, name)) by {
                broadcast use lemma_lookup_put_slot;

            }
        } else if name == "exceptions"@ {
            assert(field_of(Self::encoded(v), name) == Self::slot(v, name)) by {
                broadcast use lemma_lookup_put_slot;

            }
        } else if name == "alerts"@ {
            assert(field_of(Self::encoded(v), name) == Self::slot(v, name)) by {
                broadcast use lemma_lookup_put_slot;

            }
        } else if name == "organizer"@ {
            assert(field_of(Self::encoded(v), name) == Self::slot(v, name)) by {
                broadcast use lemma_lookup_put_slot;

            }
        } else if name == "attendees"@ {
            assert(field_of(Self::encoded(v), name) == Self::slot(v, name)) by {
                broadcast use lemma_lookup_put_slot;

            }
        } else if name == "attachments"@ {
            assert(field_of(Self::encoded(v), name) == Self::slot(v, name)) by {
                broadcast use lemma_lookup_put_slot;

            }
        } else {
            assert(field_of(Self::encoded(v), name) is None) by {
                broadcast use lemma_lookup_put_slot;

            }
        }
    }
}

impl PartialRecord for PartialCalendarEvent {
    open spec fn id_of(v: PartialCalendarEventView) -> Presence<Seq<char>> {
        v.id
    }

    fn id(&self) -> (r: Presence<String>) {
        self.id.duplicate()
    }
}

impl Record for CalendarEvent {
    type Partial = PartialCalendarEvent;

    open spec fn id_of(v: CalendarEventView) -> Seq<char> {
        v.id
    }

    open spec fn patched(v: CalendarEventView, p: PartialCalendarEventView) -> CalendarEventView {
        CalendarEventView {
            id: p.id.or(v.id),
            calendar_id: p.calendar_id.or(v.calendar_id),
            summary: p.summary.or(v.summary),
            description: p.description.or(v.description),
            location: p.location.or(v.location),
            show_as_free: p.show_as_free.or(v.show_as_free),
            is_all_day: p.is_all_day.or(v.is_all_day),
            start: p.start.or(v.start),
            end: p.end.or(v.end),
            start_time_zone: p.start_time_zone.or(v.start_time_zone),
            end_time_zone: p.end_time_zone.or(v.end_time_zone),
            recurrence: p.recurrence.or(v.recurrence),
            inclusions: p.inclusions.or(v.inclusions),
            exceptions: p.exceptions.or(v.exceptions),
            alerts: p.alerts.or(v.alerts),
            organizer: p.organizer.or(v.organizer),
            attendees: p.attendees.or(v.attendees),
            attachments: p.attachments.or(v.attachments),
        }
    }

    open spec fn projected(v: CalendarEventView) -> PartialCalendarEventView {
        PartialCalendarEventView {
            id: Presence::Present(v.id),
            calendar_id: Presence::Present(v.calendar_id),
            summary: Presence::Present(v.summary),
            description: Presence::Present(v.description),
            location: Presence::Present(v.location),
            show_as_free: Presence::Present(v.show_as_free),
            is_all_day: Presence::Present(v.is_all_day),
            start: Presence::Present(v.start),
            end: Presence::Present(v.end),
            start_time_zone: Presence::Present(v.start_time_zone),
            end_time_zone: Presence::Present(v.end_time_zone),
            recurrence: Presence::Present(v.recurrence),
            inclusions: Presence::Present(v.inclusions),
            exceptions: Presence::Present(v.exceptions),
            alerts: Presence::Present(v.alerts),
            organizer: Presence::Present(v.organizer),
            attendees: Presence::Present(v.attendees),
            attachments: Presence::Present(v.attachments),
        }
    }

    open spec fn filtered(
        v: CalendarEventView,
        properties: Seq<Seq<char>>,
    ) -> PartialCalendarEventView {
        PartialCalendarEventView {
            id: Presence::Present(v.id),
            calendar_id: chosen(properties, "calendarId"@, v.calendar_id),
            summary: chosen(properties, "summary"@, v.summary),
            description: chosen(properties, "description"@, v.description),
            location: chosen(properties, "location"@, v.location),
            show_as_free: chosen(properties, "showAsFree"@, v.show_as_free),
            is_all_day: chosen(properties, "isAllDay"@, v.is_all_day),
            start: chosen(properties, "start"@, v.start),
            end: chosen(properties, "end"@, v.end),
            start_time_zone: chosen(properties, "startTimeZone"@, v.start_time_zone),
            end_time_zone: chosen(properties, "endTimeZone"@, v.end_time_zone),
            recurrence: chosen(properties, "recurrence"@, v.recurrence),
            inclusions: chosen(properties, "inclusions"@, v.inclusions),
            exceptions: chosen(properties, "exceptions"@, v.exceptions),
            alerts: chosen(properties, "alerts"@, v.alerts),
            organizer: chosen(properties, "organizer"@, v.organizer),
            attendees: chosen(properties, "attendees"@, v.attendees),
            attachments: chosen(properties, "attachments"@, v.attachments),
        }
    }

    fn id(&self) -> (r: String) {
        self.id.clone()
    }

    fn updated_with(&self, p: &PartialCalendarEvent) -> (r: Self) {
        assert(p.deep_view().exceptions == p.exceptions.deep_view());
        let id = copy_patched(&p.id, &self.id);
        let calendar_id = copy_patched(&p.calendar_id, &self.calendar_id);
        let summary = copy_patched(&p.summary, &self.summary);
        let description = copy_patched(&p.description, &self.description);
        let location = copy_patched(&p.location, &self.location);
        let show_as_free = copy_patched(&p.show_as_free, &self.show_as_free);
        let is_all_day = copy_patched(&p.is_all_day, &self.is_all_day);
        let start = copy_patched(&p.start, &self.start);
        let end = copy_patched(&p.end, &self.end);
        let start_time_zone = copy_patched(&p.start_time_zone, &self.start_time_zone);
        let end_time_zone = copy_patched(&p.end_time_zone, &self.end_time_zone);
        let recurrence = copy_patched(&p.recurrence, &self.recurrence);
        let inclusions = copy_patched(&p.inclusions, &self.inclusions);
        let exceptions = copy_patched(&p.exceptions, &self.exceptions);
        let alerts = copy_patched(&p.alerts, &self.alerts);
        let organizer = copy_patched(&p.organizer, &self.organizer);
        let attendees = copy_patched(&p.attendees, &self.attendees);
        let attachments = copy_patched(&p.attachments, &self.attachments);
        CalendarEvent {
            id,
            calendar_id,
            summary,
            description,
            location,
            show_as_free,
            is_all_day,
            start,
            end,
            start_time_zone,
            end_time_zone,
            recurrence,
            inclusions,
            exceptions,
            alerts,
            organizer,
            attendees,
            attachments,
        }
    }

    fn to_partial(&self) -> (p: PartialCalendarEvent) {
        let id = Presence::Present(self.id.duplicate());
        let calendar_id = Presence::Present(self.calendar_id.duplicate());
        let summary = Presence::Present(self.summary.duplicate());
        let description = Presence::Present(self.description.duplicate());
        let location = Presence::Present(self.location.duplicate());
        let show_as_free = Presence::Present(self.show_as_free.duplicate());
        let is_all_day = Presence::Present(self.is_all_day.duplicate());
        let start = Presence::Present(self.start.duplicate());
        let end = Presence::Present(self.end.duplicate());
        let start_time_zone = Presence::Present(self.start_time_zone.duplicate());
        let end_time_zone = Presence::Present(self.end_time_zone.duplicate());
        let recurrence = Presence::Present(self.recurrence.duplicate());
        let inclusions = Presence::Present(self.inclusions.duplicate());
        let exceptions = Presence::Present(self.exceptions.duplicate());
        assert(match exceptions {
            Presence::Present(Some(m)) => Presence::Present(Some(exceptions_view(m))),
            Presence::Present(None) => Presence::Present(None),
            Presence::Absent => Presence::Absent,
        } == Presence::Present(self.deep_view().exceptions));
        let alerts = Presence::Present(self.alerts.duplicate());
        let organizer = Presence::Present(self.organizer.duplicate());
        let attendees = Presence::Present(self.attendees.duplicate());
        let attachments = Presence::Present(self.attachments.duplicate());
        PartialCalendarEvent {
            id,
            calendar_id,
            summary,
            description,
            location,
            show_as_free,
            is_all_day,
            start,
            end,
            start_time_zone,
            end_time_zone,
            recurrence,
            inclusions,
            exceptions,
            alerts,
            organizer,
            attendees,
            attachments,
        }
    }

    fn to_filtered_partial(&self, properties: &Vec<String>) -> (p: PartialCalendarEvent) {
        let id = Presence::Present(self.id.duplicate());
        let calendar_id = copy_asked(properties, "calendarId", &self.calendar_id);
        let summary = copy_asked(properties, "summary", &self.summary);
        let description = copy_asked(properties, "description", &self.description);
        let location = copy_asked(properties, "location", &self.location);
        let show_as_free = copy_asked(properties, "showAsFree", &self.show_as_free);
        let is_all_day = copy_asked(properties, "isAllDay", &self.is_all_day);
        let start = copy_asked(properties, "start", &self.start);
        let end = copy_asked(properties, "end", &self.end);
        let start_time_zone = copy_asked(properties, "startTimeZone", &self.start_time_zone);
        let end_time_zone = copy_asked(properties, "endTimeZone", &self.end_time_zone);
        let recurrence = copy_asked(properties, "recurrence", &self.recurrence);
        let inclusions = copy_asked(properties, "inclusions", &self.inclusions);
        let exceptions = copy_asked(properties, "exceptions", &self.exceptions);
        assert(match exceptions {
            Presence::Present(Some(m)) => Presence::Present(Some(exceptions_view(m))),
            Presence::Present(None) => Presence::Present(None),
            Presence::Absent => Presence::Absent,
        } == exceptions.deep_view());
        let alerts = copy_asked(properties, "alerts", &self.alerts);
        let organizer = copy_asked(properties, "organizer", &self.organizer);
        let attendees = copy_asked(properties, "attendees", &self.attendees);
        let attachments = copy_asked(properties, "attachments", &self.attachments);
        PartialCalendarEvent {
            id,
            calendar_id,
            summary,
            description,
            location,
            show_as_free,
            is_all_day,
            start,
            end,
            start_time_zone,
            end_time_zone,
            recurrence,
            inclusions,
            exceptions,
            alerts,
            organizer,
            attendees,
            attachments,
        }
    }

    proof fn law_patch_with_projection(v: CalendarEventView) {
    }

    proof fn law_patch_overlays(
        v: CalendarEventView,
        p: PartialCalendarEventView,
        name: Seq<char>,
    ) {
        assert(Self::slot(Self::patched(v, p), name) == match PartialCalendarEvent::slot(p, name) {
            Some(j) => Some(j),
            None => Self::slot(v, name),
        });
        Self::lemma_slots(Self::patched(v, p), name);
        Self::lemma_slots(v, name);
        PartialCalendarEvent::lemma_slots(p, name);
    }

    proof fn law_projection_is_whole(v: CalendarEventView) {
    }

    proof fn law_filter_selects(v: CalendarEventView, properties: Seq<Seq<char>>, name: Seq<char>) {
        reveal(chosen);
        assert(PartialCalendarEvent::slot(Self::filtered(v, properties), name) == if name == "id"@
            || properties.contains(name) {
            Self::slot(v, name)
        } else {
            None
        });
        Self::lemma_slots(v, name);
        PartialCalendarEvent::lemma_slots(Self::filtered(v, properties), name);
    }
}

} // verus!
