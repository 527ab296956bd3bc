//! The conversion contract between typed values and JSON.
//!
//! Every domain type says in a spec function what JSON it is written as
//! ([`ToJson::encoded`]) and what a JSON value is read as
//! ([`FromJson::decoded`]); the executable conversions are proved against
//! them. [`JsonCodec`] states that reading what was written gives the value
//! back. The field traits do the same for one named field of an object, where
//! a field can also be left out ([`Presence`]) or hold `null` (`Option`).

use crate::json::{
    keys_ascend, lemma_array_value, lemma_deepened_lookup, lemma_deepened_put,
    lemma_object_value, lemma_put_last, lookup, put, put_slot, Json, JsonValue, TextMap,
};
use crate::text::text_before;
use vstd::prelude::*;

verus! {

/// Why a JSON value could not be read as the type asked for.
#[derive(Clone, Debug, PartialEq)]
pub enum ParseError {
    /// The value is of the wrong JSON kind; holds the name of the target type.
    InvalidJsonType(String),
    /// The value is of the right kind but not a value of the target type.
    InvalidStructure(String),
    /// A required field is missing; holds the name of the field.
    MissingField(String),
    /// A method name is not known.
    UnknownMethod(String),
}

/// A [`ParseError`] in contracts.
pub ghost enum ParseErrorView {
    InvalidJsonType(Seq<char>),
    InvalidStructure(Seq<char>),
    MissingField(Seq<char>),
    UnknownMethod(Seq<char>),
}

impl DeepView for ParseError {
    type V = ParseErrorView;

    open spec fn deep_view(&self) -> ParseErrorView {
        match self {
            ParseError::InvalidJsonType(s) => ParseErrorView::InvalidJsonType(s@),
            ParseError::InvalidStructure(s) => ParseErrorView::InvalidStructure(s@),
            ParseError::MissingField(s) => ParseErrorView::MissingField(s@),
            ParseError::UnknownMethod(s) => ParseErrorView::UnknownMethod(s@),
        }
    }
}

impl ParseError {
    /// A short name for the kind of error.
    pub fn description(&self) -> (r: &'static str)
        ensures
            r@ == match self {
                ParseError::InvalidJsonType(_) => "invalid JSON type for conversion"@,
                ParseError::InvalidStructure(_) => "invalid value structure for conversion"@,
                ParseError::MissingField(_) => "missing field"@,
                ParseError::UnknownMethod(_) => "unknown method"@,
            },
    {
        match self {
            ParseError::InvalidJsonType(_) => "invalid JSON type for conversion",
            ParseError::InvalidStructure(_) => "invalid value structure for conversion",
            ParseError::MissingField(_) => "missing field",
            ParseError::UnknownMethod(_) => "unknown method",
        }
    }

    /// The error as a message that names the type or the field.
    pub fn to_string(&self) -> (r: String)
        ensures
            r@ == match self {
                ParseError::InvalidJsonType(e) => "invalid JSON type for conversion to "@ + e@,
                ParseError::InvalidStructure(e) => "invalid value structure for conversion to "@
                    + e@,
                ParseError::MissingField(e) => "missing field \""@ + e@ + "\""@,
                ParseError::UnknownMethod(e) => "unknown method \""@ + e@ + "\""@,
            },
    {
        match self {
            ParseError::InvalidJsonType(e) => {
                String::from_str("invalid JSON type for conversion to ").concat(e.as_str())
            },
            ParseError::InvalidStructure(e) => {
                String::from_str("invalid value structure for conversion to ").concat(e.as_str())
            },
            ParseError::MissingField(e) => {
                String::from_str("missing field \"").concat(e.as_str()).concat("\"")
            },
            ParseError::UnknownMethod(e) => {
                String::from_str("unknown method \"").concat(e.as_str()).concat("\"")
            },
        }
    }
}

/// The outcome of a conversion in contracts.
pub open spec fn result_view<T: DeepView>(r: Result<T, ParseError>) -> Result<
    T::V,
    ParseErrorView,
> {
    match r {
        Ok(v) => Ok(v.deep_view()),
        Err(e) => Err(e.deep_view()),
    }
}

/// A field of a partial value: given, or left out.
#[derive(Clone, Debug, PartialEq)]
pub enum Presence<T> {
    Present(T),
    Absent,
}

impl<T: DeepView> DeepView for Presence<T> {
    type V = Presence<T::V>;

    open spec fn deep_view(&self) -> Presence<T::V> {
        match self {
            Presence::Present(v) => Presence::Present(v.deep_view()),
            Presence::Absent => Presence::Absent,
        }
    }
}

impl<T> Presence<T> {
    /// The value of a field that is given.
    pub fn as_option(&self) -> (r: Option<&T>)
        ensures
            r == match self {
                Presence::Present(v) => Some(v),
                Presence::Absent => None,
            },
    {
        match self {
            Presence::Present(v) => Some(v),
            Presence::Absent => None,
        }
    }

    /// The field's value where it is given, `fallback` where it is left out.
    pub open spec fn or(self, fallback: T) -> T {
        match self {
            Presence::Present(v) => v,
            Presence::Absent => fallback,
        }
    }
}

/// A copy that holds the same value as the original.
pub trait Duplicate: Sized + DeepView {
    fn duplicate(&self) -> (r: Self)
        ensures
            r.deep_view() == self.deep_view(),
    ;
}

/// Types that are read from a JSON value.
pub trait FromJson: Sized + DeepView {
    /// What `json` is read as: the value, or the first error met.
    spec fn decoded(json: JsonValue) -> Result<Self::V, ParseErrorView>;

    fn from_json(json: &Json) -> (r: Result<Self, ParseError>)
        ensures
            result_view(r) == Self::decoded(json@),
    ;
}

/// Types that are written as a JSON value. Writing never fails.
pub trait ToJson: DeepView {
    /// The JSON value that `v` is written as.
    spec fn encoded(v: Self::V) -> JsonValue;

    fn to_json(&self) -> (json: Json)
        ensures
            json@ == Self::encoded(self.deep_view()),
    ;
}

/// Types whose written form reads back as the value written.
pub trait JsonCodec: FromJson + ToJson {
    /// The values that can come out of reading: those that round-trip.
    spec fn valid(v: Self::V) -> bool;

    /// Reading what was written gives the value back, and no value is
    /// written as `null`.
    proof fn round_trip(v: Self::V)
        requires
            Self::valid(v),
        ensures
            Self::decoded(Self::encoded(v)) == Ok::<Self::V, ParseErrorView>(v),
            !(Self::encoded(v) is Null),
    ;
}

impl Duplicate for String {
    fn duplicate(&self) -> (r: Self) {
        self.clone()
    }
}

impl FromJson for String {
    open spec fn decoded(json: JsonValue) -> Result<Seq<char>, ParseErrorView> {
        match json {
            JsonValue::String(s) => Ok(s),
            _ => Err(ParseErrorView::InvalidJsonType("String"@)),
        }
    }

    fn from_json(json: &Json) -> (r: Result<String, ParseError>) {
        match json {
            Json::String(s) => Ok(s.clone()),
            _ => Err(ParseError::InvalidJsonType("String".to_string())),
        }
    }
}

impl ToJson for String {
    open spec fn encoded(v: Seq<char>) -> JsonValue {
        JsonValue::String(v)
    }

    fn to_json(&self) -> (json: Json) {
        Json::String(self.clone())
    }
}

impl JsonCodec for String {
    open spec fn valid(v: Seq<char>) -> bool {
        true
    }

    proof fn round_trip(v: Seq<char>) {
    }
}

impl Duplicate for u64 {
    fn duplicate(&self) -> (r: Self) {
        *self
    }
}

impl FromJson for u64 {
    /// Either integer form is taken; a negative one wraps around.
    open spec fn decoded(json: JsonValue) -> Result<u64, ParseErrorView> {
        match json {
            JsonValue::U64(n) => Ok(n),
            JsonValue::I64(n) => Ok(n as u64),
            _ => Err(ParseErrorView::InvalidJsonType("u64"@)),
        }
    }

    fn from_json(json: &Json) -> (r: Result<u64, ParseError>) {
        match json {
            Json::U64(n) => Ok(*n),
            Json::I64(n) => Ok(*n as u64),
            _ => Err(ParseError::InvalidJsonType("u64".to_string())),
        }
    }
}

impl ToJson for u64 {
    open spec fn encoded(v: u64) -> JsonValue {
        JsonValue::U64(v)
    }

    fn to_json(&self) -> (json: Json) {
        Json::U64(*self)
    }
}

impl JsonCodec for u64 {
    open spec fn valid(v: u64) -> bool {
        true
    }

    proof fn round_trip(v: u64) {
    }
}

impl Duplicate for bool {
    fn duplicate(&self) -> (r: Self) {
        *self
    }
}

impl FromJson for bool {
    open spec fn decoded(json: JsonValue) -> Result<bool, ParseErrorView> {
        match json {
            JsonValue::Boolean(b) => Ok(b),
            _ => Err(ParseErrorView::InvalidJsonType("bool"@)),
        }
    }

    fn from_json(json: &Json) -> (r: Result<bool, ParseError>) {
        match json {
            Json::Boolean(b) => Ok(*b),
            _ => Err(ParseError::InvalidJsonType("bool".to_string())),
        }
    }
}

impl ToJson for bool {
    open spec fn encoded(v: bool) -> JsonValue {
        JsonValue::Boolean(v)
    }

    fn to_json(&self) -> (json: Json) {
        Json::Boolean(*self)
    }
}

impl JsonCodec for bool {
    open spec fn valid(v: bool) -> bool {
        true
    }

    proof fn round_trip(v: bool) {
    }
}

impl Duplicate for i64 {
    fn duplicate(&self) -> (r: Self) {
        *self
    }
}

impl FromJson for i64 {
    /// Either integer form is taken; an unsigned one past the range wraps
    /// around.
    open spec fn decoded(json: JsonValue) -> Result<i64, ParseErrorView> {
        match json {
            JsonValue::I64(n) => Ok(n),
            JsonValue::U64(n) => Ok(n as i64),
            _ => Err(ParseErrorView::InvalidJsonType("i64"@)),
        }
    }

    fn from_json(json: &Json) -> (r: Result<i64, ParseError>) {
        match json {
            Json::I64(n) => Ok(*n),
            Json::U64(n) => Ok(*n as i64),
            _ => Err(ParseError::InvalidJsonType("i64".to_string())),
        }
    }
}

impl ToJson for i64 {
    open spec fn encoded(v: i64) -> JsonValue {
        JsonValue::I64(v)
    }

    fn to_json(&self) -> (json: Json) {
        Json::I64(*self)
    }
}

impl JsonCodec for i64 {
    open spec fn valid(v: i64) -> bool {
        true
    }

    proof fn round_trip(v: i64) {
    }
}

impl Duplicate for i32 {
    fn duplicate(&self) -> (r: Self) {
        *self
    }
}

impl FromJson for i32 {
    /// Either integer form is taken; one past the range wraps around.
    open spec fn decoded(json: JsonValue) -> Result<i32, ParseErrorView> {
        match json {
            JsonValue::I64(n) => Ok(n as i32),
            JsonValue::U64(n) => Ok(n as i32),
            _ => Err(ParseErrorView::InvalidJsonType("i32"@)),
        }
    }

    fn from_json(json: &Json) -> (r: Result<i32, ParseError>) {
        match json {
            Json::I64(n) => Ok(*n as i32),
            Json::U64(n) => Ok(*n as i32),
            _ => Err(ParseError::InvalidJsonType("i32".to_string())),
        }
    }
}

impl ToJson for i32 {
    open spec fn encoded(v: i32) -> JsonValue {
        JsonValue::I64(v as i64)
    }

    fn to_json(&self) -> (json: Json) {
        Json::I64(*self as i64)
    }
}

impl JsonCodec for i32 {
    open spec fn valid(v: i32) -> bool {
        true
    }

    proof fn round_trip(v: i32) {
    }
}

/// The items read one after the other: all of them, or the error of the
/// first that fails.
pub open spec fn decoded_items<T: FromJson>(items: Seq<JsonValue>) -> Result<
    Seq<T::V>,
    ParseErrorView,
>
    decreases items.len(),
{
    if items.len() == 0 {
        Ok(Seq::empty())
    } else {
        match decoded_items::<T>(items.drop_last()) {
            Err(e) => Err(e),
            Ok(vs) => match T::decoded(items.last()) {
                Err(e) => Err(e),
                Ok(v) => Ok(vs.push(v)),
            },
        }
    }
}

/// The items written one by one.
pub open spec fn encoded_items<T: ToJson>(vs: Seq<T::V>) -> Seq<JsonValue> {
    Seq::new(vs.len(), |i: int| T::encoded(vs[i]))
}

proof fn lemma_items_error_stays<T: FromJson>(items: Seq<JsonValue>, n: int)
    requires
        0 <= n <= items.len(),
        decoded_items::<T>(items.take(n)) is Err,
    ensures
        decoded_items::<T>(items) == decoded_items::<T>(items.take(n)),
    decreases items.len() - n,
{
    if n < items.len() {
        assert(items.take(n + 1).drop_last() =~= items.take(n));
        lemma_items_error_stays::<T>(items, n + 1);
    } else {
        assert(items.take(n) =~= items);
    }
}

/// Where every item reads, the sequence reads as the items' values in order.
pub proof fn lemma_items_all_read<T: FromJson>(items: Seq<JsonValue>)
    requires
        forall|k: int| 0 <= k < items.len() ==> (#[trigger] T::decoded(items[k])) is Ok,
    ensures
        decoded_items::<T>(items) == Ok::<Seq<T::V>, ParseErrorView>(
            Seq::new(items.len(), |k: int| T::decoded(items[k])->Ok_0),
        ),
    decreases items.len(),
{
    if items.len() > 0 {
        let front = items.drop_last();
        assert forall|k: int| 0 <= k < front.len() implies (#[trigger] T::decoded(front[k])) is Ok by {
            assert(front[k] == items[k]);
        }
        lemma_items_all_read::<T>(front);
        assert(T::decoded(items[items.len() - 1]) is Ok);
        assert(Seq::new(front.len(), |k: int| T::decoded(front[k])->Ok_0).push(
            T::decoded(items.last())->Ok_0,
        ) =~= Seq::new(items.len(), |k: int| T::decoded(items[k])->Ok_0));
    } else {
        assert(Seq::<T::V>::empty() =~= Seq::new(items.len(), |k: int| T::decoded(items[k])->Ok_0));
    }
}

/// The first error wins: where the items before `i` read and item `i` does
/// not, reading the array gives exactly the error of item `i`, whatever
/// comes after it.
pub proof fn lemma_first_error_wins<T: FromJson>(items: Seq<JsonValue>, i: int)
    requires
        0 <= i < items.len(),
        forall|k: int| 0 <= k < i ==> (#[trigger] T::decoded(items[k])) is Ok,
        T::decoded(items[i]) is Err,
    ensures
        Vec::<T>::decoded(JsonValue::Array(items)) == Err::<Seq<T::V>, ParseErrorView>(
            T::decoded(items[i])->Err_0,
        ),
{
    let front = items.take(i);
    assert forall|k: int| 0 <= k < front.len() implies (#[trigger] T::decoded(front[k])) is Ok by {
        assert(front[k] == items[k]);
    }
    lemma_items_all_read::<T>(front);
    assert(items.take(i + 1).drop_last() =~= front);
    assert(items.take(i + 1).last() == items[i]);
    lemma_items_error_stays::<T>(items, i + 1);
}

proof fn lemma_items_round_trip<T: JsonCodec>(vs: Seq<T::V>)
    requires
        forall|i: int| 0 <= i < vs.len() ==> T::valid(#[trigger] vs[i]),
    ensures
        decoded_items::<T>(encoded_items::<T>(vs)) == Ok::<Seq<T::V>, ParseErrorView>(vs),
    decreases vs.len(),
{
    if vs.len() > 0 {
        let front = vs.drop_last();
        assert forall|i: int| 0 <= i < front.len() implies T::valid(#[trigger] front[i]) by {
            assert(front[i] == vs[i]);
        }
        lemma_items_round_trip::<T>(front);
        assert(encoded_items::<T>(vs).drop_last() =~= encoded_items::<T>(front));
        assert(T::valid(vs[vs.len() - 1]));
        T::round_trip(vs.last());
        assert(front.push(vs.last()) =~= vs);
    } else {
        assert(vs =~= Seq::empty());
    }
}

impl<T: Duplicate> Duplicate for Vec<T> {
    fn duplicate(&self) -> (r: Self) {
        let mut out: Vec<T> = Vec::new();
        for i in 0..self.len()
            invariant
                out.len() == i,
                forall|k: int| 0 <= k < i ==> out[k].deep_view() == self[k].deep_view(),
        {
            out.push(self[i].duplicate());
        }
        assert(out.deep_view() =~= self.deep_view());
        out
    }
}

impl<T: FromJson> FromJson for Vec<T> {
    open spec fn decoded(json: JsonValue) -> Result<Seq<T::V>, ParseErrorView> {
        match json {
            JsonValue::Array(items) => decoded_items::<T>(items),
            _ => Err(ParseErrorView::InvalidJsonType("Vec"@)),
        }
    }

    fn from_json(json: &Json) -> (r: Result<Vec<T>, ParseError>) {
        match json {
            Json::Array(a) => {
                broadcast use lemma_array_value;

                let ghost items = a.deep_view();
                let mut out: Vec<T> = Vec::new();
                assert(items.take(0) =~= Seq::empty() && out.deep_view() =~= Seq::empty());
                for i in 0..a.len()
                    invariant
                        items == a.deep_view(),
                        json@ == JsonValue::Array(items),
                        decoded_items::<T>(items.take(i as int)) == Ok::<
                            Seq<T::V>,
                            ParseErrorView,
                        >(out.deep_view()),
                {
                    assert(items.take(i + 1).drop_last() =~= items.take(i as int));
                    match T::from_json(&a[i]) {
                        Ok(v) => {
                            let ghost before = out.deep_view();
                            out.push(v);
                            assert(out.deep_view() =~= before.push(v.deep_view()));
                        },
                        Err(e) => {
                            proof {
                                assert(items.take(i + 1).last() == a[i as int]@);
                                assert(decoded_items::<T>(items.take(i + 1)) is Err);
                                lemma_items_error_stays::<T>(items, i + 1);
                            }
                            return Err(e);
                        },
                    }
                }
                assert(items.take(a.len() as int) =~= items);
                Ok(out)
            },
            _ => Err(ParseError::InvalidJsonType("Vec".to_string())),
        }
    }
}

impl<T: ToJson> ToJson for Vec<T> {
    open spec fn encoded(v: Seq<T::V>) -> JsonValue {
        JsonValue::Array(encoded_items::<T>(v))
    }

    fn to_json(&self) -> (json: Json) {
        let mut out: Vec<Json> = Vec::new();
        for i in 0..self.len()
            invariant
                out.len() == i,
                forall|k: int| 0 <= k < i ==> out[k]@ == T::encoded(self[k].deep_view()),
        {
            out.push(self[i].to_json());
        }
        proof {
            lemma_array_value(out);
            assert(out.deep_view() =~= encoded_items::<T>(self.deep_view()));
        }
        Json::Array(out)
    }
}

impl<T: JsonCodec> JsonCodec for Vec<T> {
    open spec fn valid(v: Seq<T::V>) -> bool {
        forall|i: int| 0 <= i < v.len() ==> T::valid(#[trigger] v[i])
    }

    proof fn round_trip(v: Seq<T::V>) {
        lemma_items_round_trip::<T>(v);
    }
}

/// The entries read one after the other and put under their keys: all of
/// them, or the error of the first that fails.
pub open spec fn decoded_entries<T: FromJson>(entries: Seq<(Seq<char>, JsonValue)>) -> Result<
    Seq<(Seq<char>, T::V)>,
    ParseErrorView,
>
    decreases entries.len(),
{
    if entries.len() == 0 {
        Ok(Seq::empty())
    } else {
        match decoded_entries::<T>(entries.drop_last()) {
            Err(e) => Err(e),
            Ok(vs) => match T::decoded(entries.last().1) {
                Err(e) => Err(e),
                Ok(v) => Ok(put(vs, entries.last().0, v)),
            },
        }
    }
}

/// The entries with each value written.
pub open spec fn encoded_entries<T: ToJson>(vs: Seq<(Seq<char>, T::V)>) -> Seq<
    (Seq<char>, JsonValue),
> {
    Seq::new(vs.len(), |i: int| (vs[i].0, T::encoded(vs[i].1)))
}

proof fn lemma_entries_error_stays<T: FromJson>(entries: Seq<(Seq<char>, JsonValue)>, n: int)
    requires
        0 <= n <= entries.len(),
        decoded_entries::<T>(entries.take(n)) is Err,
    ensures
        decoded_entries::<T>(entries) == decoded_entries::<T>(entries.take(n)),
    decreases entries.len() - n,
{
    if n < entries.len() {
        assert(entries.take(n + 1).drop_last() =~= entries.take(n));
        lemma_entries_error_stays::<T>(entries, n + 1);
    } else {
        assert(entries.take(n) =~= entries);
    }
}

proof fn lemma_entries_round_trip<T: JsonCodec>(vs: Seq<(Seq<char>, T::V)>)
    requires
        keys_ascend(vs),
        forall|i: int| 0 <= i < vs.len() ==> T::valid((#[trigger] vs[i]).1),
    ensures
        decoded_entries::<T>(encoded_entries::<T>(vs)) == Ok::<
            Seq<(Seq<char>, T::V)>,
            ParseErrorView,
        >(vs),
    decreases vs.len(),
{
    if vs.len() > 0 {
        let front = vs.drop_last();
        assert forall|i: int| 0 <= i < front.len() implies T::valid((#[trigger] front[i]).1) by {
            assert(front[i] == vs[i]);
        }
        assert(keys_ascend(front)) by {
            assert forall|i: int, j: int| 0 <= i < j < front.len() implies text_before(
                (#[trigger] front[i]).0,
                (#[trigger] front[j]).0,
            ) by {
                assert(front[i] == vs[i] && front[j] == vs[j]);
            }
        }
        lemma_entries_round_trip::<T>(front);
        assert(encoded_entries::<T>(vs).drop_last() =~= encoded_entries::<T>(front));
        assert(T::valid(vs[vs.len() - 1].1));
        T::round_trip(vs.last().1);
        assert forall|i: int| 0 <= i < front.len() implies text_before(
            (#[trigger] front[i]).0,
            vs.last().0,
        ) by {
            assert(front[i] == vs[i]);
        }
        lemma_put_last(front, vs.last().0, vs.last().1);
        assert(front.push((vs.last().0, vs.last().1)) =~= vs);
    } else {
        assert(vs =~= Seq::empty());
    }
}

impl<T: Duplicate> Duplicate for TextMap<T> {
    fn duplicate(&self) -> (r: Self) {
        let mut out: TextMap<T> = TextMap::new();
        proof {
            use_type_invariant(self);
        }
        let n = self.len();
        for i in 0..n
            invariant
                n == self@.len(),
                keys_ascend(self@),
                out@.len() == i,
                forall|k: int|
                    0 <= k < i ==> (#[trigger] out@[k]).0 == self@[k].0 && out@[k].1.deep_view()
                        == self@[k].1.deep_view(),
        {
            let ghost before = out@;
            let key = self.key_at(i).clone();
            let value = self.value_at(i).duplicate();
            proof {
                assert forall|k: int| 0 <= k < before.len() implies text_before(
                    (#[trigger] before[k]).0,
                    key@,
                ) by {
                    assert(text_before(self@[k].0, self@[i as int].0));
                }
                lemma_put_last(before, key@, value);
            }
            out.insert(key, value);
        }
        assert(out.deep_view() =~= self.deep_view());
        out
    }
}

impl<T: FromJson> FromJson for TextMap<T> {
    open spec fn decoded(json: JsonValue) -> Result<Seq<(Seq<char>, T::V)>, ParseErrorView> {
        match json {
            JsonValue::Object(entries) => decoded_entries::<T>(entries),
            _ => Err(ParseErrorView::InvalidJsonType("BTreeMap"@)),
        }
    }

    fn from_json(json: &Json) -> (r: Result<TextMap<T>, ParseError>) {
        match json {
            Json::Object(o) => {
                broadcast use lemma_object_value;

                let ghost entries = o.deep_view();
                let mut out: TextMap<T> = TextMap::new();
                assert(entries.take(0) =~= Seq::empty() && out.deep_view() =~= Seq::empty());
                let n = o.len();
                for i in 0..n
                    invariant
                        n == o@.len(),
                        entries == o.deep_view(),
                        json@ == JsonValue::Object(entries),
                        decoded_entries::<T>(entries.take(i as int)) == Ok::<
                            Seq<(Seq<char>, T::V)>,
                            ParseErrorView,
                        >(out.deep_view()),
                {
                    assert(entries.take(i + 1).drop_last() =~= entries.take(i as int));
                    assert(entries.take(i + 1).last() == (o@[i as int].0, o@[i as int].1@));
                    match T::from_json(o.value_at(i)) {
                        Ok(v) => {
                            proof {
                                lemma_deepened_put(out@, o@[i as int].0, v);
                            }
                            out.insert(o.key_at(i).clone(), v);
                        },
                        Err(e) => {
                            proof {
                                assert(decoded_entries::<T>(entries.take(i + 1)) is Err);
                                lemma_entries_error_stays::<T>(entries, i + 1);
                            }
                            return Err(e);
                        },
                    }
                }
                assert(entries.take(o@.len() as int) =~= entries);
                Ok(out)
            },
            _ => Err(ParseError::InvalidJsonType("BTreeMap".to_string())),
        }
    }
}

impl<T: ToJson> ToJson for TextMap<T> {
    open spec fn encoded(v: Seq<(Seq<char>, T::V)>) -> JsonValue {
        JsonValue::Object(encoded_entries::<T>(v))
    }

    fn to_json(&self) -> (json: Json) {
        let mut out: TextMap<Json> = TextMap::new();
        proof {
            use_type_invariant(self);
        }
        let n = self.len();
        for i in 0..n
            invariant
                n == self@.len(),
                keys_ascend(self@),
                out@.len() == i,
                forall|k: int|
                    0 <= k < i ==> (#[trigger] out@[k]).0 == self@[k].0 && out@[k].1@
                        == T::encoded(self@[k].1.deep_view()),
        {
            let ghost before = out@;
            let key = self.key_at(i).clone();
            let value = self.value_at(i).to_json();
            proof {
                assert forall|k: int| 0 <= k < before.len() implies text_before(
                    (#[trigger] before[k]).0,
                    key@,
                ) by {
                    assert(text_before(self@[k].0, self@[i as int].0));
                }
                lemma_put_last(before, key@, value);
            }
            out.insert(key, value);
        }
        proof {
            assert(out.deep_view() =~= encoded_entries::<T>(self.deep_view()));
            lemma_object_value(out);
        }
        Json::Object(out)
    }
}

impl<T: JsonCodec> JsonCodec for TextMap<T> {
    open spec fn valid(v: Seq<(Seq<char>, T::V)>) -> bool {
        &&& keys_ascend(v)
        &&& forall|i: int| 0 <= i < v.len() ==> T::valid((#[trigger] v[i]).1)
    }

    proof fn round_trip(v: Seq<(Seq<char>, T::V)>) {
        lemma_entries_round_trip::<T>(v);
    }
}

impl<T: Duplicate> Duplicate for Option<T> {
    fn duplicate(&self) -> (r: Self) {
        match self {
            Some(v) => Some(v.duplicate()),
            None => None,
        }
    }
}

impl<T: ToJson> ToJson for Option<T> {
    /// Nothing is written as `null`.
    open spec fn encoded(v: Option<T::V>) -> JsonValue {
        match v {
            Some(x) => T::encoded(x),
            None => JsonValue::Null,
        }
    }

    fn to_json(&self) -> (json: Json) {
        match self {
            Some(v) => v.to_json(),
            None => Json::Null,
        }
    }
}

impl<T: Duplicate> Duplicate for Presence<T> {
    fn duplicate(&self) -> (r: Self) {
        match self {
            Presence::Present(v) => Presence::Present(v.duplicate()),
            Presence::Absent => Presence::Absent,
        }
    }
}

/// Types that are read from a named field of an object.
pub trait FromJsonField: Sized + DeepView {
    /// What the field is read as, given what the object holds under its
    /// name: a value, or nothing.
    spec fn field_decoded(found: Option<JsonValue>, field: Seq<char>) -> Result<
        Self::V,
        ParseErrorView,
    >;

    fn from_json_field(json: &TextMap<Json>, field: &str) -> (r: Result<Self, ParseError>)
        ensures
            result_view(r) == Self::field_decoded(lookup(json.deep_view(), field@), field@),
    ;
}

/// Types that are written to a named field of an object.
pub trait ToJsonField: DeepView {
    /// What is written under the field's name: a value, or nothing at all.
    spec fn field_encoded(v: Self::V) -> Option<JsonValue>;

    fn to_json_field(&self, json: &mut TextMap<Json>, field: &str)
        ensures
            final(json).deep_view() == put_slot(
                old(json).deep_view(),
                field@,
                Self::field_encoded(self.deep_view()),
            ),
    ;
}

/// Field types whose written form reads back as the value written.
pub trait FieldCodec: FromJsonField + ToJsonField {
    spec fn field_valid(v: Self::V) -> bool;

    /// Reading a field from what writing put (or did not put) under its
    /// name gives the value back.
    proof fn field_round_trip(v: Self::V, field: Seq<char>)
        requires
            Self::field_valid(v),
        ensures
            Self::field_decoded(Self::field_encoded(v), field) == Ok::<Self::V, ParseErrorView>(v),
    ;
}

/// The field `field` of the object `o`, read as an `F`.
pub open spec fn get_field<F: FromJsonField>(
    o: Seq<(Seq<char>, JsonValue)>,
    field: Seq<char>,
) -> Result<F::V, ParseErrorView> {
    F::field_decoded(lookup(o, field), field)
}

/// The object `o` after `v` was written to its field `field`.
pub open spec fn put_field<F: ToJsonField>(
    o: Seq<(Seq<char>, JsonValue)>,
    field: Seq<char>,
    v: F::V,
) -> Seq<(Seq<char>, JsonValue)> {
    put_slot(o, field, F::field_encoded(v))
}

/// Reads a required field: its value, or `MissingField` where the object
/// does not have it.
pub fn from_json_field<T: FromJson>(json: &TextMap<Json>, field: &str) -> (r: Result<
    T,
    ParseError,
>)
    ensures
        result_view(r) == match lookup(json.deep_view(), field@) {
            Some(j) => T::decoded(j),
            None => Err(ParseErrorView::MissingField(field@)),
        },
{
    proof {
        lemma_deepened_lookup(json@, field@);
    }
    match json.get(field) {
        Some(v) => T::from_json(v),
        None => Err(ParseError::MissingField(field.to_string())),
    }
}

/// Reads an optional field: `None` where the object does not have it or
/// holds `null` there.
pub fn from_json_field_opt<T: FromJson>(json: &TextMap<Json>, field: &str) -> (r: Result<
    Option<T>,
    ParseError,
>)
    ensures
        result_view(r) == match lookup(json.deep_view(), field@) {
            Some(JsonValue::Null) => Ok(None),
            Some(j) => match T::decoded(j) {
                Ok(v) => Ok(Some(v)),
                Err(e) => Err(e),
            },
            None => Ok(None),
        },
{
    proof {
        lemma_deepened_lookup(json@, field@);
    }
    match json.get(field) {
        Some(v) => match v {
            Json::Null => Ok(None),
            _ => match T::from_json(v) {
                Ok(vv) => Ok(Some(vv)),
                Err(e) => Err(e),
            },
        },
        None => Ok(None),
    }
}

/// Writes `v` under the name `field`.
pub fn to_json_field<T: ToJson>(json: &mut TextMap<Json>, field: &str, v: &T)
    ensures
        final(json).deep_view() == put(old(json).deep_view(), field@, T::encoded(v.deep_view())),
{
    let value = v.to_json();
    proof {
        lemma_deepened_put(json@, field@, value);
    }
    json.insert(field.to_string(), value);
}

/// Writes `v` under the name `field`, `None` as `null`.
pub fn to_json_field_opt<T: ToJson>(json: &mut TextMap<Json>, field: &str, v: &Option<T>)
    ensures
        final(json).deep_view() == put(
            old(json).deep_view(),
            field@,
            match v {
                Some(vv) => T::encoded(vv.deep_view()),
                None => JsonValue::Null,
            },
        ),
{
    let value = match v {
        Some(vv) => vv.to_json(),
        None => Json::Null,
    };
    proof {
        lemma_deepened_put(json@, field@, value);
    }
    json.insert(field.to_string(), value);
}

impl<T: FromJson> FromJsonField for T {
    /// A required field.
    open spec fn field_decoded(found: Option<JsonValue>, field: Seq<char>) -> Result<
        T::V,
        ParseErrorView,
    > {
        match found {
            Some(j) => T::decoded(j),
            None => Err(ParseErrorView::MissingField(field)),
        }
    }

    fn from_json_field(json: &TextMap<Json>, field: &str) -> (r: Result<T, ParseError>) {
        from_json_field(json, field)
    }
}

impl<T: FromJson> FromJsonField for Option<T> {
    /// A field that may be missing or `null`.
    open spec fn field_decoded(found: Option<JsonValue>, field: Seq<char>) -> Result<
        Option<T::V>,
        ParseErrorView,
    > {
        match found {
            Some(JsonValue::Null) => Ok(None),
            Some(j) => match T::decoded(j) {
                Ok(v) => Ok(Some(v)),
                Err(e) => Err(e),
            },
            None => Ok(None),
        }
    }

    fn from_json_field(json: &TextMap<Json>, field: &str) -> (r: Result<Option<T>, ParseError>) {
        from_json_field_opt(json, field)
    }
}

impl<T: FromJson> FromJsonField for Presence<T> {
    /// A field that may be left out.
    open spec fn field_decoded(found: Option<JsonValue>, field: Seq<char>) -> Result<
        Presence<T::V>,
        ParseErrorView,
    > {
        match found {
            Some(j) => match T::decoded(j) {
                Ok(v) => Ok(Presence::Present(v)),
                Err(e) => Err(e),
            },
            None => Ok(Presence::Absent),
        }
    }

    fn from_json_field(json: &TextMap<Json>, field: &str) -> (r: Result<Presence<T>, ParseError>) {
        proof {
            lemma_deepened_lookup(json@, field@);
        }
        match json.get(field) {
            Some(v) => match T::from_json(v) {
                Ok(j) => Ok(Presence::Present(j)),
                Err(e) => Err(e),
            },
            None => Ok(Presence::Absent),
        }
    }
}

impl<T: FromJson> FromJsonField for Presence<Option<T>> {
    /// A field that may be left out, and may be `null` where it is given.
    open spec fn field_decoded(found: Option<JsonValue>, field: Seq<char>) -> Result<
        Presence<Option<T::V>>,
        ParseErrorView,
    > {
        match found {
            Some(JsonValue::Null) => Ok(Presence::Present(None)),
            Some(j) => match T::decoded(j) {
                Ok(v) => Ok(Presence::Present(Some(v))),
                Err(e) => Err(e),
            },
            None => Ok(Presence::Absent),
        }
    }

    fn from_json_field(json: &TextMap<Json>, field: &str) -> (r: Result<
        Presence<Option<T>>,
        ParseError,
    >) {
        proof {
            lemma_deepened_lookup(json@, field@);
        }
        match json.get(field) {
            Some(v) => match v {
                Json::Null => Ok(Presence::Present(None)),
                _ => match T::from_json(v) {
                    Ok(j) => Ok(Presence::Present(Some(j))),
                    Err(e) => Err(e),
                },
            },
            None => Ok(Presence::Absent),
        }
    }
}

impl<T: ToJson> ToJsonField for T {
    /// The value is always written.
    open spec fn field_encoded(v: T::V) -> Option<JsonValue> {
        Some(T::encoded(v))
    }

    fn to_json_field(&self, json: &mut TextMap<Json>, field: &str) {
        reveal(put_slot);
        to_json_field(json, field, self)
    }
}

impl<T: ToJson> ToJsonField for Presence<T> {
    /// A field that is given is written under its name; for one that is left
    /// out the object gets no key at all.
    open spec fn field_encoded(v: Presence<T::V>) -> Option<JsonValue> {
        match v {
            Presence::Present(x) => Some(T::encoded(x)),
            Presence::Absent => None,
        }
    }

    fn to_json_field(&self, json: &mut TextMap<Json>, field: &str) {
        reveal(put_slot);
        if let Presence::Present(v) = self {
            to_json_field(json, field, v)
        }
    }
}

impl<T: JsonCodec> FieldCodec for T {
    open spec fn field_valid(v: T::V) -> bool {
        T::valid(v)
    }

    proof fn field_round_trip(v: T::V, field: Seq<char>) {
        T::round_trip(v);
    }
}

impl<T: JsonCodec> FieldCodec for Option<T> {
    open spec fn field_valid(v: Option<T::V>) -> bool {
        v matches Some(x) ==> T::valid(x)
    }

    proof fn field_round_trip(v: Option<T::V>, field: Seq<char>) {
        if let Some(x) = v {
            T::round_trip(x);
        }
    }
}

impl<T: JsonCodec> FieldCodec for Presence<T> {
    open spec fn field_valid(v: Presence<T::V>) -> bool {
        v matches Presence::Present(x) ==> T::valid(x)
    }

    proof fn field_round_trip(v: Presence<T::V>, field: Seq<char>) {
        if let Presence::Present(x) = v {
            T::round_trip(x);
        }
    }
}

impl<T: JsonCodec> FieldCodec for Presence<Option<T>> {
    open spec fn field_valid(v: Presence<Option<T::V>>) -> bool {
        v matches Presence::Present(Some(x)) ==> T::valid(x)
    }

    proof fn field_round_trip(v: Presence<Option<T::V>>, field: Seq<char>) {
        if let Presence::Present(Some(x)) = v {
            T::round_trip(x);
        }
    }
}

} // verus!
