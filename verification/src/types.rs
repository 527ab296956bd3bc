//! Value types that several record types share.

use crate::json::{lemma_lookup_put_slot, lemma_object_value, Json, JsonValue, TextMap};
use crate::parse::{
    get_field, put_field, Duplicate, FieldCodec, FromJson, FromJsonField, JsonCodec, ParseError,
    ParseErrorView, ToJson, ToJsonField,
};
use crate::record::field_of;
use vstd::prelude::*;

verus! {

/// Whether the calendar of the time library holds the instant that lies
/// `secs` seconds and `nanos` nanoseconds after the epoch.
pub uninterp spec fn instant_in_range(secs: i64, nanos: u32) -> bool;

/// The text that the time library writes for an instant: date and time in
/// UTC as `YYYY-MM-DDTHH:MM:SSZ`.
pub uninterp spec fn utc_text(secs: i64, nanos: u32) -> Seq<char>;

/// The instant that the time library reads from a text with date, time and
/// offset, if it reads one.
pub uninterp spec fn utc_instant(text: Seq<char>) -> Option<(i64, u32)>;

/// Whether the instant can be held.
///
/// Calls `chrono::DateTime::from_timestamp` and tells whether it gave a
/// value. The contract names that outcome, and states one instance of it
/// that the library's source shows: the epoch itself is in range.
#[verifier::external_body]
pub(crate) fn holds_instant(secs: i64, nanos: u32) -> (r: bool)
    ensures
        r == instant_in_range(secs, nanos),
        secs == 0 && nanos == 0 ==> r,
{
    chrono::DateTime::from_timestamp(secs, nanos).is_some()
}

/// Writes an instant as date and time in UTC.
///
/// Makes the value with `chrono::DateTime::from_timestamp` and calls its
/// `format` with `%Y-%m-%dT%H:%M:%SZ`. The contract names the text; what it
/// holds is not stated.
#[verifier::external_body]
fn write_utc(secs: i64, nanos: u32) -> (r: String)
    requires
        instant_in_range(secs, nanos),
    ensures
        r@ == utc_text(secs, nanos),
{
    let instant = chrono::DateTime::from_timestamp(secs, nanos).unwrap();
    instant.format("%Y-%m-%dT%H:%M:%SZ").to_string()
}

/// Reads date, time and offset from a text.
///
/// Calls the `FromStr` impl of `chrono::DateTime<Utc>` and hands out the
/// value as its `timestamp` and `timestamp_subsec_nanos`. The contract names
/// the outcome and states that an instant that was read is in range, as the
/// documentation of `from_timestamp` says of these two numbers.
#[verifier::external_body]
fn read_utc(text: &str) -> (r: Option<(i64, u32)>)
    ensures
        r == utc_instant(text@),
        r matches Some(t) ==> instant_in_range(t.0, t.1),
{
    match text.parse::<chrono::DateTime<chrono::Utc>>() {
        Ok(d) => Some((d.timestamp(), d.timestamp_subsec_nanos())),
        Err(_) => None,
    }
}

/// An instant in UTC, held as the seconds and nanoseconds since the epoch.
/// Every value is an instant that the time library can hold.
#[derive(Clone, Copy, Debug, PartialEq, Eq)]
pub struct Date {
    secs: i64,
    nanos: u32,
}

impl DeepView for Date {
    type V = Date;

    open spec fn deep_view(&self) -> Date {
        *self
    }
}

impl Date {
    #[verifier::type_invariant]
    pub closed spec fn in_range(self) -> bool {
        instant_in_range(self.secs, self.nanos)
    }

    /// The instant `secs` seconds and `nanos` nanoseconds after the epoch.
    pub closed spec fn at(secs: i64, nanos: u32) -> Date {
        Date { secs, nanos }
    }

    /// The whole seconds since the epoch.
    pub closed spec fn secs(self) -> i64 {
        self.secs
    }

    /// The nanoseconds since the last whole second.
    pub closed spec fn nanos(self) -> u32 {
        self.nanos
    }

    /// The epoch.
    pub open spec fn blank() -> Date {
        Date::at(0, 0)
    }

    /// A date is told by its seconds and nanoseconds.
    pub broadcast proof fn lemma_at(secs: i64, nanos: u32)
        ensures
            (#[trigger] Date::at(secs, nanos)).secs() == secs,
            Date::at(secs, nanos).nanos() == nanos,
    {
    }

    /// A date is the instant of its seconds and nanoseconds.
    pub broadcast proof fn lemma_parts(self)
        ensures
            Date::at(#[trigger] self.secs(), self.nanos()) == self,
    {
    }

    /// The instant, if the time library can hold it.
    pub fn from_timestamp(secs: i64, nanos: u32) -> (r: Option<Date>)
        ensures
            r == if instant_in_range(secs, nanos) {
                Some(Date::at(secs, nanos))
            } else {
                None
            },
            secs == 0 && nanos == 0 ==> r is Some,
    {
        if holds_instant(secs, nanos) {
            Some(Date { secs, nanos })
        } else {
            None
        }
    }

    pub fn timestamp(&self) -> (r: i64)
        ensures
            r == self.secs(),
    {
        self.secs
    }

    pub fn timestamp_subsec_nanos(&self) -> (r: u32)
        ensures
            r == self.nanos(),
    {
        self.nanos
    }
}

impl Default for Date {
    fn default() -> (r: Self)
        ensures
            r == Date::blank(),
    {
        match Date::from_timestamp(0, 0) {
            Some(epoch) => epoch,
            None => unreached(),
        }
    }
}

impl Duplicate for Date {
    fn duplicate(&self) -> (r: Self) {
        *self
    }
}

impl FromJson for Date {
    open spec fn decoded(json: JsonValue) -> Result<Date, ParseErrorView> {
        match json {
            JsonValue::String(s) => match utc_instant(s) {
                Some(t) => Ok(Date::at(t.0, t.1)),
                None => Err(ParseErrorView::InvalidStructure("Date"@)),
            },
            _ => Err(ParseErrorView::InvalidJsonType("Date"@)),
        }
    }

    fn from_json(json: &Json) -> (r: Result<Date, ParseError>) {
        match json {
            Json::String(v) => match read_utc(v.as_str()) {
                Some(t) => Ok(Date { secs: t.0, nanos: t.1 }),
                None => Err(ParseError::InvalidStructure("Date".to_string())),
            },
            _ => Err(ParseError::InvalidJsonType("Date".to_string())),
        }
    }
}

impl ToJson for Date {
    open spec fn encoded(v: Date) -> JsonValue {
        JsonValue::String(utc_text(v.secs(), v.nanos()))
    }

    fn to_json(&self) -> (json: Json) {
        proof {
            use_type_invariant(self);
        }
        Json::String(write_utc(self.secs, self.nanos))
    }
}

impl JsonCodec for Date {
    /// The dates that the time library reads back from what it writes for
    /// them.
    open spec fn valid(v: Date) -> bool {
        utc_instant(utc_text(v.secs(), v.nanos())) == Some((v.secs(), v.nanos()))
    }

    proof fn round_trip(v: Date) {
        broadcast use Date::lemma_parts;

    }
}

/// A file held by the server, named by the id of its blob.
#[derive(Clone, Debug, PartialEq)]
pub struct File {
    blob_id: String,
    typ: Option<String>,
    name: Option<String>,
    size: Option<u64>,
}

/// A value of [`File`] in contracts.
pub ghost struct FileView {
    pub blob_id: Seq<char>,
    pub typ: Option<Seq<char>>,
    pub name: Option<Seq<char>>,
    pub size: Option<u64>,
}

impl DeepView for File {
    type V = FileView;

    closed spec fn deep_view(&self) -> FileView {
        FileView {
            blob_id: self.blob_id.deep_view(),
            typ: self.typ.deep_view(),
            name: self.name.deep_view(),
            size: self.size.deep_view(),
        }
    }
}

impl File {
    /// The default value: every field at the default of its type.
    pub open spec fn blank() -> FileView {
        FileView {
            blob_id: Seq::<char>::empty(),
            typ: None,
            name: None,
            size: None,
        }
    }
}

impl Default for File {
    fn default() -> (r: Self)
        ensures
            r.deep_view() == Self::blank(),
    {
        let blob_id: String = String::new();
        let typ: Option<String> = None;
        let name: Option<String> = None;
        let size: Option<u64> = None;
        File { blob_id, typ, name, size }
    }
}

impl File {
    /// What tells the wire names of this type apart: the length of each, and
    /// for
    /// names of one length a character in which they differ.
    pub proof fn lemma_wire_names()
        ensures
            "blobId"@.len() == 6,
            "type"@.len() == 4,
            "name"@.len() == 4,
            "size"@.len() == 4,
            "type"@[0] == 't',
            "name"@[0] == 'n',
            "size"@[0] == 's',
    {
        reveal_strlit("blobId");
        reveal_strlit("type");
        reveal_strlit("name");
        reveal_strlit("size");
    }
}

impl Duplicate for File {
    fn duplicate(&self) -> (r: Self) {
        let blob_id = self.blob_id.duplicate();
        let typ = self.typ.duplicate();
        let name = self.name.duplicate();
        let size = self.size.duplicate();
        File { blob_id, typ, name, size }
    }
}

impl ToJson for File {
    /// An object with one key for each field.
    open spec fn encoded(v: FileView) -> JsonValue {
        let o = Seq::empty();
        let o = put_field::<String>(o, "blobId"@, v.blob_id);
        let o = put_field::<Option<String>>(o, "type"@, v.typ);
        let o = put_field::<Option<String>>(o, "name"@, v.name);
        let o = put_field::<Option<u64>>(o, "size"@, v.size);
        JsonValue::Object(o)
    }

    fn to_json(&self) -> (json: Json) {
        let mut d: TextMap<Json> = TextMap::new();
        assert(d.deep_view() =~= Seq::empty());
        self.blob_id.to_json_field(&mut d, "blobId");
        self.typ.to_json_field(&mut d, "type");
        self.name.to_json_field(&mut d, "name");
        self.size.to_json_field(&mut d, "size");
        proof {
            lemma_object_value(d);
        }
        Json::Object(d)
    }
}

impl FromJson for File {
    /// The fields are read in the order in which they are declared; the
    /// first that fails gives the error.
    open spec fn decoded(json: JsonValue) -> Result<FileView, ParseErrorView> {
        match json {
            JsonValue::Object(o) => {
                let blob_id = get_field::<String>(o, "blobId"@);
                let typ = get_field::<Option<String>>(o, "type"@);
                let name = get_field::<Option<String>>(o, "name"@);
                let size = get_field::<Option<u64>>(o, "size"@);
                if blob_id is Err {
                    Err(blob_id->Err_0)
                } else if typ is Err {
                    Err(typ->Err_0)
                } else if name is Err {
                    Err(name->Err_0)
                } else if size is Err {
                    Err(size->Err_0)
                } else {
                    Ok(
                        FileView {
                            blob_id: blob_id->Ok_0,
                            typ: typ->Ok_0,
                            name: name->Ok_0,
                            size: size->Ok_0,
                        },
                    )
                }
            },
            _ => Err(ParseErrorView::InvalidJsonType("File"@)),
        }
    }

    fn from_json(json: &Json) -> (r: Result<Self, ParseError>) {
        match json {
            Json::Object(o) => {
                proof {
                    lemma_object_value(*o);
                }
                let blob_id = match <String as FromJsonField>::from_json_field(o, "blobId") {
                    Ok(v) => v,
                    Err(e) => return Err(e),
                };
                let typ = match <Option<String> as FromJsonField>::from_json_field(o, "type") {
                    Ok(v) => v,
                    Err(e) => return Err(e),
                };
                let name = match <Option<String> as FromJsonField>::from_json_field(o, "name") {
                    Ok(v) => v,
                    Err(e) => return Err(e),
                };
                let size = match <Option<u64> as FromJsonField>::from_json_field(o, "size") {
                    Ok(v) => v,
                    Err(e) => return Err(e),
                };
                Ok(File { blob_id, typ, name, size })
            },
            _ => Err(ParseError::InvalidJsonType("File".to_string())),
        }
    }
}

impl JsonCodec for File {
    open spec fn valid(v: FileView) -> bool {
        &&& <String as FieldCodec>::field_valid(v.blob_id)
        &&& <Option<String> as FieldCodec>::field_valid(v.typ)
        &&& <Option<String> as FieldCodec>::field_valid(v.name)
        &&& <Option<u64> as FieldCodec>::field_valid(v.size)
    }

    proof fn round_trip(v: FileView) {
        let o = Self::encoded(v)->Object_0;
        Self::lemma_wire_names();
        assert(get_field::<String>(o, "blobId"@) == Ok::<Seq<char>, ParseErrorView>(v.blob_id)) by {
            Self::lemma_slots(v, "blobId"@);
            <String as FieldCodec>::field_round_trip(v.blob_id, "blobId"@);
        }
        assert(get_field::<Option<String>>(o, "type"@) == Ok::<
            Option<Seq<char>>,
            ParseErrorView,
        >(v.typ)) by {
            Self::lemma_slots(v, "type"@);
            <Option<String> as FieldCodec>::field_round_trip(v.typ, "type"@);
        }
        assert(get_field::<Option<String>>(o, "name"@) == Ok::<
            Option<Seq<char>>,
            ParseErrorView,
        >(v.name)) by {
            Self::lemma_slots(v, "name"@);
            <Option<String> as FieldCodec>::field_round_trip(v.name, "name"@);
        }
        assert(get_field::<Option<u64>>(o, "size"@) == Ok::<
            Option<u64>,
            ParseErrorView,
        >(v.size)) by {
            Self::lemma_slots(v, "size"@);
            <Option<u64> as FieldCodec>::field_round_trip(v.size, "size"@);
        }
    }
}

impl File {
    /// What the written form of `v` holds under `name`.
    pub open spec fn slot(v: FileView, name: Seq<char>) -> Option<JsonValue> {
        if name == "blobId"@ {
            <String as ToJsonField>::field_encoded(v.blob_id)
        } else if name == "type"@ {
            <Option<String> as ToJsonField>::field_encoded(v.typ)
        } else if name == "name"@ {
            <Option<String> as ToJsonField>::field_encoded(v.name)
        } else if name == "size"@ {
            <Option<u64> as ToJsonField>::field_encoded(v.size)
        } else {
            None
        }
    }

    /// The written form holds each field under its wire name and nothing
    /// under any other name.
    pub proof fn lemma_slots(v: FileView, name: Seq<char>)
        ensures
            field_of(Self::encoded(v), name) == Self::slot(v, name),
    {
        Self::lemma_wire_names();
        if name == "blobId"@ {
            assert(field_of(Self::encoded(v), name) == Self::slot(v, name)) by {
                broadcast use lemma_lookup_put_slot;

            }
        } else if name == "type"@ {
            assert(field_of(Self::encoded(v), name) == Self::slot(v, name)) by {
                broadcast use lemma_lookup_put_slot;

            }
        } else if name == "name"@ {
            assert(field_of(Self::encoded(v), name) == Self::slot(v, name)) by {
                broadcast use lemma_lookup_put_slot;

            }
        } else if name == "size"@ {
            assert(field_of(Self::encoded(v), name) == Self::slot(v, name)) by {
                broadcast use lemma_lookup_put_slot;

            }
        } else {
            assert(field_of(Self::encoded(v), name) is None) by {
                broadcast use lemma_lookup_put_slot;

            }
        }
    }
}

} // verus!
