//! Contacts, and the dates and typed pieces of information that they hold.

use crate::json::{lemma_lookup_put_slot, lemma_object_value, Json, JsonValue, TextMap};
use crate::parse::{
    get_field, put_field, Duplicate, FieldCodec, FromJson, FromJsonField, JsonCodec, ParseError,
    ParseErrorView, Presence, ToJson, ToJsonField,
};
use crate::record::{
    chosen, copy_asked, copy_patched, field_of, is_fresh_id, new_id, PartialRecord, Record,
};
use crate::text::{
    all_digits, digits_value, fixed_digits, is_digit, lemma_digits_value_grows, lemma_fixed_digits,
    push_fixed_digits, same_text, ten_to, to_chars,
};
use crate::types::{File, FileView};
use vstd::prelude::*;

verus! {

/// A date of which any part may be unknown. On the wire it is `YYYY-MM-DD`
/// with zeros for an unknown part.
#[derive(Clone, Copy, Debug, PartialEq)]
pub struct OptionDate {
    pub y: Option<u16>,
    pub m: Option<u8>,
    pub d: Option<u8>,
}

impl DeepView for OptionDate {
    type V = OptionDate;

    open spec fn deep_view(&self) -> OptionDate {
        *self
    }
}

/// The year `y` as text: at least four digits.
pub open spec fn year_text(y: nat) -> Seq<char> {
    if y < 10000 {
        fixed_digits(y, 4)
    } else {
        fixed_digits(y, 5)
    }
}

/// The month or day `n` as text: at least two digits.
pub open spec fn part_text(n: nat) -> Seq<char> {
    if n < 100 {
        fixed_digits(n, 2)
    } else {
        fixed_digits(n, 3)
    }
}

/// The number of characters of `s` in front of its first hyphen; the length
/// of `s` where it has none.
pub open spec fn first_hyphen(s: Seq<char>) -> nat
    decreases s.len(),
{
    if s.len() == 0 || s[0] == '-' {
        0
    } else {
        1 + first_hyphen(s.drop_first())
    }
}

/// The pieces of `s` between its hyphens, in order.
pub open spec fn hyphen_parts(s: Seq<char>) -> Seq<Seq<char>>
    decreases s.len(),
{
    let i = first_hyphen(s) as int;
    if i < s.len() {
        seq![s.take(i)] + hyphen_parts(s.skip(i + 1))
    } else {
        seq![s]
    }
}

/// What `s` is read as by the standard parser of unsigned decimal numbers:
/// an optional `+`, then one digit or more, with a value in range.
pub open spec fn parsed_u16(s: Seq<char>) -> Option<u16> {
    let digits = if s.len() > 0 && s[0] == '+' {
        s.skip(1)
    } else {
        s
    };
    if digits.len() > 0 && all_digits(digits) && digits_value(digits) <= u16::MAX {
        Some(digits_value(digits) as u16)
    } else {
        None
    }
}

/// A part of a date: zero stands for unknown.
pub open spec fn known_part(n: u16) -> Option<u16> {
    if n == 0 {
        None
    } else {
        Some(n)
    }
}

/// The date that `s` writes: three numbers between hyphens, the month at
/// most 12 and the day at most 31.
pub open spec fn date_of_text(s: Seq<char>) -> Option<OptionDate> {
    let parts = hyphen_parts(s);
    if parts.len() == 3 && parsed_u16(parts[0]) is Some && parsed_u16(parts[1]) is Some
        && parsed_u16(parts[2]) is Some && parsed_u16(parts[1])->0 <= 12 && parsed_u16(
        parts[2],
    )->0 <= 31 {
        Some(
            OptionDate {
                y: known_part(parsed_u16(parts[0])->0),
                m: match known_part(parsed_u16(parts[1])->0) {
                    Some(n) => Some(n as u8),
                    None => None,
                },
                d: match known_part(parsed_u16(parts[2])->0) {
                    Some(n) => Some(n as u8),
                    None => None,
                },
            },
        )
    } else {
        None
    }
}

proof fn lemma_first_hyphen(s: Seq<char>, i: int)
    requires
        0 <= i <= s.len(),
        forall|k: int| 0 <= k < i ==> s[k] != '-',
        i < s.len() ==> s[i] == '-',
    ensures
        first_hyphen(s) == i,
    decreases s.len(),
{
    if i > 0 {
        lemma_first_hyphen(s.drop_first(), i - 1);
    }
}

proof fn lemma_parts_not_empty(s: Seq<char>)
    ensures
        hyphen_parts(s).len() >= 1,
{
}

proof fn lemma_digits_no_hyphen(s: Seq<char>)
    requires
        all_digits(s),
    ensures
        first_hyphen(s) == s.len(),
{
    assert forall|k: int| 0 <= k < s.len() implies s[k] != '-' by {
        assert(is_digit(s[k]));
    }
    lemma_first_hyphen(s, s.len() as int);
}

proof fn lemma_parts_joined(a: Seq<char>, rest: Seq<char>)
    requires
        all_digits(a),
    ensures
        hyphen_parts(a + seq!['-'] + rest) == seq![a] + hyphen_parts(rest),
{
    let s = a + seq!['-'] + rest;
    assert forall|k: int| 0 <= k < a.len() implies s[k] != '-' by {
        assert(is_digit(a[k]));
    }
    lemma_first_hyphen(s, a.len() as int);
    assert(s.take(a.len() as int) =~= a);
    assert(s.skip(a.len() as int + 1) =~= rest);
}

proof fn lemma_parsed_fixed_digits(n: nat, width: nat)
    requires
        0 < width,
        n < ten_to(width),
        n <= u16::MAX,
    ensures
        parsed_u16(fixed_digits(n, width)) == Some(n as u16),
{
    lemma_fixed_digits(n, width);
    assert(is_digit(fixed_digits(n, width)[0]));
}

impl OptionDate {
    /// The date as text: year, month and day with hyphens between them, an
    /// unknown part as zero.
    pub open spec fn text(self) -> Seq<char> {
        year_text(
            match self.y {
                Some(n) => n as nat,
                None => 0,
            },
        ) + seq!['-'] + part_text(
            match self.m {
                Some(n) => n as nat,
                None => 0,
            },
        ) + seq!['-'] + part_text(
            match self.d {
                Some(n) => n as nat,
                None => 0,
            },
        )
    }

    /// The value that `Default` gives: every part unknown.
    pub open spec fn blank() -> OptionDate {
        OptionDate { y: None, m: None, d: None }
    }

    pub fn to_string(&self) -> (r: String)
        ensures
            r@ == self.text(),
    {
        let y: u32 = match self.y {
            Some(n) => n as u32,
            None => 0,
        };
        let m: u32 = match self.m {
            Some(n) => n as u32,
            None => 0,
        };
        let d: u32 = match self.d {
            Some(n) => n as u32,
            None => 0,
        };
        proof {
            reveal_strlit("-");
        }
        let mut out = String::new();
        push_fixed_digits(
            &mut out,
            y,
            if y < 10000 {
                4
            } else {
                5
            },
        );
        out.append("-");
        push_fixed_digits(
            &mut out,
            m,
            if m < 100 {
                2
            } else {
                3
            },
        );
        out.append("-");
        push_fixed_digits(
            &mut out,
            d,
            if d < 100 {
                2
            } else {
                3
            },
        );
        assert("-"@ =~= seq!['-']);
        assert(out@ =~= self.text());
        out
    }
}

impl Default for OptionDate {
    fn default() -> (r: Self)
        ensures
            r == Self::blank(),
    {
        OptionDate { y: None, m: None, d: None }
    }
}

impl Duplicate for OptionDate {
    fn duplicate(&self) -> (r: Self) {
        *self
    }
}

/// Reads the characters from `from` up to `to` as an unsigned number.
fn parse_number(chars: &Vec<char>, from: usize, to: usize) -> (r: Option<u16>)
    requires
        from <= to <= chars.len(),
    ensures
        r == parsed_u16(chars@.subrange(from as int, to as int)),
{
    let ghost piece = chars@.subrange(from as int, to as int);
    let mut i = from;
    if i < to && chars[i] == '+' {
        i += 1;
    }
    let first = i;
    let ghost digits = chars@.subrange(first as int, to as int);
    assert(digits =~= if piece.len() > 0 && piece[0] == '+' {
        piece.skip(1)
    } else {
        piece
    });
    if first == to {
        return None;
    }
    let mut value: u32 = 0;
    assert(digits.take(0) =~= Seq::empty());
    while i < to
        invariant
            from <= first <= i <= to <= chars.len(),
            first < to,
            piece == chars@.subrange(from as int, to as int),
            digits == chars@.subrange(first as int, to as int),
            digits == if piece.len() > 0 && piece[0] == '+' {
                piece.skip(1)
            } else {
                piece
            },
            all_digits(digits.take(i - first)),
            value == digits_value(digits.take(i - first)),
            value <= u16::MAX,
        decreases to - i,
    {
        let c = chars[i];
        assert(c == digits[i - first]);
        if !(c >= '0' && c <= '9') {
            assert(!is_digit(digits[i - first]));
            return None;
        }
        let step = value * 10 + (c as u32 - '0' as u32);
        proof {
            assert(digits.take(i - first + 1).drop_last() =~= digits.take(i - first));
            assert(digits.take(i - first + 1).last() == c);
            assert(step == digits_value(digits.take(i - first + 1)));
            assert forall|k: int| 0 <= k < i - first + 1 implies is_digit(
                #[trigger] digits.take(i - first + 1)[k],
            ) by {
                if k < i - first {
                    assert(is_digit(digits.take(i - first)[k]));
                }
            }
        }
        if step > 65535 {
            proof {
                lemma_digits_value_grows(digits, i - first + 1);
            }
            return None;
        }
        value = step;
        i += 1;
    }
    assert(digits.take(to - first) =~= digits);
    Some(value as u16)
}

impl FromJson for OptionDate {
    open spec fn decoded(json: JsonValue) -> Result<OptionDate, ParseErrorView> {
        match json {
            JsonValue::String(s) => match date_of_text(s) {
                Some(date) => Ok(date),
                None => Err(ParseErrorView::InvalidStructure("OptionDate"@)),
            },
            _ => Err(ParseErrorView::InvalidJsonType("OptionDate"@)),
        }
    }

    fn from_json(json: &Json) -> (r: Result<OptionDate, ParseError>) {
        match json {
            Json::String(v) => {
                let chars = to_chars(v.as_str());
                let ghost s = v@;
                let mut numbers: Vec<u16> = Vec::new();
                let ghost mut pieces: Seq<Seq<char>> = Seq::empty();
                let mut start: usize = 0;
                let mut i: usize = 0;
                assert(s.skip(0) =~= s);
                assert(pieces + hyphen_parts(s) =~= hyphen_parts(s));
                while i < chars.len()
                    invariant
                        chars@ == s,
                        json@ == JsonValue::String(s),
                        start <= i <= chars.len(),
                        forall|k: int| start <= k < i ==> s[k] != '-',
                        hyphen_parts(s) == pieces + hyphen_parts(s.skip(start as int)),
                        numbers.len() == pieces.len(),
                        numbers.len() <= 2,
                        forall|k: int|
                            0 <= k < pieces.len() ==> parsed_u16(#[trigger] pieces[k]) == Some(
                                numbers[k],
                            ),
                    decreases chars.len() - i,
                {
                    if chars[i] == '-' {
                        let ghost rest = s.skip(start as int);
                        proof {
                            lemma_first_hyphen(rest, i - start);
                            assert(rest.take(i - start) =~= s.subrange(start as int, i as int));
                            assert(rest.skip(i - start + 1) =~= s.skip(i + 1));
                            assert(hyphen_parts(s) =~= pieces.push(
                                s.subrange(start as int, i as int),
                            ) + hyphen_parts(s.skip(i + 1)));
                        }
                        let n = match parse_number(&chars, start, i) {
                            Some(n) => n,
                            None => {
                                assert(hyphen_parts(s)[pieces.len() as int] == s.subrange(
                                    start as int,
                                    i as int,
                                ));
                                return Err(ParseError::InvalidStructure("OptionDate".to_string()));
                            },
                        };
                        if numbers.len() == 2 {
                            proof {
                                lemma_parts_not_empty(s.skip(i + 1));
                            }
                            assert(hyphen_parts(s).len() >= 4);
                            return Err(ParseError::InvalidStructure("OptionDate".to_string()));
                        }
                        numbers.push(n);
                        proof {
                            pieces = pieces.push(s.subrange(start as int, i as int));
                        }
                        start = i + 1;
                    }
                    i += 1;
                }
                let ghost rest = s.skip(start as int);
                proof {
                    lemma_first_hyphen(rest, rest.len() as int);
                    assert(rest =~= s.subrange(start as int, s.len() as int));
                    assert(hyphen_parts(s) =~= pieces.push(rest));
                }
                let last = match parse_number(&chars, start, chars.len()) {
                    Some(n) => n,
                    None => {
                        assert(hyphen_parts(s)[pieces.len() as int] == rest);
                        return Err(ParseError::InvalidStructure("OptionDate".to_string()));
                    },
                };
                if numbers.len() != 2 {
                    return Err(ParseError::InvalidStructure("OptionDate".to_string()));
                }
                assert(hyphen_parts(s)[0] == pieces[0] && hyphen_parts(s)[1] == pieces[1]
                    && hyphen_parts(s)[2] == rest);
                let month = numbers[1];
                if month > 12 || last > 31 {
                    return Err(ParseError::InvalidStructure("OptionDate".to_string()));
                }
                Ok(
                    OptionDate {
                        y: if numbers[0] == 0 {
                            None
                        } else {
                            Some(numbers[0])
                        },
                        m: if month == 0 {
                            None
                        } else {
                            Some(month as u8)
                        },
                        d: if last == 0 {
                            None
                        } else {
                            Some(last as u8)
                        },
                    },
                )
            },
            _ => Err(ParseError::InvalidJsonType("OptionDate".to_string())),
        }
    }
}

impl ToJson for OptionDate {
    open spec fn encoded(v: OptionDate) -> JsonValue {
        JsonValue::String(v.text())
    }

    fn to_json(&self) -> (json: Json) {
        Json::String(self.to_string())
    }
}

impl JsonCodec for OptionDate {
    /// A part that is known is not zero, a month is at most 12 and a day at
    /// most 31.
    open spec fn valid(v: OptionDate) -> bool {
        &&& v.y matches Some(n) ==> n != 0
        &&& v.m matches Some(n) ==> 1 <= n <= 12
        &&& v.d matches Some(n) ==> 1 <= n <= 31
    }

    proof fn round_trip(v: OptionDate) {
        let y: nat = match v.y {
            Some(n) => n as nat,
            None => 0,
        };
        let m: nat = match v.m {
            Some(n) => n as nat,
            None => 0,
        };
        let d: nat = match v.d {
            Some(n) => n as nat,
            None => 0,
        };
        reveal_with_fuel(ten_to, 6);
        lemma_fixed_digits(y, 4);
        lemma_fixed_digits(y, 5);
        lemma_fixed_digits(m, 2);
        lemma_fixed_digits(d, 2);
        if y < 10000 {
            lemma_parsed_fixed_digits(y, 4);
        } else {
            lemma_parsed_fixed_digits(y, 5);
        }
        lemma_parsed_fixed_digits(m, 2);
        lemma_parsed_fixed_digits(d, 2);
        let tail = part_text(m) + seq!['-'] + part_text(d);
        assert(v.text() =~= year_text(y) + seq!['-'] + tail);
        lemma_parts_joined(year_text(y), tail);
        lemma_parts_joined(part_text(m), part_text(d));
        lemma_digits_no_hyphen(part_text(d));
        assert(hyphen_parts(v.text()) =~= seq![year_text(y), part_text(m), part_text(d)]);
    }
}

/// What tells the kinds of contact information apart: one type of tokens
/// for each kind, with a default token.
pub trait ContactType: JsonCodec + Duplicate + Default {
    /// The default token.
    spec fn default_view() -> Self::V;

    fn default_type() -> (r: Self)
        ensures
            r.deep_view() == Self::default_view(),
    ;
}

/// The kind of an e-mail address.
#[derive(Clone, Copy, Debug, PartialEq, Eq)]
pub enum EmailType {
    Personal,
    Work,
    Other,
}

impl DeepView for EmailType {
    type V = EmailType;

    open spec fn deep_view(&self) -> EmailType {
        *self
    }
}

impl EmailType {
    /// The token that stands for the value on the wire.
    pub open spec fn token(self) -> Seq<char> {
        match self {
            EmailType::Personal => "personal"@,
            EmailType::Work => "work"@,
            EmailType::Other => "other"@,
        }
    }

    /// The value that the token `s` stands for, if it is a token.
    pub open spec fn of_token(s: Seq<char>) -> Option<EmailType> {
        if s == "personal"@ {
            Some(EmailType::Personal)
        } else if s == "work"@ {
            Some(EmailType::Work)
        } else if s == "other"@ {
            Some(EmailType::Other)
        } else {
            None
        }
    }

    /// What tells the tokens apart: the length of each, and for tokens of
    /// one length a character in which they differ.
    pub proof fn lemma_tokens()
        ensures
            "personal"@.len() == 8,
            "work"@.len() == 4,
            "other"@.len() == 5,
    {
        reveal_strlit("personal");
        reveal_strlit("work");
        reveal_strlit("other");
    }

    pub fn to_string(&self) -> (r: String)
        ensures
            r@ == self.token(),
    {
        match self {
            EmailType::Personal => "personal".to_string(),
            EmailType::Work => "work".to_string(),
            EmailType::Other => "other".to_string(),
        }
    }
}

impl Default for EmailType {
    fn default() -> (r: Self)
        ensures
            r == EmailType::Other,
    {
        EmailType::Other
    }
}

impl Duplicate for EmailType {
    fn duplicate(&self) -> (r: Self) {
        *self
    }
}

impl ToJson for EmailType {
    open spec fn encoded(v: EmailType) -> JsonValue {
        JsonValue::String(v.token())
    }

    fn to_json(&self) -> (json: Json) {
        Json::String(self.to_string())
    }
}

impl FromJson for EmailType {
    open spec fn decoded(json: JsonValue) -> Result<EmailType, ParseErrorView> {
        match json {
            JsonValue::String(s) => match Self::of_token(s) {
                Some(v) => Ok(v),
                None => Err(ParseErrorView::InvalidStructure("EmailType"@)),
            },
            _ => Err(ParseErrorView::InvalidJsonType("EmailType"@)),
        }
    }

    fn from_json(json: &Json) -> (r: Result<EmailType, ParseError>) {
        match json {
            Json::String(v) => {
                if same_text(v.as_str(), "personal") {
                    Ok(EmailType::Personal)
                } else if same_text(v.as_str(), "work") {
                    Ok(EmailType::Work)
                } else if same_text(v.as_str(), "other") {
                    Ok(EmailType::Other)
                } else {
                    Err(ParseError::InvalidStructure("EmailType".to_string()))
                }
            },
            _ => Err(ParseError::InvalidJsonType("EmailType".to_string())),
        }
    }
}

impl JsonCodec for EmailType {
    open spec fn valid(v: EmailType) -> bool {
        true
    }

    proof fn round_trip(v: EmailType) {
        Self::lemma_tokens();
    }
}

impl ContactType for EmailType {
    open spec fn default_view() -> EmailType {
        EmailType::Other
    }

    fn default_type() -> (r: Self) {
        EmailType::Other
    }
}

/// The kind of a phone number.
#[derive(Clone, Copy, Debug, PartialEq, Eq)]
pub enum PhoneType {
    Home,
    Work,
    Mobile,
    Fax,
    Pager,
    Other,
}

impl DeepView for PhoneType {
    type V = PhoneType;

    open spec fn deep_view(&self) -> PhoneType {
        *self
    }
}

impl PhoneType {
    /// The token that stands for the value on the wire.
    pub open spec fn token(self) -> Seq<char> {
        match self {
            PhoneType::Home => "home"@,
            PhoneType::Work => "work"@,
            PhoneType::Mobile => "mobile"@,
            PhoneType::Fax => "fax"@,
            PhoneType::Pager => "pager"@,
            PhoneType::Other => "other"@,
        }
    }

    /// The value that the token `s` stands for, if it is a token.
    pub open spec fn of_token(s: Seq<char>) -> Option<PhoneType> {
        if s == "home"@ {
            Some(PhoneType::Home)
        } else if s == "work"@ {
            Some(PhoneType::Work)
        } else if s == "mobile"@ {
            Some(PhoneType::Mobile)
        } else if s == "fax"@ {
            Some(PhoneType::Fax)
        } else if s == "pager"@ {
            Some(PhoneType::Pager)
        } else if s == "other"@ {
            Some(PhoneType::Other)
        } else {
            None
        }
    }

    /// What tells the tokens apart: the length of each, and for tokens of
    /// one length a character in which they differ.
    pub proof fn lemma_tokens()
        ensures
            "home"@.len() == 4,
            "work"@.len() == 4,
            "mobile"@.len() == 6,
            "fax"@.len() == 3,
            "pager"@.len() == 5,
            "other"@.len() == 5,
            "home"@[0] == 'h',
            "work"@[0] == 'w',
            "pager"@[0] == 'p',
            "other"@[0] == 'o',
    {
        reveal_strlit("home");
        reveal_strlit("work");
        reveal_strlit("mobile");
        reveal_strlit("fax");
        reveal_strlit("pager");
        reveal_strlit("other");
    }

    pub fn to_string(&self) -> (r: String)
        ensures
            r@ == self.token(),
    {
        match self {
            PhoneType::Home => "home".to_string(),
            PhoneType::Work => "work".to_string(),
            PhoneType::Mobile => "mobile".to_string(),
            PhoneType::Fax => "fax".to_string(),
            PhoneType::Pager => "pager".to_string(),
            PhoneType::Other => "other".to_string(),
        }
    }
}

impl Default for PhoneType {
    fn default() -> (r: Self)
        ensures
            r == PhoneType::Other,
    {
        PhoneType::Other
    }
}

impl Duplicate for PhoneType {
    fn duplicate(&self) -> (r: Self) {
        *self
    }
}

impl ToJson for PhoneType {
    open spec fn encoded(v: PhoneType) -> JsonValue {
        JsonValue::String(v.token())
    }

    fn to_json(&self) -> (json: Json) {
        Json::String(self.to_string())
    }
}

impl FromJson for PhoneType {
    open spec fn decoded(json: JsonValue) -> Result<PhoneType, ParseErrorView> {
        match json {
            JsonValue::String(s) => match Self::of_token(s) {
                Some(v) => Ok(v),
                None => Err(ParseErrorView::InvalidStructure("PhoneType"@)),
            },
            _ => Err(ParseErrorView::InvalidJsonType("PhoneType"@)),
        }
    }

    fn from_json(json: &Json) -> (r: Result<PhoneType, ParseError>) {
        match json {
            Json::String(v) => {
                if same_text(v.as_str(), "home") {
                    Ok(PhoneType::Home)
                } else if same_text(v.as_str(), "work") {
                    Ok(PhoneType::Work)
                } else if same_text(v.as_str(), "mobile") {
                    Ok(PhoneType::Mobile)
                } else if same_text(v.as_str(), "fax") {
                    Ok(PhoneType::Fax)
                } else if same_text(v.as_str(), "pager") {
                    Ok(PhoneType::Pager)
                } else if same_text(v.as_str(), "other") {
                    Ok(PhoneType::Other)
                } else {
                    Err(ParseError::InvalidStructure("PhoneType".to_string()))
                }
            },
            _ => Err(ParseError::InvalidJsonType("PhoneType".to_string())),
        }
    }
}

impl JsonCodec for PhoneType {
    open spec fn valid(v: PhoneType) -> bool {
        true
    }

    proof fn round_trip(v: PhoneType) {
        Self::lemma_tokens();
    }
}

impl ContactType for PhoneType {
    open spec fn default_view() -> PhoneType {
        PhoneType::Other
    }

    fn default_type() -> (r: Self) {
        PhoneType::Other
    }
}

/// The kind of an online identity.
#[derive(Clone, Copy, Debug, PartialEq, Eq)]
pub enum OnlineType {
    Uri,
    Username,
    Other,
}

impl DeepView for OnlineType {
    type V = OnlineType;

    open spec fn deep_view(&self) -> OnlineType {
        *self
    }
}

impl OnlineType {
    /// The token that stands for the value on the wire.
    pub open spec fn token(self) -> Seq<char> {
        match self {
            OnlineType::Uri => "uri"@,
            OnlineType::Username => "username"@,
            OnlineType::Other => "other"@,
        }
    }

    /// The value that the token `s` stands for, if it is a token.
    pub open spec fn of_token(s: Seq<char>) -> Option<OnlineType> {
        if s == "uri"@ {
            Some(OnlineType::Uri)
        } else if s == "username"@ {
            Some(OnlineType::Username)
        } else if s == "other"@ {
            Some(OnlineType::Other)
        } else {
            None
        }
    }

    /// What tells the tokens apart: the length of each, and for tokens of
    /// one length a character in which they differ.
    pub proof fn lemma_tokens()
        ensures
            "uri"@.len() == 3,
            "username"@.len() == 8,
            "other"@.len() == 5,
    {
        reveal_strlit("uri");
        reveal_strlit("username");
        reveal_strlit("other");
    }

    pub fn to_string(&self) -> (r: String)
        ensures
            r@ == self.token(),
    {
        match self {
            OnlineType::Uri => "uri".to_string(),
            OnlineType::Username => "username".to_string(),
            OnlineType::Other => "other".to_string(),
        }
    }
}

impl Default for OnlineType {
    fn default() -> (r: Self)
        ensures
            r == OnlineType::Other,
    {
        OnlineType::Other
    }
}

impl Duplicate for OnlineType {
    fn duplicate(&self) -> (r: Self) {
        *self
    }
}

impl ToJson for OnlineType {
    open spec fn encoded(v: OnlineType) -> JsonValue {
        JsonValue::String(v.token())
    }

    fn to_json(&self) -> (json: Json) {
        Json::String(self.to_string())
    }
}

impl FromJson for OnlineType {
    open spec fn decoded(json: JsonValue) -> Result<OnlineType, ParseErrorView> {
        match json {
            JsonValue::String(s) => match Self::of_token(s) {
                Some(v) => Ok(v),
                None => Err(ParseErrorView::InvalidStructure("OnlineType"@)),
            },
            _ => Err(ParseErrorView::InvalidJsonType("OnlineType"@)),
        }
    }

    fn from_json(json: &Json) -> (r: Result<OnlineType, ParseError>) {
        match json {
            Json::String(v) => {
                if same_text(v.as_str(), "uri") {
                    Ok(OnlineType::Uri)
                } else if same_text(v.as_str(), "username") {
                    Ok(OnlineType::Username)
                } else if same_text(v.as_str(), "other") {
                    Ok(OnlineType::Other)
                } else {
                    Err(ParseError::InvalidStructure("OnlineType".to_string()))
                }
            },
            _ => Err(ParseError::InvalidJsonType("OnlineType".to_string())),
        }
    }
}

impl JsonCodec for OnlineType {
    open spec fn valid(v: OnlineType) -> bool {
        true
    }

    proof fn round_trip(v: OnlineType) {
        Self::lemma_tokens();
    }
}

impl ContactType for OnlineType {
    open spec fn default_view() -> OnlineType {
        OnlineType::Other
    }

    fn default_type() -> (r: Self) {
        OnlineType::Other
    }
}

/// The kind of a postal address.
#[derive(Clone, Copy, Debug, PartialEq, Eq)]
pub enum AddressType {
    Home,
    Work,
    Billing,
    Postal,
    Other,
}

impl DeepView for AddressType {
    type V = AddressType;

    open spec fn deep_view(&self) -> AddressType {
        *self
    }
}

impl AddressType {
    /// The token that stands for the value on the wire.
    pub open spec fn token(self) -> Seq<char> {
        match self {
            AddressType::Home => "home"@,
            AddressType::Work => "work"@,
            AddressType::Billing => "billing"@,
            AddressType::Postal => "postal"@,
            AddressType::Other => "other"@,
        }
    }

    /// The value that the token `s` stands for, if it is a token.
    pub open spec fn of_token(s: Seq<char>) -> Option<AddressType> {
        if s == "home"@ {
            Some(AddressType::Home)
        } else if s == "work"@ {
            Some(AddressType::Work)
        } else if s == "billing"@ {
            Some(AddressType::Billing)
        } else if s == "postal"@ {
            Some(AddressType::Postal)
        } else if s == "other"@ {
            Some(AddressType::Other)
        } else {
            None
        }
    }

    /// What tells the tokens apart: the length of each, and for tokens of
    /// one length a character in which they differ.
    pub proof fn lemma_tokens()
        ensures
            "home"@.len() == 4,
            "work"@.len() == 4,
            "billing"@.len() == 7,
            "postal"@.len() == 6,
            "other"@.len() == 5,
            "home"@[0] == 'h',
            "work"@[0] == 'w',
    {
        reveal_strlit("home");
        reveal_strlit("work");
        reveal_strlit("billing");
        reveal_strlit("postal");
        reveal_strlit("other");
    }

    pub fn to_string(&self) -> (r: String)
        ensures
            r@ == self.token(),
    {
        match self {
            AddressType::Home => "home".to_string(),
            AddressType::Work => "work".to_string(),
            AddressType::Billing => "billing".to_string(),
            AddressType::Postal => "postal".to_string(),
            AddressType::Other => "other".to_string(),
        }
    }
}

impl Default for AddressType {
    fn default() -> (r: Self)
        ensures
            r == AddressType::Other,
    {
        AddressType::Other
    }
}

impl Duplicate for AddressType {
    fn duplicate(&self) -> (r: Self) {
        *self
    }
}

impl ToJson for AddressType {
    open spec fn encoded(v: AddressType) -> JsonValue {
        JsonValue::String(v.token())
    }

    fn to_json(&self) -> (json: Json) {
        Json::String(self.to_string())
    }
}

impl FromJson for AddressType {
    open spec fn decoded(json: JsonValue) -> Result<AddressType, ParseErrorView> {
        match json {
            JsonValue::String(s) => match Self::of_token(s) {
                Some(v) => Ok(v),
                None => Err(ParseErrorView::InvalidStructure("AddressType"@)),
            },
            _ => Err(ParseErrorView::InvalidJsonType("AddressType"@)),
        }
    }

    fn from_json(json: &Json) -> (r: Result<AddressType, ParseError>) {
        match json {
            Json::String(v) => {
                if same_text(v.as_str(), "home") {
                    Ok(AddressType::Home)
                } else if same_text(v.as_str(), "work") {
                    Ok(AddressType::Work)
                } else if same_text(v.as_str(), "billing") {
                    Ok(AddressType::Billing)
                } else if same_text(v.as_str(), "postal") {
                    Ok(AddressType::Postal)
                } else if same_text(v.as_str(), "other") {
                    Ok(AddressType::Other)
                } else {
                    Err(ParseError::InvalidStructure("AddressType".to_string()))
                }
            },
            _ => Err(ParseError::InvalidJsonType("AddressType".to_string())),
        }
    }
}

impl JsonCodec for AddressType {
    open spec fn valid(v: AddressType) -> bool {
        true
    }

    proof fn round_trip(v: AddressType) {
        Self::lemma_tokens();
    }
}

impl ContactType for AddressType {
    open spec fn default_view() -> AddressType {
        AddressType::Other
    }

    fn default_type() -> (r: Self) {
        AddressType::Other
    }
}

/// One way to reach a contact: an address or a number of the kind `T`.
#[derive(Clone, Debug, PartialEq)]
pub struct ContactInformation<T: ContactType> {
    pub typ: T,
    pub value: String,
    pub label: Option<String>,
    pub is_default: bool,
}

/// A value of [`ContactInformation`] in contracts.
pub ghost struct ContactInformationView<T: ContactType> {
    pub typ: T::V,
    pub value: Seq<char>,
    pub label: Option<Seq<char>>,
    pub is_default: bool,
}

impl<T: ContactType> DeepView for ContactInformation<T> {
    type V = ContactInformationView<T>;

    open spec fn deep_view(&self) -> ContactInformationView<T> {
        ContactInformationView {
            typ: self.typ.deep_view(),
            value: self.value.deep_view(),
            label: self.label.deep_view(),
            is_default: self.is_default.deep_view(),
        }
    }
}

impl<T: ContactType> ContactInformation<T> {
    /// The default value: every field at the default of its type.
    pub open spec fn blank() -> ContactInformationView<T> {
        ContactInformationView {
            typ: T::default_view(),
            value: Seq::<char>::empty(),
            label: None,
            is_default: false,
        }
    }
}

impl<T: ContactType> Default for ContactInformation<T> {
    fn default() -> (r: Self)
        ensures
            r.deep_view() == Self::blank(),
    {
        let typ: T = T::default_type();
        let value: String = String::new();
        let label: Option<String> = None;
        let is_default: bool = false;
        ContactInformation { typ, value, label, is_default }
    }
}

impl<T: ContactType> ContactInformation<T> {
    /// What tells the wire names of this type apart: the length of each, and
    /// for
    /// names of one length a character in which they differ.
    pub proof fn lemma_wire_names()
        ensures
            "type"@.len() == 4,
            "value"@.len() == 5,
            "label"@.len() == 5,
            "isDefault"@.len() == 9,
            "value"@[0] == 'v',
            "label"@[0] == 'l',
    {
        reveal_strlit("type");
        reveal_strlit("value");
        reveal_strlit("label");
        reveal_strlit("isDefault");
    }
}

impl<T: ContactType> Duplicate for ContactInformation<T> {
    fn duplicate(&self) -> (r: Self) {
        let typ = self.typ.duplicate();
        let value = self.value.duplicate();
        let label = self.label.duplicate();
        let is_default = self.is_default.duplicate();
        ContactInformation { typ, value, label, is_default }
    }
}

impl<T: ContactType> ToJson for ContactInformation<T> {
    /// An object with one key for each field.
    open spec fn encoded(v: ContactInformationView<T>) -> JsonValue {
        let o = Seq::empty();
        let o = put_field::<T>(o, "type"@, v.typ);
        let o = put_field::<String>(o, "value"@, v.value);
        let o = put_field::<Option<String>>(o, "label"@, v.label);
        let o = put_field::<bool>(o, "isDefault"@, v.is_default);
        JsonValue::Object(o)
    }

    fn to_json(&self) -> (json: Json) {
        let mut d: TextMap<Json> = TextMap::new();
        assert(d.deep_view() =~= Seq::empty());
        self.typ.to_json_field(&mut d, "type");
        self.value.to_json_field(&mut d, "value");
        self.label.to_json_field(&mut d, "label");
        self.is_default.to_json_field(&mut d, "isDefault");
        proof {
            lemma_object_value(d);
        }
        Json::Object(d)
    }
}

impl<T: ContactType> FromJson for ContactInformation<T> {
    /// The fields are read in the order in which they are declared; the
    /// first that fails gives the error.
    open spec fn decoded(json: JsonValue) -> Result<ContactInformationView<T>, ParseErrorView> {
        match json {
            JsonValue::Object(o) => {
                let typ = get_field::<T>(o, "type"@);
                let value = get_field::<String>(o, "value"@);
                let label = get_field::<Option<String>>(o, "label"@);
                let is_default = get_field::<bool>(o, "isDefault"@);
                if typ is Err {
                    Err(typ->Err_0)
                } else if value is Err {
                    Err(value->Err_0)
                } else if label is Err {
                    Err(label->Err_0)
                } else if is_default is Err {
                    Err(is_default->Err_0)
                } else {
                    Ok(
                        ContactInformationView {
                            typ: typ->Ok_0,
                            value: value->Ok_0,
                            label: label->Ok_0,
                            is_default: is_default->Ok_0,
                        },
                    )
                }
            },
            _ => Err(ParseErrorView::InvalidJsonType("ContactInformation"@)),
        }
    }

    fn from_json(json: &Json) -> (r: Result<Self, ParseError>) {
        match json {
            Json::Object(o) => {
                proof {
                    lemma_object_value(*o);
                }
                let typ = match <T as FromJsonField>::from_json_field(o, "type") {
                    Ok(v) => v,
                    Err(e) => return Err(e),
                };
                let value = match <String as FromJsonField>::from_json_field(o, "value") {
                    Ok(v) => v,
                    Err(e) => return Err(e),
                };
                let label = match <Option<String> as FromJsonField>::from_json_field(o, "label") {
                    Ok(v) => v,
                    Err(e) => return Err(e),
                };
                let is_default = match <bool as FromJsonField>::from_json_field(o, "isDefault") {
                    Ok(v) => v,
                    Err(e) => return Err(e),
                };
                Ok(ContactInformation { typ, value, label, is_default })
            },
            _ => Err(ParseError::InvalidJsonType("ContactInformation".to_string())),
        }
    }
}

impl<T: ContactType> JsonCodec for ContactInformation<T> {
    open spec fn valid(v: ContactInformationView<T>) -> bool {
        &&& <T as FieldCodec>::field_valid(v.typ)
        &&& <String as FieldCodec>::field_valid(v.value)
        &&& <Option<String> as FieldCodec>::field_valid(v.label)
        &&& <bool as FieldCodec>::field_valid(v.is_default)
    }

    proof fn round_trip(v: ContactInformationView<T>) {
        let o = Self::encoded(v)->Object_0;
        Self::lemma_wire_names();
        assert(get_field::<T>(o, "type"@) == Ok::<T::V, ParseErrorView>(v.typ)) by {
            Self::lemma_slots(v, "type"@);
            <T as FieldCodec>::field_round_trip(v.typ, "type"@);
        }
        assert(get_field::<String>(o, "value"@) == Ok::<Seq<char>, ParseErrorView>(v.value)) by {
            Self::lemma_slots(v, "value"@);
            <String as FieldCodec>::field_round_trip(v.value, "value"@);
        }
        assert(get_field::<Option<String>>(o, "label"@) == Ok::<
            Option<Seq<char>>,
            ParseErrorView,
        >(v.label)) by {
            Self::lemma_slots(v, "label"@);
            <Option<String> as FieldCodec>::field_round_trip(v.label, "label"@);
        }
        assert(get_field::<bool>(o, "isDefault"@) == Ok::<bool, ParseErrorView>(v.is_default)) by {
            Self::lemma_slots(v, "isDefault"@);
            <bool as FieldCodec>::field_round_trip(v.is_default, "isDefault"@);
        }
    }
}

impl<T: ContactType> ContactInformation<T> {
    /// What the written form of `v` holds under `name`.
    pub open spec fn slot(v: ContactInformationView<T>, name: Seq<char>) -> Option<JsonValue> {
        if name == "type"@ {
            <T as ToJsonField>::field_encoded(v.typ)
        } else if name == "value"@ {
            <String as ToJsonField>::field_encoded(v.value)
        } else if name == "label"@ {
            <Option<String> as ToJsonField>::field_encoded(v.label)
        } else if name == "isDefault"@ {
            <bool as ToJsonField>::field_encoded(v.is_default)
        } else {
            None
        }
    }

    /// The written form holds each field under its wire name and nothing
    /// under any other name.
    pub proof fn lemma_slots(v: ContactInformationView<T>, name: Seq<char>)
        ensures
            field_of(Self::encoded(v), name) == Self::slot(v, name),
    {
        Self::lemma_wire_names();
        if name == "type"@ {
            assert(field_of(Self::encoded(v), name) == Self::slot(v, name)) by {
                broadcast use lemma_lookup_put_slot;

            }
        } else if name == "value"@ {
            assert(field_of(Self::encoded(v), name) == Self::slot(v, name)) by {
                broadcast use lemma_lookup_put_slot;

            }
        } else if name == "label"@ {
            assert(field_of(Self::encoded(v), name) == Self::slot(v, name)) by {
                broadcast use lemma_lookup_put_slot;

            }
        } else if name == "isDefault"@ {
            assert(field_of(Self::encoded(v), name) == Self::slot(v, name)) by {
                broadcast use lemma_lookup_put_slot;

            }
        } else {
            assert(field_of(Self::encoded(v), name) is None) by {
                broadcast use lemma_lookup_put_slot;

            }
        }
    }
}

/// A postal address.
#[derive(Clone, Debug, PartialEq)]
pub struct Address {
    typ: AddressType,
    label: Option<String>,
    street: String,
    locality: String,
    region: String,
    postcode: String,
    country: String,
    is_default: String,
}

/// A value of [`Address`] in contracts.
pub ghost struct AddressView {
    pub typ: AddressType,
    pub label: Option<Seq<char>>,
    pub street: Seq<char>,
    pub locality: Seq<char>,
    pub region: Seq<char>,
    pub postcode: Seq<char>,
    pub country: Seq<char>,
    pub is_default: Seq<char>,
}

impl DeepView for Address {
    type V = AddressView;

    closed spec fn deep_view(&self) -> AddressView {
        AddressView {
            typ: self.typ.deep_view(),
            label: self.label.deep_view(),
            street: self.street.deep_view(),
            locality: self.locality.deep_view(),
            region: self.region.deep_view(),
            postcode: self.postcode.deep_view(),
            country: self.country.deep_view(),
            is_default: self.is_default.deep_view(),
        }
    }
}

impl Address {
    /// The default value: every field at the default of its type.
    pub open spec fn blank() -> AddressView {
        AddressView {
            typ: AddressType::Other,
            label: None,
            street: Seq::<char>::empty(),
            locality: Seq::<char>::empty(),
            region: Seq::<char>::empty(),
            postcode: Seq::<char>::empty(),
            country: Seq::<char>::empty(),
            is_default: Seq::<char>::empty(),
        }
    }
}

impl Default for Address {
    fn default() -> (r: Self)
        ensures
            r.deep_view() == Self::blank(),
    {
        let typ: AddressType = AddressType::default();
        let label: Option<String> = None;
        let street: String = String::new();
        let locality: String = String::new();
        let region: String = String::new();
        let postcode: String = String::new();
        let country: String = String::new();
        let is_default: String = String::new();
        Address { typ, label, street, locality, region, postcode, country, is_default }
    }
}

impl Address {
    /// What tells the wire names of this type apart: the length of each, and
    /// for
    /// names of one length a character in which they differ.
    pub proof fn lemma_wire_names()
        ensures
            "type"@.len() == 4,
            "label"@.len() == 5,
            "street"@.len() == 6,
            "locality"@.len() == 8,
            "region"@.len() == 6,
            "postcode"@.len() == 8,
            "country"@.len() == 7,
            "isDefault"@.len() == 9,
            "street"@[0] == 's',
            "region"@[0] == 'r',
            "locality"@[0] == 'l',
            "postcode"@[0] == 'p',
    {
        reveal_strlit("type");
        reveal_strlit("label");
        reveal_strlit("street");
        reveal_strlit("locality");
        reveal_strlit("region");
        reveal_strlit("postcode");
        reveal_strlit("country");
        reveal_strlit("isDefault");
    }
}

impl Duplicate for Address {
    fn duplicate(&self) -> (r: Self) {
        let typ = self.typ.duplicate();
        let label = self.label.duplicate();
        let street = self.street.duplicate();
        let locality = self.locality.duplicate();
        let region = self.region.duplicate();
        let postcode = self.postcode.duplicate();
        let country = self.country.duplicate();
        let is_default = self.is_default.duplicate();
        Address { typ, label, street, locality, region, postcode, country, is_default }
    }
}

impl ToJson for Address {
    /// An object with one key for each field.
    open spec fn encoded(v: AddressView) -> JsonValue {
        let o = Seq::empty();
        let o = put_field::<AddressType>(o, "type"@, v.typ);
        let o = put_field::<Option<String>>(o, "label"@, v.label);
        let o = put_field::<String>(o, "street"@, v.street);
        let o = put_field::<String>(o, "locality"@, v.locality);
        let o = put_field::<String>(o, "region"@, v.region);
        let o = put_field::<String>(o, "postcode"@, v.postcode);
        let o = put_field::<String>(o, "country"@, v.country);
        let o = put_field::<String>(o, "isDefault"@, v.is_default);
        JsonValue::Object(o)
    }

    fn to_json(&self) -> (json: Json) {
        let mut d: TextMap<Json> = TextMap::new();
        assert(d.deep_view() =~= Seq::empty());
        self.typ.to_json_field(&mut d, "type");
        self.label.to_json_field(&mut d, "label");
        self.street.to_json_field(&mut d, "street");
        self.locality.to_json_field(&mut d, "locality");
        self.region.to_json_field(&mut d, "region");
        self.postcode.to_json_field(&mut d, "postcode");
        self.country.to_json_field(&mut d, "country");
        self.is_default.to_json_field(&mut d, "isDefault");
        proof {
            lemma_object_value(d);
        }
        Json::Object(d)
    }
}

impl FromJson for Address {
    /// The fields are read in the order in which they are declared; the
    /// first that fails gives the error.
    open spec fn decoded(json: JsonValue) -> Result<AddressView, ParseErrorView> {
        match json {
            JsonValue::Object(o) => {
                let typ = get_field::<AddressType>(o, "type"@);
                let label = get_field::<Option<String>>(o, "label"@);
                let street = get_field::<String>(o, "street"@);
                let locality = get_field::<String>(o, "locality"@);
                let region = get_field::<String>(o, "region"@);
                let postcode = get_field::<String>(o, "postcode"@);
                let country = get_field::<String>(o, "country"@);
                let is_default = get_field::<String>(o, "isDefault"@);
                if typ is Err {
                    Err(typ->Err_0)
                } else if label is Err {
                    Err(label->Err_0)
                } else if street is Err {
                    Err(street->Err_0)
                } else if locality is Err {
                    Err(locality->Err_0)
                } else if region is Err {
                    Err(region->Err_0)
                } else if postcode is Err {
                    Err(postcode->Err_0)
                } else if country is Err {
                    Err(country->Err_0)
                } else if is_default is Err {
                    Err(is_default->Err_0)
                } else {
                    Ok(
                        AddressView {
                            typ: typ->Ok_0,
                            label: label->Ok_0,
                            street: street->Ok_0,
                            locality: locality->Ok_0,
                            region: region->Ok_0,
                            postcode: postcode->Ok_0,
                            country: country->Ok_0,
                            is_default: is_default->Ok_0,
                        },
                    )
                }
            },
            _ => Err(ParseErrorView::InvalidJsonType("Address"@)),
        }
    }

    fn from_json(json: &Json) -> (r: Result<Self, ParseError>) {
        match json {
            Json::Object(o) => {
                proof {
                    lemma_object_value(*o);
                }
                let typ = match <AddressType as FromJsonField>::from_json_field(o, "type") {
                    Ok(v) => v,
                    Err(e) => return Err(e),
                };
                let label = match <Option<String> as FromJsonField>::from_json_field(o, "label") {
                    Ok(v) => v,
                    Err(e) => return Err(e),
                };
                let street = match <String as FromJsonField>::from_json_field(o, "street") {
                    Ok(v) => v,
                    Err(e) => return Err(e),
                };
                let locality = match <String as FromJsonField>::from_json_field(o, "locality") {
                    Ok(v) => v,
                    Err(e) => return Err(e),
                };
                let region = match <String as FromJsonField>::from_json_field(o, "region") {
                    Ok(v) => v,
                    Err(e) => return Err(e),
                };
                let postcode = match <String as FromJsonField>::from_json_field(o, "postcode") {
                    Ok(v) => v,
                    Err(e) => return Err(e),
                };
                let country = match <String as FromJsonField>::from_json_field(o, "country") {
                    Ok(v) => v,
                    Err(e) => return Err(e),
                };
                let is_default = match <String as FromJsonField>::from_json_field(o, "isDefault") {
                    Ok(v) => v,
                    Err(e) => return Err(e),
                };
                Ok(Address { typ, label, street, locality, region, postcode, country, is_default })
            },
            _ => Err(ParseError::InvalidJsonType("Address".to_string())),
        }
    }
}

impl JsonCodec for Address {
    open spec fn valid(v: AddressView) -> bool {
        &&& <AddressType as FieldCodec>::field_valid(v.typ)
        &&& <Option<String> as FieldCodec>::field_valid(v.label)
        &&& <String as FieldCodec>::field_valid(v.street)
        &&& <String as FieldCodec>::field_valid(v.locality)
        &&& <String as FieldCodec>::field_valid(v.region)
        &&& <String as FieldCodec>::field_valid(v.postcode)
        &&& <String as FieldCodec>::field_valid(v.country)
        &&& <String as FieldCodec>::field_valid(v.is_default)
    }

    proof fn round_trip(v: AddressView) {
        let o = Self::encoded(v)->Object_0;
        Self::lemma_wire_names();
        assert(get_field::<AddressType>(o, "type"@) == Ok::<
            AddressType,
            ParseErrorView,
        >(v.typ)) by {
            Self::lemma_slots(v, "type"@);
            <AddressType as FieldCodec>::field_round_trip(v.typ, "type"@);
        }
        assert(get_field::<Option<String>>(o, "label"@) == Ok::<
            Option<Seq<char>>,
            ParseErrorView,
        >(v.label)) by {
            Self::lemma_slots(v, "label"@);
            <Option<String> as FieldCodec>::field_round_trip(v.label, "label"@);
        }
        assert(get_field::<String>(o, "street"@) == Ok::<Seq<char>, ParseErrorView>(v.street)) by {
            Self::lemma_slots(v, "street"@);
            <String as FieldCodec>::field_round_trip(v.street, "street"@);
        }
        assert(get_field::<String>(o, "locality"@) == Ok::<
            Seq<char>,
            ParseErrorView,
        >(v.locality)) by {
            Self::lemma_slots(v, "locality"@);
            <String as FieldCodec>::field_round_trip(v.locality, "locality"@);
        }
        assert(get_field::<String>(o, "region"@) == Ok::<Seq<char>, ParseErrorView>(v.region)) by {
            Self::lemma_slots(v, "region"@);
            <String as FieldCodec>::field_round_trip(v.region, "region"@);
        }
        assert(get_field::<String>(o, "postcode"@) == Ok::<
            Seq<char>,
            ParseErrorView,
        >(v.postcode)) by {
            Self::lemma_slots(v, "postcode"@);
            <String as FieldCodec>::field_round_trip(v.postcode, "postcode"@);
        }
        assert(get_field::<String>(o, "country"@) == Ok::<
            Seq<char>,
            ParseErrorView,
        >(v.country)) by {
            Self::lemma_slots(v, "country"@);
            <String as FieldCodec>::field_round_trip(v.country, "country"@);
        }
        assert(get_field::<String>(o, "isDefault"@) == Ok::<
            Seq<char>,
            ParseErrorView,
        >(v.is_default)) by {
            Self::lemma_slots(v, "isDefault"@);
            <String as FieldCodec>::field_round_trip(v.is_default, "isDefault"@);
        }
    }
}

impl Address {
    /// What the written form of `v` holds under `name`.
    pub open spec fn slot(v: AddressView, name: Seq<char>) -> Option<JsonValue> {
        if name == "type"@ {
            <AddressType as ToJsonField>::field_encoded(v.typ)
        } else if name == "label"@ {
            <Option<String> as ToJsonField>::field_encoded(v.label)
        } else if name == "street"@ {
            <String as ToJsonField>::field_encoded(v.street)
        } else if name == "locality"@ {
            <String as ToJsonField>::field_encoded(v.locality)
        } else if name == "region"@ {
            <String as ToJsonField>::field_encoded(v.region)
        } else if name == "postcode"@ {
            <String as ToJsonField>::field_encoded(v.postcode)
        } else if name == "country"@ {
            <String as ToJsonField>::field_encoded(v.country)
        } else if name == "isDefault"@ {
            <String as ToJsonField>::field_encoded(v.is_default)
        } else {
            None
        }
    }

    /// The written form holds each field under its wire name and nothing
    /// under any other name.
    pub proof fn lemma_slots(v: AddressView, name: Seq<char>)
        ensures
            field_of(Self::encoded(v), name) == Self::slot(v, name),
    {
        Self::lemma_wire_names();
        if name == "type"@ {
            assert(field_of(Self::encoded(v), name) == Self::slot(v, name)) by {
                broadcast use lemma_lookup_put_slot;

            }
        } else if name == "label"@ {
            assert(field_of(Self::encoded(v), name) == Self::slot(v, name)) by {
                broadcast use lemma_lookup_put_slot;

            }
        } else if name == "street"@ {
            assert(field_of(Self::encoded(v), name) == Self::slot(v, name)) by {
                broadcast use lemma_lookup_put_slot;

            }
        } else if name == "locality"@ {
            assert(field_of(Self::encoded(v), name) == Self::slot(v, name)) by {
                broadcast use lemma_lookup_put_slot;

            }
        } else if name == "region"@ {
            assert(field_of(Self::encoded(v), name) == Self::slot(v, name)) by {
                broadcast use lemma_lookup_put_slot;

            }
        } else if name == "postcode"@ {
            assert(field_of(Self::encoded(v), name) == Self::slot(v, name)) by {
                broadcast use lemma_lookup_put_slot;

            }
        } else if name == "country"@ {
            assert(field_of(Self::encoded(v), name) == Self::slot(v, name)) by {
                broadcast use lemma_lookup_put_slot;

            }
        } else if name == "isDefault"@ {
            assert(field_of(Self::encoded(v), name) == Self::slot(v, name)) by {
                broadcast use lemma_lookup_put_slot;

            }
        } else {
            assert(field_of(Self::encoded(v), name) is None) by {
                broadcast use lemma_lookup_put_slot;

            }
        }
    }
}

/// A contact.
#[derive(Clone, Debug, PartialEq)]
pub struct Contact {
    id: String,
    is_flagged: bool,
    avatar: Option<File>,
    prefix: String,
    first_name: String,
    last_name: String,
    suffix: String,
    nickname: String,
    birthday: OptionDate,
    anniversary: OptionDate,
    company: String,
    department: String,
    job_title: String,
    emails: Vec<ContactInformation<EmailType>>,
    phones: Vec<ContactInformation<PhoneType>>,
    online: Vec<ContactInformation<OnlineType>>,
    addresses: Vec<Address>,
    notes: String,
}

/// A value of [`Contact`] in contracts.
pub ghost struct ContactView {
    pub id: Seq<char>,
    pub is_flagged: bool,
    pub avatar: Option<FileView>,
    pub prefix: Seq<char>,
    pub first_name: Seq<char>,
    pub last_name: Seq<char>,
    pub suffix: Seq<char>,
    pub nickname: Seq<char>,
    pub birthday: OptionDate,
    pub anniversary: OptionDate,
    pub company: Seq<char>,
    pub department: Seq<char>,
    pub job_title: Seq<char>,
    pub emails: Seq<ContactInformationView<EmailType>>,
    pub phones: Seq<ContactInformationView<PhoneType>>,
    pub online: Seq<ContactInformationView<OnlineType>>,
    pub addresses: Seq<AddressView>,
    pub notes: Seq<char>,
}

impl DeepView for Contact {
    type V = ContactView;

    closed spec fn deep_view(&self) -> ContactView {
        ContactView {
            id: self.id.deep_view(),
            is_flagged: self.is_flagged.deep_view(),
            avatar: self.avatar.deep_view(),
            prefix: self.prefix.deep_view(),
            first_name: self.first_name.deep_view(),
            last_name: self.last_name.deep_view(),
            suffix: self.suffix.deep_view(),
            nickname: self.nickname.deep_view(),
            birthday: self.birthday.deep_view(),
            anniversary: self.anniversary.deep_view(),
            company: self.company.deep_view(),
            department: self.department.deep_view(),
            job_title: self.job_title.deep_view(),
            emails: self.emails.deep_view(),
            phones: self.phones.deep_view(),
            online: self.online.deep_view(),
            addresses: self.addresses.deep_view(),
            notes: self.notes.deep_view(),
        }
    }
}

impl Contact {
    /// The record with the id `id` and every other field at the default of
    /// its type.
    pub open spec fn blank(id: Seq<char>) -> ContactView {
        ContactView {
            id,
            is_flagged: false,
            avatar: None,
            prefix: Seq::<char>::empty(),
            first_name: Seq::<char>::empty(),
            last_name: Seq::<char>::empty(),
            suffix: Seq::<char>::empty(),
            nickname: Seq::<char>::empty(),
            birthday: OptionDate::blank(),
            anniversary: OptionDate::blank(),
            company: Seq::<char>::empty(),
            department: Seq::<char>::empty(),
            job_title: Seq::<char>::empty(),
            emails: Seq::empty(),
            phones: Seq::empty(),
            online: Seq::empty(),
            addresses: Seq::empty(),
            notes: Seq::<char>::empty(),
        }
    }

    /// What tells the wire names of the record apart: the length of each, and
    /// for
    /// names of one length a character in which they differ.
    pub proof fn lemma_wire_names()
        ensures
            "id"@.len() == 2,
            "isFlagged"@.len() == 9,
            "avatar"@.len() == 6,
            "prefix"@.len() == 6,
            "firstName"@.len() == 9,
            "lastName"@.len() == 8,
            "suffix"@.len() == 6,
            "nickname"@.len() == 8,
            "birthday"@.len() == 8,
            "anniversary"@.len() == 11,
            "company"@.len() == 7,
            "department"@.len() == 10,
            "jobTitle"@.len() == 8,
            "emails"@.len() == 6,
            "phones"@.len() == 6,
            "online"@.len() == 6,
            "addresses"@.len() == 9,
            "notes"@.len() == 5,
            "avatar"@[1] == 'v',
            "prefix"@[1] == 'r',
            "suffix"@[1] == 'u',
            "emails"@[1] == 'm',
            "phones"@[1] == 'h',
            "online"@[1] == 'n',
            "lastName"@[0] == 'l',
            "nickname"@[0] == 'n',
            "birthday"@[0] == 'b',
            "jobTitle"@[0] == 'j',
            "isFlagged"@[0] == 'i',
            "firstName"@[0] == 'f',
            "addresses"@[0] == 'a',
    {
        reveal_strlit("id");
        reveal_strlit("isFlagged");
        reveal_strlit("avatar");
        reveal_strlit("prefix");
        reveal_strlit("firstName");
        reveal_strlit("lastName");
        reveal_strlit("suffix");
        reveal_strlit("nickname");
        reveal_strlit("birthday");
        reveal_strlit("anniversary");
        reveal_strlit("company");
        reveal_strlit("department");
        reveal_strlit("jobTitle");
        reveal_strlit("emails");
        reveal_strlit("phones");
        reveal_strlit("online");
        reveal_strlit("addresses");
        reveal_strlit("notes");
    }
}

impl Default for Contact {
    /// A record with a fresh id.
    fn default() -> (r: Self)
        ensures
            is_fresh_id(r.deep_view().id),
            r.deep_view() == Self::blank(r.deep_view().id),
    {
        let r = Contact {
            id: new_id(),
            is_flagged: false,
            avatar: None,
            prefix: String::new(),
            first_name: String::new(),
            last_name: String::new(),
            suffix: String::new(),
            nickname: String::new(),
            birthday: OptionDate::default(),
            anniversary: OptionDate::default(),
            company: String::new(),
            department: String::new(),
            job_title: String::new(),
            emails: Vec::new(),
            phones: Vec::new(),
            online: Vec::new(),
            addresses: Vec::new(),
            notes: String::new(),
        };
        assert(r.emails.deep_view() =~= Seq::empty());
        assert(r.phones.deep_view() =~= Seq::empty());
        assert(r.online.deep_view() =~= Seq::empty());
        assert(r.addresses.deep_view() =~= Seq::empty());
        assert(r.deep_view() =~~= Self::blank(r.deep_view().id));
        r
    }
}

impl Duplicate for Contact {
    fn duplicate(&self) -> (r: Self) {
        let id = self.id.duplicate();
        let is_flagged = self.is_flagged.duplicate();
        let avatar = self.avatar.duplicate();
        let prefix = self.prefix.duplicate();
        let first_name = self.first_name.duplicate();
        let last_name = self.last_name.duplicate();
        let suffix = self.suffix.duplicate();
        let nickname = self.nickname.duplicate();
        let birthday = self.birthday.duplicate();
        let anniversary = self.anniversary.duplicate();
        let company = self.company.duplicate();
        let department = self.department.duplicate();
        let job_title = self.job_title.duplicate();
        let emails = self.emails.duplicate();
        let phones = self.phones.duplicate();
        let online = self.online.duplicate();
        let addresses = self.addresses.duplicate();
        let notes = self.notes.duplicate();
        Contact {
            id,
            is_flagged,
            avatar,
            prefix,
            first_name,
            last_name,
            suffix,
            nickname,
            birthday,
            anniversary,
            company,
            department,
            job_title,
            emails,
            phones,
            online,
            addresses,
            notes,
        }
    }
}

impl ToJson for Contact {
    /// An object with one key for each field.
    open spec fn encoded(v: ContactView) -> JsonValue {
        let o = Seq::empty();
        let o = put_field::<String>(o, "id"@, v.id);
        let o = put_field::<bool>(o, "isFlagged"@, v.is_flagged);
        let o = put_field::<Option<File>>(o, "avatar"@, v.avatar);
        let o = put_field::<String>(o, "prefix"@, v.prefix);
        let o = put_field::<String>(o, "firstName"@, v.first_name);
        let o = put_field::<String>(o, "lastName"@, v.last_name);
        let o = put_field::<String>(o, "suffix"@, v.suffix);
        let o = put_field::<String>(o, "nickname"@, v.nickname);
        let o = put_field::<OptionDate>(o, "birthday"@, v.birthday);
        let o = put_field::<OptionDate>(o, "anniversary"@, v.anniversary);
        let o = put_field::<String>(o, "company"@, v.company);
        let o = put_field::<String>(o, "department"@, v.department);
        let o = put_field::<String>(o, "jobTitle"@, v.job_title);
        let o = put_field::<Vec<ContactInformation<EmailType>>>(o, "emails"@, v.emails);
        let o = put_field::<Vec<ContactInformation<PhoneType>>>(o, "phones"@, v.phones);
        let o = put_field::<Vec<ContactInformation<OnlineType>>>(o, "online"@, v.online);
        let o = put_field::<Vec<Address>>(o, "addresses"@, v.addresses);
        let o = put_field::<String>(o, "notes"@, v.notes);
        JsonValue::Object(o)
    }

    fn to_json(&self) -> (json: Json) {
        let mut d: TextMap<Json> = TextMap::new();
        assert(d.deep_view() =~= Seq::empty());
        self.id.to_json_field(&mut d, "id");
        self.is_flagged.to_json_field(&mut d, "isFlagged");
        self.avatar.to_json_field(&mut d, "avatar");
        self.prefix.to_json_field(&mut d, "prefix");
        self.first_name.to_json_field(&mut d, "firstName");
        self.last_name.to_json_field(&mut d, "lastName");
        self.suffix.to_json_field(&mut d, "suffix");
        self.nickname.to_json_field(&mut d, "nickname");
        self.birthday.to_json_field(&mut d, "birthday");
        self.anniversary.to_json_field(&mut d, "anniversary");
        self.company.to_json_field(&mut d, "company");
        self.department.to_json_field(&mut d, "department");
        self.job_title.to_json_field(&mut d, "jobTitle");
        self.emails.to_json_field(&mut d, "emails");
        self.phones.to_json_field(&mut d, "phones");
        self.online.to_json_field(&mut d, "online");
        self.addresses.to_json_field(&mut d, "addresses");
        self.notes.to_json_field(&mut d, "notes");
        proof {
            lemma_object_value(d);
        }
        Json::Object(d)
    }
}

impl FromJson for Contact {
    /// The fields are read in the order in which they are declared; the
    /// first that fails gives the error.
    open spec fn decoded(json: JsonValue) -> Result<ContactView, ParseErrorView> {
        match json {
            JsonValue::Object(o) => {
                let id = get_field::<String>(o, "id"@);
                let is_flagged = get_field::<bool>(o, "isFlagged"@);
                let avatar = get_field::<Option<File>>(o, "avatar"@);
                let prefix = get_field::<String>(o, "prefix"@);
                let first_name = get_field::<String>(o, "firstName"@);
                let last_name = get_field::<String>(o, "lastName"@);
                let suffix = get_field::<String>(o, "suffix"@);
                let nickname = get_field::<String>(o, "nickname"@);
                let birthday = get_field::<OptionDate>(o, "birthday"@);
                let anniversary = get_field::<OptionDate>(o, "anniversary"@);
                let company = get_field::<String>(o, "company"@);
                let department = get_field::<String>(o, "department"@);
                let job_title = get_field::<String>(o, "jobTitle"@);
                let emails = get_field::<Vec<ContactInformation<EmailType>>>(o, "emails"@);
                let phones = get_field::<Vec<ContactInformation<PhoneType>>>(o, "phones"@);
                let online = get_field::<Vec<ContactInformation<OnlineType>>>(o, "online"@);
                let addresses = get_field::<Vec<Address>>(o, "addresses"@);
                let notes = get_field::<String>(o, "notes"@);
                if id is Err {
                    Err(id->Err_0)
                } else if is_flagged is Err {
                    Err(is_flagged->Err_0)
                } else if avatar is Err {
                    Err(avatar->Err_0)
                } else if prefix is Err {
                    Err(prefix->Err_0)
                } else if first_name is Err {
                    Err(first_name->Err_0)
                } else if last_name is Err {
                    Err(last_name->Err_0)
                } else if suffix is Err {
                    Err(suffix->Err_0)
                } else if nickname is Err {
                    Err(nickname->Err_0)
                } else if birthday is Err {
                    Err(birthday->Err_0)
                } else if anniversary is Err {
                    Err(anniversary->Err_0)
                } else if company is Err {
                    Err(company->Err_0)
                } else if department is Err {
                    Err(department->Err_0)
                } else if job_title is Err {
                    Err(job_title->Err_0)
                } else if emails is Err {
                    Err(emails->Err_0)
                } else if phones is Err {
                    Err(phones->Err_0)
                } else if online is Err {
                    Err(online->Err_0)
                } else if addresses is Err {
                    Err(addresses->Err_0)
                } else if notes is Err {
                    Err(notes->Err_0)
                } else {
                    Ok(
                        ContactView {
                            id: id->Ok_0,
                            is_flagged: is_flagged->Ok_0,
                            avatar: avatar->Ok_0,
                            prefix: prefix->Ok_0,
                            first_name: first_name->Ok_0,
                            last_name: last_name->Ok_0,
                            suffix: suffix->Ok_0,
                            nickname: nickname->Ok_0,
                            birthday: birthday->Ok_0,
                            anniversary: anniversary->Ok_0,
                            company: company->Ok_0,
                            department: department->Ok_0,
                            job_title: job_title->Ok_0,
                            emails: emails->Ok_0,
                            phones: phones->Ok_0,
                            online: online->Ok_0,
                            addresses: addresses->Ok_0,
                            notes: notes->Ok_0,
                        },
                    )
                }
            },
            _ => Err(ParseErrorView::InvalidJsonType("Contact"@)),
        }
    }

    fn from_json(json: &Json) -> (r: Result<Self, ParseError>) {
        match json {
            Json::Object(o) => {
                proof {
                    lemma_object_value(*o);
                }
                let id = match <String as FromJsonField>::from_json_field(o, "id") {
                    Ok(v) => v,
                    Err(e) => return Err(e),
                };
                let is_flagged = match <bool as FromJsonField>::from_json_field(o, "isFlagged") {
                    Ok(v) => v,
                    Err(e) => return Err(e),
                };
                let avatar = match <Option<File> as FromJsonField>::from_json_field(o, "avatar") {
                    Ok(v) => v,
                    Err(e) => return Err(e),
                };
                let prefix = match <String as FromJsonField>::from_json_field(o, "prefix") {
                    Ok(v) => v,
                    Err(e) => return Err(e),
                };
                let first_name = match <String as FromJsonField>::from_json_field(o, "firstName") {
                    Ok(v) => v,
                    Err(e) => return Err(e),
                };
                let last_name = match <String as FromJsonField>::from_json_field(o, "lastName") {
                    Ok(v) => v,
                    Err(e) => return Err(e),
                };
                let suffix = match <String as FromJsonField>::from_json_field(o, "suffix") {
                    Ok(v) => v,
                    Err(e) => return Err(e),
                };
                let nickname = match <String as FromJsonField>::from_json_field(o, "nickname") {
                    Ok(v) => v,
                    Err(e) => return Err(e),
                };
                let birthday = match <OptionDate as FromJsonField>::from_json_field(o, "birthday") {
                    Ok(v) => v,
                    Err(e) => return Err(e),
                };
                let anniversary = match <OptionDate as FromJsonField>::from_json_field(
                    o,
                    "anniversary",
                ) {
                    Ok(v) => v,
                    Err(e) => return Err(e),
                };
                let company = match <String as FromJsonField>::from_json_field(o, "company") {
                    Ok(v) => v,
                    Err(e) => return Err(e),
                };
                let department = match <String as FromJsonField>::from_json_field(o, "department") {
                    Ok(v) => v,
                    Err(e) => return Err(e),
                };
                let job_title = match <String as FromJsonField>::from_json_field(o, "jobTitle") {
                    Ok(v) => v,
                    Err(e) => return Err(e),
                };
                let emails = match <Vec<ContactInformation<EmailType>> as FromJsonField>::from_json_field(
                    o,
                    "emails",
                ) {
                    Ok(v) => v,
                    Err(e) => return Err(e),
                };
                let phones = match <Vec<ContactInformation<PhoneType>> as FromJsonField>::from_json_field(
                    o,
                    "phones",
                ) {
                    Ok(v) => v,
                    Err(e) => return Err(e),
                };
                let online = match <Vec<ContactInformation<OnlineType>> as FromJsonField>::from_json_field(
                    o,
                    "online",
                ) {
                    Ok(v) => v,
                    Err(e) => return Err(e),
                };
                let addresses = match <Vec<Address> as FromJsonField>::from_json_field(
                    o,
                    "addresses",
                ) {
                    Ok(v) => v,
                    Err(e) => return Err(e),
                };
                let notes = match <String as FromJsonField>::from_json_field(o, "notes") {
                    Ok(v) => v,
                    Err(e) => return Err(e),
                };
                Ok(Contact {
                    id,
                    is_flagged,
                    avatar,
                    prefix,
                    first_name,
                    last_name,
                    suffix,
                    nickname,
                    birthday,
                    anniversary,
                    company,
                    department,
                    job_title,
                    emails,
                    phones,
                    online,
                    addresses,
                    notes,
                })
            },
            _ => Err(ParseError::InvalidJsonType("Contact".to_string())),
        }
    }
}

impl JsonCodec for Contact {
    open spec fn valid(v: ContactView) -> bool {
        &&& <String as FieldCodec>::field_valid(v.id)
        &&& <bool as FieldCodec>::field_valid(v.is_flagged)
        &&& <Option<File> as FieldCodec>::field_valid(v.avatar)
        &&& <String as FieldCodec>::field_valid(v.prefix)
        &&& <String as FieldCodec>::field_valid(v.first_name)
        &&& <String as FieldCodec>::field_valid(v.last_name)
        &&& <String as FieldCodec>::field_valid(v.suffix)
        &&& <String as FieldCodec>::field_valid(v.nickname)
        &&& <OptionDate as FieldCodec>::field_valid(v.birthday)
        &&& <OptionDate as FieldCodec>::field_valid(v.anniversary)
        &&& <String as FieldCodec>::field_valid(v.company)
        &&& <String as FieldCodec>::field_valid(v.department)
        &&& <String as FieldCodec>::field_valid(v.job_title)
        &&& <Vec<ContactInformation<EmailType>> as FieldCodec>::field_valid(v.emails)
        &&& <Vec<ContactInformation<PhoneType>> as FieldCodec>::field_valid(v.phones)
        &&& <Vec<ContactInformation<OnlineType>> as FieldCodec>::field_valid(v.online)
        &&& <Vec<Address> as FieldCodec>::field_valid(v.addresses)
        &&& <String as FieldCodec>::field_valid(v.notes)
    }

    proof fn round_trip(v: ContactView) {
        let o = Self::encoded(v)->Object_0;
        Self::lemma_wire_names();
        assert(get_field::<String>(o, "id"@) == Ok::<Seq<char>, ParseErrorView>(v.id)) by {
            Self::lemma_slots(v, "id"@);
            <String as FieldCodec>::field_round_trip(v.id, "id"@);
        }
        assert(get_field::<bool>(o, "isFlagged"@) == Ok::<bool, ParseErrorView>(v.is_flagged)) by {
            Self::lemma_slots(v, "isFlagged"@);
            <bool as FieldCodec>::field_round_trip(v.is_flagged, "isFlagged"@);
        }
        assert(get_field::<Option<File>>(o, "avatar"@) == Ok::<
            Option<FileView>,
            ParseErrorView,
        >(v.avatar)) by {
            Self::lemma_slots(v, "avatar"@);
            <Option<File> as FieldCodec>::field_round_trip(v.avatar, "avatar"@);
        }
        assert(get_field::<String>(o, "prefix"@) == Ok::<Seq<char>, ParseErrorView>(v.prefix)) by {
            Self::lemma_slots(v, "prefix"@);
            <String as FieldCodec>::field_round_trip(v.prefix, "prefix"@);
        }
        assert(get_field::<String>(o, "firstName"@) == Ok::<
            Seq<char>,
            ParseErrorView,
        >(v.first_name)) by {
            Self::lemma_slots(v, "firstName"@);
            <String as FieldCodec>::field_round_trip(v.first_name, "firstName"@);
        }
        assert(get_field::<String>(o, "lastName"@) == Ok::<
            Seq<char>,
            ParseErrorView,
        >(v.last_name)) by {
            Self::lemma_slots(v, "lastName"@);
            <String as FieldCodec>::field_round_trip(v.last_name, "lastName"@);
        }
        assert(get_field::<String>(o, "suffix"@) == Ok::<Seq<char>, ParseErrorView>(v.suffix)) by {
            Self::lemma_slots(v, "suffix"@);
            <String as FieldCodec>::field_round_trip(v.suffix, "suffix"@);
        }
        assert(get_field::<String>(o, "nickname"@) == Ok::<
            Seq<char>,
            ParseErrorView,
        >(v.nickname)) by {
            Self::lemma_slots(v, "nickname"@);
            <String as FieldCodec>::field_round_trip(v.nickname, "nickname"@);
        }
        assert(get_field::<OptionDate>(o, "birthday"@) == Ok::<
            OptionDate,
            ParseErrorView,
        >(v.birthday)) by {
            Self::lemma_slots(v, "birthday"@);
            <OptionDate as FieldCodec>::field_round_trip(v.birthday, "birthday"@);
        }
        assert(get_field::<OptionDate>(o, "anniversary"@) == Ok::<
            OptionDate,
            ParseErrorView,
        >(v.anniversary)) by {
            Self::lemma_slots(v, "anniversary"@);
            <OptionDate as FieldCodec>::field_round_trip(v.anniversary, "anniversary"@);
        }
        assert(get_field::<String>(o, "company"@) == Ok::<
            Seq<char>,
            ParseErrorView,
        >(v.company)) by {
            Self::lemma_slots(v, "company"@);
            <String as FieldCodec>::field_round_trip(v.company, "company"@);
        }
        assert(get_field::<String>(o, "department"@) == Ok::<
            Seq<char>,
            ParseErrorView,
        >(v.department)) by {
            Self::lemma_slots(v, "department"@);
            <String as FieldCodec>::field_round_trip(v.department, "department"@);
        }
        assert(get_field::<String>(o, "jobTitle"@) == Ok::<
            Seq<char>,
            ParseErrorView,
        >(v.job_title)) by {
            Self::lemma_slots(v, "jobTitle"@);
            <String as FieldCodec>::field_round_trip(v.job_title, "jobTitle"@);
        }
        assert(get_field::<Vec<ContactInformation<EmailType>>>(o, "emails"@) == Ok::<
            Seq<ContactInformationView<EmailType>>,
            ParseErrorView,
        >(v.emails)) by {
            Self::lemma_slots(v, "emails"@);
            <Vec<ContactInformation<EmailType>> as FieldCodec>::field_round_trip(
                v.emails,
                "emails"@,
            );
        }
        assert(get_field::<Vec<ContactInformation<PhoneType>>>(o, "phones"@) == Ok::<
            Seq<ContactInformationView<PhoneType>>,
            ParseErrorView,
        >(v.phones)) by {
            Self::lemma_slots(v, "phones"@);
            <Vec<ContactInformation<PhoneType>> as FieldCodec>::field_round_trip(
                v.phones,
                "phones"@,
            );
        }
        assert(get_field::<Vec<ContactInformation<OnlineType>>>(o, "online"@) == Ok::<
            Seq<ContactInformationView<OnlineType>>,
            ParseErrorView,
        >(v.online)) by {
            Self::lemma_slots(v, "online"@);
            <Vec<ContactInformation<OnlineType>> as FieldCodec>::field_round_trip(
                v.online,
                "online"@,
            );
        }
        assert(get_field::<Vec<Address>>(o, "addresses"@) == Ok::<
            Seq<AddressView>,
            ParseErrorView,
        >(v.addresses)) by {
            Self::lemma_slots(v, "addresses"@);
            <Vec<Address> as FieldCodec>::field_round_trip(v.addresses, "addresses"@);
        }
        assert(get_field::<String>(o, "notes"@) == Ok::<Seq<char>, ParseErrorView>(v.notes)) by {
            Self::lemma_slots(v, "notes"@);
            <String as FieldCodec>::field_round_trip(v.notes, "notes"@);
        }
    }
}

impl Contact {
    /// What the written form of `v` holds under `name`.
    pub open spec fn slot(v: ContactView, name: Seq<char>) -> Option<JsonValue> {
        if name == "id"@ {
            <String as ToJsonField>::field_encoded(v.id)
        } else if name == "isFlagged"@ {
            <bool as ToJsonField>::field_encoded(v.is_flagged)
        } else if name == "avatar"@ {
            <Option<File> as ToJsonField>::field_encoded(v.avatar)
        } else if name == "prefix"@ {
            <String as ToJsonField>::field_encoded(v.prefix)
        } else if name == "firstName"@ {
            <String as ToJsonField>::field_encoded(v.first_name)
        } else if name == "lastName"@ {
            <String as ToJsonField>::field_encoded(v.last_name)
        } else if name == "suffix"@ {
            <String as ToJsonField>::field_encoded(v.suffix)
        } else if name == "nickname"@ {
            <String as ToJsonField>::field_encoded(v.nickname)
        } else if name == "birthday"@ {
            <OptionDate as ToJsonField>::field_encoded(v.birthday)
        } else if name == "anniversary"@ {
            <OptionDate as ToJsonField>::field_encoded(v.anniversary)
        } else if name == "company"@ {
            <String as ToJsonField>::field_encoded(v.company)
        } else if name == "department"@ {
            <String as ToJsonField>::field_encoded(v.department)
        } else if name == "jobTitle"@ {
            <String as ToJsonField>::field_encoded(v.job_title)
        } else if name == "emails"@ {
            <Vec<ContactInformation<EmailType>> as ToJsonField>::field_encoded(v.emails)
        } else if name == "phones"@ {
            <Vec<ContactInformation<PhoneType>> as ToJsonField>::field_encoded(v.phones)
        } else if name == "online"@ {
            <Vec<ContactInformation<OnlineType>> as ToJsonField>::field_encoded(v.online)
        } else if name == "addresses"@ {
            <Vec<Address> as ToJsonField>::field_encoded(v.addresses)
        } else if name == "notes"@ {
            <String as ToJsonField>::field_encoded(v.notes)
        } else {
            None
        }
    }

    /// The written form holds each field under its wire name and nothing
    /// under any other name.
    pub proof fn lemma_slots(v: ContactView, name: Seq<char>)
        ensures
            field_of(Self::encoded(v), name) == Self::slot(v, name),
    {
        Self::lemma_wire_names();
        if name == "id"@ {
            assert(field_of(Self::encoded(v), name) == Self::slot(v, name)) by {
                broadcast use lemma_lookup_put_slot;

            }
        } else if name == "isFlagged"@ {
            assert(field_of(Self::encoded(v), name) == Self::slot(v, name)) by {
                broadcast use lemma_lookup_put_slot;

            }
        } else if name == "avatar"@ {
            assert(field_of(Self::encoded(v), name) == Self::slot(v, name)) by {
                broadcast use lemma_lookup_put_slot;

            }
        } else if name == "prefix"@ {
            assert(field_of(Self::encoded(v), name) == Self::slot(v, name)) by {
                broadcast use lemma_lookup_put_slot;

            }
        } else if name == "firstName"@ {
            assert(field_of(Self::encoded(v), name) == Self::slot(v, name)) by {
                broadcast use lemma_lookup_put_slot;

            }
        } else if name == "lastName"@ {
            assert(field_of(Self::encoded(v), name) == Self::slot(v, name)) by {
                broadcast use lemma_lookup_put_slot;

            }
        } else if name == "suffix"@ {
            assert(field_of(Self::encoded(v), name) == Self::slot(v, name)) by {
                broadcast use lemma_lookup_put_slot;

            }
        } else if name == "nickname"@ {
            assert(field_of(Self::encoded(v), name) == Self::slot(v, name)) by {
                broadcast use lemma_lookup_put_slot;

            }
        } else if name == "birthday"@ {
            assert(field_of(Self::encoded(v), name) == Self::slot(v, name)) by {
                broadcast use lemma_lookup_put_slot;

            }
        } else if name == "anniversary"@ {
            assert(field_of(Self::encoded(v), name) == Self::slot(v, name)) by {
                broadcast use lemma_lookup_put_slot;

            }
        } else if name == "company"@ {
            assert(field_of(Self::encoded(v), name) == Self::slot(v, name)) by {
                broadcast use lemma_lookup_put_slot;

            }
        } else if name == "department"@ {
            assert(field_of(Self::encoded(v), name) == Self::slot(v, name)) by {
                broadcast use lemma_lookup_put_slot;

            }
        } else if name == "jobTitle"@ {
            assert(field_of(Self::encoded(v), name) == Self::slot(v, name)) by {
                broadcast use lemma_lookup_put_slot;

            }
        } else if name == "emails"@ {
            assert(field_of(Self::encoded(v), name) == Self::slot(v, name)) by {
                broadcast use lemma_lookup_put_slot;

            }
        } else if name == "phones"@ {
            assert(field_of(Self::encoded(v), name) == Self::slot(v, name)) by {
                broadcast use lemma_lookup_put_slot;

            }
        } else if name == "online"@ {
            assert(field_of(Self::encoded(v), name) == Self::slot(v, name)) by {
                broadcast use lemma_lookup_put_slot;

            }
        } else if name == "addresses"@ {
            assert(field_of(Self::encoded(v), name) == Self::slot(v, name)) by {
                broadcast use lemma_lookup_put_slot;

            }
        } else if name == "notes"@ {
            assert(field_of(Self::encoded(v), name) == Self::slot(v, name)) by {
                broadcast use lemma_lookup_put_slot;

            }
        } else {
            assert(field_of(Self::encoded(v), name) is None) by {
                broadcast use lemma_lookup_put_slot;

            }
        }
    }
}

/// A [`Contact`] with every field given or left out.
#[derive(Clone, Debug, PartialEq)]
pub struct PartialContact {
    id: Presence<String>,
    is_flagged: Presence<bool>,
    avatar: Presence<Option<File>>,
    prefix: Presence<String>,
    first_name: Presence<String>,
    last_name: Presence<String>,
    suffix: Presence<String>,
    nickname: Presence<String>,
    birthday: Presence<OptionDate>,
    anniversary: Presence<OptionDate>,
    company: Presence<String>,
    department: Presence<String>,
    job_title: Presence<String>,
    emails: Presence<Vec<ContactInformation<EmailType>>>,
    phones: Presence<Vec<ContactInformation<PhoneType>>>,
    online: Presence<Vec<ContactInformation<OnlineType>>>,
    addresses: Presence<Vec<Address>>,
    notes: Presence<String>,
}

/// A value of [`PartialContact`] in contracts.
pub ghost struct PartialContactView {
    pub id: Presence<Seq<char>>,
    pub is_flagged: Presence<bool>,
    pub avatar: Presence<Option<FileView>>,
    pub prefix: Presence<Seq<char>>,
    pub first_name: Presence<Seq<char>>,
    pub last_name: Presence<Seq<char>>,
    pub suffix: Presence<Seq<char>>,
    pub nickname: Presence<Seq<char>>,
    pub birthday: Presence<OptionDate>,
    pub anniversary: Presence<OptionDate>,
    pub company: Presence<Seq<char>>,
    pub department: Presence<Seq<char>>,
    pub job_title: Presence<Seq<char>>,
    pub emails: Presence<Seq<ContactInformationView<EmailType>>>,
    pub phones: Presence<Seq<ContactInformationView<PhoneType>>>,
    pub online: Presence<Seq<ContactInformationView<OnlineType>>>,
    pub addresses: Presence<Seq<AddressView>>,
    pub notes: Presence<Seq<char>>,
}

impl DeepView for PartialContact {
    type V = PartialContactView;

    closed spec fn deep_view(&self) -> PartialContactView {
        PartialContactView {
            id: self.id.deep_view(),
            is_flagged: self.is_flagged.deep_view(),
            avatar: self.avatar.deep_view(),
            prefix: self.prefix.deep_view(),
            first_name: self.first_name.deep_view(),
            last_name: self.last_name.deep_view(),
            suffix: self.suffix.deep_view(),
            nickname: self.nickname.deep_view(),
            birthday: self.birthday.deep_view(),
            anniversary: self.anniversary.deep_view(),
            company: self.company.deep_view(),
            department: self.department.deep_view(),
            job_title: self.job_title.deep_view(),
            emails: self.emails.deep_view(),
            phones: self.phones.deep_view(),
            online: self.online.deep_view(),
            addresses: self.addresses.deep_view(),
            notes: self.notes.deep_view(),
        }
    }
}

impl PartialContact {
    /// The default value: every field at the default of its type.
    pub open spec fn blank() -> PartialContactView {
        PartialContactView {
            id: Presence::Absent,
            is_flagged: Presence::Absent,
            avatar: Presence::Absent,
            prefix: Presence::Absent,
            first_name: Presence::Absent,
            last_name: Presence::Absent,
            suffix: Presence::Absent,
            nickname: Presence::Absent,
            birthday: Presence::Absent,
            anniversary: Presence::Absent,
            company: Presence::Absent,
            department: Presence::Absent,
            job_title: Presence::Absent,
            emails: Presence::Absent,
            phones: Presence::Absent,
            online: Presence::Absent,
            addresses: Presence::Absent,
            notes: Presence::Absent,
        }
    }
}

impl Default for PartialContact {
    fn default() -> (r: Self)
        ensures
            r.deep_view() == Self::blank(),
    {
        let id: Presence<String> = Presence::Absent;
        let is_flagged: Presence<bool> = Presence::Absent;
        let avatar: Presence<Option<File>> = Presence::Absent;
        let prefix: Presence<String> = Presence::Absent;
        let first_name: Presence<String> = Presence::Absent;
        let last_name: Presence<String> = Presence::Absent;
        let suffix: Presence<String> = Presence::Absent;
        let nickname: Presence<String> = Presence::Absent;
        let birthday: Presence<OptionDate> = Presence::Absent;
        let anniversary: Presence<OptionDate> = Presence::Absent;
        let company: Presence<String> = Presence::Absent;
        let department: Presence<String> = Presence::Absent;
        let job_title: Presence<String> = Presence::Absent;
        let emails: Presence<Vec<ContactInformation<EmailType>>> = Presence::Absent;
        let phones: Presence<Vec<ContactInformation<PhoneType>>> = Presence::Absent;
        let online: Presence<Vec<ContactInformation<OnlineType>>> = Presence::Absent;
        let addresses: Presence<Vec<Address>> = Presence::Absent;
        let notes: Presence<String> = Presence::Absent;
        PartialContact {
            id,
            is_flagged,
            avatar,
            prefix,
            first_name,
            last_name,
            suffix,
            nickname,
            birthday,
            anniversary,
            company,
            department,
            job_title,
            emails,
            phones,
            online,
            addresses,
            notes,
        }
    }
}

impl Duplicate for PartialContact {
    fn duplicate(&self) -> (r: Self) {
        let id = self.id.duplicate();
        let is_flagged = self.is_flagged.duplicate();
        let avatar = self.avatar.duplicate();
        let prefix = self.prefix.duplicate();
        let first_name = self.first_name.duplicate();
        let last_name = self.last_name.duplicate();
        let suffix = self.suffix.duplicate();
        let nickname = self.nickname.duplicate();
        let birthday = self.birthday.duplicate();
        let anniversary = self.anniversary.duplicate();
        let company = self.company.duplicate();
        let department = self.department.duplicate();
        let job_title = self.job_title.duplicate();
        let emails = self.emails.duplicate();
        let phones = self.phones.duplicate();
        let online = self.online.duplicate();
        let addresses = self.addresses.duplicate();
        let notes = self.notes.duplicate();
        PartialContact {
            id,
            is_flagged,
            avatar,
            prefix,
            first_name,
            last_name,
            suffix,
            nickname,
            birthday,
            anniversary,
            company,
            department,
            job_title,
            emails,
            phones,
            online,
            addresses,
            notes,
        }
    }
}

impl ToJson for PartialContact {
    /// An object with one key for each field.
    open spec fn encoded(v: PartialContactView) -> JsonValue {
        let o = Seq::empty();
        let o = put_field::<Presence<String>>(o, "id"@, v.id);
        let o = put_field::<Presence<bool>>(o, "isFlagged"@, v.is_flagged);
        let o = put_field::<Presence<Option<File>>>(o, "avatar"@, v.avatar);
        let o = put_field::<Presence<String>>(o, "prefix"@, v.prefix);
        let o = put_field::<Presence<String>>(o, "firstName"@, v.first_name);
        let o = put_field::<Presence<String>>(o, "lastName"@, v.last_name);
        let o = put_field::<Presence<String>>(o, "suffix"@, v.suffix);
        let o = put_field::<Presence<String>>(o, "nickname"@, v.nickname);
        let o = put_field::<Presence<OptionDate>>(o, "birthday"@, v.birthday);
        let o = put_field::<Presence<OptionDate>>(o, "anniversary"@, v.anniversary);
        let o = put_field::<Presence<String>>(o, "company"@, v.company);
        let o = put_field::<Presence<String>>(o, "department"@, v.department);
        let o = put_field::<Presence<String>>(o, "jobTitle"@, v.job_title);
        let o = put_field::<Presence<Vec<ContactInformation<EmailType>>>>(o, "emails"@, v.emails);
        let o = put_field::<Presence<Vec<ContactInformation<PhoneType>>>>(o, "phones"@, v.phones);
        let o = put_field::<Presence<Vec<ContactInformation<OnlineType>>>>(o, "online"@, v.online);
        let o = put_field::<Presence<Vec<Address>>>(o, "addresses"@, v.addresses);
        let o = put_field::<Presence<String>>(o, "notes"@, v.notes);
        JsonValue::Object(o)
    }

    fn to_json(&self) -> (json: Json) {
        let mut d: TextMap<Json> = TextMap::new();
        assert(d.deep_view() =~= Seq::empty());
        self.id.to_json_field(&mut d, "id");
        self.is_flagged.to_json_field(&mut d, "isFlagged");
        self.avatar.to_json_field(&mut d, "avatar");
        self.prefix.to_json_field(&mut d, "prefix");
        self.first_name.to_json_field(&mut d, "firstName");
        self.last_name.to_json_field(&mut d, "lastName");
        self.suffix.to_json_field(&mut d, "suffix");
        self.nickname.to_json_field(&mut d, "nickname");
        self.birthday.to_json_field(&mut d, "birthday");
        self.anniversary.to_json_field(&mut d, "anniversary");
        self.company.to_json_field(&mut d, "company");
        self.department.to_json_field(&mut d, "department");
        self.job_title.to_json_field(&mut d, "jobTitle");
        self.emails.to_json_field(&mut d, "emails");
        self.phones.to_json_field(&mut d, "phones");
        self.online.to_json_field(&mut d, "online");
        self.addresses.to_json_field(&mut d, "addresses");
        self.notes.to_json_field(&mut d, "notes");
        proof {
            lemma_object_value(d);
        }
        Json::Object(d)
    }
}

impl FromJson for PartialContact {
    /// The fields are read in the order in which they are declared; the
    /// first that fails gives the error.
    open spec fn decoded(json: JsonValue) -> Result<PartialContactView, ParseErrorView> {
        match json {
            JsonValue::Object(o) => {
                let id = get_field::<Presence<String>>(o, "id"@);
                let is_flagged = get_field::<Presence<bool>>(o, "isFlagged"@);
                let avatar = get_field::<Presence<Option<File>>>(o, "avatar"@);
                let prefix = get_field::<Presence<String>>(o, "prefix"@);
                let first_name = get_field::<Presence<String>>(o, "firstName"@);
                let last_name = get_field::<Presence<String>>(o, "lastName"@);
                let suffix = get_field::<Presence<String>>(o, "suffix"@);
                let nickname = get_field::<Presence<String>>(o, "nickname"@);
                let birthday = get_field::<Presence<OptionDate>>(o, "birthday"@);
                let anniversary = get_field::<Presence<OptionDate>>(o, "anniversary"@);
                let company = get_field::<Presence<String>>(o, "company"@);
                let department = get_field::<Presence<String>>(o, "department"@);
                let job_title = get_field::<Presence<String>>(o, "jobTitle"@);
                let emails = get_field::<Presence<Vec<ContactInformation<EmailType>>>>(
                    o,
                    "emails"@,
                );
                let phones = get_field::<Presence<Vec<ContactInformation<PhoneType>>>>(
                    o,
                    "phones"@,
                );
                let online = get_field::<Presence<Vec<ContactInformation<OnlineType>>>>(
                    o,
                    "online"@,
                );
                let addresses = get_field::<Presence<Vec<Address>>>(o, "addresses"@);
                let notes = get_field::<Presence<String>>(o, "notes"@);
                if id is Err {
                    Err(id->Err_0)
                } else if is_flagged is Err {
                    Err(is_flagged->Err_0)
                } else if avatar is Err {
                    Err(avatar->Err_0)
                } else if prefix is Err {
                    Err(prefix->Err_0)
                } else if first_name is Err {
                    Err(first_name->Err_0)
                } else if last_name is Err {
                    Err(last_name->Err_0)
                } else if suffix is Err {
                    Err(suffix->Err_0)
                } else if nickname is Err {
                    Err(nickname->Err_0)
                } else if birthday is Err {
                    Err(birthday->Err_0)
                } else if anniversary is Err {
                    Err(anniversary->Err_0)
                } else if company is Err {
                    Err(company->Err_0)
                } else if department is Err {
                    Err(department->Err_0)
                } else if job_title is Err {
                    Err(job_title->Err_0)
                } else if emails is Err {
                    Err(emails->Err_0)
                } else if phones is Err {
                    Err(phones->Err_0)
                } else if online is Err {
                    Err(online->Err_0)
                } else if addresses is Err {
                    Err(addresses->Err_0)
                } else if notes is Err {
                    Err(notes->Err_0)
                } else {
                    Ok(
                        PartialContactView {
                            id: id->Ok_0,
                            is_flagged: is_flagged->Ok_0,
                            avatar: avatar->Ok_0,
                            prefix: prefix->Ok_0,
                            first_name: first_name->Ok_0,
                            last_name: last_name->Ok_0,
                            suffix: suffix->Ok_0,
                            nickname: nickname->Ok_0,
                            birthday: birthday->Ok_0,
                            anniversary: anniversary->Ok_0,
                            company: company->Ok_0,
                            department: department->Ok_0,
                            job_title: job_title->Ok_0,
                            emails: emails->Ok_0,
                            phones: phones->Ok_0,
                            online: online->Ok_0,
                            addresses: addresses->Ok_0,
                            notes: notes->Ok_0,
                        },
                    )
                }
            },
            _ => Err(ParseErrorView::InvalidJsonType("Contact"@)),
        }
    }

    fn from_json(json: &Json) -> (r: Result<Self, ParseError>) {
        match json {
            Json::Object(o) => {
                proof {
                    lemma_object_value(*o);
                }
                let id = match <Presence<String> as FromJsonField>::from_json_field(o, "id") {
                    Ok(v) => v,
                    Err(e) => return Err(e),
                };
                let is_flagged = match <Presence<bool> as FromJsonField>::from_json_field(
                    o,
                    "isFlagged",
                ) {
                    Ok(v) => v,
                    Err(e) => return Err(e),
                };
                let avatar = match <Presence<Option<File>> as FromJsonField>::from_json_field(
                    o,
                    "avatar",
                ) {
                    Ok(v) => v,
                    Err(e) => return Err(e),
                };
                let prefix = match <Presence<String> as FromJsonField>::from_json_field(
                    o,
                    "prefix",
                ) {
                    Ok(v) => v,
                    Err(e) => return Err(e),
                };
                let first_name = match <Presence<String> as FromJsonField>::from_json_field(
                    o,
                    "firstName",
                ) {
                    Ok(v) => v,
                    Err(e) => return Err(e),
                };
                let last_name = match <Presence<String> as FromJsonField>::from_json_field(
                    o,
                    "lastName",
                ) {
                    Ok(v) => v,
                    Err(e) => return Err(e),
                };
                let suffix = match <Presence<String> as FromJsonField>::from_json_field(
                    o,
                    "suffix",
                ) {
                    Ok(v) => v,
                    Err(e) => return Err(e),
                };
                let nickname = match <Presence<String> as FromJsonField>::from_json_field(
                    o,
                    "nickname",
                ) {
                    Ok(v) => v,
                    Err(e) => return Err(e),
                };
                let birthday = match <Presence<OptionDate> as FromJsonField>::from_json_field(
                    o,
                    "birthday",
                ) {
                    Ok(v) => v,
                    Err(e) => return Err(e),
                };
                let anniversary = match <Presence<OptionDate> as FromJsonField>::from_json_field(
                    o,
                    "anniversary",
                ) {
                    Ok(v) => v,
                    Err(e) => return Err(e),
                };
                let company = match <Presence<String> as FromJsonField>::from_json_field(
                    o,
                    "company",
                ) {
                    Ok(v) => v,
                    Err(e) => return Err(e),
                };
                let department = match <Presence<String> as FromJsonField>::from_json_field(
                    o,
                    "department",
                ) {
                    Ok(v) => v,
                    Err(e) => return Err(e),
                };
                let job_title = match <Presence<String> as FromJsonField>::from_json_field(
                    o,
                    "jobTitle",
                ) {
                    Ok(v) => v,
                    Err(e) => return Err(e),
                };
                let emails = match <Presence<Vec<ContactInformation<EmailType>>> as FromJsonField>::from_json_field(
                    o,
                    "emails",
                ) {
                    Ok(v) => v,
                    Err(e) => return Err(e),
                };
                let phones = match <Presence<Vec<ContactInformation<PhoneType>>> as FromJsonField>::from_json_field(
                    o,
                    "phones",
                ) {
                    Ok(v) => v,
                    Err(e) => return Err(e),
                };
                let online = match <Presence<Vec<ContactInformation<OnlineType>>> as FromJsonField>::from_json_field(
                    o,
                    "online",
                ) {
                    Ok(v) => v,
                    Err(e) => return Err(e),
                };
                let addresses = match <Presence<Vec<Address>> as FromJsonField>::from_json_field(
                    o,
                    "addresses",
                ) {
                    Ok(v) => v,
                    Err(e) => return Err(e),
                };
                let notes = match <Presence<String> as FromJsonField>::from_json_field(o, "notes") {
                    Ok(v) => v,
                    Err(e) => return Err(e),
                };
                Ok(PartialContact {
                    id,
                    is_flagged,
                    avatar,
                    prefix,
                    first_name,
                    last_name,
                    suffix,
                    nickname,
                    birthday,
                    anniversary,
                    company,
                    department,
                    job_title,
                    emails,
                    phones,
                    online,
                    addresses,
                    notes,
                })
            },
            _ => Err(ParseError::InvalidJsonType("Contact".to_string())),
        }
    }
}

impl JsonCodec for PartialContact {
    open spec fn valid(v: PartialContactView) -> bool {
        &&& <Presence<String> as FieldCodec>::field_valid(v.id)
        &&& <Presence<bool> as FieldCodec>::field_valid(v.is_flagged)
        &&& <Presence<Option<File>> as FieldCodec>::field_valid(v.avatar)
        &&& <Presence<String> as FieldCodec>::field_valid(v.prefix)
        &&& <Presence<String> as FieldCodec>::field_valid(v.first_name)
        &&& <Presence<String> as FieldCodec>::field_valid(v.last_name)
        &&& <Presence<String> as FieldCodec>::field_valid(v.suffix)
        &&& <Presence<String> as FieldCodec>::field_valid(v.nickname)
        &&& <Presence<OptionDate> as FieldCodec>::field_valid(v.birthday)
        &&& <Presence<OptionDate> as FieldCodec>::field_valid(v.anniversary)
        &&& <Presence<String> as FieldCodec>::field_valid(v.company)
        &&& <Presence<String> as FieldCodec>::field_valid(v.department)
        &&& <Presence<String> as FieldCodec>::field_valid(v.job_title)
        &&& <Presence<Vec<ContactInformation<EmailType>>> as FieldCodec>::field_valid(v.emails)
        &&& <Presence<Vec<ContactInformation<PhoneType>>> as FieldCodec>::field_valid(v.phones)
        &&& <Presence<Vec<ContactInformation<OnlineType>>> as FieldCodec>::field_valid(v.online)
        &&& <Presence<Vec<Address>> as FieldCodec>::field_valid(v.addresses)
        &&& <Presence<String> as FieldCodec>::field_valid(v.notes)
    }

    proof fn round_trip(v: PartialContactView) {
        let o = Self::encoded(v)->Object_0;
        Contact::lemma_wire_names();
        assert(get_field::<Presence<String>>(o, "id"@) == Ok::<
            Presence<Seq<char>>,
            ParseErrorView,
        >(v.id)) by {
            Self::lemma_slots(v, "id"@);
            <Presence<String> as FieldCodec>::field_round_trip(v.id, "id"@);
        }
        assert(get_field::<Presence<bool>>(o, "isFlagged"@) == Ok::<
            Presence<bool>,
            ParseErrorView,
        >(v.is_flagged)) by {
            Self::lemma_slots(v, "isFlagged"@);
            <Presence<bool> as FieldCodec>::field_round_trip(v.is_flagged, "isFlagged"@);
        }
        assert(get_field::<Presence<Option<File>>>(o, "avatar"@) == Ok::<
            Presence<Option<FileView>>,
            ParseErrorView,
        >(v.avatar)) by {
            Self::lemma_slots(v, "avatar"@);
            <Presence<Option<File>> as FieldCodec>::field_round_trip(v.avatar, "avatar"@);
        }
        assert(get_field::<Presence<String>>(o, "prefix"@) == Ok::<
            Presence<Seq<char>>,
            ParseErrorView,
        >(v.prefix)) by {
            Self::lemma_slots(v, "prefix"@);
            <Presence<String> as FieldCodec>::field_round_trip(v.prefix, "prefix"@);
        }
        assert(get_field::<Presence<String>>(o, "firstName"@) == Ok::<
            Presence<Seq<char>>,
            ParseErrorView,
        >(v.first_name)) by {
            Self::lemma_slots(v, "firstName"@);
            <Presence<String> as FieldCodec>::field_round_trip(v.first_name, "firstName"@);
        }
        assert(get_field::<Presence<String>>(o, "lastName"@) == Ok::<
            Presence<Seq<char>>,
            ParseErrorView,
        >(v.last_name)) by {
            Self::lemma_slots(v, "lastName"@);
            <Presence<String> as FieldCodec>::field_round_trip(v.last_name, "lastName"@);
        }
        assert(get_field::<Presence<String>>(o, "suffix"@) == Ok::<
            Presence<Seq<char>>,
            ParseErrorView,
        >(v.suffix)) by {
            Self::lemma_slots(v, "suffix"@);
            <Presence<String> as FieldCodec>::field_round_trip(v.suffix, "suffix"@);
        }
        assert(get_field::<Presence<String>>(o, "nickname"@) == Ok::<
            Presence<Seq<char>>,
            ParseErrorView,
        >(v.nickname)) by {
            Self::lemma_slots(v, "nickname"@);
            <Presence<String> as FieldCodec>::field_round_trip(v.nickname, "nickname"@);
        }
        assert(get_field::<Presence<OptionDate>>(o, "birthday"@) == Ok::<
            Presence<OptionDate>,
            ParseErrorView,
        >(v.birthday)) by {
            Self::lemma_slots(v, "birthday"@);
            <Presence<OptionDate> as FieldCodec>::field_round_trip(v.birthday, "birthday"@);
        }
        assert(get_field::<Presence<OptionDate>>(o, "anniversary"@) == Ok::<
            Presence<OptionDate>,
            ParseErrorView,
        >(v.anniversary)) by {
            Self::lemma_slots(v, "anniversary"@);
            <Presence<OptionDate> as FieldCodec>::field_round_trip(v.anniversary, "anniversary"@);
        }
        assert(get_field::<Presence<String>>(o, "company"@) == Ok::<
            Presence<Seq<char>>,
            ParseErrorView,
        >(v.company)) by {
            Self::lemma_slots(v, "company"@);
            <Presence<String> as FieldCodec>::field_round_trip(v.company, "company"@);
        }
        assert(get_field::<Presence<String>>(o, "department"@) == Ok::<
            Presence<Seq<char>>,
            ParseErrorView,
        >(v.department)) by {
            Self::lemma_slots(v, "department"@);
            <Presence<String> as FieldCodec>::field_round_trip(v.department, "department"@);
        }
        assert(get_field::<Presence<String>>(o, "jobTitle"@) == Ok::<
            Presence<Seq<char>>,
            ParseErrorView,
        >(v.job_title)) by {
            Self::lemma_slots(v, "jobTitle"@);
            <Presence<String> as FieldCodec>::field_round_trip(v.job_title, "jobTitle"@);
        }
        assert(get_field::<Presence<Vec<ContactInformation<EmailType>>>>(o, "emails"@) == Ok::<
            Presence<Seq<ContactInformationView<EmailType>>>,
            ParseErrorView,
        >(v.emails)) by {
            Self::lemma_slots(v, "emails"@);
            <Presence<Vec<ContactInformation<EmailType>>> as FieldCodec>::field_round_trip(
                v.emails,
                "emails"@,
            );
        }
        assert(get_field::<Presence<Vec<ContactInformation<PhoneType>>>>(o, "phones"@) == Ok::<
            Presence<Seq<ContactInformationView<PhoneType>>>,
            ParseErrorView,
        >(v.phones)) by {
            Self::lemma_slots(v, "phones"@);
            <Presence<Vec<ContactInformation<PhoneType>>> as FieldCodec>::field_round_trip(
                v.phones,
                "phones"@,
            );
        }
        assert(get_field::<Presence<Vec<ContactInformation<OnlineType>>>>(o, "online"@) == Ok::<
            Presence<Seq<ContactInformationView<OnlineType>>>,
            ParseErrorView,
        >(v.online)) by {
            Self::lemma_slots(v, "online"@);
            <Presence<Vec<ContactInformation<OnlineType>>> as FieldCodec>::field_round_trip(
                v.online,
                "online"@,
            );
        }
        assert(get_field::<Presence<Vec<Address>>>(o, "addresses"@) == Ok::<
            Presence<Seq<AddressView>>,
            ParseErrorView,
        >(v.addresses)) by {
            Self::lemma_slots(v, "addresses"@);
            <Presence<Vec<Address>> as FieldCodec>::field_round_trip(v.addresses, "addresses"@);
        }
        assert(get_field::<Presence<String>>(o, "notes"@) == Ok::<
            Presence<Seq<char>>,
            ParseErrorView,
        >(v.notes)) by {
            Self::lemma_slots(v, "notes"@);
            <Presence<String> as FieldCodec>::field_round_trip(v.notes, "notes"@);
        }
    }
}

impl PartialContact {
    /// What the written form of `v` holds under `name`.
    pub open spec fn slot(v: PartialContactView, name: Seq<char>) -> Option<JsonValue> {
        if name == "id"@ {
            <Presence<String> as ToJsonField>::field_encoded(v.id)
        } else if name == "isFlagged"@ {
            <Presence<bool> as ToJsonField>::field_encoded(v.is_flagged)
        } else if name == "avatar"@ {
            <Presence<Option<File>> as ToJsonField>::field_encoded(v.avatar)
        } else if name == "prefix"@ {
            <Presence<String> as ToJsonField>::field_encoded(v.prefix)
        } else if name == "firstName"@ {
            <Presence<String> as ToJsonField>::field_encoded(v.first_name)
        } else if name == "lastName"@ {
            <Presence<String> as ToJsonField>::field_encoded(v.last_name)
        } else if name == "suffix"@ {
            <Presence<String> as ToJsonField>::field_encoded(v.suffix)
        } else if name == "nickname"@ {
            <Presence<String> as ToJsonField>::field_encoded(v.nickname)
        } else if name == "birthday"@ {
            <Presence<OptionDate> as ToJsonField>::field_encoded(v.birthday)
        } else if name == "anniversary"@ {
            <Presence<OptionDate> as ToJsonField>::field_encoded(v.anniversary)
        } else if name == "company"@ {
            <Presence<String> as ToJsonField>::field_encoded(v.company)
        } else if name == "department"@ {
            <Presence<String> as ToJsonField>::field_encoded(v.department)
        } else if name == "jobTitle"@ {
            <Presence<String> as ToJsonField>::field_encoded(v.job_title)
        } else if name == "emails"@ {
            <Presence<Vec<ContactInformation<EmailType>>> as ToJsonField>::field_encoded(v.emails)
        } else if name == "phones"@ {
            <Presence<Vec<ContactInformation<PhoneType>>> as ToJsonField>::field_encoded(v.phones)
        } else if name == "online"@ {
            <Presence<Vec<ContactInformation<OnlineType>>> as ToJsonField>::field_encoded(v.online)
        } else if name == "addresses"@ {
            <Presence<Vec<Address>> as ToJsonField>::field_encoded(v.addresses)
        } else if name == "notes"@ {
            <Presence<String> as ToJsonField>::field_encoded(v.notes)
        } else {
            None
        }
    }

    /// The written form holds each field under its wire name and nothing
    /// under any other name.
    pub proof fn lemma_slots(v: PartialContactView, name: Seq<char>)
        ensures
            field_of(Self::encoded(v), name) == Self::slot(v, name),
    {
        Contact::lemma_wire_names();
        if name == "id"@ {
            assert(field_of(Self::encoded(v), name) == Self::slot(v, name)) by {
                broadcast use lemma_lookup_put_slot;

            }
        } else if name == "isFlagged"@ {
            assert(field_of(Self::encoded(v), name) == Self::slot(v, name)) by {
                broadcast use lemma_lookup_put_slot;

            }
        } else if name == "avatar"@ {
            assert(field_of(Self::encoded(v), name) == Self::slot(v, name)) by {
                broadcast use lemma_lookup_put_slot;

            }
        } else if name == "prefix"@ {
            assert(field_of(Self::encoded(v), name) == Self::slot(v, name)) by {
                broadcast use lemma_lookup_put_slot;

            }
        } else if name == "firstName"@ {
            assert(field_of(Self::encoded(v), name) == Self::slot(v, name)) by {
                broadcast use lemma_lookup_put_slot;

            }
        } else if name == "lastName"@ {
            assert(field_of(Self::encoded(v), name) == Self::slot(v, name)) by {
                broadcast use lemma_lookup_put_slot;

            }
        } else if name == "suffix"@ {
            assert(field_of(Self::encoded(v), name) == Self::slot(v, name)) by {
                broadcast use lemma_lookup_put_slot;

            }
        } else if name == "nickname"@ {
            assert(field_of(Self::encoded(v), name) == Self::slot(v, name)) by {
                broadcast use lemma_lookup_put_slot;

            }
        } else if name == "birthday"@ {
            assert(field_of(Self::encoded(v), name) == Self::slot(v, name)) by {
                broadcast use lemma_lookup_put_slot;

            }
        } else if name == "anniversary"@ {
            assert(field_of(Self::encoded(v), name) == Self::slot(v, name)) by {
                broadcast use lemma_lookup_put_slot;

            }
        } else if name == "company"@ {
            assert(field_of(Self::encoded(v), name) == Self::slot(v, name)) by {
                broadcast use lemma_lookup_put_slot;

            }
        } else if name == "department"@ {
            assert(field_of(Self::encoded(v), name) == Self::slot(v, name)) by {
                broadcast use lemma_lookup_put_slot;

            }
        } else if name == "jobTitle"@ {
            assert(field_of(Self::encoded(v), name) == Self::slot(v, name)) by {
                broadcast use lemma_lookup_put_slot;

            }
        } else if name == "emails"@ {
            assert(field_of(Self::encoded(v), name) == Self::slot(v, name)) by {
                broadcast use lemma_lookup_put_slot;

            }
        } else if name == "phones"@ {
            assert(field_of(Self::encoded(v), name) == Self::slot(v, name)) by {
                broadcast use lemma_lookup_put_slot;

            }
        } else if name == "online"@ {
            assert(field_of(Self::encoded(v), name) == Self::slot(v, name)) by {
                broadcast use lemma_lookup_put_slot;

            }
        } else if name == "addresses"@ {
            assert(field_of(Self::encoded(v), name) == Self::slot(v, name)) by {
                broadcast use lemma_lookup_put_slot;

            }
        } else if name == "notes"@ {
            assert(field_of(Self::encoded(v), name) == Self::slot(v, name)) by {
                broadcast use lemma_lookup_put_slot;

            }
        } else {
            assert(field_of(Self::encoded(v), name) is None) by {
                broadcast use lemma_lookup_put_slot;

            }
        }
    }
}

impl PartialRecord for PartialContact {
    open spec fn id_of(v: PartialContactView) -> Presence<Seq<char>> {
        v.id
    }

    fn id(&self) -> (r: Presence<String>) {
        self.id.duplicate()
    }
}

impl Record for Contact {
    type Partial = PartialContact;

    open spec fn id_of(v: ContactView) -> Seq<char> {
        v.id
    }

    open spec fn patched(v: ContactView, p: PartialContactView) -> ContactView {
        ContactView {
            id: p.id.or(v.id),
            is_flagged: p.is_flagged.or(v.is_flagged),
            avatar: p.avatar.or(v.avatar),
            prefix: p.prefix.or(v.prefix),
            first_name: p.first_name.or(v.first_name),
            last_name: p.last_name.or(v.last_name),
            suffix: p.suffix.or(v.suffix),
            nickname: p.nickname.or(v.nickname),
            birthday: p.birthday.or(v.birthday),
            anniversary: p.anniversary.or(v.anniversary),
            company: p.company.or(v.company),
            department: p.department.or(v.department),
            job_title: p.job_title.or(v.job_title),
            emails: p.emails.or(v.emails),
            phones: p.phones.or(v.phones),
            online: p.online.or(v.online),
            addresses: p.addresses.or(v.addresses),
            notes: p.notes.or(v.notes),
        }
    }

    open spec fn projected(v: ContactView) -> PartialContactView {
        PartialContactView {
            id: Presence::Present(v.id),
            is_flagged: Presence::Present(v.is_flagged),
            avatar: Presence::Present(v.avatar),
            prefix: Presence::Present(v.prefix),
            first_name: Presence::Present(v.first_name),
            last_name: Presence::Present(v.last_name),
            suffix: Presence::Present(v.suffix),
            nickname: Presence::Present(v.nickname),
            birthday: Presence::Present(v.birthday),
            anniversary: Presence::Present(v.anniversary),
            company: Presence::Present(v.company),
            department: Presence::Present(v.department),
            job_title: Presence::Present(v.job_title),
            emails: Presence::Present(v.emails),
            phones: Presence::Present(v.phones),
            online: Presence::Present(v.online),
            addresses: Presence::Present(v.addresses),
            notes: Presence::Present(v.notes),
        }
    }

    open spec fn filtered(v: ContactView, properties: Seq<Seq<char>>) -> PartialContactView {
        PartialContactView {
            id: Presence::Present(v.id),
            is_flagged: chosen(properties, "isFlagged"@, v.is_flagged),
            avatar: chosen(properties, "avatar"@, v.avatar),
            prefix: chosen(properties, "prefix"@, v.prefix),
            first_name: chosen(properties, "firstName"@, v.first_name),
            last_name: chosen(properties, "lastName"@, v.last_name),
            suffix: chosen(properties, "suffix"@, v.suffix),
            nickname: chosen(properties, "nickname"@, v.nickname),
            birthday: chosen(properties, "birthday"@, v.birthday),
            anniversary: chosen(properties, "anniversary"@, v.anniversary),
            company: chosen(properties, "company"@, v.company),
            department: chosen(properties, "department"@, v.department),
            job_title: chosen(properties, "jobTitle"@, v.job_title),
            emails: chosen(properties, "emails"@, v.emails),
            phones: chosen(properties, "phones"@, v.phones),
            online: chosen(properties, "online"@, v.online),
            addresses: chosen(properties, "addresses"@, v.addresses),
            notes: chosen(properties, "notes"@, v.notes),
        }
    }

    fn id(&self) -> (r: String) {
        self.id.clone()
    }

    fn updated_with(&self, p: &PartialContact) -> (r: Self) {
        let id = copy_patched(&p.id, &self.id);
        let is_flagged = copy_patched(&p.is_flagged, &self.is_flagged);
        let avatar = copy_patched(&p.avatar, &self.avatar);
        let prefix = copy_patched(&p.prefix, &self.prefix);
        let first_name = copy_patched(&p.first_name, &self.first_name);
        let last_name = copy_patched(&p.last_name, &self.last_name);
        let suffix = copy_patched(&p.suffix, &self.suffix);
        let nickname = copy_patched(&p.nickname, &self.nickname);
        let birthday = copy_patched(&p.birthday, &self.birthday);
        let anniversary = copy_patched(&p.anniversary, &self.anniversary);
        let company = copy_patched(&p.company, &self.company);
        let department = copy_patched(&p.department, &self.department);
        let job_title = copy_patched(&p.job_title, &self.job_title);
        let emails = copy_patched(&p.emails, &self.emails);
        let phones = copy_patched(&p.phones, &self.phones);
        let online = copy_patched(&p.online, &self.online);
        let addresses = copy_patched(&p.addresses, &self.addresses);
        let notes = copy_patched(&p.notes, &self.notes);
        Contact {
            id,
            is_flagged,
            avatar,
            prefix,
            first_name,
            last_name,
            suffix,
            nickname,
            birthday,
            anniversary,
            company,
            department,
            job_title,
            emails,
            phones,
            online,
            addresses,
            notes,
        }
    }

    fn to_partial(&self) -> (p: PartialContact) {
        let id = Presence::Present(self.id.duplicate());
        let is_flagged = Presence::Present(self.is_flagged.duplicate());
        let avatar = Presence::Present(self.avatar.duplicate());
        let prefix = Presence::Present(self.prefix.duplicate());
        let first_name = Presence::Present(self.first_name.duplicate());
        let last_name = Presence::Present(self.last_name.duplicate());
        let suffix = Presence::Present(self.suffix.duplicate());
        let nickname = Presence::Present(self.nickname.duplicate());
        let birthday = Presence::Present(self.birthday.duplicate());
        let anniversary = Presence::Present(self.anniversary.duplicate());
        let company = Presence::Present(self.company.duplicate());
        let department = Presence::Present(self.department.duplicate());
        let job_title = Presence::Present(self.job_title.duplicate());
        let emails = Presence::Present(self.emails.duplicate());
        let phones = Presence::Present(self.phones.duplicate());
        let online = Presence::Present(self.online.duplicate());
        let addresses = Presence::Present(self.addresses.duplicate());
        let notes = Presence::Present(self.notes.duplicate());
        PartialContact {
            id,
            is_flagged,
            avatar,
            prefix,
            first_name,
            last_name,
            suffix,
            nickname,
            birthday,
            anniversary,
            company,
            department,
            job_title,
            emails,
            phones,
            online,
            addresses,
            notes,
        }
    }

    fn to_filtered_partial(&self, properties: &Vec<String>) -> (p: PartialContact) {
        let id = Presence::Present(self.id.duplicate());
        let is_flagged = copy_asked(properties, "isFlagged", &self.is_flagged);
        let avatar = copy_asked(properties, "avatar", &self.avatar);
        let prefix = copy_asked(properties, "prefix", &self.prefix);
        let first_name = copy_asked(properties, "firstName", &self.first_name);
        let last_name = copy_asked(properties, "lastName", &self.last_name);
        let suffix = copy_asked(properties, "suffix", &self.suffix);
        let nickname = copy_asked(properties, "nickname", &self.nickname);
        let birthday = copy_asked(properties, "birthday", &self.birthday);
        let anniversary = copy_asked(properties, "anniversary", &self.anniversary);
        let company = copy_asked(properties, "company", &self.company);
        let department = copy_asked(properties, "department", &self.department);
        let job_title = copy_asked(properties, "jobTitle", &self.job_title);
        let emails = copy_asked(properties, "emails", &self.emails);
        let phones = copy_asked(properties, "phones", &self.phones);
        let online = copy_asked(properties, "online", &self.online);
        let addresses = copy_asked(properties, "addresses", &self.addresses);
        let notes = copy_asked(properties, "notes", &self.notes);
        PartialContact {
            id,
            is_flagged,
            avatar,
            prefix,
            first_name,
            last_name,
            suffix,
            nickname,
            birthday,
            anniversary,
            company,
            department,
            job_title,
            emails,
            phones,
            online,
            addresses,
            notes,
        }
    }

    proof fn law_patch_with_projection(v: ContactView) {
    }

    proof fn law_patch_overlays(v: ContactView, p: PartialContactView, name: Seq<char>) {
        assert(Self::slot(Self::patched(v, p), name) == match PartialContact::slot(p, name) {
            Some(j) => Some(j),
            None => Self::slot(v, name),
        });
        Self::lemma_slots(Self::patched(v, p), name);
        Self::lemma_slots(v, name);
        PartialContact::lemma_slots(p, name);
    }

    proof fn law_projection_is_whole(v: ContactView) {
    }

    proof fn law_filter_selects(v: ContactView, properties: Seq<Seq<char>>, name: Seq<char>) {
        reveal(chosen);
        assert(PartialContact::slot(Self::filtered(v, properties), name) == if name == "id"@
            || properties.contains(name) {
            Self::slot(v, name)
        } else {
            None
        });
        Self::lemma_slots(v, name);
        PartialContact::lemma_slots(Self::filtered(v, properties), name);
    }
}

} // verus!
