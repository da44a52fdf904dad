//! The message decoder: from a channel name and a raw payload to a typed
//! update, or to the reason why the payload is dropped.
//!
//! A payload is a JSON object with the fields of its kind of event. Numeric
//! fields are decimals, written as JSON numbers or as strings.
//!
//! Decoding has two steps. Reading takes the fields out of the record and
//! gives a row with decimals: it fails where a field is absent or not of
//! the form that its kind asks for. Normalising passes every numeric field
//! of the row through the strict fixed-point conversion, identifiers as they
//! are and sizes and prices in fixed-point units, and holds the row against
//! the channel that it came on.

use vstd::prelude::*;
use vstd::utf8::decode_utf8;
use vstd::utf8::valid_utf8;

use crate::channel::Channel;
use crate::channel::ChannelKind;
use crate::decimal::Decimal;
use crate::decimal::DecimalView;
use crate::error::ConversionError;
use crate::error::DecodeError;
use crate::error::Field;
use crate::events::Side;
use crate::message::Update;
use crate::message::UpdateView;
use crate::models::events::normalised_level;
use crate::models::events::normalised_maker;
use crate::models::events::normalised_taker;
use crate::models::events::optional_view;
use crate::models::events::MakerEvent;
use crate::models::events::MakerEventRowView;
use crate::models::events::MakerEventType;
use crate::models::events::PriceLevel;
use crate::models::events::PriceLevelRowView;
use crate::models::events::TakerEvent;
use crate::models::events::TakerEventRowView;
use crate::types::Timestamp;

verus! {

/// The value of a field of a record. What lies inside arrays and objects is
/// not looked at.
#[derive(Debug, PartialEq, Eq)]
pub enum Token {
    Null,
    Flag(bool),
    /// A number, by its text.
    Number(String),
    Text(String),
    Nested,
}

/// The mathematical content of a [`Token`].
pub enum TokenView {
    Null,
    Flag(bool),
    Number(Seq<char>),
    Text(Seq<char>),
    Nested,
}

impl View for Token {
    type V = TokenView;

    open spec fn view(&self) -> TokenView {
        match self {
            Token::Null => TokenView::Null,
            Token::Flag(flag) => TokenView::Flag(*flag),
            Token::Number(text) => TokenView::Number(text@),
            Token::Text(text) => TokenView::Text(text@),
            Token::Nested => TokenView::Nested,
        }
    }
}

/// A field of a record: its name and its value.
#[derive(Debug, PartialEq, Eq)]
pub struct Entry {
    pub key: String,
    pub value: Token,
}

/// The mathematical content of an [`Entry`].
pub struct EntryView {
    pub key: Seq<char>,
    pub value: TokenView,
}

impl View for Entry {
    type V = EntryView;

    open spec fn view(&self) -> EntryView {
        EntryView { key: self.key@, value: self.value@ }
    }
}

/// The mathematical content of a record: the views of its entries.
pub open spec fn record_view(record: Seq<Entry>) -> Seq<EntryView> {
    Seq::new(record.len(), |i: int| record[i]@)
}

/// The fields of the JSON object that [`serde_json::from_str`] reads from a
/// text, each with its value, or `None` where the text is not JSON or is not
/// an object.
pub uninterp spec fn record_of_text(text: Seq<char>) -> Option<Seq<EntryView>>;

/// The view of a parsed record.
pub open spec fn parsed_view(parsed: Option<Vec<Entry>>) -> Option<Seq<EntryView>> {
    match parsed {
        Some(record) => Some(record_view(record@)),
        None => None,
    }
}

/// Calls [`serde_json::from_str`] for a [`serde_json::Value`] and hands out
/// the fields of the object it read, in the order in which the value holds
/// them.
#[verifier::external_body]
fn parse_record(payload: &str) -> (r: Option<Vec<Entry>>)
    ensures
        parsed_view(r) == record_of_text(payload@),
{
    let parsed: serde_json::Value = serde_json::from_str(payload).ok()?;
    let fields = parsed.as_object()?;
    Some(fields.iter().map(|(key, value)| Entry { key: key.clone(), value: match value {
        serde_json::Value::Null => Token::Null,
        serde_json::Value::Bool(flag) => Token::Flag(*flag),
        serde_json::Value::Number(number) => Token::Number(number.to_string()),
        serde_json::Value::String(text) => Token::Text(text.clone()),
        serde_json::Value::Array(_) => Token::Nested,
        serde_json::Value::Object(_) => Token::Nested,
    } }).collect())
}

/// The instant that [`chrono::DateTime::parse_from_rfc3339`] reads from a
/// text, as seconds since the Unix epoch and nanoseconds into the second, or
/// `None` where it refuses the text.
pub uninterp spec fn instant_of_text(text: Seq<char>) -> Option<(i64, u32)>;

/// Calls [`chrono::DateTime::parse_from_rfc3339`] and takes the seconds and
/// the nanoseconds of the instant it read.
#[verifier::external_body]
fn parse_instant(text: &str) -> (r: Option<(i64, u32)>)
    ensures
        r == instant_of_text(text@),
{
    let instant = chrono::DateTime::parse_from_rfc3339(text).ok()?;
    Some((instant.timestamp(), instant.timestamp_subsec_nanos()))
}

/// Calls [`std::str::from_utf8`]: the text that the bytes encode, where they
/// are UTF-8.
#[verifier::external_body]
fn text_of(bytes: &[u8]) -> (r: Option<&str>)
    ensures
        r is Some <==> valid_utf8(bytes@),
        r matches Some(text) ==> text@ == decode_utf8(bytes@),
{
    std::str::from_utf8(bytes).ok()
}

/// The value of the first entry from position `from` on that has the key.
pub open spec fn lookup_from(record: Seq<EntryView>, key: Seq<char>, from: int) -> Option<
    TokenView,
>
    decreases record.len() - from,
{
    if from < 0 || from >= record.len() {
        None
    } else if record[from].key == key {
        Some(record[from].value)
    } else {
        lookup_from(record, key, from + 1)
    }
}

/// The value of a field of a record, if the record has the field.
pub open spec fn lookup(record: Seq<EntryView>, field: Field) -> Option<TokenView> {
    lookup_from(record, field.spec_name(), 0)
}

/// The decimal that a token holds: a number, or a text that writes one.
pub open spec fn decimal_token(token: TokenView, field: Field) -> Result<DecimalView, DecodeError> {
    let text = match token {
        TokenView::Number(text) => Some(text),
        TokenView::Text(text) => Some(text),
        _ => None,
    };
    if text is Some && Decimal::text_is_decimal(text->0) {
        Ok(Decimal::view_of_text(text->0))
    } else {
        Err(DecodeError::Field { field })
    }
}

/// The decimal of a numeric field that the record must have.
pub open spec fn decimal_field(record: Seq<EntryView>, field: Field) -> Result<
    DecimalView,
    DecodeError,
> {
    match lookup(record, field) {
        Some(token) => decimal_token(token, field),
        None => Err(DecodeError::Field { field }),
    }
}

/// The decimal of a numeric field that the record may leave out or set to
/// null.
pub open spec fn optional_decimal_field(record: Seq<EntryView>, field: Field) -> Result<
    Option<DecimalView>,
    DecodeError,
> {
    match lookup(record, field) {
        None => Ok(None),
        Some(TokenView::Null) => Ok(None),
        Some(token) => match decimal_token(token, field) {
            Ok(d) => Ok(Some(d)),
            Err(e) => Err(e),
        },
    }
}

/// The value of a text field that the record must have.
pub open spec fn text_field(record: Seq<EntryView>, field: Field) -> Result<
    Seq<char>,
    DecodeError,
> {
    match lookup(record, field) {
        Some(TokenView::Text(text)) => Ok(text),
        _ => Err(DecodeError::Field { field }),
    }
}

/// The side that a text names.
pub open spec fn side_of_text(text: Seq<char>) -> Option<Side> {
    if text == "bid"@ {
        Some(Side::Bid)
    } else if text == "ask"@ {
        Some(Side::Ask)
    } else {
        None
    }
}

/// The event type that a text names.
pub open spec fn event_type_of_text(text: Seq<char>) -> Option<MakerEventType> {
    if text == "cancel"@ {
        Some(MakerEventType::Cancel)
    } else if text == "change"@ {
        Some(MakerEventType::Change)
    } else if text == "evict"@ {
        Some(MakerEventType::Evict)
    } else if text == "place"@ {
        Some(MakerEventType::Place)
    } else {
        None
    }
}

/// The side of a record.
pub open spec fn side_field(record: Seq<EntryView>) -> Result<Side, DecodeError> {
    match lookup(record, Field::Side) {
        Some(TokenView::Text(text)) => match side_of_text(text) {
            Some(side) => Ok(side),
            None => Err(DecodeError::Field { field: Field::Side }),
        },
        _ => Err(DecodeError::Field { field: Field::Side }),
    }
}

/// The event type of a record.
pub open spec fn event_type_field(record: Seq<EntryView>) -> Result<MakerEventType, DecodeError> {
    match lookup(record, Field::EventType) {
        Some(TokenView::Text(text)) => match event_type_of_text(text) {
            Some(event_type) => Ok(event_type),
            None => Err(DecodeError::Field { field: Field::EventType }),
        },
        _ => Err(DecodeError::Field { field: Field::EventType }),
    }
}

/// The time of a record.
pub open spec fn time_field(record: Seq<EntryView>) -> Result<Timestamp, DecodeError> {
    match lookup(record, Field::Time) {
        Some(TokenView::Text(text)) => match instant_of_text(text) {
            Some(instant) => Ok(Timestamp { seconds: instant.0, nanos: instant.1 }),
            None => Err(DecodeError::Field { field: Field::Time }),
        },
        _ => Err(DecodeError::Field { field: Field::Time }),
    }
}

/// The maker row that a record holds. The first field that is absent or
/// malformed, in the order of the fields, is the error.
pub open spec fn maker_row(record: Seq<EntryView>) -> Result<MakerEventRowView, DecodeError> {
    let market_id = decimal_field(record, Field::MarketId);
    let side = side_field(record);
    let market_order_id = decimal_field(record, Field::MarketOrderId);
    let user_address = text_field(record, Field::UserAddress);
    let custodian_id = optional_decimal_field(record, Field::CustodianId);
    let event_type = event_type_field(record);
    let size = decimal_field(record, Field::Size);
    let price = decimal_field(record, Field::Price);
    let time = time_field(record);
    if market_id is Err {
        Err(market_id->Err_0)
    } else if side is Err {
        Err(side->Err_0)
    } else if market_order_id is Err {
        Err(market_order_id->Err_0)
    } else if user_address is Err {
        Err(user_address->Err_0)
    } else if custodian_id is Err {
        Err(custodian_id->Err_0)
    } else if event_type is Err {
        Err(event_type->Err_0)
    } else if size is Err {
        Err(size->Err_0)
    } else if price is Err {
        Err(price->Err_0)
    } else if time is Err {
        Err(time->Err_0)
    } else {
        Ok(
            MakerEventRowView {
                market_id: market_id->Ok_0,
                side: side->Ok_0,
                market_order_id: market_order_id->Ok_0,
                user_address: user_address->Ok_0,
                custodian_id: custodian_id->Ok_0,
                event_type: event_type->Ok_0,
                size: size->Ok_0,
                price: price->Ok_0,
                time: time->Ok_0,
            },
        )
    }
}

/// The taker row that a record holds. The first field that is absent or
/// malformed, in the order of the fields, is the error.
pub open spec fn taker_row(record: Seq<EntryView>) -> Result<TakerEventRowView, DecodeError> {
    let market_id = decimal_field(record, Field::MarketId);
    let side = side_field(record);
    let market_order_id = decimal_field(record, Field::MarketOrderId);
    let maker = text_field(record, Field::Maker);
    let custodian_id = optional_decimal_field(record, Field::CustodianId);
    let size = decimal_field(record, Field::Size);
    let price = decimal_field(record, Field::Price);
    let time = time_field(record);
    if market_id is Err {
        Err(market_id->Err_0)
    } else if side is Err {
        Err(side->Err_0)
    } else if market_order_id is Err {
        Err(market_order_id->Err_0)
    } else if maker is Err {
        Err(maker->Err_0)
    } else if custodian_id is Err {
        Err(custodian_id->Err_0)
    } else if size is Err {
        Err(size->Err_0)
    } else if price is Err {
        Err(price->Err_0)
    } else if time is Err {
        Err(time->Err_0)
    } else {
        Ok(
            TakerEventRowView {
                market_id: market_id->Ok_0,
                side: side->Ok_0,
                market_order_id: market_order_id->Ok_0,
                maker: maker->Ok_0,
                custodian_id: custodian_id->Ok_0,
                size: size->Ok_0,
                price: price->Ok_0,
                time: time->Ok_0,
            },
        )
    }
}

/// The price level row that a record holds. The first field that is absent
/// or malformed, in the order of the fields, is the error.
pub open spec fn level_row(record: Seq<EntryView>) -> Result<PriceLevelRowView, DecodeError> {
    let market_id = decimal_field(record, Field::MarketId);
    let side = side_field(record);
    let price = decimal_field(record, Field::Price);
    let size = decimal_field(record, Field::Size);
    let time = time_field(record);
    if market_id is Err {
        Err(market_id->Err_0)
    } else if side is Err {
        Err(side->Err_0)
    } else if price is Err {
        Err(price->Err_0)
    } else if size is Err {
        Err(size->Err_0)
    } else if time is Err {
        Err(time->Err_0)
    } else {
        Ok(
            PriceLevelRowView {
                market_id: market_id->Ok_0,
                side: side->Ok_0,
                price: price->Ok_0,
                size: size->Ok_0,
                time: time->Ok_0,
            },
        )
    }
}

/// What was read from a record: the row of one kind of event, its numbers
/// still decimals.
#[derive(Debug)]
pub enum Row {
    Maker(MakerEvent),
    Taker(TakerEvent),
    PriceLevel(PriceLevel),
}

/// The mathematical content of a [`Row`].
pub enum RowView {
    Maker(MakerEventRowView),
    Taker(TakerEventRowView),
    PriceLevel(PriceLevelRowView),
}

impl View for Row {
    type V = RowView;

    open spec fn view(&self) -> RowView {
        match self {
            Row::Maker(row) => RowView::Maker(row@),
            Row::Taker(row) => RowView::Taker(row@),
            Row::PriceLevel(row) => RowView::PriceLevel(row@),
        }
    }
}

impl RowView {
    /// The kind of channel that brings such rows.
    pub open spec fn kind(self) -> ChannelKind {
        match self {
            RowView::Maker(_) => ChannelKind::Orders,
            RowView::Taker(_) => ChannelKind::Fills,
            RowView::PriceLevel(_) => ChannelKind::PriceLevels,
        }
    }

    /// The update that the row holds in units of `10^-places`, or the
    /// first numeric field that is outside the fixed-point domain.
    pub open spec fn normalised(self, places: nat) -> Result<UpdateView, ConversionError> {
        match self {
            RowView::Maker(row) => match normalised_maker(row, places) {
                Ok(event) => Ok(UpdateView::Maker(event)),
                Err(e) => Err(e),
            },
            RowView::Taker(row) => match normalised_taker(row, places) {
                Ok(event) => Ok(UpdateView::Taker(event)),
                Err(e) => Err(e),
            },
            RowView::PriceLevel(row) => match normalised_level(row, places) {
                Ok(level) => Ok(UpdateView::PriceLevel(level)),
                Err(e) => Err(e),
            },
        }
    }
}

/// The row that a record of a channel of the given kind holds.
pub open spec fn read_row(record: Seq<EntryView>, kind: ChannelKind) -> Result<RowView, DecodeError> {
    match kind {
        ChannelKind::Orders => match maker_row(record) {
            Ok(row) => Ok(RowView::Maker(row)),
            Err(e) => Err(e),
        },
        ChannelKind::Fills => match taker_row(record) {
            Ok(row) => Ok(RowView::Taker(row)),
            Err(e) => Err(e),
        },
        ChannelKind::PriceLevels => match level_row(record) {
            Ok(row) => Ok(RowView::PriceLevel(row)),
            Err(e) => Err(e),
        },
    }
}

/// The update that a row holds where it came on `channel`: its numbers in
/// the fixed-point domain, in units of `10^-places`. A row whose numbers are
/// in order but which is of another kind or of another market than the
/// channel is inconsistent.
pub open spec fn normalised_row(row: RowView, channel: Channel, places: nat) -> Result<
    UpdateView,
    DecodeError,
> {
    match row.normalised(places) {
        Err(e) => Err(DecodeError::ConversionError { field: e.field }),
        Ok(update) => if row.kind() == channel.kind && update.market_id() == channel.market_id {
            Ok(update)
        } else {
            Err(DecodeError::Inconsistent)
        },
    }
}

/// The update that a record holds where it came on `channel`.
pub open spec fn decoded_record(record: Seq<EntryView>, channel: Channel, places: nat) -> Result<
    UpdateView,
    DecodeError,
> {
    match read_row(record, channel.kind) {
        Ok(row) => normalised_row(row, channel, places),
        Err(e) => Err(e),
    }
}

/// The update that the text of a payload holds, by the name of the channel
/// it came on.
pub open spec fn decoded_text(name: Seq<char>, payload: Seq<char>, places: nat) -> Result<
    UpdateView,
    DecodeError,
> {
    match Channel::of_name(name) {
        None => Err(DecodeError::Channel),
        Some(channel) => match record_of_text(payload) {
            None => Err(DecodeError::Payload),
            Some(record) => decoded_record(record, channel, places),
        },
    }
}

/// The update that a raw payload holds, by the name of the channel it came
/// on. The payload is text in UTF-8.
pub open spec fn decoded(name: Seq<char>, payload: Seq<u8>, places: nat) -> Result<
    UpdateView,
    DecodeError,
> {
    if Channel::of_name(name) is Some && !valid_utf8(payload) {
        Err(DecodeError::Payload)
    } else {
        decoded_text(name, decode_utf8(payload), places)
    }
}

/// The view of what a decoder returned.
pub open spec fn decoded_view(result: Result<Update, DecodeError>) -> Result<
    UpdateView,
    DecodeError,
> {
    match result {
        Ok(update) => Ok(update@),
        Err(e) => Err(e),
    }
}

/// The view of what was read from a record.
pub open spec fn read_view(result: Result<Row, DecodeError>) -> Result<RowView, DecodeError> {
    match result {
        Ok(row) => Ok(row@),
        Err(e) => Err(e),
    }
}

/// The text of a token that may hold a decimal.
fn decimal_text_of(token: &Token) -> (r: Option<&String>)
    ensures
        match token@ {
            TokenView::Number(text) => r matches Some(t) && t@ == text,
            TokenView::Text(text) => r matches Some(t) && t@ == text,
            _ => r is None,
        },
{
    match token {
        Token::Number(text) => Some(text),
        Token::Text(text) => Some(text),
        _ => None,
    }
}

/// Whether a text is the given word.
fn is_word(text: &String, word: &str) -> (r: bool)
    ensures
        r == (text@ == word@),
{
    let other = word.to_owned();
    *text == other
}

/// Reads the records of one deployment: its number of decimal places.
#[derive(Clone, Copy, Debug, PartialEq, Eq, Structural)]
pub struct Decoder {
    /// The decimal places of the fixed-point unit: a size or a price of one
    /// is `10^places` units.
    pub places: u8,
}

impl Decoder {
    /// The decoder for fixed-point units of `10^-places`.
    pub fn new(places: u8) -> (r: Decoder)
        ensures
            r.places == places,
    {
        Decoder { places }
    }

    /// The value of a field, if the record has the field.
    pub fn find<'a>(record: &'a Vec<Entry>, field: Field) -> (r: Option<&'a Token>)
        ensures
            match r {
                Some(token) => lookup(record_view(record@), field) == Some(token@),
                None => lookup(record_view(record@), field) is None,
            },
    {
        let key = field.name().to_owned();
        let ghost rv = record_view(record@);
        let mut i: usize = 0;
        while i < record.len()
            invariant
                i <= record.len(),
                rv == record_view(record@),
                key@ == field.spec_name(),
                lookup(rv, field) == lookup_from(rv, field.spec_name(), i as int),
            decreases record.len() - i,
        {
            if record[i].key == key {
                return Some(&record[i].value);
            }
            i += 1;
        }
        None
    }

    fn decimal_of_token(token: &Token, field: Field) -> (r: Result<Decimal, DecodeError>)
        ensures
            match r {
                Ok(d) => decimal_token(token@, field) == Ok::<DecimalView, DecodeError>(d@),
                Err(e) => decimal_token(token@, field) == Err::<DecimalView, DecodeError>(e),
            },
    {
        let text = match decimal_text_of(token) {
            Some(text) => text,
            None => {
                return Err(DecodeError::Field { field });
            },
        };
        match Decimal::parse(text.as_str()) {
            Some(value) => Ok(value),
            None => Err(DecodeError::Field { field }),
        }
    }

    fn decimal(record: &Vec<Entry>, field: Field) -> (r: Result<Decimal, DecodeError>)
        ensures
            match r {
                Ok(d) => decimal_field(record_view(record@), field) == Ok::<
                    DecimalView,
                    DecodeError,
                >(d@),
                Err(e) => decimal_field(record_view(record@), field) == Err::<
                    DecimalView,
                    DecodeError,
                >(e),
            },
    {
        match Self::find(record, field) {
            Some(token) => Self::decimal_of_token(token, field),
            None => Err(DecodeError::Field { field }),
        }
    }

    fn optional_decimal(record: &Vec<Entry>, field: Field) -> (r: Result<
        Option<Decimal>,
        DecodeError,
    >)
        ensures
            match r {
                Ok(d) => optional_decimal_field(record_view(record@), field) == Ok::<
                    Option<DecimalView>,
                    DecodeError,
                >(optional_view(d)),
                Err(e) => optional_decimal_field(record_view(record@), field) == Err::<
                    Option<DecimalView>,
                    DecodeError,
                >(e),
            },
    {
        match Self::find(record, field) {
            None => Ok(None),
            Some(Token::Null) => Ok(None),
            Some(token) => match Self::decimal_of_token(token, field) {
                Ok(d) => Ok(Some(d)),
                Err(e) => Err(e),
            },
        }
    }

    fn text(record: &Vec<Entry>, field: Field) -> (r: Result<String, DecodeError>)
        ensures
            match r {
                Ok(text) => text_field(record_view(record@), field) == Ok::<Seq<char>, DecodeError>(
                    text@,
                ),
                Err(e) => text_field(record_view(record@), field) == Err::<Seq<char>, DecodeError>(
                    e,
                ),
            },
    {
        match Self::find(record, field) {
            Some(Token::Text(text)) => Ok(text.clone()),
            _ => Err(DecodeError::Field { field }),
        }
    }

    fn side(record: &Vec<Entry>) -> (r: Result<Side, DecodeError>)
        ensures
            r == side_field(record_view(record@)),
    {
        match Self::find(record, Field::Side) {
            Some(Token::Text(text)) => {
                if is_word(text, "bid") {
                    Ok(Side::Bid)
                } else if is_word(text, "ask") {
                    Ok(Side::Ask)
                } else {
                    Err(DecodeError::Field { field: Field::Side })
                }
            },
            _ => Err(DecodeError::Field { field: Field::Side }),
        }
    }

    fn event_type(record: &Vec<Entry>) -> (r: Result<MakerEventType, DecodeError>)
        ensures
            r == event_type_field(record_view(record@)),
    {
        match Self::find(record, Field::EventType) {
            Some(Token::Text(text)) => {
                if is_word(text, "cancel") {
                    Ok(MakerEventType::Cancel)
                } else if is_word(text, "change") {
                    Ok(MakerEventType::Change)
                } else if is_word(text, "evict") {
                    Ok(MakerEventType::Evict)
                } else if is_word(text, "place") {
                    Ok(MakerEventType::Place)
                } else {
                    Err(DecodeError::Field { field: Field::EventType })
                }
            },
            _ => Err(DecodeError::Field { field: Field::EventType }),
        }
    }

    fn time(record: &Vec<Entry>) -> (r: Result<Timestamp, DecodeError>)
        ensures
            r == time_field(record_view(record@)),
    {
        match Self::find(record, Field::Time) {
            Some(Token::Text(text)) => match parse_instant(text.as_str()) {
                Some((seconds, nanos)) => Ok(Timestamp { seconds, nanos }),
                None => Err(DecodeError::Field { field: Field::Time }),
            },
            _ => Err(DecodeError::Field { field: Field::Time }),
        }
    }

    fn maker(record: &Vec<Entry>) -> (r: Result<MakerEvent, DecodeError>)
        ensures
            match r {
                Ok(row) => maker_row(record_view(record@)) == Ok::<MakerEventRowView, DecodeError>(
                    row@,
                ),
                Err(e) => maker_row(record_view(record@)) == Err::<MakerEventRowView, DecodeError>(
                    e,
                ),
            },
    {
        let market_id = Self::decimal(record, Field::MarketId)?;
        let side = Self::side(record)?;
        let market_order_id = Self::decimal(record, Field::MarketOrderId)?;
        let user_address = Self::text(record, Field::UserAddress)?;
        let custodian_id = Self::optional_decimal(record, Field::CustodianId)?;
        let event_type = Self::event_type(record)?;
        let size = Self::decimal(record, Field::Size)?;
        let price = Self::decimal(record, Field::Price)?;
        let time = Self::time(record)?;
        Ok(
            MakerEvent {
                market_id,
                side,
                market_order_id,
                user_address,
                custodian_id,
                event_type,
                size,
                price,
                time,
            },
        )
    }

    fn taker(record: &Vec<Entry>) -> (r: Result<TakerEvent, DecodeError>)
        ensures
            match r {
                Ok(row) => taker_row(record_view(record@)) == Ok::<TakerEventRowView, DecodeError>(
                    row@,
                ),
                Err(e) => taker_row(record_view(record@)) == Err::<TakerEventRowView, DecodeError>(
                    e,
                ),
            },
    {
        let market_id = Self::decimal(record, Field::MarketId)?;
        let side = Self::side(record)?;
        let market_order_id = Self::decimal(record, Field::MarketOrderId)?;
        let maker = Self::text(record, Field::Maker)?;
        let custodian_id = Self::optional_decimal(record, Field::CustodianId)?;
        let size = Self::decimal(record, Field::Size)?;
        let price = Self::decimal(record, Field::Price)?;
        let time = Self::time(record)?;
        Ok(TakerEvent { market_id, side, market_order_id, maker, custodian_id, size, price, time })
    }

    fn level(record: &Vec<Entry>) -> (r: Result<PriceLevel, DecodeError>)
        ensures
            match r {
                Ok(row) => level_row(record_view(record@)) == Ok::<PriceLevelRowView, DecodeError>(
                    row@,
                ),
                Err(e) => level_row(record_view(record@)) == Err::<PriceLevelRowView, DecodeError>(
                    e,
                ),
            },
    {
        let market_id = Self::decimal(record, Field::MarketId)?;
        let side = Self::side(record)?;
        let price = Self::decimal(record, Field::Price)?;
        let size = Self::decimal(record, Field::Size)?;
        let time = Self::time(record)?;
        Ok(PriceLevel { market_id, side, price, size, time })
    }

    /// Reads the row of a record that came on a channel of the given kind.
    pub fn read(record: &Vec<Entry>, kind: ChannelKind) -> (r: Result<Row, DecodeError>)
        ensures
            read_view(r) == read_row(record_view(record@), kind),
    {
        match kind {
            ChannelKind::Orders => match Self::maker(record) {
                Ok(row) => Ok(Row::Maker(row)),
                Err(e) => Err(e),
            },
            ChannelKind::Fills => match Self::taker(record) {
                Ok(row) => Ok(Row::Taker(row)),
                Err(e) => Err(e),
            },
            ChannelKind::PriceLevels => match Self::level(record) {
                Ok(row) => Ok(Row::PriceLevel(row)),
                Err(e) => Err(e),
            },
        }
    }

    /// Brings a row that came on `channel` into the fixed-point domain and
    /// holds it against the channel.
    pub fn normalise(&self, row: Row, channel: Channel) -> (r: Result<Update, DecodeError>)
        ensures
            decoded_view(r) == normalised_row(row@, channel, self.places as nat),
    {
        let (update, kind) = match row {
            Row::Maker(row) => match row.normalise(self.places) {
                Ok(event) => (Update::Maker(event), ChannelKind::Orders),
                Err(e) => {
                    return Err(DecodeError::ConversionError { field: e.field });
                },
            },
            Row::Taker(row) => match row.normalise(self.places) {
                Ok(event) => (Update::Taker(event), ChannelKind::Fills),
                Err(e) => {
                    return Err(DecodeError::ConversionError { field: e.field });
                },
            },
            Row::PriceLevel(row) => match row.normalise(self.places) {
                Ok(level) => (Update::PriceLevel(level), ChannelKind::PriceLevels),
                Err(e) => {
                    return Err(DecodeError::ConversionError { field: e.field });
                },
            },
        };
        if kind == channel.kind && update.market_id() == channel.market_id {
            Ok(update)
        } else {
            Err(DecodeError::Inconsistent)
        }
    }

    /// Decodes the record of a payload that came on `channel`.
    pub fn decode_record(&self, record: &Vec<Entry>, channel: Channel) -> (r: Result<
        Update,
        DecodeError,
    >)
        ensures
            decoded_view(r) == decoded_record(record_view(record@), channel, self.places as nat),
    {
        match Self::read(record, channel.kind) {
            Ok(row) => self.normalise(row, channel),
            Err(e) => Err(e),
        }
    }

    /// Decodes a raw payload that came on the channel called
    /// `channel_name`. A failure is the failure of this payload alone.
    pub fn decode(&self, channel_name: &str, raw_payload: &[u8]) -> (r: Result<Update, DecodeError>)
        ensures
            decoded_view(r) == decoded(channel_name@, raw_payload@, self.places as nat),
    {
        let channel = match Channel::parse(channel_name) {
            Some(channel) => channel,
            None => {
                return Err(DecodeError::Channel);
            },
        };
        let payload = match text_of(raw_payload) {
            Some(payload) => payload,
            None => {
                return Err(DecodeError::Payload);
            },
        };
        let record = match parse_record(payload) {
            Some(record) => record,
            None => {
                return Err(DecodeError::Payload);
            },
        };
        self.decode_record(&record, channel)
    }

    /// Decodes the text of a payload that came on the channel called
    /// `channel_name`.
    pub fn decode_text(&self, channel_name: &str, payload: &str) -> (r: Result<Update, DecodeError>)
        ensures
            decoded_view(r) == decoded_text(channel_name@, payload@, self.places as nat),
    {
        let channel = match Channel::parse(channel_name) {
            Some(channel) => channel,
            None => {
                return Err(DecodeError::Channel);
            },
        };
        let record = match parse_record(payload) {
            Some(record) => record,
            None => {
                return Err(DecodeError::Payload);
            },
        };
        self.decode_record(&record, channel)
    }
}

} // verus!
