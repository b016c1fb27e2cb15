//! JSON values as the server reads and writes them.

use vstd::prelude::*;

verus! {

/// A binary floating-point value that the library carries without computing on it.
#[derive(Clone, Copy, Debug, PartialEq, Eq, Structural)]
pub enum FloatValue {
    /// The IEEE 754 double with these bits.
    Bits(u64),
    /// The IEEE 754 double nearest to this integer.
    Nearest(u64),
}

impl FloatValue {
    /// Whether the value is neither infinite nor a NaN: its exponent field is not all ones.
    pub open spec fn is_finite(self) -> bool {
        match self {
            FloatValue::Bits(bits) => (bits / 0x10_0000_0000_0000) % 2048 != 2047,
            FloatValue::Nearest(_) => true,
        }
    }

    /// Tests whether the value is finite.
    pub fn finite(&self) -> (finite: bool)
        ensures
            finite == self.is_finite(),
    {
        match self {
            FloatValue::Bits(bits) => (*bits / 0x10_0000_0000_0000) % 2048 != 2047,
            FloatValue::Nearest(_) => true,
        }
    }
}

/// A JSON number.
#[derive(Debug, PartialEq, Eq)]
pub enum JsonNumber {
    /// An integer of the signed 64-bit range.
    Integer(i64),
    /// An integer of the unsigned 64-bit range.
    Unsigned(u64),
    /// A floating-point number.
    Float(FloatValue),
    /// A number outside these ranges, kept as its decimal text.
    Decimal(String),
}

/// One member of a JSON object.
#[derive(Debug, PartialEq, Eq)]
pub struct JsonField {
    /// Member name.
    pub name: String,
    /// Member value.
    pub value: Json,
}

/// A JSON value. The members of an object stand in increasing order of their names.
#[derive(Debug, PartialEq, Eq)]
pub enum Json {
    /// `null`.
    Null,
    /// `true` or `false`.
    Bool(bool),
    /// A number.
    Number(JsonNumber),
    /// A string.
    Text(String),
    /// An array.
    Array(Vec<Json>),
    /// An object.
    Object(Vec<JsonField>),
}

/// What a JSON number is.
#[verifier::ext_equal]
pub enum NumberView {
    /// An integer.
    Integer(int),
    /// A floating-point number.
    Float(FloatValue),
    /// Any other number, by its text.
    Decimal(Seq<char>),
}

/// What a JSON value is.
#[verifier::ext_equal]
pub enum JsonView {
    /// `null`.
    Null,
    /// `true` or `false`.
    Bool(bool),
    /// A number.
    Number(NumberView),
    /// A string.
    Text(Seq<char>),
    /// An array.
    Array(Seq<JsonView>),
    /// An object.
    Object(Seq<(Seq<char>, JsonView)>),
}

impl View for JsonNumber {
    type V = NumberView;

    open spec fn view(&self) -> NumberView {
        match self {
            JsonNumber::Integer(value) => NumberView::Integer(*value as int),
            JsonNumber::Unsigned(value) => NumberView::Integer(*value as int),
            JsonNumber::Float(value) => NumberView::Float(*value),
            JsonNumber::Decimal(text) => NumberView::Decimal(text@),
        }
    }
}

/// What a JSON value is, taken apart to its leaves.
pub open spec fn json_view(value: Json) -> JsonView
    decreases value,
{
    match value {
        Json::Null => JsonView::Null,
        Json::Bool(value) => JsonView::Bool(value),
        Json::Number(number) => JsonView::Number(number@),
        Json::Text(text) => JsonView::Text(text@),
        Json::Array(items) => JsonView::Array(
            Seq::new(
                items@.len(),
                |i: int|
                    if 0 <= i < items@.len() {
                        json_view(items@[i])
                    } else {
                        JsonView::Null
                    },
            ),
        ),
        Json::Object(fields) => JsonView::Object(
            Seq::new(
                fields@.len(),
                |i: int|
                    if 0 <= i < fields@.len() {
                        (fields@[i].name@, json_view(fields@[i].value))
                    } else {
                        (Seq::empty(), JsonView::Null)
                    },
            ),
        ),
    }
}

impl View for Json {
    type V = JsonView;

    open spec fn view(&self) -> JsonView {
        json_view(*self)
    }
}

impl View for JsonField {
    type V = (Seq<char>, JsonView);

    open spec fn view(&self) -> (Seq<char>, JsonView) {
        (self.name@, self.value@)
    }
}

/// The views of a sequence of fields.
pub open spec fn fields_view(fields: Seq<JsonField>) -> Seq<(Seq<char>, JsonView)> {
    Seq::new(fields.len(), |i: int| fields[i]@)
}

/// The views of a sequence of values.
pub open spec fn values_view(values: Seq<Json>) -> Seq<JsonView> {
    Seq::new(values.len(), |i: int| values[i]@)
}

/// The object with these fields.
pub fn json_object(fields: Vec<JsonField>) -> (value: Json)
    ensures
        value@ == JsonView::Object(fields_view(fields@)),
{
    proof {
        let value = Json::Object(fields);
        assert(value@->Object_0 =~= fields_view(fields@));
    }
    Json::Object(fields)
}

/// The array of these values.
pub fn json_array(values: Vec<Json>) -> (value: Json)
    ensures
        value@ == JsonView::Array(values_view(values@)),
{
    proof {
        let value = Json::Array(values);
        assert(value@->Array_0 =~= values_view(values@));
    }
    Json::Array(values)
}

/// The string `text`.
pub fn json_text(text: &str) -> (value: Json)
    ensures
        value@ == JsonView::Text(text@),
{
    Json::Text(text.to_owned())
}

/// The number `value`.
pub fn json_count(value: u64) -> (json: Json)
    ensures
        json@ == JsonView::Number(NumberView::Integer(value as int)),
{
    Json::Number(JsonNumber::Unsigned(value))
}

/// One named field.
pub fn json_field(name: &str, value: Json) -> (field: JsonField)
    ensures
        field@ == (name@, value@),
{
    JsonField { name: name.to_owned(), value }
}

/// A double is finite exactly where its exponent bits are not all ones, and the one nearest to an
/// integer always is.
pub proof fn law_only_full_exponents_are_not_finite(bits: u64, number: u64)
    ensures
        FloatValue::Bits(bits).is_finite() <==> !(0x7ff0_0000_0000_0000 <= bits
            <= 0x7fff_ffff_ffff_ffff) && !(0xfff0_0000_0000_0000 <= bits),
        FloatValue::Nearest(number).is_finite(),
{
}

/// A value is seen as it is built: of the same kind, with the same truth value, number or text, with
/// as many items or fields, in the same order and each seen in the same way.
pub proof fn law_json_is_seen_as_it_is_built(value: Json, number: JsonNumber, field: JsonField)
    ensures
        match value {
            Json::Null => value@ is Null,
            Json::Bool(truth) => value@ == JsonView::Bool(truth),
            Json::Number(number) => value@ == JsonView::Number(number@),
            Json::Text(text) => value@ == JsonView::Text(text@),
            Json::Array(items) => value@ matches JsonView::Array(seen) && seen.len() == items@.len()
                && forall|i: int| 0 <= i < items@.len() ==> #[trigger] seen[i] == items@[i]@,
            Json::Object(fields) => value@ matches JsonView::Object(seen) && seen.len()
                == fields@.len() && forall|i: int|
                0 <= i < fields@.len() ==> #[trigger] seen[i] == (
                    fields@[i].name@,
                    fields@[i].value@,
                ),
        },
        match number {
            JsonNumber::Integer(number_) => number@ == NumberView::Integer(number_ as int),
            JsonNumber::Unsigned(number_) => number@ == NumberView::Integer(number_ as int),
            JsonNumber::Float(number_) => number@ == NumberView::Float(number_),
            JsonNumber::Decimal(text) => number@ == NumberView::Decimal(text@),
        },
        field@ == (field.name@, field.value@),
{
}

/// A row of values or of fields is seen one by one, in its order.
pub proof fn law_rows_of_json_are_seen_in_order(fields: Seq<JsonField>, values: Seq<Json>)
    ensures
        fields_view(fields).len() == fields.len(),
        forall|i: int|
            0 <= i < fields.len() ==> #[trigger] fields_view(fields)[i] == (
                fields[i].name@,
                fields[i].value@,
            ),
        values_view(values).len() == values.len(),
        forall|i: int| 0 <= i < values.len() ==> #[trigger] values_view(values)[i] == values[i]@,
{
}

} // verus!
