//! Query values and results, and the JSON shape they have on the wire.

use vstd::prelude::*;
use vstd::string::*;

use crate::json::{
    fields_view, json_array, json_count, json_field, json_object, json_text, json_view,
    values_view, FloatValue, Json, JsonField, JsonNumber, JsonView, NumberView,
};
use crate::text::{
    ascii_lowercase, ascii_lowercase_text, hex, hex_text, lemma_text_less_order, text_before,
    text_eq, text_less,
};

verus! {

/// One named query value.
#[derive(Debug, PartialEq, Eq)]
pub struct QueryField {
    /// Name.
    pub name: String,
    /// Value.
    pub value: QueryValue,
}

/// A Node in a query result.
#[derive(Debug, PartialEq, Eq)]
pub struct NodeValue {
    /// Durable identity.
    pub id: u64,
    /// The name of its lifecycle state.
    pub state: String,
    /// Its labels.
    pub labels: Vec<String>,
    /// Its properties in increasing order of their names.
    pub properties: Vec<QueryField>,
}

/// An Edge in a query result.
#[derive(Debug, PartialEq, Eq)]
pub struct EdgeValue {
    /// Durable identity.
    pub id: u64,
    /// The name of its kind.
    pub kind: String,
    /// The Node it leaves.
    pub source: u64,
    /// The Node it enters.
    pub target: u64,
    /// Its relationship type.
    pub relationship_type: String,
    /// Its properties in increasing order of their names.
    pub properties: Vec<QueryField>,
}

/// A value of a query: a parameter, or a cell of a result.
#[derive(Debug, PartialEq, Eq)]
pub enum QueryValue {
    /// No value.
    Null,
    /// A truth value.
    Boolean(bool),
    /// An integer.
    Integer(i64),
    /// A floating-point number.
    Float(FloatValue),
    /// A text.
    Text(String),
    /// A byte string.
    Bytes(Vec<u8>),
    /// A span of time in nanoseconds.
    Duration(i64),
    /// A list.
    List(Vec<QueryValue>),
    /// A map in increasing order of its keys.
    Record(Vec<QueryField>),
    /// A Node.
    Node(NodeValue),
    /// An Edge.
    Edge(EdgeValue),
}

/// What a query value is.
#[verifier::ext_equal]
pub enum QueryView {
    /// No value.
    Null,
    /// A truth value.
    Boolean(bool),
    /// An integer.
    Integer(int),
    /// A floating-point number.
    Float(FloatValue),
    /// A text.
    Text(Seq<char>),
    /// A byte string.
    Bytes(Seq<u8>),
    /// A span of time in nanoseconds.
    Duration(int),
    /// A list.
    List(Seq<QueryView>),
    /// A map.
    Record(Seq<(Seq<char>, QueryView)>),
    /// A Node: identity, state, labels, properties.
    Node(nat, Seq<char>, Seq<Seq<char>>, Seq<(Seq<char>, QueryView)>),
    /// An Edge: identity, kind, source, target, type, properties.
    Edge(nat, Seq<char>, nat, nat, Seq<char>, Seq<(Seq<char>, QueryView)>),
}

/// The views of texts.
pub open spec fn texts_view(texts: Seq<String>) -> Seq<Seq<char>> {
    Seq::new(texts.len(), |i: int| texts[i]@)
}

/// What a query value is, taken apart to its leaves.
pub open spec fn query_view(value: QueryValue) -> QueryView
    decreases value,
{
    match value {
        QueryValue::Null => QueryView::Null,
        QueryValue::Boolean(value) => QueryView::Boolean(value),
        QueryValue::Integer(value) => QueryView::Integer(value as int),
        QueryValue::Float(value) => QueryView::Float(value),
        QueryValue::Text(text) => QueryView::Text(text@),
        QueryValue::Bytes(bytes) => QueryView::Bytes(bytes@),
        QueryValue::Duration(value) => QueryView::Duration(value as int),
        QueryValue::List(items) => QueryView::List(
            Seq::new(
                items@.len(),
                |i: int|
                    if 0 <= i < items@.len() {
                        query_view(items@[i])
                    } else {
                        QueryView::Null
                    },
            ),
        ),
        QueryValue::Record(fields) => QueryView::Record(
            Seq::new(
                fields@.len(),
                |i: int|
                    if 0 <= i < fields@.len() {
                        (fields@[i].name@, query_view(fields@[i].value))
                    } else {
                        (Seq::empty(), QueryView::Null)
                    },
            ),
        ),
        QueryValue::Node(node) => QueryView::Node(
            node.id as nat,
            node.state@,
            texts_view(node.labels@),
            Seq::new(
                node.properties@.len(),
                |i: int|
                    if 0 <= i < node.properties@.len() {
                        (node.properties@[i].name@, query_view(node.properties@[i].value))
                    } else {
                        (Seq::empty(), QueryView::Null)
                    },
            ),
        ),
        QueryValue::Edge(edge) => QueryView::Edge(
            edge.id as nat,
            edge.kind@,
            edge.source as nat,
            edge.target as nat,
            edge.relationship_type@,
            Seq::new(
                edge.properties@.len(),
                |i: int|
                    if 0 <= i < edge.properties@.len() {
                        (edge.properties@[i].name@, query_view(edge.properties@[i].value))
                    } else {
                        (Seq::empty(), QueryView::Null)
                    },
            ),
        ),
    }
}

impl View for QueryValue {
    type V = QueryView;

    open spec fn view(&self) -> QueryView {
        query_view(*self)
    }
}

/// The views of query values.
pub open spec fn query_values_view(values: Seq<QueryValue>) -> Seq<QueryView> {
    Seq::new(values.len(), |i: int| values[i]@)
}

/// The views of named query values.
pub open spec fn query_fields_view(fields: Seq<QueryField>) -> Seq<(Seq<char>, QueryView)> {
    Seq::new(fields.len(), |i: int| (fields[i].name@, fields[i].value@))
}

/// An integer as a JSON number.
pub open spec fn integer_json(value: int) -> JsonView {
    JsonView::Number(NumberView::Integer(value))
}

/// Texts as a JSON array.
pub open spec fn texts_json(texts: Seq<Seq<char>>) -> JsonView {
    JsonView::Array(Seq::new(texts.len(), |i: int| JsonView::Text(texts[i])))
}

/// The JSON shape of a query value. A float that is not finite has none and is `null`; bytes are
/// lowercase hexadecimal.
pub open spec fn value_json(value: QueryView) -> JsonView
    decreases value,
{
    match value {
        QueryView::Null => JsonView::Null,
        QueryView::Boolean(value) => JsonView::Bool(value),
        QueryView::Integer(value) => integer_json(value),
        QueryView::Float(value) => if value.is_finite() {
            JsonView::Number(NumberView::Float(value))
        } else {
            JsonView::Null
        },
        QueryView::Text(text) => JsonView::Text(text),
        QueryView::Bytes(bytes) => JsonView::Text(hex_text(bytes)),
        QueryView::Duration(value) => JsonView::Object(seq![("nanoseconds"@, integer_json(value))]),
        QueryView::List(items) => JsonView::Array(
            Seq::new(
                items.len(),
                |i: int|
                    if 0 <= i < items.len() {
                        value_json(items[i])
                    } else {
                        JsonView::Null
                    },
            ),
        ),
        QueryView::Record(fields) => JsonView::Object(
            Seq::new(
                fields.len(),
                |i: int|
                    if 0 <= i < fields.len() {
                        (fields[i].0, value_json(fields[i].1))
                    } else {
                        (Seq::empty(), JsonView::Null)
                    },
            ),
        ),
        QueryView::Node(id, state, labels, properties) => JsonView::Object(
            seq![
                ("id"@, integer_json(id as int)),
                ("labels"@, texts_json(labels)),
                (
                    "properties"@,
                    JsonView::Object(
                        Seq::new(
                            properties.len(),
                            |i: int|
                                if 0 <= i < properties.len() {
                                    (properties[i].0, value_json(properties[i].1))
                                } else {
                                    (Seq::empty(), JsonView::Null)
                                },
                        ),
                    ),
                ),
                ("state"@, JsonView::Text(ascii_lowercase_text(state))),
            ],
        ),
        QueryView::Edge(id, kind, source, target, relationship_type, properties) =>
            JsonView::Object(
            seq![
                ("id"@, integer_json(id as int)),
                ("kind"@, JsonView::Text(ascii_lowercase_text(kind))),
                (
                    "properties"@,
                    JsonView::Object(
                        Seq::new(
                            properties.len(),
                            |i: int|
                                if 0 <= i < properties.len() {
                                    (properties[i].0, value_json(properties[i].1))
                                } else {
                                    (Seq::empty(), JsonView::Null)
                                },
                        ),
                    ),
                ),
                ("source"@, integer_json(source as int)),
                ("target"@, integer_json(target as int)),
                ("type"@, JsonView::Text(relationship_type)),
            ],
        ),
    }
}

/// The JSON shapes of query values.
pub open spec fn values_json(values: Seq<QueryView>) -> Seq<JsonView> {
    Seq::new(values.len(), |i: int| value_json(values[i]))
}

/// The JSON shapes of named query values.
pub open spec fn fields_json(fields: Seq<(Seq<char>, QueryView)>) -> Seq<(Seq<char>, JsonView)> {
    Seq::new(fields.len(), |i: int| (fields[i].0, value_json(fields[i].1)))
}

/// The texts as a JSON array.
pub fn texts_to_json(texts: &Vec<String>) -> (json: Json)
    ensures
        json@ == texts_json(texts_view(texts@)),
{
    let mut items: Vec<Json> = Vec::new();
    let mut i: usize = 0;
    while i < texts.len()
        invariant
            i <= texts@.len(),
            items@.len() == i,
            forall|k: int|
                0 <= k < i ==> (#[trigger] items@[k])@ == JsonView::Text(texts@[k]@),
        decreases texts.len() - i,
    {
        items.push(json_text(texts[i].as_str()));
        i = i + 1;
    }
    proof {
        assert(values_view(items@) =~= texts_json(texts_view(texts@))->Array_0);
    }
    json_array(items)
}

/// The JSON shape of a query value.
pub fn to_json(value: &QueryValue) -> (json: Json)
    ensures
        json@ == value_json(value@),
    decreases *value,
{
    match value {
        QueryValue::Null => Json::Null,
        QueryValue::Boolean(value) => Json::Bool(*value),
        QueryValue::Integer(value) => Json::Number(JsonNumber::Integer(*value)),
        QueryValue::Float(value) => if value.finite() {
            Json::Number(JsonNumber::Float(*value))
        } else {
            Json::Null
        },
        QueryValue::Text(text) => json_text(text.as_str()),
        QueryValue::Bytes(bytes) => Json::Text(hex(bytes.as_slice())),
        QueryValue::Duration(value) => {
            let mut fields: Vec<JsonField> = Vec::new();
            fields.push(json_field("nanoseconds", Json::Number(JsonNumber::Integer(*value))));
            proof {
                assert(fields_view(fields@) =~= seq![
                    ("nanoseconds"@, integer_json(*value as int)),
                ]);
            }
            json_object(fields)
        },
        QueryValue::List(items) => {
            let values = values_to_json(items);
            proof {
                assert(values_view(values@) =~= value_json(query_view(*value))->Array_0);
            }
            json_array(values)
        },
        QueryValue::Record(items) => {
            let fields = fields_to_json(items);
            proof {
                assert(fields_view(fields@) =~= value_json(query_view(*value))->Object_0);
            }
            json_object(fields)
        },
        QueryValue::Node(node) => {
            let properties = fields_to_json(&node.properties);
            let ghost inner = fields_view(properties@);
            let mut fields: Vec<JsonField> = Vec::new();
            fields.push(json_field("id", json_count(node.id)));
            fields.push(json_field("labels", texts_to_json(&node.labels)));
            fields.push(json_field("properties", json_object(properties)));
            fields.push(json_field("state", Json::Text(ascii_lowercase(node.state.as_str()))));
            proof {
                let view = value_json(query_view(*value))->Object_0;
                assert(inner =~= view[2].1->Object_0);
                assert(fields_view(fields@) =~= view);
            }
            json_object(fields)
        },
        QueryValue::Edge(edge) => {
            let properties = fields_to_json(&edge.properties);
            let ghost inner = fields_view(properties@);
            let mut fields: Vec<JsonField> = Vec::new();
            fields.push(json_field("id", json_count(edge.id)));
            fields.push(json_field("kind", Json::Text(ascii_lowercase(edge.kind.as_str()))));
            fields.push(json_field("properties", json_object(properties)));
            fields.push(json_field("source", json_count(edge.source)));
            fields.push(json_field("target", json_count(edge.target)));
            fields.push(json_field("type", json_text(edge.relationship_type.as_str())));
            proof {
                let view = value_json(query_view(*value))->Object_0;
                assert(inner =~= view[2].1->Object_0);
                assert(fields_view(fields@) =~= view);
            }
            json_object(fields)
        },
    }
}

/// The JSON shapes of query values.
pub fn values_to_json(values: &Vec<QueryValue>) -> (items: Vec<Json>)
    ensures
        values_view(items@) == values_json(query_values_view(values@)),
    decreases *values,
{
    let mut items: Vec<Json> = Vec::new();
    let mut i: usize = 0;
    while i < values.len()
        invariant
            i <= values@.len(),
            items@.len() == i,
            forall|k: int| 0 <= k < i ==> (#[trigger] items@[k])@ == value_json(values@[k]@),
        decreases values.len() - i,
    {
        proof {
            assert(decreases_to!(*values => values@[i as int]));
        }
        items.push(to_json(&values[i]));
        i = i + 1;
    }
    proof {
        assert(values_view(items@) =~= values_json(query_values_view(values@)));
    }
    items
}

fn fields_to_json(fields: &Vec<QueryField>) -> (items: Vec<JsonField>)
    ensures
        fields_view(items@) == fields_json(query_fields_view(fields@)),
    decreases *fields,
{
    let mut items: Vec<JsonField> = Vec::new();
    let mut i: usize = 0;
    while i < fields.len()
        invariant
            i <= fields@.len(),
            items@.len() == i,
            forall|k: int|
                0 <= k < i ==> (#[trigger] items@[k])@ == (
                    fields@[k].name@,
                    value_json(fields@[k].value@),
                ),
        decreases fields.len() - i,
    {
        proof {
            assert(decreases_to!(*fields => fields@[i as int].value));
        }
        items.push(json_field(fields[i].name.as_str(), to_json(&fields[i].value)));
        i = i + 1;
    }
    proof {
        assert(fields_view(items@) =~= fields_json(query_fields_view(fields@)));
    }
    items
}

/// The text for a number that no query value holds.
pub open spec fn number_range_text() -> Seq<char> {
    "parameter number is outside the supported range"@
}

/// The query value that a JSON number stands for: an integer where it fits in 64 signed bits, else
/// the nearest float.
pub open spec fn number_value(number: NumberView) -> Option<QueryView> {
    match number {
        NumberView::Integer(value) => if i64::MIN <= value <= i64::MAX {
            Some(QueryView::Integer(value))
        } else if 0 <= value <= u64::MAX {
            Some(QueryView::Float(FloatValue::Nearest(value as u64)))
        } else {
            None
        },
        NumberView::Float(value) => Some(QueryView::Float(value)),
        NumberView::Decimal(_) => None,
    }
}

/// The query value that a JSON value stands for, unless one of its numbers stands for none.
pub open spec fn parameter_value(json: JsonView) -> Option<QueryView>
    decreases json,
{
    match json {
        JsonView::Null => Some(QueryView::Null),
        JsonView::Bool(value) => Some(QueryView::Boolean(value)),
        JsonView::Number(number) => number_value(number),
        JsonView::Text(text) => Some(QueryView::Text(text)),
        JsonView::Array(items) => if forall|i: int|
            0 <= i < items.len() ==> parameter_value(#[trigger] items[i]) is Some {
            Some(
                QueryView::List(
                    Seq::new(
                        items.len(),
                        |i: int|
                            if 0 <= i < items.len() {
                                parameter_value(items[i])->0
                            } else {
                                QueryView::Null
                            },
                    ),
                ),
            )
        } else {
            None
        },
        JsonView::Object(fields) => if forall|i: int|
            0 <= i < fields.len() ==> parameter_value((#[trigger] fields[i]).1) is Some {
            Some(
                QueryView::Record(
                    Seq::new(
                        fields.len(),
                        |i: int|
                            if 0 <= i < fields.len() {
                                (fields[i].0, parameter_value(fields[i].1)->0)
                            } else {
                                (Seq::empty(), QueryView::Null)
                            },
                    ),
                ),
            )
        } else {
            None
        },
    }
}

/// Whether a result is what a JSON value stands for.
pub open spec fn is_conversion(result: Result<QueryValue, String>, value: Option<QueryView>) -> bool {
    match result {
        Ok(converted) => value == Some(converted@),
        Err(error) => value is None && error@ == number_range_text(),
    }
}

/// Whether every named value stands for a query value.
pub open spec fn all_convert(fields: Seq<(Seq<char>, JsonView)>) -> bool {
    forall|i: int| 0 <= i < fields.len() ==> parameter_value((#[trigger] fields[i]).1) is Some
}

/// The named query values that named JSON values stand for.
pub open spec fn converted_fields(fields: Seq<(Seq<char>, JsonView)>) -> Seq<
    (Seq<char>, QueryView),
> {
    Seq::new(fields.len(), |i: int| (fields[i].0, parameter_value(fields[i].1)->0))
}

fn number_range_error() -> (error: String)
    ensures
        error@ == number_range_text(),
{
    "parameter number is outside the supported range".to_owned()
}

/// The query value that a JSON value stands for.
pub fn query_value(value: &Json) -> (result: Result<QueryValue, String>)
    ensures
        is_conversion(result, parameter_value(value@)),
        result is Ok <==> parameter_value(value@) is Some,
        result matches Ok(converted) ==> parameter_value(value@) == Some(converted@),
        result matches Err(error) ==> error@ == "parameter number is outside the supported range"@,
    decreases *value,
{
    match value {
        Json::Null => Ok(QueryValue::Null),
        Json::Bool(value) => Ok(QueryValue::Boolean(*value)),
        Json::Number(number) => match number {
            JsonNumber::Integer(value) => Ok(QueryValue::Integer(*value)),
            JsonNumber::Unsigned(value) => if *value <= 0x7fff_ffff_ffff_ffff {
                Ok(QueryValue::Integer(*value as i64))
            } else {
                Ok(QueryValue::Float(FloatValue::Nearest(*value)))
            },
            JsonNumber::Float(value) => Ok(QueryValue::Float(*value)),
            JsonNumber::Decimal(_) => Err(number_range_error()),
        },
        Json::Text(text) => Ok(QueryValue::Text(text.clone())),
        Json::Array(items) => {
            let ghost views = json_view(*value)->Array_0;
            let mut values: Vec<QueryValue> = Vec::new();
            let mut i: usize = 0;
            while i < items.len()
                invariant
                    i <= items@.len(),
                    *value == Json::Array(*items),
                    views == json_view(*value)->Array_0,
                    json_view(*value) is Array,
                    views.len() == items@.len(),
                    values@.len() == i,
                    forall|k: int|
                        #![trigger views[k]]
                        0 <= k < i ==> parameter_value(views[k]) == Some(values@[k]@),
                decreases items.len() - i,
            {
                proof {
                    assert(decreases_to!(*value => items@[i as int]));
                    assert(views[i as int] == items@[i as int]@);
                }
                match query_value(&items[i]) {
                    Ok(item) => {
                        values.push(item);
                    },
                    Err(error) => {
                        return Err(error);
                    },
                }
                i = i + 1;
            }
            let list = QueryValue::List(values);
            proof {
                assert(query_view(list)->List_0 =~= parameter_value(json_view(*value))->0->List_0);
            }
            Ok(list)
        },
        Json::Object(fields) => {
            let ghost views = json_view(*value)->Object_0;
            proof {
                assert(views =~= fields_view(fields@));
            }
            match parameters(fields) {
                Ok(values) => {
                    let record = QueryValue::Record(values);
                    proof {
                        assert(query_view(record)->Record_0 =~= converted_fields(views)) by {
                            assert(query_fields_view(values@) =~= query_view(record)->Record_0);
                        }
                        assert(parameter_value(json_view(*value))->0->Record_0
                            =~= converted_fields(views));
                    }
                    Ok(record)
                },
                Err(error) => Err(error),
            }
        },
    }
}

/// The named query values that named JSON values stand for.
pub fn parameters(fields: &Vec<JsonField>) -> (result: Result<Vec<QueryField>, String>)
    ensures
        match result {
            Ok(values) => all_convert(fields_view(fields@)) && query_fields_view(values@)
                == converted_fields(fields_view(fields@)),
            Err(error) => !all_convert(fields_view(fields@)) && error@ == number_range_text(),
        },
        result is Ok <==> forall|i: int|
            0 <= i < fields@.len() ==> parameter_value((#[trigger] fields@[i]).value@) is Some,
        result matches Ok(values) ==> values@.len() == fields@.len() && forall|i: int|
            0 <= i < values@.len() ==> (#[trigger] values@[i]).name@ == fields@[i].name@
                && parameter_value(fields@[i].value@) == Some(values@[i].value@),
        result matches Err(error) ==> error@ == "parameter number is outside the supported range"@,
    decreases *fields,
{
    let ghost views = fields_view(fields@);
    let mut values: Vec<QueryField> = Vec::new();
    let mut i: usize = 0;
    while i < fields.len()
        invariant
            i <= fields@.len(),
            views == fields_view(fields@),
            values@.len() == i,
            forall|k: int|
                #![trigger views[k]]
                0 <= k < i ==> parameter_value(views[k].1) == Some(values@[k].value@)
                    && values@[k].name@ == views[k].0,
        decreases fields.len() - i,
    {
        proof {
            assert(decreases_to!(*fields => fields@[i as int].value));
            assert(views[i as int] == fields@[i as int]@);
        }
        match query_value(&fields[i].value) {
            Ok(value) => {
                values.push(QueryField { name: fields[i].name.clone(), value });
            },
            Err(error) => {
                proof {
                    assert(parameter_value(fields@[i as int].value@) is None);
                }
                return Err(error);
            },
        }
        i = i + 1;
    }
    proof {
        assert(query_fields_view(values@) =~= converted_fields(views));
        assert forall|k: int| 0 <= k < fields@.len() implies parameter_value(
            (#[trigger] fields@[k]).value@,
        ) == Some(values@[k].value@) && values@[k].name@ == fields@[k].name@ by {
            assert(views[k] == fields@[k]@);
        }
    }
    Ok(values)
}

/// Whether JSON holds a query value without loss: no bytes, spans, Nodes, Edges or floats that are
/// not finite.
pub open spec fn is_plain(value: QueryView) -> bool
    decreases value,
{
    match value {
        QueryView::Null | QueryView::Boolean(_) | QueryView::Text(_) => true,
        QueryView::Integer(value) => i64::MIN <= value <= i64::MAX,
        QueryView::Float(value) => value.is_finite(),
        QueryView::List(items) => forall|i: int|
            0 <= i < items.len() ==> is_plain(#[trigger] items[i]),
        QueryView::Record(fields) => forall|i: int|
            0 <= i < fields.len() ==> is_plain((#[trigger] fields[i]).1),
        _ => false,
    }
}

/// A plain value that the server sends comes back as the same value when it is a parameter.
pub proof fn law_plain_values_round_trip(value: QueryView)
    requires
        is_plain(value),
    ensures
        parameter_value(value_json(value)) == Some(value),
    decreases value,
{
    match value {
        QueryView::List(items) => {
            let json = value_json(value)->Array_0;
            assert forall|i: int| 0 <= i < items.len() implies parameter_value(#[trigger] json[i])
                == Some(items[i]) by {
                assert(is_plain(items[i]));
                law_plain_values_round_trip(items[i]);
            }
            assert(parameter_value(value_json(value))->0->List_0 =~= items);
        },
        QueryView::Record(fields) => {
            let json = value_json(value)->Object_0;
            assert forall|i: int| 0 <= i < fields.len() implies parameter_value(
                (#[trigger] json[i]).1,
            ) == Some(fields[i].1) && json[i].0 == fields[i].0 by {
                assert(is_plain(fields[i].1));
                law_plain_values_round_trip(fields[i].1);
            }
            assert(parameter_value(value_json(value))->0->Record_0 =~= fields);
        },
        _ => {},
    }
}

/// The rows of a read.
#[derive(Debug, PartialEq, Eq)]
pub struct QueryResult {
    /// Projected columns in order.
    pub columns: Vec<String>,
    /// Rows in order, each with values in column order.
    pub rows: Vec<Vec<QueryValue>>,
    /// Whether the query had an explicit ordering guarantee.
    pub ordered: bool,
}

/// How much a write changed.
#[derive(Clone, Copy, Debug, PartialEq, Eq, Structural)]
pub struct WriteSummary {
    /// Nodes created.
    pub nodes_created: u64,
    /// Edges created.
    pub edges_created: u64,
    /// Nodes deleted.
    pub nodes_deleted: u64,
    /// Edges deleted.
    pub edges_deleted: u64,
    /// Properties set.
    pub properties_set: u64,
    /// Properties removed.
    pub properties_removed: u64,
}

/// What a write did.
#[derive(Debug, PartialEq, Eq)]
pub struct WriteResult {
    /// How much it changed.
    pub summary: WriteSummary,
    /// The rows it returned, if any.
    pub result: Option<QueryResult>,
}

/// What a statement gave.
#[derive(Debug, PartialEq, Eq)]
pub enum StatementResult {
    /// A read.
    Read(QueryResult),
    /// A write.
    Write(WriteResult),
}

/// The JSON shapes of rows.
pub open spec fn rows_json(rows: Seq<Vec<QueryValue>>) -> Seq<JsonView> {
    Seq::new(rows.len(), |i: int| JsonView::Array(values_json(query_values_view(rows[i]@))))
}

/// The JSON shape of the rows of a read.
pub open spec fn query_result_json(result: QueryResult) -> JsonView {
    JsonView::Object(
        seq![
            ("columns"@, texts_json(texts_view(result.columns@))),
            ("ordered"@, JsonView::Bool(result.ordered)),
            ("rows"@, JsonView::Array(rows_json(result.rows@))),
        ],
    )
}

/// The JSON shape of what a write did.
pub open spec fn write_result_json(result: WriteResult) -> JsonView {
    JsonView::Object(
        seq![
            (
                "result"@,
                match result.result {
                    Some(rows) => query_result_json(rows),
                    None => JsonView::Null,
                },
            ),
            (
                "summary"@,
                JsonView::Object(
                    seq![
                        ("edges_created"@, integer_json(result.summary.edges_created as int)),
                        ("edges_deleted"@, integer_json(result.summary.edges_deleted as int)),
                        ("nodes_created"@, integer_json(result.summary.nodes_created as int)),
                        ("nodes_deleted"@, integer_json(result.summary.nodes_deleted as int)),
                        (
                            "properties_removed"@,
                            integer_json(result.summary.properties_removed as int),
                        ),
                        ("properties_set"@, integer_json(result.summary.properties_set as int)),
                    ],
                ),
            ),
        ],
    )
}

/// The JSON shape of what a statement gave.
pub open spec fn statement_json(result: StatementResult) -> JsonView {
    match result {
        StatementResult::Read(rows) => JsonView::Object(
            seq![("kind"@, JsonView::Text("read"@)), ("result"@, query_result_json(rows))],
        ),
        StatementResult::Write(write) => JsonView::Object(
            seq![("kind"@, JsonView::Text("write"@)), ("write"@, write_result_json(write))],
        ),
    }
}

/// The JSON shape of the rows of a read.
pub fn query_result(result: &QueryResult) -> (json: Json)
    ensures
        json@ == query_result_json(*result),
{
    let mut rows: Vec<Json> = Vec::new();
    let mut i: usize = 0;
    while i < result.rows.len()
        invariant
            i <= result.rows@.len(),
            rows@.len() == i,
            forall|k: int|
                0 <= k < i ==> (#[trigger] rows@[k])@ == JsonView::Array(
                    values_json(query_values_view(result.rows@[k]@)),
                ),
        decreases result.rows.len() - i,
    {
        rows.push(json_array(values_to_json(&result.rows[i])));
        i = i + 1;
    }
    proof {
        assert(values_view(rows@) =~= rows_json(result.rows@));
    }
    let mut fields: Vec<JsonField> = Vec::new();
    fields.push(json_field("columns", texts_to_json(&result.columns)));
    fields.push(json_field("ordered", Json::Bool(result.ordered)));
    fields.push(json_field("rows", json_array(rows)));
    proof {
        assert(fields_view(fields@) =~= query_result_json(*result)->Object_0);
    }
    json_object(fields)
}

/// The JSON shape of what a write did.
pub fn write_result(result: &WriteResult) -> (json: Json)
    ensures
        json@ == write_result_json(*result),
{
    let summary = &result.summary;
    let mut counts: Vec<JsonField> = Vec::new();
    counts.push(json_field("edges_created", json_count(summary.edges_created)));
    counts.push(json_field("edges_deleted", json_count(summary.edges_deleted)));
    counts.push(json_field("nodes_created", json_count(summary.nodes_created)));
    counts.push(json_field("nodes_deleted", json_count(summary.nodes_deleted)));
    counts.push(json_field("properties_removed", json_count(summary.properties_removed)));
    counts.push(json_field("properties_set", json_count(summary.properties_set)));
    proof {
        assert(fields_view(counts@) =~= write_result_json(*result)->Object_0[1].1->Object_0);
    }
    let rows = match &result.result {
        Some(rows) => query_result(rows),
        None => Json::Null,
    };
    let mut fields: Vec<JsonField> = Vec::new();
    fields.push(json_field("result", rows));
    fields.push(json_field("summary", json_object(counts)));
    proof {
        assert(fields_view(fields@) =~= write_result_json(*result)->Object_0);
    }
    json_object(fields)
}

/// The JSON shape of what a statement gave.
pub fn statement(result: &StatementResult) -> (json: Json)
    ensures
        json@ == statement_json(*result),
{
    let mut fields: Vec<JsonField> = Vec::new();
    match result {
        StatementResult::Read(rows) => {
            fields.push(json_field("kind", json_text("read")));
            fields.push(json_field("result", query_result(rows)));
        },
        StatementResult::Write(write) => {
            fields.push(json_field("kind", json_text("write")));
            fields.push(json_field("write", write_result(write)));
        },
    }
    proof {
        assert(fields_view(fields@) =~= statement_json(*result)->Object_0);
    }
    json_object(fields)
}

/// The JSON shapes of what statements gave.
pub fn statements(results: &Vec<StatementResult>) -> (values: Vec<Json>)
    ensures
        values@.len() == results@.len(),
        forall|i: int|
            0 <= i < values@.len() ==> (#[trigger] values@[i])@ == statement_json(results@[i]),
{
    let mut values: Vec<Json> = Vec::new();
    let mut i: usize = 0;
    while i < results.len()
        invariant
            i <= results@.len(),
            values@.len() == i,
            forall|k: int|
                0 <= k < i ==> (#[trigger] values@[k])@ == statement_json(results@[k]),
        decreases results.len() - i,
    {
        values.push(statement(&results[i]));
        i = i + 1;
    }
    values
}

/// Whether two results show the same rows: the same columns, the same ordering guarantee, and
/// cell for cell the same JSON.
pub open spec fn same_rows(a: QueryResult, b: QueryResult) -> bool {
    &&& a.ordered == b.ordered
    &&& a.columns@.len() == b.columns@.len()
    &&& forall|i: int| 0 <= i < a.columns@.len() ==> (#[trigger] a.columns@[i])@ == b.columns@[i]@
    &&& a.rows@.len() == b.rows@.len()
    &&& forall|i: int|
        0 <= i < a.rows@.len() ==> (#[trigger] a.rows@[i])@.len() == b.rows@[i]@.len()
    &&& forall|i: int, j: int|
        0 <= i < a.rows@.len() && 0 <= j < a.rows@[i]@.len() ==> value_json(
            (#[trigger] a.rows@[i]@[j])@,
        ) == value_json(b.rows@[i]@[j]@)
}

/// The JSON of a read names its columns, its ordering guarantee and its rows, each column and each
/// cell at its own place.
pub proof fn law_reads_show_every_cell(result: QueryResult)
    ensures
        query_result_json(result) matches JsonView::Object(fields) && {
            &&& fields.len() == 3
            &&& fields[0].0 == "columns"@
            &&& fields[0].1 matches JsonView::Array(columns) && columns.len()
                == result.columns@.len() && forall|i: int|
                0 <= i < columns.len() ==> #[trigger] columns[i] == JsonView::Text(
                    result.columns@[i]@,
                )
            &&& fields[1] == ("ordered"@, JsonView::Bool(result.ordered))
            &&& fields[2].0 == "rows"@
            &&& fields[2].1 matches JsonView::Array(rows) && rows.len() == result.rows@.len()
                && forall|i: int|
                0 <= i < rows.len() ==> (#[trigger] rows[i] matches JsonView::Array(cells)
                    && cells.len() == result.rows@[i]@.len() && forall|j: int|
                    0 <= j < cells.len() ==> #[trigger] cells[j] == value_json(
                        result.rows@[i]@[j]@,
                    ))
        },
{
}

/// The JSON of a write tells whether the write returned rows and which, and how much it changed:
/// its `result` is `null` exactly where there are none.
pub proof fn law_writes_tell_their_rows(write: WriteResult)
    ensures
        write_result_json(write) matches JsonView::Object(fields) && {
            &&& fields.len() == 2
            &&& fields[0].0 == "result"@
            &&& fields[0].1 is Null <==> write.result is None
            &&& write.result matches Some(rows) ==> fields[0].1 == query_result_json(rows)
            &&& fields[1].0 == "summary"@
            &&& fields[1].1 matches JsonView::Object(counts) && forall|name: Seq<char>, count: int|
                counts.contains((name, JsonView::Number(NumberView::Integer(count)))) <==> {
                    ||| name == "nodes_created"@ && count == write.summary.nodes_created
                    ||| name == "edges_created"@ && count == write.summary.edges_created
                    ||| name == "nodes_deleted"@ && count == write.summary.nodes_deleted
                    ||| name == "edges_deleted"@ && count == write.summary.edges_deleted
                    ||| name == "properties_set"@ && count == write.summary.properties_set
                    ||| name == "properties_removed"@ && count == write.summary.properties_removed
                }
        },
{
    let counts = write_result_json(write)->Object_0[1].1->Object_0;
    assert forall|name: Seq<char>, count: int|
        counts.contains((name, JsonView::Number(NumberView::Integer(count)))) <==> {
            ||| name == "nodes_created"@ && count == write.summary.nodes_created
            ||| name == "edges_created"@ && count == write.summary.edges_created
            ||| name == "nodes_deleted"@ && count == write.summary.nodes_deleted
            ||| name == "edges_deleted"@ && count == write.summary.edges_deleted
            ||| name == "properties_set"@ && count == write.summary.properties_set
            ||| name == "properties_removed"@ && count == write.summary.properties_removed
        } by {
        let entry = (name, JsonView::Number(NumberView::Integer(count)));
        assert(counts.len() == 6);
        if counts.contains(entry) {
            let i = choose|i: int| 0 <= i < counts.len() && counts[i] == entry;
            assert(i == 0 || i == 1 || i == 2 || i == 3 || i == 4 || i == 5);
        }
        assert(counts.contains(counts[0]) && counts.contains(counts[1]) && counts.contains(
            counts[2],
        ) && counts.contains(counts[3]) && counts.contains(counts[4]) && counts.contains(
            counts[5],
        ));
    }
}

proof fn lemma_query_result_json(a: QueryResult, b: QueryResult)
    requires
        query_result_json(a) == query_result_json(b),
    ensures
        same_rows(a, b),
{
    law_reads_show_every_cell(a);
    law_reads_show_every_cell(b);
    let x = query_result_json(a)->Object_0;
    let y = query_result_json(b)->Object_0;
    let columns = x[0].1->Array_0;
    let rows = x[2].1->Array_0;
    assert(x[1] == y[1]);
    assert(y[0].1->Array_0 == columns);
    assert(y[2].1->Array_0 == rows);
    assert forall|i: int| 0 <= i < a.columns@.len() implies (#[trigger] a.columns@[i])@
        == b.columns@[i]@ by {
        assert(columns[i] == JsonView::Text(a.columns@[i]@));
    }
    assert forall|i: int| 0 <= i < a.rows@.len() implies (#[trigger] a.rows@[i])@.len()
        == b.rows@[i]@.len() by {
        assert(rows[i]->Array_0.len() == a.rows@[i]@.len());
    }
    assert forall|i: int, j: int|
        0 <= i < a.rows@.len() && 0 <= j < a.rows@[i]@.len() implies value_json(
        (#[trigger] a.rows@[i]@[j])@,
    ) == value_json(b.rows@[i]@[j]@) by {
        assert(rows[i]->Array_0[j] == value_json(a.rows@[i]@[j]@));
    }
}

/// The JSON of a statement's result loses nothing: from it follow whether the statement was a read
/// or a write, what the write changed, whether it returned rows, and every cell.
pub proof fn law_statement_json_loses_nothing(a: StatementResult, b: StatementResult)
    requires
        statement_json(a) == statement_json(b),
    ensures
        match (a, b) {
            (StatementResult::Read(x), StatementResult::Read(y)) => same_rows(x, y),
            (StatementResult::Write(x), StatementResult::Write(y)) => x.summary == y.summary && (
            match (x.result, y.result) {
                (None, None) => true,
                (Some(p), Some(q)) => same_rows(p, q),
                _ => false,
            }),
            _ => false,
        },
{
    reveal_strlit("read");
    reveal_strlit("write");
    assert("read"@.len() == 4 && "write"@.len() == 5);
    let s = statement_json(a)->Object_0;
    let t = statement_json(b)->Object_0;
    assert(s[0] == t[0] && s[1] == t[1]);
    match (a, b) {
        (StatementResult::Read(x), StatementResult::Read(y)) => {
            lemma_query_result_json(x, y);
        },
        (StatementResult::Write(x), StatementResult::Write(y)) => {
            let p = write_result_json(x)->Object_0;
            let q = write_result_json(y)->Object_0;
            assert(p[0] == q[0] && p[1] == q[1]);
            let c = p[1].1->Object_0;
            let d = q[1].1->Object_0;
            assert(c[0] == d[0] && c[1] == d[1] && c[2] == d[2] && c[3] == d[3] && c[4] == d[4]
                && c[5] == d[5]);
            if x.result is Some && y.result is Some {
                lemma_query_result_json(x.result->0, y.result->0);
            }
        },
        _ => {},
    }
}

/// Each kind of statement stands under its own name, with its result behind it.
pub proof fn law_statements_are_told_apart(result: StatementResult)
    ensures
        statement_json(result) matches JsonView::Object(fields) && fields.len() == 2
            && fields[0].0 == "kind"@ && (match result {
            StatementResult::Read(rows) => fields[0].1 == JsonView::Text("read"@) && fields[1] == (
                "result"@,
                query_result_json(rows),
            ),
            StatementResult::Write(write) => fields[0].1 == JsonView::Text("write"@) && fields[1]
                == ("write"@, write_result_json(write)),
        }),
{
}

/// The JSON of a value is of the value's own kind, and that of a composed value holds the JSON of
/// each of its parts at the part's place and under its name.
pub proof fn law_values_keep_their_parts(value: QueryView)
    ensures
        match value {
            QueryView::Null => value_json(value) is Null,
            QueryView::Boolean(truth) => value_json(value) == JsonView::Bool(truth),
            QueryView::Integer(number) => value_json(value) == JsonView::Number(
                NumberView::Integer(number),
            ),
            QueryView::Float(number) => if number.is_finite() {
                value_json(value) == JsonView::Number(NumberView::Float(number))
            } else {
                value_json(value) is Null
            },
            QueryView::Text(text) => value_json(value) == JsonView::Text(text),
            QueryView::Bytes(bytes) => value_json(value) == JsonView::Text(hex_text(bytes)),
            QueryView::Duration(span) => value_json(value) matches JsonView::Object(fields)
                && fields.len() == 1 && fields[0] == (
                "nanoseconds"@,
                JsonView::Number(NumberView::Integer(span)),
            ),
            QueryView::List(items) => value_json(value) matches JsonView::Array(entries)
                && entries.len() == items.len() && forall|i: int|
                0 <= i < items.len() ==> #[trigger] entries[i] == value_json(items[i]),
            QueryView::Record(fields) => value_json(value) matches JsonView::Object(entries)
                && entries.len() == fields.len() && forall|i: int|
                0 <= i < fields.len() ==> #[trigger] entries[i] == (
                    fields[i].0,
                    value_json(fields[i].1),
                ),
            QueryView::Node(id, state, labels, properties) => value_json(
                value,
            ) matches JsonView::Object(entries) && {
                &&& entries.len() == 4
                &&& entries[0] == ("id"@, JsonView::Number(NumberView::Integer(id as int)))
                &&& entries[1].0 == "labels"@
                &&& entries[1].1 matches JsonView::Array(texts) && texts.len() == labels.len()
                    && forall|i: int|
                    0 <= i < labels.len() ==> #[trigger] texts[i] == JsonView::Text(labels[i])
                &&& entries[2] == (
                    "properties"@,
                    value_json(QueryView::Record(properties)),
                )
                &&& entries[3] == ("state"@, JsonView::Text(ascii_lowercase_text(state)))
            },
            QueryView::Edge(id, kind, source, target, relationship_type, properties) => value_json(
                value,
            ) matches JsonView::Object(entries) && {
                &&& entries.len() == 6
                &&& entries[0] == ("id"@, JsonView::Number(NumberView::Integer(id as int)))
                &&& entries[1] == ("kind"@, JsonView::Text(ascii_lowercase_text(kind)))
                &&& entries[2] == (
                    "properties"@,
                    value_json(QueryView::Record(properties)),
                )
                &&& entries[3] == ("source"@, JsonView::Number(NumberView::Integer(source as int)))
                &&& entries[4] == ("target"@, JsonView::Number(NumberView::Integer(target as int)))
                &&& entries[5] == ("type"@, JsonView::Text(relationship_type))
            },
        },
{
    match value {
        QueryView::Node(id, state, labels, properties) => {
            assert(value_json(value)->Object_0[2].1->Object_0 =~= value_json(
                QueryView::Record(properties),
            )->Object_0);
        },
        QueryView::Edge(id, kind, source, target, relationship_type, properties) => {
            assert(value_json(value)->Object_0[2].1->Object_0 =~= value_json(
                QueryView::Record(properties),
            )->Object_0);
        },
        _ => {},
    }
}

/// A parameter is taken as it was sent, part for part. Only a number can stand for none: one that
/// is no float and outside both the signed and the unsigned 64-bit range.
pub proof fn law_parameters_are_taken_as_sent(json: JsonView)
    ensures
        match json {
            JsonView::Null => parameter_value(json) == Some(QueryView::Null),
            JsonView::Bool(truth) => parameter_value(json) == Some(QueryView::Boolean(truth)),
            JsonView::Number(NumberView::Integer(number)) => {
                &&& parameter_value(json) is Some <==> i64::MIN <= number <= u64::MAX
                &&& i64::MIN <= number <= i64::MAX ==> parameter_value(json) == Some(
                    QueryView::Integer(number),
                )
                &&& i64::MAX < number <= u64::MAX ==> parameter_value(json) == Some(
                    QueryView::Float(FloatValue::Nearest(number as u64)),
                )
            },
            JsonView::Number(NumberView::Float(number)) => parameter_value(json) == Some(
                QueryView::Float(number),
            ),
            JsonView::Number(NumberView::Decimal(_)) => parameter_value(json) is None,
            JsonView::Text(text) => parameter_value(json) == Some(QueryView::Text(text)),
            JsonView::Array(items) => {
                &&& parameter_value(json) is Some <==> forall|i: int|
                    0 <= i < items.len() ==> parameter_value(#[trigger] items[i]) is Some
                &&& parameter_value(json) matches Some(value) ==> value matches QueryView::List(
                    values,
                ) && values.len() == items.len() && forall|i: int|
                    0 <= i < items.len() ==> parameter_value(items[i]) == Some(#[trigger] values[i])
            },
            JsonView::Object(fields) => {
                &&& parameter_value(json) is Some <==> forall|i: int|
                    0 <= i < fields.len() ==> parameter_value((#[trigger] fields[i]).1) is Some
                &&& parameter_value(json) matches Some(value) ==> value matches QueryView::Record(
                    values,
                ) && values.len() == fields.len() && forall|i: int|
                    0 <= i < fields.len() ==> (#[trigger] values[i]).0 == fields[i].0
                        && parameter_value(fields[i].1) == Some(values[i].1)
            },
        },
{
}

/// Whether fields stand in strictly increasing order of their names.
pub open spec fn sorted_fields(fields: Seq<(Seq<char>, JsonView)>) -> bool {
    forall|i: int, j: int|
        #![trigger fields[i], fields[j]]
        0 <= i < j < fields.len() ==> text_less(fields[i].0, fields[j].0)
}

/// The fields as a map.
pub open spec fn fields_map(fields: Seq<(Seq<char>, JsonView)>) -> Map<Seq<char>, JsonView>
    decreases fields.len(),
{
    if fields.len() == 0 {
        Map::empty()
    } else {
        fields_map(fields.drop_last()).insert(fields.last().0, fields.last().1)
    }
}

/// The cell of a row in the column at position `i`: `null` where the row is too short.
pub open spec fn cell_json(row: Seq<QueryValue>, i: int) -> JsonView {
    if 0 <= i < row.len() {
        value_json(row[i]@)
    } else {
        JsonView::Null
    }
}

/// The first `count` columns of a row as a map: a later column of the same name counts.
pub open spec fn row_map(columns: Seq<String>, row: Seq<QueryValue>, count: nat) -> Map<
    Seq<char>,
    JsonView,
>
    decreases count,
{
    if count == 0 {
        Map::empty()
    } else {
        row_map(columns, row, (count - 1) as nat).insert(
            columns[count - 1]@,
            cell_json(row, count - 1),
        )
    }
}

proof fn lemma_fields_map(fields: Seq<(Seq<char>, JsonView)>)
    ensures
        forall|name: Seq<char>| #[trigger]
            fields_map(fields).dom().contains(name) <==> exists|i: int|
                0 <= i < fields.len() && (#[trigger] fields[i]).0 == name,
        sorted_fields(fields) ==> forall|i: int|
            0 <= i < fields.len() ==> fields_map(fields)[(#[trigger] fields[i]).0] == fields[i].1,
    decreases fields.len(),
{
    if fields.len() > 0 {
        let front = fields.drop_last();
        lemma_fields_map(front);
        assert forall|name: Seq<char>| #[trigger]
            fields_map(fields).dom().contains(name) <==> exists|i: int|
                0 <= i < fields.len() && (#[trigger] fields[i]).0 == name by {
            if fields_map(front).dom().contains(name) {
                let i = choose|i: int| 0 <= i < front.len() && (#[trigger] front[i]).0 == name;
                assert(fields[i].0 == name);
            }
            if exists|i: int| 0 <= i < fields.len() && (#[trigger] fields[i]).0 == name {
                let i = choose|i: int| 0 <= i < fields.len() && (#[trigger] fields[i]).0 == name;
                if i < front.len() {
                    assert(front[i].0 == name);
                }
            }
            if fields.last().0 == name {
                assert(fields[fields.len() - 1].0 == name);
            }
        }
        if sorted_fields(fields) {
            assert(sorted_fields(front)) by {
                assert forall|i: int, j: int|
                    #![trigger front[i], front[j]]
                    0 <= i < j < front.len() implies text_less(front[i].0, front[j].0) by {
                    assert(front[i] == fields[i] && front[j] == fields[j]);
                }
            }
            assert forall|i: int| 0 <= i < fields.len() implies fields_map(fields)[(
            #[trigger] fields[i]).0] == fields[i].1 by {
                if i < front.len() {
                    assert(front[i] == fields[i]);
                    assert(text_less(fields[i].0, fields[fields.len() - 1].0));
                    lemma_text_less_order(fields[i].0, fields.last().0, fields.last().0);
                }
            }
        }
    }
}

proof fn lemma_map_of_update(fields: Seq<(Seq<char>, JsonView)>, k: int, value: JsonView)
    requires
        sorted_fields(fields),
        0 <= k < fields.len(),
    ensures
        sorted_fields(fields.update(k, (fields[k].0, value))),
        fields_map(fields.update(k, (fields[k].0, value))) == fields_map(fields).insert(
            fields[k].0,
            value,
        ),
{
    let after = fields.update(k, (fields[k].0, value));
    assert(sorted_fields(after)) by {
        assert forall|i: int, j: int|
            #![trigger after[i], after[j]]
            0 <= i < j < after.len() implies text_less(after[i].0, after[j].0) by {
            assert(after[i].0 == fields[i].0 && after[j].0 == fields[j].0);
        }
    }
    lemma_fields_map(fields);
    let map = fields_map(fields).insert(fields[k].0, value);
    assert forall|i: int| 0 <= i < after.len() implies map.dom().contains((#[trigger] after[i]).0)
        && map[after[i].0] == after[i].1 by {
        assert(after[i].0 == fields[i].0);
        assert(fields_map(fields)[fields[i].0] == fields[i].1);
        lemma_text_less_order(fields[i].0, fields[k].0, fields[k].0);
        lemma_text_less_order(fields[k].0, fields[i].0, fields[i].0);
    }
    assert forall|name: Seq<char>| #[trigger] map.dom().contains(name) implies exists|i: int|
        0 <= i < after.len() && (#[trigger] after[i]).0 == name by {
        if name == fields[k].0 {
            assert(after[k].0 == name);
        } else {
            let i = choose|i: int| 0 <= i < fields.len() && (#[trigger] fields[i]).0 == name;
            assert(after[i].0 == name);
        }
    }
    lemma_same_map(after, map);
}

/// A sorted list of fields has the map `map` when their names are its keys and their values its
/// values.
proof fn lemma_same_map(fields: Seq<(Seq<char>, JsonView)>, map: Map<Seq<char>, JsonView>)
    requires
        sorted_fields(fields),
        forall|i: int|
            0 <= i < fields.len() ==> map.dom().contains((#[trigger] fields[i]).0) && map[fields[i].0]
                == fields[i].1,
        forall|name: Seq<char>| #[trigger]
            map.dom().contains(name) ==> exists|i: int|
                0 <= i < fields.len() && (#[trigger] fields[i]).0 == name,
    ensures
        fields_map(fields) == map,
{
    lemma_fields_map(fields);
    assert forall|name: Seq<char>| #[trigger]
        fields_map(fields).dom().contains(name) implies fields_map(fields)[name] == map[name] by {
        let i = choose|i: int| 0 <= i < fields.len() && (#[trigger] fields[i]).0 == name;
        assert(fields_map(fields)[fields[i].0] == fields[i].1);
    }
    assert forall|name: Seq<char>|
        fields_map(fields).dom().contains(name) <==> #[trigger] map.dom().contains(name) by {
        if fields_map(fields).dom().contains(name) {
            let i = choose|i: int| 0 <= i < fields.len() && (#[trigger] fields[i]).0 == name;
            assert(map.dom().contains(fields[i].0));
        }
    }
    assert(fields_map(fields) =~= map);
}

proof fn lemma_map_of_insert(fields: Seq<(Seq<char>, JsonView)>, k: int, field: (Seq<char>, JsonView))
    requires
        sorted_fields(fields),
        0 <= k <= fields.len(),
        forall|i: int|
            #![trigger fields[i]]
            0 <= i < k ==> text_less(fields[i].0, field.0),
        forall|i: int|
            #![trigger fields[i]]
            k <= i < fields.len() ==> text_less(field.0, fields[i].0),
    ensures
        sorted_fields(fields.insert(k, field)),
        fields_map(fields.insert(k, field)) == fields_map(fields).insert(field.0, field.1),
{
    let after = fields.insert(k, field);
    assert forall|i: int, j: int|
        #![trigger after[i], after[j]]
        0 <= i < j < after.len() implies text_less(after[i].0, after[j].0) by {
        let x = if i < k { i } else { i - 1 };
        let y = if j < k { j } else { j - 1 };
        if i != k {
            assert(after[i] == fields[x]);
        }
        if j != k {
            assert(after[j] == fields[y]);
        }
    }
    lemma_fields_map(fields);
    let map = fields_map(fields).insert(field.0, field.1);
    assert forall|i: int| 0 <= i < after.len() implies map.dom().contains((#[trigger] after[i]).0)
        && map[after[i].0] == after[i].1 by {
        let x = if i < k { i } else { i - 1 };
        if i != k {
            assert(after[i] == fields[x]);
            assert(fields_map(fields)[fields[x].0] == fields[x].1);
            lemma_text_less_order(fields[x].0, field.0, field.0);
        }
    }
    assert forall|name: Seq<char>| #[trigger] map.dom().contains(name) implies exists|i: int|
        0 <= i < after.len() && (#[trigger] after[i]).0 == name by {
        if name == field.0 {
            assert(after[k].0 == name);
        } else {
            let i = choose|i: int| 0 <= i < fields.len() && (#[trigger] fields[i]).0 == name;
            let y = if i < k { i } else { i + 1 };
            assert(after[y] == fields[i]);
        }
    }
    lemma_same_map(after, map);
}

proof fn lemma_row_map(columns: Seq<String>, row: Seq<QueryValue>, count: nat)
    requires
        count <= columns.len(),
    ensures
        forall|k: int|
            0 <= k < count ==> row_map(columns, row, count).dom().contains(
                (#[trigger] columns[k])@,
            ),
        forall|name: Seq<char>| #[trigger]
            row_map(columns, row, count).dom().contains(name) ==> exists|k: int|
                0 <= k < count && (#[trigger] columns[k])@ == name && row_map(
                    columns,
                    row,
                    count,
                )[name] == cell_json(row, k) && (forall|later: int|
                    k < later < count ==> (#[trigger] columns[later])@ != name),
    decreases count,
{
    if count > 0 {
        let before = (count - 1) as nat;
        lemma_row_map(columns, row, before);
        let map = row_map(columns, row, count);
        assert forall|name: Seq<char>| #[trigger] map.dom().contains(name) implies exists|k: int|
            0 <= k < count && (#[trigger] columns[k])@ == name && map[name] == cell_json(row, k) && (
            forall|later: int|
                k < later < count ==> (#[trigger] columns[later])@ != name) by {
            if name == columns[count - 1]@ {
                let k = count - 1;
                assert(columns[k]@ == name && map[name] == cell_json(row, k));
            } else {
                assert(row_map(columns, row, before).dom().contains(name));
                let k = choose|k: int|
                    0 <= k < before && (#[trigger] columns[k])@ == name && row_map(
                        columns,
                        row,
                        before,
                    )[name] == cell_json(row, k) && (forall|later: int|
                        k < later < before ==> (#[trigger] columns[later])@ != name);
                assert(columns[k]@ == name && map[name] == cell_json(row, k));
            }
        }
    }
}

/// The object of a row names each column once, with the cell of the last column of that name, and
/// holds nothing else. A row that is too short for a column has `null` there.
pub proof fn law_row_objects_show_their_columns(
    columns: Seq<String>,
    row: Seq<QueryValue>,
    fields: Seq<(Seq<char>, JsonView)>,
)
    requires
        sorted_fields(fields),
        fields_map(fields) == row_map(columns, row, columns.len()),
    ensures
        forall|k: int|
            0 <= k < columns.len() ==> exists|f: int|
                0 <= f < fields.len() && (#[trigger] fields[f]).0 == (#[trigger] columns[k])@,
        forall|f: int|
            0 <= f < fields.len() ==> exists|k: int|
                0 <= k < columns.len() && (#[trigger] columns[k])@ == (#[trigger] fields[f]).0
                    && fields[f].1 == (if k < row.len() {
                    value_json(row[k]@)
                } else {
                    JsonView::Null
                }) && (forall|later: int|
                    k < later < columns.len() ==> (#[trigger] columns[later])@ != fields[f].0),
        forall|f: int, g: int|
            #![trigger fields[f], fields[g]]
            0 <= f < g < fields.len() ==> fields[f].0 != fields[g].0,
{
    let map = row_map(columns, row, columns.len());
    lemma_fields_map(fields);
    lemma_row_map(columns, row, columns.len());
    assert forall|k: int| 0 <= k < columns.len() implies exists|f: int|
        0 <= f < fields.len() && (#[trigger] fields[f]).0 == (#[trigger] columns[k])@ by {
        assert(map.dom().contains(columns[k]@));
    }
    assert forall|f: int| 0 <= f < fields.len() implies exists|k: int|
        0 <= k < columns.len() && (#[trigger] columns[k])@ == (#[trigger] fields[f]).0
            && fields[f].1 == (if k < row.len() {
            value_json(row[k]@)
        } else {
            JsonView::Null
        }) && (forall|later: int|
            k < later < columns.len() ==> (#[trigger] columns[later])@ != fields[f].0) by {
        let name = fields[f].0;
        assert(map[name] == fields[f].1);
        assert(map.dom().contains(name));
        let k = choose|k: int|
            0 <= k < columns.len() && (#[trigger] columns[k])@ == name && map[name] == cell_json(
                row,
                k,
            ) && (forall|later: int|
                k < later < columns.len() ==> (#[trigger] columns[later])@ != name);
        assert(columns[k]@ == fields[f].0);
    }
    assert forall|f: int, g: int| #![trigger fields[f], fields[g]] 0 <= f < g < fields.len() implies
        fields[f].0 != fields[g].0 by {
        assert(text_less(fields[f].0, fields[g].0));
        lemma_text_less_order(fields[f].0, fields[g].0, fields[g].0);
        lemma_text_less_order(fields[g].0, fields[g].0, fields[g].0);
    }
}

/// Sets a field of an object whose fields stand in order.
fn set_field(fields: &mut Vec<JsonField>, name: &str, value: Json)
    requires
        sorted_fields(fields_view(old(fields)@)),
    ensures
        sorted_fields(fields_view(final(fields)@)),
        fields_map(fields_view(final(fields)@)) == fields_map(fields_view(old(fields)@)).insert(
            name@,
            value@,
        ),
{
    let ghost before = fields@;
    let ghost views = fields_view(fields@);
    let ghost view = value@;
    let mut k: usize = 0;
    while k < fields.len() && text_before(fields[k].name.as_str(), name)
        invariant
            k <= fields@.len(),
            fields@ == before,
            views == fields_view(before),
            forall|i: int| #![trigger views[i]] 0 <= i < k ==> text_less(views[i].0, name@),
        decreases fields.len() - k,
    {
        assert(views[k as int] == before[k as int]@);
        k = k + 1;
    }
    let field = json_field(name, value);
    if k < fields.len() {
        assert(views[k as int] == before[k as int]@);
        if text_eq(fields[k].name.as_str(), name) {
            fields.set(k, field);
            proof {
                assert(fields_view(fields@) =~= views.update(k as int, (views[k as int].0, view)));
                lemma_map_of_update(views, k as int, view);
            }
            return;
        }
    }
    proof {
        assert forall|i: int|
            #![trigger views[i]]
            k <= i < views.len() implies text_less(name@, views[i].0) by {
            assert(views[k as int] == before[k as int]@);
            lemma_text_less_order(name@, views[k as int].0, views[i].0);
        }
        lemma_map_of_insert(views, k as int, field@);
    }
    fields.insert(k, field);
    proof {
        assert(fields_view(fields@) =~= views.insert(k as int, (name@, view)));
    }
}

/// The JSON object of one row: its columns' names with its cells.
pub fn row_object(columns: &Vec<String>, row: &Vec<QueryValue>) -> (json: Json)
    ensures
        json@ matches JsonView::Object(fields) && sorted_fields(fields) && fields_map(fields)
            == row_map(columns@, row@, columns@.len()),
{
    let mut fields: Vec<JsonField> = Vec::new();
    let mut i: usize = 0;
    proof {
        assert(fields_view(fields@) =~= Seq::empty());
    }
    while i < columns.len()
        invariant
            i <= columns@.len(),
            sorted_fields(fields_view(fields@)),
            fields_map(fields_view(fields@)) == row_map(columns@, row@, i as nat),
        decreases columns.len() - i,
    {
        let cell = if i < row.len() {
            to_json(&row[i])
        } else {
            Json::Null
        };
        set_field(&mut fields, columns[i].as_str(), cell);
        i = i + 1;
    }
    json_object(fields)
}

/// A query value is seen as the engine gave it: of the same kind, with the same contents, its items,
/// fields, labels and properties all there and in the same order.
pub proof fn law_query_values_are_seen_as_given(value: QueryValue)
    ensures
        match value {
            QueryValue::Null => value@ is Null,
            QueryValue::Boolean(truth) => value@ == QueryView::Boolean(truth),
            QueryValue::Integer(number) => value@ == QueryView::Integer(number as int),
            QueryValue::Float(number) => value@ == QueryView::Float(number),
            QueryValue::Text(text) => value@ == QueryView::Text(text@),
            QueryValue::Bytes(bytes) => value@ == QueryView::Bytes(bytes@),
            QueryValue::Duration(span) => value@ == QueryView::Duration(span as int),
            QueryValue::List(items) => value@ matches QueryView::List(seen) && seen.len()
                == items@.len() && forall|i: int|
                0 <= i < items@.len() ==> #[trigger] seen[i] == items@[i]@,
            QueryValue::Record(fields) => value@ matches QueryView::Record(seen) && seen.len()
                == fields@.len() && forall|i: int|
                0 <= i < fields@.len() ==> #[trigger] seen[i] == (
                    fields@[i].name@,
                    fields@[i].value@,
                ),
            QueryValue::Node(node) => value@ matches QueryView::Node(id, state, labels, seen) && {
                &&& id == node.id
                &&& state == node.state@
                &&& labels.len() == node.labels@.len()
                &&& forall|i: int|
                    0 <= i < labels.len() ==> #[trigger] labels[i] == node.labels@[i]@
                &&& seen.len() == node.properties@.len()
                &&& forall|i: int|
                    0 <= i < seen.len() ==> #[trigger] seen[i] == (
                        node.properties@[i].name@,
                        node.properties@[i].value@,
                    )
            },
            QueryValue::Edge(edge) => value@ matches QueryView::Edge(
                id,
                kind,
                source,
                target,
                relationship_type,
                seen,
            ) && {
                &&& id == edge.id
                &&& kind == edge.kind@
                &&& source == edge.source
                &&& target == edge.target
                &&& relationship_type == edge.relationship_type@
                &&& seen.len() == edge.properties@.len()
                &&& forall|i: int|
                    0 <= i < seen.len() ==> #[trigger] seen[i] == (
                        edge.properties@[i].name@,
                        edge.properties@[i].value@,
                    )
            },
        },
{
}

/// Texts, values and named values are seen one by one, in their order.
pub proof fn law_lists_are_seen_in_order(
    texts: Seq<String>,
    values: Seq<QueryValue>,
    fields: Seq<QueryField>,
)
    ensures
        texts_view(texts).len() == texts.len(),
        forall|i: int| 0 <= i < texts.len() ==> #[trigger] texts_view(texts)[i] == texts[i]@,
        query_values_view(values).len() == values.len(),
        forall|i: int|
            0 <= i < values.len() ==> #[trigger] query_values_view(values)[i] == values[i]@,
        query_fields_view(fields).len() == fields.len(),
        forall|i: int|
            0 <= i < fields.len() ==> #[trigger] query_fields_view(fields)[i] == (
                fields[i].name@,
                fields[i].value@,
            ),
{
}

} // verus!
