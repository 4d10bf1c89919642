//! The structured-text decoder: a response body is parsed into a document
//! tree, and the tree is read into records, one shape per entity kind.

use vstd::prelude::*;
use crate::records::{
    path_entries, point_entries, relation_records, DecodeError, MemberModel, MemberRecord,
    PathModel, PathRecord, PointModel, PointRecord, RelationRecord,
};
use crate::tags::TagTable;
use crate::text::{find, is_decimal_numeral, is_numeral, lookup};

verus! {

/// A parsed document: the tree of values that a body in the structured-text
/// format writes down.
#[derive(Debug)]
pub enum Json {
    Null,
    Bool(bool),
    /// A number: its value as a 64-bit integer where it is one, and its
    /// decimal numeral.
    Number { integer: Option<i64>, text: String },
    Text(String),
    Array(Vec<Json>),
    /// An object: its members by name. Where a name comes twice, the later
    /// member is the one that counts.
    Object(Vec<(String, Json)>),
}

/// `serde_json::Value`, as the parser hands it over; nothing is read from it
/// but by rebuilding it as a `Json`.
#[verifier::external_type_specification]
#[verifier::external_body]
pub struct ExJsonValue(serde_json::Value);

/// `serde_json::Error`: why the parser gave up. Only its presence is used.
#[verifier::external_type_specification]
#[verifier::external_body]
pub struct ExJsonError(serde_json::Error);

/// The document that the parser reads from `text`, or `None` where `text`
/// is not well formed.
pub uninterp spec fn json_document(text: Seq<char>) -> Option<Json>;

/// Rebuilds a `serde_json::Value` as a document tree, variant by variant. A
/// number keeps what `Number::as_i64` gives and the numeral that its
/// `Display` writes.
#[verifier::external_body]
fn json_of_value(value: serde_json::Value) -> Json {
    match value {
        serde_json::Value::Null => Json::Null,
        serde_json::Value::Bool(b) => Json::Bool(b),
        serde_json::Value::Number(n) => Json::Number { integer: n.as_i64(), text: n.to_string() },
        serde_json::Value::String(s) => Json::Text(s),
        serde_json::Value::Array(items) => Json::Array(
            items.into_iter().map(json_of_value).collect(),
        ),
        serde_json::Value::Object(members) => Json::Object(
            members.into_iter().map(|(name, v)| (name, json_of_value(v))).collect(),
        ),
    }
}

/// Parses a body in the structured-text format.
///
/// Calls `serde_json::from_str` for a `serde_json::Value`. The parser reads
/// nothing but its argument, so the outcome is a function of the text: it is
/// the document named `json_document`, and an error exactly where there is
/// no such document.
#[verifier::external_body]
pub(crate) fn parse_document(text: &str) -> (r: Result<Json, serde_json::Error>)
    ensures
        match r {
            Ok(doc) => json_document(text@) == Some(doc),
            Err(_) => json_document(text@) is None,
        },
{
    serde_json::from_str::<serde_json::Value>(text).map(json_of_value)
}

/// The member of object `value` named `key`; `None` where `value` is no
/// object or has no such member.
pub open spec fn member(value: Json, key: Seq<char>) -> Option<Json> {
    match value {
        Json::Object(members) => lookup(members@, key),
        _ => None,
    }
}

/// The value behind an optional reference.
pub open spec fn pointee(value: Option<&Json>) -> Option<Json> {
    match value {
        Some(v) => Some(*v),
        None => None,
    }
}

/// The integer that `value` holds, where it is an integer number.
pub open spec fn integer_of(value: Option<Json>) -> Option<i64> {
    match value {
        Some(Json::Number { integer, text }) => integer,
        _ => None,
    }
}

/// The numeral of `value`, where it is a number.
pub open spec fn numeral_of(value: Option<Json>) -> Option<Seq<char>> {
    match value {
        Some(Json::Number { integer, text }) => Some(text@),
        _ => None,
    }
}

/// The coordinate that `value` writes down: its numeral, where it is a
/// number and the numeral is that of a finite decimal number.
pub open spec fn coordinate_of(value: Option<Json>) -> Option<Seq<char>> {
    match numeral_of(value) {
        Some(numeral) => if is_numeral(numeral) {
            Some(numeral)
        } else {
            None
        },
        None => None,
    }
}

/// The characters of `value`, where it is a string.
pub open spec fn text_of(value: Option<Json>) -> Option<Seq<char>> {
    match value {
        Some(Json::Text(s)) => Some(s@),
        _ => None,
    }
}

/// The items of `value`, where it is an array.
pub open spec fn items_of(value: Option<Json>) -> Option<Seq<Json>> {
    match value {
        Some(Json::Array(items)) => Some(items@),
        _ => None,
    }
}

/// Finds the member of object `value` named `key`.
pub fn get_member<'a>(value: &'a Json, key: &str) -> (r: Option<&'a Json>)
    ensures
        pointee(r) == member(*value, key@),
{
    match value {
        Json::Object(members) => find(members, key),
        _ => None,
    }
}

/// Reads a member that must be an integer.
pub fn get_integer(value: &Json, key: &str) -> (r: Option<i64>)
    ensures
        r == integer_of(member(*value, key@)),
{
    match get_member(value, key) {
        Some(Json::Number { integer, text }) => *integer,
        _ => None,
    }
}

/// Reads a member that must be a coordinate.
pub fn get_coordinate(value: &Json, key: &str) -> (r: Option<String>)
    ensures
        match r {
            Some(s) => coordinate_of(member(*value, key@)) == Some(s@),
            None => coordinate_of(member(*value, key@)) is None,
        },
{
    match get_member(value, key) {
        Some(Json::Number { integer, text }) => {
            if is_decimal_numeral(text.as_str()) {
                Some(text.clone())
            } else {
                None
            }
        },
        _ => None,
    }
}

/// Reads a member that must be a string.
pub fn get_text(value: &Json, key: &str) -> (r: Option<String>)
    ensures
        match r {
            Some(s) => text_of(member(*value, key@)) == Some(s@),
            None => text_of(member(*value, key@)) is None,
        },
{
    match get_member(value, key) {
        Some(Json::Text(s)) => Some(s.clone()),
        _ => None,
    }
}

/// True when `value` can stand for a tag table: it is absent or null, or an
/// object whose members are all strings.
pub open spec fn tags_ok(value: Option<Json>) -> bool {
    match value {
        None => true,
        Some(Json::Null) => true,
        Some(Json::Object(members)) => forall|i: int|
            0 <= i < members@.len() ==> (#[trigger] members@[i]).1 is Text,
        _ => false,
    }
}

/// The table that the first `n` members of an object of strings make.
pub open spec fn tag_fold(members: Seq<(String, Json)>, n: nat) -> Map<Seq<char>, Seq<char>>
    decreases n,
{
    if n == 0 {
        Map::empty()
    } else {
        tag_fold(members, (n - 1) as nat).insert(
            members[n - 1].0@,
            text_of(Some(members[n - 1].1)).unwrap(),
        )
    }
}

/// The tag table that `value` stands for: empty where it is absent or null.
pub open spec fn tags_of(value: Option<Json>) -> Map<Seq<char>, Seq<char>> {
    match value {
        Some(Json::Object(members)) => tag_fold(members@, members@.len()),
        _ => Map::empty(),
    }
}

/// Reads the tag table of an element.
#[verifier::loop_isolation(false)]
pub fn decode_tags(value: Option<&Json>) -> (r: Result<TagTable, DecodeError>)
    ensures
        match r {
            Ok(table) => tags_ok(pointee(value)) && table@ == tags_of(pointee(value)),
            Err(_) => !tags_ok(pointee(value)),
        },
{
    let mut table = TagTable::new();
    match value {
        None => Ok(table),
        Some(Json::Null) => Ok(table),
        Some(Json::Object(members)) => {
            let mut i: usize = 0;
            while i < members.len()
                invariant
                    i <= members.len(),
                    forall|j: int| 0 <= j < i ==> (#[trigger] members@[j]).1 is Text,
                    table@ == tag_fold(members@, i as nat),
                decreases members.len() - i,
            {
                match &members[i].1 {
                    Json::Text(s) => {
                        table.insert(members[i].0.clone(), s.clone());
                    },
                    _ => {
                        return Err(DecodeError::MalformedPayload);
                    },
                }
                i = i + 1;
            }
            Ok(table)
        },
        Some(_) => Err(DecodeError::MalformedPayload),
    }
}

/// True when `item` has what every element must have: it is an object with
/// an integer `id` and a string `type`, and its `tags` can stand for a tag
/// table.
pub open spec fn element_ok(item: Json) -> bool {
    &&& item is Object
    &&& integer_of(member(item, "id"@)) is Some
    &&& text_of(member(item, "type"@)) is Some
    &&& tags_ok(member(item, "tags"@))
}

/// True when `item` is a well-formed point: an element with finite decimal
/// numbers for `lat` and `lon`.
pub open spec fn point_ok(item: Json) -> bool {
    &&& element_ok(item)
    &&& coordinate_of(member(item, "lat"@)) is Some
    &&& coordinate_of(member(item, "lon"@)) is Some
}

/// The point that a well-formed `item` writes down.
pub open spec fn point_of(item: Json) -> (i64, PointModel) {
    (
        integer_of(member(item, "id"@)).unwrap(),
        PointModel {
            lat: coordinate_of(member(item, "lat"@)).unwrap(),
            lon: coordinate_of(member(item, "lon"@)).unwrap(),
            tags: tags_of(member(item, "tags"@)),
        },
    )
}

/// Reads what every element has: its identifier and its tags.
pub fn decode_element(item: &Json) -> (r: Result<(i64, TagTable), DecodeError>)
    ensures
        match r {
            Ok((id, tags)) => element_ok(*item) && Some(id) == integer_of(member(*item, "id"@))
                && tags@ == tags_of(member(*item, "tags"@)),
            Err(_) => !element_ok(*item),
        },
{
    match item {
        Json::Object(_) => {},
        _ => {
            return Err(DecodeError::MalformedPayload);
        },
    }
    let id = match get_integer(item, "id") {
        Some(id) => id,
        None => {
            return Err(DecodeError::MalformedPayload);
        },
    };
    if get_text(item, "type").is_none() {
        return Err(DecodeError::MalformedPayload);
    }
    match decode_tags(get_member(item, "tags")) {
        Ok(tags) => Ok((id, tags)),
        Err(e) => Err(e),
    }
}

/// Reads one point.
pub fn decode_point(item: &Json) -> (r: Result<PointRecord, DecodeError>)
    ensures
        match r {
            Ok(record) => point_ok(*item) && record@ == point_of(*item),
            Err(_) => !point_ok(*item),
        },
{
    let (id, tags) = match decode_element(item) {
        Ok(pair) => pair,
        Err(e) => {
            return Err(e);
        },
    };
    let lat = match get_coordinate(item, "lat") {
        Some(s) => s,
        None => {
            return Err(DecodeError::MalformedPayload);
        },
    };
    let lon = match get_coordinate(item, "lon") {
        Some(s) => s,
        None => {
            return Err(DecodeError::MalformedPayload);
        },
    };
    Ok(PointRecord { id, lat, lon, tags })
}

/// True when `value` is an array of integers.
pub open spec fn ids_ok(value: Option<Json>) -> bool {
    match value {
        Some(Json::Array(items)) => forall|i: int|
            0 <= i < items@.len() ==> integer_of(Some(#[trigger] items@[i])) is Some,
        _ => false,
    }
}

/// The integers of an array of integers, in order.
pub open spec fn ids_of(value: Option<Json>) -> Seq<i64> {
    match value {
        Some(Json::Array(items)) => items@.map_values(|v: Json| integer_of(Some(v)).unwrap()),
        _ => Seq::empty(),
    }
}

/// Reads a list of identifiers.
#[verifier::loop_isolation(false)]
pub fn decode_ids(value: Option<&Json>) -> (r: Result<Vec<i64>, DecodeError>)
    ensures
        match r {
            Ok(ids) => ids_ok(pointee(value)) && ids@ == ids_of(pointee(value)),
            Err(_) => !ids_ok(pointee(value)),
        },
{
    match value {
        Some(Json::Array(items)) => {
            let mut ids: Vec<i64> = Vec::new();
            let mut i: usize = 0;
            while i < items.len()
                invariant
                    i <= items.len(),
                    forall|j: int| 0 <= j < i ==> integer_of(Some(#[trigger] items@[j])) is Some,
                    ids@.len() == i,
                    forall|j: int|
                        0 <= j < i ==> #[trigger] ids@[j] == integer_of(Some(items@[j])).unwrap(),
                decreases items.len() - i,
            {
                match &items[i] {
                    Json::Number { integer: Some(id), text } => {
                        ids.push(*id);
                    },
                    _ => {
                        return Err(DecodeError::MalformedPayload);
                    },
                }
                i = i + 1;
            }
            assert(ids@ =~= ids_of(pointee(value)));
            Ok(ids)
        },
        _ => Err(DecodeError::MalformedPayload),
    }
}

/// True when `item` is a well-formed path: an element whose `nodes` is an
/// array of integers, which may be empty.
pub open spec fn path_ok(item: Json) -> bool {
    &&& element_ok(item)
    &&& ids_ok(member(item, "nodes"@))
}

/// The path that a well-formed `item` writes down.
pub open spec fn path_of(item: Json) -> (i64, PathModel) {
    (
        integer_of(member(item, "id"@)).unwrap(),
        PathModel { nodes: ids_of(member(item, "nodes"@)), tags: tags_of(member(item, "tags"@)) },
    )
}

/// Reads one path.
pub fn decode_path(item: &Json) -> (r: Result<PathRecord, DecodeError>)
    ensures
        match r {
            Ok(record) => path_ok(*item) && record@ == path_of(*item),
            Err(_) => !path_ok(*item),
        },
{
    let (id, tags) = match decode_element(item) {
        Ok(pair) => pair,
        Err(e) => {
            return Err(e);
        },
    };
    match decode_ids(get_member(item, "nodes")) {
        Ok(nodes) => Ok(PathRecord { id, nodes, tags }),
        Err(e) => Err(e),
    }
}

/// True when `item` is a well-formed member: an object with an integer
/// `ref` and strings for `type` and `role`.
pub open spec fn member_ok(item: Json) -> bool {
    &&& integer_of(member(item, "ref"@)) is Some
    &&& text_of(member(item, "type"@)) is Some
    &&& text_of(member(item, "role"@)) is Some
}

/// The member that a well-formed `item` writes down.
pub open spec fn member_of(item: Json) -> MemberModel {
    MemberModel {
        id: integer_of(member(item, "ref"@)).unwrap(),
        kind: text_of(member(item, "type"@)).unwrap(),
        role: text_of(member(item, "role"@)).unwrap(),
    }
}

/// Reads one member of a relation.
pub fn decode_member(item: &Json) -> (r: Result<MemberRecord, DecodeError>)
    ensures
        match r {
            Ok(record) => member_ok(*item) && record@ == member_of(*item),
            Err(_) => !member_ok(*item),
        },
{
    let id = match get_integer(item, "ref") {
        Some(id) => id,
        None => {
            return Err(DecodeError::MalformedPayload);
        },
    };
    let kind = match get_text(item, "type") {
        Some(s) => s,
        None => {
            return Err(DecodeError::MalformedPayload);
        },
    };
    let role = match get_text(item, "role") {
        Some(s) => s,
        None => {
            return Err(DecodeError::MalformedPayload);
        },
    };
    Ok(MemberRecord { id, kind, role })
}

/// True when `value` is an array of well-formed members.
pub open spec fn members_ok(value: Option<Json>) -> bool {
    match value {
        Some(Json::Array(items)) => forall|i: int|
            0 <= i < items@.len() ==> member_ok(#[trigger] items@[i]),
        _ => false,
    }
}

/// The members that an array of well-formed members writes down, in order.
pub open spec fn members_of(value: Option<Json>) -> Seq<MemberModel> {
    match value {
        Some(Json::Array(items)) => items@.map_values(|v: Json| member_of(v)),
        _ => Seq::empty(),
    }
}

/// Reads the member list of a relation.
#[verifier::loop_isolation(false)]
pub fn decode_members(value: Option<&Json>) -> (r: Result<Vec<MemberRecord>, DecodeError>)
    ensures
        match r {
            Ok(members) => members_ok(pointee(value)) && members@.map_values(
                |m: MemberRecord| m@,
            ) == members_of(pointee(value)),
            Err(_) => !members_ok(pointee(value)),
        },
{
    match value {
        Some(Json::Array(items)) => {
            let mut members: Vec<MemberRecord> = Vec::new();
            let mut i: usize = 0;
            while i < items.len()
                invariant
                    i <= items.len(),
                    forall|j: int| 0 <= j < i ==> member_ok(#[trigger] items@[j]),
                    members@.len() == i,
                    forall|j: int| 0 <= j < i ==> (#[trigger] members@[j])@ == member_of(items@[j]),
                decreases items.len() - i,
            {
                match decode_member(&items[i]) {
                    Ok(record) => {
                        members.push(record);
                    },
                    Err(e) => {
                        return Err(e);
                    },
                }
                i = i + 1;
            }
            assert(members@.map_values(|m: MemberRecord| m@) =~= members_of(pointee(value)));
            Ok(members)
        },
        _ => Err(DecodeError::MalformedPayload),
    }
}

/// True when `item` is a well-formed relation: an element whose `members`
/// is an array of well-formed members, which may be empty.
pub open spec fn relation_ok(item: Json) -> bool {
    &&& element_ok(item)
    &&& members_ok(member(item, "members"@))
}

/// The relation record that a well-formed `item` writes down.
pub open spec fn relation_of_item(item: Json) -> (
    i64,
    Seq<MemberModel>,
    Map<Seq<char>, Seq<char>>,
) {
    (
        integer_of(member(item, "id"@)).unwrap(),
        members_of(member(item, "members"@)),
        tags_of(member(item, "tags"@)),
    )
}

/// Reads one relation.
pub fn decode_relation(item: &Json) -> (r: Result<RelationRecord, DecodeError>)
    ensures
        match r {
            Ok(record) => relation_ok(*item) && record@ == relation_of_item(*item),
            Err(_) => !relation_ok(*item),
        },
{
    let (id, tags) = match decode_element(item) {
        Ok(pair) => pair,
        Err(e) => {
            return Err(e);
        },
    };
    match decode_members(get_member(item, "members")) {
        Ok(members) => Ok(RelationRecord { id, members, tags }),
        Err(e) => Err(e),
    }
}

/// The elements of a document: the items of the array that its root object
/// holds under `elements`.
pub open spec fn elements_of(doc: Json) -> Option<Seq<Json>> {
    items_of(member(doc, "elements"@))
}

/// The points that a document writes down, in order; `None` where the
/// document has no list of elements or one of them is no well-formed point.
pub open spec fn json_points(doc: Json) -> Option<Seq<(i64, PointModel)>> {
    match elements_of(doc) {
        Some(items) => if forall|i: int| 0 <= i < items.len() ==> point_ok(#[trigger] items[i]) {
            Some(items.map_values(|v: Json| point_of(v)))
        } else {
            None
        },
        None => None,
    }
}

/// The paths that a document writes down, in order; `None` where the
/// document has no list of elements or one of them is no well-formed path.
pub open spec fn json_paths(doc: Json) -> Option<Seq<(i64, PathModel)>> {
    match elements_of(doc) {
        Some(items) => if forall|i: int| 0 <= i < items.len() ==> path_ok(#[trigger] items[i]) {
            Some(items.map_values(|v: Json| path_of(v)))
        } else {
            None
        },
        None => None,
    }
}

/// The relations that a document writes down, in order; `None` where the
/// document has no list of elements or one of them is no well-formed
/// relation.
pub open spec fn json_relations(doc: Json) -> Option<
    Seq<(i64, Seq<MemberModel>, Map<Seq<char>, Seq<char>>)>,
> {
    match elements_of(doc) {
        Some(items) => if forall|i: int|
            0 <= i < items.len() ==> relation_ok(#[trigger] items[i]) {
            Some(items.map_values(|v: Json| relation_of_item(v)))
        } else {
            None
        },
        None => None,
    }
}

/// Reads the points of a document.
#[verifier::loop_isolation(false)]
pub fn decode_points(doc: &Json) -> (r: Result<Vec<PointRecord>, DecodeError>)
    ensures
        match r {
            Ok(records) => json_points(*doc) == Some(point_entries(records@)),
            Err(_) => json_points(*doc) is None,
        },
{
    match get_member(doc, "elements") {
        Some(Json::Array(items)) => {
            let mut records: Vec<PointRecord> = Vec::new();
            let mut i: usize = 0;
            while i < items.len()
                invariant
                    i <= items.len(),
                    forall|j: int| 0 <= j < i ==> point_ok(#[trigger] items@[j]),
                    records@.len() == i,
                    forall|j: int| 0 <= j < i ==> (#[trigger] records@[j])@ == point_of(items@[j]),
                decreases items.len() - i,
            {
                match decode_point(&items[i]) {
                    Ok(record) => {
                        records.push(record);
                    },
                    Err(e) => {
                        return Err(e);
                    },
                }
                i = i + 1;
            }
            assert(point_entries(records@) =~= items@.map_values(|v: Json| point_of(v)));
            Ok(records)
        },
        _ => Err(DecodeError::MalformedPayload),
    }
}

/// Reads the paths of a document.
#[verifier::loop_isolation(false)]
pub fn decode_paths(doc: &Json) -> (r: Result<Vec<PathRecord>, DecodeError>)
    ensures
        match r {
            Ok(records) => json_paths(*doc) == Some(path_entries(records@)),
            Err(_) => json_paths(*doc) is None,
        },
{
    match get_member(doc, "elements") {
        Some(Json::Array(items)) => {
            let mut records: Vec<PathRecord> = Vec::new();
            let mut i: usize = 0;
            while i < items.len()
                invariant
                    i <= items.len(),
                    forall|j: int| 0 <= j < i ==> path_ok(#[trigger] items@[j]),
                    records@.len() == i,
                    forall|j: int| 0 <= j < i ==> (#[trigger] records@[j])@ == path_of(items@[j]),
                decreases items.len() - i,
            {
                match decode_path(&items[i]) {
                    Ok(record) => {
                        records.push(record);
                    },
                    Err(e) => {
                        return Err(e);
                    },
                }
                i = i + 1;
            }
            assert(path_entries(records@) =~= items@.map_values(|v: Json| path_of(v)));
            Ok(records)
        },
        _ => Err(DecodeError::MalformedPayload),
    }
}

/// Reads the relations of a document.
#[verifier::loop_isolation(false)]
pub fn decode_relations(doc: &Json) -> (r: Result<Vec<RelationRecord>, DecodeError>)
    ensures
        match r {
            Ok(records) => json_relations(*doc) == Some(relation_records(records@)),
            Err(_) => json_relations(*doc) is None,
        },
{
    match get_member(doc, "elements") {
        Some(Json::Array(items)) => {
            let mut records: Vec<RelationRecord> = Vec::new();
            let mut i: usize = 0;
            while i < items.len()
                invariant
                    i <= items.len(),
                    forall|j: int| 0 <= j < i ==> relation_ok(#[trigger] items@[j]),
                    records@.len() == i,
                    forall|j: int|
                        0 <= j < i ==> (#[trigger] records@[j])@ == relation_of_item(items@[j]),
                decreases items.len() - i,
            {
                match decode_relation(&items[i]) {
                    Ok(record) => {
                        records.push(record);
                    },
                    Err(e) => {
                        return Err(e);
                    },
                }
                i = i + 1;
            }
            assert(relation_records(records@) =~= items@.map_values(
                |v: Json| relation_of_item(v),
            ));
            Ok(records)
        },
        _ => Err(DecodeError::MalformedPayload),
    }
}

} // verus!
