//! The way in: for each kind of entity, the query that asks for it and the
//! two decoders that turn a response body into a store.

use std::collections::HashMap;
use vstd::prelude::*;
use crate::json::{json_document, json_paths, json_points, json_relations, parse_document, Json};
use crate::osm::{
    path_store_model, point_store_model, reconcile_paths, reconcile_points, reconcile_relations,
    relation_store_model, Node, Relation, Way,
};
use crate::query::{build_query, query_text, EntityKind, OutputFormat};
use crate::records::{
    relation_entries, store_of, DecodeError, MemberModel, PathModel, PointModel,
};
use crate::xml::{read_tokens, xml_paths, xml_points, xml_relations, xml_token_stream, XmlToken};

verus! {

/// True when `result` is what decoded points call for: the store that the
/// points build up, entered in order, or an error where there are none.
pub open spec fn points_outcome(
    decoded: Option<Seq<(i64, PointModel)>>,
    result: Result<HashMap<i64, Node>, DecodeError>,
) -> bool {
    match (decoded, result) {
        (Some(entries), Ok(store)) => point_store_model(store) == store_of(entries, entries.len()),
        (None, Err(_)) => true,
        _ => false,
    }
}

/// True when `result` is what decoded paths call for: the store that the
/// paths build up, entered in order, or an error where there are none.
pub open spec fn paths_outcome(
    decoded: Option<Seq<(i64, PathModel)>>,
    result: Result<HashMap<i64, Way>, DecodeError>,
) -> bool {
    match (decoded, result) {
        (Some(entries), Ok(store)) => path_store_model(store) == store_of(entries, entries.len()),
        (None, Err(_)) => true,
        _ => false,
    }
}

/// True when `result` is what decoded relations call for: the store that
/// the relations build up, entered in order and each with its members
/// sorted by kind, or an error where there are none.
pub open spec fn relations_outcome(
    decoded: Option<Seq<(i64, Seq<MemberModel>, Map<Seq<char>, Seq<char>>)>>,
    result: Result<HashMap<i64, Relation>, DecodeError>,
) -> bool {
    match (decoded, result) {
        (Some(records), Ok(store)) => relation_store_model(store) == store_of(
            relation_entries(records),
            records.len(),
        ),
        (None, Err(_)) => true,
        _ => false,
    }
}

/// The points that a structured-text body writes down.
pub open spec fn json_text_points(text: Seq<char>) -> Option<Seq<(i64, PointModel)>> {
    match json_document(text) {
        Some(doc) => json_points(doc),
        None => None,
    }
}

/// The paths that a structured-text body writes down.
pub open spec fn json_text_paths(text: Seq<char>) -> Option<Seq<(i64, PathModel)>> {
    match json_document(text) {
        Some(doc) => json_paths(doc),
        None => None,
    }
}

/// The relations that a structured-text body writes down.
pub open spec fn json_text_relations(text: Seq<char>) -> Option<
    Seq<(i64, Seq<MemberModel>, Map<Seq<char>, Seq<char>>)>,
> {
    match json_document(text) {
        Some(doc) => json_relations(doc),
        None => None,
    }
}

/// The points that a markup body writes down.
pub open spec fn xml_text_points(text: Seq<char>) -> Option<Seq<(i64, PointModel)>> {
    match xml_token_stream(text) {
        Some(tokens) => xml_points(tokens),
        None => None,
    }
}

/// The paths that a markup body writes down.
pub open spec fn xml_text_paths(text: Seq<char>) -> Option<Seq<(i64, PathModel)>> {
    match xml_token_stream(text) {
        Some(tokens) => xml_paths(tokens),
        None => None,
    }
}

/// The relations that a markup body writes down.
pub open spec fn xml_text_relations(text: Seq<char>) -> Option<
    Seq<(i64, Seq<MemberModel>, Map<Seq<char>, Seq<char>>)>,
> {
    match xml_token_stream(text) {
        Some(tokens) => xml_relations(tokens),
        None => None,
    }
}

/// The points that a body in `format` writes down.
pub open spec fn text_points(format: OutputFormat, text: Seq<char>) -> Option<
    Seq<(i64, PointModel)>,
> {
    match format {
        OutputFormat::JSON => json_text_points(text),
        OutputFormat::XML => xml_text_points(text),
    }
}

/// The paths that a body in `format` writes down.
pub open spec fn text_paths(format: OutputFormat, text: Seq<char>) -> Option<
    Seq<(i64, PathModel)>,
> {
    match format {
        OutputFormat::JSON => json_text_paths(text),
        OutputFormat::XML => xml_text_paths(text),
    }
}

/// The relations that a body in `format` writes down.
pub open spec fn text_relations(format: OutputFormat, text: Seq<char>) -> Option<
    Seq<(i64, Seq<MemberModel>, Map<Seq<char>, Seq<char>>)>,
> {
    match format {
        OutputFormat::JSON => json_text_relations(text),
        OutputFormat::XML => xml_text_relations(text),
    }
}

impl Node {
    /// Decodes a body that answers a query made for `output_format`.
    pub fn parse(output_format: OutputFormat, string: &str) -> (r: Result<
        HashMap<i64, Node>,
        DecodeError,
    >)
        ensures
            points_outcome(text_points(output_format, string@), r),
    {
        match output_format {
            OutputFormat::JSON => Node::parse_json(string),
            OutputFormat::XML => Node::parse_xml(string),
        }
    }

    /// The query for the points inside a bounding box.
    pub fn build_query(
        output_format: OutputFormat,
        min_lat: &str,
        min_lon: &str,
        max_lat: &str,
        max_lon: &str,
    ) -> (r: String)
        ensures
            r@ == query_text(
                output_format,
                EntityKind::Point,
                min_lat@,
                min_lon@,
                max_lat@,
                max_lon@,
            ),
    {
        build_query(output_format, EntityKind::Point, min_lat, min_lon, max_lat, max_lon)
    }

    /// Builds the store of points from a parsed structured-text document.
    pub fn from_json(doc: &Json) -> (r: Result<HashMap<i64, Node>, DecodeError>)
        ensures
            points_outcome(json_points(*doc), r),
    {
        match crate::json::decode_points(doc) {
            Ok(records) => Ok(reconcile_points(&records)),
            Err(e) => Err(e),
        }
    }

    /// Builds the store of points from the tokens of a markup document.
    pub fn from_xml(tokens: &Vec<XmlToken>) -> (r: Result<HashMap<i64, Node>, DecodeError>)
        ensures
            points_outcome(xml_points(tokens@), r),
    {
        match crate::xml::decode_points(tokens) {
            Ok(records) => Ok(reconcile_points(&records)),
            Err(e) => Err(e),
        }
    }

    /// Decodes a structured-text body into the store of its points. Fails
    /// with `MalformedPayload`, and builds nothing, where the body is not
    /// well formed or an element is no well-formed point.
    pub fn parse_json(string: &str) -> (r: Result<HashMap<i64, Node>, DecodeError>)
        ensures
            points_outcome(json_text_points(string@), r),
    {
        match parse_document(string) {
            Ok(doc) => Node::from_json(&doc),
            Err(_) => Err(DecodeError::MalformedPayload),
        }
    }

    /// Decodes a markup body into the store of its points. Fails with
    /// `MalformedPayload`, and builds nothing, where the body is not well
    /// formed or a `node` element is no well-formed point.
    pub fn parse_xml(string: &str) -> (r: Result<HashMap<i64, Node>, DecodeError>)
        ensures
            points_outcome(xml_text_points(string@), r),
    {
        match read_tokens(string) {
            Ok(tokens) => Node::from_xml(&tokens),
            Err(_) => Err(DecodeError::MalformedPayload),
        }
    }
}

impl Way {
    /// Decodes a body that answers a query made for `output_format`.
    pub fn parse(output_format: OutputFormat, string: &str) -> (r: Result<
        HashMap<i64, Way>,
        DecodeError,
    >)
        ensures
            paths_outcome(text_paths(output_format, string@), r),
    {
        match output_format {
            OutputFormat::JSON => Way::parse_json(string),
            OutputFormat::XML => Way::parse_xml(string),
        }
    }

    /// The query for the paths inside a bounding box.
    pub fn build_query(
        output_format: OutputFormat,
        min_lat: &str,
        min_lon: &str,
        max_lat: &str,
        max_lon: &str,
    ) -> (r: String)
        ensures
            r@ == query_text(
                output_format,
                EntityKind::Path,
                min_lat@,
                min_lon@,
                max_lat@,
                max_lon@,
            ),
    {
        build_query(output_format, EntityKind::Path, min_lat, min_lon, max_lat, max_lon)
    }

    /// Builds the store of paths from a parsed structured-text document.
    pub fn from_json(doc: &Json) -> (r: Result<HashMap<i64, Way>, DecodeError>)
        ensures
            paths_outcome(json_paths(*doc), r),
    {
        match crate::json::decode_paths(doc) {
            Ok(records) => Ok(reconcile_paths(&records)),
            Err(e) => Err(e),
        }
    }

    /// Builds the store of paths from the tokens of a markup document.
    pub fn from_xml(tokens: &Vec<XmlToken>) -> (r: Result<HashMap<i64, Way>, DecodeError>)
        ensures
            paths_outcome(xml_paths(tokens@), r),
    {
        match crate::xml::decode_paths(tokens) {
            Ok(records) => Ok(reconcile_paths(&records)),
            Err(e) => Err(e),
        }
    }

    /// Decodes a structured-text body into the store of its paths. Fails
    /// with `MalformedPayload`, and builds nothing, where the body is not
    /// well formed or an element is no well-formed path.
    pub fn parse_json(string: &str) -> (r: Result<HashMap<i64, Way>, DecodeError>)
        ensures
            paths_outcome(json_text_paths(string@), r),
    {
        match parse_document(string) {
            Ok(doc) => Way::from_json(&doc),
            Err(_) => Err(DecodeError::MalformedPayload),
        }
    }

    /// Decodes a markup body into the store of its paths. Fails with
    /// `MalformedPayload`, and builds nothing, where the body is not well
    /// formed or a `way` element is no well-formed path.
    pub fn parse_xml(string: &str) -> (r: Result<HashMap<i64, Way>, DecodeError>)
        ensures
            paths_outcome(xml_text_paths(string@), r),
    {
        match read_tokens(string) {
            Ok(tokens) => Way::from_xml(&tokens),
            Err(_) => Err(DecodeError::MalformedPayload),
        }
    }
}

impl Relation {
    /// Decodes a body that answers a query made for `output_format`.
    pub fn parse(output_format: OutputFormat, string: &str) -> (r: Result<
        HashMap<i64, Relation>,
        DecodeError,
    >)
        ensures
            relations_outcome(text_relations(output_format, string@), r),
    {
        match output_format {
            OutputFormat::JSON => Relation::parse_json(string),
            OutputFormat::XML => Relation::parse_xml(string),
        }
    }

    /// The query for the relations inside a bounding box.
    pub fn build_query(
        output_format: OutputFormat,
        min_lat: &str,
        min_lon: &str,
        max_lat: &str,
        max_lon: &str,
    ) -> (r: String)
        ensures
            r@ == query_text(
                output_format,
                EntityKind::Relation,
                min_lat@,
                min_lon@,
                max_lat@,
                max_lon@,
            ),
    {
        build_query(output_format, EntityKind::Relation, min_lat, min_lon, max_lat, max_lon)
    }

    /// Builds the store of relations from a parsed structured-text document.
    pub fn from_json(doc: &Json) -> (r: Result<HashMap<i64, Relation>, DecodeError>)
        ensures
            relations_outcome(json_relations(*doc), r),
    {
        match crate::json::decode_relations(doc) {
            Ok(records) => Ok(reconcile_relations(&records)),
            Err(e) => Err(e),
        }
    }

    /// Builds the store of relations from the tokens of a markup document.
    pub fn from_xml(tokens: &Vec<XmlToken>) -> (r: Result<HashMap<i64, Relation>, DecodeError>)
        ensures
            relations_outcome(xml_relations(tokens@), r),
    {
        match crate::xml::decode_relations(tokens) {
            Ok(records) => Ok(reconcile_relations(&records)),
            Err(e) => Err(e),
        }
    }

    /// Decodes a structured-text body into the store of its relations.
    /// Fails with `MalformedPayload`, and builds nothing, where the body is
    /// not well formed or an element is no well-formed relation.
    pub fn parse_json(string: &str) -> (r: Result<HashMap<i64, Relation>, DecodeError>)
        ensures
            relations_outcome(json_text_relations(string@), r),
    {
        match parse_document(string) {
            Ok(doc) => Relation::from_json(&doc),
            Err(_) => Err(DecodeError::MalformedPayload),
        }
    }

    /// Decodes a markup body into the store of its relations. Fails with
    /// `MalformedPayload`, and builds nothing, where the body is not well
    /// formed or a `relation` element is no well-formed relation.
    pub fn parse_xml(string: &str) -> (r: Result<HashMap<i64, Relation>, DecodeError>)
        ensures
            relations_outcome(xml_text_relations(string@), r),
    {
        match read_tokens(string) {
            Ok(tokens) => Relation::from_xml(&tokens),
            Err(_) => Err(DecodeError::MalformedPayload),
        }
    }
}

} // verus!
