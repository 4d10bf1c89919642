//! Query text for the map service: one statement that asks for every entity
//! of one kind inside a bounding box, in one of the two output formats.

use vstd::prelude::*;
use vstd::string::*;

verus! {

/// The wire format a query asks the service to answer in.
#[allow(non_camel_case_types)]
#[derive(Debug, Clone, Copy, PartialEq, Eq, Structural)]
pub enum OutputFormat {
    JSON,
    XML,
}

/// The kind of entity a query asks for.
#[derive(Debug, Clone, Copy, PartialEq, Eq, Structural)]
pub enum EntityKind {
    Point,
    Path,
    Relation,
}

/// The token that names `format` in a query.
pub open spec fn format_token(format: OutputFormat) -> Seq<char> {
    match format {
        OutputFormat::JSON => "json"@,
        OutputFormat::XML => "xml"@,
    }
}

/// The word by which the service knows entities of `kind`.
pub open spec fn kind_token(kind: EntityKind) -> Seq<char> {
    match kind {
        EntityKind::Point => "node"@,
        EntityKind::Path => "way"@,
        EntityKind::Relation => "relation"@,
    }
}

/// Everything of a query that follows the format token: the entity kind and
/// the four corners of the box, as the numerals handed in.
pub open spec fn query_tail(
    kind: EntityKind,
    min_lat: Seq<char>,
    min_lon: Seq<char>,
    max_lat: Seq<char>,
    max_lon: Seq<char>,
) -> Seq<char> {
    "]; "@ + kind_token(kind) + "("@ + min_lat + ", "@ + min_lon + ", "@ + max_lat + ", "@
        + max_lon + "); out;"@
}

/// The full query text.
pub open spec fn query_text(
    format: OutputFormat,
    kind: EntityKind,
    min_lat: Seq<char>,
    min_lon: Seq<char>,
    max_lat: Seq<char>,
    max_lon: Seq<char>,
) -> Seq<char> {
    "[out:"@ + format_token(format) + query_tail(kind, min_lat, min_lon, max_lat, max_lon)
}

/// The token that names `format` in a query, as an owned string.
pub fn get_output_format(format: OutputFormat) -> (r: String)
    ensures
        r@ == format_token(format),
{
    match format {
        OutputFormat::JSON => "json".to_owned(),
        OutputFormat::XML => "xml".to_owned(),
    }
}

/// The word by which the service knows entities of `kind`.
pub fn kind_word(kind: EntityKind) -> (r: &'static str)
    ensures
        r@ == kind_token(kind),
{
    match kind {
        EntityKind::Point => "node",
        EntityKind::Path => "way",
        EntityKind::Relation => "relation",
    }
}

/// Builds the query for entities of `kind` inside the box whose corners are
/// given as decimal numerals. The numerals are passed through untouched: the
/// service is the one to reject a box that makes no sense.
pub fn build_query(
    format: OutputFormat,
    kind: EntityKind,
    min_lat: &str,
    min_lon: &str,
    max_lat: &str,
    max_lon: &str,
) -> (r: String)
    ensures
        r@ == query_text(format, kind, min_lat@, min_lon@, max_lat@, max_lon@),
{
    let mut text = "[out:".to_owned();
    let token = get_output_format(format);
    text.append(token.as_str());
    text.append("]; ");
    text.append(kind_word(kind));
    text.append("(");
    text.append(min_lat);
    text.append(", ");
    text.append(min_lon);
    text.append(", ");
    text.append(max_lat);
    text.append(", ");
    text.append(max_lon);
    text.append("); out;");
    proof {
        assert(text@ =~= query_text(format, kind, min_lat@, min_lon@, max_lat@, max_lon@));
    }
    text
}

/// Two queries for the same kind and box differ in the format token alone:
/// each is the same opening, its own token, and one shared tail that holds
/// the kind and the corners.
pub proof fn lemma_query_formats_share_tail(
    kind: EntityKind,
    min_lat: Seq<char>,
    min_lon: Seq<char>,
    max_lat: Seq<char>,
    max_lon: Seq<char>,
)
    ensures
        query_text(OutputFormat::JSON, kind, min_lat, min_lon, max_lat, max_lon) == "[out:"@
            + "json"@ + query_tail(kind, min_lat, min_lon, max_lat, max_lon),
        query_text(OutputFormat::XML, kind, min_lat, min_lon, max_lat, max_lon) == "[out:"@
            + "xml"@ + query_tail(kind, min_lat, min_lon, max_lat, max_lon),
{
}

} // verus!
