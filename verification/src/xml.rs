//! The markup decoder: a response body is read as a stream of tokens, the
//! stream is cut into the elements of one kind with their children, and the
//! elements are read into records.

use vstd::prelude::*;
use crate::records::{
    path_entries, point_entries, relation_records, DecodeError, MemberModel, MemberRecord,
    PathModel, PathRecord, PointModel, PointRecord, RelationRecord,
};
use crate::tags::TagTable;
use crate::text::{
    decimal_i64, find, is_decimal_numeral, is_numeral, lookup, parse_i64, same_text,
};

verus! {

/// One step of a markup document, read front to back.
#[derive(Debug)]
pub enum XmlToken {
    /// An element opens: its name and its attributes, each by name.
    Open { name: String, attributes: Vec<(String, String)> },
    /// The innermost open element closes.
    Close,
    /// Anything else: text, a comment, the document's start or end.
    Other,
}

/// `xml::reader::XmlEvent`, as the reader hands it over; nothing is read
/// from it but by rebuilding it as an `XmlToken`.
#[verifier::external_type_specification]
#[verifier::external_body]
pub struct ExXmlEvent(xml::reader::XmlEvent);

/// `xml::reader::Error`: why the reader gave up. Only its presence is used.
#[verifier::external_type_specification]
#[verifier::external_body]
pub struct ExXmlError(xml::reader::Error);

/// The tokens that the reader finds in `text`, or `None` where `text` is
/// not well formed.
pub uninterp spec fn xml_token_stream(text: Seq<char>) -> Option<Seq<XmlToken>>;

/// Rebuilds an `xml::reader::XmlEvent` as a token. Names are taken without
/// their namespace prefix.
#[verifier::external_body]
fn token_of_event(event: xml::reader::XmlEvent) -> XmlToken {
    match event {
        xml::reader::XmlEvent::StartElement { name, attributes, .. } => XmlToken::Open {
            name: name.local_name,
            attributes: attributes.into_iter().map(|a| (a.name.local_name, a.value)).collect(),
        },
        xml::reader::XmlEvent::EndElement { .. } => XmlToken::Close,
        _ => XmlToken::Other,
    }
}

/// Reads a body in the markup format into tokens.
///
/// Runs `xml::reader::EventReader::from_str(text)` to its end. The reader
/// sees nothing but its argument, so the outcome is a function of the text:
/// it is the stream named `xml_token_stream`, and an error exactly where
/// the reader reports one.
#[verifier::external_body]
pub(crate) fn read_tokens(text: &str) -> (r: Result<Vec<XmlToken>, xml::reader::Error>)
    ensures
        match r {
            Ok(tokens) => xml_token_stream(text@) == Some(tokens@),
            Err(_) => xml_token_stream(text@) is None,
        },
{
    xml::reader::EventReader::from_str(text).into_iter().map(|e| e.map(token_of_event)).collect()
}

/// A child element: its name and its attributes.
pub struct ChildModel {
    pub name: Seq<char>,
    pub attributes: Seq<(String, String)>,
}

/// An element of the kind looked for: its attributes and its children, in
/// order.
pub struct ElementModel {
    pub attributes: Seq<(String, String)>,
    pub children: Seq<ChildModel>,
}

/// A child element, borrowed from the token stream.
pub struct XmlChild<'a> {
    pub name: &'a String,
    pub attributes: &'a Vec<(String, String)>,
}

/// An element of the kind looked for, borrowed from the token stream.
pub struct XmlElement<'a> {
    pub attributes: &'a Vec<(String, String)>,
    pub children: Vec<XmlChild<'a>>,
}

impl<'a> View for XmlChild<'a> {
    type V = ChildModel;

    open spec fn view(&self) -> ChildModel {
        ChildModel { name: self.name@, attributes: self.attributes@ }
    }
}

/// The models of a list of children.
pub open spec fn children_model<'a>(children: Seq<XmlChild<'a>>) -> Seq<ChildModel> {
    children.map_values(|c: XmlChild<'a>| c@)
}

impl<'a> View for XmlElement<'a> {
    type V = ElementModel;

    open spec fn view(&self) -> ElementModel {
        ElementModel { attributes: self.attributes@, children: children_model(self.children@) }
    }
}

/// The models of a list of elements.
pub open spec fn elements_model<'a>(elements: Seq<XmlElement<'a>>) -> Seq<ElementModel> {
    elements.map_values(|e: XmlElement<'a>| e@)
}

/// Where a reading of the token stream stands: how many elements are open,
/// whether every close so far had an element to close, the elements
/// finished, and the element being read, if any.
pub struct Scan {
    pub depth: int,
    pub balanced: bool,
    pub done: Seq<ElementModel>,
    pub open: Option<ElementModel>,
}

/// The reading after one more token. Elements of the kind looked for are the
/// children of the root with that name; their own children are kept with
/// them, and whatever lies deeper is passed over.
pub open spec fn scan_step(s: Scan, token: XmlToken, kind: Seq<char>) -> Scan {
    match token {
        XmlToken::Open { name, attributes } => {
            if s.depth == 1 && name@ == kind {
                Scan {
                    depth: s.depth + 1,
                    open: Some(ElementModel { attributes: attributes@, children: Seq::empty() }),
                    ..s
                }
            } else if s.depth == 2 && s.open is Some {
                Scan {
                    depth: s.depth + 1,
                    open: Some(
                        ElementModel {
                            attributes: s.open.unwrap().attributes,
                            children: s.open.unwrap().children.push(
                                ChildModel { name: name@, attributes: attributes@ },
                            ),
                        },
                    ),
                    ..s
                }
            } else {
                Scan { depth: s.depth + 1, ..s }
            }
        },
        XmlToken::Close => {
            if s.depth <= 0 {
                Scan { balanced: false, ..s }
            } else if s.depth == 2 && s.open is Some {
                Scan { depth: 1, done: s.done.push(s.open.unwrap()), open: None, ..s }
            } else {
                Scan { depth: s.depth - 1, ..s }
            }
        },
        XmlToken::Other => s,
    }
}

/// The reading after the first `n` tokens.
pub open spec fn scan(tokens: Seq<XmlToken>, kind: Seq<char>, n: nat) -> Scan
    decreases n,
{
    if n == 0 {
        Scan { depth: 0, balanced: true, done: Seq::empty(), open: None }
    } else {
        scan_step(scan(tokens, kind, (n - 1) as nat), tokens[n - 1], kind)
    }
}

/// The elements named `kind` that a token stream holds, in order; `None`
/// where opens and closes do not match up.
pub open spec fn elements_in(tokens: Seq<XmlToken>, kind: Seq<char>) -> Option<Seq<ElementModel>> {
    let s = scan(tokens, kind, tokens.len());
    if s.balanced && s.depth == 0 {
        Some(s.done)
    } else {
        None
    }
}

/// How many of the first `n` tokens open an element.
pub open spec fn opens(tokens: Seq<XmlToken>, n: nat) -> int
    decreases n,
{
    if n == 0 {
        0
    } else {
        opens(tokens, (n - 1) as nat) + if tokens[n - 1] is Open {
            1int
        } else {
            0int
        }
    }
}

/// How many of the first `n` tokens close an element.
pub open spec fn closes(tokens: Seq<XmlToken>, n: nat) -> int
    decreases n,
{
    if n == 0 {
        0
    } else {
        closes(tokens, (n - 1) as nat) + if tokens[n - 1] is Close {
            1int
        } else {
            0int
        }
    }
}

/// What holds of every reading: the depth is never negative; an element is
/// being read only below the root; a reading that is balanced was balanced
/// all along, and its depth is the number of elements opened and not yet
/// closed.
pub proof fn lemma_scan_counts(tokens: Seq<XmlToken>, kind: Seq<char>, n: nat, m: nat)
    requires
        m <= n <= tokens.len(),
    ensures
        scan(tokens, kind, n).depth >= 0,
        scan(tokens, kind, n).open is Some ==> scan(tokens, kind, n).depth >= 2,
        scan(tokens, kind, n).balanced ==> scan(tokens, kind, m).balanced,
        scan(tokens, kind, n).balanced ==> scan(tokens, kind, n).depth == opens(tokens, n)
            - closes(tokens, n),
    decreases n,
{
    if n > 0 {
        lemma_scan_counts(tokens, kind, (n - 1) as nat, if m < n {
            m
        } else {
            (n - 1) as nat
        });
    }
}

/// A stream is cut into elements only where every close has its open and
/// every open its close.
pub proof fn lemma_elements_need_balance(tokens: Seq<XmlToken>, kind: Seq<char>, n: nat)
    requires
        elements_in(tokens, kind) is Some,
        n <= tokens.len(),
    ensures
        opens(tokens, tokens.len()) == closes(tokens, tokens.len()),
        opens(tokens, n) >= closes(tokens, n),
{
    lemma_scan_counts(tokens, kind, tokens.len(), n);
    lemma_scan_counts(tokens, kind, n, 0);
}

/// Cuts a token stream into the elements named `kind`.
pub fn scan_elements<'a>(tokens: &'a Vec<XmlToken>, kind: &str) -> (r: Result<
    Vec<XmlElement<'a>>,
    DecodeError,
>)
    ensures
        match r {
            Ok(elements) => elements_in(tokens@, kind@) == Some(elements_model(elements@)),
            Err(_) => elements_in(tokens@, kind@) is None,
        },
{
    let mut depth: usize = 0;
    let mut balanced = true;
    let mut done: Vec<XmlElement<'a>> = Vec::new();
    let mut open: Option<&'a Vec<(String, String)>> = None;
    let mut children: Vec<XmlChild<'a>> = Vec::new();
    let mut i: usize = 0;
    assert(elements_model(done@) =~= scan(tokens@, kind@, 0).done);
    while i < tokens.len()
        invariant
            i <= tokens.len(),
            depth <= i,
            depth == scan(tokens@, kind@, i as nat).depth,
            balanced == scan(tokens@, kind@, i as nat).balanced,
            elements_model(done@) == scan(tokens@, kind@, i as nat).done,
            match open {
                Some(attributes) => scan(tokens@, kind@, i as nat).open == Some(
                    ElementModel { attributes: attributes@, children: children_model(children@) },
                ),
                None => scan(tokens@, kind@, i as nat).open is None,
            },
        decreases tokens.len() - i,
    {
        let ghost before = scan(tokens@, kind@, i as nat);
        let ghost done_before = done@;
        let ghost children_before = children@;
        match &tokens[i] {
            XmlToken::Open { name, attributes } => {
                if depth == 1 && same_text(name, kind) {
                    open = Some(attributes);
                    children = Vec::new();
                    assert(children_model(children@) =~= Seq::<ChildModel>::empty());
                } else if depth == 2 && open.is_some() {
                    let child = XmlChild { name, attributes };
                    children.push(child);
                    assert(children_model(children@) =~= children_model(children_before).push(
                        child@,
                    ));
                }
                depth = depth + 1;
            },
            XmlToken::Close => {
                if depth == 0 {
                    balanced = false;
                } else {
                    match open {
                        Some(attributes) => {
                            if depth == 2 {
                                let element = XmlElement { attributes, children };
                                children = Vec::new();
                                open = None;
                                done.push(element);
                                assert(elements_model(done@) =~= elements_model(done_before).push(
                                    element@,
                                ));
                            }
                        },
                        None => {},
                    }
                    depth = depth - 1;
                }
            },
            XmlToken::Other => {},
        }
        i = i + 1;
    }
    if balanced && depth == 0 {
        Ok(done)
    } else {
        Err(DecodeError::MalformedPayload)
    }
}

/// The value of the attribute named `key`, if there is one.
pub open spec fn attribute(attributes: Seq<(String, String)>, key: Seq<char>) -> Option<Seq<char>> {
    match lookup(attributes, key) {
        Some(value) => Some(value@),
        None => None,
    }
}

/// The integer that the attribute named `key` writes in decimal; `None`
/// where there is no such attribute or it writes no 64-bit integer.
pub open spec fn attribute_integer(attributes: Seq<(String, String)>, key: Seq<char>) -> Option<
    i64,
> {
    match lookup(attributes, key) {
        Some(value) => decimal_i64(value@),
        None => None,
    }
}

/// The coordinate that the attribute named `key` writes down; `None` where
/// there is no such attribute or it writes no finite decimal number.
pub open spec fn attribute_coordinate(attributes: Seq<(String, String)>, key: Seq<char>) -> Option<
    Seq<char>,
> {
    match attribute(attributes, key) {
        Some(numeral) => if is_numeral(numeral) {
            Some(numeral)
        } else {
            None
        },
        None => None,
    }
}

/// Reads the attribute named `key` as a coordinate.
pub fn get_attribute_coordinate(attributes: &Vec<(String, String)>, key: &str) -> (r: Option<
    String,
>)
    ensures
        match r {
            Some(value) => attribute_coordinate(attributes@, key@) == Some(value@),
            None => attribute_coordinate(attributes@, key@) is None,
        },
{
    match find(attributes, key) {
        Some(value) => {
            if is_decimal_numeral(value.as_str()) {
                Some(value.clone())
            } else {
                None
            }
        },
        None => None,
    }
}

/// Reads the attribute named `key`.
pub fn get_attribute(attributes: &Vec<(String, String)>, key: &str) -> (r: Option<String>)
    ensures
        match r {
            Some(value) => attribute(attributes@, key@) == Some(value@),
            None => attribute(attributes@, key@) is None,
        },
{
    match find(attributes, key) {
        Some(value) => Some(value.clone()),
        None => None,
    }
}

/// Reads the attribute named `key` as a decimal integer.
pub fn get_attribute_integer(attributes: &Vec<(String, String)>, key: &str) -> (r: Option<i64>)
    ensures
        r == attribute_integer(attributes@, key@),
{
    match find(attributes, key) {
        Some(value) => parse_i64(value.as_str()),
        None => None,
    }
}

/// True when every `tag` child carries both a `k` and a `v`.
pub open spec fn tags_ok(children: Seq<ChildModel>) -> bool {
    forall|i: int|
        0 <= i < children.len() && (#[trigger] children[i]).name == "tag"@ ==> attribute(
            children[i].attributes,
            "k"@,
        ) is Some && attribute(children[i].attributes, "v"@) is Some
}

/// The tag table that the `tag` children among the first `n` children make.
pub open spec fn tag_fold(children: Seq<ChildModel>, n: nat) -> Map<Seq<char>, Seq<char>>
    decreases n,
{
    if n == 0 {
        Map::empty()
    } else {
        let rest = tag_fold(children, (n - 1) as nat);
        let child = children[n - 1];
        if child.name == "tag"@ {
            rest.insert(
                attribute(child.attributes, "k"@).unwrap(),
                attribute(child.attributes, "v"@).unwrap(),
            )
        } else {
            rest
        }
    }
}

/// Reads the tag table of an element from its children. An element without
/// `tag` children has an empty table.
pub fn decode_tags<'a>(children: &Vec<XmlChild<'a>>) -> (r: Result<TagTable, DecodeError>)
    ensures
        match r {
            Ok(table) => tags_ok(children_model(children@)) && table@ == tag_fold(
                children_model(children@),
                children@.len(),
            ),
            Err(_) => !tags_ok(children_model(children@)),
        },
{
    let ghost models = children_model(children@);
    let mut table = TagTable::new();
    let mut i: usize = 0;
    while i < children.len()
        invariant
            i <= children.len(),
            models == children_model(children@),
            forall|j: int|
                0 <= j < i && (#[trigger] models[j]).name == "tag"@ ==> attribute(
                    models[j].attributes,
                    "k"@,
                ) is Some && attribute(models[j].attributes, "v"@) is Some,
            table@ == tag_fold(models, i as nat),
        decreases children.len() - i,
    {
        let child = &children[i];
        assert(models[i as int] == child@);
        if same_text(child.name, "tag") {
            let key = get_attribute(child.attributes, "k");
            let value = get_attribute(child.attributes, "v");
            match (key, value) {
                (Some(k), Some(v)) => {
                    table.insert(k, v);
                },
                _ => {
                    return Err(DecodeError::MalformedPayload);
                },
            }
        }
        i = i + 1;
    }
    Ok(table)
}

/// True when every `nd` child carries a `ref` that writes an integer.
pub open spec fn refs_ok(children: Seq<ChildModel>) -> bool {
    forall|i: int|
        0 <= i < children.len() && (#[trigger] children[i]).name == "nd"@ ==> attribute_integer(
            children[i].attributes,
            "ref"@,
        ) is Some
}

/// The identifiers that the `nd` children among the first `n` children
/// refer to, in order.
pub open spec fn refs_fold(children: Seq<ChildModel>, n: nat) -> Seq<i64>
    decreases n,
{
    if n == 0 {
        Seq::empty()
    } else {
        let rest = refs_fold(children, (n - 1) as nat);
        let child = children[n - 1];
        if child.name == "nd"@ {
            rest.push(attribute_integer(child.attributes, "ref"@).unwrap())
        } else {
            rest
        }
    }
}

/// Reads the point references of a path from its children. A path without
/// `nd` children has none.
pub fn decode_refs<'a>(children: &Vec<XmlChild<'a>>) -> (r: Result<Vec<i64>, DecodeError>)
    ensures
        match r {
            Ok(ids) => refs_ok(children_model(children@)) && ids@ == refs_fold(
                children_model(children@),
                children@.len(),
            ),
            Err(_) => !refs_ok(children_model(children@)),
        },
{
    let ghost models = children_model(children@);
    let mut ids: Vec<i64> = Vec::new();
    let mut i: usize = 0;
    while i < children.len()
        invariant
            i <= children.len(),
            models == children_model(children@),
            forall|j: int|
                0 <= j < i && (#[trigger] models[j]).name == "nd"@ ==> attribute_integer(
                    models[j].attributes,
                    "ref"@,
                ) is Some,
            ids@ == refs_fold(models, i as nat),
        decreases children.len() - i,
    {
        let child = &children[i];
        assert(models[i as int] == child@);
        if same_text(child.name, "nd") {
            match get_attribute_integer(child.attributes, "ref") {
                Some(id) => {
                    ids.push(id);
                },
                None => {
                    return Err(DecodeError::MalformedPayload);
                },
            }
        }
        i = i + 1;
    }
    Ok(ids)
}

/// True when `child` carries what a member needs: a `ref` that writes an
/// integer, a `type` and a `role`.
pub open spec fn member_ok(child: ChildModel) -> bool {
    &&& attribute_integer(child.attributes, "ref"@) is Some
    &&& attribute(child.attributes, "type"@) is Some
    &&& attribute(child.attributes, "role"@) is Some
}

/// The member that a well-formed `member` child writes down.
pub open spec fn member_of(child: ChildModel) -> MemberModel {
    MemberModel {
        id: attribute_integer(child.attributes, "ref"@).unwrap(),
        kind: attribute(child.attributes, "type"@).unwrap(),
        role: attribute(child.attributes, "role"@).unwrap(),
    }
}

/// True when every `member` child is well formed.
pub open spec fn members_ok(children: Seq<ChildModel>) -> bool {
    forall|i: int|
        0 <= i < children.len() && (#[trigger] children[i]).name == "member"@ ==> member_ok(
            children[i],
        )
}

/// The members that the `member` children among the first `n` children
/// write down, in order.
pub open spec fn members_fold(children: Seq<ChildModel>, n: nat) -> Seq<MemberModel>
    decreases n,
{
    if n == 0 {
        Seq::empty()
    } else {
        let rest = members_fold(children, (n - 1) as nat);
        let child = children[n - 1];
        if child.name == "member"@ {
            rest.push(member_of(child))
        } else {
            rest
        }
    }
}

/// Reads the members of a relation from its children. A relation without
/// `member` children has none.
pub fn decode_members<'a>(children: &Vec<XmlChild<'a>>) -> (r: Result<
    Vec<MemberRecord>,
    DecodeError,
>)
    ensures
        match r {
            Ok(members) => members_ok(children_model(children@)) && members@.map_values(
                |m: MemberRecord| m@,
            ) == members_fold(children_model(children@), children@.len()),
            Err(_) => !members_ok(children_model(children@)),
        },
{
    let ghost models = children_model(children@);
    let mut members: Vec<MemberRecord> = Vec::new();
    let mut i: usize = 0;
    assert(members@.map_values(|m: MemberRecord| m@) =~= members_fold(models, 0));
    while i < children.len()
        invariant
            i <= children.len(),
            models == children_model(children@),
            forall|j: int|
                0 <= j < i && (#[trigger] models[j]).name == "member"@ ==> member_ok(models[j]),
            members@.map_values(|m: MemberRecord| m@) == members_fold(models, i as nat),
        decreases children.len() - i,
    {
        let child = &children[i];
        let ghost members_before = members@;
        assert(models[i as int] == child@);
        if same_text(child.name, "member") {
            let id = get_attribute_integer(child.attributes, "ref");
            let kind = get_attribute(child.attributes, "type");
            let role = get_attribute(child.attributes, "role");
            match (id, kind, role) {
                (Some(id), Some(kind), Some(role)) => {
                    let record = MemberRecord { id, kind, role };
                    members.push(record);
                    assert(members@.map_values(|m: MemberRecord| m@) =~= members_before.map_values(
                        |m: MemberRecord| m@,
                    ).push(record@));
                },
                _ => {
                    return Err(DecodeError::MalformedPayload);
                },
            }
        }
        i = i + 1;
    }
    Ok(members)
}

/// True when `element` is a well-formed point: an `id` that writes an
/// integer, a `lat` and a `lon` that write finite decimal numbers, and
/// well-formed `tag` children.
pub open spec fn point_ok(element: ElementModel) -> bool {
    &&& attribute_integer(element.attributes, "id"@) is Some
    &&& attribute_coordinate(element.attributes, "lat"@) is Some
    &&& attribute_coordinate(element.attributes, "lon"@) is Some
    &&& tags_ok(element.children)
}

/// The point that a well-formed `element` writes down.
pub open spec fn point_of(element: ElementModel) -> (i64, PointModel) {
    (
        attribute_integer(element.attributes, "id"@).unwrap(),
        PointModel {
            lat: attribute_coordinate(element.attributes, "lat"@).unwrap(),
            lon: attribute_coordinate(element.attributes, "lon"@).unwrap(),
            tags: tag_fold(element.children, element.children.len()),
        },
    )
}

/// Reads one point.
pub fn decode_point<'a>(element: &XmlElement<'a>) -> (r: Result<PointRecord, DecodeError>)
    ensures
        match r {
            Ok(record) => point_ok(element@) && record@ == point_of(element@),
            Err(_) => !point_ok(element@),
        },
{
    let id = get_attribute_integer(element.attributes, "id");
    let lat = get_attribute_coordinate(element.attributes, "lat");
    let lon = get_attribute_coordinate(element.attributes, "lon");
    match (id, lat, lon) {
        (Some(id), Some(lat), Some(lon)) => match decode_tags(&element.children) {
            Ok(tags) => Ok(PointRecord { id, lat, lon, tags }),
            Err(e) => Err(e),
        },
        _ => Err(DecodeError::MalformedPayload),
    }
}

/// True when `element` is a well-formed path: an `id` that writes an
/// integer, and well-formed `nd` and `tag` children, of which there may be
/// none.
pub open spec fn path_ok(element: ElementModel) -> bool {
    &&& attribute_integer(element.attributes, "id"@) is Some
    &&& refs_ok(element.children)
    &&& tags_ok(element.children)
}

/// The path that a well-formed `element` writes down.
pub open spec fn path_of(element: ElementModel) -> (i64, PathModel) {
    (
        attribute_integer(element.attributes, "id"@).unwrap(),
        PathModel {
            nodes: refs_fold(element.children, element.children.len()),
            tags: tag_fold(element.children, element.children.len()),
        },
    )
}

/// Reads one path.
pub fn decode_path<'a>(element: &XmlElement<'a>) -> (r: Result<PathRecord, DecodeError>)
    ensures
        match r {
            Ok(record) => path_ok(element@) && record@ == path_of(element@),
            Err(_) => !path_ok(element@),
        },
{
    let id = match get_attribute_integer(element.attributes, "id") {
        Some(id) => id,
        None => {
            return Err(DecodeError::MalformedPayload);
        },
    };
    let nodes = match decode_refs(&element.children) {
        Ok(nodes) => nodes,
        Err(e) => {
            return Err(e);
        },
    };
    match decode_tags(&element.children) {
        Ok(tags) => Ok(PathRecord { id, nodes, tags }),
        Err(e) => Err(e),
    }
}

/// True when `element` is a well-formed relation: an `id` that writes an
/// integer, and well-formed `member` and `tag` children, of which there may
/// be none.
pub open spec fn relation_ok(element: ElementModel) -> bool {
    &&& attribute_integer(element.attributes, "id"@) is Some
    &&& members_ok(element.children)
    &&& tags_ok(element.children)
}

/// The relation record that a well-formed `element` writes down.
pub open spec fn relation_of_element(element: ElementModel) -> (
    i64,
    Seq<MemberModel>,
    Map<Seq<char>, Seq<char>>,
) {
    (
        attribute_integer(element.attributes, "id"@).unwrap(),
        members_fold(element.children, element.children.len()),
        tag_fold(element.children, element.children.len()),
    )
}

/// Reads one relation.
pub fn decode_relation<'a>(element: &XmlElement<'a>) -> (r: Result<RelationRecord, DecodeError>)
    ensures
        match r {
            Ok(record) => relation_ok(element@) && record@ == relation_of_element(element@),
            Err(_) => !relation_ok(element@),
        },
{
    let id = match get_attribute_integer(element.attributes, "id") {
        Some(id) => id,
        None => {
            return Err(DecodeError::MalformedPayload);
        },
    };
    let members = match decode_members(&element.children) {
        Ok(members) => members,
        Err(e) => {
            return Err(e);
        },
    };
    match decode_tags(&element.children) {
        Ok(tags) => Ok(RelationRecord { id, members, tags }),
        Err(e) => Err(e),
    }
}

/// The points that a token stream writes down, in order: its `node`
/// elements. `None` where the stream is unbalanced or one of them is no
/// well-formed point.
pub open spec fn xml_points(tokens: Seq<XmlToken>) -> Option<Seq<(i64, PointModel)>> {
    match elements_in(tokens, "node"@) {
        Some(elements) => if forall|i: int|
            0 <= i < elements.len() ==> point_ok(#[trigger] elements[i]) {
            Some(elements.map_values(|e: ElementModel| point_of(e)))
        } else {
            None
        },
        None => None,
    }
}

/// The paths that a token stream writes down, in order: its `way` elements.
/// `None` where the stream is unbalanced or one of them is no well-formed
/// path.
pub open spec fn xml_paths(tokens: Seq<XmlToken>) -> Option<Seq<(i64, PathModel)>> {
    match elements_in(tokens, "way"@) {
        Some(elements) => if forall|i: int|
            0 <= i < elements.len() ==> path_ok(#[trigger] elements[i]) {
            Some(elements.map_values(|e: ElementModel| path_of(e)))
        } else {
            None
        },
        None => None,
    }
}

/// The relations that a token stream writes down, in order: its `relation`
/// elements. `None` where the stream is unbalanced or one of them is no
/// well-formed relation.
pub open spec fn xml_relations(tokens: Seq<XmlToken>) -> Option<
    Seq<(i64, Seq<MemberModel>, Map<Seq<char>, Seq<char>>)>,
> {
    match elements_in(tokens, "relation"@) {
        Some(elements) => if forall|i: int|
            0 <= i < elements.len() ==> relation_ok(#[trigger] elements[i]) {
            Some(elements.map_values(|e: ElementModel| relation_of_element(e)))
        } else {
            None
        },
        None => None,
    }
}

/// Reads the points of a token stream.
#[verifier::loop_isolation(false)]
pub fn decode_points(tokens: &Vec<XmlToken>) -> (r: Result<Vec<PointRecord>, DecodeError>)
    ensures
        match r {
            Ok(records) => xml_points(tokens@) == Some(point_entries(records@)),
            Err(_) => xml_points(tokens@) is None,
        },
{
    let elements = match scan_elements(tokens, "node") {
        Ok(elements) => elements,
        Err(e) => {
            return Err(e);
        },
    };
    let ghost models = elements_model(elements@);
    let mut records: Vec<PointRecord> = Vec::new();
    let mut i: usize = 0;
    while i < elements.len()
        invariant
            i <= elements.len(),
            forall|j: int| 0 <= j < i ==> point_ok(#[trigger] models[j]),
            records@.len() == i,
            forall|j: int| 0 <= j < i ==> (#[trigger] records@[j])@ == point_of(models[j]),
        decreases elements.len() - i,
    {
        assert(models[i as int] == elements@[i as int]@);
        match decode_point(&elements[i]) {
            Ok(record) => {
                records.push(record);
            },
            Err(e) => {
                return Err(e);
            },
        }
        i = i + 1;
    }
    assert(point_entries(records@) =~= models.map_values(|e: ElementModel| point_of(e)));
    Ok(records)
}

/// Reads the paths of a token stream.
#[verifier::loop_isolation(false)]
pub fn decode_paths(tokens: &Vec<XmlToken>) -> (r: Result<Vec<PathRecord>, DecodeError>)
    ensures
        match r {
            Ok(records) => xml_paths(tokens@) == Some(path_entries(records@)),
            Err(_) => xml_paths(tokens@) is None,
        },
{
    let elements = match scan_elements(tokens, "way") {
        Ok(elements) => elements,
        Err(e) => {
            return Err(e);
        },
    };
    let ghost models = elements_model(elements@);
    let mut records: Vec<PathRecord> = Vec::new();
    let mut i: usize = 0;
    while i < elements.len()
        invariant
            i <= elements.len(),
            forall|j: int| 0 <= j < i ==> path_ok(#[trigger] models[j]),
            records@.len() == i,
            forall|j: int| 0 <= j < i ==> (#[trigger] records@[j])@ == path_of(models[j]),
        decreases elements.len() - i,
    {
        assert(models[i as int] == elements@[i as int]@);
        match decode_path(&elements[i]) {
            Ok(record) => {
                records.push(record);
            },
            Err(e) => {
                return Err(e);
            },
        }
        i = i + 1;
    }
    assert(path_entries(records@) =~= models.map_values(|e: ElementModel| path_of(e)));
    Ok(records)
}

/// Reads the relations of a token stream.
#[verifier::loop_isolation(false)]
pub fn decode_relations(tokens: &Vec<XmlToken>) -> (r: Result<Vec<RelationRecord>, DecodeError>)
    ensures
        match r {
            Ok(records) => xml_relations(tokens@) == Some(relation_records(records@)),
            Err(_) => xml_relations(tokens@) is None,
        },
{
    let elements = match scan_elements(tokens, "relation") {
        Ok(elements) => elements,
        Err(e) => {
            return Err(e);
        },
    };
    let ghost models = elements_model(elements@);
    let mut records: Vec<RelationRecord> = Vec::new();
    let mut i: usize = 0;
    while i < elements.len()
        invariant
            i <= elements.len(),
            forall|j: int| 0 <= j < i ==> relation_ok(#[trigger] models[j]),
            records@.len() == i,
            forall|j: int|
                0 <= j < i ==> (#[trigger] records@[j])@ == relation_of_element(models[j]),
        decreases elements.len() - i,
    {
        assert(models[i as int] == elements@[i as int]@);
        match decode_relation(&elements[i]) {
            Ok(record) => {
                records.push(record);
            },
            Err(e) => {
                return Err(e);
            },
        }
        i = i + 1;
    }
    assert(relation_records(records@) =~= models.map_values(
        |e: ElementModel| relation_of_element(e),
    ));
    Ok(records)
}

} // verus!
