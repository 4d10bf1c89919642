//! What holds of the decoders and of reconciliation as a whole, proved from
//! their definitions.

use std::collections::HashMap;
use vstd::prelude::*;
use crate::ingest::{
    json_text_paths, json_text_points, json_text_relations, paths_outcome, points_outcome,
    relations_outcome, xml_text_paths, xml_text_points, xml_text_relations,
};
use crate::json::{
    coordinate_of, elements_of, ids_of, ids_ok, integer_of, items_of, json_points, member,
    tags_of, Json,
};
use crate::osm::{
    path_store_model, point_store_model, relation_store_model, Node, Relation, Way,
};
use crate::records::{
    member_roles, path_entries, point_entries, relation_entries, relation_of, relation_records,
    store_of, DecodeError, MemberModel, PathRecord, PointRecord, RelationRecord,
};
use crate::text::is_numeral;
use crate::xml::{members_fold, refs_fold, xml_points, ChildModel, ElementModel, XmlToken};

verus! {

/// An identifier is in the store exactly when one of the entries carries it.
pub proof fn lemma_store_holds_the_entered<M>(entries: Seq<(i64, M)>, n: nat, id: i64)
    requires
        n <= entries.len(),
    ensures
        store_of(entries, n).contains_key(id) <==> exists|i: int|
            0 <= i < n && (#[trigger] entries[i]).0 == id,
    decreases n,
{
    if n > 0 {
        lemma_store_holds_the_entered(entries, (n - 1) as nat, id);
        if store_of(entries, n).contains_key(id) {
            if entries[n - 1].0 == id {
            } else {
                let i = choose|i: int| 0 <= i < n - 1 && (#[trigger] entries[i]).0 == id;
                assert(0 <= i < n && entries[i].0 == id);
            }
        }
        if exists|i: int| 0 <= i < n && (#[trigger] entries[i]).0 == id {
            let i = choose|i: int| 0 <= i < n && (#[trigger] entries[i]).0 == id;
            if i < n - 1 {
                assert(0 <= i < n - 1 && entries[i].0 == id);
            }
        }
    }
}

/// Last write wins: an entry that no later entry repeats the identifier of
/// is the one the store holds under that identifier.
pub proof fn lemma_store_keeps_the_last<M>(entries: Seq<(i64, M)>, n: nat, i: int)
    requires
        n <= entries.len(),
        0 <= i < n,
        forall|j: int| i < j < n ==> (#[trigger] entries[j]).0 != entries[i].0,
    ensures
        store_of(entries, n).contains_key(entries[i].0),
        store_of(entries, n)[entries[i].0] == entries[i].1,
    decreases n,
{
    if i < n - 1 {
        lemma_store_keeps_the_last(entries, (n - 1) as nat, i);
        assert(entries[n - 1].0 != entries[i].0);
    }
}

/// Reconciling points is a function of what the records say: two lists of
/// records with the same content give the same store, and so does the same
/// list reconciled twice.
pub proof fn lemma_points_reconcile_alike(
    first: Seq<PointRecord>,
    second: Seq<PointRecord>,
    a: HashMap<i64, Node>,
    b: HashMap<i64, Node>,
)
    requires
        point_entries(first) == point_entries(second),
        point_store_model(a) == store_of(point_entries(first), first.len()),
        point_store_model(b) == store_of(point_entries(second), second.len()),
    ensures
        point_store_model(a) == point_store_model(b),
{
    assert(point_entries(first).len() == first.len());
    assert(point_entries(second).len() == second.len());
}

/// Reconciling paths is a function of what the records say.
pub proof fn lemma_paths_reconcile_alike(
    first: Seq<PathRecord>,
    second: Seq<PathRecord>,
    a: HashMap<i64, Way>,
    b: HashMap<i64, Way>,
)
    requires
        path_entries(first) == path_entries(second),
        path_store_model(a) == store_of(path_entries(first), first.len()),
        path_store_model(b) == store_of(path_entries(second), second.len()),
    ensures
        path_store_model(a) == path_store_model(b),
{
    assert(path_entries(first).len() == first.len());
    assert(path_entries(second).len() == second.len());
}

/// Reconciling relations is a function of what the records say.
pub proof fn lemma_relations_reconcile_alike(
    first: Seq<RelationRecord>,
    second: Seq<RelationRecord>,
    a: HashMap<i64, Relation>,
    b: HashMap<i64, Relation>,
)
    requires
        relation_records(first) == relation_records(second),
        relation_store_model(a) == store_of(
            relation_entries(relation_records(first)),
            first.len(),
        ),
        relation_store_model(b) == store_of(
            relation_entries(relation_records(second)),
            second.len(),
        ),
    ensures
        relation_store_model(a) == relation_store_model(b),
{
    assert(relation_records(first).len() == first.len());
    assert(relation_records(second).len() == second.len());
}

/// A structured-text body and a markup body that write down the same
/// points decode alike: both fail, or both give stores that hold the same
/// points under the same identifiers, whatever the order of their tags.
pub proof fn lemma_formats_agree_on_points(
    json_text: Seq<char>,
    xml_text: Seq<char>,
    from_json: Result<HashMap<i64, Node>, DecodeError>,
    from_xml: Result<HashMap<i64, Node>, DecodeError>,
)
    requires
        json_text_points(json_text) == xml_text_points(xml_text),
        points_outcome(json_text_points(json_text), from_json),
        points_outcome(xml_text_points(xml_text), from_xml),
    ensures
        from_json is Ok <==> from_xml is Ok,
        from_json is Ok ==> point_store_model(from_json->Ok_0) == point_store_model(
            from_xml->Ok_0,
        ),
{
}

/// A structured-text body and a markup body that write down the same paths
/// decode alike.
pub proof fn lemma_formats_agree_on_paths(
    json_text: Seq<char>,
    xml_text: Seq<char>,
    from_json: Result<HashMap<i64, Way>, DecodeError>,
    from_xml: Result<HashMap<i64, Way>, DecodeError>,
)
    requires
        json_text_paths(json_text) == xml_text_paths(xml_text),
        paths_outcome(json_text_paths(json_text), from_json),
        paths_outcome(xml_text_paths(xml_text), from_xml),
    ensures
        from_json is Ok <==> from_xml is Ok,
        from_json is Ok ==> path_store_model(from_json->Ok_0) == path_store_model(from_xml->Ok_0),
{
}

/// A structured-text body and a markup body that write down the same
/// relations decode alike.
pub proof fn lemma_formats_agree_on_relations(
    json_text: Seq<char>,
    xml_text: Seq<char>,
    from_json: Result<HashMap<i64, Relation>, DecodeError>,
    from_xml: Result<HashMap<i64, Relation>, DecodeError>,
)
    requires
        json_text_relations(json_text) == xml_text_relations(xml_text),
        relations_outcome(json_text_relations(json_text), from_json),
        relations_outcome(xml_text_relations(xml_text), from_xml),
    ensures
        from_json is Ok <==> from_xml is Ok,
        from_json is Ok ==> relation_store_model(from_json->Ok_0) == relation_store_model(
            from_xml->Ok_0,
        ),
{
}

/// A structured-text element and a markup element that carry the same
/// identifier, the same coordinates and the same tags, in whatever order
/// the tags come, write down the same point.
pub proof fn lemma_same_point_in_either_format(item: Json, element: ElementModel)
    requires
        crate::json::point_ok(item),
        crate::xml::point_ok(element),
        integer_of(member(item, "id"@)) == crate::xml::attribute_integer(
            element.attributes,
            "id"@,
        ),
        coordinate_of(member(item, "lat"@)) == crate::xml::attribute_coordinate(
            element.attributes,
            "lat"@,
        ),
        coordinate_of(member(item, "lon"@)) == crate::xml::attribute_coordinate(
            element.attributes,
            "lon"@,
        ),
        tags_of(member(item, "tags"@)) == crate::xml::tag_fold(
            element.children,
            element.children.len(),
        ),
    ensures
        crate::json::point_of(item) == crate::xml::point_of(element),
{
}

/// Every point that the structured-text decoder gives has finite decimal
/// numbers for its coordinates.
pub proof fn lemma_json_points_have_numerals(doc: Json, i: int)
    requires
        json_points(doc) is Some,
        0 <= i < json_points(doc).unwrap().len(),
    ensures
        is_numeral(json_points(doc).unwrap()[i].1.lat),
        is_numeral(json_points(doc).unwrap()[i].1.lon),
{
    let items = elements_of(doc).unwrap();
    assert(crate::json::point_ok(items[i]));
}

/// Every point that the markup decoder gives has finite decimal numbers
/// for its coordinates.
pub proof fn lemma_xml_points_have_numerals(tokens: Seq<XmlToken>, i: int)
    requires
        xml_points(tokens) is Some,
        0 <= i < xml_points(tokens).unwrap().len(),
    ensures
        is_numeral(xml_points(tokens).unwrap()[i].1.lat),
        is_numeral(xml_points(tokens).unwrap()[i].1.lon),
{
    let elements = crate::xml::elements_in(tokens, "node"@).unwrap();
    assert(crate::xml::point_ok(elements[i]));
}

/// Whatever a store holds under an identifier is what one of the entries
/// brought.
pub proof fn lemma_store_holds_only_the_entered<M>(entries: Seq<(i64, M)>, n: nat, id: i64)
    requires
        n <= entries.len(),
        store_of(entries, n).contains_key(id),
    ensures
        exists|i: int| 0 <= i < n && #[trigger] entries[i] == (id, store_of(entries, n)[id]),
    decreases n,
{
    if n > 0 {
        if entries[n - 1].0 == id {
            assert(entries[n - 1] == (id, store_of(entries, n)[id]));
        } else {
            lemma_store_holds_only_the_entered(entries, (n - 1) as nat, id);
            let i = choose|i: int|
                0 <= i < n - 1 && #[trigger] entries[i] == (id, store_of(
                    entries,
                    (n - 1) as nat,
                )[id]);
            assert(entries[i] == (id, store_of(entries, n)[id]));
        }
    }
}

/// A structured-text path whose list of points is empty is well formed in
/// that respect, and its path has no points.
pub proof fn lemma_json_path_may_be_empty(item: Json)
    requires
        items_of(member(item, "nodes"@)) == Some(Seq::<Json>::empty()),
    ensures
        ids_ok(member(item, "nodes"@)),
        ids_of(member(item, "nodes"@)) == Seq::<i64>::empty(),
{
    assert(ids_of(member(item, "nodes"@)) =~= Seq::<i64>::empty());
}

/// A markup path without `nd` children is well formed in that respect, and
/// its path has no points.
pub proof fn lemma_xml_path_may_be_empty(children: Seq<ChildModel>, n: nat)
    requires
        n <= children.len(),
        forall|i: int| 0 <= i < children.len() ==> (#[trigger] children[i]).name != "nd"@,
    ensures
        crate::xml::refs_ok(children),
        refs_fold(children, n) == Seq::<i64>::empty(),
    decreases n,
{
    if n > 0 {
        lemma_xml_path_may_be_empty(children, (n - 1) as nat);
    }
}

/// A markup relation without `member` children is well formed in that
/// respect, and has no members.
pub proof fn lemma_xml_relation_may_be_empty(children: Seq<ChildModel>, n: nat)
    requires
        n <= children.len(),
        forall|i: int| 0 <= i < children.len() ==> (#[trigger] children[i]).name != "member"@,
    ensures
        crate::xml::members_ok(children),
        members_fold(children, n) == Seq::<MemberModel>::empty(),
    decreases n,
{
    if n > 0 {
        lemma_xml_relation_may_be_empty(children, (n - 1) as nat);
    }
}

/// A structured-text element without `tags`, or with a null for them, is
/// well formed in that respect and has the empty tag table.
pub proof fn lemma_json_tags_may_be_missing(item: Json)
    requires
        member(item, "tags"@) is None || member(item, "tags"@) == Some(Json::Null),
    ensures
        crate::json::tags_ok(member(item, "tags"@)),
        tags_of(member(item, "tags"@)) == Map::<Seq<char>, Seq<char>>::empty(),
{
}

/// A markup element without `tag` children is well formed in that respect
/// and has the empty tag table.
pub proof fn lemma_xml_tags_may_be_missing(children: Seq<ChildModel>, n: nat)
    requires
        n <= children.len(),
        forall|i: int| 0 <= i < children.len() ==> (#[trigger] children[i]).name != "tag"@,
    ensures
        crate::xml::tags_ok(children),
        crate::xml::tag_fold(children, n) == Map::<Seq<char>, Seq<char>>::empty(),
    decreases n,
{
    if n > 0 {
        lemma_xml_tags_may_be_missing(children, (n - 1) as nat);
    }
}

/// The roles of one kind do not change when a member of another kind is
/// taken out of the list.
pub proof fn lemma_member_roles_skip(members: Seq<MemberModel>, kind: Seq<char>, i: int, n: nat)
    requires
        0 <= i < members.len(),
        members[i].kind != kind,
        n <= members.len(),
    ensures
        member_roles(members, kind, n) == member_roles(
            members.remove(i),
            kind,
            if n <= i {
                n
            } else {
                (n - 1) as nat
            },
        ),
    decreases n,
{
    let rest = members.remove(i);
    if n > 0 {
        lemma_member_roles_skip(members, kind, i, (n - 1) as nat);
        if n - 1 < i {
            assert(rest[n - 1] == members[n - 1]);
        } else if n - 1 > i {
            assert(rest[n - 2] == members[n - 1]);
        }
    }
}

/// A member that is neither a point nor a path is in neither role map: the
/// relation is the one that the other members make up.
pub proof fn lemma_foreign_member_is_dropped(
    members: Seq<MemberModel>,
    tags: Map<Seq<char>, Seq<char>>,
    i: int,
)
    requires
        0 <= i < members.len(),
        members[i].kind != "node"@,
        members[i].kind != "way"@,
    ensures
        relation_of(members, tags) == relation_of(members.remove(i), tags),
{
    lemma_member_roles_skip(members, "node"@, i, members.len());
    lemma_member_roles_skip(members, "way"@, i, members.len());
}

/// A document whose list of elements is empty writes down no entity of any
/// kind, and is well formed.
pub proof fn lemma_json_no_elements(doc: Json)
    requires
        elements_of(doc) == Some(Seq::<Json>::empty()),
    ensures
        crate::json::json_points(doc) is Some,
        crate::json::json_points(doc).unwrap().len() == 0,
        crate::json::json_paths(doc) is Some,
        crate::json::json_paths(doc).unwrap().len() == 0,
        crate::json::json_relations(doc) is Some,
        crate::json::json_relations(doc).unwrap().len() == 0,
{
}

} // verus!
