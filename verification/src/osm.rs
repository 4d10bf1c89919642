//! The three kinds of entity and the stores that reconciliation builds from
//! decoded records.

use std::collections::HashMap;
use vstd::prelude::*;
use crate::records::{
    foreign_members, member_roles, path_entries, point_entries, relation_entries, relation_records, store_of,
    MemberRecord, PathModel, PathRecord, PointModel, PointRecord, RelationModel, RelationRecord,
};
use crate::tags::TagTable;
use crate::text::same_text;

verus! {

broadcast use vstd::std_specs::hash::group_hash_axioms;

/// A single geographic coordinate with tags. The coordinates are kept as the
/// decimal numerals that were received.
#[derive(Debug)]
pub struct Node {
    pub lat: String,
    pub lon: String,
    pub tags: TagTable,
}

/// An ordered run of point identifiers that describes a line or the
/// boundary of an area. The identifiers are references by value: the points
/// need not be in any store.
#[derive(Debug)]
pub struct Way {
    pub nodes: Vec<i64>,
    pub tags: TagTable,
}

/// A tagged group of points and paths, each with a role.
#[derive(Debug)]
pub struct Relation {
    pub ways: HashMap<i64, String>,
    pub nodes: HashMap<i64, String>,
    pub tags: TagTable,
}

impl View for Node {
    type V = PointModel;

    open spec fn view(&self) -> PointModel {
        PointModel { lat: self.lat@, lon: self.lon@, tags: self.tags@ }
    }
}

impl View for Way {
    type V = PathModel;

    open spec fn view(&self) -> PathModel {
        PathModel { nodes: self.nodes@, tags: self.tags@ }
    }
}

/// A role map with each role as its characters.
pub open spec fn roles_model(roles: Map<i64, String>) -> Map<i64, Seq<char>> {
    roles.map_values(|role: String| role@)
}

impl View for Relation {
    type V = RelationModel;

    open spec fn view(&self) -> RelationModel {
        RelationModel {
            nodes: roles_model(self.nodes@),
            ways: roles_model(self.ways@),
            tags: self.tags@,
        }
    }
}

/// What a store of points holds, by identifier.
pub open spec fn point_store_model(store: HashMap<i64, Node>) -> Map<i64, PointModel> {
    store@.map_values(|n: Node| n@)
}

/// What a store of paths holds, by identifier.
pub open spec fn path_store_model(store: HashMap<i64, Way>) -> Map<i64, PathModel> {
    store@.map_values(|w: Way| w@)
}

/// What a store of relations holds, by identifier.
pub open spec fn relation_store_model(store: HashMap<i64, Relation>) -> Map<i64, RelationModel> {
    store@.map_values(|r: Relation| r@)
}

/// Copies a list of identifiers.
pub fn copy_ids(ids: &Vec<i64>) -> (r: Vec<i64>)
    ensures
        r@ == ids@,
{
    let mut copy: Vec<i64> = Vec::new();
    let mut i: usize = 0;
    while i < ids.len()
        invariant
            i <= ids.len(),
            copy@ == ids@.take(i as int),
        decreases ids.len() - i,
    {
        copy.push(ids[i]);
        assert(copy@ =~= ids@.take(i + 1));
        i = i + 1;
    }
    assert(copy@ =~= ids@);
    copy
}

/// Sorts the members of a relation into the roles of its points and the
/// roles of its paths. A member of any other kind is left out of both.
pub fn partition_members(members: &Vec<MemberRecord>) -> (r: (
    HashMap<i64, String>,
    HashMap<i64, String>,
))
    ensures
        roles_model(r.0@) == member_roles(
            members@.map_values(|m: MemberRecord| m@),
            "node"@,
            members@.len(),
        ),
        roles_model(r.1@) == member_roles(
            members@.map_values(|m: MemberRecord| m@),
            "way"@,
            members@.len(),
        ),
{
    let ghost models = members@.map_values(|m: MemberRecord| m@);
    let mut nodes: HashMap<i64, String> = HashMap::new();
    let mut ways: HashMap<i64, String> = HashMap::new();
    let mut i: usize = 0;
    assert(roles_model(nodes@) =~= member_roles(models, "node"@, 0));
    assert(roles_model(ways@) =~= member_roles(models, "way"@, 0));
    while i < members.len()
        invariant
            i <= members.len(),
            models == members@.map_values(|m: MemberRecord| m@),
            roles_model(nodes@) == member_roles(models, "node"@, i as nat),
            roles_model(ways@) == member_roles(models, "way"@, i as nat),
        decreases members.len() - i,
    {
        let member = &members[i];
        let ghost nodes_before = nodes@;
        let ghost ways_before = ways@;
        proof {
            reveal_strlit("node");
            reveal_strlit("way");
            assert("node"@ != "way"@) by {
                assert("node"@.len() != "way"@.len());
            }
            assert(models[i as int] == member@);
        }
        if same_text(&member.kind, "node") {
            let role = member.role.clone();
            nodes.insert(member.id, role);
            assert(roles_model(nodes@) =~= roles_model(nodes_before).insert(member.id, role@));
        } else if same_text(&member.kind, "way") {
            let role = member.role.clone();
            ways.insert(member.id, role);
            assert(roles_model(ways@) =~= roles_model(ways_before).insert(member.id, role@));
        }
        i = i + 1;
    }
    (nodes, ways)
}

/// Counts the members that `partition_members` leaves out: those that are
/// neither points nor paths.
pub fn count_dropped_members(members: &Vec<MemberRecord>) -> (r: usize)
    ensures
        r == foreign_members(members@.map_values(|m: MemberRecord| m@), members@.len()),
{
    let ghost models = members@.map_values(|m: MemberRecord| m@);
    let mut count: usize = 0;
    let mut i: usize = 0;
    while i < members.len()
        invariant
            i <= members.len(),
            models == members@.map_values(|m: MemberRecord| m@),
            count <= i,
            count == foreign_members(models, i as nat),
        decreases members.len() - i,
    {
        let member = &members[i];
        assert(models[i as int] == member@);
        if !same_text(&member.kind, "node") && !same_text(&member.kind, "way") {
            count = count + 1;
        }
        i = i + 1;
    }
    count
}

/// Builds the store of points from decoded records, entered in order: where
/// two records share an identifier the later one stays.
pub fn reconcile_points(records: &Vec<PointRecord>) -> (store: HashMap<i64, Node>)
    ensures
        point_store_model(store) == store_of(point_entries(records@), records@.len()),
{
    let ghost entries = point_entries(records@);
    let mut store: HashMap<i64, Node> = HashMap::new();
    let mut i: usize = 0;
    assert(point_store_model(store) =~= store_of(entries, 0));
    while i < records.len()
        invariant
            i <= records.len(),
            entries == point_entries(records@),
            point_store_model(store) == store_of(entries, i as nat),
        decreases records.len() - i,
    {
        let record = &records[i];
        let node = Node {
            lat: record.lat.clone(),
            lon: record.lon.clone(),
            tags: record.tags.duplicate(),
        };
        let ghost before = store@;
        assert(entries[i as int] == (record.id, node@));
        store.insert(record.id, node);
        assert(point_store_model(store) =~= before.map_values(|n: Node| n@).insert(
            record.id,
            node@,
        ));
        i = i + 1;
    }
    store
}

/// Builds the store of paths from decoded records, entered in order: where
/// two records share an identifier the later one stays.
pub fn reconcile_paths(records: &Vec<PathRecord>) -> (store: HashMap<i64, Way>)
    ensures
        path_store_model(store) == store_of(path_entries(records@), records@.len()),
{
    let ghost entries = path_entries(records@);
    let mut store: HashMap<i64, Way> = HashMap::new();
    let mut i: usize = 0;
    assert(path_store_model(store) =~= store_of(entries, 0));
    while i < records.len()
        invariant
            i <= records.len(),
            entries == path_entries(records@),
            path_store_model(store) == store_of(entries, i as nat),
        decreases records.len() - i,
    {
        let record = &records[i];
        let way = Way { nodes: copy_ids(&record.nodes), tags: record.tags.duplicate() };
        let ghost before = store@;
        assert(entries[i as int] == (record.id, way@));
        store.insert(record.id, way);
        assert(path_store_model(store) =~= before.map_values(|w: Way| w@).insert(record.id, way@));
        i = i + 1;
    }
    store
}

/// Builds the store of relations from decoded records, entered in order:
/// where two records share an identifier the later one stays. Each
/// relation's members are sorted into point roles and path roles; a member
/// that is neither is dropped, and the relation is kept.
pub fn reconcile_relations(records: &Vec<RelationRecord>) -> (store: HashMap<i64, Relation>)
    ensures
        relation_store_model(store) == store_of(
            relation_entries(relation_records(records@)),
            records@.len(),
        ),
{
    let ghost entries = relation_entries(relation_records(records@));
    let mut store: HashMap<i64, Relation> = HashMap::new();
    let mut i: usize = 0;
    assert(relation_store_model(store) =~= store_of(entries, 0));
    while i < records.len()
        invariant
            i <= records.len(),
            entries == relation_entries(relation_records(records@)),
            relation_store_model(store) == store_of(entries, i as nat),
        decreases records.len() - i,
    {
        let record = &records[i];
        let (nodes, ways) = partition_members(&record.members);
        let relation = Relation { ways, nodes, tags: record.tags.duplicate() };
        let ghost before = store@;
        assert(entries[i as int] == (record.id, relation@)) by {
            assert(relation_records(records@)[i as int] == record@);
        }
        store.insert(record.id, relation);
        assert(relation_store_model(store) =~= before.map_values(|r: Relation| r@).insert(
            record.id,
            relation@,
        ));
        i = i + 1;
    }
    store
}

} // verus!
