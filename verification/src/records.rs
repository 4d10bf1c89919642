//! The format-neutral records that both decoders produce, one shape per
//! entity kind, and the mathematical models the contracts speak of.

use vstd::prelude::*;
use crate::tags::TagTable;

verus! {

/// Why a response body could not be decoded.
#[derive(Debug, Clone, Copy, PartialEq, Eq, Structural)]
pub enum DecodeError {
    /// The body is not well formed, or an element lacks a required field.
    MalformedPayload,
}

/// What a point is: its coordinates, as the decimal numerals received, and
/// its tags.
pub struct PointModel {
    pub lat: Seq<char>,
    pub lon: Seq<char>,
    pub tags: Map<Seq<char>, Seq<char>>,
}

/// What a path is: the identifiers of its points, in order, and its tags.
pub struct PathModel {
    pub nodes: Seq<i64>,
    pub tags: Map<Seq<char>, Seq<char>>,
}

/// One member of a relation as received: the member's identifier, the word
/// for its kind and its role.
pub struct MemberModel {
    pub id: i64,
    pub kind: Seq<char>,
    pub role: Seq<char>,
}

/// What a relation is: the roles of its member points and member paths, by
/// identifier, and its tags.
pub struct RelationModel {
    pub nodes: Map<i64, Seq<char>>,
    pub ways: Map<i64, Seq<char>>,
    pub tags: Map<Seq<char>, Seq<char>>,
}

/// A decoded point.
#[derive(Debug)]
pub struct PointRecord {
    pub id: i64,
    pub lat: String,
    pub lon: String,
    pub tags: TagTable,
}

/// A decoded path.
#[derive(Debug)]
pub struct PathRecord {
    pub id: i64,
    pub nodes: Vec<i64>,
    pub tags: TagTable,
}

/// A decoded member of a relation.
#[derive(Debug)]
pub struct MemberRecord {
    pub id: i64,
    pub kind: String,
    pub role: String,
}

/// A decoded relation.
#[derive(Debug)]
pub struct RelationRecord {
    pub id: i64,
    pub members: Vec<MemberRecord>,
    pub tags: TagTable,
}

impl View for PointRecord {
    type V = (i64, PointModel);

    open spec fn view(&self) -> (i64, PointModel) {
        (self.id, PointModel { lat: self.lat@, lon: self.lon@, tags: self.tags@ })
    }
}

impl View for PathRecord {
    type V = (i64, PathModel);

    open spec fn view(&self) -> (i64, PathModel) {
        (self.id, PathModel { nodes: self.nodes@, tags: self.tags@ })
    }
}

impl View for MemberRecord {
    type V = MemberModel;

    open spec fn view(&self) -> MemberModel {
        MemberModel { id: self.id, kind: self.kind@, role: self.role@ }
    }
}

/// The roles of the first `n` members that are of `kind`, by identifier. A
/// later member replaces an earlier one with the same identifier; members of
/// another kind leave no trace.
pub open spec fn member_roles(members: Seq<MemberModel>, kind: Seq<char>, n: nat) -> Map<
    i64,
    Seq<char>,
>
    decreases n,
{
    if n == 0 {
        Map::empty()
    } else {
        let rest = member_roles(members, kind, (n - 1) as nat);
        if members[n - 1].kind == kind {
            rest.insert(members[n - 1].id, members[n - 1].role)
        } else {
            rest
        }
    }
}

/// How many of the first `n` members are neither points nor paths, and so
/// have no place in a relation.
pub open spec fn foreign_members(members: Seq<MemberModel>, n: nat) -> nat
    decreases n,
{
    if n == 0 {
        0
    } else {
        let last = members[n - 1];
        foreign_members(members, (n - 1) as nat) + if last.kind != "node"@ && last.kind != "way"@ {
            1nat
        } else {
            0nat
        }
    }
}

/// The relation that a list of members and a tag table make up. Only members
/// that are points or paths are kept: the model has no place for a member of
/// any other kind, such as another relation, and leaves it out.
pub open spec fn relation_of(members: Seq<MemberModel>, tags: Map<Seq<char>, Seq<char>>)
    -> RelationModel {
    RelationModel {
        nodes: member_roles(members, "node"@, members.len()),
        ways: member_roles(members, "way"@, members.len()),
        tags,
    }
}

impl RelationRecord {
    /// The members as received, in order.
    pub open spec fn members_model(&self) -> Seq<MemberModel> {
        self.members@.map_values(|m: MemberRecord| m@)
    }
}

impl View for RelationRecord {
    type V = (i64, Seq<MemberModel>, Map<Seq<char>, Seq<char>>);

    open spec fn view(&self) -> (i64, Seq<MemberModel>, Map<Seq<char>, Seq<char>>) {
        (self.id, self.members_model(), self.tags@)
    }
}

/// The store that the first `n` entries build up when entered one after the
/// other: the last entry under an identifier is the one that stays.
pub open spec fn store_of<M>(entries: Seq<(i64, M)>, n: nat) -> Map<i64, M>
    decreases n,
{
    if n == 0 {
        Map::empty()
    } else {
        store_of(entries, (n - 1) as nat).insert(entries[n - 1].0, entries[n - 1].1)
    }
}

/// The models of a list of point records.
pub open spec fn point_entries(records: Seq<PointRecord>) -> Seq<(i64, PointModel)> {
    records.map_values(|r: PointRecord| r@)
}

/// The models of a list of path records.
pub open spec fn path_entries(records: Seq<PathRecord>) -> Seq<(i64, PathModel)> {
    records.map_values(|r: PathRecord| r@)
}

/// The models of a list of relation records, members in full.
pub open spec fn relation_records(records: Seq<RelationRecord>) -> Seq<
    (i64, Seq<MemberModel>, Map<Seq<char>, Seq<char>>),
> {
    records.map_values(|r: RelationRecord| r@)
}

/// The relations that a list of decoded relations stands for.
pub open spec fn relation_entries(
    records: Seq<(i64, Seq<MemberModel>, Map<Seq<char>, Seq<char>>)>,
) -> Seq<(i64, RelationModel)> {
    records.map_values(
        |r: (i64, Seq<MemberModel>, Map<Seq<char>, Seq<char>>)| (r.0, relation_of(r.1, r.2)),
    )
}

} // verus!
