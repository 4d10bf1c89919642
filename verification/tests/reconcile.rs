use osm_ingest::osm::{
    count_dropped_members, partition_members, reconcile_paths, reconcile_points, reconcile_relations, Node, Relation, Way,
};
use osm_ingest::query::{build_query, get_output_format, EntityKind, OutputFormat};
use osm_ingest::records::{MemberRecord, PathRecord, PointRecord, RelationRecord};
use osm_ingest::tags::TagTable;

fn member(id: i64, kind: &str, role: &str) -> MemberRecord {
    MemberRecord { id, kind: kind.to_string(), role: role.to_string() }
}

fn sorted_pairs(tags: &TagTable) -> Vec<(String, String)> {
    let mut pairs = tags.pairs().clone();
    pairs.sort();
    pairs
}

#[test]
fn relation_with_foreign_member() {
    let records = vec![RelationRecord {
        id: 5,
        members: vec![member(1, "node", "outer"), member(2, "relation", "inner")],
        tags: TagTable::new(),
    }];
    let store = reconcile_relations(&records);
    assert_eq!(store.len(), 1);
    let relation = store.get(&5).unwrap();
    assert_eq!(relation.nodes.len(), 1);
    assert_eq!(relation.nodes.get(&1), Some(&"outer".to_string()));
    assert!(relation.ways.is_empty());
    assert!(relation.nodes.get(&2).is_none());
}

#[test]
fn foreign_member_changes_nothing() {
    let with = vec![member(1, "node", "a"), member(9, "area", "x"), member(2, "way", "b")];
    let without = vec![member(1, "node", "a"), member(2, "way", "b")];
    assert_eq!(partition_members(&with), partition_members(&without));
    let only_foreign = vec![member(9, "relation", "x"), member(8, "NODE", "y"), member(7, "", "z")];
    let (nodes, ways) = partition_members(&only_foreign);
    assert!(nodes.is_empty());
    assert!(ways.is_empty());
}

#[test]
fn reconciling_twice_gives_the_same_store() {
    let mut tags = TagTable::new();
    tags.insert("name".to_string(), "Plaza".to_string());
    let records = vec![
        PointRecord { id: 1, lat: "1.5".to_string(), lon: "2.5".to_string(), tags },
        PointRecord { id: 2, lat: "3".to_string(), lon: "4".to_string(), tags: TagTable::new() },
        PointRecord { id: 1, lat: "9".to_string(), lon: "8".to_string(), tags: TagTable::new() },
    ];
    let first = reconcile_points(&records);
    let second = reconcile_points(&records);
    assert_eq!(first.len(), 2);
    assert_eq!(second.len(), 2);
    for (id, node) in first.iter() {
        let other = second.get(id).unwrap();
        assert_eq!(node.lat, other.lat);
        assert_eq!(node.lon, other.lon);
        assert_eq!(sorted_pairs(&node.tags), sorted_pairs(&other.tags));
    }
    assert_eq!(first.get(&1).unwrap().lat, "9");
    assert_eq!(first.get(&1).unwrap().tags.len(), 0);
}

#[test]
fn reconciled_path_copies_through() {
    let mut tags = TagTable::new();
    tags.insert("highway".to_string(), "residential".to_string());
    let records = vec![
        PathRecord { id: 3, nodes: vec![7, 8, 7], tags },
        PathRecord { id: 4, nodes: vec![], tags: TagTable::new() },
    ];
    let store = reconcile_paths(&records);
    assert_eq!(store.len(), 2);
    assert_eq!(store.get(&3).unwrap().nodes, vec![7, 8, 7]);
    assert_eq!(store.get(&3).unwrap().tags.get("highway"), Some(&"residential".to_string()));
    assert!(store.get(&4).unwrap().nodes.is_empty());
    assert!(reconcile_paths(&vec![]).is_empty());
    assert!(reconcile_points(&vec![]).is_empty());
    assert!(reconcile_relations(&vec![]).is_empty());
}

#[test]
fn both_formats_give_the_same_point() {
    let json = r#"{"elements":[{"id":1,"lat":43.7,"lon":7.4,"type":"node","tags":{"name":"Plaza","amenity":"cafe"}}]}"#;
    let xml = r#"<osm><node id="1" lat="43.7" lon="7.4"><tag k="amenity" v="cafe"/><tag k="name" v="Plaza"/></node></osm>"#;
    let a = Node::parse_json(json).unwrap();
    let b = Node::parse_xml(xml).unwrap();
    assert_eq!(a.len(), 1);
    assert_eq!(b.len(), 1);
    let (a, b) = (a.get(&1).unwrap(), b.get(&1).unwrap());
    assert_eq!(a.lat, b.lat);
    assert_eq!(a.lon, b.lon);
    assert_eq!(sorted_pairs(&a.tags), sorted_pairs(&b.tags));
    assert_eq!(a.tags.len(), 2);
}

#[test]
fn both_formats_give_the_same_path() {
    let json = r#"{"elements":[{"id":10,"type":"way","nodes":[3,1,2],"tags":{"highway":"path"}}]}"#;
    let xml = r#"<osm><way id="10"><nd ref="3"/><nd ref="1"/><nd ref="2"/><tag k="highway" v="path"/></way></osm>"#;
    let a = Way::parse_json(json).unwrap();
    let b = Way::parse_xml(xml).unwrap();
    let (a, b) = (a.get(&10).unwrap(), b.get(&10).unwrap());
    assert_eq!(a.nodes, b.nodes);
    assert_eq!(a.nodes, vec![3, 1, 2]);
    assert_eq!(sorted_pairs(&a.tags), sorted_pairs(&b.tags));
}

#[test]
fn both_formats_give_the_same_relation() {
    let json = r#"{"elements":[{"id":7,"type":"relation","members":[{"ref":1,"type":"node","role":"outer"},{"ref":3,"type":"way","role":"inner"},{"ref":4,"type":"relation","role":"sub"}],"tags":{"type":"site"}}]}"#;
    let xml = r#"<osm><relation id="7"><member type="node" ref="1" role="outer"/><member type="way" ref="3" role="inner"/><member type="relation" ref="4" role="sub"/><tag k="type" v="site"/></relation></osm>"#;
    let a = Relation::parse_json(json).unwrap();
    let b = Relation::parse_xml(xml).unwrap();
    let (a, b) = (a.get(&7).unwrap(), b.get(&7).unwrap());
    assert_eq!(a.nodes, b.nodes);
    assert_eq!(a.ways, b.ways);
    assert_eq!(a.nodes.len(), 1);
    assert_eq!(a.ways.len(), 1);
    assert_eq!(sorted_pairs(&a.tags), sorted_pairs(&b.tags));
}

#[test]
fn query_for_points_in_structured_text() {
    let query = Node::build_query(OutputFormat::JSON, "43.731", "7.418", "43.732", "7.419");
    assert_eq!(query, "[out:json]; node(43.731, 7.418, 43.732, 7.419); out;");
}

#[test]
fn query_for_each_kind_and_format() {
    assert_eq!(
        Node::build_query(OutputFormat::XML, "1", "2", "3", "4"),
        "[out:xml]; node(1, 2, 3, 4); out;"
    );
    assert_eq!(
        Way::build_query(OutputFormat::JSON, "-1.5", "2", "3", "4.25"),
        "[out:json]; way(-1.5, 2, 3, 4.25); out;"
    );
    assert_eq!(
        Way::build_query(OutputFormat::XML, "1", "2", "3", "4"),
        "[out:xml]; way(1, 2, 3, 4); out;"
    );
    assert_eq!(
        Relation::build_query(OutputFormat::JSON, "1", "2", "3", "4"),
        "[out:json]; relation(1, 2, 3, 4); out;"
    );
    assert_eq!(
        Relation::build_query(OutputFormat::XML, "1", "2", "3", "4"),
        "[out:xml]; relation(1, 2, 3, 4); out;"
    );
    assert_eq!(
        build_query(OutputFormat::XML, EntityKind::Path, "a", "b", "c", "d"),
        "[out:xml]; way(a, b, c, d); out;"
    );
}

#[test]
fn query_formats_differ_in_the_token_alone() {
    let boxes = [["43.731", "7.418", "43.732", "7.419"], ["9", "8", "1", "2"], ["", "", "", ""]];
    for b in boxes {
        let json = Node::build_query(OutputFormat::JSON, b[0], b[1], b[2], b[3]);
        let xml = Node::build_query(OutputFormat::XML, b[0], b[1], b[2], b[3]);
        assert_eq!(json.strip_prefix("[out:json"), xml.strip_prefix("[out:xml"));
        assert!(json.strip_prefix("[out:json").is_some());
        assert_ne!(json, xml);
    }
}

#[test]
fn query_takes_floats_through_their_text() {
    let (a, b, c, d) = (43.731f32, 7.418f32, 43.732f32, 7.419f32);
    let query = Node::build_query(
        OutputFormat::JSON,
        &a.to_string(),
        &b.to_string(),
        &c.to_string(),
        &d.to_string(),
    );
    assert_eq!(query, "[out:json]; node(43.731, 7.418, 43.732, 7.419); out;");
}

#[test]
fn output_format_tokens() {
    assert_eq!(get_output_format(OutputFormat::JSON), "json");
    assert_eq!(get_output_format(OutputFormat::XML), "xml");
}

#[test]
fn tag_table_keeps_each_key_once() {
    let mut tags = TagTable::new();
    assert_eq!(tags.len(), 0);
    assert!(tags.get("a").is_none());
    tags.insert("a".to_string(), "1".to_string());
    tags.insert("b".to_string(), "2".to_string());
    tags.insert("a".to_string(), "3".to_string());
    assert_eq!(tags.len(), 2);
    assert_eq!(tags.get("a"), Some(&"3".to_string()));
    assert_eq!(tags.get("b"), Some(&"2".to_string()));
    assert!(tags.get("c").is_none());
    assert!(tags.get("").is_none());
    assert_eq!(
        tags.pairs(),
        &vec![("a".to_string(), "3".to_string()), ("b".to_string(), "2".to_string())]
    );
    let copy = tags.duplicate();
    assert_eq!(copy.pairs(), tags.pairs());
}

#[test]
fn parse_goes_by_the_format() {
    let json = r#"{"elements":[{"id":1,"lat":43.7,"lon":7.4,"type":"node"}]}"#;
    let xml = r#"<osm><node id="2" lat="43.8" lon="7.5"/></osm>"#;
    assert!(Node::parse(OutputFormat::JSON, json).unwrap().contains_key(&1));
    assert!(Node::parse(OutputFormat::XML, xml).unwrap().contains_key(&2));
    assert!(Node::parse(OutputFormat::XML, json).is_err());
    assert!(Node::parse(OutputFormat::JSON, xml).is_err());
    let json = r#"{"elements":[{"id":3,"type":"way","nodes":[1]}]}"#;
    let xml = r#"<osm><way id="4"><nd ref="1"/></way></osm>"#;
    assert!(Way::parse(OutputFormat::JSON, json).unwrap().contains_key(&3));
    assert!(Way::parse(OutputFormat::XML, xml).unwrap().contains_key(&4));
    assert!(Way::parse(OutputFormat::JSON, xml).is_err());
    let json = r#"{"elements":[{"id":5,"type":"relation","members":[]}]}"#;
    let xml = r#"<osm><relation id="6"/></osm>"#;
    assert!(Relation::parse(OutputFormat::JSON, json).unwrap().contains_key(&5));
    assert!(Relation::parse(OutputFormat::XML, xml).unwrap().contains_key(&6));
    assert!(Relation::parse(OutputFormat::XML, json).is_err());
}

#[test]
fn dropped_members_are_counted() {
    let members = vec![
        member(1, "node", "a"),
        member(2, "relation", "b"),
        member(3, "way", "c"),
        member(4, "area", "d"),
        member(5, "", "e"),
        member(6, "Way", "f"),
    ];
    assert_eq!(count_dropped_members(&members), 4);
    assert_eq!(count_dropped_members(&vec![member(1, "node", "a"), member(3, "way", "c")]), 0);
    assert_eq!(count_dropped_members(&vec![]), 0);
    let (nodes, ways) = partition_members(&members);
    assert_eq!(nodes.len() + ways.len() + count_dropped_members(&members), members.len());
}
