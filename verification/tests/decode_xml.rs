use osm_ingest::osm::{Node, Relation, Way};
use osm_ingest::records::DecodeError;
use osm_ingest::xml::{scan_elements, XmlToken};

fn open(name: &str, attributes: &[(&str, &str)]) -> XmlToken {
    XmlToken::Open {
        name: name.to_string(),
        attributes: attributes.iter().map(|(k, v)| (k.to_string(), v.to_string())).collect(),
    }
}

#[test]
fn xml_point_without_tags() {
    let body = r#"<osm><node id="2" lat="43.8" lon="7.5"/></osm>"#;
    let store = Node::parse_xml(body).unwrap();
    assert_eq!(store.len(), 1);
    let node = store.get(&2).unwrap();
    assert_eq!(node.lat, "43.8");
    assert_eq!(node.lon, "7.5");
    assert_eq!(node.lat.parse::<f32>().unwrap(), 43.8f32);
    assert_eq!(node.lon.parse::<f32>().unwrap(), 7.5f32);
    assert_eq!(node.tags.len(), 0);
    assert!(store.get(&1).is_none());
}

#[test]
fn xml_point_with_tags_and_prolog() {
    let body = "<?xml version=\"1.0\" encoding=\"UTF-8\"?>\n<osm version=\"0.6\">\n  <note>data</note>\n  <meta osm_base=\"x\"/>\n  <node id=\"1\" lat=\"43.7\" lon=\"7.4\">\n    <tag k=\"name\" v=\"Plaza\"/>\n    <tag k=\"amenity\" v=\"cafe\"/>\n  </node>\n</osm>";
    let store = Node::parse_xml(body).unwrap();
    assert_eq!(store.len(), 1);
    let node = store.get(&1).unwrap();
    assert_eq!(node.tags.len(), 2);
    assert_eq!(node.tags.get("name"), Some(&"Plaza".to_string()));
    assert_eq!(node.tags.get("amenity"), Some(&"cafe".to_string()));
}

#[test]
fn xml_without_elements_of_the_kind_gives_empty_store() {
    assert!(Node::parse_xml("<osm></osm>").unwrap().is_empty());
    assert!(Way::parse_xml("<osm/>").unwrap().is_empty());
    assert!(Relation::parse_xml(r#"<osm><node id="2" lat="1" lon="1"/></osm>"#).unwrap().is_empty());
    assert!(Node::parse_xml(r#"<osm><way id="2"/></osm>"#).unwrap().is_empty());
}

#[test]
fn xml_not_well_formed_is_malformed() {
    assert_eq!(Node::parse_xml("<osm><node id=\"1\"").unwrap_err(), DecodeError::MalformedPayload);
    assert_eq!(Node::parse_xml("<osm><node></osm>").unwrap_err(), DecodeError::MalformedPayload);
    assert_eq!(Way::parse_xml("").unwrap_err(), DecodeError::MalformedPayload);
    assert_eq!(Relation::parse_xml("<osm>").unwrap_err(), DecodeError::MalformedPayload);
}

#[test]
fn xml_point_missing_id_is_malformed() {
    let body = r#"<osm><node lat="43.8" lon="7.5"/></osm>"#;
    assert_eq!(Node::parse_xml(body).unwrap_err(), DecodeError::MalformedPayload);
}

#[test]
fn xml_point_missing_coordinate_is_malformed() {
    let body = r#"<osm><node id="1" lon="7.5"/></osm>"#;
    assert_eq!(Node::parse_xml(body).unwrap_err(), DecodeError::MalformedPayload);
    let body = r#"<osm><node id="1" lat="7.5"/></osm>"#;
    assert_eq!(Node::parse_xml(body).unwrap_err(), DecodeError::MalformedPayload);
}

#[test]
fn xml_identifier_is_a_decimal_integer() {
    let ok = |id: &str| {
        Node::parse_xml(&format!(r#"<osm><node id="{}" lat="1" lon="1"/></osm>"#, id))
            .map(|store| store.keys().copied().collect::<Vec<i64>>())
    };
    assert_eq!(ok("42"), Ok(vec![42]));
    assert_eq!(ok("-5"), Ok(vec![-5]));
    assert_eq!(ok("+7"), Ok(vec![7]));
    assert_eq!(ok("007"), Ok(vec![7]));
    assert_eq!(ok("-0"), Ok(vec![0]));
    assert_eq!(ok("9223372036854775807"), Ok(vec![i64::MAX]));
    assert_eq!(ok("-9223372036854775808"), Ok(vec![i64::MIN]));
    assert_eq!(ok("9223372036854775808"), Err(DecodeError::MalformedPayload));
    assert_eq!(ok("-9223372036854775809"), Err(DecodeError::MalformedPayload));
    assert_eq!(ok(""), Err(DecodeError::MalformedPayload));
    assert_eq!(ok("-"), Err(DecodeError::MalformedPayload));
    assert_eq!(ok("+"), Err(DecodeError::MalformedPayload));
    assert_eq!(ok("1.0"), Err(DecodeError::MalformedPayload));
    assert_eq!(ok(" 1"), Err(DecodeError::MalformedPayload));
    assert_eq!(ok("1 "), Err(DecodeError::MalformedPayload));
    assert_eq!(ok("12a"), Err(DecodeError::MalformedPayload));
    assert_eq!(ok("1_000"), Err(DecodeError::MalformedPayload));
}

#[test]
fn xml_tag_without_key_or_value_is_malformed() {
    let body = r#"<osm><node id="1" lat="1" lon="1"><tag k="name"/></node></osm>"#;
    assert_eq!(Node::parse_xml(body).unwrap_err(), DecodeError::MalformedPayload);
    let body = r#"<osm><node id="1" lat="1" lon="1"><tag v="Plaza"/></node></osm>"#;
    assert_eq!(Node::parse_xml(body).unwrap_err(), DecodeError::MalformedPayload);
}

#[test]
fn xml_later_tag_replaces_earlier() {
    let body = r#"<osm><node id="1" lat="1" lon="1"><tag k="name" v="A"/><tag k="x" v="y"/><tag k="name" v="B"/></node></osm>"#;
    let store = Node::parse_xml(body).unwrap();
    let node = store.get(&1).unwrap();
    assert_eq!(node.tags.len(), 2);
    assert_eq!(node.tags.get("name"), Some(&"B".to_string()));
    assert_eq!(node.tags.get("x"), Some(&"y".to_string()));
}

#[test]
fn xml_later_point_replaces_earlier() {
    let body = r#"<osm><node id="1" lat="1" lon="1"><tag k="a" v="b"/></node><node id="1" lat="2" lon="3"/></osm>"#;
    let store = Node::parse_xml(body).unwrap();
    assert_eq!(store.len(), 1);
    let node = store.get(&1).unwrap();
    assert_eq!(node.lat, "2");
    assert_eq!(node.lon, "3");
    assert_eq!(node.tags.len(), 0);
}

#[test]
fn xml_path_keeps_order_and_duplicates() {
    let body = r#"<osm><way id="10"><nd ref="3"/><nd ref="1"/><tag k="highway" v="path"/><nd ref="2"/><nd ref="3"/></way></osm>"#;
    let store = Way::parse_xml(body).unwrap();
    let way = store.get(&10).unwrap();
    assert_eq!(way.nodes, vec![3, 1, 2, 3]);
    assert_eq!(way.tags.len(), 1);
    assert_eq!(way.tags.get("highway"), Some(&"path".to_string()));
}

#[test]
fn xml_path_with_no_points_is_accepted() {
    let store = Way::parse_xml(r#"<osm><way id="10"/></osm>"#).unwrap();
    let way = store.get(&10).unwrap();
    assert!(way.nodes.is_empty());
    assert_eq!(way.tags.len(), 0);
    let store = Way::parse_xml(r#"<osm><way id="11"><tag k="a" v="b"/></way></osm>"#).unwrap();
    assert!(store.get(&11).unwrap().nodes.is_empty());
}

#[test]
fn xml_path_reference_without_ref_is_malformed() {
    let body = r#"<osm><way id="10"><nd/></way></osm>"#;
    assert_eq!(Way::parse_xml(body).unwrap_err(), DecodeError::MalformedPayload);
    let body = r#"<osm><way id="10"><nd ref="x"/></way></osm>"#;
    assert_eq!(Way::parse_xml(body).unwrap_err(), DecodeError::MalformedPayload);
    let body = r#"<osm><way><nd ref="1"/></way></osm>"#;
    assert_eq!(Way::parse_xml(body).unwrap_err(), DecodeError::MalformedPayload);
}

#[test]
fn xml_relation_members_are_sorted_by_kind() {
    let body = r#"<osm><relation id="7"><member type="node" ref="1" role="outer"/><member type="relation" ref="2" role="inner"/><member type="way" ref="3" role="inner"/><tag k="type" v="multipolygon"/></relation></osm>"#;
    let store = Relation::parse_xml(body).unwrap();
    let relation = store.get(&7).unwrap();
    assert_eq!(relation.nodes.len(), 1);
    assert_eq!(relation.nodes.get(&1), Some(&"outer".to_string()));
    assert_eq!(relation.ways.len(), 1);
    assert_eq!(relation.ways.get(&3), Some(&"inner".to_string()));
    assert!(relation.nodes.get(&2).is_none());
    assert!(relation.ways.get(&2).is_none());
    assert_eq!(relation.tags.get("type"), Some(&"multipolygon".to_string()));
}

#[test]
fn xml_relation_with_neither_members_nor_tags_is_accepted() {
    let store = Relation::parse_xml(r#"<osm><relation id="7"/></osm>"#).unwrap();
    let relation = store.get(&7).unwrap();
    assert!(relation.nodes.is_empty());
    assert!(relation.ways.is_empty());
    assert_eq!(relation.tags.len(), 0);
}

#[test]
fn xml_member_missing_an_attribute_is_malformed() {
    let body = r#"<osm><relation id="7"><member type="node" ref="1"/></relation></osm>"#;
    assert_eq!(Relation::parse_xml(body).unwrap_err(), DecodeError::MalformedPayload);
    let body = r#"<osm><relation id="7"><member type="node" role="x"/></relation></osm>"#;
    assert_eq!(Relation::parse_xml(body).unwrap_err(), DecodeError::MalformedPayload);
    let body = r#"<osm><relation id="7"><member ref="1" role="x"/></relation></osm>"#;
    assert_eq!(Relation::parse_xml(body).unwrap_err(), DecodeError::MalformedPayload);
    let body = r#"<osm><relation><member type="node" ref="1" role="x"/></relation></osm>"#;
    assert_eq!(Relation::parse_xml(body).unwrap_err(), DecodeError::MalformedPayload);
}

#[test]
fn xml_elements_below_the_second_level_are_passed_over() {
    let body = r#"<osm><bounds><node id="99" lat="0" lon="0"/></bounds><node id="1" lat="1" lon="1"><extra><tag k="deep" v="x"/></extra><tag k="a" v="b"/></node></osm>"#;
    let store = Node::parse_xml(body).unwrap();
    assert_eq!(store.len(), 1);
    let node = store.get(&1).unwrap();
    assert_eq!(node.tags.len(), 1);
    assert_eq!(node.tags.get("a"), Some(&"b".to_string()));
    assert!(node.tags.get("deep").is_none());
}

#[test]
fn scan_cuts_a_stream_into_elements() {
    let tokens = vec![
        XmlToken::Other,
        open("osm", &[]),
        open("node", &[("id", "1")]),
        open("tag", &[("k", "a"), ("v", "b")]),
        XmlToken::Close,
        XmlToken::Other,
        XmlToken::Close,
        open("way", &[("id", "2")]),
        XmlToken::Close,
        open("node", &[("id", "3")]),
        XmlToken::Close,
        XmlToken::Close,
        XmlToken::Other,
    ];
    let nodes = scan_elements(&tokens, "node").unwrap();
    assert_eq!(nodes.len(), 2);
    assert_eq!(nodes[0].attributes, &vec![("id".to_string(), "1".to_string())]);
    assert_eq!(nodes[0].children.len(), 1);
    assert_eq!(nodes[0].children[0].name, "tag");
    assert_eq!(nodes[0].children[0].attributes.len(), 2);
    assert_eq!(nodes[1].attributes, &vec![("id".to_string(), "3".to_string())]);
    assert!(nodes[1].children.is_empty());
    let ways = scan_elements(&tokens, "way").unwrap();
    assert_eq!(ways.len(), 1);
    assert!(scan_elements(&tokens, "relation").unwrap().is_empty());
}

#[test]
fn scan_rejects_an_unbalanced_stream() {
    let tokens = vec![open("osm", &[]), open("node", &[("id", "1")]), XmlToken::Close];
    assert!(scan_elements(&tokens, "node").is_err());
    assert!(Node::from_xml(&tokens).is_err());
    let tokens = vec![open("osm", &[]), XmlToken::Close, XmlToken::Close];
    assert!(scan_elements(&tokens, "node").is_err());
    let tokens = vec![XmlToken::Close, open("osm", &[])];
    assert!(scan_elements(&tokens, "node").is_err());
    let tokens: Vec<XmlToken> = vec![];
    assert!(scan_elements(&tokens, "node").unwrap().is_empty());
}

#[test]
fn from_xml_reads_a_stream_built_by_hand() {
    let tokens = vec![
        open("osm", &[]),
        open("way", &[("id", "12"), ("visible", "true")]),
        open("nd", &[("ref", "5")]),
        XmlToken::Close,
        open("nd", &[("ref", "-6")]),
        XmlToken::Close,
        XmlToken::Close,
        XmlToken::Close,
    ];
    let store = Way::from_xml(&tokens).unwrap();
    assert_eq!(store.get(&12).unwrap().nodes, vec![5, -6]);
    assert!(Node::from_xml(&tokens).unwrap().is_empty());
    assert!(Relation::from_xml(&tokens).unwrap().is_empty());
}
