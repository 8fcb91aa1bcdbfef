use wwise_id_search::xml_doc::{element_tree, XmlNode};
use wwise_id_search::{parse_xml, search_corpus, search_manifest, Manifest, Query, XmlError};

fn query(id: &str, kinds: &[&str]) -> Query {
    let kinds: Vec<String> = kinds.iter().map(|k| k.to_string()).collect();
    Query::new(id, &kinds)
}

const EXPLOSION_WWU: &str = r#"<?xml version="1.0" encoding="utf-8"?>
<WwiseDocument Type="WorkUnit">
  <AudioObjects>
    <Sound Name="Explosion" ID="11112222-3333-4444-5555-666677778888" ShortID="123456"/>
  </AudioObjects>
</WwiseDocument>"#;

#[test]
fn parse_builds_element_tree() {
    let e = parse_xml(EXPLOSION_WWU).unwrap();
    assert_eq!(e.tag, "WwiseDocument");
    assert_eq!(e.attributes.len(), 1);
    assert_eq!(e.attributes[0].name, "Type");
    assert_eq!(e.attributes[0].value, "WorkUnit");
    assert_eq!(e.children.len(), 1);
    let objects = &e.children[0];
    assert_eq!(objects.tag, "AudioObjects");
    assert_eq!(objects.children.len(), 1);
    let sound = &objects.children[0];
    assert_eq!(sound.tag, "Sound");
    assert_eq!(sound.attributes.len(), 3);
    assert!(sound.children.is_empty());
}

#[test]
fn parse_keeps_leading_text_and_drops_namespaced_attributes() {
    let e = parse_xml(r#"<a xmlns:x="urn:x" x:Name="no" Name="yes"><ShortName>Label</ShortName><b/>tail</a>"#).unwrap();
    assert_eq!(e.attributes.len(), 1);
    assert_eq!(e.attributes[0].value, "yes");
    assert_eq!(e.children.len(), 2);
    assert_eq!(e.children[0].text.as_deref(), Some("Label"));
    assert_eq!(e.children[1].text, None);
    assert_eq!(e.text, None);
}

#[test]
fn parse_rejects_malformed_text() {
    assert!(matches!(parse_xml("<a><b></a>"), Err(XmlError::Syntax(_))));
    assert!(matches!(parse_xml(""), Err(XmlError::Syntax(_))));
}

#[test]
fn node_list_without_element_has_no_root() {
    let only_root = vec![XmlNode { element: false, tag: String::new(), attributes: vec![], text: None, parent: None }];
    assert!(element_tree(&only_root).is_none());
    assert!(element_tree(&vec![]).is_none());
}

#[test]
fn end_to_end_from_work_unit_text() {
    let docs = vec![parse_xml(EXPLOSION_WWU).ok()];
    let r = search_corpus(&docs, &query("1111", &["GUID"])).unwrap();
    assert_eq!(r.len(), 1);
    assert!(r[0].name.contains("Explosion"));
    assert_eq!(r[0].guid, "11112222-3333-4444-5555-666677778888");
    let r = search_corpus(&docs, &query("999", &["ShortID"])).unwrap();
    assert!(r.is_empty());
}

#[test]
fn unparsable_work_unit_is_skipped() {
    let other = r#"<WwiseDocument><Busses><Bus Name="Master" ID="11119999-3333-4444-5555-666677778888"/></Busses></WwiseDocument>"#;
    let docs: Vec<_> = [EXPLOSION_WWU, "<WwiseDocument><broken></WwiseDocument>", other]
        .iter()
        .map(|t| parse_xml(t).ok())
        .collect();
    assert!(docs[1].is_none());
    let r = search_corpus(&docs, &query("1111", &["GUID"])).unwrap();
    assert_eq!(r.len(), 2);
    assert_eq!(r[0].name, "Explosion");
    assert_eq!(r[1].name, "Master");
}

#[test]
fn xml_manifest_from_text() {
    let text = r#"<?xml version="1.0"?>
<SoundBanksInfo>
  <SoundBanks>
    <SoundBank Id="1355168291" GUID="{AAAA1111-0000-0000-0000-000000000001}">
      <ShortName>Init</ShortName>
      <Busses>
        <Bus Id="3803692087" Name="Master Audio Bus" GUID="{BBBB1111-0000-0000-0000-000000000002}"/>
      </Busses>
      <Media>
        <File Id="424242" Language="SFX"><ShortName>boom.wem</ShortName></File>
      </Media>
    </SoundBank>
  </SoundBanks>
</SoundBanksInfo>"#;
    let m = Manifest::Xml(parse_xml(text).unwrap());
    let r = search_manifest(&m, &query("aaaa", &["GUID"]));
    assert_eq!(r.len(), 1);
    assert_eq!(r[0].name, "Init");
    assert_eq!(r[0].object_type, "SoundBank");
    let r = search_manifest(&m, &query("bbbb", &["GUID"]));
    assert_eq!(r.len(), 1);
    assert_eq!(r[0].object_type, "Bus");
    let r = search_manifest(&m, &query("4242", &["MediaID"]));
    assert_eq!(r.len(), 1);
    assert_eq!(r[0].object_type, "Media");
    assert_eq!(r[0].name, "boom.wem");
    assert_eq!(r[0].media_id, "424242");
}
