use wwise_id_search::{
    choose_manifest, search_manifest, Attribute, JsonMember, JsonValue, Manifest, ManifestFormat,
    Query, SearchError, SearchResult, XmlElement,
};

fn el(tag: &str, attrs: &[(&str, &str)], children: Vec<XmlElement>) -> XmlElement {
    XmlElement {
        tag: tag.to_string(),
        attributes: attrs
            .iter()
            .map(|(n, v)| Attribute { name: n.to_string(), value: v.to_string() })
            .collect(),
        text: None,
        children,
    }
}

fn el_text(tag: &str, text: &str) -> XmlElement {
    XmlElement { tag: tag.to_string(), attributes: vec![], text: Some(text.to_string()), children: vec![] }
}

fn obj(members: Vec<(&str, JsonValue)>) -> JsonValue {
    JsonValue::Object(
        members.into_iter().map(|(k, v)| JsonMember { key: k.to_string(), value: v }).collect(),
    )
}

fn s(v: &str) -> JsonValue {
    JsonValue::Str(v.to_string())
}

fn query(id: &str, kinds: &[&str]) -> Query {
    let kinds: Vec<String> = kinds.iter().map(|k| k.to_string()).collect();
    Query::new(id, &kinds)
}

const BANK_GUID: &str = "aaaa1111-0000-0000-0000-000000000001";
const BUS_GUID: &str = "bbbb1111-0000-0000-0000-000000000002";
const EVENT_GUID: &str = "cccc1111-0000-0000-0000-000000000003";

fn xml_manifest() -> Manifest {
    let bank = el(
        "SoundBank",
        &[("Name", "Init"), ("GUID", BANK_GUID), ("Id", "1355168291")],
        vec![
            el("Busses", &[], vec![el("Bus", &[("Name", "Master Audio Bus"), ("GUID", BUS_GUID), ("Id", "3803692087")], vec![])]),
            el("Events", &[], vec![el("Event", &[("Name", "Play_Explosion"), ("GUID", EVENT_GUID), ("Id", "1111")], vec![])]),
            el("Media", &[], vec![el("File", &[("Name", "boom.wem"), ("GUID", ""), ("Id", "424242")], vec![])]),
        ],
    );
    Manifest::Xml(el("SoundBanksInfo", &[], vec![el("SoundBanks", &[], vec![bank])]))
}

fn json_manifest() -> Manifest {
    let bank = obj(vec![
        ("Name", s("Init")),
        ("GUID", s(BANK_GUID)),
        ("Id", s("1355168291")),
        (
            "Busses",
            JsonValue::Array(vec![obj(vec![
                ("Name", s("Master Audio Bus")),
                ("GUID", s(BUS_GUID)),
                ("Id", s("3803692087")),
            ])]),
        ),
        (
            "Events",
            JsonValue::Array(vec![obj(vec![
                ("Name", s("Play_Explosion")),
                ("GUID", s(EVENT_GUID)),
                ("Id", s("1111")),
            ])]),
        ),
        (
            "Media",
            JsonValue::Array(vec![obj(vec![("Name", s("boom.wem")), ("GUID", s("")), ("Id", s("424242"))])]),
        ),
    ]);
    Manifest::Json(obj(vec![(
        "SoundBanksInfo",
        obj(vec![("SoundBanks", JsonValue::Array(vec![bank]))]),
    )]))
}

fn sorted(mut r: Vec<SearchResult>) -> Vec<SearchResult> {
    r.sort_by(|a, b| {
        (&a.name, &a.object_type, &a.guid, &a.short_id, &a.media_id)
            .cmp(&(&b.name, &b.object_type, &b.guid, &b.short_id, &b.media_id))
    });
    r
}

#[test]
fn xml_busses_members_are_typed_bus() {
    let r = search_manifest(&xml_manifest(), &query("bbbb", &["GUID"]));
    assert_eq!(r.len(), 1);
    assert_eq!(r[0].object_type, "Bus");
    assert_eq!(r[0].name, "Master Audio Bus");
    assert_eq!(r[0].short_id, "3803692087");
}

#[test]
fn xml_events_members_are_typed_event() {
    let r = search_manifest(&xml_manifest(), &query("cccc", &["GUID"]));
    assert_eq!(r.len(), 1);
    assert_eq!(r[0].object_type, "Event");
}

#[test]
fn xml_file_is_typed_media() {
    let r = search_manifest(&xml_manifest(), &query("4242", &["MediaID"]));
    assert_eq!(r.len(), 1);
    assert_eq!(r[0].object_type, "Media");
    assert_eq!(r[0].media_id, "424242");
    assert_eq!(r[0].name, "boom.wem");
    assert_eq!(r[0].guid, "");
    assert_eq!(r[0].short_id, "");
}

#[test]
fn xml_file_outside_container_is_typed_media() {
    let bank = el("SoundBank", &[("Name", "B")], vec![el("File", &[("ShortName", "a.wem"), ("Name", "A"), ("Id", "77")], vec![])]);
    let m = Manifest::Xml(el("SoundBanksInfo", &[], vec![el("SoundBanks", &[], vec![bank])]));
    let r = search_manifest(&m, &query("77", &["MediaID", "ShortID"]));
    assert_eq!(r.len(), 2);
    assert_eq!(r[0].object_type, "Media");
    assert_eq!(r[0].name, "a.wem");
    assert_eq!(r[1].object_type, "Media");
    assert_eq!(r[1].name, "A");
    assert_eq!(r[1].short_id, "77");
}

#[test]
fn json_busses_members_are_typed_bus() {
    let r = search_manifest(&json_manifest(), &query("BBBB", &["GUID"]));
    assert_eq!(r.len(), 1);
    assert_eq!(r[0].object_type, "Bus");
}

#[test]
fn json_events_members_are_typed_event() {
    let r = search_manifest(&json_manifest(), &query("cccc", &["GUID"]));
    assert_eq!(r.len(), 1);
    assert_eq!(r[0].object_type, "Event");
}

#[test]
fn json_media_members_are_typed_media() {
    let r = search_manifest(&json_manifest(), &query("4242", &["MediaID"]));
    assert_eq!(r.len(), 1);
    assert_eq!(r[0].object_type, "Media");
    assert_eq!(r[0].media_id, "424242");
}

#[test]
fn xml_and_json_manifests_agree() {
    for (id, kinds) in [
        ("1111", vec!["GUID", "ShortID", "MediaID"]),
        ("0000", vec!["GUID"]),
        ("42", vec!["MediaID", "ShortID"]),
        ("3", vec!["ShortID"]),
        ("", vec!["ShortID"]),
        ("abc", vec!["ShortID", "MediaID"]),
    ] {
        let q = query(id, &kinds);
        let x = search_manifest(&xml_manifest(), &q);
        let j = search_manifest(&json_manifest(), &q);
        assert_eq!(sorted(x), sorted(j));
    }
}

#[test]
fn manifest_numeric_gate() {
    let r = search_manifest(&xml_manifest(), &query("a1", &["ShortID", "MediaID"]));
    assert!(r.is_empty());
    let r = search_manifest(&json_manifest(), &query("a1", &["ShortID", "MediaID"]));
    assert!(r.is_empty());
    let r = search_manifest(&json_manifest(), &query("a1", &["GUID"]));
    assert_eq!(r.len(), 1);
    assert_eq!(r[0].name, "Init");
    assert_eq!(r[0].object_type, "SoundBank");
}

#[test]
fn short_id_kind_keeps_only_valid_guid() {
    let bank = el("SoundBank", &[("Name", "B"), ("GUID", "not-a-guid"), ("Id", "55")], vec![]);
    let m = Manifest::Xml(el("SoundBanksInfo", &[], vec![el("SoundBanks", &[], vec![bank])]));
    let r = search_manifest(&m, &query("5", &["ShortID", "GUID"]));
    assert_eq!(r.len(), 1);
    assert_eq!(r[0].guid, "");
    assert_eq!(r[0].short_id, "55");
}

#[test]
fn json_numeric_id_is_written_in_decimal() {
    let bank = obj(vec![("Name", s("B")), ("Id", JsonValue::Number(Some(3803692087)))]);
    let m = Manifest::Json(obj(vec![("SoundBanksInfo", obj(vec![("SoundBanks", JsonValue::Array(vec![bank]))]))]));
    let r = search_manifest(&m, &query("0369", &["ShortID"]));
    assert_eq!(r.len(), 1);
    assert_eq!(r[0].short_id, "3803692087");
}

#[test]
fn json_name_falls_back_to_short_name() {
    let bank = obj(vec![("ShortName", s("Short")), ("Id", s("9"))]);
    let other = obj(vec![("Name", JsonValue::Bool(true)), ("ShortName", s("Fallback")), ("Id", s("9"))]);
    let third = obj(vec![("ObjectPath", s("\\Events\\Play")), ("Id", s("9"))]);
    let fourth = obj(vec![("Id", s("9"))]);
    let m = Manifest::Json(obj(vec![("SoundBanksInfo", obj(vec![("SoundBanks", JsonValue::Array(vec![bank, other, third, fourth]))]))]));
    let r = search_manifest(&m, &query("9", &["ShortID"]));
    assert_eq!(r.len(), 4);
    assert_eq!(r[0].name, "Short");
    assert_eq!(r[1].name, "Fallback");
    assert_eq!(r[2].name, "\\Events\\Play");
    assert_eq!(r[3].name, "unnamed");
}

#[test]
fn xml_name_fallbacks() {
    let a = el("SoundBank", &[("ShortName", "SN"), ("Id", "1")], vec![]);
    let b = el("SoundBank", &[("Id", "2")], vec![el_text("ObjectPath", "\\Events\\Default\\Play")]);
    let c = el("SoundBank", &[("Id", "3")], vec![]);
    let m = Manifest::Xml(el("SoundBanksInfo", &[], vec![el("SoundBanks", &[], vec![a, b, c])]));
    let r = search_manifest(&m, &query("", &["ShortID"]));
    assert_eq!(r.len(), 3);
    assert_eq!(r[0].name, "SN");
    assert_eq!(r[1].name, "\\Events\\Default\\Play");
    assert_eq!(r[2].name, "unnamed");
}

#[test]
fn xml_container_skips_foreign_members() {
    let bank = el(
        "SoundBank",
        &[("Name", "B")],
        vec![el("Busses", &[], vec![
            el("Bus", &[("Name", "in"), ("Id", "12")], vec![]),
            el("Other", &[("Name", "out"), ("Id", "12")], vec![]),
        ])],
    );
    let m = Manifest::Xml(el("SoundBanksInfo", &[], vec![el("SoundBanks", &[], vec![bank])]));
    let r = search_manifest(&m, &query("12", &["ShortID"]));
    assert_eq!(r.len(), 1);
    assert_eq!(r[0].name, "in");
}

#[test]
fn xml_without_sound_banks_is_empty() {
    let m = Manifest::Xml(el("SoundBanksInfo", &[], vec![]));
    assert!(search_manifest(&m, &query("1", &["ShortID"])).is_empty());
}

#[test]
fn json_other_numbers_give_no_id() {
    let bank = obj(vec![("Name", s("B")), ("Id", JsonValue::Number(None))]);
    let m = Manifest::Json(obj(vec![("SoundBanksInfo", obj(vec![("SoundBanks", JsonValue::Array(vec![bank]))]))]));
    assert!(search_manifest(&m, &query("", &["ShortID"])).is_empty());
}

#[test]
fn manifest_choice() {
    assert_eq!(choose_manifest(true, true), Ok(ManifestFormat::Json));
    assert_eq!(choose_manifest(true, false), Ok(ManifestFormat::Json));
    assert_eq!(choose_manifest(false, true), Ok(ManifestFormat::Xml));
    assert_eq!(choose_manifest(false, false), Err(SearchError::NoManifest));
}

#[test]
fn media_record_takes_short_name_in_both_encodings() {
    let xbank = el(
        "SoundBank",
        &[("Name", "B")],
        vec![el("Media", &[], vec![el("File", &[("Name", "A"), ("ShortName", "S.wem"), ("Id", "4242")], vec![])])],
    );
    let x = Manifest::Xml(el("SoundBanksInfo", &[], vec![el("SoundBanks", &[], vec![xbank])]));
    let jbank = obj(vec![
        ("Name", s("B")),
        ("Media", JsonValue::Array(vec![obj(vec![("Name", s("A")), ("ShortName", s("S.wem")), ("Id", s("4242"))])])),
    ]);
    let j = Manifest::Json(obj(vec![("SoundBanksInfo", obj(vec![("SoundBanks", JsonValue::Array(vec![jbank]))]))]));
    let q = query("4242", &["MediaID", "ShortID"]);
    let rx = search_manifest(&x, &q);
    let rj = search_manifest(&j, &q);
    assert_eq!(rx.len(), 2);
    assert_eq!(rx[0].name, "S.wem");
    assert_eq!(rx[0].object_type, "Media");
    assert_eq!(rx[1].name, "A");
    assert_eq!(rx, rj);
}

#[test]
fn xml_switch_groups_members_are_typed_switch_group() {
    let bank = el(
        "SoundBank",
        &[("Name", "B")],
        vec![el("SwitchGroups", &[], vec![
            el("SwitchGroup", &[("Name", "Surface"), ("Id", "61")], vec![]),
            el("Other", &[("Name", "skipped"), ("Id", "61")], vec![]),
        ])],
    );
    let m = Manifest::Xml(el("SoundBanksInfo", &[], vec![el("SoundBanks", &[], vec![bank])]));
    let r = search_manifest(&m, &query("61", &["ShortID"]));
    assert_eq!(r.len(), 1);
    assert_eq!(r[0].name, "Surface");
    assert_eq!(r[0].object_type, "SwitchGroup");
}

#[test]
fn mixed_kinds_with_non_numeric_query_match_guid_only() {
    let all = search_manifest(&xml_manifest(), &query("bbbb", &["ShortID", "GUID", "MediaID"]));
    let guid = search_manifest(&xml_manifest(), &query("bbbb", &["GUID"]));
    assert_eq!(all, guid);
    assert_eq!(all.len(), 1);
}
