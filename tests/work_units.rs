use wwise_id_search::{search_corpus, Attribute, Query, SearchError, SearchResult, XmlElement};

fn el(tag: &str, attrs: &[(&str, &str)], children: Vec<XmlElement>) -> XmlElement {
    XmlElement {
        tag: tag.to_string(),
        attributes: attrs
            .iter()
            .map(|(n, v)| Attribute { name: n.to_string(), value: v.to_string() })
            .collect(),
        text: None,
        children,
    }
}

fn query(id: &str, kinds: &[&str]) -> Query {
    let kinds: Vec<String> = kinds.iter().map(|k| k.to_string()).collect();
    Query::new(id, &kinds)
}

fn explosion_doc() -> XmlElement {
    el(
        "WwiseDocument",
        &[],
        vec![el(
            "AudioObjects",
            &[],
            vec![el(
                "Sound",
                &[
                    ("Name", "Explosion"),
                    ("ID", "11112222-3333-4444-5555-666677778888"),
                    ("ShortID", "123456"),
                ],
                vec![],
            )],
        )],
    )
}

fn search(docs: Vec<Option<XmlElement>>, q: &Query) -> Vec<SearchResult> {
    search_corpus(&docs, q).unwrap()
}

#[test]
fn end_to_end_guid_match() {
    let r = search(vec![Some(explosion_doc())], &query("1111", &["GUID"]));
    assert_eq!(r.len(), 1);
    assert!(r[0].name.contains("Explosion"));
    assert_eq!(r[0].guid, "11112222-3333-4444-5555-666677778888");
    assert_eq!(r[0].object_type, "Sound");
    assert_eq!(r[0].short_id, "123456");
    assert_eq!(r[0].media_id, "");
}

#[test]
fn end_to_end_short_id_miss() {
    let r = search(vec![Some(explosion_doc())], &query("999", &["ShortID"]));
    assert!(r.is_empty());
}

#[test]
fn short_id_match_carries_guid() {
    let r = search(vec![Some(explosion_doc())], &query("3456", &["ShortID"]));
    assert_eq!(r.len(), 1);
    assert_eq!(r[0].name, "Explosion");
    assert_eq!(r[0].short_id, "123456");
    assert_eq!(r[0].guid, "11112222-3333-4444-5555-666677778888");
}

#[test]
fn uppercase_query_matches_lowercase_guid() {
    let doc = el(
        "WwiseDocument",
        &[],
        vec![el("Event", &[("Name", "Play"), ("ID", "abcdef01-2345-6789-abcd-ef0123456789")], vec![])],
    );
    let r = search(vec![Some(doc)], &query("ABCDEF01", &["GUID"]));
    assert_eq!(r.len(), 1);
    assert_eq!(r[0].name, "Play");
    assert_eq!(r[0].object_type, "Event");
}

#[test]
fn uppercase_guid_matches_lowercase_query() {
    let doc = el(
        "WwiseDocument",
        &[],
        vec![el("Event", &[("ID", "ABCDEF01-2345-6789-ABCD-EF0123456789")], vec![])],
    );
    let r = search(vec![Some(doc)], &query("cdef", &["GUID"]));
    assert_eq!(r.len(), 1);
    assert_eq!(r[0].name, "unnamed");
}

#[test]
fn guid_kind_skips_malformed_ids() {
    let doc = el("WwiseDocument", &[], vec![el("Sound", &[("Name", "x"), ("ID", "1111")], vec![])]);
    let r = search(vec![Some(doc)], &query("1111", &["GUID"]));
    assert!(r.is_empty());
}

#[test]
fn non_numeric_query_gates_short_and_media_ids() {
    let doc = el(
        "WwiseDocument",
        &[],
        vec![el(
            "Sound",
            &[("Name", "S"), ("ID", "ab112222-3333-4444-5555-666677778888"), ("ShortID", "ab12")],
            vec![el("List", &[], vec![el("MediaID", &[("ID", "ab99")], vec![])])],
        )],
    );
    let r = search(vec![Some(doc)], &query("ab", &["ShortID", "MediaID"]));
    assert!(r.is_empty());
    let doc2 = el(
        "WwiseDocument",
        &[],
        vec![el(
            "Sound",
            &[("Name", "S"), ("ID", "ab112222-3333-4444-5555-666677778888"), ("ShortID", "ab12")],
            vec![],
        )],
    );
    let g = search(vec![Some(doc2)], &query("ab", &["GUID"]));
    assert_eq!(g.len(), 1);
}

#[test]
fn media_id_reports_grandparent() {
    let doc = el(
        "WwiseDocument",
        &[],
        vec![el(
            "Sound",
            &[("Name", "Boom"), ("ID", "{11112222-3333-4444-5555-666677778888}"), ("ShortID", "77")],
            vec![el("MediaIDList", &[], vec![el("MediaID", &[("ID", "424242")], vec![])])],
        )],
    );
    let r = search(vec![Some(doc)], &query("4242", &["MediaID"]));
    assert_eq!(r.len(), 1);
    assert_eq!(r[0].name, "Boom");
    assert_eq!(r[0].object_type, "Sound");
    assert_eq!(r[0].guid, "{11112222-3333-4444-5555-666677778888}");
    assert_eq!(r[0].short_id, "77");
    assert_eq!(r[0].media_id, "424242");
}

#[test]
fn media_id_without_grandparent_dropped() {
    let doc = el("List", &[], vec![el("MediaID", &[("ID", "5")], vec![])]);
    let r = search(vec![Some(doc)], &query("5", &["MediaID"]));
    assert!(r.is_empty());
}

#[test]
fn grandparent_with_malformed_id_has_empty_guid() {
    let doc = el(
        "Root",
        &[],
        vec![el("Sound", &[("Name", "N"), ("ID", "nope")], vec![el("L", &[], vec![el("MediaID", &[("ID", "31")], vec![])])])],
    );
    let r = search(vec![Some(doc)], &query("31", &["MediaID"]));
    assert_eq!(r.len(), 1);
    assert_eq!(r[0].guid, "");
    assert_eq!(r[0].short_id, "");
}

#[test]
fn unreadable_file_does_not_hide_others() {
    let other = el(
        "WwiseDocument",
        &[],
        vec![el("Bus", &[("Name", "Master"), ("ID", "11119999-3333-4444-5555-666677778888")], vec![])],
    );
    let docs = vec![Some(explosion_doc()), None, Some(other)];
    let r = search(docs, &query("1111", &["GUID"]));
    assert_eq!(r.len(), 2);
    assert_eq!(r[0].name, "Explosion");
    assert_eq!(r[1].name, "Master");
}

#[test]
fn empty_corpus_is_an_error() {
    let docs: Vec<Option<XmlElement>> = vec![];
    assert_eq!(search_corpus(&docs, &query("1", &["GUID"])), Err(SearchError::NoWorkUnits));
}

#[test]
fn corpus_of_unreadable_files_is_empty() {
    let r = search(vec![None, None], &query("1", &["GUID"]));
    assert!(r.is_empty());
}

#[test]
fn kinds_scan_in_request_order_and_repeat() {
    let r = search(vec![Some(explosion_doc())], &query("1", &["ShortID", "GUID", "Unknown", "ShortID"]));
    assert_eq!(r.len(), 3);
    assert_eq!(r[0].short_id, "123456");
    assert_eq!(r[1].guid, "11112222-3333-4444-5555-666677778888");
    assert_eq!(r[2].short_id, "123456");
}

#[test]
fn empty_query_matches_every_short_id() {
    let r = search(vec![Some(explosion_doc())], &query("", &["ShortID"]));
    assert_eq!(r.len(), 1);
}
