//! Properties of the search stated over its specifications and proved.
use vstd::prelude::*;
use crate::guid::{guid_shape, strip_braces, valid_guid};
use crate::json_manifest::json_child_type;
use crate::json::{JsonMember, JsonValue};
use crate::json_manifest::{
    json_items_records, json_manifest_records, json_members_records, json_records,
};
use crate::record::{manifest_node_records, FieldsView, IdKind, Query, RecordView};
use crate::work_unit::{
    corpus_records, wu_children_records, wu_document_records, wu_kinds_records, wu_tree_records,
};
use crate::xml::XmlElement;
use crate::xml_manifest::{
    container_rule, element_type, xml_children_records, xml_manifest_records,
    xml_members_records, xml_records,
};

verus! {

/// A GUID in the hyphen-grouped hex pattern is accepted both bare and inside
/// one pair of braces; a braced string is accepted exactly when what lies
/// between the braces has the pattern.
pub proof fn law_guid_forms(g: Seq<char>)
    ensures
        guid_shape(g) ==> valid_guid(g),
        valid_guid(seq!['{'] + g + seq!['}']) == guid_shape(g),
        strip_braces(g).len() != 36 ==> !valid_guid(g),
{
    if guid_shape(g) {
        assert(g[0] != '{' && g[35] != '}');
        assert(strip_braces(g) =~= g);
    }
    let s = seq!['{'] + g + seq!['}'];
    assert(s[0] == '{');
    assert(s.drop_first().last() == '}');
    assert(strip_braces(s) =~= g);
}

/// Retyping by position: members of a `Busses` container are typed `Bus`
/// and members of an `Events` container `Event`, in either encoding; a bank
/// `File` element is typed `Media`, and so are the files that a `Media`
/// container holds.
pub proof fn law_tag_rewrite()
    ensures
        container_rule("Busses"@) == Some(("Bus"@, "Bus"@)),
        json_child_type("Busses"@) == "Bus"@,
        container_rule("Events"@) == Some(("Event"@, "Event"@)),
        json_child_type("Events"@) == "Event"@,
        element_type("File"@) == "Media"@,
        container_rule("Media"@) == Some(("File"@, "Media"@)),
        json_child_type("Media"@) == "Media"@,
        container_rule("File"@) is None,
{
    reveal_strlit("AudioDevices");
    reveal_strlit("Custom");
    reveal_strlit("GameParameters");
    reveal_strlit("StateGroups");
    reveal_strlit("States");
    reveal_strlit("Busses");
    reveal_strlit("AcousticTextures");
    reveal_strlit("Events");
    reveal_strlit("Media");
    reveal_strlit("File");
    reveal_strlit("SwitchGroups");
    reveal_strlit("Switches");
    assert("Busses"@[0] != "Custom"@[0]);
    assert("Busses"@[0] != "States"@[0]);
    assert("Busses"@[0] != "Events"@[0]);
    assert("Events"@[0] != "Custom"@[0]);
    assert("Events"@[0] != "States"@[0]);
    assert("File"@.len() != "Media"@.len());
    assert("File"@.len() != "Custom"@.len());
    assert("File"@.len() != "States"@.len());
    assert("File"@.len() != "Busses"@.len());
    assert("File"@.len() != "Events"@.len());
    assert("File"@.len() != "AudioDevices"@.len());
    assert("File"@.len() != "GameParameters"@.len());
    assert("File"@.len() != "StateGroups"@.len());
    assert("File"@.len() != "SwitchGroups"@.len());
    assert("File"@.len() != "AcousticTextures"@.len());
    reveal_strlit("SwitchContainers");
    assert("File"@.len() != "SwitchContainers"@.len());
}

/// A file that could not be read or parsed takes nothing away from the
/// others: the corpus yields exactly what it yields without that file.
pub proof fn law_unreadable_file_isolated(docs: Seq<Option<XmlElement>>, i: int, q: Query)
    requires
        0 <= i < docs.len(),
        docs[i] is None,
    ensures
        corpus_records(docs, q) == corpus_records(docs.remove(i), q),
    decreases docs.len(),
{
    if i == docs.len() - 1 {
        assert(docs.remove(i) =~= docs.drop_last());
        assert(corpus_records(docs, q) =~= corpus_records(docs.drop_last(), q));
    } else {
        law_unreadable_file_isolated(docs.drop_last(), i, q);
        assert(docs.remove(i).drop_last() =~= docs.drop_last().remove(i));
        assert(docs.remove(i).last() == docs.last());
    }
}


/// None of `ks` is the GUID kind.
pub open spec fn no_guid_kind(ks: Seq<IdKind>) -> bool {
    forall|i: int| 0 <= i < ks.len() ==> ks[i] != IdKind::Guid
}

/// Every one of `ks` is the GUID kind.
pub open spec fn only_guid_kind(ks: Seq<IdKind>) -> bool {
    forall|i: int| 0 <= i < ks.len() ==> ks[i] == IdKind::Guid
}

/// Two queries that agree on everything but the numeric flag.
pub open spec fn same_but_gate(q1: Query, q2: Query) -> bool {
    q1.needle@ == q2.needle@ && q1.kinds@ == q2.kinds@
}

/// The GUID entries of `ks`, in order.
pub open spec fn guid_kinds(ks: Seq<IdKind>) -> Seq<IdKind>
    decreases ks.len(),
{
    if ks.len() == 0 {
        Seq::empty()
    } else if ks.last() == IdKind::Guid {
        guid_kinds(ks.drop_last()).push(IdKind::Guid)
    } else {
        guid_kinds(ks.drop_last())
    }
}

/// `q1` is not all digits, and `q2` has its needle and only its GUID kinds.
pub open spec fn gated_to_guid(q1: Query, q2: Query) -> bool {
    !q1.numeric && q1.needle@ == q2.needle@ && q2.kinds@ == guid_kinds(q1.kinds@)
}

proof fn lemma_node_mixed(f: FieldsView, t: Seq<char>, ks: Seq<IdKind>, q1: Query, q2: Query)
    requires
        !q1.numeric,
        q1.needle@ == q2.needle@,
    ensures
        manifest_node_records(f, t, ks, q1) == manifest_node_records(f, t, guid_kinds(ks), q2),
    decreases ks.len(),
{
    if ks.len() > 0 {
        lemma_node_mixed(f, t, ks.drop_last(), q1, q2);
        let g = guid_kinds(ks);
        if ks.last() == IdKind::Guid {
            assert(g.drop_last() =~= guid_kinds(ks.drop_last()));
        } else {
            assert(manifest_node_records(f, t, ks, q1) =~= manifest_node_records(
                f,
                t,
                ks.drop_last(),
                q1,
            ));
        }
    }
}

proof fn lemma_node_gated(f: FieldsView, t: Seq<char>, ks: Seq<IdKind>, q: Query)
    requires
        !q.numeric,
        no_guid_kind(ks),
    ensures
        manifest_node_records(f, t, ks, q) == Seq::<RecordView>::empty(),
    decreases ks.len(),
{
    if ks.len() > 0 {
        lemma_node_gated(f, t, ks.drop_last(), q);
    }
}

proof fn lemma_node_ungated(f: FieldsView, t: Seq<char>, ks: Seq<IdKind>, q1: Query, q2: Query)
    requires
        q1.needle@ == q2.needle@,
        only_guid_kind(ks),
    ensures
        manifest_node_records(f, t, ks, q1) == manifest_node_records(f, t, ks, q2),
    decreases ks.len(),
{
    if ks.len() > 0 {
        lemma_node_ungated(f, t, ks.drop_last(), q1, q2);
    }
}

/// Node records that are empty everywhere.
pub open spec fn node_silent(q: Query) -> bool {
    forall|f: FieldsView, t: Seq<char>|
        #[trigger] manifest_node_records(f, t, q.kinds@, q) == Seq::<RecordView>::empty()
}

/// Two queries whose node records agree everywhere.
pub open spec fn node_alike(q1: Query, q2: Query) -> bool {
    forall|f: FieldsView, t: Seq<char>|
        #[trigger] manifest_node_records(f, t, q1.kinds@, q1) == manifest_node_records(
            f,
            t,
            q2.kinds@,
            q2,
        )
}

proof fn lemma_gate_nodes(q1: Query, q2: Query)
    ensures
        (!q1.numeric && no_guid_kind(q1.kinds@)) ==> node_silent(q1),
        (same_but_gate(q1, q2) && only_guid_kind(q1.kinds@)) ==> node_alike(q1, q2),
        gated_to_guid(q1, q2) ==> node_alike(q1, q2),
{
    if gated_to_guid(q1, q2) {
        assert forall|f: FieldsView, t: Seq<char>|
            #[trigger] manifest_node_records(f, t, q1.kinds@, q1) == manifest_node_records(
                f,
                t,
                q2.kinds@,
                q2,
            ) by {
            lemma_node_mixed(f, t, q1.kinds@, q1, q2);
        }
    }
    if !q1.numeric && no_guid_kind(q1.kinds@) {
        assert forall|f: FieldsView, t: Seq<char>|
            #[trigger] manifest_node_records(f, t, q1.kinds@, q1) == Seq::<RecordView>::empty() by {
            lemma_node_gated(f, t, q1.kinds@, q1);
        }
    }
    if same_but_gate(q1, q2) && only_guid_kind(q1.kinds@) {
        assert forall|f: FieldsView, t: Seq<char>|
            #[trigger] manifest_node_records(f, t, q1.kinds@, q1) == manifest_node_records(
                f,
                t,
                q2.kinds@,
                q2,
            ) by {
            lemma_node_ungated(f, t, q1.kinds@, q1, q2);
        }
    }
}

proof fn lemma_xml_tree(e: XmlElement, ty: Seq<char>, q1: Query, q2: Query)
    ensures
        node_silent(q1) ==> xml_records(e, ty, q1) == Seq::<RecordView>::empty(),
        node_alike(q1, q2) ==> xml_records(e, ty, q1) == xml_records(e, ty, q2),
    decreases e,
{
    lemma_xml_children(e.children@, q1, q2);
    if node_silent(q1) {
        assert(manifest_node_records(crate::xml_manifest::xml_fields(e), ty, q1.kinds@, q1)
            == Seq::<RecordView>::empty());
        assert(xml_records(e, ty, q1) =~= Seq::<RecordView>::empty());
    }
    if node_alike(q1, q2) {
        assert(manifest_node_records(crate::xml_manifest::xml_fields(e), ty, q1.kinds@, q1)
            == manifest_node_records(crate::xml_manifest::xml_fields(e), ty, q2.kinds@, q2));
    }
}

proof fn lemma_xml_children(cs: Seq<XmlElement>, q1: Query, q2: Query)
    ensures
        node_silent(q1) ==> xml_children_records(cs, q1) == Seq::<RecordView>::empty(),
        node_alike(q1, q2) ==> xml_children_records(cs, q1) == xml_children_records(cs, q2),
    decreases cs,
{
    if cs.len() > 0 {
        let c = cs[cs.len() - 1];
        lemma_xml_children(cs.subrange(0, cs.len() - 1), q1, q2);
        match container_rule(c.tag@) {
            Some(rule) => lemma_xml_members(c.children@, rule.0, rule.1, q1, q2),
            None => lemma_xml_tree(c, element_type(c.tag@), q1, q2),
        }
        if node_silent(q1) {
            assert(xml_children_records(cs, q1) =~= Seq::<RecordView>::empty());
        }
    }
}

proof fn lemma_xml_members(gs: Seq<XmlElement>, member: Seq<char>, ty: Seq<char>, q1: Query, q2: Query)
    ensures
        node_silent(q1) ==> xml_members_records(gs, member, ty, q1) == Seq::<RecordView>::empty(),
        node_alike(q1, q2) ==> xml_members_records(gs, member, ty, q1) == xml_members_records(
            gs,
            member,
            ty,
            q2,
        ),
    decreases gs,
{
    if gs.len() > 0 {
        lemma_xml_members(gs.subrange(0, gs.len() - 1), member, ty, q1, q2);
        lemma_xml_tree(gs[gs.len() - 1], ty, q1, q2);
        if node_silent(q1) {
            assert(xml_members_records(gs, member, ty, q1) =~= Seq::<RecordView>::empty());
        }
    }
}

proof fn lemma_json_value(v: JsonValue, ty: Seq<char>, q1: Query, q2: Query)
    ensures
        node_silent(q1) ==> json_records(v, ty, q1) == Seq::<RecordView>::empty(),
        node_alike(q1, q2) ==> json_records(v, ty, q1) == json_records(v, ty, q2),
    decreases v,
{
    match v {
        JsonValue::Object(ms) => {
            lemma_json_members(ms@, q1, q2);
            let f = crate::json_manifest::json_fields(ms@);
            if node_silent(q1) {
                assert(manifest_node_records(f, ty, q1.kinds@, q1) == Seq::<RecordView>::empty());
                assert(json_records(v, ty, q1) =~= Seq::<RecordView>::empty());
            }
            if node_alike(q1, q2) {
                assert(manifest_node_records(f, ty, q1.kinds@, q1) == manifest_node_records(
                    f,
                    ty,
                    q2.kinds@,
                    q2,
                ));
            }
        },
        JsonValue::Array(items) => lemma_json_items(items@, ty, q1, q2),
        _ => {},
    }
}

proof fn lemma_json_members(ms: Seq<JsonMember>, q1: Query, q2: Query)
    ensures
        node_silent(q1) ==> json_members_records(ms, q1) == Seq::<RecordView>::empty(),
        node_alike(q1, q2) ==> json_members_records(ms, q1) == json_members_records(ms, q2),
    decreases ms,
{
    if ms.len() > 0 {
        let m = ms[ms.len() - 1];
        lemma_json_members(ms.subrange(0, ms.len() - 1), q1, q2);
        lemma_json_value(m.value, json_child_type(m.key@), q1, q2);
        if node_silent(q1) {
            assert(json_members_records(ms, q1) =~= Seq::<RecordView>::empty());
        }
    }
}

proof fn lemma_json_items(items: Seq<JsonValue>, ty: Seq<char>, q1: Query, q2: Query)
    ensures
        node_silent(q1) ==> json_items_records(items, ty, q1) == Seq::<RecordView>::empty(),
        node_alike(q1, q2) ==> json_items_records(items, ty, q1) == json_items_records(
            items,
            ty,
            q2,
        ),
    decreases items,
{
    if items.len() > 0 {
        lemma_json_items(items.subrange(0, items.len() - 1), ty, q1, q2);
        lemma_json_value(items[items.len() - 1], ty, q1, q2);
        if node_silent(q1) {
            assert(json_items_records(items, ty, q1) =~= Seq::<RecordView>::empty());
        }
    }
}

/// Numeric gate on the walk from any element of an XML manifest: a query
/// that is not all digits finds nothing below it through the ShortID and
/// MediaID kinds, and with any list of kinds exactly what the GUID entries
/// of that list find; the GUID kind finds the same whatever the query's shape.
pub proof fn law_numeric_gate_xml_walk(e: XmlElement, ty: Seq<char>, q1: Query, q2: Query)
    ensures
        (!q1.numeric && no_guid_kind(q1.kinds@)) ==> xml_records(e, ty, q1)
            == Seq::<RecordView>::empty(),
        (same_but_gate(q1, q2) && only_guid_kind(q1.kinds@)) ==> xml_records(e, ty, q1)
            == xml_records(e, ty, q2),
        gated_to_guid(q1, q2) ==> xml_records(e, ty, q1) == xml_records(e, ty, q2),
{
    lemma_gate_nodes(q1, q2);
    lemma_xml_tree(e, ty, q1, q2);
}

/// Numeric gate on the walk from any JSON value of a manifest: a query that
/// is not all digits finds nothing below it through the ShortID and MediaID
/// kinds, and with any list of kinds exactly what the GUID entries of that
/// list find; the GUID kind finds the same whatever the query's shape.
pub proof fn law_numeric_gate_json_walk(v: JsonValue, ty: Seq<char>, q1: Query, q2: Query)
    ensures
        (!q1.numeric && no_guid_kind(q1.kinds@)) ==> json_records(v, ty, q1)
            == Seq::<RecordView>::empty(),
        (same_but_gate(q1, q2) && only_guid_kind(q1.kinds@)) ==> json_records(v, ty, q1)
            == json_records(v, ty, q2),
        gated_to_guid(q1, q2) ==> json_records(v, ty, q1) == json_records(v, ty, q2),
{
    lemma_gate_nodes(q1, q2);
    lemma_json_value(v, ty, q1, q2);
}

/// Numeric gate on an XML manifest: a query that is not all digits finds
/// nothing through the ShortID and MediaID kinds, and finds with any list of
/// kinds exactly what it finds with the GUID entries of that list; the GUID
/// kind finds the same whatever the query's shape.
pub proof fn law_numeric_gate_xml_manifest(root: XmlElement, q1: Query, q2: Query)
    ensures
        (!q1.numeric && no_guid_kind(q1.kinds@)) ==> xml_manifest_records(root, q1)
            == Seq::<RecordView>::empty(),
        (same_but_gate(q1, q2) && only_guid_kind(q1.kinds@)) ==> xml_manifest_records(root, q1)
            == xml_manifest_records(root, q2),
        gated_to_guid(q1, q2) ==> xml_manifest_records(root, q1) == xml_manifest_records(root, q2),
{
    lemma_gate_nodes(q1, q2);
    match crate::xml::first_tagged_from(root.children@, "SoundBanks"@, "SoundBanks"@, 0) {
        Some(i) => lemma_xml_members(
            root.children@[i].children@,
            "SoundBank"@,
            "SoundBank"@,
            q1,
            q2,
        ),
        None => {},
    }
}

/// Numeric gate on a JSON manifest: a query that is not all digits finds
/// nothing through the ShortID and MediaID kinds, and finds with any list of
/// kinds exactly what it finds with the GUID entries of that list; the GUID
/// kind finds the same whatever the query's shape.
pub proof fn law_numeric_gate_json_manifest(root: JsonValue, q1: Query, q2: Query)
    ensures
        (!q1.numeric && no_guid_kind(q1.kinds@)) ==> json_manifest_records(root, q1)
            == Seq::<RecordView>::empty(),
        (same_but_gate(q1, q2) && only_guid_kind(q1.kinds@)) ==> json_manifest_records(root, q1)
            == json_manifest_records(root, q2),
        gated_to_guid(q1, q2) ==> json_manifest_records(root, q1) == json_manifest_records(root, q2),
{
    lemma_gate_nodes(q1, q2);
    if let JsonValue::Object(ms) = root {
        if let Some(i) = crate::json::member(ms@, "SoundBanksInfo"@) {
            if let JsonValue::Object(ms2) = ms@[i].value {
                if let Some(j) = crate::json::member(ms2@, "SoundBanks"@) {
                    if let JsonValue::Array(items) = ms2@[j].value {
                        lemma_json_items(items@, "SoundBank"@, q1, q2);
                    }
                }
            }
        }
    }
}

proof fn lemma_wu_tree(
    e: XmlElement,
    p: Option<XmlElement>,
    gp: Option<XmlElement>,
    k: IdKind,
    q1: Query,
    q2: Query,
)
    ensures
        (k != IdKind::Guid && !q1.numeric) ==> wu_tree_records(e, p, gp, k, q1)
            == Seq::<RecordView>::empty(),
        (k == IdKind::Guid && q1.needle@ == q2.needle@) ==> wu_tree_records(e, p, gp, k, q1)
            == wu_tree_records(e, p, gp, k, q2),
    decreases e,
{
    lemma_wu_children(e.children@, e, p, k, q1, q2);
    if k != IdKind::Guid && !q1.numeric {
        assert(wu_tree_records(e, p, gp, k, q1) =~= Seq::<RecordView>::empty());
    }
}

proof fn lemma_wu_children(
    cs: Seq<XmlElement>,
    parent: XmlElement,
    pp: Option<XmlElement>,
    k: IdKind,
    q1: Query,
    q2: Query,
)
    ensures
        (k != IdKind::Guid && !q1.numeric) ==> wu_children_records(cs, parent, pp, k, q1)
            == Seq::<RecordView>::empty(),
        (k == IdKind::Guid && q1.needle@ == q2.needle@) ==> wu_children_records(
            cs,
            parent,
            pp,
            k,
            q1,
        ) == wu_children_records(cs, parent, pp, k, q2),
    decreases cs,
{
    if cs.len() > 0 {
        lemma_wu_children(cs.subrange(0, cs.len() - 1), parent, pp, k, q1, q2);
        lemma_wu_tree(cs[cs.len() - 1], Some(parent), pp, k, q1, q2);
        if k != IdKind::Guid && !q1.numeric {
            assert(wu_children_records(cs, parent, pp, k, q1) =~= Seq::<RecordView>::empty());
        }
    }
}

proof fn lemma_wu_kinds(root: XmlElement, ks: Seq<IdKind>, q1: Query, q2: Query)
    ensures
        (no_guid_kind(ks) && !q1.numeric) ==> wu_kinds_records(root, ks, q1)
            == Seq::<RecordView>::empty(),
        (only_guid_kind(ks) && q1.needle@ == q2.needle@) ==> wu_kinds_records(root, ks, q1)
            == wu_kinds_records(root, ks, q2),
        (!q1.numeric && q1.needle@ == q2.needle@) ==> wu_kinds_records(root, ks, q1)
            == wu_kinds_records(root, guid_kinds(ks), q2),
    decreases ks.len(),
{
    if ks.len() > 0 {
        lemma_wu_kinds(root, ks.drop_last(), q1, q2);
        lemma_wu_tree(root, None, None, ks.last(), q1, q2);
        if !q1.numeric && q1.needle@ == q2.needle@ {
            let g = guid_kinds(ks);
            if ks.last() == IdKind::Guid {
                assert(g.drop_last() =~= guid_kinds(ks.drop_last()));
                assert(g.last() == IdKind::Guid);
            } else {
                assert(wu_kinds_records(root, ks, q1) =~= wu_kinds_records(
                    root,
                    ks.drop_last(),
                    q1,
                ));
            }
        }
        if no_guid_kind(ks) && !q1.numeric {
            assert(no_guid_kind(ks.drop_last()));
            assert(wu_kinds_records(root, ks, q1) =~= Seq::<RecordView>::empty());
        }
        if only_guid_kind(ks) {
            assert(only_guid_kind(ks.drop_last()));
        }
    }
}

/// Numeric gate on a work-unit corpus: a query that is not all digits finds
/// nothing through the ShortID and MediaID kinds, and finds with any list of
/// kinds exactly what it finds with the GUID entries of that list; the GUID
/// kind finds the same whatever the query's shape.
pub proof fn law_numeric_gate_work_units(docs: Seq<Option<XmlElement>>, q1: Query, q2: Query)
    ensures
        (!q1.numeric && no_guid_kind(q1.kinds@)) ==> corpus_records(docs, q1)
            == Seq::<RecordView>::empty(),
        (same_but_gate(q1, q2) && only_guid_kind(q1.kinds@)) ==> corpus_records(docs, q1)
            == corpus_records(docs, q2),
        gated_to_guid(q1, q2) ==> corpus_records(docs, q1) == corpus_records(docs, q2),
    decreases docs.len(),
{
    if docs.len() > 0 {
        law_numeric_gate_work_units(docs.drop_last(), q1, q2);
        match docs.last() {
            Some(d) => lemma_wu_kinds(d, q1.kinds@, q1, q2),
            None => {},
        }
        if !q1.numeric && no_guid_kind(q1.kinds@) {
            assert(corpus_records(docs, q1) =~= Seq::<RecordView>::empty());
        }
    }
}

} // verus!
