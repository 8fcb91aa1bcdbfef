//! Records of objects below a container carry the container's member type.
use vstd::prelude::*;
use crate::guid::valid_guid;
use crate::json::{JsonMember, JsonValue};
use crate::json_manifest::{json_child_type, json_fields, json_items_records, json_members_records, json_records};
use crate::record::{hit, id_hit, manifest_node_records, rec, FieldsView, IdKind, Query, RecordView};
use crate::xml::XmlElement;
use crate::xml_manifest::{
    container_rule, element_type, xml_children_records, xml_fields, xml_members_records, xml_records,
};

verus! {

proof fn lemma_concat_contains(a: Seq<RecordView>, b: Seq<RecordView>, x: RecordView)
    ensures
        a.contains(x) ==> (a + b).contains(x),
        b.contains(x) ==> (a + b).contains(x),
{
    if a.contains(x) {
        let i = choose|i: int| 0 <= i < a.len() && a[i] == x;
        assert((a + b)[i] == x);
    }
    if b.contains(x) {
        let i = choose|i: int| 0 <= i < b.len() && b[i] == x;
        assert((a + b)[a.len() + i] == x);
    }
}

/// The member tag of a container element's rule (empty for no container).
pub open spec fn rule_member(tag: Seq<char>) -> Seq<char> {
    match container_rule(tag) {
        Some(rule) => rule.0,
        None => Seq::empty(),
    }
}

/// The member type of a container element's rule (empty for no container).
pub open spec fn rule_type(tag: Seq<char>) -> Seq<char> {
    match container_rule(tag) {
        Some(rule) => rule.1,
        None => Seq::empty(),
    }
}

/// The records that a child element contributes to its parent's walk.
pub open spec fn xml_child_part(c: XmlElement, q: Query) -> Seq<RecordView> {
    match container_rule(c.tag@) {
        Some(rule) => xml_members_records(c.children@, rule.0, rule.1, q),
        None => xml_records(c, element_type(c.tag@), q),
    }
}

proof fn lemma_xml_children_contain(cs: Seq<XmlElement>, k: int, x: RecordView, q: Query)
    requires
        0 <= k < cs.len(),
        xml_child_part(cs[k], q).contains(x),
    ensures
        xml_children_records(cs, q).contains(x),
    decreases cs.len(),
{
    let pre = cs.subrange(0, cs.len() - 1);
    if k == cs.len() - 1 {
        lemma_concat_contains(xml_children_records(pre, q), xml_child_part(cs[k], q), x);
    } else {
        assert(pre[k] == cs[k]);
        lemma_xml_children_contain(pre, k, x, q);
        lemma_concat_contains(xml_children_records(pre, q), xml_child_part(cs[cs.len() - 1], q), x);
    }
}

proof fn lemma_xml_members_contain(
    gs: Seq<XmlElement>,
    member: Seq<char>,
    ty: Seq<char>,
    j: int,
    x: RecordView,
    q: Query,
)
    requires
        0 <= j < gs.len(),
        gs[j].tag@ == member,
        xml_records(gs[j], ty, q).contains(x),
    ensures
        xml_members_records(gs, member, ty, q).contains(x),
    decreases gs.len(),
{
    let pre = gs.subrange(0, gs.len() - 1);
    let g = gs[gs.len() - 1];
    let part = if g.tag@ == member {
        xml_records(g, ty, q)
    } else {
        Seq::empty()
    };
    if j == gs.len() - 1 {
        lemma_concat_contains(xml_members_records(pre, member, ty, q), part, x);
    } else {
        assert(pre[j] == gs[j]);
        lemma_xml_members_contain(pre, member, ty, j, x, q);
        lemma_concat_contains(xml_members_records(pre, member, ty, q), part, x);
    }
}

/// A record that a member of a container yields, typed by the container,
/// is among the records of the walk from the container's parent: for the
/// `k`-th child `c` of `e`, a container whose members are tagged `m` and
/// typed `t`, and its `j`-th child `b` tagged `m`.
pub proof fn law_container_member_record_xml(e: XmlElement, ty: Seq<char>, k: int, j: int, x: RecordView, q: Query)
    requires
        0 <= k < e.children@.len(),
        container_rule(e.children@[k].tag@) is Some,
        0 <= j < e.children@[k].children@.len(),
        e.children@[k].children@[j].tag@ == rule_member(e.children@[k].tag@),
        manifest_node_records(
            xml_fields(e.children@[k].children@[j]),
            rule_type(e.children@[k].tag@),
            q.kinds@,
            q,
        ).contains(x),
    ensures
        xml_records(e, ty, q).contains(x),
{
    let c = e.children@[k];
    let rule = container_rule(c.tag@)->0;
    let b = c.children@[j];
    lemma_concat_contains(
        manifest_node_records(xml_fields(b), rule.1, q.kinds@, q),
        xml_children_records(b.children@, q),
        x,
    );
    lemma_xml_members_contain(c.children@, rule.0, rule.1, j, x, q);
    lemma_xml_children_contain(e.children@, k, x, q);
    lemma_concat_contains(
        manifest_node_records(xml_fields(e), ty, q.kinds@, q),
        xml_children_records(e.children@, q),
        x,
    );
}

/// A record that a child element in no container yields, typed by its own
/// tag (a `File` as `Media`), is among the records of the walk from its parent.
pub proof fn law_plain_child_record_xml(e: XmlElement, ty: Seq<char>, k: int, x: RecordView, q: Query)
    requires
        0 <= k < e.children@.len(),
        container_rule(e.children@[k].tag@) is None,
        manifest_node_records(
            xml_fields(e.children@[k]),
            element_type(e.children@[k].tag@),
            q.kinds@,
            q,
        ).contains(x),
    ensures
        xml_records(e, ty, q).contains(x),
{
    let c = e.children@[k];
    lemma_concat_contains(
        manifest_node_records(xml_fields(c), element_type(c.tag@), q.kinds@, q),
        xml_children_records(c.children@, q),
        x,
    );
    lemma_xml_children_contain(e.children@, k, x, q);
    lemma_concat_contains(
        manifest_node_records(xml_fields(e), ty, q.kinds@, q),
        xml_children_records(e.children@, q),
        x,
    );
}

proof fn lemma_json_members_contain(ms: Seq<JsonMember>, k: int, x: RecordView, q: Query)
    requires
        0 <= k < ms.len(),
        json_records(ms[k].value, json_child_type(ms[k].key@), q).contains(x),
    ensures
        json_members_records(ms, q).contains(x),
    decreases ms.len(),
{
    let pre = ms.subrange(0, ms.len() - 1);
    let m = ms[ms.len() - 1];
    if k == ms.len() - 1 {
        lemma_concat_contains(json_members_records(pre, q), json_records(m.value, json_child_type(m.key@), q), x);
    } else {
        assert(pre[k] == ms[k]);
        lemma_json_members_contain(pre, k, x, q);
        lemma_concat_contains(json_members_records(pre, q), json_records(m.value, json_child_type(m.key@), q), x);
    }
}

proof fn lemma_json_items_contain(items: Seq<JsonValue>, ty: Seq<char>, j: int, x: RecordView, q: Query)
    requires
        0 <= j < items.len(),
        json_records(items[j], ty, q).contains(x),
    ensures
        json_items_records(items, ty, q).contains(x),
    decreases items.len(),
{
    let pre = items.subrange(0, items.len() - 1);
    if j == items.len() - 1 {
        lemma_concat_contains(json_items_records(pre, ty, q), json_records(items[j], ty, q), x);
    } else {
        assert(pre[j] == items[j]);
        lemma_json_items_contain(pre, ty, j, x, q);
        lemma_concat_contains(json_items_records(pre, ty, q), json_records(items[items.len() - 1], ty, q), x);
    }
}

/// A record that an object yields inside the array under member `k` of an
/// object, typed by that member's key (`Busses` as `Bus`, `Events` as
/// `Event`, `Media` as `Media`), is among the records of the walk from the
/// enclosing object.
pub proof fn law_container_member_record_json(v: JsonValue, ty: Seq<char>, k: int, j: int, x: RecordView, q: Query)
    requires
        v is Object,
        0 <= k < v->Object_0@.len(),
        v->Object_0@[k].value is Array,
        0 <= j < v->Object_0@[k].value->Array_0@.len(),
        v->Object_0@[k].value->Array_0@[j] is Object,
        manifest_node_records(
            json_fields(v->Object_0@[k].value->Array_0@[j]->Object_0@),
            json_child_type(v->Object_0@[k].key@),
            q.kinds@,
            q,
        ).contains(x),
    ensures
        json_records(v, ty, q).contains(x),
{
    let ms = v->Object_0@;
    let items = ms[k].value->Array_0@;
    let o = items[j];
    let t = json_child_type(ms[k].key@);
    let obj = o->Object_0@;
    lemma_concat_contains(manifest_node_records(json_fields(obj), t, q.kinds@, q), json_members_records(obj, q), x);
    lemma_json_items_contain(items, t, j, x, q);
    lemma_json_members_contain(ms, k, x, q);
    lemma_concat_contains(manifest_node_records(json_fields(ms), ty, q.kinds@, q), json_members_records(ms, q), x);
}

/// Where the GUID kind is requested, a node whose GUID is well formed and
/// contains the needle yields a GUID record of its type.
pub proof fn law_guid_record(f: FieldsView, t: Seq<char>, q: Query)
    requires
        q.kinds@.contains(IdKind::Guid),
        f.guid.len() > 0,
        valid_guid(f.guid),
        hit(f.guid, q),
    ensures
        manifest_node_records(f, t, q.kinds@, q).contains(rec(f.name, t, f.guid, f.id, Seq::empty())),
{
    lemma_kind_record(f, t, q.kinds@, IdKind::Guid, q);
}

/// Where the MediaID kind is requested, a node typed `Media` whose numeric
/// identifier matches a numeric query yields a media record.
pub proof fn law_media_record(f: FieldsView, q: Query)
    requires
        q.kinds@.contains(IdKind::MediaId),
        id_hit(f.id, q),
    ensures
        manifest_node_records(f, "Media"@, q.kinds@, q).contains(
            rec(f.media_name, "Media"@, Seq::empty(), Seq::empty(), f.id),
        ),
{
    lemma_kind_record(f, "Media"@, q.kinds@, IdKind::MediaId, q);
}

proof fn lemma_kind_record(f: FieldsView, t: Seq<char>, ks: Seq<IdKind>, k: IdKind, q: Query)
    requires
        ks.contains(k),
    ensures
        manifest_node_records(f, t, ks, q).contains(crate::record::manifest_kind_records(f, t, k, q).first())
            || crate::record::manifest_kind_records(f, t, k, q).len() == 0,
    decreases ks.len(),
{
    let part = crate::record::manifest_kind_records(f, t, k, q);
    if part.len() > 0 {
        if ks.last() == k {
            lemma_concat_contains(manifest_node_records(f, t, ks.drop_last(), q), part, part.first());
            assert(part[0] == part.first());
        } else {
            let i = choose|i: int| 0 <= i < ks.len() && ks[i] == k;
            assert(ks.drop_last()[i] == k);
            lemma_kind_record(f, t, ks.drop_last(), k, q);
            lemma_concat_contains(
                manifest_node_records(f, t, ks.drop_last(), q),
                crate::record::manifest_kind_records(f, t, ks.last(), q),
                part.first(),
            );
        }
    }
}

/// A `Bus` inside a `Busses` container of an XML manifest, whose GUID is well
/// formed and contains the needle, is found as a `Bus` when the GUID kind is
/// requested.
pub proof fn law_busses_member_is_bus_xml(e: XmlElement, ty: Seq<char>, k: int, j: int, q: Query)
    requires
        0 <= k < e.children@.len(),
        e.children@[k].tag@ == "Busses"@,
        0 <= j < e.children@[k].children@.len(),
        e.children@[k].children@[j].tag@ == "Bus"@,
        q.kinds@.contains(IdKind::Guid),
        xml_fields(e.children@[k].children@[j]).guid.len() > 0,
        valid_guid(xml_fields(e.children@[k].children@[j]).guid),
        hit(xml_fields(e.children@[k].children@[j]).guid, q),
    ensures
        ({
            let f = xml_fields(e.children@[k].children@[j]);
            xml_records(e, ty, q).contains(rec(f.name, "Bus"@, f.guid, f.id, Seq::empty()))
        }),
{
    crate::laws::law_tag_rewrite();
    let f = xml_fields(e.children@[k].children@[j]);
    law_guid_record(f, "Bus"@, q);
    law_container_member_record_xml(e, ty, k, j, rec(f.name, "Bus"@, f.guid, f.id, Seq::empty()), q);
}

/// An `Event` inside an `Events` container of an XML manifest, whose GUID is
/// well formed and contains the needle, is found as an `Event` when the GUID
/// kind is requested.
pub proof fn law_events_member_is_event_xml(e: XmlElement, ty: Seq<char>, k: int, j: int, q: Query)
    requires
        0 <= k < e.children@.len(),
        e.children@[k].tag@ == "Events"@,
        0 <= j < e.children@[k].children@.len(),
        e.children@[k].children@[j].tag@ == "Event"@,
        q.kinds@.contains(IdKind::Guid),
        xml_fields(e.children@[k].children@[j]).guid.len() > 0,
        valid_guid(xml_fields(e.children@[k].children@[j]).guid),
        hit(xml_fields(e.children@[k].children@[j]).guid, q),
    ensures
        ({
            let f = xml_fields(e.children@[k].children@[j]);
            xml_records(e, ty, q).contains(rec(f.name, "Event"@, f.guid, f.id, Seq::empty()))
        }),
{
    crate::laws::law_tag_rewrite();
    let f = xml_fields(e.children@[k].children@[j]);
    law_guid_record(f, "Event"@, q);
    law_container_member_record_xml(e, ty, k, j, rec(f.name, "Event"@, f.guid, f.id, Seq::empty()), q);
}

/// A `File` element of an XML manifest, whether directly below `e` or
/// inside a `Media` container, is typed `Media`: a numeric query matching
/// its `Id` finds its media record when the MediaID kind is requested.
pub proof fn law_file_is_media_xml(e: XmlElement, ty: Seq<char>, k: int, j: int, in_container: bool, q: Query)
    requires
        0 <= k < e.children@.len(),
        q.kinds@.contains(IdKind::MediaId),
        in_container ==> {
            &&& e.children@[k].tag@ == "Media"@
            &&& 0 <= j < e.children@[k].children@.len()
            &&& e.children@[k].children@[j].tag@ == "File"@
            &&& id_hit(xml_fields(e.children@[k].children@[j]).id, q)
        },
        !in_container ==> {
            &&& e.children@[k].tag@ == "File"@
            &&& id_hit(xml_fields(e.children@[k]).id, q)
        },
    ensures
        ({
            let f = if in_container {
                xml_fields(e.children@[k].children@[j])
            } else {
                xml_fields(e.children@[k])
            };
            xml_records(e, ty, q).contains(
                rec(f.media_name, "Media"@, Seq::empty(), Seq::empty(), f.id),
            )
        }),
{
    crate::laws::law_tag_rewrite();
    if in_container {
        let f = xml_fields(e.children@[k].children@[j]);
        law_media_record(f, q);
        law_container_member_record_xml(
            e,
            ty,
            k,
            j,
            rec(f.media_name, "Media"@, Seq::empty(), Seq::empty(), f.id),
            q,
        );
    } else {
        let f = xml_fields(e.children@[k]);
        law_media_record(f, q);
        law_plain_child_record_xml(
            e,
            ty,
            k,
            rec(f.media_name, "Media"@, Seq::empty(), Seq::empty(), f.id),
            q,
        );
    }
}

/// An object in the array under a `Busses`, `Events` or `Media` member of a
/// JSON manifest object, whose GUID is well formed and contains the needle,
/// is found typed `Bus`, `Event` or `Media` when the GUID kind is requested.
pub proof fn law_container_member_typed_json(v: JsonValue, ty: Seq<char>, k: int, j: int, q: Query)
    requires
        v is Object,
        0 <= k < v->Object_0@.len(),
        v->Object_0@[k].key@ == "Busses"@ || v->Object_0@[k].key@ == "Events"@
            || v->Object_0@[k].key@ == "Media"@,
        v->Object_0@[k].value is Array,
        0 <= j < v->Object_0@[k].value->Array_0@.len(),
        v->Object_0@[k].value->Array_0@[j] is Object,
        q.kinds@.contains(IdKind::Guid),
        ({
            let f = json_fields(v->Object_0@[k].value->Array_0@[j]->Object_0@);
            f.guid.len() > 0 && valid_guid(f.guid) && hit(f.guid, q)
        }),
    ensures
        ({
            let key = v->Object_0@[k].key@;
            let t = if key == "Busses"@ {
                "Bus"@
            } else if key == "Events"@ {
                "Event"@
            } else {
                "Media"@
            };
            let f = json_fields(v->Object_0@[k].value->Array_0@[j]->Object_0@);
            json_records(v, ty, q).contains(rec(f.name, t, f.guid, f.id, Seq::empty()))
        }),
{
    crate::laws::law_tag_rewrite();
    let key = v->Object_0@[k].key@;
    let t = json_child_type(key);
    let f = json_fields(v->Object_0@[k].value->Array_0@[j]->Object_0@);
    law_guid_record(f, t, q);
    law_container_member_record_json(v, ty, k, j, rec(f.name, t, f.guid, f.id, Seq::empty()), q);
}

} // verus!
