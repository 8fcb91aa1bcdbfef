//! The depth-first walk over a bank manifest written as XML.
use vstd::prelude::*;
use crate::record::{
    emit_node_records, manifest_node_records, views, FieldsView, NodeFields, Query, RecordView,
    SearchResult,
};
use crate::text::str_eq;
use crate::xml::{attr, attr_or, first_tagged_from, XmlElement};

verus! {

/// The type of an element that sits in no container: a bank `File` is a
/// `Media` object; any other element is typed by its own tag.
pub open spec fn element_type(tag: Seq<char>) -> Seq<char> {
    if tag == "File"@ {
        "Media"@
    } else {
        tag
    }
}

/// For a container element: the tag of the members it holds and the type
/// those members get. Other elements are no containers.
pub open spec fn container_rule(tag: Seq<char>) -> Option<(Seq<char>, Seq<char>)> {
    if tag == "AudioDevices"@ {
        Some(("Plugin"@, "AudioDevice"@))
    } else if tag == "Custom"@ {
        Some(("Plugin"@, "CustomPlugin"@))
    } else if tag == "GameParameters"@ {
        Some(("GameParameter"@, "GameParameter"@))
    } else if tag == "StateGroups"@ {
        Some(("StateGroup"@, "StateGroup"@))
    } else if tag == "States"@ {
        Some(("State"@, "State"@))
    } else if tag == "SwitchGroups"@ {
        Some(("SwitchGroup"@, "SwitchGroup"@))
    } else if tag == "Busses"@ {
        Some(("Bus"@, "Bus"@))
    } else if tag == "AcousticTextures"@ {
        Some(("AcousticTexture"@, "AcousticTexture"@))
    } else if tag == "Events"@ {
        Some(("Event"@, "Event"@))
    } else if tag == "Media"@ {
        Some(("File"@, "Media"@))
    } else if tag == "SwitchContainers"@ {
        Some(("SwitchContainer"@, "SwitchContainer"@))
    } else {
        None
    }
}

/// The label of an element: its `Name`, else its `ShortName` attribute, else
/// the text of its first `ShortName` or `ObjectPath` child, else `unnamed`.
pub open spec fn xml_name(e: XmlElement) -> Seq<char> {
    match attr(e, "Name"@) {
        Some(v) => v,
        None => match attr(e, "ShortName"@) {
            Some(v) => v,
            None => match first_tagged_from(e.children@, "ShortName"@, "ObjectPath"@, 0) {
                Some(i) => match e.children@[i].text {
                    Some(t) => t@,
                    None => "unnamed"@,
                },
                None => "unnamed"@,
            },
        },
    }
}

/// What the walk reads of an element.
pub open spec fn xml_fields(e: XmlElement) -> FieldsView {
    FieldsView {
        name: xml_name(e),
        media_name: attr_or(e, "ShortName"@, xml_name(e)),
        guid: attr_or(e, "GUID"@, Seq::empty()),
        id: attr_or(e, "Id"@, Seq::empty()),
    }
}

/// The records of the walk from element `e` of type `ty`: those of `e`
/// itself, then those below each child in order.
pub open spec fn xml_records(e: XmlElement, ty: Seq<char>, q: Query) -> Seq<RecordView>
    decreases e,
{
    manifest_node_records(xml_fields(e), ty, q.kinds@, q) + xml_children_records(e.children@, q)
}

/// The records below a list of child elements. A container passes over to
/// its members of the expected tag, typed by the container; any other child
/// is walked with its own type.
pub open spec fn xml_children_records(cs: Seq<XmlElement>, q: Query) -> Seq<RecordView>
    decreases cs,
{
    if cs.len() == 0 {
        Seq::empty()
    } else {
        let c = cs[cs.len() - 1];
        xml_children_records(cs.subrange(0, cs.len() - 1), q) + match container_rule(c.tag@) {
            Some(rule) => xml_members_records(c.children@, rule.0, rule.1, q),
            None => xml_records(c, element_type(c.tag@), q),
        }
    }
}

/// The records of the members of a container: each element tagged `member`
/// is walked with type `ty`; the others are passed over.
pub open spec fn xml_members_records(
    gs: Seq<XmlElement>,
    member: Seq<char>,
    ty: Seq<char>,
    q: Query,
) -> Seq<RecordView>
    decreases gs,
{
    if gs.len() == 0 {
        Seq::empty()
    } else {
        let g = gs[gs.len() - 1];
        xml_members_records(gs.subrange(0, gs.len() - 1), member, ty, q) + if g.tag@ == member {
            xml_records(g, ty, q)
        } else {
            Seq::empty()
        }
    }
}

/// The records of an XML manifest whose root element is `root`: the walk from
/// each `SoundBank` in its first `SoundBanks` child, typed `SoundBank`.
pub open spec fn xml_manifest_records(root: XmlElement, q: Query) -> Seq<RecordView> {
    match first_tagged_from(root.children@, "SoundBanks"@, "SoundBanks"@, 0) {
        Some(i) => xml_members_records(root.children@[i].children@, "SoundBank"@, "SoundBank"@, q),
        None => Seq::empty(),
    }
}

/// The type of an element outside any container.
pub fn element_type_of(tag: &str) -> (r: String)
    ensures
        r@ == element_type(tag@),
{
    if str_eq(tag, "File") {
        String::from_str("Media")
    } else {
        String::from_str(tag)
    }
}

/// The member tag and member type of a container element, if `tag` names one.
pub fn container_rule_of(tag: &str) -> (r: Option<(&'static str, &'static str)>)
    ensures
        match r {
            Some((m, t)) => container_rule(tag@) == Some((m@, t@)),
            None => container_rule(tag@) is None,
        },
{
    if str_eq(tag, "AudioDevices") {
        Some(("Plugin", "AudioDevice"))
    } else if str_eq(tag, "Custom") {
        Some(("Plugin", "CustomPlugin"))
    } else if str_eq(tag, "GameParameters") {
        Some(("GameParameter", "GameParameter"))
    } else if str_eq(tag, "StateGroups") {
        Some(("StateGroup", "StateGroup"))
    } else if str_eq(tag, "States") {
        Some(("State", "State"))
    } else if str_eq(tag, "SwitchGroups") {
        Some(("SwitchGroup", "SwitchGroup"))
    } else if str_eq(tag, "Busses") {
        Some(("Bus", "Bus"))
    } else if str_eq(tag, "AcousticTextures") {
        Some(("AcousticTexture", "AcousticTexture"))
    } else if str_eq(tag, "Events") {
        Some(("Event", "Event"))
    } else if str_eq(tag, "Media") {
        Some(("File", "Media"))
    } else if str_eq(tag, "SwitchContainers") {
        Some(("SwitchContainer", "SwitchContainer"))
    } else {
        None
    }
}

/// The label of an element, as `xml_name` gives it.
pub fn xml_name_of(e: &XmlElement) -> (r: String)
    ensures
        r@ == xml_name(*e),
{
    match e.attribute("Name") {
        Some(v) => v.clone(),
        None => match e.attribute("ShortName") {
            Some(v) => v.clone(),
            None => match e.first_child_tagged("ShortName", "ObjectPath") {
                Some(i) => match &e.children[i].text {
                    Some(t) => t.clone(),
                    None => String::from_str("unnamed"),
                },
                None => String::from_str("unnamed"),
            },
        },
    }
}

/// What the walk reads of an element.
pub fn xml_fields_of(e: &XmlElement) -> (r: NodeFields)
    ensures
        r@ == xml_fields(*e),
{
    let name = xml_name_of(e);
    let media_name = match e.attribute("ShortName") {
        Some(v) => v.clone(),
        None => name.clone(),
    };
    let guid = e.attribute_or("GUID", "");
    let id = e.attribute_or("Id", "");
    proof {
        reveal_strlit("");
        assert(""@ =~= Seq::<char>::empty());
    }
    NodeFields { name, media_name, guid, id }
}

/// Appends the records of the walk from `e`, of type `ty`, to `out`.
pub fn walk_xml(e: &XmlElement, ty: &str, q: &Query, out: &mut Vec<SearchResult>)
    ensures
        views(final(out)@) == views(old(out)@) + xml_records(*e, ty@, *q),
    decreases e,
{
    let ghost start = out@;
    let f = xml_fields_of(e);
    emit_node_records(&f, ty, q, out);
    let ghost mid = out@;
    let mut i: usize = 0;
    while i < e.children.len()
        invariant
            i <= e.children@.len(),
            views(mid) == views(start) + manifest_node_records(xml_fields(*e), ty@, q.kinds@, *q),
            views(out@) == views(mid) + xml_children_records(e.children@.subrange(0, i as int), *q),
        decreases e.children.len() - i,
    {
        let c = &e.children[i];
        let ghost before = out@;
        assert(e.children@.subrange(0, i + 1).subrange(0, i as int) =~= e.children@.subrange(
            0,
            i as int,
        ));
        match container_rule_of(c.tag.as_str()) {
            Some((member, t)) => walk_members(c, member, t, q, out),
            None => {
                let t = element_type_of(c.tag.as_str());
                walk_xml(c, t.as_str(), q, out);
            },
        }
        assert(views(out@) =~= views(mid) + xml_children_records(
            e.children@.subrange(0, i + 1),
            *q,
        ));
        i += 1;
    }
    assert(e.children@.subrange(0, i as int) =~= e.children@);
}

/// Appends the records of the members of container `c` that are tagged
/// `member`, each walked with type `ty`.
pub fn walk_members(c: &XmlElement, member: &str, ty: &str, q: &Query, out: &mut Vec<SearchResult>)
    ensures
        views(final(out)@) == views(old(out)@) + xml_members_records(c.children@, member@, ty@, *q),
    decreases c,
{
    let ghost start = out@;
    let mut j: usize = 0;
    while j < c.children.len()
        invariant
            j <= c.children@.len(),
            views(out@) == views(start) + xml_members_records(
                c.children@.subrange(0, j as int),
                member@,
                ty@,
                *q,
            ),
        decreases c.children.len() - j,
    {
        let g = &c.children[j];
        assert(c.children@.subrange(0, j + 1).subrange(0, j as int) =~= c.children@.subrange(
            0,
            j as int,
        ));
        if str_eq(g.tag.as_str(), member) {
            walk_xml(g, ty, q, out);
        }
        assert(views(out@) =~= views(start) + xml_members_records(
            c.children@.subrange(0, j + 1),
            member@,
            ty@,
            *q,
        ));
        j += 1;
    }
    assert(c.children@.subrange(0, j as int) =~= c.children@);
}

/// Searches an XML bank manifest whose root element is `root`.
pub fn search_xml_manifest(root: &XmlElement, q: &Query) -> (r: Vec<SearchResult>)
    ensures
        views(r@) == xml_manifest_records(*root, *q),
{
    let mut out: Vec<SearchResult> = Vec::new();
    match root.first_child_tagged("SoundBanks", "SoundBanks") {
        Some(i) => walk_members(&root.children[i], "SoundBank", "SoundBank", q, &mut out),
        None => {},
    }
    assert(views(out@) =~= xml_manifest_records(*root, *q));
    out
}

} // verus!
