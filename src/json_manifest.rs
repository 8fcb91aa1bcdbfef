//! The depth-first walk over a bank manifest written as JSON.
use vstd::prelude::*;
use crate::json::{find_member, member, str_value, JsonMember, JsonValue};
use crate::record::{
    emit_node_records, manifest_node_records, views, FieldsView, NodeFields, Query, RecordView,
    SearchResult,
};
use crate::text::{decimal, decimal_string, str_eq};

verus! {

/// The type of the values found under an object member with this key: a
/// container key gives its members' type; any other key passes through.
pub open spec fn json_child_type(key: Seq<char>) -> Seq<char> {
    if key == "Events"@ {
        "Event"@
    } else if key == "Media"@ {
        "Media"@
    } else if key == "GameParameters"@ {
        "GameParameter"@
    } else if key == "StateGroups"@ {
        "StateGroup"@
    } else if key == "States"@ {
        "State"@
    } else if key == "SwitchGroups"@ {
        "SwitchGroup"@
    } else if key == "Switches"@ {
        "Switch"@
    } else if key == "Busses"@ {
        "Bus"@
    } else if key == "AcousticTextures"@ {
        "AcousticTexture"@
    } else if key == "Plugins"@ {
        "Plugin"@
    } else if key == "Custom"@ {
        "CustomPlugin"@
    } else if key == "AudioDevices"@ {
        "AudioDevice"@
    } else if key == "SwitchContainers"@ {
        "SwitchContainer"@
    } else if key == "SwitchValue"@ {
        "SwitchValue"@
    } else {
        key
    }
}

/// The string value of the member keyed `key`, if there is one and it is a string.
pub open spec fn json_str(ms: Seq<JsonMember>, key: Seq<char>) -> Option<Seq<char>> {
    match member(ms, key) {
        Some(i) => str_value(ms[i].value),
        None => None,
    }
}

/// The label of an object: the first of its `Name`, `ShortName` and
/// `ObjectPath` members that is a string; `unnamed` where none is.
pub open spec fn json_name(ms: Seq<JsonMember>) -> Seq<char> {
    match json_str(ms, "Name"@) {
        Some(s) => s,
        None => match json_str(ms, "ShortName"@) {
            Some(s) => s,
            None => match json_str(ms, "ObjectPath"@) {
                Some(s) => s,
                None => "unnamed"@,
            },
        },
    }
}

/// The label of a media record: the object's own `ShortName` where it is a
/// string, else its label.
pub open spec fn json_media_name(ms: Seq<JsonMember>) -> Seq<char> {
    match json_str(ms, "ShortName"@) {
        Some(s) => s,
        None => json_name(ms),
    }
}

/// The numeric identifier of an object: its `Id` member as a string, or as
/// the decimal numeral of an unsigned integer; empty otherwise.
pub open spec fn json_id(ms: Seq<JsonMember>) -> Seq<char> {
    match member(ms, "Id"@) {
        Some(i) => match ms[i].value {
            JsonValue::Str(s) => s@,
            JsonValue::Number(Some(n)) => decimal(n as nat),
            _ => Seq::empty(),
        },
        None => Seq::empty(),
    }
}

/// What the walk reads of an object.
pub open spec fn json_fields(ms: Seq<JsonMember>) -> FieldsView {
    FieldsView {
        name: json_name(ms),
        media_name: json_media_name(ms),
        guid: match json_str(ms, "GUID"@) {
            Some(s) => s,
            None => Seq::empty(),
        },
        id: json_id(ms),
    }
}

/// The records of the walk from `v` of type `ty`: an object yields its own
/// records, then those of each member value typed by its key; an array
/// passes `ty` on to its items; other values yield nothing.
pub open spec fn json_records(v: JsonValue, ty: Seq<char>, q: Query) -> Seq<RecordView>
    decreases v,
{
    match v {
        JsonValue::Object(ms) => manifest_node_records(json_fields(ms@), ty, q.kinds@, q)
            + json_members_records(ms@, q),
        JsonValue::Array(items) => json_items_records(items@, ty, q),
        _ => Seq::empty(),
    }
}

/// The records below the members of an object, in member order.
pub open spec fn json_members_records(ms: Seq<JsonMember>, q: Query) -> Seq<RecordView>
    decreases ms,
{
    if ms.len() == 0 {
        Seq::empty()
    } else {
        let m = ms[ms.len() - 1];
        json_members_records(ms.subrange(0, ms.len() - 1), q) + json_records(
            m.value,
            json_child_type(m.key@),
            q,
        )
    }
}

/// The records below the items of an array, each of type `ty`.
pub open spec fn json_items_records(items: Seq<JsonValue>, ty: Seq<char>, q: Query) -> Seq<
    RecordView,
>
    decreases items,
{
    if items.len() == 0 {
        Seq::empty()
    } else {
        json_items_records(items.subrange(0, items.len() - 1), ty, q) + json_records(
            items[items.len() - 1],
            ty,
            q,
        )
    }
}

/// The records of a JSON manifest: the walk from each item of the
/// `SoundBanks` array of the root's `SoundBanksInfo` object, typed `SoundBank`.
pub open spec fn json_manifest_records(root: JsonValue, q: Query) -> Seq<RecordView> {
    match root {
        JsonValue::Object(ms) => match member(ms@, "SoundBanksInfo"@) {
            Some(i) => match ms@[i].value {
                JsonValue::Object(ms2) => match member(ms2@, "SoundBanks"@) {
                    Some(j) => match ms2@[j].value {
                        JsonValue::Array(items) => json_items_records(items@, "SoundBank"@, q),
                        _ => Seq::empty(),
                    },
                    None => Seq::empty(),
                },
                _ => Seq::empty(),
            },
            None => Seq::empty(),
        },
        _ => Seq::empty(),
    }
}

/// The type of the values under a member with key `key`.
pub fn json_child_type_of(key: &str) -> (r: String)
    ensures
        r@ == json_child_type(key@),
{
    let t = if str_eq(key, "Events") {
        "Event"
    } else if str_eq(key, "Media") {
        "Media"
    } else if str_eq(key, "GameParameters") {
        "GameParameter"
    } else if str_eq(key, "StateGroups") {
        "StateGroup"
    } else if str_eq(key, "States") {
        "State"
    } else if str_eq(key, "SwitchGroups") {
        "SwitchGroup"
    } else if str_eq(key, "Switches") {
        "Switch"
    } else if str_eq(key, "Busses") {
        "Bus"
    } else if str_eq(key, "AcousticTextures") {
        "AcousticTexture"
    } else if str_eq(key, "Plugins") {
        "Plugin"
    } else if str_eq(key, "Custom") {
        "CustomPlugin"
    } else if str_eq(key, "AudioDevices") {
        "AudioDevice"
    } else if str_eq(key, "SwitchContainers") {
        "SwitchContainer"
    } else if str_eq(key, "SwitchValue") {
        "SwitchValue"
    } else {
        key
    };
    String::from_str(t)
}

/// The string value of the member keyed `key`, if there is one and it is a string.
pub fn string_member<'a>(ms: &'a Vec<JsonMember>, key: &str) -> (r: Option<&'a String>)
    ensures
        match r {
            Some(s) => json_str(ms@, key@) == Some(s@),
            None => json_str(ms@, key@) is None,
        },
{
    match find_member(ms, key) {
        Some(i) => match &ms[i].value {
            JsonValue::Str(s) => Some(s),
            _ => None,
        },
        None => None,
    }
}

/// What the walk reads of an object with members `ms`.
pub fn json_fields_of(ms: &Vec<JsonMember>) -> (r: NodeFields)
    ensures
        r@ == json_fields(ms@),
{
    let name = match string_member(ms, "Name") {
        Some(s) => s.clone(),
        None => match string_member(ms, "ShortName") {
            Some(s) => s.clone(),
            None => match string_member(ms, "ObjectPath") {
                Some(s) => s.clone(),
                None => String::from_str("unnamed"),
            },
        },
    };
    let media_name = match string_member(ms, "ShortName") {
        Some(s) => s.clone(),
        None => name.clone(),
    };
    let guid = match string_member(ms, "GUID") {
        Some(s) => s.clone(),
        None => String::new(),
    };
    let id = match find_member(ms, "Id") {
        Some(i) => match &ms[i].value {
            JsonValue::Str(s) => s.clone(),
            JsonValue::Number(Some(n)) => decimal_string(*n),
            _ => String::new(),
        },
        None => String::new(),
    };
    NodeFields { name, media_name, guid, id }
}

/// Appends the records of the walk from `v`, of type `ty`, to `out`.
pub fn walk_json(v: &JsonValue, ty: &str, q: &Query, out: &mut Vec<SearchResult>)
    ensures
        views(final(out)@) == views(old(out)@) + json_records(*v, ty@, *q),
    decreases v,
{
    match v {
        JsonValue::Object(ms) => {
            let ghost start = out@;
            let f = json_fields_of(ms);
            emit_node_records(&f, ty, q, out);
            let ghost mid = out@;
            let mut i: usize = 0;
            while i < ms.len()
                invariant
                    *v == JsonValue::Object(*ms),
                    i <= ms@.len(),
                    views(mid) == views(start) + manifest_node_records(
                        json_fields(ms@),
                        ty@,
                        q.kinds@,
                        *q,
                    ),
                    views(out@) == views(mid) + json_members_records(
                        ms@.subrange(0, i as int),
                        *q,
                    ),
                decreases ms.len() - i,
            {
                assert(ms@.subrange(0, i + 1).subrange(0, i as int) =~= ms@.subrange(0, i as int));
                let t = json_child_type_of(ms[i].key.as_str());
                proof {
                    let m = ms@[i as int];
                    assert(decreases_to!(ms@ => m));
                    assert(decreases_to!(m => m.value));
                    assert(decreases_to!(*v => v->Object_0));
                    assert(v->Object_0 == *ms);
                    assert(decreases_to!(*ms => ms@));
                    assert(decreases_to!(*v => m.value));
                }
                walk_json(&ms[i].value, t.as_str(), q, out);
                assert(views(out@) =~= views(mid) + json_members_records(
                    ms@.subrange(0, i + 1),
                    *q,
                ));
                i += 1;
            }
            assert(ms@.subrange(0, i as int) =~= ms@);
            assert(views(out@) =~= views(start) + json_records(*v, ty@, *q));
        },
        JsonValue::Array(items) => {
            walk_json_items(items, ty, q, out);
        },
        _ => {
            assert(views(out@) =~= views(old(out)@) + json_records(*v, ty@, *q));
        },
    }
}

/// Appends the records of the walk from each item of `items`, of type `ty`.
pub fn walk_json_items(items: &Vec<JsonValue>, ty: &str, q: &Query, out: &mut Vec<SearchResult>)
    ensures
        views(final(out)@) == views(old(out)@) + json_items_records(items@, ty@, *q),
    decreases items,
{
    let ghost start = out@;
    let mut i: usize = 0;
    while i < items.len()
        invariant
            i <= items@.len(),
            views(out@) == views(start) + json_items_records(items@.subrange(0, i as int), ty@, *q),
        decreases items.len() - i,
    {
        assert(items@.subrange(0, i + 1).subrange(0, i as int) =~= items@.subrange(0, i as int));
        walk_json(&items[i], ty, q, out);
        assert(views(out@) =~= views(start) + json_items_records(
            items@.subrange(0, i + 1),
            ty@,
            *q,
        ));
        i += 1;
    }
    assert(items@.subrange(0, i as int) =~= items@);
}

/// Searches a JSON bank manifest whose root value is `root`.
pub fn search_json_manifest(root: &JsonValue, q: &Query) -> (r: Vec<SearchResult>)
    ensures
        views(r@) == json_manifest_records(*root, *q),
{
    let mut out: Vec<SearchResult> = Vec::new();
    if let JsonValue::Object(ms) = root {
        if let Some(i) = find_member(ms, "SoundBanksInfo") {
            if let JsonValue::Object(ms2) = &ms[i].value {
                if let Some(j) = find_member(ms2, "SoundBanks") {
                    if let JsonValue::Array(items) = &ms2[j].value {
                        walk_json_items(items, "SoundBank", q, &mut out);
                    }
                }
            }
        }
    }
    assert(views(out@) =~= json_manifest_records(*root, *q));
    out
}

} // verus!
