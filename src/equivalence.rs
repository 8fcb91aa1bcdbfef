//! The two manifest encodings agree: an object tree written as XML and as
//! JSON yields the same records.
use vstd::prelude::*;
use crate::json::{member, JsonMember, JsonValue};
use crate::json_manifest::{
    json_child_type, json_fields, json_items_records, json_manifest_records, json_members_records,
    json_records, json_str,
};
use crate::record::{Query, RecordView};
use crate::xml::{attr, first_tagged_from, XmlElement};
use crate::xml_manifest::{
    container_rule, xml_children_records, xml_fields, xml_manifest_records, xml_members_records,
    xml_records,
};

verus! {

/// A container that both encodings know.
pub enum Container {
    AudioDevices,
    Custom,
    GameParameters,
    StateGroups,
    States,
    SwitchGroups,
    Busses,
    AcousticTextures,
    Events,
    Media,
    SwitchContainers,
}

/// The container's XML tag, which is also its JSON key.
pub open spec fn container_name(c: Container) -> Seq<char> {
    match c {
        Container::AudioDevices => "AudioDevices"@,
        Container::Custom => "Custom"@,
        Container::GameParameters => "GameParameters"@,
        Container::StateGroups => "StateGroups"@,
        Container::States => "States"@,
        Container::SwitchGroups => "SwitchGroups"@,
        Container::Busses => "Busses"@,
        Container::AcousticTextures => "AcousticTextures"@,
        Container::Events => "Events"@,
        Container::Media => "Media"@,
        Container::SwitchContainers => "SwitchContainers"@,
    }
}

/// The XML tag of the container's members.
pub open spec fn member_tag(c: Container) -> Seq<char> {
    match c {
        Container::AudioDevices => "Plugin"@,
        Container::Custom => "Plugin"@,
        Container::GameParameters => "GameParameter"@,
        Container::StateGroups => "StateGroup"@,
        Container::States => "State"@,
        Container::SwitchGroups => "SwitchGroup"@,
        Container::Busses => "Bus"@,
        Container::AcousticTextures => "AcousticTexture"@,
        Container::Events => "Event"@,
        Container::Media => "File"@,
        Container::SwitchContainers => "SwitchContainer"@,
    }
}

/// The type the container's members are given.
pub open spec fn member_type(c: Container) -> Seq<char> {
    match c {
        Container::AudioDevices => "AudioDevice"@,
        Container::Custom => "CustomPlugin"@,
        Container::GameParameters => "GameParameter"@,
        Container::StateGroups => "StateGroup"@,
        Container::States => "State"@,
        Container::SwitchGroups => "SwitchGroup"@,
        Container::Busses => "Bus"@,
        Container::AcousticTextures => "AcousticTexture"@,
        Container::Events => "Event"@,
        Container::Media => "Media"@,
        Container::SwitchContainers => "SwitchContainer"@,
    }
}

/// A manifest object independent of encoding: its label and short name where
/// it has them, its GUID, its numeric identifier, and the containers below it.
pub struct LogicalObject {
    pub name: Option<Seq<char>>,
    pub short_name: Option<Seq<char>>,
    pub guid: Seq<char>,
    pub id: Seq<char>,
    pub groups: Seq<Group>,
}

/// A container and the objects it holds.
pub struct Group {
    pub container: Container,
    pub members: Seq<LogicalObject>,
}

/// `e` writes `o` as an element tagged `tag`: its `Name` and `ShortName`
/// attributes are those of `o` (absent where `o` has none), its `GUID` and
/// `Id` attributes hold the GUID and identifier, and it has one child element
/// per container.
pub open spec fn xml_encodes(e: XmlElement, o: LogicalObject, tag: Seq<char>) -> bool
    decreases o,
{
    &&& e.tag@ == tag
    &&& attr(e, "Name"@) == o.name
    &&& attr(e, "ShortName"@) == o.short_name
    &&& attr(e, "GUID"@) == Some(o.guid)
    &&& attr(e, "Id"@) == Some(o.id)
    &&& e.children@.len() == o.groups.len()
    &&& forall|i: int|
        0 <= i < o.groups.len() ==> xml_group_encodes(#[trigger] e.children@[i], o.groups[i])
}

/// `c` writes group `g` as an element named after the container, holding one
/// member element per object.
pub open spec fn xml_group_encodes(c: XmlElement, g: Group) -> bool
    decreases g,
{
    &&& c.tag@ == container_name(g.container)
    &&& c.children@.len() == g.members.len()
    &&& forall|j: int|
        0 <= j < g.members.len() ==> xml_encodes(
            #[trigger] c.children@[j],
            g.members[j],
            member_tag(g.container),
        )
}

/// The members of an object whose values are arrays, in order.
pub open spec fn array_members(ms: Seq<JsonMember>) -> Seq<JsonMember>
    decreases ms.len(),
{
    if ms.len() == 0 {
        Seq::empty()
    } else {
        array_members(ms.drop_last()) + if ms.last().value is Array {
            seq![ms.last()]
        } else {
            Seq::empty()
        }
    }
}

/// `v` writes `o` as an object whose members are strings and arrays, in any
/// order: its string `Name` and `ShortName` members are those of `o` (absent
/// where `o` has none), it has no string `ObjectPath` member, its `GUID` and
/// `Id` members are the GUID and identifier as strings, and its array members
/// are its containers, in the order of `o`.
pub open spec fn json_encodes(v: JsonValue, o: LogicalObject) -> bool
    decreases o,
{
    match v {
        JsonValue::Object(ms) => {
            &&& json_str(ms@, "Name"@) == o.name
            &&& json_str(ms@, "ShortName"@) == o.short_name
            &&& json_str(ms@, "ObjectPath"@) is None
            &&& json_str(ms@, "GUID"@) == Some(o.guid)
            &&& json_str(ms@, "Id"@) == Some(o.id)
            &&& forall|k: int|
                0 <= k < ms@.len() ==> (#[trigger] ms@[k]).value is Str || ms@[k].value is Array
            &&& array_members(ms@).len() == o.groups.len()
            &&& forall|i: int|
                0 <= i < o.groups.len() ==> json_group_encodes(
                    #[trigger] array_members(ms@)[i],
                    o.groups[i],
                )
        },
        _ => false,
    }
}

/// `m` writes group `g` as a member keyed by the container whose value is
/// an array of the objects.
pub open spec fn json_group_encodes(m: JsonMember, g: Group) -> bool
    decreases g,
{
    &&& m.key@ == container_name(g.container)
    &&& match m.value {
        JsonValue::Array(items) => {
            &&& items@.len() == g.members.len()
            &&& forall|j: int|
                0 <= j < g.members.len() ==> json_encodes(#[trigger] items@[j], g.members[j])
        },
        _ => false,
    }
}

/// `root` is an XML manifest of the banks `banks`: its first child is
/// `SoundBanks`, holding one `SoundBank` element per bank.
pub open spec fn xml_manifest_encodes(root: XmlElement, banks: Seq<LogicalObject>) -> bool {
    &&& root.children@.len() > 0
    &&& root.children@[0].tag@ == "SoundBanks"@
    &&& root.children@[0].children@.len() == banks.len()
    &&& forall|j: int|
        0 <= j < banks.len() ==> xml_encodes(
            #[trigger] root.children@[0].children@[j],
            banks[j],
            "SoundBank"@,
        )
}

/// `root` is a JSON manifest of the banks `banks`: an object whose first
/// member `SoundBanksInfo` is an object whose first member `SoundBanks` is
/// an array of the banks.
pub open spec fn json_manifest_encodes(root: JsonValue, banks: Seq<LogicalObject>) -> bool {
    match root {
        JsonValue::Object(ms) => ms@.len() > 0 && ms@[0].key@ == "SoundBanksInfo"@ && match ms@[0].value {
            JsonValue::Object(ms2) => ms2@.len() > 0 && ms2@[0].key@ == "SoundBanks"@ && match ms2@[0].value {
                JsonValue::Array(items) => {
                    &&& items@.len() == banks.len()
                    &&& forall|j: int| 0 <= j < banks.len() ==> json_encodes(#[trigger] items@[j], banks[j])
                },
                _ => false,
            },
            _ => false,
        },
        _ => false,
    }
}

proof fn lemma_tables(c: Container)
    ensures
        container_rule(container_name(c)) == Some((member_tag(c), member_type(c))),
        json_child_type(container_name(c)) == member_type(c),
        container_name(c) != "ShortName"@,
        container_name(c) != "ObjectPath"@,
{
    reveal_strlit("AcousticTextures");
    reveal_strlit("AudioDevices");
    reveal_strlit("Busses");
    reveal_strlit("Custom");
    reveal_strlit("Events");
    reveal_strlit("GameParameters");
    reveal_strlit("Media");
    reveal_strlit("ObjectPath");
    reveal_strlit("Plugins");
    reveal_strlit("ShortName");
    reveal_strlit("StateGroups");
    reveal_strlit("States");
    reveal_strlit("SwitchContainers");
    reveal_strlit("SwitchGroups");
    reveal_strlit("SwitchValue");
    reveal_strlit("Switches");
    match c {
        Container::AudioDevices => {
            assert(container_rule("AudioDevices"@) == Some(("Plugin"@, "AudioDevice"@)));
            assert("AudioDevices"@[0] != "Events"@[0]);
            assert("AudioDevices"@[0] != "Media"@[0]);
            assert("AudioDevices"@[0] != "GameParameters"@[0]);
            assert("AudioDevices"@[0] != "StateGroups"@[0]);
            assert("AudioDevices"@[0] != "States"@[0]);
            assert("AudioDevices"@[0] != "SwitchGroups"@[0]);
            assert("AudioDevices"@[0] != "Switches"@[0]);
            assert("AudioDevices"@[0] != "Busses"@[0]);
            assert("AudioDevices"@[1] != "AcousticTextures"@[1]);
            assert("AudioDevices"@[0] != "Plugins"@[0]);
            assert("AudioDevices"@[0] != "Custom"@[0]);
            assert(json_child_type("AudioDevices"@) == "AudioDevice"@);
            assert("AudioDevices"@[0] != "ShortName"@[0]);
            assert("AudioDevices"@[0] != "ObjectPath"@[0]);
        },
        Container::Custom => {
            assert("Custom"@[0] != "AudioDevices"@[0]);
            assert(container_rule("Custom"@) == Some(("Plugin"@, "CustomPlugin"@)));
            assert("Custom"@[0] != "Events"@[0]);
            assert("Custom"@[0] != "Media"@[0]);
            assert("Custom"@[0] != "GameParameters"@[0]);
            assert("Custom"@[0] != "StateGroups"@[0]);
            assert("Custom"@[0] != "States"@[0]);
            assert("Custom"@[0] != "SwitchGroups"@[0]);
            assert("Custom"@[0] != "Switches"@[0]);
            assert("Custom"@[0] != "Busses"@[0]);
            assert("Custom"@[0] != "AcousticTextures"@[0]);
            assert("Custom"@[0] != "Plugins"@[0]);
            assert(json_child_type("Custom"@) == "CustomPlugin"@);
            assert("Custom"@[0] != "ShortName"@[0]);
            assert("Custom"@[0] != "ObjectPath"@[0]);
        },
        Container::GameParameters => {
            assert("GameParameters"@[0] != "AudioDevices"@[0]);
            assert("GameParameters"@[0] != "Custom"@[0]);
            assert(container_rule("GameParameters"@) == Some(("GameParameter"@, "GameParameter"@)));
            assert("GameParameters"@[0] != "Events"@[0]);
            assert("GameParameters"@[0] != "Media"@[0]);
            assert(json_child_type("GameParameters"@) == "GameParameter"@);
            assert("GameParameters"@[0] != "ShortName"@[0]);
            assert("GameParameters"@[0] != "ObjectPath"@[0]);
        },
        Container::StateGroups => {
            assert("StateGroups"@[0] != "AudioDevices"@[0]);
            assert("StateGroups"@[0] != "Custom"@[0]);
            assert("StateGroups"@[0] != "GameParameters"@[0]);
            assert(container_rule("StateGroups"@) == Some(("StateGroup"@, "StateGroup"@)));
            assert("StateGroups"@[0] != "Events"@[0]);
            assert("StateGroups"@[0] != "Media"@[0]);
            assert("StateGroups"@[0] != "GameParameters"@[0]);
            assert(json_child_type("StateGroups"@) == "StateGroup"@);
            assert("StateGroups"@[1] != "ShortName"@[1]);
            assert("StateGroups"@[0] != "ObjectPath"@[0]);
        },
        Container::States => {
            assert("States"@[0] != "AudioDevices"@[0]);
            assert("States"@[0] != "Custom"@[0]);
            assert("States"@[0] != "GameParameters"@[0]);
            assert("States"@[5] != "StateGroups"@[5]);
            assert(container_rule("States"@) == Some(("State"@, "State"@)));
            assert("States"@[0] != "Events"@[0]);
            assert("States"@[0] != "Media"@[0]);
            assert("States"@[0] != "GameParameters"@[0]);
            assert("States"@[5] != "StateGroups"@[5]);
            assert(json_child_type("States"@) == "State"@);
            assert("States"@[1] != "ShortName"@[1]);
            assert("States"@[0] != "ObjectPath"@[0]);
        },
        Container::SwitchGroups => {
            assert("SwitchGroups"@[0] != "AudioDevices"@[0]);
            assert("SwitchGroups"@[0] != "Custom"@[0]);
            assert("SwitchGroups"@[0] != "GameParameters"@[0]);
            assert("SwitchGroups"@[1] != "StateGroups"@[1]);
            assert("SwitchGroups"@[1] != "States"@[1]);
            assert(container_rule("SwitchGroups"@) == Some(("SwitchGroup"@, "SwitchGroup"@)));
            assert("SwitchGroups"@[0] != "Events"@[0]);
            assert("SwitchGroups"@[0] != "Media"@[0]);
            assert("SwitchGroups"@[0] != "GameParameters"@[0]);
            assert("SwitchGroups"@[1] != "StateGroups"@[1]);
            assert("SwitchGroups"@[1] != "States"@[1]);
            assert(json_child_type("SwitchGroups"@) == "SwitchGroup"@);
            assert("SwitchGroups"@[1] != "ShortName"@[1]);
            assert("SwitchGroups"@[0] != "ObjectPath"@[0]);
        },
        Container::Busses => {
            assert("Busses"@[0] != "AudioDevices"@[0]);
            assert("Busses"@[0] != "Custom"@[0]);
            assert("Busses"@[0] != "GameParameters"@[0]);
            assert("Busses"@[0] != "StateGroups"@[0]);
            assert("Busses"@[0] != "States"@[0]);
            assert("Busses"@[0] != "SwitchGroups"@[0]);
            assert(container_rule("Busses"@) == Some(("Bus"@, "Bus"@)));
            assert("Busses"@[0] != "Events"@[0]);
            assert("Busses"@[0] != "Media"@[0]);
            assert("Busses"@[0] != "GameParameters"@[0]);
            assert("Busses"@[0] != "StateGroups"@[0]);
            assert("Busses"@[0] != "States"@[0]);
            assert("Busses"@[0] != "SwitchGroups"@[0]);
            assert("Busses"@[0] != "Switches"@[0]);
            assert(json_child_type("Busses"@) == "Bus"@);
            assert("Busses"@[0] != "ShortName"@[0]);
            assert("Busses"@[0] != "ObjectPath"@[0]);
        },
        Container::AcousticTextures => {
            assert("AcousticTextures"@[1] != "AudioDevices"@[1]);
            assert("AcousticTextures"@[0] != "Custom"@[0]);
            assert("AcousticTextures"@[0] != "GameParameters"@[0]);
            assert("AcousticTextures"@[0] != "StateGroups"@[0]);
            assert("AcousticTextures"@[0] != "States"@[0]);
            assert("AcousticTextures"@[0] != "SwitchGroups"@[0]);
            assert("AcousticTextures"@[0] != "Busses"@[0]);
            assert(container_rule("AcousticTextures"@) == Some(("AcousticTexture"@, "AcousticTexture"@)));
            assert("AcousticTextures"@[0] != "Events"@[0]);
            assert("AcousticTextures"@[0] != "Media"@[0]);
            assert("AcousticTextures"@[0] != "GameParameters"@[0]);
            assert("AcousticTextures"@[0] != "StateGroups"@[0]);
            assert("AcousticTextures"@[0] != "States"@[0]);
            assert("AcousticTextures"@[0] != "SwitchGroups"@[0]);
            assert("AcousticTextures"@[0] != "Switches"@[0]);
            assert("AcousticTextures"@[0] != "Busses"@[0]);
            assert(json_child_type("AcousticTextures"@) == "AcousticTexture"@);
            assert("AcousticTextures"@[0] != "ShortName"@[0]);
            assert("AcousticTextures"@[0] != "ObjectPath"@[0]);
        },
        Container::Events => {
            assert("Events"@[0] != "AudioDevices"@[0]);
            assert("Events"@[0] != "Custom"@[0]);
            assert("Events"@[0] != "GameParameters"@[0]);
            assert("Events"@[0] != "StateGroups"@[0]);
            assert("Events"@[0] != "States"@[0]);
            assert("Events"@[0] != "SwitchGroups"@[0]);
            assert("Events"@[0] != "Busses"@[0]);
            assert("Events"@[0] != "AcousticTextures"@[0]);
            assert(container_rule("Events"@) == Some(("Event"@, "Event"@)));
            assert(json_child_type("Events"@) == "Event"@);
            assert("Events"@[0] != "ShortName"@[0]);
            assert("Events"@[0] != "ObjectPath"@[0]);
        },
        Container::Media => {
            assert("Media"@[0] != "AudioDevices"@[0]);
            assert("Media"@[0] != "Custom"@[0]);
            assert("Media"@[0] != "GameParameters"@[0]);
            assert("Media"@[0] != "StateGroups"@[0]);
            assert("Media"@[0] != "States"@[0]);
            assert("Media"@[0] != "SwitchGroups"@[0]);
            assert("Media"@[0] != "Busses"@[0]);
            assert("Media"@[0] != "AcousticTextures"@[0]);
            assert("Media"@[0] != "Events"@[0]);
            assert(container_rule("Media"@) == Some(("File"@, "Media"@)));
            assert("Media"@[0] != "Events"@[0]);
            assert(json_child_type("Media"@) == "Media"@);
            assert("Media"@[0] != "ShortName"@[0]);
            assert("Media"@[0] != "ObjectPath"@[0]);
        },
        Container::SwitchContainers => {
            assert("SwitchContainers"@[0] != "AudioDevices"@[0]);
            assert("SwitchContainers"@[0] != "Custom"@[0]);
            assert("SwitchContainers"@[0] != "GameParameters"@[0]);
            assert("SwitchContainers"@[1] != "StateGroups"@[1]);
            assert("SwitchContainers"@[1] != "States"@[1]);
            assert("SwitchContainers"@[6] != "SwitchGroups"@[6]);
            assert("SwitchContainers"@[0] != "Busses"@[0]);
            assert("SwitchContainers"@[0] != "AcousticTextures"@[0]);
            assert("SwitchContainers"@[0] != "Events"@[0]);
            assert("SwitchContainers"@[0] != "Media"@[0]);
            assert(container_rule("SwitchContainers"@) == Some(("SwitchContainer"@, "SwitchContainer"@)));
            assert("SwitchContainers"@[0] != "Events"@[0]);
            assert("SwitchContainers"@[0] != "Media"@[0]);
            assert("SwitchContainers"@[0] != "GameParameters"@[0]);
            assert("SwitchContainers"@[1] != "StateGroups"@[1]);
            assert("SwitchContainers"@[1] != "States"@[1]);
            assert("SwitchContainers"@[6] != "SwitchGroups"@[6]);
            assert("SwitchContainers"@[6] != "Switches"@[6]);
            assert("SwitchContainers"@[0] != "Busses"@[0]);
            assert("SwitchContainers"@[0] != "AcousticTextures"@[0]);
            assert("SwitchContainers"@[0] != "Plugins"@[0]);
            assert("SwitchContainers"@[0] != "Custom"@[0]);
            assert("SwitchContainers"@[0] != "AudioDevices"@[0]);
            assert(json_child_type("SwitchContainers"@) == "SwitchContainer"@);
            assert("SwitchContainers"@[1] != "ShortName"@[1]);
            assert("SwitchContainers"@[0] != "ObjectPath"@[0]);
        },
    }
}

proof fn lemma_no_label_child(cs: Seq<XmlElement>, gs: Seq<Group>, j: int)
    requires
        0 <= j <= cs.len(),
        cs.len() == gs.len(),
        forall|i: int| 0 <= i < gs.len() ==> xml_group_encodes(#[trigger] cs[i], gs[i]),
    ensures
        first_tagged_from(cs, "ShortName"@, "ObjectPath"@, j) is None,
    decreases cs.len() - j,
{
    if j < cs.len() {
        assert(xml_group_encodes(cs[j], gs[j]));
        lemma_tables(gs[j].container);
        lemma_no_label_child(cs, gs, j + 1);
    }
}

proof fn lemma_same_fields(e: XmlElement, v: JsonValue, o: LogicalObject, tag: Seq<char>)
    requires
        xml_encodes(e, o, tag),
        json_encodes(v, o),
    ensures
        xml_fields(e) == json_fields(v->Object_0@),
{
    lemma_no_label_child(e.children@, o.groups, 0);
}

proof fn lemma_arrays_only(ms: Seq<JsonMember>, q: Query)
    requires
        forall|k: int| 0 <= k < ms.len() ==> (#[trigger] ms[k]).value is Str || ms[k].value is Array,
    ensures
        json_members_records(ms, q) == json_members_records(array_members(ms), q),
    decreases ms.len(),
{
    if ms.len() > 0 {
        let pre = ms.drop_last();
        assert(ms.subrange(0, ms.len() - 1) == pre);
        assert forall|k: int| 0 <= k < pre.len() implies (#[trigger] pre[k]).value is Str
            || pre[k].value is Array by {
            assert(pre[k] == ms[k]);
        }
        lemma_arrays_only(pre, q);
        let last = ms[ms.len() - 1];
        assert(last.value is Str || last.value is Array);
        let a = array_members(pre);
        if last.value is Array {
            let b = a + seq![last];
            assert(b.subrange(0, b.len() - 1) =~= a);
            assert(b[b.len() - 1] == last);
        } else {
            assert(json_records(last.value, json_child_type(last.key@), q) =~= Seq::<RecordView>::empty());
            assert(array_members(ms) =~= a);
        }
    }
}

proof fn lemma_object(e: XmlElement, v: JsonValue, o: LogicalObject, tag: Seq<char>, ty: Seq<char>, q: Query)
    requires
        xml_encodes(e, o, tag),
        json_encodes(v, o),
    ensures
        xml_records(e, ty, q) == json_records(v, ty, q),
    decreases o, 1int, 0int,
{
    lemma_same_fields(e, v, o, tag);
    let ms = v->Object_0@;
    lemma_arrays_only(ms, q);
    lemma_groups(e, v, o, o.groups.len() as int, q);
    assert(e.children@.subrange(0, o.groups.len() as int) =~= e.children@);
    assert(array_members(ms).subrange(0, o.groups.len() as int) =~= array_members(ms));
}

proof fn lemma_groups(e: XmlElement, v: JsonValue, o: LogicalObject, n: int, q: Query)
    requires
        xml_encodes(e, o, e.tag@),
        json_encodes(v, o),
        0 <= n <= o.groups.len(),
    ensures
        xml_children_records(e.children@.subrange(0, n), q) == json_members_records(
            array_members(v->Object_0@).subrange(0, n),
            q,
        ),
    decreases o, 0int, n,
{
    let ms = array_members(v->Object_0@);
    if n > 0 {
        lemma_groups(e, v, o, n - 1, q);
        let g = o.groups[n - 1];
        let c = e.children@[n - 1];
        let m = ms[n - 1];
        assert(xml_group_encodes(c, g));
        assert(json_group_encodes(m, g));
        lemma_tables(g.container);
        let items = m.value->Array_0@;
        assert(decreases_to!(o => o.groups));
        assert(decreases_to!(o.groups => g));
        assert(decreases_to!(g => g.members));
        lemma_members(c.children@, items, g.members, member_tag(g.container), member_type(g.container), g.members.len() as int, q);
        assert(c.children@.subrange(0, g.members.len() as int) =~= c.children@);
        assert(items.subrange(0, g.members.len() as int) =~= items);
        assert(e.children@.subrange(0, n).subrange(0, n - 1) =~= e.children@.subrange(0, n - 1));
        assert(ms.subrange(0, n).subrange(0, n - 1) =~= ms.subrange(0, n - 1));
        assert(json_records(m.value, member_type(g.container), q) == json_items_records(items, member_type(g.container), q));
    }
}


proof fn lemma_members(
    gs: Seq<XmlElement>,
    items: Seq<JsonValue>,
    objs: Seq<LogicalObject>,
    mtag: Seq<char>,
    mty: Seq<char>,
    m: int,
    q: Query,
)
    requires
        gs.len() == objs.len(),
        items.len() == objs.len(),
        0 <= m <= objs.len(),
        forall|j: int| 0 <= j < objs.len() ==> xml_encodes(#[trigger] gs[j], objs[j], mtag),
        forall|j: int| 0 <= j < objs.len() ==> json_encodes(#[trigger] items[j], objs[j]),
    ensures
        xml_members_records(gs.subrange(0, m), mtag, mty, q) == json_items_records(
            items.subrange(0, m),
            mty,
            q,
        ),
    decreases objs, 0int, m,
{
    if m > 0 {
        lemma_members(gs, items, objs, mtag, mty, m - 1, q);
        assert(xml_encodes(gs[m - 1], objs[m - 1], mtag));
        assert(json_encodes(items[m - 1], objs[m - 1]));
        lemma_object(gs[m - 1], items[m - 1], objs[m - 1], mtag, mty, q);
        assert(gs.subrange(0, m).subrange(0, m - 1) =~= gs.subrange(0, m - 1));
        assert(items.subrange(0, m).subrange(0, m - 1) =~= items.subrange(0, m - 1));
    }
}

/// Manifest equivalence: an XML manifest and a JSON manifest that write the
/// same banks, objects and containers, with the containers of each object in
/// the same order, yield the same records for every query, media records
/// included.
pub proof fn law_manifest_equivalence(
    xml_root: XmlElement,
    json_root: JsonValue,
    banks: Seq<LogicalObject>,
    q: Query,
)
    requires
        xml_manifest_encodes(xml_root, banks),
        json_manifest_encodes(json_root, banks),
    ensures
        xml_manifest_records(xml_root, q) == json_manifest_records(json_root, q),
{
    let sb = xml_root.children@[0];
    assert(first_tagged_from(xml_root.children@, "SoundBanks"@, "SoundBanks"@, 0) == Some(0int));
    let ms = json_root->Object_0@;
    assert(member(ms, "SoundBanksInfo"@) == Some(0int));
    let ms2 = ms[0].value->Object_0@;
    assert(member(ms2, "SoundBanks"@) == Some(0int));
    let items = ms2[0].value->Array_0@;
    lemma_members(sb.children@, items, banks, "SoundBank"@, "SoundBank"@, banks.len() as int, q);
    assert(sb.children@.subrange(0, banks.len() as int) =~= sb.children@);
    assert(items.subrange(0, banks.len() as int) =~= items);
}

} // verus!
