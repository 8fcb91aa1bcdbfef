//! Search records, identifier kinds, queries, and the matching rule that a
//! manifest node obeys whatever its encoding.
use vstd::prelude::*;
use crate::guid::{is_valid_guid, valid_guid};
use crate::text::{all_digits, contains, is_numeric, lower_of, lowercase, seq_contains, str_eq};

verus! {

/// One matched object.
#[derive(Debug, Clone, PartialEq, Eq)]
pub struct SearchResult {
    pub name: String,
    pub object_type: String,
    pub guid: String,
    pub short_id: String,
    pub media_id: String,
}

/// The mathematical value of a `SearchResult`.
pub struct RecordView {
    pub name: Seq<char>,
    pub object_type: Seq<char>,
    pub guid: Seq<char>,
    pub short_id: Seq<char>,
    pub media_id: Seq<char>,
}

impl View for SearchResult {
    type V = RecordView;

    open spec fn view(&self) -> RecordView {
        RecordView {
            name: self.name@,
            object_type: self.object_type@,
            guid: self.guid@,
            short_id: self.short_id@,
            media_id: self.media_id@,
        }
    }
}

/// A record from its five fields.
pub open spec fn rec(
    name: Seq<char>,
    object_type: Seq<char>,
    guid: Seq<char>,
    short_id: Seq<char>,
    media_id: Seq<char>,
) -> RecordView {
    RecordView { name, object_type, guid, short_id, media_id }
}

/// The values of a list of results.
pub open spec fn views(s: Seq<SearchResult>) -> Seq<RecordView> {
    s.map_values(|r: SearchResult| r@)
}

/// The kind of identifier a query is compared with.
#[derive(Debug, Clone, Copy, PartialEq, Eq, Structural)]
pub enum IdKind {
    Guid,
    ShortId,
    MediaId,
}

/// The kind that a request names: `GUID`, `ShortID` or `MediaID`.
pub open spec fn kind_named(s: Seq<char>) -> Option<IdKind> {
    if s == "GUID"@ {
        Some(IdKind::Guid)
    } else if s == "ShortID"@ {
        Some(IdKind::ShortId)
    } else if s == "MediaID"@ {
        Some(IdKind::MediaId)
    } else {
        None
    }
}

/// The kinds that a list of names requests, in order; unknown names are skipped.
pub open spec fn kinds_named(names: Seq<String>) -> Seq<IdKind>
    decreases names.len(),
{
    if names.len() == 0 {
        Seq::empty()
    } else {
        let rest = kinds_named(names.drop_last());
        match kind_named(names.last()@) {
            Some(k) => rest.push(k),
            None => rest,
        }
    }
}

impl IdKind {
    /// The kind that `name` denotes, if any.
    pub fn from_name(name: &str) -> (r: Option<IdKind>)
        ensures
            r == kind_named(name@),
    {
        if str_eq(name, "GUID") {
            Some(IdKind::Guid)
        } else if str_eq(name, "ShortID") {
            Some(IdKind::ShortId)
        } else if str_eq(name, "MediaID") {
            Some(IdKind::MediaId)
        } else {
            None
        }
    }
}

/// The kinds named in `names`, in order, skipping names that denote none.
pub fn parse_kinds(names: &Vec<String>) -> (r: Vec<IdKind>)
    ensures
        r@ == kinds_named(names@),
{
    let mut r: Vec<IdKind> = Vec::new();
    let mut i: usize = 0;
    while i < names.len()
        invariant
            i <= names@.len(),
            r@ == kinds_named(names@.subrange(0, i as int)),
        decreases names.len() - i,
    {
        assert(names@.subrange(0, i + 1).drop_last() =~= names@.subrange(0, i as int));
        match IdKind::from_name(names[i].as_str()) {
            Some(k) => r.push(k),
            None => {},
        }
        i += 1;
    }
    assert(names@.subrange(0, i as int) =~= names@);
    r
}

/// A prepared search: the lower-cased needle, whether the raw query was all
/// digits, and the requested kinds.
pub struct Query {
    pub needle: String,
    pub numeric: bool,
    pub kinds: Vec<IdKind>,
}

impl Query {
    /// Prepares `id_string` for matching against the kinds named in `id_types`.
    pub fn new(id_string: &str, id_types: &Vec<String>) -> (r: Query)
        ensures
            r.needle@ == lower_of(id_string@),
            r.numeric == all_digits(id_string@),
            r.kinds@ == kinds_named(id_types@),
    {
        Query { needle: lowercase(id_string), numeric: is_numeric(id_string), kinds: parse_kinds(id_types) }
    }
}

/// `v`, lower-cased, contains the query's needle.
pub open spec fn hit(v: Seq<char>, q: Query) -> bool {
    seq_contains(lower_of(v), q.needle@)
}

/// Whether `v`, lower-cased, contains the query's needle.
pub fn is_hit(v: &str, q: &Query) -> (r: bool)
    ensures
        r == hit(v@, *q),
{
    let lower = lowercase(v);
    contains(lower.as_str(), q.needle.as_str())
}

/// `g` where it is a well-formed GUID, else empty.
pub open spec fn guid_or_empty(g: Seq<char>) -> Seq<char> {
    if valid_guid(g) {
        g
    } else {
        Seq::empty()
    }
}

/// `g` where it is a well-formed GUID, else an empty string.
pub fn guid_or_empty_string(g: &str) -> (r: String)
    ensures
        r@ == guid_or_empty(g@),
{
    if is_valid_guid(g) {
        String::from_str(g)
    } else {
        String::new()
    }
}

/// What a manifest walker reads of one node: its label, the label of a media
/// record, its GUID and its numeric identifier (each empty where absent).
pub struct NodeFields {
    pub name: String,
    pub media_name: String,
    pub guid: String,
    pub id: String,
}

/// The mathematical value of `NodeFields`.
pub struct FieldsView {
    pub name: Seq<char>,
    pub media_name: Seq<char>,
    pub guid: Seq<char>,
    pub id: Seq<char>,
}

impl View for NodeFields {
    type V = FieldsView;

    open spec fn view(&self) -> FieldsView {
        FieldsView { name: self.name@, media_name: self.media_name@, guid: self.guid@, id: self.id@ }
    }
}

/// A numeric identifier that is present and matches a numeric query.
pub open spec fn id_hit(id: Seq<char>, q: Query) -> bool {
    q.numeric && id.len() > 0 && hit(id, q)
}

/// The records that one requested kind yields for a manifest node of type `ty`.
pub open spec fn manifest_kind_records(f: FieldsView, ty: Seq<char>, k: IdKind, q: Query) -> Seq<
    RecordView,
> {
    match k {
        IdKind::Guid => if f.guid.len() > 0 && valid_guid(f.guid) && hit(f.guid, q) {
            seq![rec(f.name, ty, f.guid, f.id, Seq::empty())]
        } else {
            Seq::empty()
        },
        IdKind::ShortId => if id_hit(f.id, q) {
            seq![rec(f.name, ty, guid_or_empty(f.guid), f.id, Seq::empty())]
        } else {
            Seq::empty()
        },
        IdKind::MediaId => if id_hit(f.id, q) && ty == "Media"@ {
            seq![rec(f.media_name, "Media"@, Seq::empty(), Seq::empty(), f.id)]
        } else {
            Seq::empty()
        },
    }
}

/// The records of a manifest node of type `ty`, kind by kind in the query's order.
pub open spec fn manifest_node_records(f: FieldsView, ty: Seq<char>, kinds: Seq<IdKind>, q: Query) -> Seq<
    RecordView,
>
    decreases kinds.len(),
{
    if kinds.len() == 0 {
        Seq::empty()
    } else {
        manifest_node_records(f, ty, kinds.drop_last(), q) + manifest_kind_records(
            f,
            ty,
            kinds.last(),
            q,
        )
    }
}

fn media_type() -> (r: String)
    ensures
        r@ == "Media"@,
{
    String::from_str("Media")
}

/// Appends the records of a manifest node of type `ty` to `out`.
pub fn emit_node_records(f: &NodeFields, ty: &str, q: &Query, out: &mut Vec<SearchResult>)
    ensures
        views(final(out)@) == views(old(out)@) + manifest_node_records(f@, ty@, q.kinds@, *q),
{
    let ghost start = out@;
    let mut i: usize = 0;
    let id_ok = q.numeric && f.id.unicode_len() > 0 && is_hit(f.id.as_str(), q);
    while i < q.kinds.len()
        invariant
            i <= q.kinds@.len(),
            id_ok == id_hit(f.id@, *q),
            views(out@) == views(start) + manifest_node_records(
                f@,
                ty@,
                q.kinds@.subrange(0, i as int),
                *q,
            ),
        decreases q.kinds.len() - i,
    {
        let ghost before = out@;
        assert(q.kinds@.subrange(0, i + 1).drop_last() =~= q.kinds@.subrange(0, i as int));
        match q.kinds[i] {
            IdKind::Guid => {
                if f.guid.unicode_len() > 0 && is_valid_guid(f.guid.as_str()) && is_hit(
                    f.guid.as_str(),
                    q,
                ) {
                    out.push(
                        SearchResult {
                            name: f.name.clone(),
                            object_type: String::from_str(ty),
                            guid: f.guid.clone(),
                            short_id: f.id.clone(),
                            media_id: String::new(),
                        },
                    );
                }
            },
            IdKind::ShortId => {
                if id_ok {
                    out.push(
                        SearchResult {
                            name: f.name.clone(),
                            object_type: String::from_str(ty),
                            guid: guid_or_empty_string(f.guid.as_str()),
                            short_id: f.id.clone(),
                            media_id: String::new(),
                        },
                    );
                }
            },
            IdKind::MediaId => {
                if id_ok && str_eq(ty, "Media") {
                    out.push(
                        SearchResult {
                            name: f.media_name.clone(),
                            object_type: media_type(),
                            guid: String::new(),
                            short_id: String::new(),
                            media_id: f.id.clone(),
                        },
                    );
                }
            },
        }
        assert(views(out@) =~= views(before) + manifest_kind_records(f@, ty@, q.kinds@[i as int], *q));
        i += 1;
    }
    assert(q.kinds@.subrange(0, i as int) =~= q.kinds@);
}

} // verus!
