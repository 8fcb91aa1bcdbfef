//! Scanning work-unit documents: every element is checked against each
//! requested kind, with no retyping by position.
use vstd::prelude::*;
use crate::guid::valid_guid;
use crate::record::{
    guid_or_empty, guid_or_empty_string, hit, is_hit, rec, views, IdKind, Query, RecordView,
    SearchResult,
};
use crate::text::str_eq;
use crate::xml::{attr, attr_or, XmlElement};

verus! {

/// The label of an object that has none.
pub open spec fn unnamed() -> Seq<char> {
    "unnamed"@
}

/// The label of a work-unit element: its `Name` attribute, else `unnamed`.
pub open spec fn wu_name(e: XmlElement) -> Seq<char> {
    attr_or(e, "Name"@, unnamed())
}

/// The records that kind `k` yields for element `e`, whose grandparent
/// element is `gp`:
/// - a GUID match on an `ID` attribute that is a well-formed GUID;
/// - for a numeric query, a match on a `ShortID` attribute;
/// - for a numeric query, a match on the `ID` of a `MediaID` element,
///   reported for its grandparent (dropped where there is none).
pub open spec fn wu_node_records(e: XmlElement, gp: Option<XmlElement>, k: IdKind, q: Query) -> Seq<
    RecordView,
> {
    match k {
        IdKind::Guid => match attr(e, "ID"@) {
            Some(id) => if valid_guid(id) && hit(id, q) {
                seq![rec(wu_name(e), e.tag@, id, attr_or(e, "ShortID"@, Seq::empty()), Seq::empty())]
            } else {
                Seq::empty()
            },
            None => Seq::empty(),
        },
        IdKind::ShortId => match attr(e, "ShortID"@) {
            Some(sid) => if q.numeric && hit(sid, q) {
                seq![
                    rec(
                        wu_name(e),
                        e.tag@,
                        guid_or_empty(attr_or(e, "ID"@, Seq::empty())),
                        sid,
                        Seq::empty(),
                    ),
                ]
            } else {
                Seq::empty()
            },
            None => Seq::empty(),
        },
        IdKind::MediaId => {
            let media = attr_or(e, "ID"@, Seq::empty());
            if q.numeric && e.tag@ == "MediaID"@ && hit(media, q) {
                match gp {
                    Some(g) => seq![
                        rec(
                            wu_name(g),
                            g.tag@,
                            guid_or_empty(attr_or(g, "ID"@, Seq::empty())),
                            attr_or(g, "ShortID"@, Seq::empty()),
                            media,
                        ),
                    ],
                    None => Seq::empty(),
                }
            } else {
                Seq::empty()
            }
        },
    }
}

/// The records of kind `k` for `e` and its descendants in document order;
/// `p` and `gp` are the parent and grandparent elements of `e`.
pub open spec fn wu_tree_records(
    e: XmlElement,
    p: Option<XmlElement>,
    gp: Option<XmlElement>,
    k: IdKind,
    q: Query,
) -> Seq<RecordView>
    decreases e,
{
    wu_node_records(e, gp, k, q) + wu_children_records(e.children@, e, p, k, q)
}

/// The records of kind `k` below the children `cs` of `parent`, whose own
/// parent is `pp`.
pub open spec fn wu_children_records(
    cs: Seq<XmlElement>,
    parent: XmlElement,
    pp: Option<XmlElement>,
    k: IdKind,
    q: Query,
) -> Seq<RecordView>
    decreases cs,
{
    if cs.len() == 0 {
        Seq::empty()
    } else {
        wu_children_records(cs.subrange(0, cs.len() - 1), parent, pp, k, q) + wu_tree_records(
            cs[cs.len() - 1],
            Some(parent),
            pp,
            k,
            q,
        )
    }
}

/// The records of a document with root element `root` for the kinds `ks`:
/// one full scan per kind, in order.
pub open spec fn wu_kinds_records(root: XmlElement, ks: Seq<IdKind>, q: Query) -> Seq<RecordView>
    decreases ks.len(),
{
    if ks.len() == 0 {
        Seq::empty()
    } else {
        wu_kinds_records(root, ks.drop_last(), q) + wu_tree_records(root, None, None, ks.last(), q)
    }
}

/// The records of a work-unit document with root element `root`.
pub open spec fn wu_document_records(root: XmlElement, q: Query) -> Seq<RecordView> {
    wu_kinds_records(root, q.kinds@, q)
}

/// The records of a corpus, file by file; a file that could not be read or
/// parsed (`None`) contributes nothing.
pub open spec fn corpus_records(docs: Seq<Option<XmlElement>>, q: Query) -> Seq<RecordView>
    decreases docs.len(),
{
    if docs.len() == 0 {
        Seq::empty()
    } else {
        corpus_records(docs.drop_last(), q) + match docs.last() {
            Some(d) => wu_document_records(d, q),
            None => Seq::empty(),
        }
    }
}

/// The element an optional reference points to.
pub open spec fn opt_elem(p: Option<&XmlElement>) -> Option<XmlElement> {
    match p {
        Some(x) => Some(*x),
        None => None,
    }
}

/// Appends the records that kind `k` yields for element `e` alone.
fn emit_wu_node(e: &XmlElement, gp: Option<&XmlElement>, k: IdKind, q: &Query, out: &mut Vec<SearchResult>)
    ensures
        views(final(out)@) == views(old(out)@) + wu_node_records(*e, opt_elem(gp), k, *q),
{
    let ghost start = out@;
    proof {
        reveal_strlit("");
        assert(""@ =~= Seq::<char>::empty());
    }
    match k {
        IdKind::Guid => {
            if let Some(id) = e.attribute("ID") {
                if crate::guid::is_valid_guid(id.as_str()) && is_hit(id.as_str(), q) {
                    out.push(
                        SearchResult {
                            name: e.attribute_or("Name", "unnamed"),
                            object_type: e.tag.clone(),
                            guid: id.clone(),
                            short_id: e.attribute_or("ShortID", ""),
                            media_id: String::new(),
                        },
                    );
                }
            }
        },
        IdKind::ShortId => {
            if let Some(sid) = e.attribute("ShortID") {
                if q.numeric && is_hit(sid.as_str(), q) {
                    let id = e.attribute_or("ID", "");
                    out.push(
                        SearchResult {
                            name: e.attribute_or("Name", "unnamed"),
                            object_type: e.tag.clone(),
                            guid: guid_or_empty_string(id.as_str()),
                            short_id: sid.clone(),
                            media_id: String::new(),
                        },
                    );
                }
            }
        },
        IdKind::MediaId => {
            if q.numeric && str_eq(e.tag.as_str(), "MediaID") {
                let media = e.attribute_or("ID", "");
                if is_hit(media.as_str(), q) {
                    if let Some(g) = gp {
                        let gid = g.attribute_or("ID", "");
                        out.push(
                            SearchResult {
                                name: g.attribute_or("Name", "unnamed"),
                                object_type: g.tag.clone(),
                                guid: guid_or_empty_string(gid.as_str()),
                                short_id: g.attribute_or("ShortID", ""),
                                media_id: media,
                            },
                        );
                    }
                }
            }
        },
    }
    assert(views(out@) =~= views(start) + wu_node_records(*e, opt_elem(gp), k, *q));
}

/// Appends the records of kind `k` for `e` and its descendants, in document
/// order; `p` and `gp` are the parent and grandparent elements of `e`.
pub fn scan_tree(
    e: &XmlElement,
    p: Option<&XmlElement>,
    gp: Option<&XmlElement>,
    k: IdKind,
    q: &Query,
    out: &mut Vec<SearchResult>,
)
    ensures
        views(final(out)@) == views(old(out)@) + wu_tree_records(*e, opt_elem(p), opt_elem(gp), k, *q),
    decreases e,
{
    let ghost start = out@;
    emit_wu_node(e, gp, k, q, out);
    let ghost mid = out@;
    let mut i: usize = 0;
    while i < e.children.len()
        invariant
            i <= e.children@.len(),
            views(mid) == views(start) + wu_node_records(*e, opt_elem(gp), k, *q),
            views(out@) == views(mid) + wu_children_records(
                e.children@.subrange(0, i as int),
                *e,
                opt_elem(p),
                k,
                *q,
            ),
        decreases e.children.len() - i,
    {
        assert(e.children@.subrange(0, i + 1).subrange(0, i as int) =~= e.children@.subrange(
            0,
            i as int,
        ));
        scan_tree(&e.children[i], Some(e), p, k, q, out);
        assert(views(out@) =~= views(mid) + wu_children_records(
            e.children@.subrange(0, i + 1),
            *e,
            opt_elem(p),
            k,
            *q,
        ));
        i += 1;
    }
    assert(e.children@.subrange(0, i as int) =~= e.children@);
}

/// Searches one work-unit document whose root element is `root`.
pub fn search_work_unit(root: &XmlElement, q: &Query) -> (r: Vec<SearchResult>)
    ensures
        views(r@) == wu_document_records(*root, *q),
{
    let mut out: Vec<SearchResult> = Vec::new();
    let mut i: usize = 0;
    while i < q.kinds.len()
        invariant
            i <= q.kinds@.len(),
            views(out@) == wu_kinds_records(*root, q.kinds@.subrange(0, i as int), *q),
        decreases q.kinds.len() - i,
    {
        assert(q.kinds@.subrange(0, i + 1).drop_last() =~= q.kinds@.subrange(0, i as int));
        scan_tree(root, None, None, q.kinds[i], q, &mut out);
        i += 1;
    }
    assert(q.kinds@.subrange(0, i as int) =~= q.kinds@);
    out
}

} // verus!
