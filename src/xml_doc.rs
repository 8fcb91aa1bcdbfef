//! Parsing XML text into elements: the parser lists the document's nodes in
//! document order, and the element tree is rebuilt from that list.
use vstd::prelude::*;
use crate::xml::{Attribute, XmlElement};

verus! {

/// An attribute as the parser reports it, with its namespace URI if any.
pub struct XmlAttr {
    pub name: String,
    pub value: String,
    pub namespace: Option<String>,
}

/// A node of a parsed document: whether it is an element, its local tag name
/// (empty for other nodes), its attributes, its leading text, and the index
/// of its parent node in the document's node list.
pub struct XmlNode {
    pub element: bool,
    pub tag: String,
    pub attributes: Vec<XmlAttr>,
    pub text: Option<String>,
    pub parent: Option<usize>,
}

/// The value of an attribute: name, value, namespace.
pub type AttrView = (Seq<char>, Seq<char>, Option<Seq<char>>);

/// The mathematical value of an `XmlNode`.
pub struct NodeView {
    pub element: bool,
    pub tag: Seq<char>,
    pub attributes: Seq<AttrView>,
    pub text: Option<Seq<char>>,
    pub parent: Option<int>,
}

/// The characters of an optional string.
pub open spec fn opt_view(o: Option<String>) -> Option<Seq<char>> {
    match o {
        Some(s) => Some(s@),
        None => None,
    }
}

/// The value of an attribute.
pub open spec fn attr_view(a: XmlAttr) -> AttrView {
    (a.name@, a.value@, opt_view(a.namespace))
}

/// The value of a node.
pub open spec fn node_view(n: XmlNode) -> NodeView {
    NodeView {
        element: n.element,
        tag: n.tag@,
        attributes: n.attributes@.map_values(|a: XmlAttr| attr_view(a)),
        text: opt_view(n.text),
        parent: match n.parent {
            Some(p) => Some(p as int),
            None => None,
        },
    }
}

/// The values of a node list.
pub open spec fn nodes_view(ns: Seq<XmlNode>) -> Seq<NodeView> {
    ns.map_values(|n: XmlNode| node_view(n))
}

/// The node list that the XML parser gives for a text, or `None` where the
/// text is not a well-formed document.
pub uninterp spec fn parsed_nodes(text: Seq<char>) -> Option<Seq<NodeView>>;

/// Relies on `roxmltree::Document::parse`, and on `Document::descendants`,
/// which lists every node of the document in document order, so that a
/// node's `NodeId` is its index in the list.
#[verifier::external_body]
fn parse_nodes(text: &str) -> (r: Result<Vec<XmlNode>, String>)
    ensures
        match r {
            Ok(ns) => parsed_nodes(text@) == Some(nodes_view(ns@)),
            Err(_) => parsed_nodes(text@) is None,
        },
{
    let doc = roxmltree::Document::parse(text).map_err(|e| e.to_string())?;
    Ok(doc.descendants().map(|n| XmlNode {
        element: n.is_element(),
        tag: n.tag_name().name().to_string(),
        attributes: n.attributes().map(|a| XmlAttr {
            name: a.name().to_string(),
            value: a.value().to_string(),
            namespace: a.namespace().map(|u| u.to_string()),
        }).collect(),
        text: n.text().map(|t| t.to_string()),
        parent: n.parent().map(|p| p.id().get_usize()),
    }).collect())
}

/// The element children of node `i` among the nodes from index `j` on. In
/// document order a node's descendants follow it directly, so the scan
/// stops at the first node whose parent is absent or precedes `i`.
pub open spec fn kids_from(ns: Seq<NodeView>, i: int, j: int) -> Seq<int>
    decreases ns.len() - j,
{
    if j < 0 || j >= ns.len() {
        Seq::empty()
    } else {
        match ns[j].parent {
            Some(p) => if p >= i {
                (if p == i && ns[j].element {
                    seq![j]
                } else {
                    Seq::empty()
                }) + kids_from(ns, i, j + 1)
            } else {
                Seq::empty()
            },
            None => Seq::empty(),
        }
    }
}

/// The indices of the element children of node `i`, in document order.
pub open spec fn kids(ns: Seq<NodeView>, i: int) -> Seq<int> {
    kids_from(ns, i, i + 1)
}

/// The attributes without a namespace, as name and value, in order.
pub open spec fn plain_attrs(a: Seq<AttrView>) -> Seq<(Seq<char>, Seq<char>)>
    decreases a.len(),
{
    if a.len() == 0 {
        Seq::empty()
    } else {
        plain_attrs(a.drop_last()) + if a.last().2 is None {
            seq![(a.last().0, a.last().1)]
        } else {
            Seq::empty()
        }
    }
}

/// The names and values of a list of attributes.
pub open spec fn attr_pairs(a: Seq<Attribute>) -> Seq<(Seq<char>, Seq<char>)> {
    a.map_values(|x: Attribute| (x.name@, x.value@))
}

/// `e` is the element that starts at node `i`: same tag, attributes without
/// a namespace and leading text, and one child per element child of the
/// node, in order.
pub open spec fn tree_at(ns: Seq<NodeView>, i: int, e: XmlElement) -> bool
    decreases e,
{
    &&& 0 <= i < ns.len()
    &&& ns[i].element
    &&& e.tag@ == ns[i].tag
    &&& attr_pairs(e.attributes@) == plain_attrs(ns[i].attributes)
    &&& opt_view(e.text) == ns[i].text
    &&& e.children@.len() == kids(ns, i).len()
    &&& forall|k: int|
        0 <= k < e.children@.len() ==> tree_at(ns, kids(ns, i)[k], #[trigger] e.children@[k])
}

/// The index of the document's root element: the first element child of
/// the first node.
pub open spec fn root_index(ns: Seq<NodeView>) -> Option<int> {
    if ns.len() > 0 && kids(ns, 0).len() > 0 {
        Some(kids(ns, 0)[0])
    } else {
        None
    }
}

/// Why a text could not be read as an XML document.
#[derive(Debug, Clone, PartialEq, Eq)]
pub enum XmlError {
    /// The parser rejected the text; its message.
    Syntax(String),
    /// The document holds no element.
    NoRootElement,
}

fn clone_opt(o: &Option<String>) -> (r: Option<String>)
    ensures
        opt_view(r) == opt_view(*o),
{
    match o {
        Some(s) => Some(s.clone()),
        None => None,
    }
}

/// The attributes of `n` that have no namespace.
fn plain_attributes(n: &XmlNode) -> (r: Vec<Attribute>)
    ensures
        attr_pairs(r@) == plain_attrs(node_view(*n).attributes),
{
    let ghost av = node_view(*n).attributes;
    let mut r: Vec<Attribute> = Vec::new();
    let mut k: usize = 0;
    while k < n.attributes.len()
        invariant
            k <= n.attributes@.len(),
            av == n.attributes@.map_values(|a: XmlAttr| attr_view(a)),
            attr_pairs(r@) == plain_attrs(av.subrange(0, k as int)),
        decreases n.attributes.len() - k,
    {
        let a = &n.attributes[k];
        assert(av.subrange(0, k + 1).drop_last() =~= av.subrange(0, k as int));
        assert(av.subrange(0, k + 1).last() == attr_view(*a));
        if a.namespace.is_none() {
            r.push(Attribute { name: a.name.clone(), value: a.value.clone() });
        }
        assert(attr_pairs(r@) =~= plain_attrs(av.subrange(0, k + 1)));
        k += 1;
    }
    assert(av.subrange(0, k as int) =~= av);
    r
}

/// Whether node `n` lies after node `i` inside its subtree, judged by its parent.
fn continues_subtree(n: &XmlNode, i: usize) -> (r: bool)
    ensures
        r == (n.parent matches Some(p) && p >= i),
{
    match n.parent {
        Some(p) => p >= i,
        None => false,
    }
}

/// The element that starts at node `i`, with all its descendants.
pub fn build_element(ns: &Vec<XmlNode>, i: usize) -> (r: XmlElement)
    requires
        i < ns@.len(),
        ns@[i as int].element,
    ensures
        tree_at(nodes_view(ns@), i as int, r),
    decreases ns@.len() - i,
{
    let ghost nv = nodes_view(ns@);
    let mut children: Vec<XmlElement> = Vec::new();
    let ghost mut acc: Seq<int> = Seq::empty();
    let len = ns.len();
    let mut j: usize = i + 1;
    while j < len && continues_subtree(&ns[j], i)
        invariant
            nv == nodes_view(ns@),
            len == ns@.len(),
            i < j <= ns@.len(),
            kids(nv, i as int) == acc + kids_from(nv, i as int, j as int),
            children@.len() == acc.len(),
            forall|m: int| 0 <= m < acc.len() ==> tree_at(nv, acc[m], #[trigger] children@[m]),
        decreases ns@.len() - j,
    {
        assert(nv[j as int] == node_view(ns@[j as int]));
        if ns[j].parent == Some(i) && ns[j].element {
            let c = build_element(ns, j);
            children.push(c);
            proof {
                assert(acc.push(j as int) + kids_from(nv, i as int, j + 1) =~= acc + kids_from(
                    nv,
                    i as int,
                    j as int,
                ));
                acc = acc.push(j as int);
            }
        } else {
            assert(acc + kids_from(nv, i as int, j + 1) =~= acc + kids_from(
                nv,
                i as int,
                j as int,
            ));
        }
        j += 1;
    }
    assert(kids_from(nv, i as int, j as int) =~= Seq::<int>::empty());
    assert(acc + Seq::<int>::empty() =~= acc);
    let n = &ns[i];
    assert(nv[i as int] == node_view(*n));
    let r = XmlElement {
        tag: n.tag.clone(),
        attributes: plain_attributes(n),
        text: clone_opt(&n.text),
        children,
    };
    assert forall|k: int| 0 <= k < r.children@.len() implies tree_at(
        nv,
        kids(nv, i as int)[k],
        #[trigger] r.children@[k],
    ) by {
        assert(r.children@[k] == children@[k]);
    }
    r
}

/// The root element of a node list, rebuilt as a tree; `None` where the list
/// holds no element below its first node.
pub fn element_tree(ns: &Vec<XmlNode>) -> (r: Option<XmlElement>)
    ensures
        r is Some <==> root_index(nodes_view(ns@)) is Some,
        r matches Some(e) ==> tree_at(nodes_view(ns@), root_index(nodes_view(ns@))->0, e),
{
    let ghost nv = nodes_view(ns@);
    if ns.len() == 0 {
        return None;
    }
    let mut j: usize = 1;
    while j < ns.len() && continues_subtree(&ns[j], 0)
        invariant
            nv == nodes_view(ns@),
            1 <= j <= ns@.len(),
            kids(nv, 0) == kids_from(nv, 0, j as int),
        decreases ns@.len() - j,
    {
        assert(nv[j as int] == node_view(ns@[j as int]));
        if ns[j].parent == Some(0) && ns[j].element {
            assert(kids_from(nv, 0, j as int)[0] == j as int);
            return Some(build_element(ns, j));
        }
        assert(kids_from(nv, 0, j as int) =~= kids_from(nv, 0, j + 1));
        j += 1;
    }
    None
}

/// Parses an XML document into its root element.
pub fn parse_xml(text: &str) -> (r: Result<XmlElement, XmlError>)
    ensures
        match r {
            Ok(e) => parsed_nodes(text@) matches Some(nv) && root_index(nv) matches Some(i)
                && tree_at(nv, i, e),
            Err(XmlError::Syntax(_)) => parsed_nodes(text@) is None,
            Err(XmlError::NoRootElement) => parsed_nodes(text@) matches Some(nv) && root_index(
                nv,
            ) is None,
        },
{
    match parse_nodes(text) {
        Ok(ns) => match element_tree(&ns) {
            Some(e) => Ok(e),
            None => Err(XmlError::NoRootElement),
        },
        Err(msg) => Err(XmlError::Syntax(msg)),
    }
}

} // verus!
