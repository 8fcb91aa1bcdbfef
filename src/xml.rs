//! XML elements as the search reads them: a tag, attributes, the leading text,
//! and child elements.
use vstd::prelude::*;
use crate::text::str_eq;

verus! {

/// One attribute of an element.
#[derive(Debug, Clone)]
pub struct Attribute {
    pub name: String,
    pub value: String,
}

/// An element: its local tag name, its attributes in document order, the text
/// that opens its content (if any), and its child elements in document order.
#[derive(Debug)]
pub struct XmlElement {
    pub tag: String,
    pub attributes: Vec<Attribute>,
    pub text: Option<String>,
    pub children: Vec<XmlElement>,
}

/// The value of the first attribute named `key` at index `i` or later.
pub open spec fn attr_from(attrs: Seq<Attribute>, key: Seq<char>, i: int) -> Option<Seq<char>>
    decreases attrs.len() - i,
{
    if i < 0 || i >= attrs.len() {
        None
    } else if attrs[i].name@ == key {
        Some(attrs[i].value@)
    } else {
        attr_from(attrs, key, i + 1)
    }
}

/// The value of the attribute named `key`, if the element has one.
pub open spec fn attr(e: XmlElement, key: Seq<char>) -> Option<Seq<char>> {
    attr_from(e.attributes@, key, 0)
}

/// The value of the attribute named `key`, or `dflt` without one.
pub open spec fn attr_or(e: XmlElement, key: Seq<char>, dflt: Seq<char>) -> Seq<char> {
    match attr(e, key) {
        Some(v) => v,
        None => dflt,
    }
}

/// The index of the first element of `es` at `i` or later whose tag is `t1` or `t2`.
pub open spec fn first_tagged_from(es: Seq<XmlElement>, t1: Seq<char>, t2: Seq<char>, i: int) -> Option<
    int,
>
    decreases es.len() - i,
{
    if i < 0 || i >= es.len() {
        None
    } else if es[i].tag@ == t1 || es[i].tag@ == t2 {
        Some(i)
    } else {
        first_tagged_from(es, t1, t2, i + 1)
    }
}

impl XmlElement {
    /// The value of the attribute named `key`, if any.
    pub fn attribute(&self, key: &str) -> (r: Option<&String>)
        ensures
            match r {
                Some(v) => attr(*self, key@) == Some(v@),
                None => attr(*self, key@) is None,
            },
    {
        let mut i: usize = 0;
        while i < self.attributes.len()
            invariant
                i <= self.attributes@.len(),
                attr(*self, key@) == attr_from(self.attributes@, key@, i as int),
            decreases self.attributes.len() - i,
        {
            if str_eq(self.attributes[i].name.as_str(), key) {
                return Some(&self.attributes[i].value);
            }
            i += 1;
        }
        None
    }

    /// The value of the attribute named `key`, or `dflt` without one.
    pub fn attribute_or(&self, key: &str, dflt: &str) -> (r: String)
        ensures
            r@ == attr_or(*self, key@, dflt@),
    {
        match self.attribute(key) {
            Some(v) => v.clone(),
            None => String::from_str(dflt),
        }
    }

    /// The first child element whose tag is `t1` or `t2`.
    pub fn first_child_tagged(&self, t1: &str, t2: &str) -> (r: Option<usize>)
        ensures
            r matches Some(i) ==> i < self.children@.len(),
            match r {
                Some(i) => first_tagged_from(self.children@, t1@, t2@, 0) == Some(i as int),
                None => first_tagged_from(self.children@, t1@, t2@, 0) is None,
            },
    {
        let mut i: usize = 0;
        while i < self.children.len()
            invariant
                i <= self.children@.len(),
                first_tagged_from(self.children@, t1@, t2@, 0) == first_tagged_from(
                    self.children@,
                    t1@,
                    t2@,
                    i as int,
                ),
            decreases self.children.len() - i,
        {
            let t = self.children[i].tag.as_str();
            if str_eq(t, t1) || str_eq(t, t2) {
                return Some(i);
            }
            i += 1;
        }
        None
    }
}

} // verus!
