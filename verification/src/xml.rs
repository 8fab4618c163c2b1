//! The XML side of the parser: a well-formed document is read once, through
//! a trusted call, into a flat list of its nodes in document order, each
//! with its tag, attributes, text and nesting depth. All schema logic then
//! works on that list and is verified.
//!
//! Depth makes subtrees recoverable without tree pointers: the nodes of the
//! subtree rooted at position `i` are exactly the run of positions after
//! `i` whose depth stays greater than the depth at `i`.

use vstd::prelude::*;

use crate::strutil::str_eq;

verus! {

/// One node of a parsed document, in document order.
pub struct XmlNode {
    /// Is this an element node? Text and comment nodes are carried too,
    /// with an empty tag, so that positions keep document order.
    pub is_elem: bool,
    /// The element's local tag name; empty for non-elements.
    pub tag: String,
    /// The attributes, in document order: local name and value.
    pub attrs: Vec<(String, String)>,
    /// For an element, its first text child, if that child is a text node;
    /// for a text node, its own text.
    pub text: Option<String>,
    /// The length of the ancestor chain up from this node.
    pub depth: usize,
}

/// The mathematical value of an [`XmlNode`].
pub ghost struct XmlNodeSpec {
    pub is_elem: bool,
    pub tag: Seq<char>,
    pub attrs: Seq<(Seq<char>, Seq<char>)>,
    pub text: Option<Seq<char>>,
    pub depth: usize,
}

impl View for XmlNode {
    type V = XmlNodeSpec;

    open spec fn view(&self) -> XmlNodeSpec {
        XmlNodeSpec {
            is_elem: self.is_elem,
            tag: self.tag@,
            attrs: self.attrs.deep_view(),
            text: self.text.deep_view(),
            depth: self.depth,
        }
    }
}

impl DeepView for XmlNode {
    type V = XmlNodeSpec;

    open spec fn deep_view(&self) -> XmlNodeSpec {
        self.view()
    }
}

/// What parsing an XML text yields: `None` when the text is not
/// well-formed, otherwise the nodes of the root element's subtree in
/// document order. Parsing is a function of the text alone.
pub uninterp spec fn xml_elements_of(s: Seq<char>) -> Option<Seq<XmlNodeSpec>>;

/// Relies on `roxmltree::Document::parse` and the node accessors
/// `descendants`, `is_element`, `tag_name`, `attributes`, `name`, `value`,
/// `text` and `ancestors`: parsing is deterministic in the text alone;
/// `descendants` yields the root element first and then its subtree in
/// document order; `ancestors` walks the parent chain starting at the node
/// itself, so its length orders nodes by nesting depth.
#[verifier::external_body]
pub(crate) fn parse_xml_nodes(raw: &str) -> (r: Result<Vec<XmlNode>, String>)
    ensures
        r matches Ok(v) ==> xml_elements_of(raw@) == Some(v.deep_view()),
        r matches Err(_) ==> xml_elements_of(raw@) is None,
{
    match roxmltree::Document::parse(raw) {
        Ok(doc) => Ok(doc.root_element().descendants().map(|n| XmlNode {
            is_elem: n.is_element(),
            tag: n.tag_name().name().to_string(),
            attrs: n.attributes().map(|a| (a.name().to_string(), a.value().to_string())).collect(),
            text: n.text().map(|t| t.to_string()),
            depth: n.ancestors().count(),
        }).collect()),
        Err(e) => Err(e.to_string()),
    }
}

/// Is this node an element with the given tag?
pub open spec fn is_tagged(n: XmlNodeSpec, t: Seq<char>) -> bool {
    n.is_elem && n.tag == t
}

/// The exec tag test, proved against `is_tagged`.
pub(crate) fn node_is_tagged(n: &XmlNode, t: &str) -> (r: bool)
    ensures
        r == is_tagged(n.deep_view(), t@),
{
    n.is_elem && str_eq(n.tag.as_str(), t)
}

/// The first attribute of `n` with the given name, scanning from
/// position `i`.
pub open spec fn attr_from(
    attrs: Seq<(Seq<char>, Seq<char>)>,
    name: Seq<char>,
    i: int,
) -> Option<Seq<char>>
    decreases attrs.len() - i,
{
    if i < 0 || i >= attrs.len() {
        None
    } else if attrs[i].0 == name {
        Some(attrs[i].1)
    } else {
        attr_from(attrs, name, i + 1)
    }
}

/// The value of the first attribute of `n` named `name`.
pub open spec fn attr_of(n: XmlNodeSpec, name: Seq<char>) -> Option<Seq<char>> {
    attr_from(n.attrs, name, 0)
}

/// Looks an attribute up by name, as `attr_of` says.
pub(crate) fn find_attr(n: &XmlNode, name: &str) -> (r: Option<String>)
    ensures
        match r {
            Some(v) => attr_of(n.deep_view(), name@) == Some(v@),
            None => attr_of(n.deep_view(), name@) is None,
        },
{
    let mut i: usize = 0;
    while i < n.attrs.len()
        invariant
            0 <= i <= n.attrs.len(),
            attr_from(n.deep_view().attrs, name@, 0) == attr_from(n.deep_view().attrs, name@, i as int),
        decreases n.attrs.len() - i,
    {
        proof {
            assert(n.deep_view().attrs[i as int] == n.attrs@[i as int].deep_view());
        }
        if str_eq(n.attrs[i].0.as_str(), name) {
            return Some(n.attrs[i].1.clone());
        }
        i = i + 1;
    }
    None
}

/// The positions in `lo .. hi` of the elements with the given tag, in
/// document order.
pub open spec fn tagged_indices(ns: Seq<XmlNodeSpec>, lo: int, hi: int, t: Seq<char>) -> Seq<int>
    decreases hi - lo,
{
    if hi <= lo {
        Seq::empty()
    } else {
        let r = tagged_indices(ns, lo, hi - 1, t);
        if is_tagged(ns[hi - 1], t) {
            r.push(hi - 1)
        } else {
            r
        }
    }
}

/// Where the subtree that starts below position `j - 1` ends: the first
/// position at or after `j` whose depth does not exceed `d`, or the length
/// of the list.
pub open spec fn subtree_end_from(ns: Seq<XmlNodeSpec>, d: usize, j: int) -> int
    decreases ns.len() - j,
{
    if j < 0 || j >= ns.len() {
        ns.len() as int
    } else if ns[j].depth <= d {
        j
    } else {
        subtree_end_from(ns, d, j + 1)
    }
}

/// Scans forward for the end of the subtree whose nodes have depth above
/// `d`, as `subtree_end_from` says.
pub(crate) fn subtree_end(ns: &Vec<XmlNode>, d: usize, start: usize) -> (r: usize)
    requires
        start <= ns@.len(),
    ensures
        r == subtree_end_from(ns.deep_view(), d, start as int),
        start <= r <= ns@.len(),
{
    let mut j = start;
    while j < ns.len()
        invariant
            start <= j <= ns@.len(),
            subtree_end_from(ns.deep_view(), d, start as int) == subtree_end_from(
                ns.deep_view(),
                d,
                j as int,
            ),
        decreases ns.len() - j,
    {
        proof {
            assert(ns.deep_view()[j as int] == ns@[j as int].deep_view());
        }
        if ns[j].depth <= d {
            return j;
        }
        j = j + 1;
    }
    j
}

} // verus!
