//! Link extraction: parse HTML text into a document tree and collect the
//! target of every anchor.

use vstd::prelude::*;
use vstd::string::{StringExecFns, StringSliceAdditionalSpecFns};
use vstd::utf8::{decode_utf8, decode_utf8_encode_utf8, valid_utf8};
use std::rc::Rc;
use html5ever::tendril::TendrilSink;
use crate::dom::{
    data_of, elements_by_name, elements_in_children, hrefs_in, hrefs_of_all,
    lemma_anchor_targets_are_links, links_of, own_match, texts_of, Attribute, DomNode, NodeData,
};

verus! {

/// The longest source, in bytes, that is parsed: 512 MiB. The parser keeps
/// each piece of text in a buffer whose capacity is a power of two below
/// 2^32, and may write three bytes for one byte read; a source within this
/// limit keeps every buffer within that.
pub const MAX_SOURCE_BYTES: usize = 0x2000_0000;

/// A node of the reference-counted tree that `html5ever` builds. Nothing of
/// its inside is visible to the proofs; it is only handed on to be copied.
#[verifier::external_type_specification]
#[verifier::external_body]
pub struct ExRcNode(html5ever::rcdom::Node);

/// The document tree that the HTML parsing algorithm yields for `source`: the
/// document root with everything below it.
pub uninterp spec fn parsed_document(source: Seq<char>) -> DomNode;

/// Copies a node of `html5ever::rcdom` and, child by child, the subtree below
/// it: an element keeps its local tag name and, in order, the local name and
/// the value of each attribute; every other kind of node becomes
/// `NodeData::Other`. Nothing is claimed of the copy.
#[verifier::external_body]
fn lift_node(handle: &Rc<html5ever::rcdom::Node>) -> DomNode {
    let children = handle.children.borrow().iter().map(lift_node).collect();
    let data = match handle.data {
        html5ever::rcdom::NodeData::Element { ref name, ref attrs, .. } => NodeData::Element {
            name: name.local.to_string(),
            attrs: attrs.borrow().iter().map(|a| Attribute {
                name: a.name.local.to_string(),
                value: a.value.to_string(),
            }).collect(),
        },
        _ => NodeData::Other,
    };
    DomNode { data, children }
}

/// Runs `html5ever::parse_document` with an `RcDom` sink and the default
/// options, feeds it the bytes of `source` through `from_utf8` and
/// `read_from`, and copies the resulting tree. Reading from a slice never
/// fails, and the parser recovers from any malformed markup, so every source
/// within the size limit has a tree; the tree depends on the text alone, and
/// the contract only gives it its name.
#[verifier::external_body]
fn parse_tree(source: &str) -> (document: DomNode)
    requires
        source.spec_bytes().len() <= MAX_SOURCE_BYTES,
    ensures
        document == parsed_document(source@),
{
    let sink = html5ever::rcdom::RcDom::default();
    let parser = html5ever::parse_document(sink, Default::default()).from_utf8();
    let dom = parser.read_from(&mut source.as_bytes()).unwrap();
    lift_node(&dom.document)
}

/// Decodes `bytes` with `core::str::from_utf8`: the text they encode when they
/// are valid UTF-8, nothing otherwise.
#[verifier::external_body]
fn decode_text(bytes: &[u8]) -> (text: Option<&str>)
    ensures
        text is Some <==> valid_utf8(bytes@),
        text matches Some(s) ==> s@ == decode_utf8(bytes@),
{
    core::str::from_utf8(bytes).ok()
}

/// Parses HTML text into its document tree. Malformed markup is recovered
/// from, never rejected.
pub fn parse_html(source: &str) -> (document: DomNode)
    requires
        source.spec_bytes().len() <= MAX_SOURCE_BYTES,
    ensures
        document == parsed_document(source@),
{
    parse_tree(source)
}

/// Appends to `output` every element named `element_name` in the subtree
/// rooted at `node`, depth-first and pre-order. Nodes that are not elements
/// contribute nothing themselves, but their children are still visited.
pub fn get_elements_by_name<'a>(
    node: &'a DomNode,
    element_name: &str,
    output: &mut Vec<&'a NodeData>,
)
    ensures
        data_of(final(output)@) == data_of(old(output)@) + elements_by_name(
            *node,
            element_name@,
        ),
    decreases *node,
{
    let needle = String::from_str(element_name);
    if let NodeData::Element { name, .. } = &node.data {
        if *name == needle {
            output.push(&node.data);
        }
    }
    assert(data_of(output@) =~= data_of(old(output)@) + own_match(*node, element_name@));
    let mut i: usize = 0;
    while i < node.children.len()
        invariant
            i <= node.children@.len(),
            data_of(output@) == data_of(old(output)@) + own_match(*node, element_name@)
                + elements_in_children(*node, element_name@, i as nat),
        decreases node.children@.len() - i,
    {
        get_elements_by_name(&node.children[i], element_name, output);
        i += 1;
        assert(data_of(output@) =~= data_of(old(output)@) + own_match(*node, element_name@)
                + elements_in_children(*node, element_name@, i as nat));
    }
}

/// The link set of the document rooted at `node`: the value of every `href`
/// attribute of every anchor element, in document order, unresolved and with
/// duplicates kept.
pub fn get_urls(node: &DomNode) -> (urls: Vec<String>)
    ensures
        texts_of(urls@) == links_of(*node),
{
    let mut anchors: Vec<&NodeData> = Vec::new();
    get_elements_by_name(node, "a", &mut anchors);
    let ghost found = data_of(anchors@);
    assert(found =~= elements_by_name(*node, "a"@));
    let needle = String::from_str("href");
    let mut urls: Vec<String> = Vec::new();
    assert(texts_of(urls@) =~= hrefs_of_all(found.take(0)));
    let mut i: usize = 0;
    while i < anchors.len()
        invariant
            i <= anchors@.len(),
            found == data_of(anchors@),
            needle@ == "href"@,
            texts_of(urls@) == hrefs_of_all(found.take(i as int)),
        decreases anchors@.len() - i,
    {
        let ghost before = texts_of(urls@);
        if let NodeData::Element { attrs, .. } = anchors[i] {
            let mut j: usize = 0;
            assert(texts_of(urls@) =~= before + hrefs_in(attrs@, 0));
            while j < attrs.len()
                invariant
                    j <= attrs@.len(),
                    needle@ == "href"@,
                    texts_of(urls@) == before + hrefs_in(attrs@, j as nat),
                decreases attrs@.len() - j,
            {
                let ghost seen = texts_of(urls@);
                if attrs[j].name == needle {
                    urls.push(attrs[j].value.clone());
                    assert(texts_of(urls@) =~= seen.push(attrs@[j as int].value@));
                }
                j += 1;
                assert(texts_of(urls@) =~= before + hrefs_in(attrs@, j as nat));
            }
        }
        i += 1;
        proof {
            let upto = found.take(i as int);
            assert(upto.drop_last() =~= found.take(i - 1));
            assert(upto.last() == *anchors@[i - 1]);
            assert(texts_of(urls@) =~= hrefs_of_all(upto));
        }
    }
    proof {
        assert(found.take(i as int) =~= found);
        lemma_anchor_targets_are_links(*node);
    }
    urls
}

/// Every link target in `html_source`: the text is parsed into a document
/// tree, and the tree's link set is returned.
pub fn extract_links(html_source: &str) -> (links: Vec<String>)
    requires
        html_source.spec_bytes().len() <= MAX_SOURCE_BYTES,
    ensures
        texts_of(links@) == links_of(parsed_document(html_source@)),
{
    let document = parse_html(html_source);
    get_urls(&document)
}

/// The link set of a fetched body. A body that is valid UTF-8 is decoded and
/// its links extracted; any other body yields no links rather than a failure.
pub fn links_of_body(body: &[u8]) -> (links: Vec<String>)
    requires
        body@.len() <= MAX_SOURCE_BYTES,
    ensures
        valid_utf8(body@) ==> texts_of(links@) == links_of(
            parsed_document(decode_utf8(body@)),
        ),
        !valid_utf8(body@) ==> links@.len() == 0,
{
    match decode_text(body) {
        Some(text) => {
            proof {
                decode_utf8_encode_utf8(body@);
            }
            extract_links(text)
        },
        None => Vec::new(),
    }
}

/// Extraction is a function of the text alone: whatever two runs over the
/// same source return, they return the same targets in the same order.
pub proof fn extraction_is_repeatable(source: Seq<char>, first: Seq<String>, second: Seq<String>)
    requires
        texts_of(first) == links_of(parsed_document(source)),
        texts_of(second) == links_of(parsed_document(source)),
    ensures
        first.len() == second.len(),
        forall|i: int| 0 <= i < first.len() ==> first[i]@ == second[i]@,
{
    assert(texts_of(first).len() == first.len());
    assert(texts_of(second).len() == second.len());
    assert forall|i: int| 0 <= i < first.len() implies first[i]@ == second[i]@ by {
        assert(texts_of(first)[i] == first[i]@);
        assert(texts_of(second)[i] == second[i]@);
    }
}

} // verus!
