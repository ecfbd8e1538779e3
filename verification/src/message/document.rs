//! Reading XML documents with the `xmltree` crate.
//!
//! An [`Element`] is opaque to the verifier. It is modelled by its child
//! nodes, as far as the library reads them, and the contracts of the
//! wrappers say over that model what `xmltree` does. They are assumed, not
//! proved.
//!
//! `xmltree` builds the tree by recursion, one call for each level of
//! nesting, so a document that nests without end would exhaust the stack.
//! [`parse_document`] therefore looks at the bytes first and hands the
//! parser only a document whose nesting they bound: one that opens at most
//! [`MAX_DEPTH`] elements and declares no entity. What stands in comments,
//! texts and attributes is not told apart from markup, so the bound counts
//! every element of the document, nested or not.

use vstd::prelude::*;
use xmltree::Element;
use xmltree::ParseError as TreeError;

use crate::message::error::{ParseError, ParseErrorView};

verus! {

/// Declares `xmltree::Element` as a type whose inside the verifier does not
/// see.
#[verifier::external_type_specification]
#[verifier::external_body]
pub struct ExElement(Element);

/// Declares `xmltree::ParseError` as a type whose inside the verifier does
/// not see.
#[verifier::external_type_specification]
#[verifier::external_body]
pub struct ExTreeError(TreeError);

/// A node of a document. Character data counts as text. Comments and
/// processing instructions are `Other`.
pub enum Node {
    Element { name: Seq<char>, children: Seq<Node> },
    Text(Seq<char>),
    Other,
}

/// The child nodes of `element`, in the order of the document.
pub uninterp spec fn children(element: Element) -> Seq<Node>;

/// The child nodes of the root element that `xmltree::Element::parse` builds
/// from `bytes`, or `None` where it reports an error.
pub uninterp spec fn parsed_children(bytes: Seq<u8>) -> Option<Seq<Node>>;

/// The children of the first element among `nodes` whose tag is `name`.
pub open spec fn first_child(nodes: Seq<Node>, name: Seq<char>) -> Option<Seq<Node>>
    decreases nodes.len(),
{
    if nodes.len() == 0 {
        None
    } else if nodes.first() is Element && nodes.first()->name == name {
        Some(nodes.first()->children)
    } else {
        first_child(nodes.drop_first(), name)
    }
}

/// The texts among `nodes`, one after the other.
pub open spec fn joined_text(nodes: Seq<Node>) -> Seq<char>
    decreases nodes.len(),
{
    if nodes.len() == 0 {
        Seq::empty()
    } else {
        joined_text(nodes.drop_last()) + match nodes.last() {
            Node::Text(text) => text,
            _ => Seq::empty(),
        }
    }
}

/// The text of an element with the children `nodes`: all its texts joined,
/// or `None` if it has no text node at all.
pub open spec fn text_of(nodes: Seq<Node>) -> Option<Seq<char>> {
    if exists|i: int| 0 <= i < nodes.len() && nodes[i] is Text {
        Some(joined_text(nodes))
    } else {
        None
    }
}

/// The deepest nesting that a document may be able to reach.
pub const MAX_DEPTH: usize = 512;

/// Whether the byte at `i` may be a `<` that opens an element. An element
/// opens with the character `<` followed by a character other than `/`, `!`
/// and `?`. The parser reads UTF-8, Latin-1 and ASCII, where `<` and these
/// three are one byte each, and UTF-16 in either byte order, where each is
/// that byte beside a zero byte. So a byte `<` opens no element where the
/// byte after it is `/`, `!` or `?` and the byte before it is not zero: in
/// UTF-16 it is then no `<` at all.
pub open spec fn may_open(bytes: Seq<u8>, i: int) -> bool {
    &&& 0 <= i < bytes.len()
    &&& bytes[i] == 0x3c
    &&& (i > 0 && bytes[i - 1] == 0) || !(i + 1 < bytes.len() && (bytes[i + 1] == 0x2f || bytes[i
        + 1] == 0x21 || bytes[i + 1] == 0x3f))
}

/// How many of the first `n` bytes may open an element.
pub open spec fn open_count(bytes: Seq<u8>, n: int) -> nat
    decreases n,
{
    if n <= 0 {
        0
    } else {
        open_count(bytes, n - 1) + if may_open(bytes, n - 1) {
            1nat
        } else {
            0nat
        }
    }
}

/// Whether the characters `<!D`, with which a document type declaration
/// starts, may stand at `i`: their bytes are `step` apart, which is 1 in
/// UTF-8, Latin-1 and ASCII and 2 in UTF-16.
pub open spec fn doctype_at(bytes: Seq<u8>, i: int, step: int) -> bool {
    &&& 0 <= i
    &&& i + 2 * step < bytes.len()
    &&& bytes[i] == 0x3c
    &&& bytes[i + step] == 0x21
    &&& bytes[i + 2 * step] == 0x44
}

/// Whether the characters `<!EN`, with which the declaration of an entity
/// starts, may stand at `i`: their bytes are `step` apart.
pub open spec fn entity_at(bytes: Seq<u8>, i: int, step: int) -> bool {
    &&& 0 <= i
    &&& i + 3 * step < bytes.len()
    &&& bytes[i] == 0x3c
    &&& bytes[i + step] == 0x21
    &&& bytes[i + 2 * step] == 0x45
    &&& bytes[i + 3 * step] == 0x4e
}

/// Whether a document type declaration may start at `i`, in a document of
/// one byte or of two for each plain character.
pub open spec fn doctype_starts(bytes: Seq<u8>, i: int) -> bool {
    doctype_at(bytes, i, 1) || doctype_at(bytes, i, 2)
}

/// Whether the declaration of an entity may start at `i`, in a document of
/// one byte or of two for each plain character.
pub open spec fn entity_starts(bytes: Seq<u8>, i: int) -> bool {
    entity_at(bytes, i, 1) || entity_at(bytes, i, 2)
}

/// Whether `bytes` may declare an entity: the start of such a declaration
/// stands behind the start of a document type declaration, the one place
/// where the parser accepts it. An entity can stand for elements, and each
/// use of one then opens elements for which the document holds no `<`.
pub open spec fn may_declare_entity(bytes: Seq<u8>) -> bool {
    exists|i: int, j: int|
        i < j && #[trigger] doctype_starts(bytes, i) && #[trigger] entity_starts(bytes, j)
}

/// Whether `bytes` bound the nesting of the document that they hold: the
/// document declares no entity, so that every element opens with a `<` of
/// the document, and at most [`MAX_DEPTH`] bytes may be such a `<`.
pub open spec fn admissible(bytes: Seq<u8>) -> bool {
    open_count(bytes, bytes.len() as int) <= MAX_DEPTH && !may_declare_entity(bytes)
}

/// The child nodes of the root element of the document `bytes`, or `None`
/// where the document is refused: because its bytes do not bound its
/// nesting, or because the parser reports an error.
pub open spec fn document_children(bytes: Seq<u8>) -> Option<Seq<Node>> {
    if admissible(bytes) {
        parsed_children(bytes)
    } else {
        None
    }
}

/// Calls `xmltree::Element::parse` on `bytes`. Assumed: the call succeeds
/// exactly when [`parsed_children`] is `Some`, and the element that it
/// returns has those children. The parser recurses once for each level of
/// nesting and takes less than 2 KiB of stack for a level. `requires` leaves
/// out the documents that may nest deeper than [`MAX_DEPTH`] levels, so the
/// recursion stays below 1 MiB.
#[verifier::external_body]
pub(crate) fn parse_root(bytes: &[u8]) -> (r: Result<Element, TreeError>)
    requires
        admissible(bytes@),
    ensures
        match r {
            Ok(root) => parsed_children(bytes@) == Some(children(root)),
            Err(_) => parsed_children(bytes@) is None,
        },
{
    Element::parse(bytes)
}

/// Calls `xmltree::Element::get_child` with a tag name. Assumed: the result
/// is the first child element of that name, whatever its namespace, and
/// `None` if there is none.
#[verifier::external_body]
pub(crate) fn get_child<'a>(element: &'a Element, name: &str) -> (r: Option<&'a Element>)
    ensures
        match r {
            Some(child) => first_child(children(*element), name@) == Some(children(*child)),
            None => first_child(children(*element), name@) is None,
        },
{
    element.get_child(name)
}

/// Calls `xmltree::Element::get_text` and copies the text. Assumed: the
/// result is the element's text nodes joined in their order, and `None` if
/// the element has no text node.
#[verifier::external_body]
pub(crate) fn get_text(element: &Element) -> (r: Option<String>)
    ensures
        match r {
            Some(text) => text_of(children(*element)) == Some(text@),
            None => text_of(children(*element)) is None,
        },
{
    element.get_text().map(|text| text.into_owned())
}

/// Says whether `bytes` bound the nesting of the document that they hold.
pub fn is_admissible(bytes: &[u8]) -> (r: bool)
    ensures
        r == admissible(bytes@),
{
    let n = bytes.len();
    let mut opens: usize = 0;
    let mut doctype = false;
    let mut entity = false;
    let mut i: usize = 0;
    while i < n
        invariant
            n == bytes.len(),
            i <= n,
            opens == open_count(bytes@, i as int),
            opens <= i,
            doctype == exists|a: int| a < i && #[trigger] doctype_starts(bytes@, a),
            entity == exists|a: int, b: int|
                a < b && b < i && #[trigger] doctype_starts(bytes@, a) && #[trigger] entity_starts(
                    bytes@,
                    b,
                ),
        decreases n - i,
    {
        let ghost before = doctype;
        if bytes[i] == 0x3c {
            let closes = n - i > 1 && (bytes[i + 1] == 0x2f || bytes[i + 1] == 0x21 || bytes[i + 1]
                == 0x3f);
            if (i > 0 && bytes[i - 1] == 0) || !closes {
                opens = opens + 1;
            }
            let bang = (n - i > 1 && bytes[i + 1] == 0x21, n - i > 2 && bytes[i + 2] == 0x21);
            let doctype_here = (bang.0 && n - i > 2 && bytes[i + 2] == 0x44) || (bang.1 && n - i
                > 4 && bytes[i + 4] == 0x44);
            let entity_here = (bang.0 && n - i > 3 && bytes[i + 2] == 0x45 && bytes[i + 3] == 0x4e)
                || (bang.1 && n - i > 6 && bytes[i + 4] == 0x45 && bytes[i + 6] == 0x4e);
            assert(doctype_here == doctype_starts(bytes@, i as int));
            assert(entity_here == entity_starts(bytes@, i as int));
            entity = entity || (doctype && entity_here);
            doctype = doctype || doctype_here;
        } else {
            assert(!doctype_starts(bytes@, i as int));
            assert(!entity_starts(bytes@, i as int));
        }
        proof {
            if entity {
                if before && entity_starts(bytes@, i as int) {
                    let a = choose|a: int| a < i && #[trigger] doctype_starts(bytes@, a);
                    assert(a < i && i < i + 1 && doctype_starts(bytes@, a) && entity_starts(
                        bytes@,
                        i as int,
                    ));
                }
            }
        }
        i = i + 1;
    }
    opens <= MAX_DEPTH && !entity
}

/// Parses a document. Bytes that do not bound the nesting of their
/// document and bytes that the parser refuses are both reported as a
/// document that is not well-formed.
pub fn parse_document(bytes: &[u8]) -> (r: Result<Element, ParseError>)
    ensures
        match r {
            Ok(root) => document_children(bytes@) == Some(children(root)),
            Err(e) => document_children(bytes@) is None && e@
                == (ParseErrorView::MalformedDocument { missing: None }),
        },
{
    if !is_admissible(bytes) {
        return Err(ParseError::not_well_formed());
    }
    match parse_root(bytes) {
        Ok(root) => Ok(root),
        Err(_) => Err(ParseError::not_well_formed()),
    }
}

/// No child is found exactly where no element among the nodes has the tag.
pub proof fn lemma_first_child_none(nodes: Seq<Node>, name: Seq<char>)
    ensures
        first_child(nodes, name) is None <==> forall|i: int|
            0 <= i < nodes.len() ==> !(#[trigger] nodes[i] is Element && nodes[i]->name == name),
    decreases nodes.len(),
{
    if nodes.len() > 0 {
        let rest = nodes.drop_first();
        lemma_first_child_none(rest, name);
        if nodes.first() is Element && nodes.first()->name == name {
            assert(nodes[0] is Element && nodes[0]->name == name);
        } else if first_child(rest, name) is None {
            assert forall|i: int| 0 <= i < nodes.len() implies !(#[trigger] nodes[i] is Element
                && nodes[i]->name == name) by {
                if i > 0 {
                    assert(nodes[i] == rest[i - 1]);
                }
            }
        } else {
            let i = choose|i: int|
                0 <= i < rest.len() && #[trigger] rest[i] is Element && rest[i]->name == name;
            assert(nodes[i + 1] == rest[i]);
        }
    }
}

} // verus!
