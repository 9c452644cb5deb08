//! The document tree that queries walk.
//!
//! A `Document` is a flat arena of typed nodes stored in pre-order:
//! index order *is* document order. Every node records the end of its
//! subtree as an index one past its last descendant, so the strict
//! descendants of node `i` are exactly the nodes `i + 1 .. end(i)`.
//! Node 0 is always a root covering the whole document.

use vstd::prelude::*;

verus! {

/// The category of a document node.
#[derive(Clone, Copy, Debug, PartialEq, Eq, Structural)]
pub enum NodeKind {
    /// The synthetic root that spans the whole document.
    Root,
    /// A heading; `level` gives its depth (1 to 6).
    Heading,
    /// A paragraph of running text.
    Paragraph,
    /// A hyperlink; `text` is the display text, `target` the destination.
    Link,
    /// A table.
    Table,
    /// A fenced or indented code block.
    CodeBlock,
    /// A plain text run.
    Text,
}

/// One node of the document tree.
#[derive(Debug)]
pub struct Node {
    pub kind: NodeKind,
    /// Heading level; 0 for non-headings.
    pub level: u8,
    /// Textual content (display text for links).
    pub text: String,
    /// Link destination; empty for non-links.
    pub target: String,
    /// One past the index of this node's last descendant.
    pub end: usize,
}

/// The ghost projection of a node.
pub struct NodeModel {
    pub kind: NodeKind,
    pub level: int,
    pub text: Seq<char>,
    pub target: Seq<char>,
    pub end: int,
}

impl View for Node {
    type V = NodeModel;

    open spec fn view(&self) -> NodeModel {
        NodeModel {
            kind: self.kind,
            level: self.level as int,
            text: self.text@,
            target: self.target@,
            end: self.end as int,
        }
    }
}

/// Do the subtree ranges of `nodes` describe a well-nested pre-order tree
/// rooted at node 0?
pub open spec fn wf_nodes(nodes: Seq<NodeModel>) -> bool {
    &&& nodes.len() >= 1
    &&& nodes[0].kind == NodeKind::Root
    &&& nodes[0].end == nodes.len()
    &&& forall|i: int|
        0 <= i < nodes.len() ==> i < #[trigger] nodes[i].end <= nodes.len()
    &&& forall|i: int, j: int|
        0 <= i < j < nodes[i].end && j < nodes.len() ==> #[trigger] nodes[j].end
            <= #[trigger] nodes[i].end
}

/// A parsed document: a pre-order arena of nodes with well-nested
/// subtree ranges.
#[derive(Debug)]
pub struct Document {
    nodes: Vec<Node>,
}

impl View for Document {
    type V = Seq<NodeModel>;

    closed spec fn view(&self) -> Seq<NodeModel> {
        Seq::new(self.nodes@.len(), |i: int| self.nodes@[i]@)
    }
}

impl Document {
    #[verifier::type_invariant]
    pub open spec fn wf(&self) -> bool {
        wf_nodes(self@)
    }

    /// An empty document: just the root node.
    pub fn new() -> (doc: Document)
        ensures
            doc@.len() == 1,
            doc@[0].kind == NodeKind::Root,
    {
        let root = Node {
            kind: NodeKind::Root,
            level: 0,
            text: String::new(),
            target: String::new(),
            end: 1,
        };
        let nodes = vec![root];
        let doc = Document { nodes };
        proof {
            assert(doc@ =~= seq![doc.nodes@[0]@]);
        }
        doc
    }

    /// The number of nodes, root included.
    pub fn len(&self) -> (n: usize)
        ensures
            n == self@.len(),
    {
        proof {
            use_type_invariant(self);
        }
        self.nodes.len()
    }

    /// Append a leaf element at the end of the document, as a direct
    /// child of the root: the new node carries the given fields and an
    /// empty subtree, and every existing node keeps its place.
    pub fn append_leaf(self, kind: NodeKind, level: u8, text: String, target: String) -> (r:
        Document)
        requires
            self@.len() < usize::MAX,
        ensures
            r@.len() == self@.len() + 1,
            r@[self@.len() as int] == (NodeModel {
                kind,
                level: level as int,
                text: text@,
                target: target@,
                end: self@.len() as int + 1,
            }),
            forall|i: int| 1 <= i < self@.len() ==> r@[i] == self@[i],
            r@[0].kind == self@[0].kind,
            r@[0].level == self@[0].level,
            r@[0].text == self@[0].text,
            r@[0].target == self@[0].target,
            r@[0].end == self@.len() + 1,
    {
        proof {
            use_type_invariant(&self);
        }
        let ghost s0 = self@;
        let Document { mut nodes } = self;
        let n = nodes.len();
        let node = Node { kind, level, text, target, end: n + 1 };
        nodes.push(node);
        nodes[0].end = n + 1;
        proof {
            let v = Seq::new(nodes@.len(), |i: int| nodes@[i]@);
            assert(v.len() == s0.len() + 1);
            assert(forall|i: int| 1 <= i < s0.len() ==> v[i] == #[trigger] s0[i]);
            assert forall|i: int| 0 <= i < v.len() implies i < #[trigger] v[i].end <= v.len() by {
                if 1 <= i < n {
                    assert(v[i] == s0[i]);
                }
            }
            assert forall|i: int, j: int|
                0 <= i < j < v[i].end && j < v.len() implies #[trigger] v[j].end
                    <= #[trigger] v[i].end by {
                if i >= 1 {
                    assert(v[i] == s0[i]);
                    assert(j < n);
                    assert(v[j] == s0[j]);
                }
            }
            assert(wf_nodes(v));
        }
        let r = Document { nodes };
        r
    }

    /// Borrow the node at `i`.
    pub fn node(&self, i: usize) -> (n: &Node)
        requires
            i < self@.len(),
        ensures
            n@ == self@[i as int],
    {
        proof {
            use_type_invariant(self);
        }
        &self.nodes[i]
    }
}

} // verus!
