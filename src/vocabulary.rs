//! The names that keyword validators query: the targets of every call, or
//! of every assignment, in a subtree, in pre-order.

use vstd::prelude::*;
use crate::models::{AstNode, NodeType};
use crate::text::{texts, lower_of, lowercase, lowercase_all};

verus! {

/// The contents of the nodes of type `t` in the subtree at `node`, in pre-order.
pub open spec fn names_in(node: AstNode, t: NodeType) -> Seq<Seq<char>>
    decreases node, 1int,
{
    (if node.node_type == t {
        seq![node.content@]
    } else {
        Seq::empty()
    }) + names_in_all(node.children@, t)
}

/// The contents of the nodes of type `t` in the given subtrees, in order.
pub open spec fn names_in_all(nodes: Seq<AstNode>, t: NodeType) -> Seq<Seq<char>>
    decreases nodes, 0int,
{
    if nodes.len() == 0 {
        Seq::empty()
    } else {
        names_in_all(nodes.drop_last(), t) + names_in(nodes.last(), t)
    }
}

/// The names that the subtree at `node` calls, in pre-order.
pub open spec fn calls_in(node: AstNode) -> Seq<Seq<char>> {
    names_in(node, NodeType::CallExpression)
}

/// The names that the subtree at `node` assigns to, in pre-order.
pub open spec fn assignments_in(node: AstNode) -> Seq<Seq<char>> {
    names_in(node, NodeType::AssignmentExpression)
}

/// The contents of the nodes of type `t` in the subtree at `node`, in pre-order.
pub fn collect_names(node: &AstNode, t: NodeType) -> (r: Vec<String>)
    ensures
        texts(r@) == names_in(*node, t),
    decreases node,
{
    let mut names: Vec<String> = Vec::new();
    if node.node_type == t {
        names.push(node.content.clone());
    }
    let ghost own = texts(names@);
    assert(own == (if node.node_type == t {
        seq![node.content@]
    } else {
        Seq::<Seq<char>>::empty()
    }));
    let mut i: usize = 0;
    while i < node.children.len()
        invariant
            i <= node.children@.len(),
            texts(names@) == own + names_in_all(node.children@.take(i as int), t),
        decreases node.children@.len() - i,
    {
        assert(decreases_to!(node => node.children@[i as int]));
        let mut sub = collect_names(&node.children[i], t);
        let ghost before = texts(names@);
        names.append(&mut sub);
        assert(node.children@.take(i + 1).drop_last() =~= node.children@.take(i as int));
        assert(texts(names@) =~= before + names_in(node.children@[i as int], t));
        i = i + 1;
    }
    assert(node.children@.take(i as int) =~= node.children@);
    names
}

/// The names that the subtree at `node` calls, in pre-order.
pub fn find_call_expressions(node: &AstNode) -> (r: Vec<String>)
    ensures
        texts(r@) == calls_in(*node),
{
    collect_names(node, NodeType::CallExpression)
}

/// The names that the subtree at `node` assigns to, in pre-order.
pub fn find_assignment_expressions(node: &AstNode) -> (r: Vec<String>)
    ensures
        texts(r@) == assignments_in(*node),
{
    collect_names(node, NodeType::AssignmentExpression)
}

/// Each name in its lowercase form.
pub open spec fn lowered(v: Seq<Seq<char>>) -> Seq<Seq<char>> {
    v.map_values(|s: Seq<char>| lower_of(s))
}

/// The lowercase names that the subtree at `node` calls, followed by the
/// node's own name in lowercase.
pub open spec fn vocabulary(node: AstNode) -> Seq<Seq<char>> {
    lowered(calls_in(node)).push(lower_of(node.content@))
}

/// The lowercase names that the subtree at `node` calls, followed by the
/// node's own name in lowercase.
pub fn node_vocabulary(node: &AstNode) -> (r: Vec<String>)
    ensures
        texts(r@) == vocabulary(*node),
{
    let calls = find_call_expressions(node);
    let mut names = lowercase_all(&calls);
    let ghost before = texts(names@);
    names.push(lowercase(node.content.as_str()));
    assert(texts(names@) =~= before.push(lower_of(node.content@)));
    names
}

} // verus!
