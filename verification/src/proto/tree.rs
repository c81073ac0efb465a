//! Wire form of a permission tree: a set algebra over leaf subject sets.

use super::base::{ObjectReference, ObjectReferenceView, SubjectReference, SubjectReferenceView};
use crate::model::{option_view, seq_view};
use vstd::prelude::*;

verus! {

/// One node of the tree sent by the server, with the object and relation
/// that the node expands.
#[derive(Debug, PartialEq, Default)]
pub struct PermissionRelationshipTree {
    /// The node itself: a leaf or an intermediate node; absent when the
    /// sender set neither.
    pub tree_type: Option<TreeType>,
    /// The object that was expanded.
    pub expanded_object: Option<ObjectReference>,
    /// The relation that was expanded.
    pub expanded_relation: String,
}

/// The two shapes of a tree node.
#[derive(Debug, PartialEq)]
pub enum TreeType {
    /// A set operation over child nodes.
    Intermediate(AlgebraicSubjectSet),
    /// A set of subjects.
    Leaf(DirectSubjectSet),
}

/// An intermediate node: an operation code and the children it combines, in
/// the order sent.
#[derive(Debug, PartialEq, Default)]
pub struct AlgebraicSubjectSet {
    /// The operation code: 1 union, 2 intersection, 3 exclusion.
    pub operation: i32,
    /// The child nodes.
    pub children: Vec<PermissionRelationshipTree>,
}

/// A leaf node: the subjects it holds.
#[derive(Debug, PartialEq, Default)]
pub struct DirectSubjectSet {
    /// The subjects at the leaf.
    pub subjects: Vec<SubjectReference>,
}

/// Mathematical model of [`PermissionRelationshipTree`].
pub struct PermissionRelationshipTreeView {
    pub tree_type: Option<TreeTypeView>,
    pub expanded_object: Option<ObjectReferenceView>,
    pub expanded_relation: Seq<char>,
}

/// Mathematical model of [`TreeType`].
pub enum TreeTypeView {
    Intermediate(AlgebraicSubjectSetView),
    Leaf(DirectSubjectSetView),
}

/// Mathematical model of [`AlgebraicSubjectSet`].
pub struct AlgebraicSubjectSetView {
    pub operation: i32,
    pub children: Seq<PermissionRelationshipTreeView>,
}

/// Mathematical model of [`DirectSubjectSet`].
pub struct DirectSubjectSetView {
    pub subjects: Seq<SubjectReferenceView>,
}

impl View for DirectSubjectSet {
    type V = DirectSubjectSetView;

    open spec fn view(&self) -> DirectSubjectSetView {
        DirectSubjectSetView { subjects: seq_view(self.subjects@) }
    }
}

/// The model of a tree.
pub open spec fn tree_view(t: PermissionRelationshipTree) -> PermissionRelationshipTreeView
    decreases t,
{
    PermissionRelationshipTreeView {
        tree_type: match t.tree_type {
            Some(tt) => Some(tree_type_view(tt)),
            None => None,
        },
        expanded_object: option_view(t.expanded_object),
        expanded_relation: t.expanded_relation@,
    }
}

/// The model of a node.
pub open spec fn tree_type_view(tt: TreeType) -> TreeTypeView
    decreases tt,
{
    match tt {
        TreeType::Intermediate(a) => TreeTypeView::Intermediate(algebraic_view(a)),
        TreeType::Leaf(l) => TreeTypeView::Leaf(l@),
    }
}

/// The model of an intermediate node.
pub open spec fn algebraic_view(a: AlgebraicSubjectSet) -> AlgebraicSubjectSetView
    decreases a,
{
    AlgebraicSubjectSetView {
        operation: a.operation,
        children: Seq::new(
            a.children@.len(),
            |i: int|
                if 0 <= i < a.children.len() {
                    tree_view(a.children[i])
                } else {
                    arbitrary()
                },
        ),
    }
}

impl View for PermissionRelationshipTree {
    type V = PermissionRelationshipTreeView;

    open spec fn view(&self) -> PermissionRelationshipTreeView {
        tree_view(*self)
    }
}

impl View for TreeType {
    type V = TreeTypeView;

    open spec fn view(&self) -> TreeTypeView {
        tree_type_view(*self)
    }
}

impl View for AlgebraicSubjectSet {
    type V = AlgebraicSubjectSetView;

    open spec fn view(&self) -> AlgebraicSubjectSetView {
        algebraic_view(*self)
    }
}

/// Copies a leaf.
fn clone_leaf(l: &DirectSubjectSet) -> (r: DirectSubjectSet)
    ensures
        r@ == l@,
{
    let mut subjects: Vec<SubjectReference> = Vec::new();
    let mut i: usize = 0;
    while i < l.subjects.len()
        invariant
            i <= l.subjects.len(),
            subjects@.len() == i,
            forall|j: int| 0 <= j < i ==> subjects@[j]@ == l.subjects@[j]@,
        decreases l.subjects.len() - i,
    {
        subjects.push(l.subjects[i].clone());
        i = i + 1;
    }
    let r = DirectSubjectSet { subjects };
    assert(r@.subjects =~= l@.subjects);
    r
}

/// Copies a tree.
fn clone_tree(t: &PermissionRelationshipTree) -> (r: PermissionRelationshipTree)
    ensures
        r@ == t@,
    decreases t,
{
    PermissionRelationshipTree {
        tree_type: match &t.tree_type {
            Some(TreeType::Intermediate(a)) => Some(TreeType::Intermediate(clone_algebraic(a))),
            Some(TreeType::Leaf(l)) => Some(TreeType::Leaf(clone_leaf(l))),
            None => None,
        },
        expanded_object: match &t.expanded_object {
            Some(o) => Some(o.clone()),
            None => None,
        },
        expanded_relation: t.expanded_relation.clone(),
    }
}

/// Copies an intermediate node.
fn clone_algebraic(a: &AlgebraicSubjectSet) -> (r: AlgebraicSubjectSet)
    ensures
        r@ == a@,
    decreases a,
{
    let mut children: Vec<PermissionRelationshipTree> = Vec::new();
    let mut i: usize = 0;
    while i < a.children.len()
        invariant
            i <= a.children.len(),
            children@.len() == i,
            forall|j: int| 0 <= j < i ==> children@[j]@ == a.children@[j]@,
        decreases a.children.len() - i,
    {
        children.push(clone_tree(&a.children[i]));
        i = i + 1;
    }
    let r = AlgebraicSubjectSet { operation: a.operation, children };
    assert(r@.children =~= a@.children);
    r
}

impl Clone for DirectSubjectSet {
    fn clone(&self) -> (r: Self)
        ensures
            r@ == self@,
    {
        clone_leaf(self)
    }
}

impl Clone for PermissionRelationshipTree {
    fn clone(&self) -> (r: Self)
        ensures
            r@ == self@,
    {
        clone_tree(self)
    }
}

impl Clone for AlgebraicSubjectSet {
    fn clone(&self) -> (r: Self)
        ensures
            r@ == self@,
    {
        clone_algebraic(self)
    }
}

impl Clone for TreeType {
    fn clone(&self) -> (r: Self)
        ensures
            r@ == self@,
    {
        match self {
            TreeType::Intermediate(a) => TreeType::Intermediate(clone_algebraic(a)),
            TreeType::Leaf(l) => TreeType::Leaf(clone_leaf(l)),
        }
    }
}

} // verus!
