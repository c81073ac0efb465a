//! Permission results, lookup results and the permission tree.

use crate::error::{result_view, Error, ErrorView};
use crate::model::{clone_strings, decimal, numbered_message, option_view, seq_view};
use crate::proto;
use crate::proto::base::{
    LOOKUP_CONDITIONAL, LOOKUP_HAS_PERMISSION, PERMISSIONSHIP_CONDITIONAL,
    PERMISSIONSHIP_HAS_PERMISSION, PERMISSIONSHIP_NO_PERMISSION, SET_EXCLUSION, SET_INTERSECTION,
    SET_UNION,
};
use crate::types::reference::{
    ObjectReference, ObjectReferenceView, SubjectReference, SubjectReferenceView,
};
use crate::types::token::{ZedToken, ZedTokenView};
use vstd::prelude::*;

verus! {

/// The outcome of a permission check: the subject has the permission, lacks
/// it, or has it on a condition that needs more caveat context.
#[derive(Debug, Clone, PartialEq, Eq, Hash)]
pub enum PermissionResult {
    /// The subject definitively has the permission.
    Allowed,
    /// The subject definitively does not have the permission.
    Denied,
    /// The permission depends on unresolved caveat context.
    Conditional {
        /// Context fields needed to fully evaluate the caveat.
        missing_fields: Vec<String>,
    },
}

/// Mathematical model of [`PermissionResult`].
pub enum PermissionResultView {
    Allowed,
    Denied,
    Conditional { missing_fields: Seq<Seq<char>> },
}

/// The missing fields carried by the side channel of a conditional answer;
/// an absent side channel carries none.
pub open spec fn missing_fields_of(info: Option<proto::base::PartialCaveatInfoView>) -> Seq<
    Seq<char>,
> {
    match info {
        Some(i) => i.missing_required_context,
        None => Seq::empty(),
    }
}

impl PermissionResultView {
    /// The boolean projection: `true` for allowed, `false` for denied, and a
    /// failure naming the missing fields for a conditional result.
    pub open spec fn is_allowed(self) -> Result<bool, ErrorView> {
        match self {
            PermissionResultView::Allowed => Ok(true),
            PermissionResultView::Denied => Ok(false),
            PermissionResultView::Conditional { missing_fields } => Err(
                ErrorView::ConditionalPermission { missing_fields },
            ),
        }
    }

    /// The result that the three-state indicator of a check stands for:
    /// 2 allowed, 1 denied, 3 conditional; any other value is a failure.
    pub open spec fn from_check_response(
        permissionship: i32,
        info: Option<proto::base::PartialCaveatInfoView>,
    ) -> Result<PermissionResultView, ErrorView> {
        if permissionship == PERMISSIONSHIP_HAS_PERMISSION {
            Ok(PermissionResultView::Allowed)
        } else if permissionship == PERMISSIONSHIP_NO_PERMISSION {
            Ok(PermissionResultView::Denied)
        } else if permissionship == PERMISSIONSHIP_CONDITIONAL {
            Ok(PermissionResultView::Conditional { missing_fields: missing_fields_of(info) })
        } else {
            Err(
                ErrorView::Serialization(
                    "unknown permissionship: "@ + decimal(permissionship as int),
                ),
            )
        }
    }

    /// The result that the two-state indicator of a lookup stands for:
    /// 1 allowed, 2 conditional; any other value is a failure. A lookup never
    /// reports a denied entry.
    pub open spec fn from_lookup_permissionship(
        permissionship: i32,
        info: Option<proto::base::PartialCaveatInfoView>,
    ) -> Result<PermissionResultView, ErrorView> {
        if permissionship == LOOKUP_HAS_PERMISSION {
            Ok(PermissionResultView::Allowed)
        } else if permissionship == LOOKUP_CONDITIONAL {
            Ok(PermissionResultView::Conditional { missing_fields: missing_fields_of(info) })
        } else {
            Err(
                ErrorView::Serialization(
                    "unknown lookup permissionship: "@ + decimal(permissionship as int),
                ),
            )
        }
    }
}

impl View for PermissionResult {
    type V = PermissionResultView;

    open spec fn view(&self) -> PermissionResultView {
        match self {
            PermissionResult::Allowed => PermissionResultView::Allowed,
            PermissionResult::Denied => PermissionResultView::Denied,
            PermissionResult::Conditional { missing_fields } => PermissionResultView::Conditional {
                missing_fields: seq_view(missing_fields@),
            },
        }
    }
}

/// Takes the missing fields out of the side channel of a conditional answer.
fn take_missing_fields(info: Option<proto::PartialCaveatInfo>) -> (r: Vec<String>)
    ensures
        seq_view(r@) == missing_fields_of(option_view(info)),
{
    match info {
        Some(i) => i.missing_required_context,
        None => {
            let r: Vec<String> = Vec::new();
            assert(seq_view(r@) =~= Seq::<Seq<char>>::empty());
            r
        },
    }
}

impl PermissionResult {
    /// Returns `Ok(true)` for `Allowed`, `Ok(false)` for `Denied`, and a
    /// `ConditionalPermission` error for `Conditional`, so that a conditional
    /// result is never read as a plain yes or no.
    pub fn is_allowed(&self) -> (r: Result<bool, Error>)
        ensures
            match r {
                Ok(b) => self@.is_allowed() == Ok::<bool, ErrorView>(b),
                Err(e) => self@.is_allowed() == Err::<bool, ErrorView>(e@),
            },
    {
        match self {
            PermissionResult::Allowed => Ok(true),
            PermissionResult::Denied => Ok(false),
            PermissionResult::Conditional { missing_fields } => Err(
                Error::ConditionalPermission { missing_fields: clone_strings(missing_fields) },
            ),
        }
    }

    /// Returns `true` only for `Denied`.
    pub fn is_denied(&self) -> (r: bool)
        ensures
            r == (self@ is Denied),
    {
        match self {
            PermissionResult::Denied => true,
            _ => false,
        }
    }

    /// Returns `true` only for `Conditional`.
    pub fn is_conditional(&self) -> (r: bool)
        ensures
            r == (self@ is Conditional),
    {
        match self {
            PermissionResult::Conditional { .. } => true,
            _ => false,
        }
    }

    /// Decodes the three-state indicator of a check response, with the side
    /// channel that names the missing fields of a conditional answer.
    pub fn from_check_response(
        permissionship: i32,
        partial_caveat_info: Option<proto::PartialCaveatInfo>,
    ) -> (r: Result<PermissionResult, Error>)
        ensures
            result_view(r) == PermissionResultView::from_check_response(
                permissionship,
                option_view(partial_caveat_info),
            ),
    {
        if permissionship == PERMISSIONSHIP_HAS_PERMISSION {
            Ok(PermissionResult::Allowed)
        } else if permissionship == PERMISSIONSHIP_NO_PERMISSION {
            Ok(PermissionResult::Denied)
        } else if permissionship == PERMISSIONSHIP_CONDITIONAL {
            Ok(
                PermissionResult::Conditional {
                    missing_fields: take_missing_fields(partial_caveat_info),
                },
            )
        } else {
            Err(
                Error::Serialization(
                    numbered_message("unknown permissionship: ", permissionship as i128),
                ),
            )
        }
    }

    /// Decodes the two-state indicator of a lookup response.
    pub fn from_lookup_permissionship(
        permissionship: i32,
        partial_caveat_info: Option<proto::PartialCaveatInfo>,
    ) -> (r: Result<PermissionResult, Error>)
        ensures
            result_view(r) == PermissionResultView::from_lookup_permissionship(
                permissionship,
                option_view(partial_caveat_info),
            ),
    {
        if permissionship == LOOKUP_HAS_PERMISSION {
            Ok(PermissionResult::Allowed)
        } else if permissionship == LOOKUP_CONDITIONAL {
            Ok(
                PermissionResult::Conditional {
                    missing_fields: take_missing_fields(partial_caveat_info),
                },
            )
        } else {
            Err(
                Error::Serialization(
                    numbered_message("unknown lookup permissionship: ", permissionship as i128),
                ),
            )
        }
    }
}

/// The check indicator is read strictly: 2 is allowed, 1 is denied, 3 is
/// conditional on the fields that the side channel names, and every other
/// integer is a decode failure, never a denial.
pub proof fn lemma_check_indicator(
    permissionship: i32,
    info: Option<proto::base::PartialCaveatInfoView>,
)
    ensures
        permissionship == 2 ==> PermissionResultView::from_check_response(permissionship, info)
            == Ok::<PermissionResultView, ErrorView>(PermissionResultView::Allowed),
        permissionship == 1 ==> PermissionResultView::from_check_response(permissionship, info)
            == Ok::<PermissionResultView, ErrorView>(PermissionResultView::Denied),
        permissionship == 3 ==> PermissionResultView::from_check_response(permissionship, info)
            == Ok::<PermissionResultView, ErrorView>(
            PermissionResultView::Conditional { missing_fields: missing_fields_of(info) },
        ),
        !(1 <= permissionship <= 3) ==> PermissionResultView::from_check_response(
            permissionship,
            info,
        ) matches Err(ErrorView::Serialization(_)),
{
}

/// The lookup indicator is read strictly: 1 is allowed, 2 is conditional,
/// every other integer is a decode failure; no indicator is read as denied.
pub proof fn lemma_lookup_indicator(
    permissionship: i32,
    info: Option<proto::base::PartialCaveatInfoView>,
)
    ensures
        permissionship == 1 ==> PermissionResultView::from_lookup_permissionship(
            permissionship,
            info,
        ) == Ok::<PermissionResultView, ErrorView>(PermissionResultView::Allowed),
        permissionship == 2 ==> PermissionResultView::from_lookup_permissionship(
            permissionship,
            info,
        ) == Ok::<PermissionResultView, ErrorView>(
            PermissionResultView::Conditional { missing_fields: missing_fields_of(info) },
        ),
        !(1 <= permissionship <= 2) ==> PermissionResultView::from_lookup_permissionship(
            permissionship,
            info,
        ) matches Err(ErrorView::Serialization(_)),
        !(PermissionResultView::from_lookup_permissionship(permissionship, info) matches Ok(
            PermissionResultView::Denied,
        )),
{
}

/// The boolean projection answers exactly for the two definite results; a
/// conditional result is never read as yes or no.
pub proof fn lemma_is_allowed_definite(r: PermissionResultView)
    ensures
        r.is_allowed() is Ok <==> !(r is Conditional),
        r.is_allowed() == Ok::<bool, ErrorView>(true) <==> r is Allowed,
        r.is_allowed() == Ok::<bool, ErrorView>(false) <==> r is Denied,
{
}

/// What decoding a list of wire subjects yields for its first `n` entries:
/// the decoded subjects in order, or the failure of the first entry that
/// fails.
pub open spec fn decode_subjects(s: Seq<proto::base::SubjectReferenceView>, n: nat) -> Result<
    Seq<SubjectReferenceView>,
    ErrorView,
>
    decreases n,
{
    if n == 0 || n > s.len() {
        Ok(Seq::empty())
    } else {
        match decode_subjects(s, (n - 1) as nat) {
            Err(e) => Err(e),
            Ok(prefix) => match SubjectReferenceView::from_proto(s[n - 1]) {
                Err(e) => Err(e),
                Ok(x) => Ok(prefix.push(x)),
            },
        }
    }
}

/// A node in a permission tree.
#[derive(Debug, PartialEq, Eq, Hash)]
pub enum PermissionTreeNode {
    /// A leaf node containing direct subjects.
    Leaf {
        /// The subjects at this leaf.
        subjects: Vec<SubjectReference>,
    },
    /// A union of child nodes.
    Union {
        /// Child nodes whose subjects are unioned.
        children: Vec<PermissionTreeNode>,
    },
    /// An intersection of child nodes.
    Intersection {
        /// Child nodes whose subjects are intersected.
        children: Vec<PermissionTreeNode>,
    },
    /// An exclusion: base minus excluded.
    Exclusion {
        /// The base set.
        base: Box<PermissionTreeNode>,
        /// The set to exclude.
        excluded: Box<PermissionTreeNode>,
    },
}

/// Mathematical model of [`PermissionTreeNode`].
pub enum PermissionTreeNodeView {
    Leaf { subjects: Seq<SubjectReferenceView> },
    Union { children: Seq<PermissionTreeNodeView> },
    Intersection { children: Seq<PermissionTreeNodeView> },
    Exclusion { base: Box<PermissionTreeNodeView>, excluded: Box<PermissionTreeNodeView> },
}

/// The model of a list of nodes.
pub open spec fn nodes_view(nodes: Vec<PermissionTreeNode>) -> Seq<PermissionTreeNodeView>
    decreases nodes,
{
    Seq::new(
        nodes@.len(),
        |i: int|
            if 0 <= i < nodes.len() {
                node_view(nodes[i])
            } else {
                arbitrary()
            },
    )
}

/// The model of a node.
pub open spec fn node_view(node: PermissionTreeNode) -> PermissionTreeNodeView
    decreases node,
{
    match node {
        PermissionTreeNode::Leaf { subjects } => PermissionTreeNodeView::Leaf {
            subjects: seq_view(subjects@),
        },
        PermissionTreeNode::Union { children } => PermissionTreeNodeView::Union {
            children: nodes_view(children),
        },
        PermissionTreeNode::Intersection { children } => PermissionTreeNodeView::Intersection {
            children: nodes_view(children),
        },
        PermissionTreeNode::Exclusion { base, excluded } => PermissionTreeNodeView::Exclusion {
            base: Box::new(node_view(*base)),
            excluded: Box::new(node_view(*excluded)),
        },
    }
}

impl View for PermissionTreeNode {
    type V = PermissionTreeNodeView;

    open spec fn view(&self) -> PermissionTreeNodeView {
        node_view(*self)
    }
}

/// What decoding the first `n` children of an intermediate node yields: the
/// decoded children in the order received, or the failure of the first child
/// that fails.
pub open spec fn decode_children(
    children: Seq<proto::tree::PermissionRelationshipTreeView>,
    n: nat,
) -> Result<Seq<PermissionTreeNodeView>, ErrorView>
    decreases children, n,
{
    if n == 0 || n > children.len() {
        Ok(Seq::empty())
    } else {
        match decode_children(children, (n - 1) as nat) {
            Err(e) => Err(e),
            Ok(prefix) => match decode_node(children[n - 1].tree_type) {
                Err(e) => Err(e),
                Ok(x) => Ok(prefix.push(x)),
            },
        }
    }
}

/// The node that an operation code makes of decoded children: 1 a union,
/// 2 an intersection, 3 an exclusion of the second child from the first,
/// which needs exactly two children. Any other code is a failure.
pub open spec fn combine(operation: i32, children: Seq<PermissionTreeNodeView>) -> Result<
    PermissionTreeNodeView,
    ErrorView,
> {
    if operation == SET_UNION {
        Ok(PermissionTreeNodeView::Union { children })
    } else if operation == SET_INTERSECTION {
        Ok(PermissionTreeNodeView::Intersection { children })
    } else if operation == SET_EXCLUSION {
        if children.len() == 2 {
            Ok(
                PermissionTreeNodeView::Exclusion {
                    base: Box::new(children[0]),
                    excluded: Box::new(children[1]),
                },
            )
        } else {
            Err(
                ErrorView::Serialization(
                    "exclusion requires exactly 2 children, got "@ + decimal(children.len() as int),
                ),
            )
        }
    } else {
        Err(ErrorView::Serialization("unknown algebraic operation: "@ + decimal(operation as int)))
    }
}

/// An exclusion is made of exactly two children, the base first and the
/// excluded second; with any other number of children it is a decode
/// failure.
pub proof fn lemma_exclusion_arity(children: Seq<PermissionTreeNodeView>)
    ensures
        children.len() == 2 ==> combine(3, children) == Ok::<PermissionTreeNodeView, ErrorView>(
            PermissionTreeNodeView::Exclusion {
                base: Box::new(children[0]),
                excluded: Box::new(children[1]),
            },
        ),
        children.len() != 2 ==> combine(3, children) matches Err(ErrorView::Serialization(_)),
{
}

/// What decoding a wire node yields. A leaf decodes its subjects; an
/// intermediate node first decodes all its children, in order, and then
/// combines them by its operation code; a node that is neither is a failure.
pub open spec fn decode_node(tree_type: Option<proto::tree::TreeTypeView>) -> Result<
    PermissionTreeNodeView,
    ErrorView,
>
    decreases tree_type, 0nat,
{
    match tree_type {
        None => Err(ErrorView::Serialization("missing tree type"@)),
        Some(proto::tree::TreeTypeView::Leaf(leaf)) => match decode_subjects(
            leaf.subjects,
            leaf.subjects.len(),
        ) {
            Err(e) => Err(e),
            Ok(subjects) => Ok(PermissionTreeNodeView::Leaf { subjects }),
        },
        Some(proto::tree::TreeTypeView::Intermediate(alg)) => match decode_children(
            alg.children,
            alg.children.len(),
        ) {
            Err(e) => Err(e),
            Ok(children) => combine(alg.operation, children),
        },
    }
}

/// A list of wire subjects decodes exactly if each of its subjects does, and
/// then subject by subject, in order.
pub proof fn lemma_subjects_decode_each(s: Seq<proto::base::SubjectReferenceView>, n: nat)
    requires
        n <= s.len(),
    ensures
        decode_subjects(s, n) is Ok <==> forall|i: int|
            0 <= i < n ==> (#[trigger] SubjectReferenceView::from_proto(s[i])) is Ok,
        decode_subjects(s, n) matches Ok(v) ==> v.len() == n && forall|i: int|
            0 <= i < n ==> SubjectReferenceView::from_proto(s[i]) == Ok::<
                SubjectReferenceView,
                ErrorView,
            >(#[trigger] v[i]),
    decreases n,
{
    if n > 0 {
        lemma_subjects_decode_each(s, (n - 1) as nat);
    }
}

/// The children of an intermediate node decode exactly if each child does,
/// and then child by child, in the order received.
pub proof fn lemma_children_decode_each(
    children: Seq<proto::tree::PermissionRelationshipTreeView>,
    n: nat,
)
    requires
        n <= children.len(),
    ensures
        decode_children(children, n) is Ok <==> forall|i: int|
            0 <= i < n ==> (#[trigger] decode_node(children[i].tree_type)) is Ok,
        decode_children(children, n) matches Ok(v) ==> v.len() == n && forall|i: int|
            0 <= i < n ==> decode_node(children[i].tree_type) == Ok::<
                PermissionTreeNodeView,
                ErrorView,
            >(#[trigger] v[i]),
    decreases n,
{
    if n > 0 {
        lemma_children_decode_each(children, (n - 1) as nat);
    }
}

/// Wire subjects that fail to decode fail as a malformed message.
pub proof fn lemma_subjects_decode_failure(s: Seq<proto::base::SubjectReferenceView>, n: nat)
    ensures
        decode_subjects(s, n) matches Err(e) ==> e is Serialization,
    decreases n,
{
    if n == 0 || n > s.len() {
    } else {
        lemma_subjects_decode_failure(s, (n - 1) as nat);
    }
}

/// A wire node that fails to decode fails as a malformed message, wherever
/// in the tree the failure lies.
pub proof fn lemma_node_decode_failure(tree_type: Option<proto::tree::TreeTypeView>)
    ensures
        decode_node(tree_type) matches Err(e) ==> e is Serialization,
    decreases tree_type, 0nat,
{
    match tree_type {
        None => {},
        Some(proto::tree::TreeTypeView::Leaf(leaf)) => {
            lemma_subjects_decode_failure(leaf.subjects, leaf.subjects.len());
        },
        Some(proto::tree::TreeTypeView::Intermediate(alg)) => {
            lemma_children_decode_failure(alg.children, alg.children.len());
        },
    }
}

/// Wire children that fail to decode fail as a malformed message.
pub proof fn lemma_children_decode_failure(
    children: Seq<proto::tree::PermissionRelationshipTreeView>,
    n: nat,
)
    ensures
        decode_children(children, n) matches Err(e) ==> e is Serialization,
    decreases children, n,
{
    if n == 0 || n > children.len() {
    } else {
        lemma_children_decode_failure(children, (n - 1) as nat);
        lemma_node_decode_failure(children[n - 1].tree_type);
    }
}

/// Decodes a list of wire subjects, stopping at the first that fails.
fn subjects_from_proto(subjects: Vec<proto::SubjectReference>) -> (r: Result<
    Vec<SubjectReference>,
    Error,
>)
    ensures
        match r {
            Ok(v) => decode_subjects(seq_view(subjects@), subjects@.len()) == Ok::<
                Seq<SubjectReferenceView>,
                ErrorView,
            >(seq_view(v@)),
            Err(e) => decode_subjects(seq_view(subjects@), subjects@.len()) == Err::<
                Seq<SubjectReferenceView>,
                ErrorView,
            >(e@),
        },
{
    let ghost wire = seq_view(subjects@);
    let mut out: Vec<SubjectReference> = Vec::new();
    assert(seq_view(out@) =~= Seq::<SubjectReferenceView>::empty());
    for subject in iter: subjects
        invariant
            wire == seq_view(subjects@),
            iter.seq() == subjects@,
            decode_subjects(wire, iter.index() as nat) == Ok::<
                Seq<SubjectReferenceView>,
                ErrorView,
            >(seq_view(out@)),
    {
        let ghost before = seq_view(out@);
        match SubjectReference::from_proto(subject) {
            Err(e) => {
                proof {
                    lemma_decode_subjects_fails(wire, (iter.index() + 1) as nat, wire.len());
                }
                return Err(e);
            },
            Ok(s) => {
                out.push(s);
                assert(seq_view(out@) =~= before.push(s@));
            },
        }
    }
    Ok(out)
}

/// Once a prefix of the subjects fails to decode, every longer prefix fails
/// with the same error.
proof fn lemma_decode_subjects_fails(s: Seq<proto::base::SubjectReferenceView>, n: nat, m: nat)
    requires
        decode_subjects(s, n) is Err,
        n <= m <= s.len(),
    ensures
        decode_subjects(s, m) == decode_subjects(s, n),
    decreases m,
{
    if n < m {
        lemma_decode_subjects_fails(s, n, (m - 1) as nat);
    }
}

/// Once a prefix of the children fails to decode, every longer prefix fails
/// with the same error.
proof fn lemma_decode_children_fails(
    children: Seq<proto::tree::PermissionRelationshipTreeView>,
    n: nat,
    m: nat,
)
    requires
        decode_children(children, n) is Err,
        n <= m <= children.len(),
    ensures
        decode_children(children, m) == decode_children(children, n),
    decreases m,
{
    if n < m {
        lemma_decode_children_fails(children, n, (m - 1) as nat);
    }
}

impl PermissionTreeNode {
    /// Decodes a wire node and, recursively, everything below it. The depth
    /// is bounded only by the tree received.
    pub fn from_proto_tree(tree_type: Option<proto::TreeType>) -> (r: Result<
        PermissionTreeNode,
        Error,
    >)
        ensures
            result_view(r) == decode_node(option_view(tree_type)),
        decreases tree_type,
    {
        match tree_type {
            None => Err(Error::serialization("missing tree type")),
            Some(proto::TreeType::Leaf(leaf)) => {
                match subjects_from_proto(leaf.subjects) {
                    Err(e) => Err(e),
                    Ok(subjects) => Ok(PermissionTreeNode::Leaf { subjects }),
                }
            },
            Some(proto::TreeType::Intermediate(alg)) => {
                let ghost wire = alg@.children;
                let operation = alg.operation;
                let mut children: Vec<PermissionTreeNode> = Vec::new();
                assert(nodes_view(children) =~= Seq::<PermissionTreeNodeView>::empty());
                for child in iter: alg.children
                    invariant
                        tree_type == Some(proto::TreeType::Intermediate(alg)),
                        wire == alg@.children,
                        iter.seq() == alg.children@,
                        decode_children(wire, iter.index() as nat) == Ok::<
                            Seq<PermissionTreeNodeView>,
                            ErrorView,
                        >(nodes_view(children)),
                {
                    let ghost before = nodes_view(children);
                    assert(child == alg.children[iter.index() as int]);
                    match PermissionTreeNode::from_proto_tree(child.tree_type) {
                        Err(e) => {
                            proof {
                                lemma_decode_children_fails(
                                    wire,
                                    (iter.index() + 1) as nat,
                                    wire.len(),
                                );
                            }
                            return Err(e);
                        },
                        Ok(node) => {
                            children.push(node);
                            assert(nodes_view(children) =~= before.push(node@));
                        },
                    }
                }
                if operation == SET_UNION {
                    Ok(PermissionTreeNode::Union { children })
                } else if operation == SET_INTERSECTION {
                    Ok(PermissionTreeNode::Intersection { children })
                } else if operation == SET_EXCLUSION {
                    if children.len() != 2 {
                        return Err(
                            Error::Serialization(
                                numbered_message(
                                    "exclusion requires exactly 2 children, got ",
                                    children.len() as i128,
                                ),
                            ),
                        );
                    }
                    let ghost decoded = nodes_view(children);
                    let excluded = children.pop().unwrap();
                    let base = children.pop().unwrap();
                    assert(base@ == decoded[0] && excluded@ == decoded[1]);
                    Ok(
                        PermissionTreeNode::Exclusion {
                            base: Box::new(base),
                            excluded: Box::new(excluded),
                        },
                    )
                } else {
                    Err(
                        Error::Serialization(
                            numbered_message("unknown algebraic operation: ", operation as i128),
                        ),
                    )
                }
            },
        }
    }
}

/// Copies a list of subjects.
fn clone_subjects(subjects: &Vec<SubjectReference>) -> (r: Vec<SubjectReference>)
    ensures
        seq_view(r@) == seq_view(subjects@),
{
    let mut out: Vec<SubjectReference> = Vec::new();
    let mut i: usize = 0;
    while i < subjects.len()
        invariant
            i <= subjects.len(),
            out@.len() == i,
            forall|j: int| 0 <= j < i ==> out@[j]@ == subjects@[j]@,
        decreases subjects.len() - i,
    {
        out.push(subjects[i].clone());
        i = i + 1;
    }
    assert(seq_view(out@) =~= seq_view(subjects@));
    out
}

/// Copies a list of nodes.
fn clone_nodes(nodes: &Vec<PermissionTreeNode>) -> (r: Vec<PermissionTreeNode>)
    ensures
        nodes_view(r) == nodes_view(*nodes),
    decreases nodes,
{
    let mut out: Vec<PermissionTreeNode> = Vec::new();
    let mut i: usize = 0;
    while i < nodes.len()
        invariant
            i <= nodes.len(),
            out@.len() == i,
            forall|j: int| 0 <= j < i ==> out@[j]@ == nodes@[j]@,
        decreases nodes.len() - i,
    {
        out.push(clone_node(&nodes[i]));
        i = i + 1;
    }
    assert(nodes_view(out) =~= nodes_view(*nodes));
    out
}

/// Copies a node and everything below it.
fn clone_node(node: &PermissionTreeNode) -> (r: PermissionTreeNode)
    ensures
        r@ == node@,
    decreases node,
{
    match node {
        PermissionTreeNode::Leaf { subjects } => PermissionTreeNode::Leaf {
            subjects: clone_subjects(subjects),
        },
        PermissionTreeNode::Union { children } => PermissionTreeNode::Union {
            children: clone_nodes(children),
        },
        PermissionTreeNode::Intersection { children } => PermissionTreeNode::Intersection {
            children: clone_nodes(children),
        },
        PermissionTreeNode::Exclusion { base, excluded } => PermissionTreeNode::Exclusion {
            base: Box::new(clone_node(&**base)),
            excluded: Box::new(clone_node(&**excluded)),
        },
    }
}

impl Clone for PermissionTreeNode {
    fn clone(&self) -> (r: Self)
        ensures
            r@ == self@,
    {
        clone_node(self)
    }
}

/// A recursive permission tree, as returned by a tree expansion.
#[derive(Debug, Clone, PartialEq, Eq, Hash)]
pub struct PermissionTree {
    /// The object that was expanded.
    pub expanded_object: ObjectReference,
    /// The relation that was expanded.
    pub expanded_relation: String,
    /// The root node of the permission tree.
    pub node: PermissionTreeNode,
}

/// Mathematical model of [`PermissionTree`].
pub struct PermissionTreeView {
    pub expanded_object: ObjectReferenceView,
    pub expanded_relation: Seq<char>,
    pub node: PermissionTreeNodeView,
}

impl PermissionTreeView {
    /// What decoding a wire tree yields: the expanded object is required and
    /// validated, then the root node is decoded.
    pub open spec fn from_proto(p: proto::tree::PermissionRelationshipTreeView) -> Result<
        PermissionTreeView,
        ErrorView,
    > {
        match p.expanded_object {
            None => Err(ErrorView::Serialization("missing expanded_object"@)),
            Some(o) => match ObjectReferenceView::from_proto(o) {
                Err(e) => Err(e),
                Ok(expanded_object) => match decode_node(p.tree_type) {
                    Err(e) => Err(e),
                    Ok(node) => Ok(
                        PermissionTreeView {
                            expanded_object,
                            expanded_relation: p.expanded_relation,
                            node,
                        },
                    ),
                },
            },
        }
    }
}

impl View for PermissionTree {
    type V = PermissionTreeView;

    open spec fn view(&self) -> PermissionTreeView {
        PermissionTreeView {
            expanded_object: self.expanded_object@,
            expanded_relation: self.expanded_relation@,
            node: self.node@,
        }
    }
}

impl PermissionTree {
    /// Decodes a wire tree.
    pub fn from_proto(proto: proto::PermissionRelationshipTree) -> (r: Result<PermissionTree, Error>)
        ensures
            result_view(r) == PermissionTreeView::from_proto(proto@),
    {
        let expanded_object = match proto.expanded_object {
            None => {
                return Err(Error::serialization("missing expanded_object"));
            },
            Some(o) => match ObjectReference::from_proto(o) {
                Err(e) => {
                    return Err(e);
                },
                Ok(object) => object,
            },
        };
        match PermissionTreeNode::from_proto_tree(proto.tree_type) {
            Err(e) => Err(e),
            Ok(node) => Ok(
                PermissionTree { expanded_object, expanded_relation: proto.expanded_relation, node },
            ),
        }
    }
}

/// What decoding the token of a response yields: an absent token fails with
/// the given message, a present one is validated.
pub open spec fn required_token(
    token: Option<proto::base::ZedTokenView>,
    missing: Seq<char>,
) -> Result<ZedTokenView, ErrorView> {
    match token {
        None => Err(ErrorView::Serialization(missing)),
        Some(t) => ZedTokenView::from_proto(t),
    }
}

/// Decodes the token that a response must carry.
pub fn token_from_proto(token: Option<proto::ZedToken>, missing: &str) -> (r: Result<
    ZedToken,
    Error,
>)
    ensures
        result_view(r) == required_token(option_view(token), missing@),
{
    match token {
        None => Err(Error::serialization(missing)),
        Some(t) => ZedToken::from_proto(t),
    }
}

/// A wire tree that fails to decode fails as a malformed message.
pub proof fn lemma_tree_decode_failure(p: proto::tree::PermissionRelationshipTreeView)
    ensures
        PermissionTreeView::from_proto(p) matches Err(e) ==> e is Serialization,
{
    lemma_node_decode_failure(p.tree_type);
}

/// A resource found by a resource lookup, with its permission status and the
/// revision at which it was found.
#[derive(Clone, PartialEq, Eq, Hash)]
pub struct LookupResourceResult {
    /// The resource object ID.
    pub resource_id: String,
    /// The permission status for this resource.
    pub permission: PermissionResult,
    /// The token at which this resource was looked up.
    pub looked_up_at: ZedToken,
}

/// Mathematical model of [`LookupResourceResult`].
pub struct LookupResourceResultView {
    pub resource_id: Seq<char>,
    pub permission: PermissionResultView,
    pub looked_up_at: ZedTokenView,
}

impl LookupResourceResultView {
    /// What decoding one response of a resource lookup yields.
    pub open spec fn from_proto(p: proto::permission::LookupResourcesResponseView) -> Result<
        LookupResourceResultView,
        ErrorView,
    > {
        match PermissionResultView::from_lookup_permissionship(
            p.permissionship,
            p.partial_caveat_info,
        ) {
            Err(e) => Err(e),
            Ok(permission) => match required_token(p.looked_up_at, "missing looked_up_at"@) {
                Err(e) => Err(e),
                Ok(looked_up_at) => Ok(
                    LookupResourceResultView {
                        resource_id: p.resource_object_id,
                        permission,
                        looked_up_at,
                    },
                ),
            },
        }
    }
}

impl View for LookupResourceResult {
    type V = LookupResourceResultView;

    open spec fn view(&self) -> LookupResourceResultView {
        LookupResourceResultView {
            resource_id: self.resource_id@,
            permission: self.permission@,
            looked_up_at: self.looked_up_at@,
        }
    }
}

impl LookupResourceResult {
    /// Decodes one response of a resource lookup.
    pub fn from_proto(proto: proto::LookupResourcesResponse) -> (r: Result<
        LookupResourceResult,
        Error,
    >)
        ensures
            result_view(r) == LookupResourceResultView::from_proto(proto@),
    {
        let permission = match PermissionResult::from_lookup_permissionship(
            proto.permissionship,
            proto.partial_caveat_info,
        ) {
            Err(e) => {
                return Err(e);
            },
            Ok(p) => p,
        };
        match token_from_proto(proto.looked_up_at, "missing looked_up_at") {
            Err(e) => Err(e),
            Ok(looked_up_at) => Ok(
                LookupResourceResult {
                    resource_id: proto.resource_object_id,
                    permission,
                    looked_up_at,
                },
            ),
        }
    }
}

/// A subject found by a subject lookup, with its permission status and the
/// revision at which it was found.
#[derive(Clone, PartialEq, Eq, Hash)]
pub struct LookupSubjectResult {
    /// The resolved subject.
    pub subject_id: String,
    /// Subjects excluded from a wildcard match.
    pub excluded_subject_ids: Vec<String>,
    /// The permission status for this subject.
    pub permission: PermissionResult,
    /// The token at which this subject was looked up.
    pub looked_up_at: ZedToken,
}

/// Mathematical model of [`LookupSubjectResult`].
pub struct LookupSubjectResultView {
    pub subject_id: Seq<char>,
    pub excluded_subject_ids: Seq<Seq<char>>,
    pub permission: PermissionResultView,
    pub looked_up_at: ZedTokenView,
}

/// The ids of a list of resolved subjects.
pub open spec fn subject_ids(subjects: Seq<proto::permission::ResolvedSubjectView>) -> Seq<
    Seq<char>,
> {
    Seq::new(subjects.len(), |i: int| subjects[i].subject_object_id)
}

impl LookupSubjectResultView {
    /// What decoding one response of a subject lookup yields. The token is
    /// required. Where the response carries a resolved subject, the result is
    /// read from it and from the list of excluded subjects; where it does not,
    /// the result is read from the fields that older servers fill.
    pub open spec fn from_proto(p: proto::permission::LookupSubjectsResponseView) -> Result<
        LookupSubjectResultView,
        ErrorView,
    > {
        match required_token(p.looked_up_at, "missing looked_up_at"@) {
            Err(e) => Err(e),
            Ok(looked_up_at) => match p.subject {
                Some(resolved) => match PermissionResultView::from_lookup_permissionship(
                    resolved.permissionship,
                    resolved.partial_caveat_info,
                ) {
                    Err(e) => Err(e),
                    Ok(permission) => Ok(
                        LookupSubjectResultView {
                            subject_id: resolved.subject_object_id,
                            excluded_subject_ids: subject_ids(p.excluded_subjects),
                            permission,
                            looked_up_at,
                        },
                    ),
                },
                None => match PermissionResultView::from_lookup_permissionship(
                    p.permissionship,
                    p.partial_caveat_info,
                ) {
                    Err(e) => Err(e),
                    Ok(permission) => Ok(
                        LookupSubjectResultView {
                            subject_id: p.subject_object_id,
                            excluded_subject_ids: p.excluded_subject_ids,
                            permission,
                            looked_up_at,
                        },
                    ),
                },
            },
        }
    }
}

impl View for LookupSubjectResult {
    type V = LookupSubjectResultView;

    open spec fn view(&self) -> LookupSubjectResultView {
        LookupSubjectResultView {
            subject_id: self.subject_id@,
            excluded_subject_ids: seq_view(self.excluded_subject_ids@),
            permission: self.permission@,
            looked_up_at: self.looked_up_at@,
        }
    }
}

/// A lookup response that fails to decode fails as a malformed message.
pub proof fn lemma_lookup_decode_failure(
    resources: proto::permission::LookupResourcesResponseView,
    subjects: proto::permission::LookupSubjectsResponseView,
)
    ensures
        LookupResourceResultView::from_proto(resources) matches Err(e) ==> e is Serialization,
        LookupSubjectResultView::from_proto(subjects) matches Err(e) ==> e is Serialization,
{
}

/// Takes the ids out of a list of resolved subjects.
fn take_subject_ids(subjects: Vec<proto::ResolvedSubject>) -> (r: Vec<String>)
    ensures
        seq_view(r@) == subject_ids(seq_view(subjects@)),
{
    let mut ids: Vec<String> = Vec::new();
    for subject in iter: subjects
        invariant
            iter.seq() == subjects@,
            ids@.len() == iter.index(),
            forall|j: int| 0 <= j < ids@.len() ==> ids@[j]@ == subjects@[j].subject_object_id@,
    {
        ids.push(subject.subject_object_id);
    }
    assert(seq_view(ids@) =~= subject_ids(seq_view(subjects@)));
    ids
}

impl LookupSubjectResult {
    /// Decodes one response of a subject lookup.
    pub fn from_proto(proto: proto::LookupSubjectsResponse) -> (r: Result<
        LookupSubjectResult,
        Error,
    >)
        ensures
            result_view(r) == LookupSubjectResultView::from_proto(proto@),
    {
        let looked_up_at = match token_from_proto(proto.looked_up_at, "missing looked_up_at") {
            Err(e) => {
                return Err(e);
            },
            Ok(t) => t,
        };
        match proto.subject {
            Some(resolved) => {
                match PermissionResult::from_lookup_permissionship(
                    resolved.permissionship,
                    resolved.partial_caveat_info,
                ) {
                    Err(e) => Err(e),
                    Ok(permission) => Ok(
                        LookupSubjectResult {
                            subject_id: resolved.subject_object_id,
                            excluded_subject_ids: take_subject_ids(proto.excluded_subjects),
                            permission,
                            looked_up_at,
                        },
                    ),
                }
            },
            None => {
                match PermissionResult::from_lookup_permissionship(
                    proto.permissionship,
                    proto.partial_caveat_info,
                ) {
                    Err(e) => Err(e),
                    Ok(permission) => Ok(
                        LookupSubjectResult {
                            subject_id: proto.subject_object_id,
                            excluded_subject_ids: proto.excluded_subject_ids,
                            permission,
                            looked_up_at,
                        },
                    ),
                }
            },
        }
    }
}

} // verus!
