//! The library's own view of a DOM node, and the bulk class operations.
//!
//! A live node is an opaque handle; what the class and narrowing logic reads
//! of one is its concrete kind and its class attribute. `NodeState` holds
//! exactly those, so that the logic over them can be stated and checked in
//! full, and the handle-based operations mirror it call for call.

use vstd::prelude::*;
use crate::classes::after_add;
use crate::classes::after_remove;
use crate::classes::after_toggle;
use crate::classes::class_add;
use crate::classes::class_contains;
use crate::classes::class_remove;
use crate::classes::class_toggle;
use crate::classes::contains_sub;
use crate::errors::DomError;
use crate::kinds::NodeKind;
use crate::kinds::is_subkind;
use crate::kinds::kind_is_a;
use crate::kinds::lemma_subkind_transitive;

verus! {

/// What the library reads of a DOM node: its concrete kind, which narrowing
/// checks, and its class attribute, which the class operations rewrite.
#[derive(Debug, Clone, PartialEq, Eq)]
pub struct NodeState {
    pub kind: NodeKind,
    pub classes: String,
}

/// Narrowing as a value: the node itself when its concrete kind fits the
/// target, the failure condition otherwise.
pub open spec fn narrow_spec(n: NodeState, target: NodeKind) -> Result<NodeState, DomError> {
    if is_subkind(n.kind, target) {
        Ok(n)
    } else {
        Err(DomError::NarrowFailed { target })
    }
}

/// Narrow a node to a target kind. The cast is checked and non-owning: on
/// success the very node comes back, with nothing about it changed.
pub fn narrow(n: NodeState, target: NodeKind) -> (r: Result<NodeState, DomError>)
    ensures
        r == narrow_spec(n, target),
{
    if kind_is_a(n.kind, target) {
        Ok(n)
    } else {
        Err(DomError::NarrowFailed { target })
    }
}

/// Narrowing round trip: a node that counts as an html-element, narrowed to
/// element and then back to html-element, comes through both casts unchanged.
pub proof fn lemma_narrow_round_trip(n: NodeState)
    requires
        is_subkind(n.kind, NodeKind::HtmlElement),
    ensures
        narrow_spec(n, NodeKind::Element) == Ok::<NodeState, DomError>(n),
        narrow_spec(n, NodeKind::HtmlElement) == Ok::<NodeState, DomError>(n),
{
    lemma_subkind_transitive(n.kind, NodeKind::HtmlElement, NodeKind::Element);
}

impl NodeState {
    /// Substring membership test on the node's class attribute.
    pub fn has_class(&self, name: &str) -> (b: bool)
        ensures
            b == contains_sub(self.classes@, name@),
    {
        class_contains(self.classes.as_str(), name)
    }

    /// Append a space and the name to the class attribute, unconditionally.
    pub fn add_class(&mut self, name: &str)
        ensures
            final(self).kind == old(self).kind,
            final(self).classes@ == after_add(old(self).classes@, name@),
    {
        let next = class_add(self.classes.as_str(), name);
        self.classes = next;
    }

    /// Delete the first occurrence of the spaced name from the class
    /// attribute, or leave it unchanged when that pattern is absent.
    pub fn remove_class(&mut self, name: &str)
        ensures
            final(self).kind == old(self).kind,
            final(self).classes@ == after_remove(old(self).classes@, name@),
    {
        let next = class_remove(self.classes.as_str(), name);
        self.classes = next;
    }

    /// Remove the class when present in the substring sense, add it
    /// otherwise.
    pub fn toggle_class(&mut self, name: &str)
        ensures
            final(self).kind == old(self).kind,
            final(self).classes@ == after_toggle(old(self).classes@, name@),
    {
        let next = class_toggle(self.classes.as_str(), name);
        self.classes = next;
    }
}

/// The class attribute a list-wide remove leaves on one member: rewritten
/// when the name is present in the substring sense, unchanged otherwise.
pub open spec fn guarded_remove(c: Seq<char>, name: Seq<char>) -> Seq<char> {
    if contains_sub(c, name) {
        after_remove(c, name)
    } else {
        c
    }
}

/// `k` is the first member of the list that does not count as an
/// html-element.
pub open spec fn first_narrow_failure(nodes: Seq<NodeState>, k: int) -> bool {
    &&& 0 <= k < nodes.len()
    &&& !is_subkind(nodes[k].kind, NodeKind::HtmlElement)
    &&& forall|j: int| 0 <= j < k ==> is_subkind(nodes[j].kind, NodeKind::HtmlElement)
}

/// Add a class to every member of a list, in index order. Each member is
/// first narrowed to an html-element and then gets the unconditional
/// append, duplicate or not; the first member that fails the narrowing
/// stops the walk, with the earlier members already rewritten and the later
/// ones untouched.
pub fn add_list_class(nodes: &mut Vec<NodeState>, name: &str) -> (r: Result<(), DomError>)
    ensures
        final(nodes)@.len() == old(nodes)@.len(),
        r is Ok ==> forall|i: int|
            0 <= i < old(nodes)@.len() ==> is_subkind(
                old(nodes)@[i].kind,
                NodeKind::HtmlElement,
            ) && final(nodes)@[i].kind == old(nodes)@[i].kind && final(nodes)@[i].classes@
                == after_add(old(nodes)@[i].classes@, name@),
        r matches Err(e) ==> e == (DomError::NarrowFailed { target: NodeKind::HtmlElement })
            && exists|k: int| first_narrow_failure(old(nodes)@, k),
        r is Err ==> forall|i: int, k: int|
            first_narrow_failure(old(nodes)@, k) && 0 <= i < k ==> final(nodes)@[i].kind == old(
                nodes,
            )@[i].kind && final(nodes)@[i].classes@ == after_add(old(nodes)@[i].classes@, name@),
        r is Err ==> forall|i: int, k: int|
            first_narrow_failure(old(nodes)@, k) && k <= i < old(nodes)@.len() ==> final(nodes)@[i]
                == old(nodes)@[i],
{
    let n = nodes.len();
    let mut i: usize = 0;
    while i < n
        invariant
            n == nodes@.len(),
            nodes@.len() == old(nodes)@.len(),
            0 <= i <= n,
            forall|j: int|
                0 <= j < i ==> is_subkind(old(nodes)@[j].kind, NodeKind::HtmlElement),
            forall|j: int|
                0 <= j < i ==> nodes@[j].kind == old(nodes)@[j].kind
                    && nodes@[j].classes@ == after_add(old(nodes)@[j].classes@, name@),
            forall|j: int| i <= j < n ==> nodes@[j] == old(nodes)@[j],
        decreases n - i,
    {
        if !kind_is_a(nodes[i].kind, NodeKind::HtmlElement) {
            proof {
                assert(first_narrow_failure(old(nodes)@, i as int));
                assert forall|k: int| first_narrow_failure(old(nodes)@, k) implies k == i by {
                    if k < i {
                        assert(is_subkind(old(nodes)@[k].kind, NodeKind::HtmlElement));
                    }
                    if k > i {
                        assert(is_subkind(old(nodes)@[i as int].kind, NodeKind::HtmlElement));
                    }
                }
            }
            return Err(DomError::NarrowFailed { target: NodeKind::HtmlElement });
        }
        let next = class_add(nodes[i].classes.as_str(), name);
        nodes[i].classes = next;
        i += 1;
    }
    Ok(())
}

/// Remove a class from every member of a list, in index order, with the same
/// narrowing walk as the list-wide add: the first member that is not an
/// html-element stops it, earlier members already rewritten.
pub fn remove_list_class(nodes: &mut Vec<NodeState>, name: &str) -> (r: Result<(), DomError>)
    ensures
        final(nodes)@.len() == old(nodes)@.len(),
        r is Ok ==> forall|i: int|
            0 <= i < old(nodes)@.len() ==> is_subkind(
                old(nodes)@[i].kind,
                NodeKind::HtmlElement,
            ) && final(nodes)@[i].kind == old(nodes)@[i].kind && final(nodes)@[i].classes@
                == guarded_remove(old(nodes)@[i].classes@, name@),
        r matches Err(e) ==> e == (DomError::NarrowFailed { target: NodeKind::HtmlElement })
            && exists|k: int| first_narrow_failure(old(nodes)@, k),
        r is Err ==> forall|i: int, k: int|
            first_narrow_failure(old(nodes)@, k) && 0 <= i < k ==> final(nodes)@[i].kind == old(
                nodes,
            )@[i].kind && final(nodes)@[i].classes@ == guarded_remove(
                old(nodes)@[i].classes@,
                name@,
            ),
        r is Err ==> forall|i: int, k: int|
            first_narrow_failure(old(nodes)@, k) && k <= i < old(nodes)@.len() ==> final(nodes)@[i]
                == old(nodes)@[i],
{
    let n = nodes.len();
    let mut i: usize = 0;
    while i < n
        invariant
            n == nodes@.len(),
            nodes@.len() == old(nodes)@.len(),
            0 <= i <= n,
            forall|j: int|
                0 <= j < i ==> is_subkind(old(nodes)@[j].kind, NodeKind::HtmlElement),
            forall|j: int|
                0 <= j < i ==> nodes@[j].kind == old(nodes)@[j].kind
                    && nodes@[j].classes@ == guarded_remove(old(nodes)@[j].classes@, name@),
            forall|j: int| i <= j < n ==> nodes@[j] == old(nodes)@[j],
        decreases n - i,
    {
        if !kind_is_a(nodes[i].kind, NodeKind::HtmlElement) {
            proof {
                assert(first_narrow_failure(old(nodes)@, i as int));
                assert forall|k: int| first_narrow_failure(old(nodes)@, k) implies k == i by {
                    if k < i {
                        assert(is_subkind(old(nodes)@[k].kind, NodeKind::HtmlElement));
                    }
                    if k > i {
                        assert(is_subkind(old(nodes)@[i as int].kind, NodeKind::HtmlElement));
                    }
                }
            }
            return Err(DomError::NarrowFailed { target: NodeKind::HtmlElement });
        }
        let present = class_contains(nodes[i].classes.as_str(), name);
        if present {
            let next = class_remove(nodes[i].classes.as_str(), name);
            nodes[i].classes = next;
        }
        i += 1;
    }
    Ok(())
}

} // verus!
