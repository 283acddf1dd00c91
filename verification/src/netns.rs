//! Network isolation: which network namespace the worker thread of a sandbox
//! ends up in.
//!
//! Only the first declaration of a network namespace counts. What follows it,
//! of whatever kind, is not read.

use vstd::prelude::*;
use crate::runtime_spec::{Namespace, NamespaceKind, RuntimeSpec};

verus! {

/// What the worker thread does to its network namespace before it serves.
#[derive(Debug, Clone, PartialEq, Eq)]
pub enum NetworkAction {
    /// No network namespace is declared: the thread keeps the one it has.
    Inherit,
    /// Join the namespace that exists at this path, and create none.
    Join(String),
    /// Leave the inherited namespace for a new one of the thread's own.
    Unshare,
}

/// A [`NetworkAction`] with its path as a sequence of characters.
pub enum NetworkPlan {
    Inherit,
    Join(Seq<char>),
    Unshare,
}

impl View for NetworkAction {
    type V = NetworkPlan;

    open spec fn view(&self) -> NetworkPlan {
        match self {
            NetworkAction::Inherit => NetworkPlan::Inherit,
            NetworkAction::Join(path) => NetworkPlan::Join(path@),
            NetworkAction::Unshare => NetworkPlan::Unshare,
        }
    }
}

/// What one declaration of a network namespace asks for.
pub open spec fn plan_of_entry(entry: Namespace) -> NetworkPlan {
    match entry.path {
        Some(path) => NetworkPlan::Join(path@),
        None => NetworkPlan::Unshare,
    }
}

/// The index of the first network declaration in `namespaces[from..]`, or the
/// length of `namespaces` where there is none.
pub open spec fn first_network(namespaces: Seq<Namespace>, from: int) -> int
    decreases namespaces.len() - from,
{
    if from < 0 || from >= namespaces.len() {
        namespaces.len() as int
    } else if namespaces[from].kind == NamespaceKind::Network {
        from
    } else {
        first_network(namespaces, from + 1)
    }
}

/// What the declarations `namespaces` ask for: the plan of their first
/// network declaration, and to inherit where they hold none.
pub open spec fn network_plan(namespaces: Seq<Namespace>) -> NetworkPlan {
    let at = first_network(namespaces, 0);
    if at < namespaces.len() {
        plan_of_entry(namespaces[at])
    } else {
        NetworkPlan::Inherit
    }
}

/// `first_network` is the least index at or after `from` that holds a network
/// declaration.
pub proof fn lemma_first_network(namespaces: Seq<Namespace>, from: int)
    requires
        0 <= from <= namespaces.len(),
    ensures
        from <= first_network(namespaces, from) <= namespaces.len(),
        first_network(namespaces, from) < namespaces.len() ==> namespaces[first_network(
            namespaces,
            from,
        )].kind == NamespaceKind::Network,
        forall|i: int|
            from <= i < first_network(namespaces, from) ==> (#[trigger] namespaces[i]).kind
                != NamespaceKind::Network,
    decreases namespaces.len() - from,
{
    if from < namespaces.len() && namespaces[from].kind != NamespaceKind::Network {
        lemma_first_network(namespaces, from + 1);
    }
}

/// The network action that the declarations `namespaces` ask for.
pub fn network_action_of(namespaces: &Vec<Namespace>) -> (action: NetworkAction)
    ensures
        action@ == network_plan(namespaces@),
{
    let mut i: usize = 0;
    while i < namespaces.len()
        invariant
            i <= namespaces.len(),
            first_network(namespaces@, 0) == first_network(namespaces@, i as int),
        decreases namespaces.len() - i,
    {
        if namespaces[i].kind == NamespaceKind::Network {
            return match &namespaces[i].path {
                Some(path) => NetworkAction::Join(path.clone()),
                None => NetworkAction::Unshare,
            };
        }
        i += 1;
    }
    NetworkAction::Inherit
}

impl RuntimeSpec {
    /// The network action that the descriptor asks for.
    pub fn network_action(&self) -> (action: NetworkAction)
        ensures
            action@ == network_plan(self.declared_namespaces()),
    {
        match &self.linux {
            Some(linux) => match &linux.namespaces {
                Some(namespaces) => network_action_of(namespaces),
                None => NetworkAction::Inherit,
            },
            None => NetworkAction::Inherit,
        }
    }
}

/// The first network declaration decides alone: what stands before it holds
/// no network declaration, and whatever follows it changes nothing. With a
/// path the plan is to join that namespace, without one to unshare.
pub proof fn lemma_first_network_decides(before: Seq<Namespace>, entry: Namespace, after: Seq<Namespace>)
    requires
        forall|i: int| 0 <= i < before.len() ==> (#[trigger] before[i]).kind != NamespaceKind::Network,
        entry.kind == NamespaceKind::Network,
    ensures
        network_plan(before.push(entry) + after) == plan_of_entry(entry),
        entry.path matches Some(path) ==> network_plan(before.push(entry) + after)
            == NetworkPlan::Join(path@),
        entry.path is None ==> network_plan(before.push(entry) + after) == NetworkPlan::Unshare,
{
    let all = before.push(entry) + after;
    lemma_first_network(all, 0);
    let at = first_network(all, 0);
    assert(all[before.len() as int] == entry);
    assert forall|i: int| 0 <= i < before.len() implies (#[trigger] all[i]).kind
        != NamespaceKind::Network by {
        assert(all[i] == before[i]);
    }
    assert(at == before.len());
}

/// The thread keeps the namespace it inherited exactly when no network
/// namespace is declared.
pub proof fn lemma_inherit_iff_none_declared(namespaces: Seq<Namespace>)
    ensures
        network_plan(namespaces) is Inherit <==> forall|i: int|
            0 <= i < namespaces.len() ==> (#[trigger] namespaces[i]).kind != NamespaceKind::Network,
{
    lemma_first_network(namespaces, 0);
}

} // verus!
