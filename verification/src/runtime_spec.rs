//! What the manager reads of a runtime descriptor: the Linux namespaces it
//! declares, in their listed order, and its annotations.

use vstd::prelude::*;
use crate::endpoint::SANDBOX_ID_ANNOTATION;

verus! {

/// The kinds of Linux namespace that a descriptor can declare.
#[derive(Debug, Clone, Copy, PartialEq, Eq, Structural)]
pub enum NamespaceKind {
    Mount,
    Cgroup,
    Uts,
    Ipc,
    User,
    Pid,
    Network,
    Time,
}

/// One namespace declaration: its kind and, where the sandbox is to join a
/// namespace that exists already, the path of that namespace.
#[derive(Debug, Clone, PartialEq, Eq)]
pub struct Namespace {
    pub kind: NamespaceKind,
    pub path: Option<String>,
}

/// The Linux section of a descriptor.
#[derive(Debug, Clone, PartialEq, Eq)]
pub struct Linux {
    pub namespaces: Option<Vec<Namespace>>,
}

/// One annotation: a key and its value.
#[derive(Debug, Clone, PartialEq, Eq)]
pub struct Annotation {
    pub key: String,
    pub value: String,
}

/// A runtime descriptor, as far as the manager reads it.
///
/// The annotations of a descriptor are a map: each key stands once, and the
/// order of the entries means nothing. A list that holds a key twice is
/// read by its first entry for that key.
#[derive(Debug, Clone, PartialEq, Eq)]
pub struct RuntimeSpec {
    pub linux: Option<Linux>,
    pub annotations: Option<Vec<Annotation>>,
}

/// No key stands twice in `annotations`.
pub open spec fn distinct_keys(annotations: Seq<Annotation>) -> bool {
    forall|i: int, j: int|
        0 <= i < j < annotations.len() ==> (#[trigger] annotations[i]).key@ != (
        #[trigger] annotations[j]).key@
}

/// The value of the first annotation in `annotations[from..]` whose key is
/// `key`.
pub open spec fn annotation_from(annotations: Seq<Annotation>, key: Seq<char>, from: int) -> Option<Seq<char>>
    decreases annotations.len() - from,
{
    if from < 0 || from >= annotations.len() {
        None
    } else if annotations[from].key@ == key {
        Some(annotations[from].value@)
    } else {
        annotation_from(annotations, key, from + 1)
    }
}

impl RuntimeSpec {
    /// The namespaces that the descriptor declares, in their listed order. A
    /// descriptor without a Linux section, or without a list of namespaces in
    /// it, declares none.
    pub open spec fn declared_namespaces(&self) -> Seq<Namespace> {
        match self.linux {
            Some(linux) => match linux.namespaces {
                Some(namespaces) => namespaces@,
                None => Seq::empty(),
            },
            None => Seq::empty(),
        }
    }

    /// The annotations of the descriptor are a map: no key stands twice.
    pub open spec fn well_formed(&self) -> bool {
        distinct_keys(self.declared_annotations())
    }

    /// The annotations of the descriptor; one without annotations has none.
    pub open spec fn declared_annotations(&self) -> Seq<Annotation> {
        match self.annotations {
            Some(annotations) => annotations@,
            None => Seq::empty(),
        }
    }

    /// The value that the descriptor gives to the annotation `key`.
    pub open spec fn annotation_of(&self, key: Seq<char>) -> Option<Seq<char>> {
        annotation_from(self.declared_annotations(), key, 0)
    }

    /// The sandbox group that the descriptor assigns its container to.
    pub open spec fn sandbox_group(&self) -> Option<Seq<char>> {
        self.annotation_of(SANDBOX_ID_ANNOTATION@)
    }

    /// The value of the annotation `key`, if the descriptor has one.
    pub fn annotation(&self, key: &str) -> (value: Option<&str>)
        ensures
            match value {
                Some(v) => self.annotation_of(key@) == Some(v@),
                None => self.annotation_of(key@) is None,
            },
    {
        match &self.annotations {
            None => None,
            Some(annotations) => {
                let wanted = key.to_owned();
                let mut i: usize = 0;
                while i < annotations.len()
                    invariant
                        i <= annotations.len(),
                        wanted@ == key@,
                        self.declared_annotations() == annotations@,
                        annotation_from(annotations@, key@, 0) == annotation_from(
                            annotations@,
                            key@,
                            i as int,
                        ),
                    decreases annotations.len() - i,
                {
                    if annotations[i].key == wanted {
                        return Some(annotations[i].value.as_str());
                    }
                    i += 1;
                }
                None
            },
        }
    }
}

/// An annotation that no listed key equals has no value.
pub proof fn lemma_annotation_absent(annotations: Seq<Annotation>, key: Seq<char>, from: int)
    requires
        0 <= from,
        forall|i: int| from <= i < annotations.len() ==> annotations[i].key@ != key,
    ensures
        annotation_from(annotations, key, from) is None,
    decreases annotations.len() - from,
{
    if from < annotations.len() {
        lemma_annotation_absent(annotations, key, from + 1);
    }
}

/// The value of an annotation is that of the first entry with its key.
pub proof fn lemma_annotation_first(annotations: Seq<Annotation>, key: Seq<char>, from: int, at: int)
    requires
        0 <= from <= at < annotations.len(),
        annotations[at].key@ == key,
        forall|i: int| from <= i < at ==> annotations[i].key@ != key,
    ensures
        annotation_from(annotations, key, from) == Some(annotations[at].value@),
    decreases at - from,
{
    if from < at {
        lemma_annotation_first(annotations, key, from + 1, at);
    }
}

/// Where no key stands twice, the annotations are read as a map: a key has
/// the value of the one entry that holds it, wherever that entry stands, and
/// no value where no entry holds it.
pub proof fn lemma_annotations_are_a_map(annotations: Seq<Annotation>, key: Seq<char>)
    requires
        distinct_keys(annotations),
    ensures
        forall|at: int|
            0 <= at < annotations.len() && (#[trigger] annotations[at]).key@ == key
                ==> annotation_from(annotations, key, 0) == Some(annotations[at].value@),
        annotation_from(annotations, key, 0) is None <==> forall|i: int|
            0 <= i < annotations.len() ==> (#[trigger] annotations[i]).key@ != key,
{
    assert forall|at: int|
        0 <= at < annotations.len() && (#[trigger] annotations[at]).key@ == key implies annotation_from(
        annotations,
        key,
        0,
    ) == Some(annotations[at].value@) by {
        lemma_annotation_first(annotations, key, 0, at);
    }
    if forall|i: int| 0 <= i < annotations.len() ==> (#[trigger] annotations[i]).key@ != key {
        lemma_annotation_absent(annotations, key, 0);
    }
}

} // verus!
