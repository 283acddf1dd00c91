//! The registry: which sandbox is served at which socket address.

use vstd::prelude::*;
use vstd::hash_map::StringHashMap;
use crate::error::{Error, ErrorView};

verus! {

/// Maps a sandbox id to the socket address of its task server.
///
/// An id is entered once and never again: no entry is overwritten, and none
/// is removed.
pub struct Registry {
    entries: StringHashMap<String>,
}

impl View for Registry {
    type V = Map<Seq<char>, Seq<char>>;

    closed spec fn view(&self) -> Map<Seq<char>, Seq<char>> {
        self.entries@.map_values(|address: String| address@)
    }
}

/// `later` holds every entry of `earlier`, with the same address.
pub open spec fn keeps_entries(later: Map<Seq<char>, Seq<char>>, earlier: Map<Seq<char>, Seq<char>>) -> bool {
    forall|id: Seq<char>| #[trigger]
        earlier.contains_key(id) ==> later.contains_key(id) && later[id] == earlier[id]
}

/// What `register` answers on a registry that holds `entries`.
pub open spec fn registration(entries: Map<Seq<char>, Seq<char>>, id: Seq<char>) -> Result<(), ErrorView> {
    if entries.contains_key(id) {
        Err(ErrorView::AlreadyExists(id))
    } else {
        Ok(())
    }
}

/// What `resolve` answers on a registry that holds `entries`.
pub open spec fn resolution(entries: Map<Seq<char>, Seq<char>>, id: Seq<char>) -> Result<Seq<char>, ErrorView> {
    if entries.contains_key(id) {
        Ok(entries[id])
    } else {
        Err(ErrorView::NotFound(id))
    }
}

impl Registry {
    /// A registry without entries.
    pub fn new() -> (registry: Registry)
        ensures
            registry@ == Map::<Seq<char>, Seq<char>>::empty(),
    {
        let registry = Registry { entries: StringHashMap::new() };
        assert(registry@ =~= Map::<Seq<char>, Seq<char>>::empty());
        registry
    }

    /// The number of sandboxes entered so far.
    pub fn len(&self) -> (n: usize)
        ensures
            n == self@.len(),
    {
        proof {
            assert(self@.dom() =~= self.entries@.dom());
        }
        self.entries.len()
    }

    /// Whether `id` is entered.
    pub fn contains(&self, id: &str) -> (found: bool)
        ensures
            found == self@.contains_key(id@),
    {
        self.entries.contains_key(id)
    }

    /// The address entered for `id`.
    pub fn resolve(&self, id: &str) -> (found: Result<String, Error>)
        ensures
            match found {
                Ok(address) => resolution(self@, id@) == Ok::<Seq<char>, ErrorView>(address@),
                Err(e) => resolution(self@, id@) == Err::<Seq<char>, ErrorView>(e@),
            },
    {
        match self.entries.get(id) {
            Some(address) => Ok(address.clone()),
            None => Err(Error::NotFound(id.to_owned())),
        }
    }

    /// Enters `id` with `address`, unless `id` is entered already: then the
    /// registry stays as it is and the call fails with `AlreadyExists`.
    pub fn register(&mut self, id: String, address: String) -> (done: Result<(), Error>)
        ensures
            match done {
                Ok(()) => registration(old(self)@, id@) is Ok
                    && final(self)@ == old(self)@.insert(id@, address@),
                Err(e) => registration(old(self)@, id@) == Err::<(), ErrorView>(e@)
                    && final(self)@ == old(self)@,
            },
            keeps_entries(final(self)@, old(self)@),
    {
        if self.entries.contains_key(id.as_str()) {
            Err(Error::AlreadyExists(id))
        } else {
            let ghost before = self.entries@;
            let ghost key = id@;
            let ghost value = address@;
            self.entries.insert(id, address);
            proof {
                assert(self.entries@.map_values(|a: String| a@) =~= before.map_values(
                    |a: String| a@,
                ).insert(key, value));
            }
            Ok(())
        }
    }
}

} // verus!
