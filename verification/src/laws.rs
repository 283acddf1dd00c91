//! What holds of the manager and the bootstrap together, whatever the
//! requests and in whatever order they come.

use vstd::prelude::*;
use crate::endpoint::{lemma_socket_path_injective, socket_path_of};
use crate::error::ErrorView;
use crate::registry::{keeps_entries, registration, resolution};
use crate::shim::resolved;

verus! {

/// A registry keeps its own entries, and keeping entries carries over from
/// one registry to the next: what was registered once stays registered
/// through any number of later calls.
pub proof fn lemma_entries_stay(first: Map<Seq<char>, Seq<char>>, second: Map<Seq<char>, Seq<char>>, third: Map<Seq<char>, Seq<char>>)
    requires
        keeps_entries(second, first),
        keeps_entries(third, second),
    ensures
        keeps_entries(first, first),
        keeps_entries(third, first),
{
    assert forall|id: Seq<char>| #[trigger] first.contains_key(id) implies third.contains_key(id)
        && third[id] == first[id] by {
        assert(second.contains_key(id));
    }
}

/// Through any history of the registry in which each state keeps the
/// entries of the one before it, as every call of the manager does, each
/// state keeps the entries of all that came before.
pub proof fn lemma_history_keeps_entries(history: Seq<Map<Seq<char>, Seq<char>>>, earlier: int, later: int)
    requires
        forall|i: int|
            0 <= i && i + 1 < history.len() ==> keeps_entries(#[trigger] history[i + 1], history[i]),
        0 <= earlier <= later < history.len(),
    ensures
        keeps_entries(history[later], history[earlier]),
    decreases later - earlier,
{
    if earlier < later {
        lemma_history_keeps_entries(history, earlier, later - 1);
        assert(keeps_entries(history[(later - 1) + 1], history[later - 1]));
        lemma_entries_stay(history[earlier], history[later - 1], history[later]);
    }
}

/// A sandbox is created once. After the first `create` of an id has
/// registered it, every later `create` of that id is refused with
/// `AlreadyExists`, and `connect` gives the address of the first
/// registration: in the registry as that `create` left it, and in every
/// registry that keeps its entries.
pub proof fn lemma_create_at_most_once(before: Map<Seq<char>, Seq<char>>, id: Seq<char>, working_directory: Seq<char>, later: Map<Seq<char>, Seq<char>>)
    requires
        registration(before, id) is Ok,
        keeps_entries(later, before.insert(id, socket_path_of(working_directory))),
    ensures
        registration(later, id) == Err::<(), ErrorView>(ErrorView::AlreadyExists(id)),
        resolution(later, id) == Ok::<Seq<char>, ErrorView>(socket_path_of(working_directory)),
{
    let registered = before.insert(id, socket_path_of(working_directory));
    assert(registered.contains_key(id));
}

/// `connect` finds exactly what was registered: an id that no `create` has
/// registered is `NotFound`.
pub proof fn lemma_unregistered_not_found(entries: Map<Seq<char>, Seq<char>>, id: Seq<char>)
    ensures
        !entries.contains_key(id) <==> resolution(entries, id) == Err::<Seq<char>, ErrorView>(
            ErrorView::NotFound(id),
        ),
        resolution(Map::<Seq<char>, Seq<char>>::empty(), id) == Err::<Seq<char>, ErrorView>(
            ErrorView::NotFound(id),
        ),
{
}

/// Two sandboxes with different ids are both registered, in either order
/// and with the same registry in the end. Nothing that was registered before
/// is lost, each of the two resolves to its own address, the registry has
/// grown by two, and the addresses differ where the working directories do.
pub proof fn lemma_distinct_ids_register(entries: Map<Seq<char>, Seq<char>>, id_a: Seq<char>, directory_a: Seq<char>, id_b: Seq<char>, directory_b: Seq<char>)
    requires
        id_a != id_b,
        registration(entries, id_a) is Ok,
        registration(entries, id_b) is Ok,
    ensures
        ({
            let address_a = socket_path_of(directory_a);
            let address_b = socket_path_of(directory_b);
            let a_then_b = entries.insert(id_a, address_a).insert(id_b, address_b);
            let b_then_a = entries.insert(id_b, address_b).insert(id_a, address_a);
            &&& registration(entries.insert(id_a, address_a), id_b) is Ok
            &&& registration(entries.insert(id_b, address_b), id_a) is Ok
            &&& a_then_b == b_then_a
            &&& keeps_entries(a_then_b, entries)
            &&& resolution(a_then_b, id_a) == Ok::<Seq<char>, ErrorView>(address_a)
            &&& resolution(a_then_b, id_b) == Ok::<Seq<char>, ErrorView>(address_b)
            &&& entries.dom().finite() ==> a_then_b.len() == entries.len() + 2
            &&& directory_a != directory_b ==> address_a != address_b
        }),
{
    let address_a = socket_path_of(directory_a);
    let address_b = socket_path_of(directory_b);
    let a_then_b = entries.insert(id_a, address_a).insert(id_b, address_b);
    let b_then_a = entries.insert(id_b, address_b).insert(id_a, address_a);
    assert(a_then_b =~= b_then_a);
    if address_a == address_b {
        lemma_socket_path_injective(directory_a, directory_b);
    }
}

/// The registry after the creates `creates`, each an id and a working
/// directory, have come to their registration one after the other: each
/// enters its id with the socket address of its directory, unless the id is
/// taken.
pub open spec fn registered_in_turn(entries: Map<Seq<char>, Seq<char>>, creates: Seq<(Seq<char>, Seq<char>)>) -> Map<Seq<char>, Seq<char>>
    decreases creates.len(),
{
    if creates.len() == 0 {
        entries
    } else {
        let before = registered_in_turn(entries, creates.drop_last());
        let (id, working_directory) = creates.last();
        if before.contains_key(id) {
            before
        } else {
            before.insert(id, socket_path_of(working_directory))
        }
    }
}

/// The ids of `creates` differ from one another, and `entries` holds none of
/// them.
pub open spec fn fresh_ids(entries: Map<Seq<char>, Seq<char>>, creates: Seq<(Seq<char>, Seq<char>)>) -> bool {
    &&& forall|i: int| 0 <= i < creates.len() ==> !entries.contains_key((#[trigger] creates[i]).0)
    &&& forall|i: int, j: int|
        0 <= i < j < creates.len() ==> (#[trigger] creates[i]).0 != (#[trigger] creates[j]).0
}

/// Any number of creates with fresh ids all register, whatever the order in
/// which their registrations fall: each finds its id free when its turn
/// comes, each id then resolves to the address of its own directory, what was
/// registered before stays, and the registry has grown by their number.
pub proof fn lemma_fresh_ids_all_register(entries: Map<Seq<char>, Seq<char>>, creates: Seq<(Seq<char>, Seq<char>)>)
    requires
        fresh_ids(entries, creates),
    ensures
        forall|k: int|
            0 <= k < creates.len() ==> registration(
                registered_in_turn(entries, #[trigger] creates.take(k)),
                creates[k].0,
            ) is Ok,
        forall|k: int|
            0 <= k < creates.len() ==> resolution(
                registered_in_turn(entries, creates),
                (#[trigger] creates[k]).0,
            ) == Ok::<Seq<char>, ErrorView>(socket_path_of(creates[k].1)),
        forall|id: Seq<char>|
            #[trigger] registered_in_turn(entries, creates).contains_key(id) <==> (
            entries.contains_key(id) || exists|k: int|
                0 <= k < creates.len() && (#[trigger] creates[k]).0 == id),
        keeps_entries(registered_in_turn(entries, creates), entries),
        entries.dom().finite() ==> registered_in_turn(entries, creates).dom().finite()
            && registered_in_turn(entries, creates).len() == entries.len() + creates.len(),
    decreases creates.len(),
{
    if creates.len() > 0 {
        let earlier = creates.drop_last();
        let last = creates.last();
        let before = registered_in_turn(entries, earlier);
        let after = registered_in_turn(entries, creates);
        assert forall|i: int| 0 <= i < earlier.len() implies #[trigger] earlier[i] == creates[i] by {}
        lemma_fresh_ids_all_register(entries, earlier);
        assert(!before.contains_key(last.0)) by {
            if before.contains_key(last.0) {
                let k = choose|k: int| 0 <= k < earlier.len() && (#[trigger] earlier[k]).0 == last.0;
                assert(creates[k].0 == creates[creates.len() - 1].0);
            }
        }
        assert(after == before.insert(last.0, socket_path_of(last.1)));
        assert forall|k: int| 0 <= k < creates.len() implies registration(
            registered_in_turn(entries, #[trigger] creates.take(k)),
            creates[k].0,
        ) is Ok by {
            if k < earlier.len() {
                assert(creates.take(k) =~= earlier.take(k));
            } else {
                assert(creates.take(k) =~= earlier);
            }
        }
        assert forall|k: int| 0 <= k < creates.len() implies resolution(
            after,
            (#[trigger] creates[k]).0,
        ) == Ok::<Seq<char>, ErrorView>(socket_path_of(creates[k].1)) by {
            if k < earlier.len() {
                assert(earlier[k].0 != last.0);
                assert(resolution(before, earlier[k].0) == Ok::<Seq<char>, ErrorView>(
                    socket_path_of(earlier[k].1),
                ));
            }
        }
        assert forall|id: Seq<char>| #[trigger] after.contains_key(id) <==> (entries.contains_key(
            id,
        ) || exists|k: int| 0 <= k < creates.len() && (#[trigger] creates[k]).0 == id) by {
            if before.contains_key(id) && !entries.contains_key(id) {
                let k = choose|k: int| 0 <= k < earlier.len() && (#[trigger] earlier[k]).0 == id;
                assert(creates[k].0 == id);
            }
            if id == last.0 {
                assert(creates[creates.len() - 1].0 == id);
            }
            if exists|k: int| 0 <= k < creates.len() && (#[trigger] creates[k]).0 == id {
                let k = choose|k: int| 0 <= k < creates.len() && (#[trigger] creates[k]).0 == id;
                if k < earlier.len() {
                    assert(earlier[k].0 == id);
                }
            }
        }
    } else {
        assert(creates.take(0) =~= creates);
    }
}

/// The order of registration does not matter: creates with fresh ids leave
/// the same registry in whatever order their registrations fall.
pub proof fn lemma_order_of_registration_is_irrelevant(entries: Map<Seq<char>, Seq<char>>, creates: Seq<(Seq<char>, Seq<char>)>, reordered: Seq<(Seq<char>, Seq<char>)>)
    requires
        fresh_ids(entries, creates),
        fresh_ids(entries, reordered),
        forall|i: int| 0 <= i < creates.len() ==> reordered.contains(#[trigger] creates[i]),
        forall|i: int| 0 <= i < reordered.len() ==> creates.contains(#[trigger] reordered[i]),
    ensures
        registered_in_turn(entries, creates) == registered_in_turn(entries, reordered),
{
    let one = registered_in_turn(entries, creates);
    let other = registered_in_turn(entries, reordered);
    lemma_fresh_ids_all_register(entries, creates);
    lemma_fresh_ids_all_register(entries, reordered);
    assert forall|id: Seq<char>| one.contains_key(id) implies other.contains_key(id) && one[id]
        == other[id] by {
        if !entries.contains_key(id) {
            let k = choose|k: int| 0 <= k < creates.len() && (#[trigger] creates[k]).0 == id;
            assert(reordered.contains(creates[k]));
            let j = choose|j: int| 0 <= j < reordered.len() && reordered[j] == creates[k];
            assert(reordered[j].0 == id);
            assert(resolution(one, creates[k].0) == Ok::<Seq<char>, ErrorView>(
                socket_path_of(creates[k].1),
            ));
            assert(resolution(other, reordered[j].0) == Ok::<Seq<char>, ErrorView>(
                socket_path_of(reordered[j].1),
            ));
        }
    }
    assert forall|id: Seq<char>| other.contains_key(id) implies one.contains_key(id) by {
        if !entries.contains_key(id) {
            let j = choose|j: int| 0 <= j < reordered.len() && (#[trigger] reordered[j]).0 == id;
            assert(creates.contains(reordered[j]));
            let k = choose|k: int| 0 <= k < creates.len() && creates[k] == reordered[j];
            assert(creates[k].0 == id);
        }
    }
    assert(one =~= other);
}

/// A bootstrap whose sandbox the manager holds already ends with the address
/// registered: `create` is refused, `connect` answers, and the refusal does
/// not reach the caller.
pub proof fn lemma_bootstrap_finds_registered(entries: Map<Seq<char>, Seq<char>>, id: Seq<char>)
    requires
        entries.contains_key(id),
    ensures
        registration(entries, id) matches Err(refusal) && resolved(
            Err(refusal),
            resolution(entries, id),
        ) == Ok::<Seq<char>, ErrorView>(entries[id]),
{
}

/// A bootstrap ends with the address that `create` gave, and otherwise with
/// whatever `connect` answered: only a failure of both reaches the caller.
pub proof fn lemma_bootstrap_outcome(created: Result<Seq<char>, ErrorView>, connected: Result<Seq<char>, ErrorView>)
    ensures
        resolved(created, connected) is Err <==> created is Err && connected is Err,
        created matches Ok(address) ==> resolved(created, connected) == Ok::<
            Seq<char>,
            ErrorView,
        >(address),
        created is Err ==> resolved(created, connected) == connected,
{
}

} // verus!
