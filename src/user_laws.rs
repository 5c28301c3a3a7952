use vstd::prelude::*;

use crate::crypto_utils::argon2_verifies;
use crate::user_controller::{controller_create, controller_delete, controller_read, ModelSlots, UserControllerError};
use crate::user_model::UserModelView;
use crate::user_dto::UserCreateDtoView;
use crate::user_entity::UserView;
use crate::user_service::{live_users, spec_create, spec_delete, spec_list, spec_read, Slots, UserServiceError};

verus! {

/// Creating a user and then reading the id it was given yields that user:
/// its name is the requested one and its stored hash is one that the
/// verifier accepts for the plaintext. A plaintext that does not begin with
/// `$` never equals the stored hash, which always does.
pub proof fn lemma_create_then_read(slots: Slots, input: UserCreateDtoView, hash: Seq<char>)
    requires
        slots.len() < usize::MAX,
        input.username.len() > 0,
        argon2_verifies(input.password, hash),
        hash.len() > 0 && hash[0] == '$',
    ensures
        ({
            let (after, created) = spec_create(Some(slots), input, Ok(hash));
            &&& created is Ok
            &&& spec_read(after, created->Ok_0.id) == created
            &&& created->Ok_0.username == input.username
            &&& argon2_verifies(input.password, created->Ok_0.password_hash)
            &&& (input.password.len() == 0 || input.password[0] != '$') ==> created->Ok_0.password_hash
                != input.password
        }),
{
    let (after, created) = spec_create(Some(slots), input, Ok(hash));
    let u = created->Ok_0;
    assert(after->Some_0[slots.len() as int] == Some(u));
    if input.password.len() == 0 || input.password[0] != '$' {
        assert(u.password_hash[0] != input.password[0] || input.password.len() != u.password_hash.len());
    }
}

/// After a user is deleted, reading its id yields `UserNotFound`, and so does
/// deleting it a second time, which leaves the store as it is.
pub proof fn lemma_delete_then_read(slots: Slots, id: u128)
    ensures
        ({
            let (after, _) = spec_delete(Some(slots), id);
            &&& spec_read(after, id) == Err::<UserView, UserServiceError>(UserServiceError::UserNotFound(id))
            &&& spec_delete(after, id) == (after, Err::<UserView, UserServiceError>(UserServiceError::UserNotFound(id)))
        }),
{
}

/// A slot sequence with every slot empty holds no entries; so listing a
/// store, in-memory service or positional, in which no user is present
/// yields the empty sequence.
pub proof fn lemma_no_live_users<T>(slots: Seq<Option<T>>)
    requires
        forall|i: int| 0 <= i < slots.len() ==> #[trigger] slots[i] is None,
    ensures
        live_users(slots) == Seq::<T>::empty(),
    decreases slots.len(),
{
    if slots.len() > 0 {
        lemma_no_live_users(slots.drop_last());
        assert(slots[slots.len() - 1] is None);
    }
}

/// Listing a service store in which no user is present yields the empty
/// sequence, not an error; a fresh store is such a store.
pub proof fn lemma_list_of_empty_store(slots: Slots)
    requires
        forall|i: int| 0 <= i < slots.len() ==> #[trigger] slots[i] is None,
    ensures
        spec_list(Some(slots)) == Ok::<Seq<UserView>, UserServiceError>(Seq::empty()),
{
    lemma_no_live_users(slots);
}

/// Creating users one after another, with every name non-empty and every
/// hash computed; the results, in order, and the final store.
pub open spec fn create_in_turn(slots: Slots, inputs: Seq<UserCreateDtoView>, hashes: Seq<Seq<char>>) -> (
    Option<Slots>,
    Seq<Result<UserView, UserServiceError>>,
)
    decreases inputs.len(),
{
    if inputs.len() == 0 || hashes.len() == 0 {
        (Some(slots), Seq::empty())
    } else {
        let (mid, results) = create_in_turn(slots, inputs.drop_last(), hashes.drop_last());
        let (after, r) = spec_create(mid, inputs.last(), Ok(hashes.last()));
        (after, results.push(r))
    }
}

proof fn lemma_create_in_turn_shape(slots: Slots, inputs: Seq<UserCreateDtoView>, hashes: Seq<Seq<char>>)
    requires
        inputs.len() == hashes.len(),
        slots.len() + inputs.len() <= usize::MAX,
        forall|i: int| 0 <= i < inputs.len() ==> (#[trigger] inputs[i]).username.len() > 0,
    ensures
        ({
            let (after, results) = create_in_turn(slots, inputs, hashes);
            &&& after is Some
            &&& after->Some_0.len() == slots.len() + inputs.len()
            &&& results.len() == inputs.len()
            &&& forall|i: int| 0 <= i < results.len() ==> {
                &&& #[trigger] results[i] is Ok
                &&& results[i]->Ok_0.id == slots.len() + i
                &&& results[i]->Ok_0.username == inputs[i].username
                &&& live_users(after->Some_0).contains(results[i]->Ok_0)
            }
        }),
    decreases inputs.len(),
{
    if inputs.len() > 0 {
        let ins = inputs.drop_last();
        let hs = hashes.drop_last();
        assert forall|i: int| 0 <= i < ins.len() implies (#[trigger] ins[i]).username.len() > 0 by {
            assert(ins[i] == inputs[i]);
        }
        lemma_create_in_turn_shape(slots, ins, hs);
        let (mid, results) = create_in_turn(slots, ins, hs);
        let (after, r) = spec_create(mid, inputs.last(), Ok(hashes.last()));
        assert(inputs.last().username.len() > 0);
        let m = mid->Some_0;
        let a = after->Some_0;
        assert(a.drop_last() =~= m);
        assert(live_users(a) == live_users(m).push(r->Ok_0));
        let all = results.push(r);
        assert forall|i: int| 0 <= i < all.len() implies {
            &&& #[trigger] all[i] is Ok
            &&& all[i]->Ok_0.id == slots.len() + i
            &&& all[i]->Ok_0.username == inputs[i].username
            &&& live_users(a).contains(all[i]->Ok_0)
        } by {
            if i < results.len() {
                assert(all[i] == results[i]);
                let k = choose|k: int| 0 <= k < live_users(m).len() && live_users(m)[k] == results[i]->Ok_0;
                assert(live_users(a)[k] == results[i]->Ok_0);
            } else {
                assert(live_users(a)[live_users(a).len() - 1] == r->Ok_0);
            }
        }
    }
}

/// Users created one after another (as the store's lock serialises
/// concurrent calls) each get a distinct id, and all of them are present in
/// a listing taken afterwards.
pub proof fn lemma_creates_distinct_and_listed(slots: Slots, inputs: Seq<UserCreateDtoView>, hashes: Seq<Seq<char>>)
    requires
        inputs.len() == hashes.len(),
        slots.len() + inputs.len() <= usize::MAX,
        forall|i: int| 0 <= i < inputs.len() ==> (#[trigger] inputs[i]).username.len() > 0,
    ensures
        ({
            let (after, results) = create_in_turn(slots, inputs, hashes);
            &&& results.len() == inputs.len()
            &&& forall|i: int| 0 <= i < results.len() ==> #[trigger] results[i] is Ok
            &&& forall|i: int, j: int|
                0 <= i < j < results.len() ==> (#[trigger] results[i])->Ok_0.id != (#[trigger] results[j])->Ok_0.id
            &&& spec_list(after) is Ok
            &&& forall|i: int| 0 <= i < results.len() ==> spec_list(after)->Ok_0.contains(#[trigger] results[i]->Ok_0)
        }),
{
    lemma_create_in_turn_shape(slots, inputs, hashes);
}

/// In the positional store, creating a user and then reading the id it was
/// given yields that user, with the requested name.
pub proof fn lemma_controller_create_then_read(slots: ModelSlots, username: Seq<char>)
    requires
        slots.len() < usize::MAX,
        username.len() > 0,
    ensures
        ({
            let (after, created) = controller_create(slots, username);
            &&& created is Ok
            &&& created->Ok_0.username == username
            &&& controller_read(after, created->Ok_0.id) == created
        }),
{
    let (after, created) = controller_create(slots, username);
    assert(after[slots.len() as int] == Some(created->Ok_0));
}

/// In the positional store, after a user is deleted, reading its id and
/// deleting it again both yield `UserNotFound`.
pub proof fn lemma_controller_delete_then_read(slots: ModelSlots, id: u64)
    ensures
        ({
            let (after, _) = controller_delete(slots, id);
            &&& controller_read(after, id) == Err::<UserModelView, UserControllerError>(
                UserControllerError::UserNotFound(id),
            )
            &&& controller_delete(after, id) == (after, Err::<UserModelView, UserControllerError>(
                UserControllerError::UserNotFound(id),
            ))
        }),
{
}

/// Creating users in the positional store one after another; the results,
/// in order, and the final slots.
pub open spec fn controller_create_in_turn(slots: ModelSlots, names: Seq<Seq<char>>) -> (
    ModelSlots,
    Seq<Result<UserModelView, UserControllerError>>,
)
    decreases names.len(),
{
    if names.len() == 0 {
        (slots, Seq::empty())
    } else {
        let (mid, results) = controller_create_in_turn(slots, names.drop_last());
        let (after, r) = controller_create(mid, names.last());
        (after, results.push(r))
    }
}

/// Users created one after another in the positional store (as its lock
/// serialises concurrent calls) each get a distinct id, and all of them are
/// present in a listing taken afterwards.
pub proof fn lemma_controller_creates_distinct_and_listed(slots: ModelSlots, names: Seq<Seq<char>>)
    requires
        slots.len() + names.len() <= usize::MAX,
        forall|i: int| 0 <= i < names.len() ==> (#[trigger] names[i]).len() > 0,
    ensures
        ({
            let (after, results) = controller_create_in_turn(slots, names);
            &&& results.len() == names.len()
            &&& forall|i: int| 0 <= i < results.len() ==> #[trigger] results[i] is Ok
            &&& forall|i: int, j: int|
                0 <= i < j < results.len() ==> (#[trigger] results[i])->Ok_0.id != (#[trigger] results[j])->Ok_0.id
            &&& forall|i: int| 0 <= i < results.len() ==> live_users(after).contains(#[trigger] results[i]->Ok_0)
        }),
{
    lemma_controller_create_in_turn_shape(slots, names);
}

proof fn lemma_controller_create_in_turn_shape(slots: ModelSlots, names: Seq<Seq<char>>)
    requires
        slots.len() + names.len() <= usize::MAX,
        forall|i: int| 0 <= i < names.len() ==> (#[trigger] names[i]).len() > 0,
    ensures
        ({
            let (after, results) = controller_create_in_turn(slots, names);
            &&& after.len() == slots.len() + names.len()
            &&& results.len() == names.len()
            &&& forall|i: int| 0 <= i < results.len() ==> {
                &&& #[trigger] results[i] is Ok
                &&& results[i]->Ok_0.id == slots.len() + i
                &&& results[i]->Ok_0.username == names[i]
                &&& live_users(after).contains(results[i]->Ok_0)
            }
        }),
    decreases names.len(),
{
    if names.len() > 0 {
        let ns = names.drop_last();
        assert forall|i: int| 0 <= i < ns.len() implies (#[trigger] ns[i]).len() > 0 by {
            assert(ns[i] == names[i]);
        }
        lemma_controller_create_in_turn_shape(slots, ns);
        let (mid, results) = controller_create_in_turn(slots, ns);
        let (after, r) = controller_create(mid, names.last());
        assert(names.last().len() > 0);
        assert(after.drop_last() =~= mid);
        assert(live_users(after) == live_users(mid).push(r->Ok_0));
        let all = results.push(r);
        assert forall|i: int| 0 <= i < all.len() implies {
            &&& #[trigger] all[i] is Ok
            &&& all[i]->Ok_0.id == slots.len() + i
            &&& all[i]->Ok_0.username == names[i]
            &&& live_users(after).contains(all[i]->Ok_0)
        } by {
            if i < results.len() {
                assert(all[i] == results[i]);
                let k = choose|k: int| 0 <= k < live_users(mid).len() && live_users(mid)[k] == results[i]->Ok_0;
                assert(live_users(after)[k] == results[i]->Ok_0);
            } else {
                assert(live_users(after)[live_users(after).len() - 1] == r->Ok_0);
            }
        }
    }
}

} // verus!
