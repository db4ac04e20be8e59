//! General facts about the model, each proved once for all registries.

use vstd::prelude::*;
use crate::model::{
    create, create_all, has_id, ids_contiguous, ids_distinct, is_first_with_id, new_user,
    next_id, numbered, payloads_of, record, CreateUserView, UserView,
};

verus! {

/// The empty registry is numbered.
pub proof fn lemma_empty_is_numbered()
    ensures
        numbered(Seq::<UserView>::empty()),
{
}

/// Creating a record adds exactly one record, at the end, and leaves every
/// record that was there untouched and in place.
pub proof fn lemma_create_appends(users: Seq<UserView>, payload: CreateUserView)
    ensures
        create(users, payload).len() == users.len() + 1,
        create(users, payload).take(users.len() as int) == users,
        create(users, payload).last() == new_user(users, payload),
{
}

/// Creating a record in a numbered registry leaves it numbered.
pub proof fn lemma_create_keeps_numbered(users: Seq<UserView>, payload: CreateUserView)
    requires
        numbered(users),
    ensures
        numbered(create(users, payload)),
{
}

/// Creations keep a numbered registry numbered, however many follow.
pub proof fn lemma_create_all_keeps_numbered(users: Seq<UserView>, payloads: Seq<CreateUserView>)
    requires
        numbered(users),
    ensures
        numbered(create_all(users, payloads)),
    decreases payloads.len(),
{
    if payloads.len() > 0 {
        lemma_create_all_keeps_numbered(users, payloads.drop_last());
    }
}

/// In a numbered registry no two records share a number, and the numbers
/// in use are exactly one to the count of records: no collisions and no
/// gaps.
pub proof fn lemma_numbered_ids_distinct_and_contiguous(users: Seq<UserView>)
    requires
        numbered(users),
    ensures
        ids_distinct(users),
        ids_contiguous(users),
{
    assert forall|id: nat| 1 <= id <= users.len() implies #[trigger] has_id(users, id) by {
        assert(users[id - 1].id == id);
    }
}

/// In a numbered registry the record with number `id` is the one at
/// position `id`, counted from one, and no record has a number outside
/// one to the count of records.
pub proof fn lemma_found_by_position(users: Seq<UserView>, id: nat)
    requires
        numbered(users),
    ensures
        1 <= id <= users.len() ==> is_first_with_id(users, id, id - 1),
        forall|i: int| is_first_with_id(users, id, i) ==> i == id - 1,
        has_id(users, id) <==> 1 <= id <= users.len(),
{
    if 1 <= id <= users.len() {
        assert(users[id - 1].id == id);
    }
}

/// A record can be looked up by the number it was given as soon as it is
/// created, and creating it changes no earlier record or its number.
pub proof fn lemma_created_is_found(users: Seq<UserView>, payload: CreateUserView)
    requires
        numbered(users),
    ensures
        is_first_with_id(create(users, payload), next_id(users), users.len() as int),
        create(users, payload)[users.len() as int] == new_user(users, payload),
        forall|i: int, id: nat|
            is_first_with_id(users, id, i) ==> is_first_with_id(create(users, payload), id, i)
                && create(users, payload)[i] == users[i],
{
}

/// Creating `payloads` in turn adds one record for each, after the records
/// that were there: the record for `payloads[k]` stands `k` places past
/// them, carries the texts of `payloads[k]`, and has its one-based
/// position as its number.
pub proof fn lemma_create_all(users: Seq<UserView>, payloads: Seq<CreateUserView>)
    ensures
        create_all(users, payloads).len() == users.len() + payloads.len(),
        create_all(users, payloads).take(users.len() as int) == users,
        forall|k: int|
            0 <= k < payloads.len() ==> #[trigger] create_all(users, payloads)[users.len() + k]
                == record((users.len() + k + 1) as nat, payloads[k]),
    decreases payloads.len(),
{
    if payloads.len() > 0 {
        lemma_create_all(users, payloads.drop_last());
    }
}

/// Starting from the empty registry, `n` creations give `n` records,
/// numbered `1..=n` in the order of creation, each carrying the texts it
/// was created with.
pub proof fn lemma_creations_from_empty(payloads: Seq<CreateUserView>)
    ensures
        create_all(Seq::empty(), payloads).len() == payloads.len(),
        forall|k: int|
            0 <= k < payloads.len() ==> #[trigger] create_all(Seq::empty(), payloads)[k] == record(
                (k + 1) as nat,
                payloads[k],
            ),
        numbered(create_all(Seq::empty(), payloads)),
        payloads_of(create_all(Seq::empty(), payloads)) == payloads,
{
    let after = create_all(Seq::empty(), payloads);
    lemma_create_all(Seq::empty(), payloads);
    assert forall|k: int| 0 <= k < payloads.len() implies #[trigger] after[k] == record(
        (k + 1) as nat,
        payloads[k],
    ) by {
        assert(after[k] == after[0 + k]);
    }
}

/// Creations that compete for the registry are admitted one at a time, in
/// an order nobody chose. Whatever that order is, `n` creations give `n`
/// records whose numbers are `1..=n` without collision or gap, and the
/// records carry the texts that were sent, each as often as it was sent.
pub proof fn lemma_creations_in_any_order(
    sent: Seq<CreateUserView>,
    admitted: Seq<CreateUserView>,
)
    requires
        admitted.to_multiset() == sent.to_multiset(),
    ensures
        create_all(Seq::empty(), admitted).len() == sent.len(),
        ids_distinct(create_all(Seq::empty(), admitted)),
        ids_contiguous(create_all(Seq::empty(), admitted)),
        payloads_of(create_all(Seq::empty(), admitted)).to_multiset() == sent.to_multiset(),
{
    sent.to_multiset_ensures();
    admitted.to_multiset_ensures();
    lemma_creations_from_empty(admitted);
    lemma_numbered_ids_distinct_and_contiguous(create_all(Seq::empty(), admitted));
}

} // verus!
