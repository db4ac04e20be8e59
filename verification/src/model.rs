//! The mathematical model of the registry: a sequence of records, and the
//! functions that say what creating and finding a record mean.

use vstd::prelude::*;

verus! {

/// What a stored record is: its number, and the two texts it carries.
pub struct UserView {
    pub id: nat,
    pub name: Seq<char>,
    pub email: Seq<char>,
}

/// What a request to create a record carries.
pub struct CreateUserView {
    pub name: Seq<char>,
    pub email: Seq<char>,
}

/// The number that the next record receives: one more than the count of
/// records held.
pub open spec fn next_id(users: Seq<UserView>) -> nat {
    users.len() + 1
}

/// The record with the number `id` that carries the texts of `payload`.
pub open spec fn record(id: nat, payload: CreateUserView) -> UserView {
    UserView { id, name: payload.name, email: payload.email }
}

/// The record that `payload` becomes when it is created in `users`.
pub open spec fn new_user(users: Seq<UserView>, payload: CreateUserView) -> UserView {
    record(next_id(users), payload)
}

/// The registry after one creation: the new record stands at the end.
pub open spec fn create(users: Seq<UserView>, payload: CreateUserView) -> Seq<UserView> {
    users.push(new_user(users, payload))
}

/// The registry after creating each of `payloads` in turn, first to last.
pub open spec fn create_all(users: Seq<UserView>, payloads: Seq<CreateUserView>) -> Seq<UserView>
    decreases payloads.len(),
{
    if payloads.len() == 0 {
        users
    } else {
        create(create_all(users, payloads.drop_last()), payloads.last())
    }
}

/// The texts that a record was created with.
pub open spec fn payload_of(user: UserView) -> CreateUserView {
    CreateUserView { name: user.name, email: user.email }
}

/// The texts that each of `users` was created with, in the same order.
pub open spec fn payloads_of(users: Seq<UserView>) -> Seq<CreateUserView> {
    users.map_values(|u: UserView| payload_of(u))
}

/// Every record carries its one-based position as its number.
pub open spec fn numbered(users: Seq<UserView>) -> bool {
    forall|i: int| 0 <= i < users.len() ==> (#[trigger] users[i]).id == i + 1
}

/// Some record in `users` has the number `id`.
pub open spec fn has_id(users: Seq<UserView>, id: nat) -> bool {
    exists|i: int| 0 <= i < users.len() && (#[trigger] users[i]).id == id
}

/// No two records share a number.
pub open spec fn ids_distinct(users: Seq<UserView>) -> bool {
    forall|i: int, j: int|
        0 <= i < j < users.len() ==> (#[trigger] users[i]).id != (#[trigger] users[j]).id
}

/// The numbers in use are exactly those from one to the count of records:
/// none lies outside that range, and none inside it is missing.
pub open spec fn ids_contiguous(users: Seq<UserView>) -> bool {
    &&& forall|i: int| 0 <= i < users.len() ==> 1 <= (#[trigger] users[i]).id <= users.len()
    &&& forall|id: nat| 1 <= id <= users.len() ==> #[trigger] has_id(users, id)
}

/// `i` is the position of the first record in `users` whose number is `id`.
pub open spec fn is_first_with_id(users: Seq<UserView>, id: nat, i: int) -> bool {
    &&& 0 <= i < users.len()
    &&& users[i].id == id
    &&& forall|j: int| 0 <= j < i ==> (#[trigger] users[j]).id != id
}


} // verus!
