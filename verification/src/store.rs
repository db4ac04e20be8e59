//! The registry itself: an ordered collection of records that numbers each
//! record as it is created.

use vstd::prelude::*;
use crate::laws::lemma_found_by_position;
use crate::model::{create, has_id, is_first_with_id, new_user, numbered, UserView};
use crate::user::{views, CreateUser, User};

verus! {

/// Why a lookup gave no record.
#[derive(Debug, Clone, Copy, PartialEq, Eq)]
pub enum LookupError {
    /// No record has the requested number.
    NotFound,
}

impl LookupError {
    /// The HTTP status that reports this error to a client.
    pub fn status_code(&self) -> (code: u16)
        ensures
            code == 404,
    {
        match self {
            LookupError::NotFound => 404,
        }
    }
}

/// The records created so far, oldest first. Each record's number is its
/// one-based position; the type keeps that true of every value.
pub struct UserStore {
    users: Vec<User>,
}

impl View for UserStore {
    type V = Seq<UserView>;

    closed spec fn view(&self) -> Seq<UserView> {
        views(self.users@)
    }
}

impl UserStore {
    #[verifier::type_invariant]
    spec fn well_numbered(&self) -> bool {
        numbered(self@)
    }

    /// An empty registry.
    pub fn new() -> (store: Self)
        ensures
            store@ == Seq::<UserView>::empty(),
    {
        UserStore { users: Vec::new() }
    }

    /// The count of records held. It never exceeds the largest record
    /// number.
    pub fn len(&self) -> (n: usize)
        ensures
            n == self@.len(),
            n <= u32::MAX,
    {
        proof {
            use_type_invariant(self);
            if self.users.len() > 0 {
                assert(self@[self.users.len() - 1].id == self.users.len());
            }
        }
        self.users.len()
    }

    /// A copy of every record held, oldest first: none is left out and
    /// none is added. The records are numbered by position.
    pub fn get_users(&self) -> (users: Vec<User>)
        ensures
            views(users@) == self@,
            users@.len() == self@.len(),
            forall|i: int| 0 <= i < users@.len() ==> (#[trigger] users@[i])@ == self@[i],
            numbered(self@),
    {
        proof {
            use_type_invariant(self);
        }
        let users = self.users.clone();
        assert(users@ == self.users@);
        users
    }

    /// Creates a record from `payload`, numbers it one more than the count
    /// of records held, puts it at the end, and returns a copy of it. The
    /// records before it stay as they were.
    ///
    /// Record numbers are 32 bits wide, so a registry that already holds
    /// `u32::MAX` records has no number left for another.
    pub fn add_user(&mut self, payload: CreateUser) -> (created: User)
        requires
            old(self)@.len() < u32::MAX,
        ensures
            created@ == new_user(old(self)@, payload@),
            final(self)@ == create(old(self)@, payload@),
            numbered(final(self)@),
    {
        proof {
            use_type_invariant(&*self);
        }
        let new_id: u32 = self.users.len() as u32 + 1;
        let new_user = User { id: new_id, name: payload.name, email: payload.email };
        // The records are taken out for the push and put back after it:
        // the registry is never borrowed while it could be left unnumbered.
        let mut users: Vec<User> = Vec::new();
        std::mem::swap(&mut users, &mut self.users);
        users.push(new_user.clone());
        assert(views(users@) == create(old(self)@, payload@));
        self.users = users;
        new_user
    }

    /// The first record whose number is `id`, found by scanning from the
    /// oldest record on; `NotFound` if no record has that number. As the
    /// records are numbered by position, a record is found exactly for
    /// the numbers from one to the count of records, and it is the one
    /// at that position.
    pub fn get_user_by_id(&self, id: u32) -> (found: Result<User, LookupError>)
        ensures
            match found {
                Ok(user) => exists|i: int|
                    is_first_with_id(self@, id as nat, i) && user@ == self@[i],
                Err(e) => e == LookupError::NotFound && !has_id(self@, id as nat),
            },
            found is Ok <==> 1 <= id <= self@.len(),
            found matches Ok(user) ==> user@ == self@[id - 1],
    {
        proof {
            use_type_invariant(self);
            lemma_found_by_position(self@, id as nat);
        }
        let mut i: usize = 0;
        while i < self.users.len()
            invariant
                i <= self.users.len(),
                numbered(self@),
                forall|j: int| 0 <= j < i ==> (#[trigger] self@[j]).id != id,
            decreases self.users.len() - i,
        {
            if self.users[i].id == id {
                assert(is_first_with_id(self@, id as nat, i as int));
                return Ok(self.users[i].clone());
            }
            i = i + 1;
        }
        Err(LookupError::NotFound)
    }
}

} // verus!
