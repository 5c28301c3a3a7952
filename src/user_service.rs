use vstd::prelude::*;

use crate::crypto_utils::{argon2_verifies, hash_password, HashError};
use crate::ids::{uuid_string, uuid_text};
use crate::service::Service;
use crate::user_dto::{UserCreateDto, UserCreateDtoView};
use crate::user_entity::{user_views, User, UserView};

verus! {

/// Failures of the user service.
#[derive(Debug)]
pub enum UserServiceError {
    /// No stored user has this id.
    UserNotFound(u128),
    /// No backend is configured, or the password could not be hashed.
    InternalServerError,
    /// The request is malformed (an empty username).
    InvalidInput,
    /// The relational store failed; the text is the driver's message, for
    /// the log only: clients see a fixed message.
    DatabaseError(String),
    /// The relational store refused the row under a constraint (a taken
    /// username); the text is the driver's message, for the log only.
    ConstraintViolation(String),
}

/// The message of an error, as clients see it.
pub open spec fn error_text(e: UserServiceError) -> Seq<char> {
    match e {
        UserServiceError::UserNotFound(id) => "User with id "@ + uuid_text(id) + " not found"@,
        UserServiceError::InternalServerError => "Internal server error"@,
        UserServiceError::InvalidInput => "Invalid input"@,
        UserServiceError::DatabaseError(_) => "Database error"@,
        UserServiceError::ConstraintViolation(_) => "Constraint violation"@,
    }
}

/// The HTTP status that an error maps to.
pub open spec fn error_status(e: UserServiceError) -> u16 {
    match e {
        UserServiceError::UserNotFound(_) => 404,
        UserServiceError::InternalServerError => 500,
        UserServiceError::InvalidInput => 400,
        UserServiceError::DatabaseError(_) => 500,
        UserServiceError::ConstraintViolation(_) => 400,
    }
}

impl UserServiceError {
    /// The error's message.
    pub fn message(&self) -> (r: String)
        ensures
            r@ == error_text(*self),
    {
        match self {
            UserServiceError::UserNotFound(id) => {
                let mut s = String::from_str("User with id ");
                let t = uuid_string(*id);
                s.append(t.as_str());
                s.append(" not found");
                s
            },
            UserServiceError::InternalServerError => String::from_str("Internal server error"),
            UserServiceError::InvalidInput => String::from_str("Invalid input"),
            UserServiceError::DatabaseError(_) => String::from_str("Database error"),
            UserServiceError::ConstraintViolation(_) => String::from_str("Constraint violation"),
        }
    }

    /// The HTTP status code of the error.
    pub fn status_code(&self) -> (r: u16)
        ensures
            r == error_status(*self),
    {
        match self {
            UserServiceError::UserNotFound(_) => 404,
            UserServiceError::InternalServerError => 500,
            UserServiceError::InvalidInput => 400,
            UserServiceError::DatabaseError(_) => 500,
            UserServiceError::ConstraintViolation(_) => 400,
        }
    }
}

/// The slots of the in-memory store: a deleted user leaves an empty slot, so
/// that ids, which are slot positions, never shift.
pub type Slots = Seq<Option<UserView>>;

/// The value of a user service: its name and, when the in-memory backend is
/// configured, its slots.
pub struct UserServiceView {
    pub name: Seq<char>,
    pub store: Option<Slots>,
}

/// The entries present in a slot sequence, in slot order.
pub open spec fn live_users<T>(slots: Seq<Option<T>>) -> Seq<T>
    decreases slots.len(),
{
    if slots.len() == 0 {
        Seq::empty()
    } else {
        let earlier = live_users(slots.drop_last());
        match slots.last() {
            Some(u) => earlier.push(u),
            None => earlier,
        }
    }
}

/// The value of a hasher's outcome.
pub open spec fn hashed_view(h: Result<String, HashError>) -> Result<Seq<char>, HashError> {
    match h {
        Ok(s) => Ok(s@),
        Err(e) => Err(e),
    }
}

/// The value of a service result that carries a user.
pub open spec fn user_result_view(r: Result<User, UserServiceError>) -> Result<UserView, UserServiceError> {
    match r {
        Ok(u) => Ok(u@),
        Err(e) => Err(e),
    }
}

/// Creating a user: a configured store, a non-empty name and a hash are
/// needed; the user takes the next slot, and its id is that slot's position.
pub open spec fn spec_create(
    store: Option<Slots>,
    input: UserCreateDtoView,
    hashed: Result<Seq<char>, HashError>,
) -> (Option<Slots>, Result<UserView, UserServiceError>) {
    match store {
        None => (store, Err(UserServiceError::InternalServerError)),
        Some(slots) => if input.username.len() == 0 {
            (store, Err(UserServiceError::InvalidInput))
        } else {
            match hashed {
                Err(_) => (store, Err(UserServiceError::InternalServerError)),
                Ok(h) => {
                    let u = UserView { id: slots.len() as u128, username: input.username, password_hash: h };
                    (Some(slots.push(Some(u))), Ok(u))
                },
            }
        },
    }
}

/// Reading the user with a given id.
pub open spec fn spec_read(store: Option<Slots>, id: u128) -> Result<UserView, UserServiceError> {
    match store {
        None => Err(UserServiceError::InternalServerError),
        Some(slots) => if id < slots.len() && slots[id as int] is Some {
            Ok(slots[id as int]->Some_0)
        } else {
            Err(UserServiceError::UserNotFound(id))
        },
    }
}

/// Listing the users present, in slot order.
pub open spec fn spec_list(store: Option<Slots>) -> Result<Seq<UserView>, UserServiceError> {
    match store {
        None => Err(UserServiceError::InternalServerError),
        Some(slots) => Ok(live_users(slots)),
    }
}

/// Deleting the user with a given id: its slot is emptied and it is returned.
pub open spec fn spec_delete(store: Option<Slots>, id: u128) -> (Option<Slots>, Result<UserView, UserServiceError>) {
    match store {
        None => (store, Err(UserServiceError::InternalServerError)),
        Some(slots) => if id < slots.len() && slots[id as int] is Some {
            (Some(slots.update(id as int, None)), Ok(slots[id as int]->Some_0))
        } else {
            (store, Err(UserServiceError::UserNotFound(id)))
        },
    }
}

/// Checks a creation request before any work is spent on it: an empty
/// username is `InvalidInput`.
pub fn validate_create_input(input: &UserCreateDto) -> (r: Result<(), UserServiceError>)
    ensures
        input.username@.len() == 0 <==> r is Err,
        r is Err ==> r == Err::<(), UserServiceError>(UserServiceError::InvalidInput),
{
    if input.username.as_str().is_empty() {
        Err(UserServiceError::InvalidInput)
    } else {
        Ok(())
    }
}

/// The service that manages user accounts over the in-memory backend. A
/// service built without a backend fails every operation with
/// `InternalServerError`. A slot holds a user's name and hash; its position
/// is the user's id, so a stored user's id always matches its slot.
#[derive(Clone)]
pub struct UserService {
    pub name: String,
    store: Option<Vec<Option<Credentials>>>,
}

/// What a slot of the in-memory store holds.
#[derive(Clone)]
struct Credentials {
    username: String,
    password_hash: String,
}

/// The user that slot `k` stands for.
spec fn slot_view(o: Option<Credentials>, k: int) -> Option<UserView> {
    match o {
        Some(c) => Some(UserView { id: k as u128, username: c.username@, password_hash: c.password_hash@ }),
        None => None,
    }
}

/// The users that the slots stand for.
spec fn slot_views(s: Seq<Option<Credentials>>) -> Slots {
    Seq::new(s.len(), |k: int| slot_view(s[k], k))
}

/// The contents of one slot, without its position.
spec fn credentials_view(o: Option<Credentials>) -> Option<(Seq<char>, Seq<char>)> {
    match o {
        Some(c) => Some((c.username@, c.password_hash@)),
        None => None,
    }
}

impl View for UserService {
    type V = UserServiceView;

    closed spec fn view(&self) -> UserServiceView {
        UserServiceView {
            name: self.name@,
            store: match self.store {
                Some(v) => Some(slot_views(v@)),
                None => None,
            },
        }
    }
}

impl Service for UserService {
    open spec fn service_name(&self) -> Seq<char> {
        self@.name
    }

    fn name(&self) -> (r: String) {
        proof { self.lemma_name(); }
        self.name.clone()
    }
}

impl UserService {
    proof fn lemma_name(&self)
        ensures
            self@.name == self.name@,
    {
    }

    /// A service named "UserService", with an empty in-memory store when
    /// `in_memory` holds and with no backend otherwise.
    pub fn new(in_memory: bool) -> (r: Self)
        ensures
            r@.name == "UserService"@,
            in_memory ==> r@.store == Some(Seq::<Option<UserView>>::empty()),
            !in_memory ==> r@.store is None,
    {
        let store = if in_memory {
            Some(Vec::new())
        } else {
            None
        };
        let r = UserService { name: String::from_str("UserService"), store };
        proof {
            if in_memory {
                assert(slot_views(Seq::<Option<Credentials>>::empty()) =~= Seq::<Option<UserView>>::empty());
            }
        }
        r
    }

    /// A copy of the service with the same name and contents.
    pub fn duplicate(&self) -> (r: Self)
        ensures
            r@ == self@,
    {
        let store = match &self.store {
            None => None,
            Some(slots) => {
                let mut copy: Vec<Option<Credentials>> = Vec::new();
                let mut i: usize = 0;
                while i < slots.len()
                    invariant
                        i <= slots@.len(),
                        copy@.len() == i,
                        forall|j: int| 0 <= j < i ==> credentials_view(#[trigger] copy@[j]) == credentials_view(slots@[j]),
                    decreases slots.len() - i,
                {
                    let item = match &slots[i] {
                        Some(c) => Some(Credentials { username: c.username.clone(), password_hash: c.password_hash.clone() }),
                        None => None,
                    };
                    copy.push(item);
                    i = i + 1;
                }
                proof {
                    assert forall|k: int| 0 <= k < copy@.len() implies slot_view(copy@[k], k) == slot_view(slots@[k], k) by {
                        assert(credentials_view(copy@[k]) == credentials_view(slots@[k]));
                    }
                    assert(slot_views(copy@) =~= slot_views(slots@));
                }
                Some(copy)
            },
        };
        UserService { name: self.name.clone(), store }
    }

    /// Creates a user from a request and the outcome of hashing its password.
    pub fn create_user_with_hash(
        &mut self,
        input: UserCreateDto,
        hashed: Result<String, HashError>,
    ) -> (r: Result<User, UserServiceError>)
        ensures
            final(self)@.name == old(self)@.name,
            (final(self)@.store, user_result_view(r)) == spec_create(old(self)@.store, input@, hashed_view(hashed)),
    {
        match &mut self.store {
            None => Err(UserServiceError::InternalServerError),
            Some(slots) => {
                if input.username.as_str().is_empty() {
                    return Err(UserServiceError::InvalidInput);
                }
                match hashed {
                    Err(_) => Err(UserServiceError::InternalServerError),
                    Ok(h) => {
                        let result = User {
                            id: slots.len() as u128,
                            username: input.username.clone(),
                            password_hash: h.clone(),
                        };
                        slots.push(Some(Credentials { username: input.username, password_hash: h }));
                        proof {
                            assert(slot_views(slots@) =~= slot_views(old(self).store->Some_0@).push(Some(result@)));
                        }
                        Ok(result)
                    },
                }
            },
        }
    }

    /// Creates a user: rejects an empty name, hashes the password with a fresh
    /// salt, and stores the user in the next slot, whose position is its id.
    pub fn create_user(&mut self, input: UserCreateDto) -> (r: Result<User, UserServiceError>)
        ensures
            final(self)@.name == old(self)@.name,
            old(self)@.store is None ==> r == Err::<User, UserServiceError>(UserServiceError::InternalServerError)
                && final(self)@ == old(self)@,
            old(self)@.store is Some && input.username@.len() == 0 ==> r == Err::<User, UserServiceError>(
                UserServiceError::InvalidInput,
            ) && final(self)@ == old(self)@,
            r is Err ==> final(self)@ == old(self)@,
            r is Err && old(self)@.store is Some && input.username@.len() > 0 ==> r == Err::<User, UserServiceError>(
                UserServiceError::InternalServerError,
            ),
            r matches Ok(u) ==> {
                &&& old(self)@.store is Some
                &&& u.id == old(self)@.store->Some_0.len()
                &&& u.username@ == input.username@
                &&& argon2_verifies(input.password@, u.password_hash@)
                &&& u.password_hash@[0] == '$'
                &&& final(self)@.store == Some(old(self)@.store->Some_0.push(Some(u@)))
            },
    {
        let slot_count = match &self.store {
            None => {
                return Err(UserServiceError::InternalServerError);
            },
            Some(slots) => slots.len(),
        };
        if input.username.as_str().is_empty() {
            return Err(UserServiceError::InvalidInput);
        }
        let hashed = hash_password(input.password.as_str());
        let ghost password = input.password@;
        let r = self.create_user_with_hash(input, hashed);
        proof {
            if r is Ok {
                assert(hashed is Ok);
                assert(argon2_verifies(password, hashed->Ok_0@));
                assert(old(self)@.store->Some_0.len() == slot_count);
            }
        }
        r
    }

    /// Reads the user with the given id; a user handed back always carries
    /// the id asked for.
    pub fn read_user(&self, id: u128) -> (r: Result<User, UserServiceError>)
        ensures
            user_result_view(r) == spec_read(self@.store, id),
            r matches Ok(u) ==> u.id == id,
    {
        match &self.store {
            None => Err(UserServiceError::InternalServerError),
            Some(slots) => {
                if id < slots.len() as u128 {
                    match &slots[id as usize] {
                        Some(c) => Ok(User { id, username: c.username.clone(), password_hash: c.password_hash.clone() }),
                        None => Err(UserServiceError::UserNotFound(id)),
                    }
                } else {
                    Err(UserServiceError::UserNotFound(id))
                }
            },
        }
    }

    /// Lists the users present, in the order they were created.
    pub fn list_users(&self) -> (r: Result<Vec<User>, UserServiceError>)
        ensures
            match r {
                Ok(v) => spec_list(self@.store) == Ok::<Seq<UserView>, UserServiceError>(user_views(v@)),
                Err(e) => spec_list(self@.store) == Err::<Seq<UserView>, UserServiceError>(e),
            },
    {
        match &self.store {
            None => Err(UserServiceError::InternalServerError),
            Some(slots) => {
                let ghost all = slot_views(slots@);
                let mut users: Vec<User> = Vec::new();
                let mut i: usize = 0;
                while i < slots.len()
                    invariant
                        i <= slots@.len(),
                        all == slot_views(slots@),
                        user_views(users@) =~= live_users(all.take(i as int)),
                    decreases slots.len() - i,
                {
                    proof {
                        assert(all.take(i + 1).drop_last() =~= all.take(i as int));
                        assert(all.take(i + 1).last() == slot_view(slots@[i as int], i as int));
                    }
                    match &slots[i] {
                        Some(c) => {
                            users.push(
                                User { id: i as u128, username: c.username.clone(), password_hash: c.password_hash.clone() },
                            );
                        },
                        None => {},
                    }
                    i = i + 1;
                }
                proof {
                    assert(all.take(i as int) =~= all);
                }
                Ok(users)
            },
        }
    }

    /// Deletes the user with the given id and returns it; its slot stays
    /// empty, so the ids of other users do not change.
    pub fn delete_user(&mut self, id: u128) -> (r: Result<User, UserServiceError>)
        ensures
            final(self)@.name == old(self)@.name,
            (final(self)@.store, user_result_view(r)) == spec_delete(old(self)@.store, id),
            r matches Ok(u) ==> u.id == id,
    {
        match &mut self.store {
            None => Err(UserServiceError::InternalServerError),
            Some(slots) => {
                if id < slots.len() as u128 {
                    let i = id as usize;
                    match &slots[i] {
                        Some(c) => {
                            let found = User { id, username: c.username.clone(), password_hash: c.password_hash.clone() };
                            slots.set(i, None);
                            proof {
                                assert(slot_views(slots@) =~= slot_views(old(self).store->Some_0@).update(i as int, None));
                            }
                            Ok(found)
                        },
                        None => Err(UserServiceError::UserNotFound(id)),
                    }
                } else {
                    Err(UserServiceError::UserNotFound(id))
                }
            },
        }
    }
}

} // verus!
