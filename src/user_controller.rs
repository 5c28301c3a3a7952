use vstd::prelude::*;

use crate::text::{decimal, decimal_string};
use crate::user_model::{User, UserForCreate, UserModelView};
use crate::user_service::live_users;

verus! {

/// Failures of the positional user store.
#[derive(Debug)]
pub enum UserControllerError {
    /// No user is stored under this id.
    UserNotFound(u64),
    InternalServerError,
    /// The request is malformed (an empty username).
    InvalidInput,
}

/// The message of an error, as clients see it.
pub open spec fn controller_error_text(e: UserControllerError) -> Seq<char> {
    match e {
        UserControllerError::UserNotFound(id) => "User with id "@ + decimal(id as nat) + " not found"@,
        UserControllerError::InternalServerError => "Internal server error"@,
        UserControllerError::InvalidInput => "Invalid input"@,
    }
}

impl UserControllerError {
    /// The error's message.
    pub fn message(&self) -> (r: String)
        ensures
            r@ == controller_error_text(*self),
    {
        match self {
            UserControllerError::UserNotFound(id) => {
                let mut s = String::from_str("User with id ");
                let digits = decimal_string(*id);
                s.append(digits.as_str());
                s.append(" not found");
                s
            },
            UserControllerError::InternalServerError => String::from_str("Internal server error"),
            UserControllerError::InvalidInput => String::from_str("Invalid input"),
        }
    }

    /// The HTTP status code of the error.
    pub fn status_code(&self) -> (r: u16)
        ensures
            r == match *self {
                UserControllerError::UserNotFound(_) => 404u16,
                UserControllerError::InternalServerError => 500u16,
                UserControllerError::InvalidInput => 400u16,
            },
    {
        match self {
            UserControllerError::UserNotFound(_) => 404,
            UserControllerError::InternalServerError => 500,
            UserControllerError::InvalidInput => 400,
        }
    }
}

/// The slots of the positional store, as the users they stand for.
pub type ModelSlots = Seq<Option<UserModelView>>;

/// The values of a sequence of users.
pub open spec fn model_views(s: Seq<User>) -> Seq<UserModelView> {
    s.map_values(|u: User| u@)
}

/// Creating a user: a non-empty name is needed; the user takes the next
/// slot, and its id is that slot's position.
pub open spec fn controller_create(slots: ModelSlots, username: Seq<char>) -> (ModelSlots, Result<
    UserModelView,
    UserControllerError,
>) {
    if username.len() == 0 {
        (slots, Err(UserControllerError::InvalidInput))
    } else {
        let u = UserModelView { id: slots.len() as u64, username };
        (slots.push(Some(u)), Ok(u))
    }
}

/// Reading the user with a given id.
pub open spec fn controller_read(slots: ModelSlots, id: u64) -> Result<UserModelView, UserControllerError> {
    if id < slots.len() && slots[id as int] is Some {
        Ok(slots[id as int]->Some_0)
    } else {
        Err(UserControllerError::UserNotFound(id))
    }
}

/// Deleting the user with a given id: its slot is emptied and it is returned.
pub open spec fn controller_delete(slots: ModelSlots, id: u64) -> (ModelSlots, Result<
    UserModelView,
    UserControllerError,
>) {
    if id < slots.len() && slots[id as int] is Some {
        (slots.update(id as int, None), Ok(slots[id as int]->Some_0))
    } else {
        (slots, Err(UserControllerError::UserNotFound(id)))
    }
}

/// The value of a result that carries a user.
pub open spec fn model_result_view(r: Result<User, UserControllerError>) -> Result<UserModelView, UserControllerError> {
    match r {
        Ok(u) => Ok(u@),
        Err(e) => Err(e),
    }
}

/// The user that slot `k`, holding a name or nothing, stands for.
spec fn name_slot_view(o: Option<String>, k: int) -> Option<UserModelView> {
    match o {
        Some(n) => Some(UserModelView { id: k as u64, username: n@ }),
        None => None,
    }
}

/// An in-memory user store in which a user's id is its slot position.
/// Deleting a user empties its slot, so other ids never shift.
#[derive(Clone)]
pub struct UserController {
    user_store: Vec<Option<String>>,
}

impl View for UserController {
    type V = ModelSlots;

    closed spec fn view(&self) -> ModelSlots {
        Seq::new(self.user_store@.len(), |k: int| name_slot_view(self.user_store@[k], k))
    }
}

impl UserController {
    /// An empty store.
    pub fn new() -> (r: Result<Self, UserControllerError>)
        ensures
            r matches Ok(c) && c@ == Seq::<Option<UserModelView>>::empty(),
    {
        let c = UserController { user_store: Vec::new() };
        assert(c@ =~= Seq::<Option<UserModelView>>::empty());
        Ok(c)
    }

    /// Stores a user in the next slot; its id is that slot's position. An
    /// empty name is refused.
    pub fn create_user(&mut self, user_for_create: UserForCreate) -> (r: Result<User, UserControllerError>)
        ensures
            (final(self)@, model_result_view(r)) == controller_create(old(self)@, user_for_create.username@),
            r matches Ok(u) ==> u.id as int == old(self)@.len(),
    {
        if user_for_create.username.as_str().is_empty() {
            return Err(UserControllerError::InvalidInput);
        }
        let n = self.user_store.len();
        let id = n as u64;
        let result = User { id, username: user_for_create.username.clone() };
        let ghost before = self@;
        self.user_store.push(Some(user_for_create.username));
        assert(self@ =~= before.push(Some(result@)));
        Ok(result)
    }

    /// The user with the given id.
    pub fn read_user(&self, id: u64) -> (r: Result<User, UserControllerError>)
        ensures
            model_result_view(r) == controller_read(self@, id),
            r matches Ok(u) ==> u.id == id,
    {
        if id < self.user_store.len() as u64 {
            match &self.user_store[id as usize] {
                Some(name) => Ok(User { id, username: name.clone() }),
                None => Err(UserControllerError::UserNotFound(id)),
            }
        } else {
            Err(UserControllerError::UserNotFound(id))
        }
    }

    /// The users present, in the order they were created.
    pub fn list_users(&self) -> (r: Result<Vec<User>, UserControllerError>)
        ensures
            r matches Ok(users) && model_views(users@) == live_users(self@),
    {
        let ghost all = self@;
        let mut users: Vec<User> = Vec::new();
        let mut i: usize = 0;
        while i < self.user_store.len()
            invariant
                i <= self.user_store@.len(),
                all == self@,
                model_views(users@) =~= live_users(all.take(i as int)),
            decreases self.user_store.len() - i,
        {
            proof {
                assert(all.take(i + 1).drop_last() =~= all.take(i as int));
                assert(all.take(i + 1).last() == name_slot_view(self.user_store@[i as int], i as int));
            }
            match &self.user_store[i] {
                Some(name) => {
                    users.push(User { id: i as u64, username: name.clone() });
                },
                None => {},
            }
            i = i + 1;
        }
        proof {
            assert(all.take(i as int) =~= all);
        }
        Ok(users)
    }

    /// Deletes the user with the given id and returns it; its slot stays
    /// empty.
    pub fn delete_user(&mut self, id: u64) -> (r: Result<User, UserControllerError>)
        ensures
            (final(self)@, model_result_view(r)) == controller_delete(old(self)@, id),
            r matches Ok(u) ==> u.id == id,
    {
        if id < self.user_store.len() as u64 {
            let i = id as usize;
            match &self.user_store[i] {
                Some(name) => {
                    let found = User { id, username: name.clone() };
                    let ghost before = self@;
                    self.user_store.set(i, None);
                    assert(self@ =~= before.update(i as int, None));
                    Ok(found)
                },
                None => Err(UserControllerError::UserNotFound(id)),
            }
        } else {
            Err(UserControllerError::UserNotFound(id))
        }
    }
}

} // verus!
