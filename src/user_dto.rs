use vstd::prelude::*;

use crate::ids::{is_random_uuid, random_uuid};
use crate::user_entity::{User, UserView};

verus! {

/// The public projection of a user: id and name, never the password hash.
#[derive(Clone, Debug)]
pub struct UserDto {
    pub id: u128,
    pub username: String,
}

/// What a client sends to create a user.
#[derive(Clone, Debug)]
pub struct UserCreateDto {
    pub id: Option<u128>,
    pub username: String,
    pub password: String,
}

pub struct UserDtoView {
    pub id: u128,
    pub username: Seq<char>,
}

pub struct UserCreateDtoView {
    pub id: Option<u128>,
    pub username: Seq<char>,
    pub password: Seq<char>,
}

impl View for UserDto {
    type V = UserDtoView;

    open spec fn view(&self) -> UserDtoView {
        UserDtoView { id: self.id, username: self.username@ }
    }
}

impl View for UserCreateDto {
    type V = UserCreateDtoView;

    open spec fn view(&self) -> UserCreateDtoView {
        UserCreateDtoView { id: self.id, username: self.username@, password: self.password@ }
    }
}

/// The output projection of a user.
pub open spec fn dto_of(u: UserView) -> UserDtoView {
    UserDtoView { id: u.id, username: u.username }
}

/// Builds the entity from a creation request and the hash of its password.
/// A client-supplied id is kept; otherwise a fresh random UUID is drawn, and
/// `None` comes back when the random source fails.
pub fn get_user_from_dto(user_dto: UserCreateDto, password_hash: String) -> (r: Option<User>)
    ensures
        user_dto.id matches Some(id) ==> (r matches Some(u) && u.id == id),
        user_dto.id is None ==> (r matches Some(u) ==> is_random_uuid(u.id)),
        r matches Some(u) ==> u.username@ == user_dto.username@ && u.password_hash@ == password_hash@,
{
    let id = match user_dto.id {
        Some(id) => id,
        None => match random_uuid() {
            Some(id) => id,
            None => {
                return None;
            },
        },
    };
    Some(User { id, username: user_dto.username, password_hash })
}

/// Projects a user to its output form, dropping the password hash.
pub fn get_user_dto(user: User) -> (r: UserDto)
    ensures
        r@ == dto_of(user@),
{
    UserDto { id: user.id, username: user.username }
}

/// The output projection never carries the password hash: two users that
/// agree on id and name project to the same output, whatever their hashes.
pub proof fn lemma_projection_ignores_password_hash(a: UserView, b: UserView)
    requires
        a.id == b.id,
        a.username == b.username,
    ensures
        dto_of(a) == dto_of(b),
{
}

} // verus!
