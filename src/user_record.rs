use vstd::prelude::*;

use crate::crypto_utils::{argon2_verifies, hash_password, HashError};
use crate::ids::is_random_uuid;
use crate::user_dto::{get_user_from_dto, UserCreateDto};
use crate::user_entity::{user_views, User, UserView};
use crate::user_service::UserServiceError;

verus! {

#[verifier::external_type_specification]
#[verifier::external_body]
pub struct ExDbErr(sea_orm::DbErr);

/// Relies on sea-orm's `DbErr::sql_err`: whether the driver reported the
/// failure as a unique or foreign-key constraint violation.
#[verifier::external_body]
fn is_constraint_violation(e: &sea_orm::DbErr) -> (r: bool) {
    e.sql_err().is_some()
}

/// Relies on the `Display` impl of sea-orm's `DbErr`: the driver's message.
#[verifier::external_body]
fn db_error_text(e: &sea_orm::DbErr) -> (r: String) {
    e.to_string()
}

/// A row of the users table of the relational backend, as plain values.
pub struct UserRecord {
    pub id: u128,
    pub username: String,
    pub password_hash: String,
}

impl View for UserRecord {
    type V = UserView;

    open spec fn view(&self) -> UserView {
        UserView { id: self.id, username: self.username@, password_hash: self.password_hash@ }
    }
}

/// The values of a sequence of rows.
pub open spec fn record_views(s: Seq<UserRecord>) -> Seq<UserView> {
    s.map_values(|r: UserRecord| r@)
}

/// A failure of the relational store, as plain values: whether the driver
/// reported a constraint violation, and its message.
pub struct DbFailure {
    pub constraint: bool,
    pub detail: String,
}

/// The error that a store failure becomes.
pub open spec fn failure_error(f: DbFailure) -> UserServiceError {
    if f.constraint {
        UserServiceError::ConstraintViolation(f.detail)
    } else {
        UserServiceError::DatabaseError(f.detail)
    }
}

/// The user that a row holds.
pub fn user_from_record(record: UserRecord) -> (r: User)
    ensures
        r@ == record@,
{
    User { id: record.id, username: record.username, password_hash: record.password_hash }
}

/// The row that holds a user.
pub fn record_from_user(user: User) -> (r: UserRecord)
    ensures
        r@ == user@,
{
    UserRecord { id: user.id, username: user.username, password_hash: user.password_hash }
}

/// The plain values of a driver error: whether sea-orm classifies it as a
/// constraint violation, and its message.
pub fn db_failure(e: sea_orm::DbErr) -> (r: DbFailure) {
    let detail = db_error_text(&e);
    let constraint = is_constraint_violation(&e);
    DbFailure { constraint, detail }
}

/// Wraps a store failure: a constraint violation (such as a taken username)
/// becomes `ConstraintViolation`, any other failure `DatabaseError`; both
/// keep the driver's message.
pub fn map_db_error(f: DbFailure) -> (r: UserServiceError)
    ensures
        r == failure_error(f),
{
    if f.constraint {
        UserServiceError::ConstraintViolation(f.detail)
    } else {
        UserServiceError::DatabaseError(f.detail)
    }
}

/// The row to insert for a creation request, from the outcome of hashing its
/// password: an empty name is `InvalidInput`, a failed hash
/// `InternalServerError`; a client-supplied id is kept, otherwise a random
/// UUID is drawn, and a failure of the random source is
/// `InternalServerError` too.
pub fn prepare_insert_with_hash(input: UserCreateDto, hashed: Result<String, HashError>) -> (r: Result<
    UserRecord,
    UserServiceError,
>)
    ensures
        input.username@.len() == 0 ==> r == Err::<UserRecord, UserServiceError>(UserServiceError::InvalidInput),
        input.username@.len() > 0 && hashed is Err ==> r == Err::<UserRecord, UserServiceError>(
            UserServiceError::InternalServerError,
        ),
        input.username@.len() > 0 && hashed is Ok && input.id is Some ==> r is Ok,
        input.username@.len() > 0 && r is Err ==> r == Err::<UserRecord, UserServiceError>(
            UserServiceError::InternalServerError,
        ),
        r matches Ok(rec) ==> {
            &&& rec.username@ == input.username@
            &&& hashed is Ok
            &&& rec.password_hash@ == hashed->Ok_0@
            &&& input.id matches Some(id) ==> rec.id == id
            &&& input.id is None ==> is_random_uuid(rec.id)
        },
{
    if input.username.as_str().is_empty() {
        return Err(UserServiceError::InvalidInput);
    }
    match hashed {
        Err(_) => Err(UserServiceError::InternalServerError),
        Ok(h) => match get_user_from_dto(input, h) {
            Some(user) => Ok(record_from_user(user)),
            None => Err(UserServiceError::InternalServerError),
        },
    }
}

/// The row to insert for a creation request: the name must be non-empty and
/// the password is hashed with a fresh salt.
pub fn prepare_insert(input: UserCreateDto) -> (r: Result<UserRecord, UserServiceError>)
    ensures
        input.username@.len() == 0 ==> r == Err::<UserRecord, UserServiceError>(UserServiceError::InvalidInput),
        input.username@.len() > 0 && r is Err ==> r == Err::<UserRecord, UserServiceError>(
            UserServiceError::InternalServerError,
        ),
        r matches Ok(rec) ==> {
            &&& rec.username@ == input.username@
            &&& argon2_verifies(input.password@, rec.password_hash@)
            &&& input.id matches Some(id) ==> rec.id == id
            &&& input.id is None ==> is_random_uuid(rec.id)
        },
{
    if input.username.as_str().is_empty() {
        return Err(UserServiceError::InvalidInput);
    }
    let hashed = hash_password(input.password.as_str());
    let ghost password = input.password@;
    let r = prepare_insert_with_hash(input, hashed);
    proof {
        if r is Ok {
            assert(argon2_verifies(password, hashed->Ok_0@));
        }
    }
    r
}

/// The outcome of inserting a row: the stored user, or the wrapped failure.
pub fn insert_outcome(res: Result<UserRecord, DbFailure>) -> (r: Result<User, UserServiceError>)
    ensures
        res is Ok <==> r is Ok,
        r matches Ok(u) ==> u@ == res->Ok_0@,
        res matches Err(f) ==> r == Err::<User, UserServiceError>(failure_error(f)),
{
    match res {
        Ok(record) => Ok(user_from_record(record)),
        Err(e) => Err(map_db_error(e)),
    }
}

/// The outcome of looking a row up by id: the user, `UserNotFound` when no
/// row with that id came back, or the wrapped failure.
pub fn find_outcome(id: u128, res: Result<Option<UserRecord>, DbFailure>) -> (r: Result<User, UserServiceError>)
    ensures
        res matches Ok(Some(rec)) ==> (rec.id == id ==> (r matches Ok(u) && u@ == rec@)),
        res matches Ok(Some(rec)) ==> (rec.id != id ==> r == Err::<User, UserServiceError>(
            UserServiceError::UserNotFound(id),
        )),
        res matches Ok(None) ==> r == Err::<User, UserServiceError>(UserServiceError::UserNotFound(id)),
        r matches Ok(u) ==> u.id == id,
        res matches Err(f) ==> r == Err::<User, UserServiceError>(failure_error(f)),
{
    match res {
        Ok(Some(record)) => {
            if record.id == id {
                Ok(user_from_record(record))
            } else {
                Err(UserServiceError::UserNotFound(id))
            }
        },
        Ok(None) => Err(UserServiceError::UserNotFound(id)),
        Err(e) => Err(map_db_error(e)),
    }
}

/// The outcome of reading every row: the users in the order the store gave
/// them, or the wrapped failure.
pub fn list_outcome(res: Result<Vec<UserRecord>, DbFailure>) -> (r: Result<Vec<User>, UserServiceError>)
    ensures
        res is Ok <==> r is Ok,
        r matches Ok(users) ==> user_views(users@) == record_views(res->Ok_0@),
        res matches Err(f) ==> r == Err::<Vec<User>, UserServiceError>(failure_error(f)),
{
    match res {
        Err(e) => Err(map_db_error(e)),
        Ok(records) => {
            let mut users: Vec<User> = Vec::new();
            let mut i: usize = 0;
            while i < records.len()
                invariant
                    i <= records@.len(),
                    users@.len() == i,
                    forall|j: int| 0 <= j < i ==> (#[trigger] users@[j])@ == records@[j]@,
                decreases records.len() - i,
            {
                let record = &records[i];
                users.push(
                    User {
                        id: record.id,
                        username: record.username.clone(),
                        password_hash: record.password_hash.clone(),
                    },
                );
                i = i + 1;
            }
            proof {
                assert(user_views(users@) =~= record_views(records@));
            }
            Ok(users)
        },
    }
}

/// The outcome of deleting the row `found`, which the lookup by `id`
/// returned, given how many rows the delete removed: the deleted user, or
/// `UserNotFound` when nothing was removed, or the wrapped failure.
pub fn delete_outcome(id: u128, found: UserRecord, res: Result<u64, DbFailure>) -> (r: Result<User, UserServiceError>)
    ensures
        res matches Ok(n) && n > 0 ==> (r matches Ok(u) && u@ == found@),
        res matches Ok(n) && n == 0 ==> r == Err::<User, UserServiceError>(UserServiceError::UserNotFound(id)),
        res matches Err(f) ==> r == Err::<User, UserServiceError>(failure_error(f)),
{
    match res {
        Ok(0) => Err(UserServiceError::UserNotFound(id)),
        Ok(_) => Ok(user_from_record(found)),
        Err(e) => Err(map_db_error(e)),
    }
}

} // verus!
