use vstd::prelude::*;

verus! {

/// What a client sends to create a user in the positional store.
pub struct UserForCreate {
    pub username: String,
}

/// A user of the positional store, as handed back to clients.
#[derive(Clone, Debug)]
pub struct User {
    pub id: u64,
    pub username: String,
}

/// The value of a positional-store user.
pub struct UserModelView {
    pub id: u64,
    pub username: Seq<char>,
}

impl View for User {
    type V = UserModelView;

    open spec fn view(&self) -> UserModelView {
        UserModelView { id: self.id, username: self.username@ }
    }
}

impl User {
    /// A copy of the record with the same id and name.
    pub fn duplicate(&self) -> (r: User)
        ensures
            r@ == self@,
    {
        User { id: self.id, username: self.username.clone() }
    }
}

} // verus!
