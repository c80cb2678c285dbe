//! Account identity attached to every upload task.

use vstd::prelude::*;

verus! {

/// A logged-in account: numeric identifier, display name, avatar image
/// (delivered by the caller, typically as a data URL).
pub struct User {
    pub uid: u64,
    pub username: String,
    pub avatar: String,
}

impl User {
    pub fn new(uid: u64, username: String, avatar: String) -> (r: User)
        ensures
            r.uid == uid,
            r.username == username,
            r.avatar == avatar,
    {
        User { uid, username, avatar }
    }
}

impl Default for User {
    /// The stand-in account shown before anyone has logged in.
    fn default() -> (r: User)
        ensures
            r.uid == 0,
            r.username@ == "not logged in"@,
            r.avatar@ == "default_profile_picture.png"@,
    {
        User {
            uid: 0,
            username: "not logged in".to_owned(),
            avatar: "default_profile_picture.png".to_owned(),
        }
    }
}

impl Clone for User {
    fn clone(&self) -> (r: Self)
        ensures
            r == *self,
    {
        User { uid: self.uid, username: self.username.clone(), avatar: self.avatar.clone() }
    }
}

} // verus!
