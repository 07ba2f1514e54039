//! Structs: grouping named fields into one value, building instances, and
//! mutating single fields.

use vstd::prelude::*;

verus! {

/// An account holder with activity data.
#[derive(Debug)]
pub struct User {
    pub active: bool,
    pub username: String,
    pub email: String,
    pub sign_in_count: u64,
}

/// Builds a user and then overwrites a single field in place.
pub fn struct_test() {
    let mut user_1 = User {
        active: true,
        username: String::from_str("user_1"),
        email: String::from_str("user_1@domain.com"),
        sign_in_count: 1,
    };

    user_1.email = String::from_str("another_email@domain.com");

    assert(user_1.email@ == "another_email@domain.com"@);
    assert(user_1.username@ == "user_1"@);
    assert(user_1.active && user_1.sign_in_count == 1);
}

/// Builds an active, first-time user from an email and a username.
pub fn build_user(email: String, username: String) -> (user: User)
    ensures
        user.active,
        user.username == username,
        user.email == email,
        user.sign_in_count == 1,
{
    User { active: true, username, email, sign_in_count: 1 }
}

/// Builds a second user from a first, replacing only the email.
pub fn struct_update_syntax() {
    let user_1 = User {
        active: true,
        username: String::from_str("user_1"),
        email: String::from_str("user_1@domain.com"),
        sign_in_count: 1,
    };

    let user2 = User { email: String::from_str("anotheremail@domain.com"), ..user_1 };

    assert(user2.username@ == "user_1"@);
    assert(user2.email@ == "anotheremail@domain.com"@);
}

} // verus!
