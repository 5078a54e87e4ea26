//! Users of the system.

use crate::error::VError;
use crate::error::VErrorType;
use crate::text::decimal;
use crate::text::push_decimal;
use vstd::prelude::*;
use vstd::string::StringExecFns;

verus! {

/// A user in the Velocity system.
#[derive(Debug)]
pub struct User {
    /// The user id is the primary key, so it is guarded.
    uid: u32,
    /// The username of the user.
    pub username: String,
    /// The password hash the user can authenticate with.
    pub pwhash: String,
}

/// Errors that can occur when working with users.
#[derive(Debug)]
pub enum UserError {
    /// A user id (uid) has not been found.
    UserIDNotFound(u32),
    /// A username has not been found.
    UsernameNotFound(String),
}

impl Clone for User {
    fn clone(&self) -> (res: Self)
        ensures
            res == *self,
    {
        User { uid: self.uid, username: self.username.clone(), pwhash: self.pwhash.clone() }
    }
}

/// What a [`User`] stands for.
pub struct UserView {
    pub uid: u32,
    pub username: Seq<char>,
    pub pwhash: Seq<char>,
}

impl View for User {
    type V = UserView;

    closed spec fn view(&self) -> UserView {
        UserView { uid: self.uid, username: self.username@, pwhash: self.pwhash@ }
    }
}

impl User {
    /// How the user is written out: the username, then the user id in
    /// round brackets.
    pub open spec fn text(&self) -> Seq<char> {
        self@.username + " ("@ + decimal(self@.uid as nat) + ")"@
    }

    /// The context under which a failed lookup of `username` is reported.
    pub open spec fn username_context(username: Seq<char>) -> Seq<char> {
        "Selecting user by username: '"@ + username + "'"@
    }

    /// The context under which a failed lookup of `uid` is reported.
    pub open spec fn uid_context(uid: u32) -> Seq<char> {
        "Selecting user by uid: "@ + decimal(uid as nat)
    }

    /// Creates a new in-memory user without a backing database entry.
    pub fn new(uid: u32, username: String, pwhash: String) -> (res: Self)
        ensures
            res@ == (UserView { uid, username: username@, pwhash: pwhash@ }),
    {
        User { uid, username, pwhash }
    }

    /// Returns the user id of the user.
    pub fn uid(&self) -> (uid: u32)
        ensures
            uid == self@.uid,
    {
        self.uid
    }

    /// The user that a row of the users table stands for. The table holds
    /// the user id as a 64-bit integer, of which the low 32 bits count.
    pub fn from_row(uid: i64, username: String, pwhash: String) -> (res: Self)
        ensures
            res@ == (UserView { uid: uid as u32, username: username@, pwhash: pwhash@ }),
    {
        User { uid: #[verifier::truncate] (uid as u32), username, pwhash }
    }

    /// Turns the outcome of a lookup by username into a result: the user
    /// that was found, or the error that `username` has not been found.
    pub fn found_by_username(found: Option<User>, username: &str) -> (res: Result<User, VError>)
        ensures
            match found {
                Some(user) => res == Ok::<User, VError>(user),
                None => {
                    &&& res matches Err(e)
                    &&& e.error matches VErrorType::User(UserError::UsernameNotFound(name))
                    &&& name@ == username@
                    &&& e.context_texts() == seq![User::username_context(username@)]
                },
            },
    {
        match found {
            Some(user) => Ok(user),
            None => {
                let mut context = "Selecting user by username: '".to_owned();
                context.append(username);
                context.append("'");
                Err(
                    VError::new_ctx(
                        VErrorType::User(UserError::UsernameNotFound(username.to_owned())),
                        context,
                    ),
                )
            },
        }
    }

    /// Turns the outcome of a lookup by user id into a result: the user
    /// that was found, or the error that `uid` has not been found.
    pub fn found_by_uid(found: Option<User>, uid: u32) -> (res: Result<User, VError>)
        ensures
            match found {
                Some(user) => res == Ok::<User, VError>(user),
                None => {
                    &&& res matches Err(e)
                    &&& e.error matches VErrorType::User(UserError::UserIDNotFound(id))
                    &&& id == uid
                    &&& e.context_texts() == seq![User::uid_context(uid)]
                },
            },
    {
        match found {
            Some(user) => Ok(user),
            None => {
                let mut context = "Selecting user by uid: ".to_owned();
                push_decimal(&mut context, uid);
                Err(VError::new_ctx(VErrorType::User(UserError::UserIDNotFound(uid)), context))
            },
        }
    }

    /// Writes the user out: the username, then the user id in round
    /// brackets.
    pub fn to_string(&self) -> (s: String)
        ensures
            s@ == self.text(),
    {
        let mut s = self.username.clone();
        s.append(" (");
        push_decimal(&mut s, self.uid);
        s.append(")");
        s
    }
}

impl UserError {
    /// What the error says.
    pub open spec fn text(&self) -> Seq<char> {
        match self {
            UserError::UserIDNotFound(uid) => "User ID "@ + decimal(*uid as nat) + " not found"@,
            UserError::UsernameNotFound(username) => "Username '"@ + username@ + "' not found"@,
        }
    }

    /// Writes out what the error says.
    pub fn to_string(&self) -> (s: String)
        ensures
            s@ == self.text(),
    {
        match self {
            UserError::UserIDNotFound(uid) => {
                let mut s = "User ID ".to_owned();
                push_decimal(&mut s, *uid);
                s.append(" not found");
                s
            },
            UserError::UsernameNotFound(username) => {
                let mut s = "Username '".to_owned();
                s.append(username.as_str());
                s.append("' not found");
                s
            },
        }
    }
}

} // verus!
