//! The local user records that mirror the provider's identities.
//!
//! The store itself is outside.  What is decided here is what to do with
//! the answer to a lookup: use the record, create one, or give up.

use vstd::prelude::*;
use vstd::string::StringExecFns;

verus! {

/// A stored user.  The id is the provider's subject.
#[derive(Debug, PartialEq, Eq)]
pub struct User {
    pub id: String,
    pub username: String,
    pub email: String,
    pub password: String,
}

/// A user about to be stored.
#[derive(Debug, PartialEq, Eq)]
pub struct NewUser {
    pub id: String,
    pub username: String,
    pub email: String,
    pub password: String,
}

/// Whether a password matches a stored bcrypt hash; `None` where the
/// stored text is not a bcrypt hash.
pub uninterp spec fn password_matches(password: Seq<char>, hash: Seq<char>) -> Option<bool>;

/// `bcrypt::verify`: hashes the password with the salt and cost of the
/// stored hash and compares.  Trusted: the outcome is a function of the
/// two texts.
#[verifier::external_body]
fn bcrypt_verify(password: &str, hash: &str) -> (r: Option<bool>)
    ensures
        r == password_matches(password@, hash@),
{
    bcrypt::verify(password, hash).ok()
}

/// `bcrypt::hash` at the default cost.  The salt is random, and the call
/// fails where the system has no randomness to give.  Trusted: whatever
/// hash comes back is one that the password matches.
#[verifier::external_body]
fn bcrypt_hash(password: &str) -> (r: Option<String>)
    ensures
        r matches Some(hash) ==> password_matches(password@, hash@) == Some(true),
{
    bcrypt::hash(password, bcrypt::DEFAULT_COST).ok()
}

/// `Uuid::new_v4`, as text.  The identifier is random.  Trusted: its text
/// is the hyphenated form, 36 characters long.
#[verifier::external_body]
fn random_id() -> (id: String)
    ensures
        id@.len() == 36,
{
    uuid::Uuid::new_v4().to_string()
}

impl NewUser {
    /// A new user with a fresh random id, the text of a UUID, and the hash
    /// of the password.
    /// `None` where the password could not be hashed.  Whether it can be
    /// is the system's to say: hashing draws a random salt.  What becomes
    /// of the hash and the id is [`NewUser::with_credentials`].
    pub fn new(username: String, email: String, password: String) -> (r: Option<NewUser>)
        ensures
            r matches Some(user) ==> user.username == username && user.email == email
                && password_matches(password@, user.password@) == Some(true) && user.id@.len()
                == 36,
    {
        let hashed = bcrypt_hash(password.as_str());
        let id = match &hashed {
            Some(_) => random_id(),
            None => String::new(),
        };
        NewUser::with_credentials(id, username, email, hashed)
    }

    /// The record of a new user, out of what the id generator and the
    /// hashing of the password gave: the record holds the four values as
    /// they are, and there is no record without a hash.
    pub fn with_credentials(
        id: String,
        username: String,
        email: String,
        hashed: Option<String>,
    ) -> (r: Option<NewUser>)
        ensures
            match hashed {
                Some(password) => r == Some(NewUser { id, username, email, password }),
                None => r is None,
            },
    {
        match hashed {
            Some(password) => Some(NewUser { id, username, email, password }),
            None => None,
        }
    }
}

impl User {
    /// Whether `password` is the user's password.  The stored hash must
    /// be a bcrypt hash; [`User::verify_checked`] asks nothing.
    pub fn verify(self, password: String) -> (matches: bool)
        requires
            password_matches(password@, self.password@) is Some,
        ensures
            Some(matches) == password_matches(password@, self.password@),
    {
        match bcrypt_verify(password.as_str(), self.password.as_str()) {
            Some(matches) => matches,
            None => false,
        }
    }

    /// Whether `password` is the user's password, or `None` where the
    /// stored hash is not a bcrypt hash.
    pub fn verify_checked(self, password: String) -> (r: Option<bool>)
        ensures
            r == password_matches(password@, self.password@),
    {
        match bcrypt_verify(password.as_str(), self.password.as_str()) {
            Some(_) => Some(self.verify(password)),
            None => None,
        }
    }
}

/// What the store answered to a lookup by user id.
#[derive(Debug, PartialEq, Eq)]
pub enum UserLookup {
    Found(User),
    NotFound,
    /// The query failed; the text is the store's own message.
    Failed(String),
}

/// What to do after a lookup.
#[derive(Debug, PartialEq, Eq)]
pub enum UserPlan {
    /// The user exists: use this record.
    Use(User),
    /// The user is new: store this record.
    Create(NewUser),
    /// Give up, with this message.
    Fail(String),
}

/// Decides what to do for an authenticated caller after the lookup of
/// its record.  A record that exists is used as it is.  A caller without
/// one gets a record under the provider's subject as id, with a dummy
/// password, since the provider does the authenticating.  A failed query
/// is reported with the store's message.
pub fn find_or_create_user(user_id: &str, email: &str, username: &str, lookup: UserLookup) -> (plan:
    UserPlan)
    ensures
        match lookup {
            UserLookup::Found(user) => plan == UserPlan::Use(user),
            UserLookup::Failed(detail) => plan matches UserPlan::Fail(message) && message@
                == "Database error: "@ + detail@,
            UserLookup::NotFound => match plan {
                UserPlan::Create(user) => user.id@ == user_id@ && user.username@ == username@
                    && user.email@ == email@ && password_matches(
                    "DUMMY_PASSWORD"@,
                    user.password@,
                ) == Some(true),
                UserPlan::Fail(message) => message@ == "Failed to create user: "@
                    + "the password could not be hashed"@,
                UserPlan::Use(_) => false,
            },
        },
{
    match lookup {
        UserLookup::Found(user) => UserPlan::Use(user),
        UserLookup::Failed(detail) => {
            let mut message = String::from_str("Database error: ");
            message.append(detail.as_str());
            UserPlan::Fail(message)
        },
        UserLookup::NotFound => {
            let fresh = NewUser::new(
                String::from_str(username),
                String::from_str(email),
                String::from_str("DUMMY_PASSWORD"),
            );
            plan_creation(user_id, fresh)
        },
    }
}

/// The plan for a caller without a record, out of the attempt to make
/// one: the new record is stored under the provider's subject in place of
/// its random id; without a record there is nothing to store, and the plan
/// is to give up.
pub fn plan_creation(user_id: &str, fresh: Option<NewUser>) -> (plan: UserPlan)
    ensures
        match fresh {
            Some(user) => plan matches UserPlan::Create(stored) && stored.id@ == user_id@
                && stored.username == user.username && stored.email == user.email
                && stored.password == user.password,
            None => plan matches UserPlan::Fail(message) && message@
                == "Failed to create user: "@ + "the password could not be hashed"@,
        },
{
    match fresh {
        Some(user) => UserPlan::Create(
            NewUser {
                id: String::from_str(user_id),
                username: user.username,
                email: user.email,
                password: user.password,
            },
        ),
        None => {
            let mut message = String::from_str("Failed to create user: ");
            message.append("the password could not be hashed");
            UserPlan::Fail(message)
        },
    }
}

/// The result of storing a new user: the stored record, or the store's
/// message behind `Failed to create user: `.
pub fn creation_result(stored: Result<User, String>) -> (r: Result<User, String>)
    ensures
        match stored {
            Ok(user) => r == Ok::<User, String>(user),
            Err(detail) => r matches Err(message) && message@ == "Failed to create user: "@
                + detail@,
        },
{
    match stored {
        Ok(user) => Ok(user),
        Err(detail) => {
            let mut message = String::from_str("Failed to create user: ");
            message.append(detail.as_str());
            Err(message)
        },
    }
}

/// How an attempt to log in with a local password ends.
#[derive(Debug, PartialEq, Eq)]
pub enum LoginOutcome {
    /// No user has the name.
    NotFound,
    /// More than one user has the name.
    Conflict,
    /// The password is the user's: a session may be issued for this id.
    Granted(String),
    /// The password is not the user's, or the stored hash is unusable.
    Denied,
}

/// Decides a login from the users that the store holds under the name
/// given: exactly one must exist, and the password must match its hash.
pub fn login(users: Vec<User>, password: String) -> (outcome: LoginOutcome)
    ensures
        users.len() == 0 ==> outcome == LoginOutcome::NotFound,
        users.len() > 1 ==> outcome == LoginOutcome::Conflict,
        users.len() == 1 ==> outcome == (if password_matches(password@, users[0].password@)
            == Some(true) {
            LoginOutcome::Granted(users[0].id)
        } else {
            LoginOutcome::Denied
        }),
{
    let mut users = users;
    if users.len() > 1 {
        return LoginOutcome::Conflict;
    }
    match users.pop() {
        None => LoginOutcome::NotFound,
        Some(user) => {
            let id = user.id.clone();
            match user.verify_checked(password) {
                Some(true) => LoginOutcome::Granted(id),
                _ => LoginOutcome::Denied,
            }
        },
    }
}

} // verus!
