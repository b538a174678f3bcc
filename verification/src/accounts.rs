//! Accounts: who may log in, and how a new account comes to be.
//!
//! Passwords are never kept: an account holds a bcrypt hash, and a login
//! succeeds when bcrypt accepts the password against it. The store that
//! holds the accounts is outside; this module decides what to ask it and
//! what to make of its answers.

use vstd::prelude::*;

verus! {

/// One account as the store holds it.
#[derive(Debug, PartialEq, Eq)]
pub struct User {
    /// The store's own id of the record, once it has one.
    pub id: Option<String>,
    pub email: String,
    pub username: String,
    pub joined_at: String,
    /// The bcrypt hash of the password.
    pub password: String,
}

/// A `User` as plain values.
pub struct UserView {
    pub id: Option<Seq<char>>,
    pub email: Seq<char>,
    pub username: Seq<char>,
    pub joined_at: Seq<char>,
    pub password: Seq<char>,
}

/// An optional string as plain values.
pub open spec fn optional_view(text: Option<String>) -> Option<Seq<char>> {
    match text {
        Some(text) => Some(text@),
        None => None,
    }
}

impl View for User {
    type V = UserView;

    open spec fn view(&self) -> UserView {
        UserView {
            id: optional_view(self.id),
            email: self.email@,
            username: self.username@,
            joined_at: self.joined_at@,
            password: self.password@,
        }
    }
}

impl Clone for User {
    fn clone(&self) -> (copy: Self)
        ensures
            copy@ == self@,
    {
        User {
            id: match &self.id {
                Some(id) => Some(id.clone()),
                None => None,
            },
            email: self.email.clone(),
            username: self.username.clone(),
            joined_at: self.joined_at.clone(),
            password: self.password.clone(),
        }
    }
}

/// Makes `bcrypt::BcryptError` known, as a value that is only passed on:
/// nothing is read from it.
#[verifier::external_type_specification]
#[verifier::external_body]
pub struct ExBcryptError(bcrypt::BcryptError);

/// What `bcrypt::verify` returns for a password and a hash: `Some` of its
/// verdict, or `None` when it reports an error, as it does for a text that
/// is no bcrypt hash.
pub uninterp spec fn bcrypt_verdict(password: Seq<char>, hash: Seq<char>) -> Option<bool>;

/// Calls `bcrypt::verify`. Trusted: the outcome depends on the password and
/// the hash alone, so it is the value that `bcrypt_verdict` names.
#[verifier::external_body]
fn verify_password(password: &str, hash: &str) -> (verdict: Result<bool, bcrypt::BcryptError>)
    ensures
        match verdict {
            Ok(accepted) => bcrypt_verdict(password@, hash@) == Some(accepted),
            Err(_) => bcrypt_verdict(password@, hash@) is None,
        },
{
    bcrypt::verify(password, hash)
}

/// Calls `bcrypt::hash` with the default cost. The salt is random, so
/// nothing is claimed of the hash that comes back.
#[verifier::external_body]
fn hash_password(password: &str) -> (hashed: Result<String, bcrypt::BcryptError>) {
    bcrypt::hash(password, bcrypt::DEFAULT_COST)
}

/// bcrypt accepts `password` against `hash`. A hash that bcrypt cannot read
/// accepts nothing.
pub open spec fn password_accepted(password: Seq<char>, hash: Seq<char>) -> bool {
    bcrypt_verdict(password, hash) == Some(true)
}

/// Answer to a login under a name that no account has.
pub open spec fn user_not_found() -> Seq<char> {
    "User not found"@
}

/// Answer to a login with the wrong password.
pub open spec fn invalid_password() -> Seq<char> {
    "Invalid password"@
}

/// An account or the reason why there is none, as plain values.
pub open spec fn login_view(outcome: Result<User, String>) -> Result<UserView, Seq<char>> {
    match outcome {
        Ok(user) => Ok(user@),
        Err(message) => Err(message@),
    }
}

/// What a login comes to, given the accounts found under the name and
/// whether the password was accepted against the first of them.
pub open spec fn login_outcome(found: Seq<UserView>, accepted: bool) -> Result<UserView, Seq<char>> {
    if found.len() == 0 {
        Err(user_not_found())
    } else if accepted {
        Ok(found[0])
    } else {
        Err(invalid_password())
    }
}

/// The accounts of a list as plain values.
pub open spec fn users_view(users: Seq<User>) -> Seq<UserView> {
    users.map_values(|u: User| u@)
}

/// Decides a login from the accounts found under the name and the verdict
/// on the password: the first account found is the one logged into.
pub fn decide_login(found: &Vec<User>, accepted: bool) -> (outcome: Result<User, String>)
    ensures
        login_view(outcome) == login_outcome(users_view(found@), accepted),
{
    if found.len() == 0 {
        Err("User not found".to_owned())
    } else if accepted {
        Ok(found[0].clone())
    } else {
        Err("Invalid password".to_owned())
    }
}

/// Whether bcrypt accepts `password` against `hash`.
pub fn check_password(password: &str, hash: &str) -> (accepted: bool)
    ensures
        accepted == password_accepted(password@, hash@),
{
    match verify_password(password, hash) {
        Ok(accepted) => accepted,
        Err(_) => false,
    }
}

/// Logs in with `password`, given the accounts found under the name: the
/// first account found, if the password is accepted against its hash.
pub fn login_user(found: &Vec<User>, password: &str) -> (outcome: Result<User, String>)
    ensures
        login_view(outcome) == login_outcome(
            users_view(found@),
            found@.len() > 0 && password_accepted(password@, found@[0]@.password),
        ),
{
    if found.len() == 0 {
        decide_login(found, false)
    } else {
        let accepted = check_password(password, found[0].password.as_str());
        decide_login(found, accepted)
    }
}

/// When every new account is said to have joined.
pub open spec fn joined_at() -> Seq<char> {
    "2024-01-01T00:00:00Z"@
}

/// What is stored for a new account.
#[derive(Debug, PartialEq, Eq)]
pub struct NewUser {
    pub username: String,
    pub email: String,
    /// The bcrypt hash of the password.
    pub password: String,
    pub joined_at: String,
}

/// A `NewUser` as plain values.
pub struct NewUserView {
    pub username: Seq<char>,
    pub email: Seq<char>,
    pub password: Seq<char>,
    pub joined_at: Seq<char>,
}

impl View for NewUser {
    type V = NewUserView;

    open spec fn view(&self) -> NewUserView {
        NewUserView {
            username: self.username@,
            email: self.email@,
            password: self.password@,
            joined_at: self.joined_at@,
        }
    }
}

/// What to do next for a signup.
#[derive(Debug, PartialEq, Eq)]
pub enum SignupAction {
    /// Ask the store whether an account with the email of this one exists.
    CheckEmail(NewUser),
    /// Ask the store whether an account with the name of this one exists.
    CheckUsername(NewUser),
    /// Ask the store to create this account.
    Create(NewUser),
    /// The signup is over, with the new account or with the reason why
    /// there is none.
    Finish(Result<User, String>),
}

/// A `SignupAction` as plain values.
pub enum SignupActionView {
    CheckEmail(NewUserView),
    CheckUsername(NewUserView),
    Create(NewUserView),
    Finish(Result<UserView, Seq<char>>),
}

impl View for SignupAction {
    type V = SignupActionView;

    open spec fn view(&self) -> SignupActionView {
        match self {
            SignupAction::CheckEmail(account) => SignupActionView::CheckEmail(account@),
            SignupAction::CheckUsername(account) => SignupActionView::CheckUsername(account@),
            SignupAction::Create(account) => SignupActionView::Create(account@),
            SignupAction::Finish(outcome) => SignupActionView::Finish(login_view(*outcome)),
        }
    }
}

/// The end of a signup that is refused for the given reason.
pub open spec fn refused(reason: Seq<char>) -> SignupActionView {
    SignupActionView::Finish(Err(reason))
}

/// The answer of the store to a question, as plain values.
pub open spec fn answer_view(answer: Result<bool, String>) -> Result<bool, Seq<char>> {
    match answer {
        Ok(taken) => Ok(taken),
        Err(message) => Err(message@),
    }
}

/// The answer of the store to a creation, as plain values.
pub open spec fn created_view(answer: Result<Option<User>, String>) -> Result<
    Option<UserView>,
    Seq<char>,
> {
    match answer {
        Ok(Some(user)) => Ok(Some(user@)),
        Ok(None) => Ok(None),
        Err(message) => Err(message@),
    }
}

/// How a signup starts, given the hash of the password, or `None` when the
/// password could not be hashed: with the question whether the email is
/// taken.
pub open spec fn signup_start(
    username: Seq<char>,
    email: Seq<char>,
    hashed: Option<Seq<char>>,
) -> SignupActionView {
    match hashed {
        None => refused("Failed to encrypt password"@),
        Some(hash) => SignupActionView::CheckEmail(
            NewUserView { username, email, password: hash, joined_at: joined_at() },
        ),
    }
}

/// What follows the answer to whether the email is taken: the question
/// whether the name is, unless the email is taken or the store failed.
pub open spec fn email_checked(
    account: NewUserView,
    answer: Result<bool, Seq<char>>,
) -> SignupActionView {
    match answer {
        Ok(false) => SignupActionView::CheckUsername(account),
        Ok(true) => refused("Email already exists"@),
        Err(message) => refused(message),
    }
}

/// What follows the answer to whether the name is taken: the creation of
/// the account, unless the name is taken or the store failed.
pub open spec fn username_checked(
    account: NewUserView,
    answer: Result<bool, Seq<char>>,
) -> SignupActionView {
    match answer {
        Ok(false) => SignupActionView::Create(account),
        Ok(true) => refused("Username already exists"@),
        Err(message) => refused(message),
    }
}

/// What a creation comes to: the account that the store handed back.
pub open spec fn creation_outcome(answer: Result<Option<UserView>, Seq<char>>) -> Result<
    UserView,
    Seq<char>,
> {
    match answer {
        Ok(Some(user)) => Ok(user),
        Ok(None) => Err("Failed to retrieve created user"@),
        Err(message) => Err(message),
    }
}

/// Starts a signup from the hash of the password, or from `None` when the
/// password could not be hashed.
pub fn start_signup(username: String, email: String, hashed: Option<String>) -> (next: SignupAction)
    ensures
        next@ == signup_start(username@, email@, optional_view(hashed)),
{
    match hashed {
        None => SignupAction::Finish(Err("Failed to encrypt password".to_owned())),
        Some(hash) => SignupAction::CheckEmail(
            NewUser {
                username,
                email,
                password: hash,
                joined_at: "2024-01-01T00:00:00Z".to_owned(),
            },
        ),
    }
}

/// Starts the creation of an account: hashes the password and, if that
/// works, asks whether the email is taken. The hash is salted at random, so
/// only this much is known of it: the signup starts as `start_signup`
/// starts it from some hash, or from none.
pub fn create_new_user(username: String, email: String, raw_password: &str) -> (next: SignupAction)
    ensures
        exists|hashed: Option<Seq<char>>| next@ == signup_start(username@, email@, hashed),
{
    let hashed = match hash_password(raw_password) {
        Ok(hash) => Some(hash),
        Err(_) => None,
    };
    let ghost witness = optional_view(hashed);
    let next = start_signup(username, email, hashed);
    assert(next@ == signup_start(username@, email@, witness));
    next
}

/// Goes on with a signup after the store said whether the email is taken.
pub fn after_email_check(account: NewUser, answer: Result<bool, String>) -> (next: SignupAction)
    ensures
        next@ == email_checked(account@, answer_view(answer)),
{
    match answer {
        Ok(false) => SignupAction::CheckUsername(account),
        Ok(true) => SignupAction::Finish(Err("Email already exists".to_owned())),
        Err(message) => SignupAction::Finish(Err(message)),
    }
}

/// Goes on with a signup after the store said whether the name is taken.
pub fn after_username_check(account: NewUser, answer: Result<bool, String>) -> (next: SignupAction)
    ensures
        next@ == username_checked(account@, answer_view(answer)),
{
    match answer {
        Ok(false) => SignupAction::Create(account),
        Ok(true) => SignupAction::Finish(Err("Username already exists".to_owned())),
        Err(message) => SignupAction::Finish(Err(message)),
    }
}

/// Ends a signup after the store answered the creation.
pub fn after_creation(answer: Result<Option<User>, String>) -> (outcome: Result<User, String>)
    ensures
        login_view(outcome) == creation_outcome(created_view(answer)),
{
    match answer {
        Ok(Some(user)) => Ok(user),
        Ok(None) => Err("Failed to retrieve created user".to_owned()),
        Err(message) => Err(message),
    }
}

/// Who is using the application: nobody, or a logged-in account.
#[derive(Debug, PartialEq, Eq)]
pub struct Session {
    pub user_id: Option<String>,
    pub username: Option<String>,
}

impl Session {
    /// The session of nobody.
    pub fn anonymous() -> (session: Session)
        ensures
            session.user_id is None,
            session.username is None,
    {
        Session { user_id: None, username: None }
    }

    /// The session kept from an earlier visit: that of the account whose
    /// name and id were both kept, and that of nobody when either is
    /// missing.
    pub fn restore(username: Option<String>, user_id: Option<String>) -> (session: Session)
        ensures
            username is Some && user_id is Some ==> session.username == username
                && session.user_id == user_id,
            username is None || user_id is None ==> session.username is None
                && session.user_id is None,
    {
        match (username, user_id) {
            (Some(username), Some(user_id)) => Session {
                user_id: Some(user_id),
                username: Some(username),
            },
            _ => Session::anonymous(),
        }
    }

    /// The session of an account that has just logged in.
    pub fn for_user(user: &User) -> (session: Session)
        ensures
            optional_view(session.user_id) == user@.id,
            optional_view(session.username) == Some(user@.username),
    {
        Session {
            user_id: match &user.id {
                Some(id) => Some(id.clone()),
                None => None,
            },
            username: Some(user.username.clone()),
        }
    }
}

} // verus!
