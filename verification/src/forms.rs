//! What the search box, the login form and the signup form show, and how
//! that changes when the viewer submits them and when the answers come in.
//!
//! The forms do not care what a search result or an account is made of, so
//! they take them as they come.

use crate::accounts::{answer_view, optional_view};
use vstd::prelude::*;
use vstd::string::StringExecFns;

verus! {

/// What the search box shows: whether a search is under way, the results
/// of the last search that found any, and what went wrong with the last
/// search, if anything.
#[derive(Debug, PartialEq, Eq)]
pub struct SearchPanel<T> {
    pub is_loading: bool,
    pub videos: Vec<T>,
    pub error_message: Option<String>,
}

/// What to do about a submitted query.
#[derive(Debug, PartialEq, Eq)]
pub enum SearchRequest {
    /// Nothing: the query is empty.
    Nothing,
    /// Search the catalog for the query and, when a viewer is logged in,
    /// note the search in the history of the viewer with this id.
    Search { log_for: Option<String> },
}

/// Shown when a search finds nothing.
pub open spec fn nothing_found() -> Seq<char> {
    "No videos found."@
}

/// Shown when a search fails for the given reason.
pub open spec fn search_failed(reason: Seq<char>) -> Seq<char> {
    "Error: "@ + reason
}

impl<T> SearchPanel<T> {
    /// The search box before any search.
    pub fn new() -> (panel: SearchPanel<T>)
        ensures
            !panel.is_loading,
            panel.videos@.len() == 0,
            panel.error_message is None,
    {
        SearchPanel { is_loading: false, videos: Vec::new(), error_message: None }
    }

    /// The viewer submits `query`. An empty query changes nothing. Any
    /// other starts a search: the box shows that it is loading, and neither
    /// results nor an error.
    pub fn submit(&mut self, query: &str, user_id: Option<String>) -> (request: SearchRequest)
        ensures
            query@.len() == 0 ==> request == SearchRequest::Nothing && *final(self) == *old(self),
            query@.len() > 0 ==> {
                &&& request == (SearchRequest::Search { log_for: user_id })
                &&& final(self).is_loading
                &&& final(self).videos@.len() == 0
                &&& final(self).error_message is None
            },
    {
        if query.is_empty() {
            return SearchRequest::Nothing;
        }
        self.is_loading = true;
        self.error_message = None;
        self.videos = Vec::new();
        SearchRequest::Search { log_for: user_id }
    }

    /// The outcome of the search is in: results are shown, an empty result
    /// and a failure are reported, and loading is over.
    pub fn on_outcome(&mut self, outcome: Result<Vec<T>, String>)
        ensures
            !final(self).is_loading,
            match outcome {
                Ok(found) => if found@.len() == 0 {
                    &&& final(self).videos == old(self).videos
                    &&& optional_view(final(self).error_message) == Some(nothing_found())
                } else {
                    &&& final(self).videos == found
                    &&& final(self).error_message == old(self).error_message
                },
                Err(reason) => {
                    &&& final(self).videos == old(self).videos
                    &&& optional_view(final(self).error_message) == Some(search_failed(reason@))
                },
            },
    {
        match outcome {
            Ok(found) => {
                if found.len() == 0 {
                    self.error_message = Some("No videos found.".to_owned());
                } else {
                    self.videos = found;
                }
            },
            Err(reason) => {
                let mut message = String::from_str("Error: ");
                message.append(reason.as_str());
                self.error_message = Some(message);
            },
        }
        self.is_loading = false;
    }
}

/// What the login form shows besides its fields.
#[derive(Debug, PartialEq, Eq)]
pub struct LoginForm {
    pub is_loading: bool,
    pub error_msg: Option<String>,
}

impl LoginForm {
    /// The form before any attempt.
    pub fn new() -> (form: LoginForm)
        ensures
            !form.is_loading,
            form.error_msg is None,
    {
        LoginForm { is_loading: false, error_msg: None }
    }

    /// The viewer submits the form: it shows that it is loading, and no
    /// error.
    pub fn submit(&mut self)
        ensures
            final(self).is_loading,
            final(self).error_msg is None,
    {
        self.is_loading = true;
        self.error_msg = None;
    }

    /// The outcome of the login is in. A success hands the account back,
    /// for the session to start with; a failure is shown. Loading is over.
    pub fn on_outcome<T>(&mut self, outcome: Result<T, String>) -> (logged_in: Option<T>)
        ensures
            !final(self).is_loading,
            match outcome {
                Ok(user) => logged_in == Some(user) && final(self).error_msg == old(self).error_msg,
                Err(reason) => logged_in is None && final(self).error_msg == Some(reason),
            },
    {
        self.is_loading = false;
        match outcome {
            Ok(user) => Some(user),
            Err(reason) => {
                self.error_msg = Some(reason);
                None
            },
        }
    }
}

/// The signup form: its three fields and what it reports.
#[derive(Debug, PartialEq, Eq)]
pub struct SignupForm {
    pub username: String,
    pub email: String,
    pub password: String,
    pub status_msg: String,
    pub email_error: Option<String>,
    pub username_error: Option<String>,
}

/// A `SignupForm` as plain values.
pub struct SignupFormView {
    pub username: Seq<char>,
    pub email: Seq<char>,
    pub password: Seq<char>,
    pub status_msg: Seq<char>,
    pub email_error: Option<Seq<char>>,
    pub username_error: Option<Seq<char>>,
}

impl View for SignupForm {
    type V = SignupFormView;

    open spec fn view(&self) -> SignupFormView {
        SignupFormView {
            username: self.username@,
            email: self.email@,
            password: self.password@,
            status_msg: self.status_msg@,
            email_error: optional_view(self.email_error),
            username_error: optional_view(self.username_error),
        }
    }
}

/// Status while the account is being created.
pub open spec fn creating_account() -> Seq<char> {
    "Creating account..."@
}

/// Status once the account exists.
pub open spec fn account_created() -> Seq<char> {
    "SUCCESS: Account created! You can now log in."@
}

/// Status when the account could not be created for the given reason.
pub open spec fn signup_failed(reason: Seq<char>) -> Seq<char> {
    "ERROR: "@ + reason
}

/// Shown under the email field when the email is taken.
pub open spec fn email_exists() -> Seq<char> {
    "This email already exists. "@
}

/// Shown under the name field when the name is taken.
pub open spec fn username_exists() -> Seq<char> {
    "This username already exists. "@
}

/// The form once the outcome of the signup is in, a success or a failure
/// with its reason: a success empties the fields, a failure keeps them for
/// another try.
pub open spec fn after_signup(form: SignupFormView, failure: Option<Seq<char>>) -> SignupFormView {
    match failure {
        None => SignupFormView {
            username: Seq::empty(),
            email: Seq::empty(),
            password: Seq::empty(),
            status_msg: account_created(),
            ..form
        },
        Some(reason) => SignupFormView { status_msg: signup_failed(reason), ..form },
    }
}

/// The reason of the failure of an outcome, if it is one.
pub open spec fn failure_of<T>(outcome: Result<T, String>) -> Option<Seq<char>> {
    match outcome {
        Ok(_) => None,
        Err(reason) => Some(reason@),
    }
}

/// What a field reports once the store said whether its value is taken: the
/// given notice when it is, nothing when it is free, and what it reported
/// before when the store failed.
pub open spec fn after_check(
    before: Option<Seq<char>>,
    answer: Result<bool, Seq<char>>,
    notice: Seq<char>,
) -> Option<Seq<char>> {
    match answer {
        Ok(true) => Some(notice),
        Ok(false) => None,
        Err(_) => before,
    }
}

/// Whether the store is asked about a value when the viewer leaves its
/// field: only when there is a value.
pub fn worth_checking(value: &str) -> (ask: bool)
    ensures
        ask == (value@.len() > 0),
{
    !value.is_empty()
}

impl SignupForm {
    /// The empty form.
    pub fn new() -> (form: SignupForm)
        ensures
            form@ == (SignupFormView {
                username: Seq::empty(),
                email: Seq::empty(),
                password: Seq::empty(),
                status_msg: Seq::empty(),
                email_error: None,
                username_error: None,
            }),
    {
        SignupForm {
            username: String::new(),
            email: String::new(),
            password: String::new(),
            status_msg: String::new(),
            email_error: None,
            username_error: None,
        }
    }

    /// The viewer submits the form: it reports that the account is being
    /// created.
    pub fn submit(&mut self)
        ensures
            final(self)@ == (SignupFormView { status_msg: creating_account(), ..old(self)@ }),
    {
        self.status_msg = "Creating account...".to_owned();
    }

    /// The outcome of the signup is in.
    pub fn on_outcome<T>(&mut self, outcome: Result<T, String>)
        ensures
            final(self)@ == after_signup(old(self)@, failure_of(outcome)),
    {
        match outcome {
            Ok(_) => {
                self.status_msg = "SUCCESS: Account created! You can now log in.".to_owned();
                self.username = String::new();
                self.email = String::new();
                self.password = String::new();
            },
            Err(reason) => {
                let mut status = String::from_str("ERROR: ");
                status.append(reason.as_str());
                self.status_msg = status;
            },
        }
    }

    /// The store said whether the email is taken.
    pub fn on_email_checked(&mut self, answer: Result<bool, String>)
        ensures
            final(self)@ == (SignupFormView {
                email_error: after_check(
                    old(self)@.email_error,
                    answer_view(answer),
                    email_exists(),
                ),
                ..old(self)@
            }),
    {
        match answer {
            Ok(true) => {
                self.email_error = Some("This email already exists. ".to_owned());
            },
            Ok(false) => {
                self.email_error = None;
            },
            Err(_) => {},
        }
    }

    /// The store said whether the name is taken.
    pub fn on_username_checked(&mut self, answer: Result<bool, String>)
        ensures
            final(self)@ == (SignupFormView {
                username_error: after_check(
                    old(self)@.username_error,
                    answer_view(answer),
                    username_exists(),
                ),
                ..old(self)@
            }),
    {
        match answer {
            Ok(true) => {
                self.username_error = Some("This username already exists. ".to_owned());
            },
            Ok(false) => {
                self.username_error = None;
            },
            Err(_) => {},
        }
    }
}

} // verus!
