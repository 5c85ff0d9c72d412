use vstd::prelude::*;
use crate::error::FederationError;
use crate::text::option_text;
use crate::web_url::{join_url, joined_url, parsed_url};

verus! {

/// A problem with a submitted form, as mathematical values.
pub struct Problem {
    pub path: Seq<char>,
    pub message: Seq<char>,
}

/// A problem with a submitted form: the field it concerns, `root` for the
/// form as a whole, and what to tell the user.
#[derive(Clone, Debug, PartialEq, Eq)]
pub struct FieldError {
    pub path: String,
    pub message: String,
}

impl View for FieldError {
    type V = Problem;

    open spec fn view(&self) -> Problem {
        Problem { path: self.path@, message: self.message@ }
    }
}

/// What a login handler answers with.
#[derive(Clone, Debug, PartialEq, Eq)]
pub enum LoginResponse {
    /// The login form, with the problems of the last submission and the
    /// address to go back to after login.
    Form { errors: Vec<FieldError>, previous_uri: Option<String> },
    /// The login page of the demo mode.
    DemoForm,
    /// The form on which a new OIDC user chooses a name.
    SelectUsername { errors: Vec<FieldError> },
    /// A redirect to this address.
    Redirect(String),
}

/// What a login handler does next.
#[derive(Clone, Debug, PartialEq, Eq)]
pub enum LoginStep {
    /// Answer the request.
    Respond(LoginResponse),
    /// Check the submitted credentials against the stored ones, start the
    /// session, and go on with [`post_login_authenticated`].
    Authenticate,
    /// Start the session of the existing user, then redirect to the start
    /// page.
    StartSession,
    /// Keep what the OIDC issuer said of the user in the session, then show
    /// the form on which the user chooses a name.
    RememberAndSelectUsername,
    /// Create the user, start its session, commit, then redirect to the
    /// start page.
    CreateUser,
}

/// The problem shown when the credentials are not accepted. It does not say
/// which of the two was wrong.
pub open spec fn credentials_problem() -> Problem {
    Problem { path: "root"@, message: "Username or password not correct"@ }
}

/// The address to go back to after login, read against the base URL: `None`
/// where none was given, else what joining it to the base URL made of it.
pub open spec fn joined_target(previous_uri: Option<String>, base_url: Seq<char>) -> Option<
    Option<Seq<char>>,
> {
    match previous_uri {
        Some(reference) => Some(joined_url(base_url, reference@)),
        None => None,
    }
}

/// Whether `response` is the login page for the address to go back to as it
/// was joined to the base URL, where the inner `None` stands for an address
/// that could not be joined: the demo page in demo mode, whatever the address;
/// else `Malformed` for an address that could not be joined, and else the
/// empty form with the joined address.
pub open spec fn is_login_page(
    response: Result<LoginResponse, FederationError>,
    demo_mode: bool,
    target: Option<Option<Seq<char>>>,
) -> bool {
    if demo_mode {
        response == Ok::<LoginResponse, FederationError>(LoginResponse::DemoForm)
    } else {
        match target {
            Some(None) => response == Err::<LoginResponse, FederationError>(
                FederationError::Malformed,
            ),
            Some(Some(joined)) => (response matches Ok(
                LoginResponse::Form { errors, previous_uri },
            ) && errors@.len() == 0 && option_text(previous_uri) == Some(joined)),
            None => (response matches Ok(LoginResponse::Form { errors, previous_uri })
                && errors@.len() == 0 && previous_uri is None),
        }
    }
}

/// The characters of a joined address.
pub open spec fn target_text(target: Option<Option<String>>) -> Option<Option<Seq<char>>> {
    match target {
        Some(joined) => Some(option_text(joined)),
        None => None,
    }
}

/// Shows the login page: the demo page in demo mode, else the form. The
/// address to go back to is read against the server's base URL; `Malformed`
/// where it cannot be.
pub fn get_login(demo_mode: bool, previous_uri: Option<String>, base_url: &str) -> (response:
    Result<LoginResponse, FederationError>)
    ensures
        is_login_page(response, demo_mode, joined_target(previous_uri, base_url@)),
        !demo_mode && previous_uri is Some && parsed_url(base_url@) is None ==> response == Err::<
            LoginResponse,
            FederationError,
        >(FederationError::Malformed),
{
    let target = match &previous_uri {
        Some(reference) => Some(join_url(base_url, reference.as_str())),
        None => None,
    };
    login_page(demo_mode, target)
}

/// Shows the login page for the address to go back to as it was joined to
/// the base URL, where the inner `None` stands for an address that could not
/// be joined.
pub fn login_page(demo_mode: bool, target: Option<Option<String>>) -> (response: Result<
    LoginResponse,
    FederationError,
>)
    ensures
        is_login_page(response, demo_mode, target_text(target)),
{
    if demo_mode {
        return Ok(LoginResponse::DemoForm);
    }
    match target {
        Some(None) => Err(FederationError::Malformed),
        Some(Some(joined)) => Ok(
            LoginResponse::Form { errors: Vec::new(), previous_uri: Some(joined) },
        ),
        None => Ok(LoginResponse::Form { errors: Vec::new(), previous_uri: None }),
    }
}

/// Takes a submitted login form with the problems that its validation found.
/// With problems the form is shown again with them; without, the credentials
/// are to be checked.
pub fn post_login(errors: Vec<FieldError>, previous_uri: Option<String>) -> (step: LoginStep)
    ensures
        step == if errors@.len() > 0 {
            LoginStep::Respond(LoginResponse::Form { errors, previous_uri })
        } else {
            LoginStep::Authenticate
        },
{
    if errors.len() > 0 {
        LoginStep::Respond(LoginResponse::Form { errors, previous_uri })
    } else {
        LoginStep::Authenticate
    }
}

/// Answers a login once the credentials were checked. Accepted, the user is
/// sent to the address it came from, or to the base URL where it came from
/// none. Rejected, the form is shown again with one problem, on the form as a
/// whole.
pub fn post_login_authenticated(
    accepted: bool,
    previous_uri: Option<String>,
    base_url: String,
) -> (response: LoginResponse)
    ensures
        accepted ==> response == LoginResponse::Redirect(
            match previous_uri {
                Some(target) => target,
                None => base_url,
            },
        ),
        !accepted ==> (response matches LoginResponse::Form { errors, previous_uri: target }
            && errors@.len() == 1 && errors@[0]@ == credentials_problem() && target
            == previous_uri),
{
    if accepted {
        let target = match previous_uri {
            Some(target) => target,
            None => base_url,
        };
        LoginResponse::Redirect(target)
    } else {
        let mut errors: Vec<FieldError> = Vec::new();
        errors.push(
            FieldError {
                path: "root".to_owned(),
                message: "Username or password not correct".to_owned(),
            },
        );
        LoginResponse::Form { errors, previous_uri }
    }
}

/// Goes on after the OIDC issuer sent the user back and the user was looked
/// up by its OIDC identity. A known user gets its session; one that is
/// `NotFound` is new and chooses a name; any other failure of the lookup is
/// handed on unchanged.
pub fn get_login_oidc_redirect(existing_user: Result<(), FederationError>) -> (step: Result<
    LoginStep,
    FederationError,
>)
    ensures
        step == match existing_user {
            Ok(_) => Ok::<LoginStep, FederationError>(LoginStep::StartSession),
            Err(FederationError::NotFound) => Ok(LoginStep::RememberAndSelectUsername),
            Err(e) => Err(e),
        },
{
    match existing_user {
        Ok(_) => Ok(LoginStep::StartSession),
        Err(FederationError::NotFound) => Ok(LoginStep::RememberAndSelectUsername),
        Err(e) => Err(e),
    }
}

/// Takes the form on which a new OIDC user chose a name, with the problems
/// that its validation found, and whether the user that the name and the
/// issuer's data make is valid. With problems the form is shown again with
/// them; an invalid user is `Malformed`; else the user is to be created.
pub fn post_login_oidc_redirect(errors: Vec<FieldError>, user_is_valid: bool) -> (step: Result<
    LoginStep,
    FederationError,
>)
    ensures
        step == if errors@.len() > 0 {
            Ok::<LoginStep, FederationError>(
                LoginStep::Respond(LoginResponse::SelectUsername { errors }),
            )
        } else if user_is_valid {
            Ok(LoginStep::CreateUser)
        } else {
            Err(FederationError::Malformed)
        },
{
    if errors.len() > 0 {
        Ok(LoginStep::Respond(LoginResponse::SelectUsername { errors }))
    } else if user_is_valid {
        Ok(LoginStep::CreateUser)
    } else {
        Err(FederationError::Malformed)
    }
}

} // verus!
