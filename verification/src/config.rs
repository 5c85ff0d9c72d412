use vstd::prelude::*;
use vstd::std_specs::convert::FromSpecImpl;

verus! {

/// Why the server's settings cannot be used.
#[derive(Clone, Copy, Debug, PartialEq, Eq, Structural)]
pub enum ConfigError {
    /// Some of the OIDC settings are given, but not all four.
    IncompleteOidc,
    /// Neither an address to listen on nor a passed socket is given.
    NoListener,
}

/// The settings of the OIDC login. To use OIDC, all four must be set.
#[derive(Clone, Debug, PartialEq, Eq)]
pub struct OidcArgs {
    pub oidc_client_id: String,
    pub oidc_client_secret: String,
    pub oidc_issuer_url: String,
    /// This is displayed on the login page.
    pub oidc_issuer_name: String,
}

/// What the four OIDC settings, each given or not, amount to.
pub open spec fn oidc_args_of(
    client_id: Option<String>,
    client_secret: Option<String>,
    issuer_url: Option<String>,
    issuer_name: Option<String>,
) -> Result<Option<OidcArgs>, ConfigError> {
    match (client_id, client_secret, issuer_url, issuer_name) {
        (Some(oidc_client_id), Some(oidc_client_secret), Some(oidc_issuer_url), Some(
            oidc_issuer_name,
        )) => Ok(
            Some(OidcArgs { oidc_client_id, oidc_client_secret, oidc_issuer_url, oidc_issuer_name }),
        ),
        (None, None, None, None) => Ok(None),
        _ => Err(ConfigError::IncompleteOidc),
    }
}

impl OidcArgs {
    /// Gathers the four OIDC settings: all of them, or none where OIDC is not
    /// used. Some without the others are an error.
    pub fn from_options(
        client_id: Option<String>,
        client_secret: Option<String>,
        issuer_url: Option<String>,
        issuer_name: Option<String>,
    ) -> (args: Result<Option<OidcArgs>, ConfigError>)
        ensures
            args == oidc_args_of(client_id, client_secret, issuer_url, issuer_name),
    {
        match (client_id, client_secret, issuer_url, issuer_name) {
            (Some(oidc_client_id), Some(oidc_client_secret), Some(oidc_issuer_url), Some(
                oidc_issuer_name,
            )) => Ok(
                Some(
                    OidcArgs {
                        oidc_client_id,
                        oidc_client_secret,
                        oidc_issuer_url,
                        oidc_issuer_name,
                    },
                ),
            ),
            (None, None, None, None) => Ok(None),
            _ => Err(ConfigError::IncompleteOidc),
        }
    }
}

/// Where the server takes its connections from.
#[derive(Clone, Debug, PartialEq, Eq)]
pub enum Listener {
    /// The socket that the service manager passed to the process.
    Passed,
    /// A socket bound to this address, written as `ip:port`.
    Bound(String),
}

/// Where to listen: at least one of the two must be set.
#[derive(Clone, Debug, PartialEq, Eq)]
pub struct ListenArgs {
    /// Format: `ip:port`.
    pub listen: Option<String>,
    /// Take a socket using the systemd socket passing protocol and listen on
    /// it. If set, overrides `listen`.
    pub listenfd: bool,
}

impl ListenArgs {
    /// The listener that these settings select.
    pub open spec fn selected(self) -> Result<Listener, ConfigError> {
        if self.listenfd {
            Ok(Listener::Passed)
        } else {
            match self.listen {
                Some(address) => Ok(Listener::Bound(address)),
                None => Err(ConfigError::NoListener),
            }
        }
    }

    /// The listener that these settings select: the passed socket where
    /// `listenfd` is set, else the address; `NoListener` where neither is
    /// given.
    pub fn listener(self) -> (listener: Result<Listener, ConfigError>)
        ensures
            listener == self.selected(),
    {
        if self.listenfd {
            Ok(Listener::Passed)
        } else {
            match self.listen {
                Some(address) => Ok(Listener::Bound(address)),
                None => Err(ConfigError::NoListener),
            }
        }
    }
}

/// A user to create.
#[derive(Clone, Debug, PartialEq, Eq)]
pub struct CreateUser {
    pub username: String,
    pub password: String,
}

/// The credentials of the admin user, as given at startup. The admin user is
/// created if it does not exist yet.
#[derive(Clone, Debug, PartialEq, Eq)]
pub struct AdminCredentials {
    pub username: Option<String>,
    /// Password for the admin user.
    pub password: Option<String>,
}

impl From<AdminCredentials> for Option<CreateUser> {
    fn from(value: AdminCredentials) -> (user: Self) {
        if let (Some(username), Some(password)) = (value.username, value.password) {
            Some(CreateUser { username, password })
        } else {
            None
        }
    }
}

impl FromSpecImpl<AdminCredentials> for Option<CreateUser> {
    open spec fn obeys_from_spec() -> bool {
        true
    }

    /// An admin user is created only where both a name and a password are
    /// given.
    open spec fn from_spec(value: AdminCredentials) -> Self {
        match (value.username, value.password) {
            (Some(username), Some(password)) => Some(CreateUser { username, password }),
            _ => None,
        }
    }
}

} // verus!
