use federation_core::config::{
    AdminCredentials, ConfigError, CreateUser, ListenArgs, Listener, OidcArgs,
};

fn some(text: &str) -> Option<String> {
    Some(text.to_string())
}

#[test]
fn all_four_oidc_settings_make_the_arguments() {
    assert_eq!(
        OidcArgs::from_options(some("id"), some("secret"), some("https://issuer.example"), some("Issuer")),
        Ok(Some(OidcArgs {
            oidc_client_id: "id".to_string(),
            oidc_client_secret: "secret".to_string(),
            oidc_issuer_url: "https://issuer.example".to_string(),
            oidc_issuer_name: "Issuer".to_string(),
        }))
    );
}

#[test]
fn no_oidc_setting_means_no_oidc() {
    assert_eq!(OidcArgs::from_options(None, None, None, None), Ok(None));
}

#[test]
fn some_oidc_settings_without_the_others_are_refused() {
    assert_eq!(
        OidcArgs::from_options(some("id"), None, None, None),
        Err(ConfigError::IncompleteOidc)
    );
    assert_eq!(
        OidcArgs::from_options(some("id"), some("secret"), some("url"), None),
        Err(ConfigError::IncompleteOidc)
    );
    assert_eq!(
        OidcArgs::from_options(None, some("secret"), some("url"), some("name")),
        Err(ConfigError::IncompleteOidc)
    );
}

#[test]
fn a_passed_socket_overrides_the_address() {
    let both = ListenArgs { listen: some("127.0.0.1:4000"), listenfd: true };
    assert_eq!(both.listener(), Ok(Listener::Passed));
    let passed = ListenArgs { listen: None, listenfd: true };
    assert_eq!(passed.listener(), Ok(Listener::Passed));
}

#[test]
fn an_address_alone_is_bound() {
    let bound = ListenArgs { listen: some("127.0.0.1:4000"), listenfd: false };
    assert_eq!(bound.listener(), Ok(Listener::Bound("127.0.0.1:4000".to_string())));
}

#[test]
fn neither_address_nor_socket_is_refused() {
    let neither = ListenArgs { listen: None, listenfd: false };
    assert_eq!(neither.listener(), Err(ConfigError::NoListener));
}

#[test]
fn an_admin_user_needs_both_name_and_password() {
    let both = AdminCredentials { username: some("admin"), password: some("hunter2hunter2") };
    assert_eq!(
        Option::<CreateUser>::from(both),
        Some(CreateUser { username: "admin".to_string(), password: "hunter2hunter2".to_string() })
    );
    let name_only = AdminCredentials { username: some("admin"), password: None };
    assert_eq!(Option::<CreateUser>::from(name_only), None);
    let password_only = AdminCredentials { username: None, password: some("hunter2hunter2") };
    assert_eq!(Option::<CreateUser>::from(password_only), None);
    let neither = AdminCredentials { username: None, password: None };
    assert_eq!(Option::<CreateUser>::from(neither), None);
}
