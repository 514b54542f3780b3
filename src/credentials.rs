use vstd::prelude::*;

use crate::text::opt_view;

verus! {

/// Authentication settings from one source; either field may be unset.
pub struct Auth {
    pub username: Option<String>,
    pub auth_token: Option<String>,
}

/// What an `Auth` holds, as text.
pub struct AuthView {
    pub username: Option<Seq<char>>,
    pub auth_token: Option<Seq<char>>,
}

impl View for Auth {
    type V = AuthView;

    open spec fn view(&self) -> AuthView {
        AuthView { username: opt_view(self.username), auth_token: opt_view(self.auth_token) }
    }
}

/// The first of two settings that is set.
pub open spec fn prefer(first: Option<Seq<char>>, second: Option<Seq<char>>) -> Option<Seq<char>> {
    if first is Some {
        first
    } else {
        second
    }
}

/// Settings merged field by field: command-line flags over environment
/// variables over the configuration file.
pub open spec fn merged(flags: AuthView, env: AuthView, file: AuthView) -> AuthView {
    AuthView {
        username: prefer(flags.username, prefer(env.username, file.username)),
        auth_token: prefer(flags.auth_token, prefer(env.auth_token, file.auth_token)),
    }
}

/// A setting is present when it is set and not empty.
pub open spec fn is_present(o: Option<Seq<char>>) -> bool {
    o is Some && o->0.len() > 0
}

/// A missing credential, found before any request is made.
#[derive(PartialEq, Eq, Structural, Debug, Clone, Copy)]
pub enum ConfigError {
    MissingUsername,
    MissingToken,
    MissingUsernameAndToken,
}

/// The configuration error for settings `a`, if a credential is missing.
pub open spec fn config_error(a: AuthView) -> Option<ConfigError> {
    if !is_present(a.username) && !is_present(a.auth_token) {
        Some(ConfigError::MissingUsernameAndToken)
    } else if !is_present(a.username) {
        Some(ConfigError::MissingUsername)
    } else if !is_present(a.auth_token) {
        Some(ConfigError::MissingToken)
    } else {
        None
    }
}

/// A user name and a token, both non-empty.
pub struct Credentials {
    pub username: String,
    pub auth_token: String,
}

fn take_present(o: Option<String>) -> (r: Option<String>)
    ensures
        r is Some <==> is_present(opt_view(o)),
        r matches Some(s) ==> opt_view(o) == Some(s@),
{
    match o {
        Some(s) => if s.as_str().is_empty() {
            None
        } else {
            Some(s)
        },
        None => None,
    }
}

fn prefer_exec(first: Option<String>, second: Option<String>) -> (r: Option<String>)
    ensures
        opt_view(r) == prefer(opt_view(first), opt_view(second)),
{
    if first.is_some() {
        first
    } else {
        second
    }
}

impl Default for Auth {
    fn default() -> (r: Auth)
        ensures
            r.username is None,
            r.auth_token is None,
    {
        Auth { username: None, auth_token: None }
    }
}

impl Auth {
    /// Merges the settings of the three sources, the command-line flags first,
    /// then the environment variables, then the configuration file: each field
    /// comes from the first source that sets it.
    pub fn load(flags: Auth, env: Auth, file: Auth) -> (r: Auth)
        ensures
            r@ == merged(flags@, env@, file@),
    {
        Auth {
            username: prefer_exec(flags.username, prefer_exec(env.username, file.username)),
            auth_token: prefer_exec(flags.auth_token, prefer_exec(env.auth_token, file.auth_token)),
        }
    }

    /// The credentials, or which of them is missing (unset or empty).
    pub fn credentials(self) -> (r: Result<Credentials, ConfigError>)
        ensures
            r is Err <==> config_error(self@) is Some,
            r matches Err(e) ==> config_error(self@) == Some(e),
            r matches Ok(c) ==> self@.username == Some(c.username@) && self@.auth_token == Some(
                c.auth_token@,
            ) && c.username@.len() > 0 && c.auth_token@.len() > 0,
    {
        let user = take_present(self.username);
        let token = take_present(self.auth_token);
        match (user, token) {
            (Some(username), Some(auth_token)) => Ok(Credentials { username, auth_token }),
            (None, None) => Err(ConfigError::MissingUsernameAndToken),
            (None, Some(_)) => Err(ConfigError::MissingUsername),
            (Some(_), None) => Err(ConfigError::MissingToken),
        }
    }
}

/// Credentials given as command-line flags win over whatever the environment
/// and the configuration file hold.
pub proof fn lemma_flags_take_precedence(flags: AuthView, env: AuthView, file: AuthView)
    requires
        is_present(flags.username),
        is_present(flags.auth_token),
    ensures
        merged(flags, env, file) == flags,
        config_error(merged(flags, env, file)) is None,
{
}

/// With no user name and no token in the flags, the environment or the
/// configuration file, resolution ends in a configuration error naming both.
pub proof fn lemma_nothing_configured(flags: AuthView, env: AuthView, file: AuthView)
    requires
        !is_present(flags.username) && !is_present(env.username) && !is_present(file.username),
        !is_present(flags.auth_token) && !is_present(env.auth_token) && !is_present(
            file.auth_token,
        ),
    ensures
        config_error(merged(flags, env, file)) == Some(ConfigError::MissingUsernameAndToken),
{
}

} // verus!
