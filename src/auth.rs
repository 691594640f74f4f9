use vstd::prelude::*;

verus! {

/// The single credential kind the bot authenticates with.
#[derive(Debug, Clone)]
pub enum AuthMethod {
    /// A bot password.
    Password(String),
    /// An OAuth2 access token.
    Token(String),
}

/// Why no authentication method could be chosen.
#[derive(Debug, Clone, Copy, PartialEq, Eq, Structural)]
pub enum AuthConfigError {
    /// Neither a password nor a token was supplied.
    MissingCredential,
    /// Both a password and a token were supplied.
    ConflictingCredentials,
}

impl AuthMethod {
    /// The secret carried by either variant.
    pub open spec fn secret_view(&self) -> Seq<char> {
        match self {
            AuthMethod::Password(s) => s@,
            AuthMethod::Token(s) => s@,
        }
    }

    /// What the password slot of the template receives.
    pub open spec fn password_view(&self) -> Seq<char> {
        match self {
            AuthMethod::Password(s) => s@,
            AuthMethod::Token(_) => Seq::empty(),
        }
    }

    /// What the token slot of the template receives.
    pub open spec fn token_view(&self) -> Seq<char> {
        match self {
            AuthMethod::Password(_) => Seq::empty(),
            AuthMethod::Token(s) => s@,
        }
    }

    pub fn is_password(&self) -> (r: bool)
        ensures
            r == (self is Password),
    {
        match self {
            AuthMethod::Password(_) => true,
            AuthMethod::Token(_) => false,
        }
    }

    /// The text for the password slot: the password, or empty for a token.
    pub fn password_text(&self) -> (r: String)
        ensures
            r@ == self.password_view(),
    {
        match self {
            AuthMethod::Password(s) => s.clone(),
            AuthMethod::Token(_) => String::new(),
        }
    }

    /// The text for the token slot: the token, or empty for a password.
    pub fn token_text(&self) -> (r: String)
        ensures
            r@ == self.token_view(),
    {
        match self {
            AuthMethod::Password(_) => String::new(),
            AuthMethod::Token(s) => s.clone(),
        }
    }
}

/// Chooses the authentication method: exactly one of the two inputs must
/// be present.
pub fn resolve_auth(password: Option<String>, token: Option<String>) -> (r: Result<
    AuthMethod,
    AuthConfigError,
>)
    ensures
        password is Some && token is None ==> (r matches Ok(AuthMethod::Password(q))
            && q@ == password->0@),
        password is None && token is Some ==> (r matches Ok(AuthMethod::Token(q)) && q@
            == token->0@),
        password is None && token is None ==> r == Err::<AuthMethod, AuthConfigError>(
            AuthConfigError::MissingCredential,
        ),
        password is Some && token is Some ==> r == Err::<AuthMethod, AuthConfigError>(
            AuthConfigError::ConflictingCredentials,
        ),
{
    match (password, token) {
        (Some(p), None) => Ok(AuthMethod::Password(p)),
        (None, Some(t)) => Ok(AuthMethod::Token(t)),
        (None, None) => Err(AuthConfigError::MissingCredential),
        (Some(_), Some(_)) => Err(AuthConfigError::ConflictingCredentials),
    }
}

} // verus!
