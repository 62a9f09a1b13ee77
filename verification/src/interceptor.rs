//! The guard that stands in front of every request: a request to a public
//! path passes unseen, any other passes only with a valid bearer token.

use vstd::prelude::*;
use vstd::string::*;
use crate::config::{Configuration, ConfigurationView};
use crate::error::MyError;
use crate::text::{has_prefix, starts_with, text_eq, without_first};
use crate::token::{valid_jwt_token, validate_at, validated};

verus! {

/// The `Authorization` header of a request, as far as the guard reads it.
#[derive(Clone, Debug, PartialEq, Eq)]
pub enum AuthorizationHeader {
    /// The request carries no such header.
    Absent,
    /// The header's value is no text.
    Unreadable,
    /// The header's value.
    Value(String),
}

/// What the guard reads of a request.
#[derive(Clone, Debug, PartialEq, Eq)]
pub struct Request {
    /// The path that is asked for.
    pub path: String,
    /// The `Authorization` header.
    pub authorization: AuthorizationHeader,
}

/// Where the guard sends a request. A request is sent on unchanged or turned
/// away; nothing lies between and nothing is tried again.
#[derive(Clone, Copy, Debug, PartialEq, Eq, Structural)]
pub enum Decision {
    /// The request goes on to its handler as it came.
    Forwarded,
    /// The request ends here; no handler and no later layer sees it.
    Rejected,
}

impl Decision {
    /// The decision as a result: a rejection is always `Unauthorized`.
    pub fn into_result(self) -> (outcome: Result<(), MyError>)
        ensures
            outcome == match self {
                Decision::Forwarded => Ok::<(), MyError>(()),
                Decision::Rejected => Err::<(), MyError>(MyError::Unauthorized),
            },
    {
        match self {
            Decision::Forwarded => Ok(()),
            Decision::Rejected => Err(MyError::Unauthorized),
        }
    }
}

/// Whether `path` is one of the paths that need no token: the sign-in path
/// and the two demonstration paths, each matched as a whole.
pub open spec fn public_path(path: Seq<char>) -> bool {
    path == "/sign-in"@ || path == "/hey"@ || path == "/hello"@
}

/// Computes [`public_path`].
pub fn is_public_path(path: &str) -> (public: bool)
    ensures
        public == public_path(path@),
{
    text_eq(path, "/sign-in") || text_eq(path, "/hey") || text_eq(path, "/hello")
}

/// The scheme with which a bearer token is presented, with the space that
/// parts it from the token.
pub open spec fn bearer_prefix() -> Seq<char> {
    "Bearer "@
}

/// The token that a header presents: what follows the bearer prefix in a
/// header's value that begins with it. No other header presents one.
pub open spec fn bearer_token(header: AuthorizationHeader) -> Option<Seq<char>> {
    match header {
        AuthorizationHeader::Value(value) => if has_prefix(value@, bearer_prefix()) {
            Some(value@.skip(bearer_prefix().len() as int))
        } else {
            None
        },
        _ => None,
    }
}

/// Takes the bearer token out of the header, or fails with `Unauthorized`
/// where the header presents none.
pub fn jwt_token(header: &AuthorizationHeader) -> (outcome: Result<String, MyError>)
    ensures
        match bearer_token(*header) {
            Some(token) => outcome matches Ok(text) && text@ == token,
            None => outcome == Err::<String, MyError>(MyError::Unauthorized),
        },
{
    match header {
        AuthorizationHeader::Value(value) => {
            let prefix = "Bearer ";
            if !starts_with(value.as_str(), prefix) {
                return Err(MyError::Unauthorized);
            }
            let length: usize = prefix.unicode_len();
            Ok(without_first(value.as_str(), length))
        },
        _ => Err(MyError::Unauthorized),
    }
}

/// Where a request goes at the moment `now`: on, if its path is public or
/// its header presents a token that is valid at `now`; else away.
pub open spec fn decision(
    config: ConfigurationView,
    path: Seq<char>,
    header: AuthorizationHeader,
    now: i64,
) -> Decision {
    if public_path(path) {
        Decision::Forwarded
    } else {
        match bearer_token(header) {
            Some(token) => if validated(config, token, now) is Ok {
                Decision::Forwarded
            } else {
                Decision::Rejected
            },
            None => Decision::Rejected,
        }
    }
}

/// Makes the guard for each service that it is to stand in front of.
pub struct Authentication {
    pub config: Configuration,
}

/// The guard in front of one service.
pub struct AuthenticationMiddleware<S> {
    service: S,
    config: Configuration,
}

impl Authentication {
    /// The maker of guards that go by `config`.
    pub fn new(config: Configuration) -> (authentication: Authentication)
        ensures
            authentication.config == config,
    {
        Authentication { config }
    }

    /// The guard in front of `service`, with this maker's settings.
    pub fn new_transform<S>(&self, service: S) -> (middleware: AuthenticationMiddleware<S>)
        ensures
            middleware.spec_service() == service,
            middleware.spec_config() == self.config@,
    {
        AuthenticationMiddleware { service, config: self.config.duplicate() }
    }
}

impl<S> AuthenticationMiddleware<S> {
    /// The service behind the guard.
    pub closed spec fn spec_service(&self) -> S {
        self.service
    }

    /// The settings that the guard goes by.
    pub closed spec fn spec_config(&self) -> ConfigurationView {
        self.config@
    }

    /// The service behind the guard, to which a forwarded request is handed.
    pub fn service(&self) -> (service: &S)
        ensures
            *service == self.spec_service(),
    {
        &self.service
    }

    /// The settings that the guard goes by.
    pub fn config(&self) -> (config: &Configuration)
        ensures
            config@ == self.spec_config(),
    {
        &self.config
    }

    /// Decides on `request` as of the moment `now`.
    pub fn call_at(&self, request: &Request, now: i64) -> (outcome: Decision)
        ensures
            outcome == decision(self.spec_config(), request.path@, request.authorization, now),
    {
        if is_public_path(request.path.as_str()) {
            return Decision::Forwarded;
        }
        match jwt_token(&request.authorization) {
            Ok(token) => match validate_at(&self.config, token.as_str(), now) {
                Ok(_) => Decision::Forwarded,
                Err(_) => Decision::Rejected,
            },
            Err(_) => Decision::Rejected,
        }
    }

    /// Decides on `request` as of now, by the system's clock. The clock is
    /// read only for a request that presents a token on a path that is not
    /// public.
    pub fn call(&self, request: &Request) -> (outcome: Decision)
        ensures
            exists|now: i64|
                0 <= now && outcome == decision(
                    self.spec_config(),
                    request.path@,
                    request.authorization,
                    now,
                ),
    {
        if is_public_path(request.path.as_str()) {
            assert(Decision::Forwarded == decision(
                self.spec_config(),
                request.path@,
                request.authorization,
                0,
            ));
            return Decision::Forwarded;
        }
        match jwt_token(&request.authorization) {
            Ok(token) => {
                let valid = valid_jwt_token(&self.config, token.as_str());
                let ghost now = choose|now: i64|
                    0 <= now && valid == validated(self.config@, token@, now) is Ok;
                let outcome = if valid {
                    Decision::Forwarded
                } else {
                    Decision::Rejected
                };
                assert(0 <= now && outcome == decision(
                    self.spec_config(),
                    request.path@,
                    request.authorization,
                    now,
                ));
                outcome
            },
            Err(_) => {
                assert(Decision::Rejected == decision(
                    self.spec_config(),
                    request.path@,
                    request.authorization,
                    0,
                ));
                Decision::Rejected
            },
        }
    }
}

/// A request to a public path is forwarded whatever its header holds, also
/// with no header at all; a request to any other path with no header is
/// rejected.
pub proof fn law_allow_list(
    config: ConfigurationView,
    path: Seq<char>,
    header: AuthorizationHeader,
    now: i64,
)
    ensures
        public_path(path) ==> decision(config, path, header, now) == Decision::Forwarded,
        !public_path(path) ==> decision(config, path, AuthorizationHeader::Absent, now)
            == Decision::Rejected,
{
}

/// A header whose value does not begin with the bearer prefix, letter for
/// letter and with its space, is rejected on every path that is not public,
/// whatever the settings, the moment and the rest of the value: no
/// signature is looked at.
pub proof fn law_prefix_strictness(
    config: ConfigurationView,
    path: Seq<char>,
    value: String,
    now: i64,
)
    requires
        !public_path(path),
        !has_prefix(value@, bearer_prefix()),
    ensures
        decision(config, path, AuthorizationHeader::Value(value), now) == Decision::Rejected,
{
}

} // verus!
