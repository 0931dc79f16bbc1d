//! Interceptors: units that may change a request before it is dispatched.

use vstd::prelude::*;
use vstd::string::StringExecFns;
use crate::headers::put;
use crate::request::{Request, RequestModel};
use crate::wire::{header_value_accepted, valid_header_value};

verus! {

/// The key under which the credential is kept in the key-value store.
pub const CREDENTIAL_KEY: &'static str = "user.info.token";

/// The header that carries the credential.
pub const AUTH_HEADER: &'static str = "Authorization";

/// What stands before the credential in the header value.
pub const AUTH_SCHEME: &'static str = "Bearer ";

/// The key under which the credential is kept, as text.
pub open spec fn credential_key() -> Seq<char> {
    CREDENTIAL_KEY@
}

/// The header that carries the credential, as text.
pub open spec fn auth_header() -> Seq<char> {
    AUTH_HEADER@
}

/// The header value that carries `credential`.
pub open spec fn bearer(credential: Seq<char>) -> Seq<char> {
    AUTH_SCHEME@ + credential
}

/// The kinds of interceptor that a client can hold.
#[derive(Clone, Copy, Debug, PartialEq, Eq, Structural)]
pub enum Interceptor {
    /// Puts the stored credential into the request.
    Auth,
}

/// Why an interceptor left a request as it was.
#[derive(Clone, Copy, Debug, PartialEq, Eq, Structural)]
pub enum InterceptError {
    /// The store holds no credential, or an empty one.
    MissingCredential,
    /// The credential cannot stand in a header value.
    UnusableCredential,
}

impl Interceptor {
    /// What the interceptor makes of `request` when the store answers
    /// `credential`: the changed request, or the reason why it stays as it is.
    pub open spec fn outcome(self, request: RequestModel, credential: Option<Seq<char>>) -> Result<
        RequestModel,
        InterceptError,
    > {
        match credential {
            None => Err(InterceptError::MissingCredential),
            Some(token) => if token.len() == 0 {
                Err(InterceptError::MissingCredential)
            } else if !valid_header_value(bearer(token)) {
                Err(InterceptError::UnusableCredential)
            } else {
                Ok(
                    RequestModel {
                        headers: put(request.headers, auth_header(), bearer(token)),
                        ..request
                    },
                )
            },
        }
    }

    /// The request after the interceptor has had its turn: changed where it
    /// applied, untouched where it did not.
    pub open spec fn applied(self, request: RequestModel, credential: Option<Seq<char>>) -> RequestModel {
        match self.outcome(request, credential) {
            Ok(changed) => changed,
            Err(_) => request,
        }
    }

    /// The key that this interceptor reads from the store.
    pub fn store_key(&self) -> (key: String)
        ensures
            key@ == credential_key(),
    {
        CREDENTIAL_KEY.to_owned()
    }

    /// Gives the interceptor its turn on `request`. `credential` is what the
    /// store holds under `store_key`. Nothing but the request's headers can change.
    pub fn intercept(&self, request: &mut Request, credential: Option<&str>) -> (done: Result<
        (),
        InterceptError,
    >)
        ensures
            match self.outcome(
                old(request)@,
                match credential {
                    Some(token) => Some(token@),
                    None => None,
                },
            ) {
                Ok(changed) => done is Ok && final(request)@ == changed,
                Err(reason) => done == Err::<(), InterceptError>(reason) && final(request)@ == old(
                    request,
                )@,
            },
    {
        match credential {
            None => Err(InterceptError::MissingCredential),
            Some(token) => {
                if token.is_empty() {
                    return Err(InterceptError::MissingCredential);
                }
                let value = AUTH_SCHEME.to_owned().concat(token);
                if !header_value_accepted(value.as_str()) {
                    return Err(InterceptError::UnusableCredential);
                }
                request.headers.set(AUTH_HEADER.to_owned(), value);
                Ok(())
            },
        }
    }
}

} // verus!
