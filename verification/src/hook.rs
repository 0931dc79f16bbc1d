//! The token lifecycle hook: what a materialised response means for the
//! stored credential.

use vstd::prelude::*;
use crate::interceptor::credential_key;
use crate::text::{contains, has_substring};
use crate::wire::{json_integer_member, read_integer_member};

verus! {

/// The path fragment that marks a password-update endpoint.
pub const PASSWORD_UPDATE_MARKER: &'static str = "/user/updatePassword";

/// The top-level member of a password-update answer that reports how it went.
pub const STATUS_MEMBER: &'static str = "status";

/// The path fragment that marks a password-update endpoint, as text.
pub open spec fn password_update_marker() -> Seq<char> {
    PASSWORD_UPDATE_MARKER@
}

/// The name of the status member, as text.
pub open spec fn status_member() -> Seq<char> {
    STATUS_MEMBER@
}

/// The value of the status member that reports success.
pub const SUCCESS_CODE: i64 = 200;

/// `url` addresses a password-update endpoint.
pub open spec fn is_password_update(url: Seq<char>) -> bool {
    has_substring(url, password_update_marker())
}

/// What the hook asks for.
#[derive(Clone, Copy, Debug, PartialEq, Eq, Structural)]
pub enum Verdict {
    /// Delete the stored credential.
    Clear,
    /// Look for a new credential in the body and store it if there is one.
    Extract,
    /// Leave the store alone.
    Keep,
}

/// The verdict on a password-update answer whose status member reads `status`.
pub open spec fn password_update_verdict(status: Option<i64>) -> Verdict {
    if status == Some(SUCCESS_CODE) {
        Verdict::Clear
    } else {
        Verdict::Keep
    }
}

/// The verdict on the body `body` received from `url`.
pub open spec fn verdict_on(url: Seq<char>, body: Seq<char>) -> Verdict {
    if is_password_update(url) {
        password_update_verdict(json_integer_member(body, status_member()))
    } else {
        Verdict::Extract
    }
}

/// The contents of the key-value store.
pub type Store = Map<Seq<char>, Seq<char>>;

/// The store after the hook has run on `body` from `url`, where `extracted` is
/// the credential that the token parser finds in that body, if it finds one.
pub open spec fn hook_effect(
    url: Seq<char>,
    body: Seq<char>,
    extracted: Option<Seq<char>>,
    store: Store,
) -> Store {
    match verdict_on(url, body) {
        Verdict::Clear => store.remove(credential_key()),
        Verdict::Extract => match extracted {
            Some(token) => store.insert(credential_key(), token),
            None => store,
        },
        Verdict::Keep => store,
    }
}

/// The verdict on a password-update answer, given what its status member reads.
pub fn after_password_update(status: Option<i64>) -> (verdict: Verdict)
    ensures
        verdict == password_update_verdict(status),
{
    match status {
        Some(code) => if code == SUCCESS_CODE {
            Verdict::Clear
        } else {
            Verdict::Keep
        },
        None => Verdict::Keep,
    }
}

/// The verdict on a response body, read in full, that came from `url`.
pub fn token_lifecycle_hook(url: &str, body: &str) -> (verdict: Verdict)
    ensures
        verdict == verdict_on(url@, body@),
{
    if contains(url, PASSWORD_UPDATE_MARKER) {
        after_password_update(read_integer_member(body, STATUS_MEMBER))
    } else {
        Verdict::Extract
    }
}

/// A password-update answer that reports success deletes the credential and
/// writes none, whatever the body would yield as a credential.
pub proof fn lemma_password_update_clears(
    url: Seq<char>,
    body: Seq<char>,
    extracted: Option<Seq<char>>,
    store: Store,
)
    requires
        is_password_update(url),
        json_integer_member(body, status_member()) == Some(SUCCESS_CODE),
    ensures
        verdict_on(url, body) == Verdict::Clear,
        hook_effect(url, body, extracted, store) == store.remove(credential_key()),
        !hook_effect(url, body, extracted, store).contains_key(credential_key()),
{
}

/// A response from any other URL stores the credential found in its body,
/// whatever was stored before, and changes nothing else in the store.
pub proof fn lemma_other_url_stores(
    url: Seq<char>,
    body: Seq<char>,
    token: Seq<char>,
    store: Store,
)
    requires
        !is_password_update(url),
    ensures
        verdict_on(url, body) == Verdict::Extract,
        hook_effect(url, body, Some(token), store) == store.insert(credential_key(), token),
        hook_effect(url, body, Some(token), store)[credential_key()] == token,
        forall|key: Seq<char>|
            key != credential_key() ==> (hook_effect(url, body, Some(token), store).contains_key(key)
                <==> store.contains_key(key)),
        forall|key: Seq<char>|
            key != credential_key() && store.contains_key(key) ==> hook_effect(
                url,
                body,
                Some(token),
                store,
            )[key] == store[key],
{
}

/// The hook is idempotent: run twice on the same URL and body, it leaves the
/// store as one run leaves it.
pub proof fn lemma_hook_idempotent(
    url: Seq<char>,
    body: Seq<char>,
    extracted: Option<Seq<char>>,
    store: Store,
)
    ensures
        hook_effect(url, body, extracted, hook_effect(url, body, extracted, store)) == hook_effect(
            url,
            body,
            extracted,
            store,
        ),
{
    let once = hook_effect(url, body, extracted, store);
    let twice = hook_effect(url, body, extracted, once);
    assert(twice =~= once);
}

} // verus!
