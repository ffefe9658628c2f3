//! The credential holder: an opaque API token, immutable after construction.

use vstd::prelude::*;

verus! {

/// Holds the API token used by an external transport to authenticate
/// requests. The token is treated as a secret: it is stored opaquely,
/// carries no debug representation, and is reachable only through
/// [`TodoistUser::api_token`].
pub struct TodoistUser {
    token: String,
}

impl View for TodoistUser {
    type V = Seq<char>;

    closed spec fn view(&self) -> Seq<char> {
        self.token@
    }
}

impl TodoistUser {
    /// Stores the given token unchanged. No validation is performed on its
    /// contents or format, and construction cannot fail.
    pub fn new(api_token: String) -> (user: TodoistUser)
        ensures
            user@ == api_token@,
    {
        TodoistUser { token: api_token }
    }

    /// Hands the raw token back, for inclusion in an authorization-style
    /// header by the external transport layer.
    pub fn api_token(&self) -> (token: &str)
        ensures
            token@ == self@,
    {
        self.token.as_str()
    }
}

} // verus!
