//! The session client: credentials, session state, and the decision half of
//! every operation.
//!
//! Each remote operation is split into a request builder, which enforces the
//! session-state gate and yields the payload to send, and an interpreter,
//! which takes the decoded response envelope and yields the operation's
//! outcome.  The transport between the two — one HTTPS POST per operation —
//! is the caller's to run.

use vstd::prelude::*;

use crate::errors::AuthError;
use crate::json::{find_key, lookup_key, value_as_str, value_is_null};
use crate::types::{
    ApiResponse, DatastoreMeta, GenericApiResponse, GetAddonCollection, LoginCredential, UserAuth,
};

verus! {

/// The authentication token carried in a login result: the text of the value
/// stored under `authKey`, if the result stores a string there.
pub open spec fn login_auth_key(result: Seq<(String, serde_json::Value)>) -> Option<Seq<char>> {
    match lookup_key(result, "authKey"@) {
        None => None,
        Some(v) => value_as_str(v),
    }
}

/// Whether a login result signals success: it stores a non-empty string
/// under `authKey`.  The presence of that field is the sole success marker
/// the remote service defines.
pub open spec fn login_accepted(result: Seq<(String, serde_json::Value)>) -> bool {
    match login_auth_key(result) {
        Some(s) => s.len() > 0,
        None => false,
    }
}

/// Entrypoint for interacting with the API: owns the credentials and the
/// current session state.
#[derive(Debug)]
pub struct Client {
    /// The account's email address.
    pub email: String,
    /// The account's password.
    pub password: String,
    /// The authentication token; empty while logged out.
    pub auth_key: String,
    /// Whether the client is logged in.
    pub is_logged_in: bool,
    /// The result object of the successful login, kept as a cache.
    pub user_info: Vec<(String, serde_json::Value)>,
}

impl Client {
    /// The session-state invariant: the client is logged in exactly when it
    /// holds a non-empty authentication token.
    pub open spec fn wf(self) -> bool {
        self.is_logged_in <==> self.auth_key@.len() > 0
    }

    /// Creates a logged-out client with the given email and password.
    pub fn new(email: String, password: String) -> (c: Client)
        ensures
            c.email@ == email@,
            c.password@ == password@,
            c.auth_key@.len() == 0,
            !c.is_logged_in,
            c.user_info@.len() == 0,
            c.wf(),
    {
        Client {
            email,
            password,
            auth_key: String::new(),
            is_logged_in: false,
            user_info: Vec::new(),
        }
    }

    /// Creates a client that already holds an authentication token obtained
    /// elsewhere; it is logged in exactly when the token is non-empty, and
    /// `login` should not be called on it in that case.
    pub fn new_with_auth_key(email: String, password: String, auth_key: String) -> (c: Client)
        ensures
            c.email@ == email@,
            c.password@ == password@,
            c.auth_key@ == auth_key@,
            c.is_logged_in == (auth_key@.len() > 0),
            c.user_info@.len() == 0,
            c.wf(),
    {
        let is_logged_in = !auth_key.as_str().is_empty();
        Client { email, password, auth_key, is_logged_in, user_info: Vec::new() }
    }

    /// Builds the payload of the `login` call: the credentials, with the
    /// current token when one is held and null otherwise.  Fails before
    /// anything is sent when the client is already logged in.
    pub fn login_request(&self) -> (r: Result<LoginCredential, AuthError>)
        ensures
            self.is_logged_in ==> (r matches Err(e) && e is AlreadyLoggedIn),
            !self.is_logged_in ==> (r matches Ok(c) && {
                &&& c.email@ == self.email@
                &&& c.password@ == self.password@
                &&& (if self.auth_key@.len() == 0 {
                    c.auth_key is None
                } else {
                    c.auth_key matches Some(k) && k@ == self.auth_key@
                })
            }),
    {
        if self.is_logged_in {
            return Err(AuthError::AlreadyLoggedIn);
        }
        if self.auth_key.as_str().is_empty() {
            Ok(LoginCredential::new(self.email.clone(), self.password.clone(), None))
        } else {
            Ok(
                LoginCredential::new(
                    self.email.clone(),
                    self.password.clone(),
                    Some(self.auth_key.clone()),
                ),
            )
        }
    }

    /// Interprets the `login` response: on the success marker — a non-empty
    /// `authKey` string in the result — the client becomes logged in with
    /// that token and caches the result object; otherwise the envelope comes
    /// back inside `LoginRejected`.  A client that is already logged in is
    /// refused.
    pub fn login(self, response: ApiResponse) -> (r: Result<Client, AuthError>)
        ensures
            self.is_logged_in ==> (r matches Err(e) && e is AlreadyLoggedIn),
            !self.is_logged_in && login_accepted(response.result@) ==> (r matches Ok(c) && {
                &&& c.email@ == self.email@
                &&& c.password@ == self.password@
                &&& Some(c.auth_key@) == login_auth_key(response.result@)
                &&& c.is_logged_in
                &&& c.user_info@ == response.result@
                &&& c.wf()
            }),
            !self.is_logged_in && !login_accepted(response.result@) ==> (r matches Err(e)
                && e matches AuthError::LoginRejected(resp) && resp.result@ == response.result@
                && resp.error@ == response.error@),
    {
        if self.is_logged_in {
            return Err(AuthError::AlreadyLoggedIn);
        }
        let key_name: String = "authKey".to_owned();
        match find_key(&response.result, &key_name) {
            None => Err(AuthError::LoginRejected(response)),
            Some(i) => {
                let token: Option<String> = match response.result[i].1.as_str() {
                    Some(s) => if s.is_empty() {
                        None
                    } else {
                        Some(s.to_owned())
                    },
                    None => None,
                };
                match token {
                    None => Err(AuthError::LoginRejected(response)),
                    Some(t) => {
                        let ApiResponse { result, error: _ } = response;
                        Ok(
                            Client {
                                email: self.email,
                                password: self.password,
                                auth_key: t,
                                is_logged_in: true,
                                user_info: result,
                            },
                        )
                    },
                }
            },
        }
    }

    /// Builds the token payload that `logout`, `getUser` and
    /// `getUserSessions` send.  Fails before anything is sent when the
    /// client is not logged in.
    pub fn auth_request(&self) -> (r: Result<UserAuth, AuthError>)
        ensures
            !self.is_logged_in ==> (r matches Err(e) && e is NotLoggedIn),
            self.is_logged_in ==> (r matches Ok(u) && u.auth_key@ == self.auth_key@),
    {
        if !self.is_logged_in {
            return Err(AuthError::NotLoggedIn);
        }
        Ok(UserAuth::new(self.auth_key.clone()))
    }

    /// Interprets the `logout` response: a non-empty error field means the
    /// remote call failed and comes back as `RemoteError`; an empty one is
    /// success and the envelope is returned.  The client value is consumed
    /// either way: a logged-out session is not reused.
    pub fn logout(self, response: ApiResponse) -> (r: Result<ApiResponse, AuthError>)
        ensures
            !self.is_logged_in ==> (r matches Err(e) && e is NotLoggedIn),
            self.is_logged_in && response.error@.len() == 0 ==> (r matches Ok(resp)
                && resp.result@ == response.result@ && resp.error@ == response.error@),
            self.is_logged_in && response.error@.len() > 0 ==> (r matches Err(e)
                && e matches AuthError::RemoteError(p) && p@ == response.error@),
    {
        if !self.is_logged_in {
            return Err(AuthError::NotLoggedIn);
        }
        if response.error.len() > 0 {
            let ApiResponse { result: _, error } = response;
            return Err(AuthError::RemoteError(error));
        }
        Ok(response)
    }

    /// Interprets the `getUser` response: a non-empty error field is fatal
    /// for this operation and comes back as `RemoteError`; otherwise the
    /// envelope is returned.
    pub fn get_user(&self, response: ApiResponse) -> (r: Result<ApiResponse, AuthError>)
        ensures
            !self.is_logged_in ==> (r matches Err(e) && e is NotLoggedIn),
            self.is_logged_in && response.error@.len() == 0 ==> (r matches Ok(resp)
                && resp.result@ == response.result@ && resp.error@ == response.error@),
            self.is_logged_in && response.error@.len() > 0 ==> (r matches Err(e)
                && e matches AuthError::RemoteError(p) && p@ == response.error@),
    {
        if !self.is_logged_in {
            return Err(AuthError::NotLoggedIn);
        }
        if response.error.len() > 0 {
            let ApiResponse { result: _, error } = response;
            return Err(AuthError::RemoteError(error));
        }
        Ok(response)
    }

    /// Interprets the `getUserSessions` response: the operation is
    /// informational, so the envelope comes back whole even when its error
    /// field is non-empty — inspecting it is the caller's business.
    pub fn get_user_sessions(&self, response: ApiResponse) -> (r: Result<ApiResponse, AuthError>)
        ensures
            !self.is_logged_in ==> (r matches Err(e) && e is NotLoggedIn),
            self.is_logged_in ==> (r matches Ok(resp) && resp.result@ == response.result@
                && resp.error@ == response.error@),
    {
        if !self.is_logged_in {
            return Err(AuthError::NotLoggedIn);
        }
        Ok(response)
    }

    /// Builds the payload of the `addonCollectionGet` call.  Fails before
    /// anything is sent when the client is not logged in.
    pub fn addon_collection_request(&self) -> (r: Result<GetAddonCollection, AuthError>)
        ensures
            !self.is_logged_in ==> (r matches Err(e) && e is NotLoggedIn),
            self.is_logged_in ==> (r matches Ok(g) && g.auth_key@ == self.auth_key@
                && g.add_from_url@.len() == 0 && !g.update),
    {
        if !self.is_logged_in {
            return Err(AuthError::NotLoggedIn);
        }
        Ok(GetAddonCollection::new(self.auth_key.clone()))
    }

    /// Interprets the `addonCollectionGet` response: a non-empty error field
    /// is fatal and comes back as `RemoteError`; otherwise the envelope is
    /// returned.
    pub fn get_addon_collection(&self, response: ApiResponse) -> (r: Result<
        ApiResponse,
        AuthError,
    >)
        ensures
            !self.is_logged_in ==> (r matches Err(e) && e is NotLoggedIn),
            self.is_logged_in && response.error@.len() == 0 ==> (r matches Ok(resp)
                && resp.result@ == response.result@ && resp.error@ == response.error@),
            self.is_logged_in && response.error@.len() > 0 ==> (r matches Err(e)
                && e matches AuthError::RemoteError(p) && p@ == response.error@),
    {
        if !self.is_logged_in {
            return Err(AuthError::NotLoggedIn);
        }
        if response.error.len() > 0 {
            let ApiResponse { result: _, error } = response;
            return Err(AuthError::RemoteError(error));
        }
        Ok(response)
    }

    /// Builds the payload of the `datastoreMeta` call.  Fails before
    /// anything is sent when the client is not logged in.
    pub fn datastore_meta_request(&self) -> (r: Result<DatastoreMeta, AuthError>)
        ensures
            !self.is_logged_in ==> (r matches Err(e) && e is NotLoggedIn),
            self.is_logged_in ==> (r matches Ok(d) && d.auth_key@ == self.auth_key@
                && d.collection@ == "libraryItem"@ && d.from@ == "linvo-p2p-sync"@),
    {
        if !self.is_logged_in {
            return Err(AuthError::NotLoggedIn);
        }
        Ok(DatastoreMeta::new_with_auth_key(self.auth_key.clone()))
    }

    /// Interprets the `datastoreMeta` response: the error field of this
    /// envelope is unconstrained JSON, and anything but null there is fatal
    /// and comes back as `RemoteErrorValue`; otherwise the envelope is
    /// returned.
    pub fn get_datastore_meta(&self, response: GenericApiResponse) -> (r: Result<
        GenericApiResponse,
        AuthError,
    >)
        ensures
            !self.is_logged_in ==> (r matches Err(e) && e is NotLoggedIn),
            self.is_logged_in && value_is_null(response.error) ==> (r matches Ok(resp)
                && resp.result == response.result && resp.error == response.error),
            self.is_logged_in && !value_is_null(response.error) ==> (r matches Err(e)
                && e matches AuthError::RemoteErrorValue(p) && p == response.error),
    {
        if !self.is_logged_in {
            return Err(AuthError::NotLoggedIn);
        }
        if response.error.is_null() {
            Ok(response)
        } else {
            let GenericApiResponse { result: _, error } = response;
            Err(AuthError::RemoteErrorValue(error))
        }
    }
}

} // verus!
