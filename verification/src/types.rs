//! Request and response types of the API, and the envelope decoding rule.

use vstd::prelude::*;

use crate::errors::AuthError;
use crate::json::{
    field_entries, json_bool_value, json_get, json_null_value, json_object_entries,
    json_object_from_pairs, json_string_array, json_string_value, parse_json, parsed_json,
    value_as_str, value_field, value_is_null,
};

verus! {

/// What decoding an envelope body into an [`ApiResponse`] yields: the
/// entries of the result and error objects, with a transmitted null standing
/// for the empty object; nothing when the body is not a JSON object carrying
/// both fields in a decodable shape.
pub open spec fn api_envelope_of(body: Seq<char>) -> Option<
    (Seq<(String, serde_json::Value)>, Seq<(String, serde_json::Value)>),
> {
    match parsed_json(body) {
        None => None,
        Some(v) => match (value_field(v, "result"@), value_field(v, "error"@)) {
            (Some(rv), Some(ev)) => match (field_entries(rv), field_entries(ev)) {
                (Some(res), Some(errs)) => Some((res, errs)),
                _ => None,
            },
            _ => None,
        },
    }
}

/// What decoding an envelope body into a [`GenericApiResponse`] yields: the
/// raw result and error values; nothing when the body is not a JSON object
/// carrying both fields.
pub open spec fn generic_envelope_of(body: Seq<char>) -> Option<
    (serde_json::Value, serde_json::Value),
> {
    match parsed_json(body) {
        None => None,
        Some(v) => match (value_field(v, "result"@), value_field(v, "error"@)) {
            (Some(rv), Some(ev)) => Some((rv, ev)),
            _ => None,
        },
    }
}

/// A decoded response envelope whose result and error are both objects.
///
/// The remote service sends both fields in every response and sets the
/// irrelevant one to null; decoding turns such a null into the empty object.
#[derive(Debug)]
pub struct ApiResponse {
    /// Entries of the envelope's result object.
    pub result: Vec<(String, serde_json::Value)>,
    /// Entries of the envelope's error object; empty on success.
    pub error: Vec<(String, serde_json::Value)>,
}

impl ApiResponse {
    /// Decodes an envelope body, substituting the empty object for a
    /// transmitted null in either field.
    pub fn from_json(body: &str) -> (r: Result<ApiResponse, AuthError>)
        ensures
            (match api_envelope_of(body@) {
                Some(p) => r matches Ok(resp) && resp.result@ == p.0 && resp.error@ == p.1,
                None => r matches Err(e) && e is TransportError,
            }),
    {
        match parse_json(body) {
            None => Err(
                AuthError::TransportError("response body is not valid JSON".to_owned()),
            ),
            Some(v) => {
                let rf = json_get(&v, "result");
                let ef = json_get(&v, "error");
                match (rf, ef) {
                    (Some(rv), Some(ev)) => {
                        let result = match decode_field(rv) {
                            Ok(x) => x,
                            Err(e) => { return Err(e); },
                        };
                        let error = match decode_field(ev) {
                            Ok(x) => x,
                            Err(e) => { return Err(e); },
                        };
                        Ok(ApiResponse { result, error })
                    },
                    _ => Err(
                        AuthError::TransportError(
                            "envelope lacks a result or error field".to_owned(),
                        ),
                    ),
                }
            },
        }
    }

    /// Whether the envelope's error field is empty, which is how the remote
    /// service signals that the call logically succeeded.
    pub fn error_is_empty(&self) -> (r: bool)
        ensures
            r == (self.error@.len() == 0),
    {
        self.error.len() == 0
    }
}

/// Decodes one envelope field: null stands for the empty object, an object
/// stands for its entries, any other shape is a malformed envelope.
fn decode_field(v: serde_json::Value) -> (r: Result<
    Vec<(String, serde_json::Value)>,
    AuthError,
>)
    ensures
        (match field_entries(v) {
            Some(es) => r matches Ok(out) && out@ == es,
            None => r matches Err(e) && e is TransportError,
        }),
{
    if v.is_null() {
        Ok(Vec::new())
    } else {
        match json_object_entries(&v) {
            Some(es) => Ok(es),
            None => Err(
                AuthError::TransportError(
                    "envelope field is neither null nor an object".to_owned(),
                ),
            ),
        }
    }
}

/// A decoded response envelope whose result and error shapes are
/// unconstrained JSON; used for endpoints whose result is not always an
/// object.
#[derive(Debug)]
pub struct GenericApiResponse {
    /// The envelope's raw result value.
    pub result: serde_json::Value,
    /// The envelope's raw error value; null on success.
    pub error: serde_json::Value,
}

impl GenericApiResponse {
    /// Decodes an envelope body, keeping both fields as raw JSON values.
    pub fn from_json(body: &str) -> (r: Result<GenericApiResponse, AuthError>)
        ensures
            (match generic_envelope_of(body@) {
                Some(p) => r matches Ok(resp) && resp.result == p.0 && resp.error == p.1,
                None => r matches Err(e) && e is TransportError,
            }),
    {
        match parse_json(body) {
            None => Err(
                AuthError::TransportError("response body is not valid JSON".to_owned()),
            ),
            Some(v) => {
                let rf = json_get(&v, "result");
                let ef = json_get(&v, "error");
                match (rf, ef) {
                    (Some(rv), Some(ev)) => Ok(GenericApiResponse { result: rv, error: ev }),
                    _ => Err(
                        AuthError::TransportError(
                            "envelope lacks a result or error field".to_owned(),
                        ),
                    ),
                }
            },
        }
    }
}

/// The profile fields of an account, as the `getUser` endpoint reports them.
#[derive(Debug)]
pub struct UserInfo {
    /// The account's opaque identifier.
    pub _id: String,
    /// The account's email address.
    pub email: String,
    /// The linked social-login identifier, if any.
    pub fb_id: String,
    /// The account holder's full name.
    pub fullname: String,
    /// URL of the account's avatar image.
    pub avatar: String,
    /// Whether the account is anonymous.
    pub anonymous: String,
    /// The recorded consent choices, keyed by consent kind.
    pub gdpr_consent: Vec<(String, serde_json::Value)>,
    /// The account's taste profile tag.
    pub taste: String,
    /// The account's language tag.
    pub lang: String,
    /// When the account was registered.
    pub date_registered: String,
    /// When the account was last modified.
    pub last_modified: String,
    /// The account's addon catalog descriptor.
    pub stremio_addons: String,
    /// When the account's premium tier expires.
    pub premium_expire: String,
}

/// The payload of the `login` endpoint: the credentials, and the current
/// authentication token when one is already held.
#[derive(Debug)]
pub struct LoginCredential {
    /// The account's email address.
    pub email: String,
    /// The account's password.
    pub password: String,
    /// The authentication token already held, if any.
    pub auth_key: Option<String>,
}

impl LoginCredential {
    /// Bundles the credentials into a login payload.
    pub fn new(email: String, password: String, auth_key: Option<String>) -> (c: LoginCredential)
        ensures
            c.email@ == email@,
            c.password@ == password@,
            (match auth_key {
                Some(k) => c.auth_key matches Some(ck) && ck@ == k@,
                None => c.auth_key is None,
            }),
    {
        LoginCredential { email, password, auth_key }
    }

    /// The payload as the JSON object the endpoint expects: exactly the
    /// fields `email`, `password` and `authKey`, with `authKey` null when no
    /// token is held.
    pub fn to_json_value(&self) -> (v: serde_json::Value)
        ensures
            (value_field(v, "email"@) matches Some(e) && value_as_str(e) == Some(self.email@)),
            (value_field(v, "password"@) matches Some(p) && value_as_str(p) == Some(
                self.password@,
            )),
            (value_field(v, "authKey"@) matches Some(a) && (match self.auth_key {
                Some(k) => value_as_str(a) == Some(k@),
                None => value_is_null(a),
            })),
            forall|k: Seq<char>|
                k != "email"@ && k != "password"@ && k != "authKey"@ ==> value_field(v, k) is None,
    {
        proof {
            reveal_strlit("email");
            reveal_strlit("password");
            reveal_strlit("authKey");
            assert("email"@.len() == 5);
            assert("password"@.len() == 8);
            assert("authKey"@.len() == 7);
            assert("email"@ != "password"@);
            assert("email"@ != "authKey"@);
            assert("password"@ != "authKey"@);
        }
        let mut pairs: Vec<(String, serde_json::Value)> = Vec::new();
        pairs.push(("email".to_owned(), json_string_value(self.email.clone())));
        pairs.push(("password".to_owned(), json_string_value(self.password.clone())));
        let token = match &self.auth_key {
            Some(k) => json_string_value(k.clone()),
            None => json_null_value(),
        };
        pairs.push(("authKey".to_owned(), token));
        let ghost gp = pairs@;
        let v = json_object_from_pairs(pairs);
        proof {
            assert(value_field(v, gp[0].0@) == Some(gp[0].1));
            assert(value_field(v, gp[1].0@) == Some(gp[1].1));
            assert(value_field(v, gp[2].0@) == Some(gp[2].1));
        }
        v
    }
}

/// The payload every authenticated endpoint shares: the session's
/// authentication token.
#[derive(Debug)]
pub struct UserAuth {
    /// The session's authentication token.
    pub auth_key: String,
}

impl UserAuth {
    /// Wraps an authentication token into a payload.
    pub fn new(auth_key: String) -> (u: UserAuth)
        ensures
            u.auth_key@ == auth_key@,
    {
        UserAuth { auth_key }
    }

    /// The payload as the JSON object the endpoints expect: exactly the
    /// field `authKey`.
    pub fn to_json_value(&self) -> (v: serde_json::Value)
        ensures
            (value_field(v, "authKey"@) matches Some(a) && value_as_str(a) == Some(
                self.auth_key@,
            )),
            forall|k: Seq<char>| k != "authKey"@ ==> value_field(v, k) is None,
    {
        let mut pairs: Vec<(String, serde_json::Value)> = Vec::new();
        pairs.push(("authKey".to_owned(), json_string_value(self.auth_key.clone())));
        let ghost gp = pairs@;
        let v = json_object_from_pairs(pairs);
        proof {
            assert(value_field(v, gp[0].0@) == Some(gp[0].1));
        }
        v
    }
}

/// The payload of the `addonCollectionGet` endpoint: the authentication
/// token plus the endpoint's two fixed protocol parameters.
#[derive(Debug)]
pub struct GetAddonCollection {
    /// External addon URLs to merge into the collection.
    pub add_from_url: Vec<String>,
    /// The session's authentication token.
    pub auth_key: String,
    /// Whether the remote collection should be refreshed before it is
    /// returned.
    pub update: bool,
}

impl GetAddonCollection {
    /// Builds the payload for an authentication token, with the protocol
    /// parameters at their defaults: no external URLs, no refresh.
    pub fn new(auth_key: String) -> (g: GetAddonCollection)
        ensures
            g.auth_key@ == auth_key@,
            g.add_from_url@.len() == 0,
            !g.update,
    {
        GetAddonCollection { add_from_url: Vec::new(), auth_key, update: false }
    }

    /// The payload as the JSON object the endpoint expects: exactly the
    /// fields `addFromURL`, `authKey` and `update`.
    pub fn to_json_value(&self) -> (v: serde_json::Value)
        ensures
            (value_field(v, "authKey"@) matches Some(a) && value_as_str(a) == Some(
                self.auth_key@,
            )),
            (value_field(v, "addFromURL"@) matches Some(u) && !value_is_null(u)),
            (value_field(v, "update"@) matches Some(b) && !value_is_null(b)),
            forall|k: Seq<char>|
                k != "addFromURL"@ && k != "authKey"@ && k != "update"@ ==> value_field(
                    v,
                    k,
                ) is None,
    {
        proof {
            reveal_strlit("addFromURL");
            reveal_strlit("authKey");
            reveal_strlit("update");
            assert("addFromURL"@.len() == 10);
            assert("authKey"@.len() == 7);
            assert("update"@.len() == 6);
            assert("addFromURL"@ != "authKey"@);
            assert("addFromURL"@ != "update"@);
            assert("authKey"@ != "update"@);
        }
        let mut pairs: Vec<(String, serde_json::Value)> = Vec::new();
        pairs.push(("addFromURL".to_owned(), json_string_array(&self.add_from_url)));
        pairs.push(("authKey".to_owned(), json_string_value(self.auth_key.clone())));
        pairs.push(("update".to_owned(), json_bool_value(self.update)));
        let ghost gp = pairs@;
        let v = json_object_from_pairs(pairs);
        proof {
            assert(value_field(v, gp[0].0@) == Some(gp[0].1));
            assert(value_field(v, gp[1].0@) == Some(gp[1].1));
            assert(value_field(v, gp[2].0@) == Some(gp[2].1));
        }
        v
    }
}

impl Default for GetAddonCollection {
    /// The payload with an empty token and the protocol parameters at their
    /// defaults.
    fn default() -> (g: GetAddonCollection)
        ensures
            g.auth_key@.len() == 0,
            g.add_from_url@.len() == 0,
            !g.update,
    {
        GetAddonCollection { add_from_url: Vec::new(), auth_key: String::new(), update: false }
    }
}

/// The payload of the `datastoreMeta` endpoint: the authentication token
/// plus the fixed collection name and sync-origin tag of the datastore call.
#[derive(Debug)]
pub struct DatastoreMeta {
    /// The session's authentication token.
    pub auth_key: String,
    /// The datastore collection the call is about.
    pub collection: String,
    /// The sync-origin tag of the call.
    pub from: String,
}

impl DatastoreMeta {
    /// Builds the payload for an authentication token, with the collection
    /// name and sync-origin tag at their fixed protocol values.
    pub fn new_with_auth_key(auth_key: String) -> (d: DatastoreMeta)
        ensures
            d.auth_key@ == auth_key@,
            d.collection@ == "libraryItem"@,
            d.from@ == "linvo-p2p-sync"@,
    {
        DatastoreMeta {
            auth_key,
            collection: "libraryItem".to_owned(),
            from: "linvo-p2p-sync".to_owned(),
        }
    }

    /// The payload as the JSON object the endpoint expects: exactly the
    /// fields `authKey`, `collection` and `from`.
    pub fn to_json_value(&self) -> (v: serde_json::Value)
        ensures
            (value_field(v, "authKey"@) matches Some(a) && value_as_str(a) == Some(
                self.auth_key@,
            )),
            (value_field(v, "collection"@) matches Some(c) && value_as_str(c) == Some(
                self.collection@,
            )),
            (value_field(v, "from"@) matches Some(f) && value_as_str(f) == Some(self.from@)),
            forall|k: Seq<char>|
                k != "authKey"@ && k != "collection"@ && k != "from"@ ==> value_field(
                    v,
                    k,
                ) is None,
    {
        proof {
            reveal_strlit("authKey");
            reveal_strlit("collection");
            reveal_strlit("from");
            assert("authKey"@.len() == 7);
            assert("collection"@.len() == 10);
            assert("from"@.len() == 4);
            assert("authKey"@ != "collection"@);
            assert("authKey"@ != "from"@);
            assert("collection"@ != "from"@);
        }
        let mut pairs: Vec<(String, serde_json::Value)> = Vec::new();
        pairs.push(("authKey".to_owned(), json_string_value(self.auth_key.clone())));
        pairs.push(("collection".to_owned(), json_string_value(self.collection.clone())));
        pairs.push(("from".to_owned(), json_string_value(self.from.clone())));
        let ghost gp = pairs@;
        let v = json_object_from_pairs(pairs);
        proof {
            assert(value_field(v, gp[0].0@) == Some(gp[0].1));
            assert(value_field(v, gp[1].0@) == Some(gp[1].1));
            assert(value_field(v, gp[2].0@) == Some(gp[2].1));
        }
        v
    }
}

impl Default for DatastoreMeta {
    /// The payload with an empty token and the collection name and
    /// sync-origin tag at their fixed protocol values.
    fn default() -> (d: DatastoreMeta)
        ensures
            d.auth_key@.len() == 0,
            d.collection@ == "libraryItem"@,
            d.from@ == "linvo-p2p-sync"@,
    {
        DatastoreMeta {
            auth_key: String::new(),
            collection: "libraryItem".to_owned(),
            from: "linvo-p2p-sync".to_owned(),
        }
    }
}

} // verus!
