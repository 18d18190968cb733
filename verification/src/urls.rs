//! Endpoint URLs of the remote service's API.

use vstd::prelude::*;

verus! {

/// URL of the `login` endpoint.
pub fn login_api_url() -> (r: &'static str)
    ensures
        r@ == "https://api.strem.io/api/login"@,
{
    "https://api.strem.io/api/login"
}

/// URL of the `getUser` endpoint.
pub fn get_user_api_url() -> (r: &'static str)
    ensures
        r@ == "https://api.strem.io/api/getUser"@,
{
    "https://api.strem.io/api/getUser"
}

/// URL of the `getUserSessions` endpoint.
pub fn get_user_sessions_api_url() -> (r: &'static str)
    ensures
        r@ == "https://api.strem.io/api/getUserSessions"@,
{
    "https://api.strem.io/api/getUserSessions"
}

/// URL of the `logout` endpoint.
pub fn logout_api_url() -> (r: &'static str)
    ensures
        r@ == "https://api.strem.io/api/logout"@,
{
    "https://api.strem.io/api/logout"
}

/// URL of the `addonCollectionGet` endpoint.
pub fn get_addon_collection_api_url() -> (r: &'static str)
    ensures
        r@ == "https://api.strem.io/api/addonCollectionGet"@,
{
    "https://api.strem.io/api/addonCollectionGet"
}

/// URL of the `datastoreMeta` endpoint.
pub fn datastore_meta_api_url() -> (r: &'static str)
    ensures
        r@ == "https://api.strem.io/api/datastoreMeta"@,
{
    "https://api.strem.io/api/datastoreMeta"
}

} // verus!
