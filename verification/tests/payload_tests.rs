use stremio::types::{DatastoreMeta, GetAddonCollection, LoginCredential, UserAuth};
use stremio::Client;

#[test]
fn login_payload_round_trips_with_exactly_three_fields() {
    let cred = LoginCredential::new("a@b.com".to_string(), "pw".to_string(), None);
    let v = cred.to_json_value();
    let text = serde_json::to_string(&v).unwrap();
    let back: serde_json::Value = serde_json::from_str(&text).unwrap();
    let obj = back.as_object().unwrap();
    assert_eq!(obj.len(), 3);
    assert_eq!(
        back.get("email"),
        Some(&serde_json::Value::String("a@b.com".to_string()))
    );
    assert_eq!(
        back.get("password"),
        Some(&serde_json::Value::String("pw".to_string()))
    );
    assert_eq!(back.get("authKey"), Some(&serde_json::Value::Null));
}

#[test]
fn login_payload_carries_a_held_token() {
    let cred = LoginCredential::new(
        "a@b.com".to_string(),
        "pw".to_string(),
        Some("tok".to_string()),
    );
    let v = cred.to_json_value();
    assert_eq!(
        v.get("authKey"),
        Some(&serde_json::Value::String("tok".to_string()))
    );
}

#[test]
fn login_request_of_a_fresh_client_has_no_token() {
    let c = Client::new("a@b.com".to_string(), "pw".to_string());
    let cred = c.login_request().unwrap();
    assert_eq!(cred.email, "a@b.com");
    assert_eq!(cred.password, "pw");
    assert!(cred.auth_key.is_none());
}

#[test]
fn user_auth_payload_has_exactly_the_auth_key_field() {
    let u = UserAuth::new("token-2".to_string());
    let v = u.to_json_value();
    let obj = v.as_object().unwrap();
    assert_eq!(obj.len(), 1);
    assert_eq!(
        v.get("authKey"),
        Some(&serde_json::Value::String("token-2".to_string()))
    );
}

#[test]
fn addon_collection_payload_has_the_fixed_protocol_fields() {
    let g = GetAddonCollection::new("token-3".to_string());
    let v = g.to_json_value();
    let obj = v.as_object().unwrap();
    assert_eq!(obj.len(), 3);
    assert_eq!(
        v.get("authKey"),
        Some(&serde_json::Value::String("token-3".to_string()))
    );
    assert_eq!(v.get("addFromURL"), Some(&serde_json::Value::Array(Vec::new())));
    assert_eq!(v.get("update"), Some(&serde_json::Value::Bool(false)));
}

#[test]
fn datastore_meta_payload_has_the_fixed_protocol_fields() {
    let d = DatastoreMeta::new_with_auth_key("token-4".to_string());
    let v = d.to_json_value();
    let obj = v.as_object().unwrap();
    assert_eq!(obj.len(), 3);
    assert_eq!(
        v.get("authKey"),
        Some(&serde_json::Value::String("token-4".to_string()))
    );
    assert_eq!(
        v.get("collection"),
        Some(&serde_json::Value::String("libraryItem".to_string()))
    );
    assert_eq!(
        v.get("from"),
        Some(&serde_json::Value::String("linvo-p2p-sync".to_string()))
    );
}

#[test]
fn datastore_meta_default_uses_the_protocol_constants() {
    let d = DatastoreMeta::default();
    assert_eq!(d.auth_key, "");
    assert_eq!(d.collection, "libraryItem");
    assert_eq!(d.from, "linvo-p2p-sync");
}

#[test]
fn addon_collection_default_is_empty() {
    let g = GetAddonCollection::default();
    assert_eq!(g.auth_key, "");
    assert_eq!(g.add_from_url.len(), 0);
    assert!(!g.update);
}
