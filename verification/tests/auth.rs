use std::borrow::Cow;

use postman::json::JsonValue;
use postman::model::{ApiKey, ApiKeyLocation, AuthAttribute, AuthAttributeUnion, Oauth2, Oauth2GrantType};

fn text_attr(key: &'static str, value: &str) -> AuthAttribute<'static> {
    AuthAttribute {
        key: Cow::Borrowed(key),
        auth_type: Some(Cow::Borrowed("string")),
        value: Some(JsonValue::String(value.to_string())),
    }
}

fn attr(key: &'static str, value: Option<JsonValue>) -> AuthAttribute<'static> {
    AuthAttribute { key: Cow::Borrowed(key), auth_type: None, value }
}

/// The library's JSON value for a `serde_json` value.
fn json(v: &serde_json::Value) -> JsonValue {
    match v {
        serde_json::Value::Null => JsonValue::Null,
        serde_json::Value::Bool(b) => JsonValue::Bool(*b),
        serde_json::Value::Number(n) => JsonValue::Number(n.to_string()),
        serde_json::Value::String(s) => JsonValue::String(s.clone()),
        serde_json::Value::Array(items) => JsonValue::Array(items.iter().map(json).collect()),
        serde_json::Value::Object(members) => {
            JsonValue::Object(members.iter().map(|(k, v)| (k.clone(), json(v))).collect())
        }
    }
}

/// The attributes of an authentication method as a collection stores them:
/// a list of objects with a `key` (format 2.1), or any other JSON (2.0).
///
/// Names are lent out of the parsed value, as a reader that borrows from the
/// JSON text lends out names written without escapes; the fixtures here have
/// none.
fn attributes(v: &serde_json::Value) -> AuthAttributeUnion<'_> {
    let list = v.as_array().and_then(|items| {
        items
            .iter()
            .map(|item| {
                let key = Cow::Borrowed(item.get("key")?.as_str()?);
                let auth_type = match item.get("type") {
                    None | Some(serde_json::Value::Null) => None,
                    Some(t) => Some(Cow::Borrowed(t.as_str()?)),
                };
                Some(AuthAttribute { key, auth_type, value: item.get("value").map(json) })
            })
            .collect::<Option<Vec<_>>>()
    });
    match list {
        Some(list) => AuthAttributeUnion::AuthAttribute21(list),
        None => AuthAttributeUnion::AuthAttribute20(Some(json(v))),
    }
}

const OAUTH2_COLLECTION: &str = r#"{
  "info": {
    "name": "OAuth 2",
    "schema": "https://schema.getpostman.com/json/collection/v2.1.0/collection.json"
  },
  "item": [],
  "auth": {
    "type": "oauth2",
    "oauth2": [
      { "key": "addTokenTo", "value": "header", "type": "string" },
      { "key": "grantType", "value": "authorization_code", "type": "string" },
      { "key": "authUrl", "value": "https://example.com/oauth2/authorization", "type": "string" },
      { "key": "accessTokenUrl", "value": "https://example.com/oauth2/token", "type": "string" },
      { "key": "useBrowser", "value": false, "type": "boolean" }
    ]
  }
}"#;

const API_KEY_COLLECTION: &str = r#"{
  "info": {
    "name": "API key",
    "schema": "https://schema.getpostman.com/json/collection/v2.1.0/collection.json"
  },
  "item": [],
  "auth": {
    "type": "apikey",
    "apikey": [
      { "key": "key", "value": "Authorization", "type": "string" },
      { "key": "in", "value": "header", "type": "string" }
    ]
  }
}"#;

#[test]
fn deserializes_oauth2() {
    let spec: serde_json::Value = serde_json::from_str(OAUTH2_COLLECTION).unwrap();
    let oauth2 = Oauth2::from_attribute_union(&attributes(&spec["auth"]["oauth2"]));

    assert_eq!(oauth2.grant_type, Oauth2GrantType::AuthorizationCode);
    assert_eq!(
        oauth2.auth_url,
        Some("https://example.com/oauth2/authorization".to_string())
    );
    assert_eq!(
        oauth2.access_token_url,
        Some("https://example.com/oauth2/token".to_string())
    );
}

#[test]
fn deserializes_apikey() {
    let spec: serde_json::Value = serde_json::from_str(API_KEY_COLLECTION).unwrap();
    let apikey = ApiKey::from_attribute_union(&attributes(&spec["auth"]["apikey"]));

    assert_eq!(apikey.key, Some(Cow::Borrowed("Authorization")));
    assert_eq!(apikey.location, ApiKeyLocation::Header);
    assert_eq!(apikey.value, None);
}

#[test]
fn reads_grant_type_from_json() {
    let text = OAUTH2_COLLECTION.replace("\"authorization_code\"", "\"client_credentials\"");
    let spec: serde_json::Value = serde_json::from_str(&text).unwrap();
    let oauth2 = Oauth2::from_attribute_union(&attributes(&spec["auth"]["oauth2"]));
    assert_eq!(oauth2.grant_type, Oauth2GrantType::ClientCredentials);
    assert_eq!(oauth2.add_token_to, Some("header".to_string()));
}

#[test]
fn reads_legacy_attributes_from_json() {
    let text = r#"{ "key": "Authorization", "value": "secret", "in": "query" }"#;
    let v: serde_json::Value = serde_json::from_str(text).unwrap();
    let apikey = ApiKey::from_attribute_union(&attributes(&v));
    assert_eq!(apikey, ApiKey { key: None, location: ApiKeyLocation::Header, value: None });
}

#[test]
fn reorder_keeps_settings() {
    let forward = AuthAttributeUnion::AuthAttribute21(vec![
        text_attr("key", "K"),
        text_attr("in", "query"),
        text_attr("value", "V"),
    ]);
    let backward = AuthAttributeUnion::AuthAttribute21(vec![
        text_attr("value", "V"),
        text_attr("in", "query"),
        text_attr("key", "K"),
    ]);
    assert_eq!(
        ApiKey::from_attribute_union(&forward),
        ApiKey::from_attribute_union(&backward)
    );
}

#[test]
fn inserted_unrelated_attribute_changes_nothing() {
    let base = vec![text_attr("key", "K"), text_attr("in", "query")];
    let mut with_extra = base.clone();
    with_extra.insert(1, text_attr("other", "x"));
    with_extra.insert(0, attr("key", Some(JsonValue::Null)));
    assert_eq!(
        ApiKey::from_attribute_union(&AuthAttributeUnion::AuthAttribute21(base)),
        ApiKey::from_attribute_union(&AuthAttributeUnion::AuthAttribute21(with_extra))
    );
}

#[test]
fn apikey_in_query() {
    let attributes = AuthAttributeUnion::AuthAttribute21(vec![
        text_attr("value", "secret"),
        text_attr("in", "query"),
        text_attr("key", "X-Api-Key"),
    ]);
    let apikey = ApiKey::from_attribute_union(&attributes);
    assert_eq!(apikey.key, Some(Cow::Borrowed("X-Api-Key")));
    assert_eq!(apikey.location, ApiKeyLocation::Query);
    assert_eq!(apikey.value, Some(Cow::Borrowed("secret")));
}

#[test]
fn apikey_unknown_location_is_header() {
    let attributes = AuthAttributeUnion::AuthAttribute21(vec![text_attr("in", "cookie")]);
    let apikey = ApiKey::from_attribute_union(&attributes);
    assert_eq!(apikey.location, ApiKeyLocation::Header);
    assert_eq!(apikey.key, None);
}

#[test]
fn apikey_later_attribute_wins() {
    let attributes = AuthAttributeUnion::AuthAttribute21(vec![
        text_attr("in", "query"),
        text_attr("key", "first"),
        text_attr("key", "second"),
        text_attr("in", "header"),
    ]);
    let apikey = ApiKey::from_attribute_union(&attributes);
    assert_eq!(apikey.key, Some(Cow::Borrowed("second")));
    assert_eq!(apikey.location, ApiKeyLocation::Header);
}

#[test]
fn apikey_non_text_values_are_passed_over() {
    let attributes = AuthAttributeUnion::AuthAttribute21(vec![
        text_attr("key", "kept"),
        attr("key", Some(JsonValue::Number("5".to_string()))),
        attr("value", None),
        attr("in", Some(JsonValue::Bool(true))),
    ]);
    let apikey = ApiKey::from_attribute_union(&attributes);
    assert_eq!(apikey.key, Some(Cow::Borrowed("kept")));
    assert_eq!(apikey.value, None);
    assert_eq!(apikey.location, ApiKeyLocation::Header);
}

#[test]
fn apikey_from_legacy_attributes_is_default() {
    let attributes = AuthAttributeUnion::AuthAttribute20(Some(JsonValue::Object(vec![(
        "key".to_string(),
        JsonValue::String("Authorization".to_string()),
    )])));
    let apikey = ApiKey::from_attribute_union(&attributes);
    assert_eq!(
        apikey,
        ApiKey { key: None, location: ApiKeyLocation::Header, value: None }
    );
}

#[test]
fn oauth2_all_settings() {
    let attributes = AuthAttributeUnion::AuthAttribute21(vec![
        text_attr("grantType", "client_credentials"),
        text_attr("accessTokenUrl", "https://a/token"),
        text_attr("addTokenTo", "header"),
        text_attr("authUrl", "https://a/auth"),
        text_attr("clientId", "id"),
        text_attr("clientSecret", "secret"),
        text_attr("refreshTokenUrl", "https://a/refresh"),
        text_attr("scope", "openid profile  email"),
        text_attr("state", "xyz"),
        text_attr("tokenName", "tok"),
        text_attr("unknown", "ignored"),
    ]);
    let o = Oauth2::from_attribute_union(&attributes);
    assert_eq!(o.grant_type, Oauth2GrantType::ClientCredentials);
    assert_eq!(o.access_token_url, Some("https://a/token".to_string()));
    assert_eq!(o.add_token_to, Some("header".to_string()));
    assert_eq!(o.auth_url, Some("https://a/auth".to_string()));
    assert_eq!(o.client_id, Some("id".to_string()));
    assert_eq!(o.client_secret, Some("secret".to_string()));
    assert_eq!(o.refresh_token_url, Some("https://a/refresh".to_string()));
    assert_eq!(
        o.scope,
        Some(vec![
            "openid".to_string(),
            "profile".to_string(),
            "".to_string(),
            "email".to_string()
        ])
    );
    assert_eq!(o.state, Some("xyz".to_string()));
    assert_eq!(o.token_name, Some("tok".to_string()));
}

#[test]
fn oauth2_grant_types() {
    let cases = [
        ("authorization_code", Oauth2GrantType::AuthorizationCode),
        ("authorization_code_with_pkce", Oauth2GrantType::AuthorizationCodeWithPkce),
        ("client_credentials", Oauth2GrantType::ClientCredentials),
        ("implicit", Oauth2GrantType::Implicit),
        ("password_credentials", Oauth2GrantType::PasswordCredentials),
        ("something_else", Oauth2GrantType::AuthorizationCode),
    ];
    for (name, expected) in cases {
        let attributes = AuthAttributeUnion::AuthAttribute21(vec![text_attr("grantType", name)]);
        assert_eq!(Oauth2::from_attribute_union(&attributes).grant_type, expected);
    }
}

#[test]
fn oauth2_defaults() {
    let empty = AuthAttributeUnion::AuthAttribute21(vec![]);
    let o = Oauth2::from_attribute_union(&empty);
    assert_eq!(o.grant_type, Oauth2GrantType::AuthorizationCode);
    assert_eq!(o.scope, None);
    assert_eq!(o.auth_url, None);

    let legacy = AuthAttributeUnion::AuthAttribute20(None);
    let o = Oauth2::from_attribute_union(&legacy);
    assert_eq!(o.grant_type, Oauth2GrantType::AuthorizationCode);
    assert_eq!(o.token_name, None);
}

#[test]
fn oauth2_later_grant_type_wins() {
    let attributes = AuthAttributeUnion::AuthAttribute21(vec![
        text_attr("grantType", "implicit"),
        attr("grantType", Some(JsonValue::Null)),
        text_attr("grantType", "password_credentials"),
    ]);
    let o = Oauth2::from_attribute_union(&attributes);
    assert_eq!(o.grant_type, Oauth2GrantType::PasswordCredentials);
}

#[test]
fn oauth2_empty_scope_is_one_empty_piece() {
    let attributes = AuthAttributeUnion::AuthAttribute21(vec![text_attr("scope", "")]);
    let o = Oauth2::from_attribute_union(&attributes);
    assert_eq!(o.scope, Some(vec!["".to_string()]));
}

#[test]
fn owned_names_set_nothing() {
    let attributes = AuthAttributeUnion::AuthAttribute21(vec![
        text_attr("key", "plain"),
        AuthAttribute {
            key: Cow::Owned("key".to_string()),
            auth_type: None,
            value: Some(JsonValue::String("unescaped".to_string())),
        },
        AuthAttribute {
            key: Cow::Owned("in".to_string()),
            auth_type: None,
            value: Some(JsonValue::String("query".to_string())),
        },
    ]);
    let apikey = ApiKey::from_attribute_union(&attributes);
    assert_eq!(apikey.key, Some(Cow::Borrowed("plain")));
    assert_eq!(apikey.location, ApiKeyLocation::Header);
}

#[test]
fn settings_are_held_owned() {
    let attributes = AuthAttributeUnion::AuthAttribute21(vec![text_attr("key", "K")]);
    let apikey = ApiKey::from_attribute_union(&attributes);
    assert!(matches!(apikey.key, Some(Cow::Owned(_))));
}

#[test]
fn last_text_finds_last_string_value() {
    let attrs = vec![
        text_attr("a", "1"),
        text_attr("b", "2"),
        text_attr("a", "3"),
        attr("a", Some(JsonValue::Array(vec![]))),
    ];
    assert_eq!(postman::auth::last_text(&attrs, &"a".to_string()), Some("3".to_string()));
    assert_eq!(postman::auth::last_text(&attrs, &"b".to_string()), Some("2".to_string()));
    assert_eq!(postman::auth::last_text(&attrs, &"c".to_string()), None);
}
