//! Reading the typed settings of API key and OAuth 2 authentication out of
//! the generic key/value attributes that a collection stores for them.

use std::borrow::Cow;
use vstd::prelude::*;
use crate::json::JsonValue;
use crate::model::{ApiKey, ApiKeyLocation, AuthAttribute, AuthAttributeUnion, Oauth2, Oauth2GrantType};
use crate::text::{join_spaces, lemma_split_join, space_count, split_on_space, split_spaces};

verus! {

/// The attributes that a union lists: those of a 2.1 attribute list, none for
/// a 2.0 value.
pub open spec fn attribute_list<'a>(attributes: AuthAttributeUnion<'a>) -> Seq<AuthAttribute<'a>> {
    match attributes {
        AuthAttributeUnion::AuthAttribute21(v) => v@,
        AuthAttributeUnion::AuthAttribute20(_) => Seq::empty(),
    }
}

/// The text of `a` when `a` is named `name` and its value is a JSON string.
///
/// A name counts only when it is held borrowed, that is, read straight from
/// the JSON text; a name that had to be unescaped on reading (and so is held
/// owned) names no setting. This is what the collection format's reader has
/// always done, and it is kept so that a collection reads the same.
pub open spec fn text_of_named<'a>(a: AuthAttribute<'a>, name: Seq<char>) -> Option<Seq<char>> {
    match a.value {
        Some(JsonValue::String(s)) => if a.key is Borrowed && a.key@ == name {
            Some(s@)
        } else {
            None
        },
        _ => None,
    }
}

/// The text of the last attribute named `name` whose value is a JSON string;
/// attributes with any other kind of value are passed over.
pub open spec fn last_text_value<'a>(attrs: Seq<AuthAttribute<'a>>, name: Seq<char>) -> Option<Seq<char>>
    decreases attrs.len(),
{
    if attrs.len() == 0 {
        None
    } else {
        match text_of_named(attrs.last(), name) {
            Some(t) => Some(t),
            None => last_text_value(attrs.drop_last(), name),
        }
    }
}

/// Where the `in` attribute puts an API key: the query string for `query`,
/// the headers for anything else or when it is missing.
pub open spec fn location_from(text: Option<Seq<char>>) -> ApiKeyLocation {
    if text == Some("query"@) {
        ApiKeyLocation::Query
    } else {
        ApiKeyLocation::Header
    }
}

/// The grant type that the `grantType` attribute names; authorization code
/// for an unknown name and when it is missing.
pub open spec fn grant_type_from(text: Option<Seq<char>>) -> Oauth2GrantType {
    if text == Some("authorization_code_with_pkce"@) {
        Oauth2GrantType::AuthorizationCodeWithPkce
    } else if text == Some("client_credentials"@) {
        Oauth2GrantType::ClientCredentials
    } else if text == Some("implicit"@) {
        Oauth2GrantType::Implicit
    } else if text == Some("password_credentials"@) {
        Oauth2GrantType::PasswordCredentials
    } else {
        Oauth2GrantType::AuthorizationCode
    }
}

/// The scopes that the `scope` attribute lists, separated by spaces.
pub open spec fn scopes_from(text: Option<Seq<char>>) -> Option<Seq<Seq<char>>> {
    match text {
        Some(t) => Some(split_spaces(t)),
        None => None,
    }
}

/// The text of the last attribute in `attrs` named `name` whose value is a
/// JSON string.
pub fn last_text<'a>(attrs: &Vec<AuthAttribute<'a>>, name: &String) -> (res: Option<String>)
    ensures
        res.deep_view() == last_text_value(attrs@, name@),
{
    let mut i: usize = attrs.len();
    assert(attrs@.take(i as int) =~= attrs@);
    while i > 0
        invariant
            i <= attrs.len(),
            last_text_value(attrs@, name@) == last_text_value(attrs@.take(i as int), name@),
        decreases i,
    {
        let a = &attrs[i - 1];
        proof {
            assert(attrs@.take(i as int).drop_last() =~= attrs@.take(i - 1));
            assert(attrs@.take(i as int).last() == *a);
        }
        match (&a.value, &a.key) {
            (Some(JsonValue::String(text)), Cow::Borrowed(key)) => {
                if String::from_str(*key) == *name {
                    return Some(text.clone());
                }
            },
            _ => {},
        }
        i = i - 1;
    }
    None
}

/// The text, held owned.
fn owned<'a>(text: Option<String>) -> (res: Option<Cow<'a, str>>)
    ensures
        res.deep_view() == text.deep_view(),
        res matches Some(t) ==> t is Owned,
{
    match text {
        Some(t) => Some(Cow::Owned(t)),
        None => None,
    }
}

impl<'a> ApiKey<'a> {
    /// The API key settings that `attributes` hold: `key` and `value` are the
    /// texts of the last `key` and `value` attributes, and the location is the
    /// query string when the last `in` attribute says `query`, else the
    /// headers. Only attributes whose value is a JSON string count; a 2.0
    /// value gives no key, no value and the headers.
    pub fn from_attribute_union<'b>(attributes: &AuthAttributeUnion<'b>) -> (res: ApiKey<'a>)
        ensures
            res.key.deep_view() == last_text_value(attribute_list(*attributes), "key"@),
            res.value.deep_view() == last_text_value(attribute_list(*attributes), "value"@),
            res.location == location_from(last_text_value(attribute_list(*attributes), "in"@)),
            res.key matches Some(k) ==> k is Owned,
            res.value matches Some(v) ==> v is Owned,
    {
        match attributes {
            AuthAttributeUnion::AuthAttribute21(v) => {
                let key = owned(last_text(v, &String::from_str("key")));
                let value = owned(last_text(v, &String::from_str("value")));
                let location = match last_text(v, &String::from_str("in")) {
                    Some(text) => if text == String::from_str("query") {
                        ApiKeyLocation::Query
                    } else {
                        ApiKeyLocation::Header
                    },
                    None => ApiKeyLocation::Header,
                };
                ApiKey { key, location, value }
            },
            AuthAttributeUnion::AuthAttribute20(_) => {
                ApiKey { key: None, location: ApiKeyLocation::Header, value: None }
            },
        }
    }
}

/// The grant type that a `grantType` text names.
fn grant_type_of(text: Option<String>) -> (res: Oauth2GrantType)
    ensures
        res == grant_type_from(text.deep_view()),
{
    proof {
        reveal_strlit("authorization_code");
        reveal_strlit("authorization_code_with_pkce");
        reveal_strlit("client_credentials");
        reveal_strlit("implicit");
        reveal_strlit("password_credentials");
    }
    assert("authorization_code"@.len() == 18);
    assert("authorization_code_with_pkce"@.len() == 28);
    assert("client_credentials"@.len() == 18);
    assert("implicit"@.len() == 8);
    assert("password_credentials"@.len() == 20);
    assert("authorization_code"@[0] != "client_credentials"@[0]);
    let res = match &text {
        Some(t) => {
            if *t == String::from_str("authorization_code") {
                Oauth2GrantType::AuthorizationCode
            } else if *t == String::from_str("authorization_code_with_pkce") {
                Oauth2GrantType::AuthorizationCodeWithPkce
            } else if *t == String::from_str("client_credentials") {
                Oauth2GrantType::ClientCredentials
            } else if *t == String::from_str("implicit") {
                Oauth2GrantType::Implicit
            } else if *t == String::from_str("password_credentials") {
                Oauth2GrantType::PasswordCredentials
            } else {
                Oauth2GrantType::AuthorizationCode
            }
        },
        None => Oauth2GrantType::AuthorizationCode,
    };
    res
}

impl Oauth2 {
    /// The OAuth 2 settings that `attributes` hold. Each setting is the text
    /// of the last attribute of its name (`accessTokenUrl`, `addTokenTo`,
    /// `authUrl`, `clientId`, `clientSecret`, `refreshTokenUrl`, `state`,
    /// `tokenName`); the scopes are the last `scope` text split at every
    /// space; the grant type is the one the last `grantType` text names, and
    /// authorization code when it names none. Only attributes whose value is a
    /// JSON string count; a 2.0 value gives no setting at all.
    pub fn from_attribute_union<'b>(attributes: &AuthAttributeUnion<'b>) -> (res: Oauth2)
        ensures
            ({
                let attrs = attribute_list(*attributes);
                &&& res.grant_type == grant_type_from(last_text_value(attrs, "grantType"@))
                &&& res.access_token_url.deep_view() == last_text_value(attrs, "accessTokenUrl"@)
                &&& res.add_token_to.deep_view() == last_text_value(attrs, "addTokenTo"@)
                &&& res.auth_url.deep_view() == last_text_value(attrs, "authUrl"@)
                &&& res.client_id.deep_view() == last_text_value(attrs, "clientId"@)
                &&& res.client_secret.deep_view() == last_text_value(attrs, "clientSecret"@)
                &&& res.refresh_token_url.deep_view() == last_text_value(attrs, "refreshTokenUrl"@)
                &&& res.scope.deep_view() == scopes_from(last_text_value(attrs, "scope"@))
                &&& res.state.deep_view() == last_text_value(attrs, "state"@)
                &&& res.token_name.deep_view() == last_text_value(attrs, "tokenName"@)
            }),
    {
        let empty: Vec<AuthAttribute<'b>> = Vec::new();
        let v = match attributes {
            AuthAttributeUnion::AuthAttribute21(v) => v,
            AuthAttributeUnion::AuthAttribute20(_) => &empty,
        };
        assert(v@ =~= attribute_list(*attributes));
        let scope = match last_text(v, &String::from_str("scope")) {
            Some(text) => Some(split_on_space(text.as_str())),
            None => None,
        };
        Oauth2 {
            grant_type: grant_type_of(last_text(v, &String::from_str("grantType"))),
            access_token_url: last_text(v, &String::from_str("accessTokenUrl")),
            add_token_to: last_text(v, &String::from_str("addTokenTo")),
            auth_url: last_text(v, &String::from_str("authUrl")),
            client_id: last_text(v, &String::from_str("clientId")),
            client_secret: last_text(v, &String::from_str("clientSecret")),
            refresh_token_url: last_text(v, &String::from_str("refreshTokenUrl")),
            scope,
            state: last_text(v, &String::from_str("state")),
            token_name: last_text(v, &String::from_str("tokenName")),
        }
    }
}

/// Law: a later attribute overrides every earlier one of the same name,
/// when its value is a JSON string.
pub proof fn lemma_later_attribute_wins<'a>(attrs: Seq<AuthAttribute<'a>>, a: AuthAttribute<'a>, name: Seq<char>)
    requires
        a.key is Borrowed,
        a.key@ == name,
        a.value matches Some(JsonValue::String(_)),
    ensures
        last_text_value(attrs.push(a), name) == Some(a.value->0->String_0@),
{
    assert(attrs.push(a).last() == a);
}

/// Law: an attribute whose value is not a JSON string changes no setting.
pub proof fn lemma_non_text_attribute_ignored<'a>(attrs: Seq<AuthAttribute<'a>>, a: AuthAttribute<'a>, name: Seq<char>)
    requires
        !(a.value matches Some(JsonValue::String(_))),
    ensures
        last_text_value(attrs.push(a), name) == last_text_value(attrs, name),
{
    assert(attrs.push(a).drop_last() =~= attrs);
}

/// Law: an attribute of another name leaves a setting as it was.
pub proof fn lemma_other_name_ignored<'a>(attrs: Seq<AuthAttribute<'a>>, a: AuthAttribute<'a>, name: Seq<char>)
    requires
        a.key@ != name,
    ensures
        last_text_value(attrs.push(a), name) == last_text_value(attrs, name),
{
    assert(attrs.push(a).drop_last() =~= attrs);
}

/// Law: 2.0 attributes (any JSON that is not an attribute list) hold no
/// setting, so every setting takes its default.
pub proof fn lemma_legacy_attributes_hold_nothing<'a>(attributes: AuthAttributeUnion<'a>, name: Seq<char>)
    requires
        attributes is AuthAttribute20,
    ensures
        last_text_value(attribute_list(attributes), name) is None,
        location_from(last_text_value(attribute_list(attributes), name)) == ApiKeyLocation::Header,
        grant_type_from(last_text_value(attribute_list(attributes), name)) == Oauth2GrantType::AuthorizationCode,
{
}

/// Law: the setting is the text of some attribute of that name, and that
/// attribute is the last of the name whose value is a JSON string.
pub proof fn lemma_last_text_value_found<'a>(attrs: Seq<AuthAttribute<'a>>, name: Seq<char>)
    ensures
        last_text_value(attrs, name) is None <==> (forall|i: int|
            0 <= i < attrs.len() ==> #[trigger] text_of_named(attrs[i], name) is None),
        last_text_value(attrs, name) matches Some(t) ==> exists|i: int|
            0 <= i < attrs.len() && #[trigger] text_of_named(attrs[i], name) == Some(t) && (forall|j: int|
                i < j < attrs.len() ==> text_of_named(attrs[j], name) is None),
    decreases attrs.len(),
{
    if attrs.len() > 0 {
        let p = attrs.drop_last();
        lemma_last_text_value_found(p, name);
        assert forall|i: int| 0 <= i < p.len() implies p[i] == attrs[i] by {}
        let k = attrs.len() - 1;
        if text_of_named(attrs[k], name) is None {
            if let Some(t) = last_text_value(attrs, name) {
                let i = choose|i: int|
                    0 <= i < p.len() && #[trigger] text_of_named(p[i], name) == Some(t) && (forall|j: int|
                        i < j < p.len() ==> text_of_named(p[j], name) is None);
                assert(text_of_named(attrs[i], name) == Some(t));
            }
        } else {
            assert(text_of_named(attrs[k], name) == last_text_value(attrs, name));
        }
    }
}

/// Law: an attribute that does not set `name` (another name, or a value
/// that is not a JSON string) may stand anywhere in the list without
/// changing the setting.
pub proof fn lemma_insert_ignored<'a>(attrs: Seq<AuthAttribute<'a>>, k: int, a: AuthAttribute<'a>, name: Seq<char>)
    requires
        0 <= k <= attrs.len(),
        text_of_named(a, name) is None,
    ensures
        last_text_value(attrs.insert(k, a), name) == last_text_value(attrs, name),
    decreases attrs.len(),
{
    let ins = attrs.insert(k, a);
    if k == attrs.len() {
        assert(ins.drop_last() =~= attrs);
        assert(ins.last() == a);
    } else {
        lemma_insert_ignored(attrs.drop_last(), k, a, name);
        assert(ins.drop_last() =~= attrs.drop_last().insert(k, a));
        assert(ins.last() == attrs.last());
    }
}

/// `b` is `a` with its elements reordered by `perm`: `b[i]` is `a[perm[i]]`,
/// and `perm` takes every index of `a` exactly once.
pub open spec fn reordered_by<'a>(a: Seq<AuthAttribute<'a>>, b: Seq<AuthAttribute<'a>>, perm: Seq<int>) -> bool {
    &&& b.len() == a.len()
    &&& perm.len() == a.len()
    &&& forall|i: int| 0 <= i < b.len() ==> 0 <= #[trigger] perm[i] < a.len() && b[i] == a[perm[i]]
    &&& forall|i: int, j: int| 0 <= i < j < b.len() ==> #[trigger] perm[i] != #[trigger] perm[j]
    &&& forall|m: int|
        #![trigger a[m]]
        0 <= m < a.len() ==> exists|i: int| 0 <= i < b.len() && #[trigger] perm[i] == m
}

/// At most one attribute of `attrs` sets `name`.
pub open spec fn sets_at_most_once<'a>(attrs: Seq<AuthAttribute<'a>>, name: Seq<char>) -> bool {
    forall|i: int, j: int|
        0 <= i < attrs.len() && 0 <= j < attrs.len() && (#[trigger] text_of_named(attrs[i], name)) is Some
            && (#[trigger] text_of_named(attrs[j], name)) is Some ==> i == j
}

/// Law: when at most one attribute sets `name`, the order of the attributes
/// does not matter to that setting.
pub proof fn lemma_reorder_keeps_setting<'a>(
    a: Seq<AuthAttribute<'a>>,
    b: Seq<AuthAttribute<'a>>,
    perm: Seq<int>,
    name: Seq<char>,
)
    requires
        reordered_by(a, b, perm),
        sets_at_most_once(a, name),
    ensures
        last_text_value(b, name) == last_text_value(a, name),
{
    lemma_last_text_value_found(a, name);
    lemma_last_text_value_found(b, name);
    match last_text_value(a, name) {
        None => {
            assert forall|i: int| 0 <= i < b.len() implies #[trigger] text_of_named(b[i], name) is None by {
                assert(text_of_named(a[perm[i]], name) is None);
            }
        },
        Some(t) => {
            let m = choose|m: int|
                0 <= m < a.len() && #[trigger] text_of_named(a[m], name) == Some(t) && (forall|j: int|
                    m < j < a.len() ==> text_of_named(a[j], name) is None);
            let i = choose|i: int| 0 <= i < b.len() && #[trigger] perm[i] == m;
            assert(text_of_named(b[i], name) == Some(t));
            assert forall|j: int| 0 <= j < b.len() && (#[trigger] text_of_named(b[j], name)) is Some implies j
                == i by {
                assert(text_of_named(a[perm[j]], name) is Some);
                assert(perm[j] == m);
            }
            if let Some(u) = last_text_value(b, name) {
                let k = choose|k: int|
                    0 <= k < b.len() && #[trigger] text_of_named(b[k], name) == Some(u) && (forall|j: int|
                        k < j < b.len() ==> text_of_named(b[j], name) is None);
                assert(k == i);
            }
        },
    }
}

/// Law: an attribute whose name is held owned (it had to be unescaped on
/// reading) sets no setting, wherever it stands.
pub proof fn lemma_owned_name_ignored<'a>(attrs: Seq<AuthAttribute<'a>>, k: int, a: AuthAttribute<'a>, name: Seq<char>)
    requires
        0 <= k <= attrs.len(),
        a.key is Owned,
    ensures
        text_of_named(a, name) is None,
        last_text_value(attrs.insert(k, a), name) == last_text_value(attrs, name),
{
    lemma_insert_ignored(attrs, k, a, name);
}

/// Law: a 2.1 union lists all of its attributes, in order, whatever their
/// number; a 2.0 value lists none.
pub proof fn lemma_attribute_list_is_whole<'a>(attributes: AuthAttributeUnion<'a>)
    ensures
        attributes matches AuthAttributeUnion::AuthAttribute21(v) ==> attribute_list(attributes)
            == v@,
        attributes is AuthAttribute20 ==> attribute_list(attributes).len() == 0,
{
}

/// Law: in a 2.1 list of any length, the last attribute decides the setting
/// of its name when its name is held borrowed and its value is a string.
pub proof fn lemma_last_listed_attribute_decides<'a>(v: Vec<AuthAttribute<'a>>, name: Seq<char>)
    requires
        v.len() > 0,
        v@.last().key is Borrowed,
        v@.last().key@ == name,
        v@.last().value matches Some(JsonValue::String(_)),
    ensures
        last_text_value(attribute_list(AuthAttributeUnion::AuthAttribute21(v)), name) == Some(
            v@.last().value->0->String_0@,
        ),
{
}

/// Law: the scopes of a `scope` text are that text cut at every space and at
/// nothing else: joined back with single spaces they give the text, none of
/// them holds a space, and there is one more than there are spaces; without a
/// `scope` text there are no scopes.
pub proof fn lemma_scopes_are_the_text_split(t: Seq<char>)
    ensures
        scopes_from(None) is None,
        scopes_from(Some(t)) is Some,
        join_spaces(scopes_from(Some(t))->0) == t,
        scopes_from(Some(t))->0.len() == space_count(t) + 1,
        forall|k: int, j: int|
            0 <= k < scopes_from(Some(t))->0.len() && 0 <= j < scopes_from(Some(t))->0[k].len()
                ==> #[trigger] scopes_from(Some(t))->0[k][j] != ' ',
{
    lemma_split_join(t);
}

/// Law: each grant type is named by exactly one text, and authorization code
/// is what every other text (or none) gives.
pub proof fn lemma_grant_type_names(t: Option<Seq<char>>)
    ensures
        (grant_type_from(t) == Oauth2GrantType::AuthorizationCodeWithPkce) <==> t == Some(
            "authorization_code_with_pkce"@,
        ),
        (grant_type_from(t) == Oauth2GrantType::ClientCredentials) <==> t == Some("client_credentials"@),
        (grant_type_from(t) == Oauth2GrantType::Implicit) <==> t == Some("implicit"@),
        (grant_type_from(t) == Oauth2GrantType::PasswordCredentials) <==> t == Some("password_credentials"@),
        (grant_type_from(t) == Oauth2GrantType::AuthorizationCode) <==> !(t == Some(
            "authorization_code_with_pkce"@,
        ) || t == Some("client_credentials"@) || t == Some("implicit"@) || t == Some(
            "password_credentials"@,
        )),
{
    reveal_strlit("authorization_code_with_pkce");
    reveal_strlit("client_credentials");
    reveal_strlit("implicit");
    reveal_strlit("password_credentials");
    assert("authorization_code_with_pkce"@.len() == 28);
    assert("client_credentials"@.len() == 18);
    assert("implicit"@.len() == 8);
    assert("password_credentials"@.len() == 20);
}

/// Law: an API key goes in the query string exactly when the `in` text is
/// `query`, and in the headers otherwise.
pub proof fn lemma_location_names(t: Option<Seq<char>>)
    ensures
        (location_from(t) == ApiKeyLocation::Query) <==> t == Some("query"@),
        (location_from(t) == ApiKeyLocation::Header) <==> t != Some("query"@),
{
}

} // verus!
