//! The data model of a Postman collection (format v2.x).
//!
//! Text that a collection holds is `Cow<'a, str>`: borrowed from the JSON
//! text it was read from where it could be, owned where it had to be
//! unescaped. Free-form JSON is held as [`JsonValue`].

use std::borrow::Cow;
use vstd::prelude::*;
use crate::json::JsonValue;

verus! {

/// `Clone` of `std::borrow::Cow`, which the derived `Clone` impls of the
/// model call. Nothing is claimed of the copy: std's documentation says only
/// that it returns a copy of the value.
pub assume_specification<'a, B: ?Sized + std::borrow::ToOwned>[ <Cow<'a, B> as Clone>::clone ](
    c: &Cow<'a, B>,
) -> (res: Cow<'a, B>);

/// A whole collection.
#[derive(Clone, Debug, PartialEq, Eq, Default)]
pub struct Spec<'a> {
    pub auth: Option<Auth<'a>>,
    pub event: Option<Vec<Event<'a>>>,
    pub info: Information<'a>,
    pub item: Vec<Items<'a>>,
    pub variable: Option<Vec<Variable<'a>>>,
}

/// Represents authentication helpers provided by Postman
#[derive(Clone, Debug, PartialEq, Eq)]
pub struct Auth<'a> {
    pub awsv4: Option<AuthAttributeUnion<'a>>,
    pub basic: Option<AuthAttributeUnion<'a>>,
    pub bearer: Option<AuthAttributeUnion<'a>>,
    pub jwt: Option<AuthAttributeUnion<'a>>,
    pub digest: Option<AuthAttributeUnion<'a>>,
    pub hawk: Option<AuthAttributeUnion<'a>>,
    pub noauth: Option<JsonValue>,
    pub ntlm: Option<AuthAttributeUnion<'a>>,
    pub oauth1: Option<AuthAttributeUnion<'a>>,
    pub oauth2: Option<Oauth2>,
    pub apikey: Option<ApiKey<'a>>,
    pub auth_type: AuthType,
}

/// The settings of API key authentication.
#[derive(Clone, Debug, PartialEq, Eq)]
pub struct ApiKey<'a> {
    pub key: Option<Cow<'a, str>>,
    pub location: ApiKeyLocation,
    pub value: Option<Cow<'a, str>>,
}

/// Where an API key is sent.
#[derive(Clone, Copy, Debug, PartialEq, Eq)]
pub enum ApiKeyLocation {
    Header,
    Query,
}

/// The settings of OAuth 2 authentication.
#[derive(Clone, Debug, PartialEq, Eq)]
pub struct Oauth2 {
    pub grant_type: Oauth2GrantType,
    pub access_token_url: Option<String>,
    pub add_token_to: Option<String>,
    pub auth_url: Option<String>,
    pub client_id: Option<String>,
    pub client_secret: Option<String>,
    pub refresh_token_url: Option<String>,
    pub scope: Option<Vec<String>>,
    pub state: Option<String>,
    pub token_name: Option<String>,
}

/// The OAuth 2 grant types that Postman knows.
#[derive(Clone, Copy, Debug, PartialEq, Eq)]
pub enum Oauth2GrantType {
    AuthorizationCodeWithPkce,
    ClientCredentials,
    Implicit,
    PasswordCredentials,
    AuthorizationCode,
}

/// Represents an attribute for any authorization method provided by Postman. For example
/// `username` and `password` are set as auth attributes for Basic Authentication method.
#[derive(Clone, Debug, PartialEq, Eq)]
pub struct AuthAttribute<'a> {
    pub key: Cow<'a, str>,
    pub auth_type: Option<Cow<'a, str>>,
    pub value: Option<JsonValue>,
}

/// The attributes of an authorization method: a list of key/value attributes
/// (format 2.1), or any other JSON (format 2.0).
#[derive(Clone, Debug, PartialEq, Eq)]
pub enum AuthAttributeUnion<'a> {
    AuthAttribute21(Vec<AuthAttribute<'a>>),
    AuthAttribute20(Option<JsonValue>),
}

/// Postman allows you to configure scripts to run when specific events occur. These scripts
/// are stored here, and can be referenced in the collection by their ID.
///
/// Defines a script associated with an associated event name
#[derive(Clone, Debug, PartialEq, Eq)]
pub struct Event<'a> {
    pub disabled: Option<bool>,
    pub id: Option<Cow<'a, str>>,
    pub listen: Cow<'a, str>,
    pub script: Option<Script<'a>>,
}

/// A script is a snippet of Javascript code that can be used to to perform setup or teardown
/// operations on a particular response.
#[derive(Clone, Debug, PartialEq, Eq)]
pub struct Script<'a> {
    pub script_exec: Option<ScriptExec<'a>>,
    pub id: Option<Cow<'a, str>>,
    pub name: Option<Cow<'a, str>>,
    pub src: Option<Url<'a>>,
    pub script_type: Option<Cow<'a, str>>,
}

/// A URL broken down into its parts.
#[derive(Clone, Debug, PartialEq, Eq)]
pub struct UrlClass<'a> {
    pub hash: Option<Cow<'a, str>>,
    pub host: Option<Host<'a>>,
    pub path: Option<UrlPath<'a>>,
    pub port: Option<Cow<'a, str>>,
    pub protocol: Option<Cow<'a, str>>,
    pub query: Option<Vec<QueryParam<'a>>>,
    pub raw: Option<Cow<'a, str>>,
    pub variable: Option<Vec<Variable<'a>>>,
}

/// A path segment given as an object.
#[derive(Clone, Debug, PartialEq, Eq)]
pub struct PathClass<'a> {
    pub path_type: Option<Cow<'a, str>>,
    pub value: Option<Cow<'a, str>>,
}

/// A GraphQL body given as an object.
#[derive(Clone, Debug, PartialEq, Eq)]
pub struct GraphQlBodyClass<'a> {
    pub query: Option<Cow<'a, str>>,
    pub variables: Option<Cow<'a, str>>,
}

/// One parameter of a URL's query string.
#[derive(Clone, Debug, Default, PartialEq, Eq)]
pub struct QueryParam<'a> {
    pub description: Option<DescriptionUnion<'a>>,
    pub disabled: Option<bool>,
    pub key: Option<Cow<'a, str>>,
    pub value: Option<Cow<'a, str>>,
}

/// A description given as an object.
#[derive(Clone, Debug, Default, PartialEq, Eq)]
pub struct Description<'a> {
    pub content: Option<Cow<'a, str>>,
    pub description_type: Option<Cow<'a, str>>,
    pub version: Option<JsonValue>,
}

/// Collection variables allow you to define a set of variables, that are a *part of the
/// collection*, as opposed to environments, which are separate entities.
/// *Note: Collection variables must not contain any sensitive information.*
///
/// Using variables in your Postman requests eliminates the need to duplicate requests, which
/// can save a lot of time. Variables can be defined, and referenced to from any part of a
/// request.
#[derive(Clone, Debug, Default, PartialEq, Eq)]
pub struct Variable<'a> {
    pub description: Option<DescriptionUnion<'a>>,
    pub disabled: Option<bool>,
    pub id: Option<Cow<'a, str>>,
    pub key: Option<Cow<'a, str>>,
    pub name: Option<Cow<'a, str>>,
    pub system: Option<bool>,
    pub variable_type: Option<VariableType>,
    pub value: Option<JsonValue>,
}

/// Detailed description of the info block
#[derive(Clone, Debug, PartialEq, Eq, Default)]
pub struct Information<'a> {
    pub postman_id: Option<Cow<'a, str>>,
    pub exporter_id: Option<Cow<'a, str>>,
    pub description: Option<DescriptionUnion<'a>>,
    pub name: Cow<'a, str>,
    pub schema: Cow<'a, str>,
    pub version: Option<CollectionVersion<'a>>,
}

/// A collection version given as an object.
#[derive(Clone, Debug, PartialEq, Eq)]
pub struct CollectionVersionClass<'a> {
    pub identifier: Option<Cow<'a, str>>,
    pub major: i64,
    pub meta: Option<JsonValue>,
    pub minor: i64,
    pub patch: i64,
}

/// Items are entities which contain an actual HTTP request, and sample responses attached to
/// it.
///
/// One of the primary goals of Postman is to organize the development of APIs. To this end,
/// it is necessary to be able to group requests together. This can be achived using
/// 'Folders'. A folder just is an ordered set of requests.
#[derive(Debug, PartialEq, Eq)]
pub struct Items<'a> {
    pub description: Option<DescriptionUnion<'a>>,
    pub event: Option<Vec<Event<'a>>>,
    pub id: Option<Cow<'a, str>>,
    pub name: Option<Cow<'a, str>>,
    pub protocol_profile_behavior: Option<ProtocolProfileBehavior>,
    pub request: Option<RequestUnion<'a>>,
    pub response: Option<Vec<Option<ResponseClass<'a>>>>,
    pub variable: Option<Vec<Variable<'a>>>,
    pub auth: Option<Auth<'a>>,
    pub item: Option<Vec<Items<'a>>>,
}

/// Set of configurations used to alter the usual behavior of sending the request
#[derive(Clone, Debug, PartialEq, Eq)]
pub struct ProtocolProfileBehavior {
    pub disable_body_pruning: Option<bool>,
}

/// A request given as an object.
#[derive(Clone, Debug, PartialEq, Eq)]
pub struct RequestClass<'a> {
    pub auth: Option<Auth<'a>>,
    pub body: Option<Body<'a>>,
    pub certificate: Option<Certificate<'a>>,
    pub description: Option<DescriptionUnion<'a>>,
    pub header: Option<HeaderUnion<'a>>,
    pub method: Option<Cow<'a, str>>,
    pub proxy: Option<ProxyConfig<'a>>,
    pub url: Option<Url<'a>>,
}

/// This field contains the data usually contained in the request body.
#[derive(Clone, Debug, PartialEq, Eq)]
pub struct Body<'a> {
    pub disabled: Option<bool>,
    pub file: Option<File<'a>>,
    pub formdata: Option<Vec<FormParameter<'a>>>,
    pub mode: Option<Mode>,
    pub raw: Option<Cow<'a, str>>,
    pub options: Option<BodyOptions<'a>>,
    pub urlencoded: Option<Vec<UrlEncodedParameter<'a>>>,
    pub graphql: Option<GraphQlBody<'a>>,
}

/// Options of a request body.
#[derive(Clone, Debug, PartialEq, Eq)]
pub struct BodyOptions<'a> {
    pub raw: Option<RawOptions<'a>>,
}

/// Options of a raw request body.
#[derive(Clone, Debug, PartialEq, Eq)]
pub struct RawOptions<'a> {
    pub language: Option<Cow<'a, str>>,
}

/// A file sent as the request body.
#[derive(Clone, Debug, PartialEq, Eq)]
pub struct File<'a> {
    pub content: Option<Cow<'a, str>>,
    pub src: Option<Cow<'a, str>>,
}

/// One entity of a multipart form body.
#[derive(Clone, Debug, PartialEq, Eq)]
pub struct FormParameter<'a> {
    pub content_type: Option<Cow<'a, str>>,
    pub description: Option<DescriptionUnion<'a>>,
    pub disabled: Option<bool>,
    pub key: Cow<'a, str>,
    pub form_parameter_type: Option<Cow<'a, str>>,
    pub value: Option<Cow<'a, str>>,
}

/// One parameter of a URL-encoded body.
#[derive(Clone, Debug, PartialEq, Eq)]
pub struct UrlEncodedParameter<'a> {
    pub description: Option<DescriptionUnion<'a>>,
    pub disabled: Option<bool>,
    pub key: Cow<'a, str>,
    pub value: Option<Cow<'a, str>>,
}

/// A representation of an ssl certificate
#[derive(Clone, Debug, PartialEq, Eq)]
pub struct Certificate<'a> {
    pub cert: Option<Cert>,
    pub key: Option<Key>,
    pub matches: Option<Vec<Option<JsonValue>>>,
    pub name: Option<Cow<'a, str>>,
    pub passphrase: Option<Cow<'a, str>>,
}

/// An object containing path to file certificate, on the file system
#[derive(Clone, Debug, PartialEq, Eq)]
pub struct Cert {
    pub src: Option<JsonValue>,
}

/// An object containing path to file containing private key, on the file system
#[derive(Clone, Debug, PartialEq, Eq)]
pub struct Key {
    pub src: Option<JsonValue>,
}

/// A representation for a list of headers
///
/// Represents a single HTTP Header
#[derive(Clone, Debug, PartialEq, Eq)]
pub struct Header<'a> {
    pub description: Option<DescriptionUnion<'a>>,
    pub disabled: Option<bool>,
    pub key: Cow<'a, str>,
    pub value: String,
}

/// Using the Proxy, you can configure your custom proxy into the postman for particular url
/// match
#[derive(Clone, Debug, PartialEq, Eq)]
pub struct ProxyConfig<'a> {
    pub disabled: Option<bool>,
    pub host: Option<Cow<'a, str>>,
    pub proxy_config_match: Option<Cow<'a, str>>,
    pub port: Option<i64>,
    pub tunnel: Option<bool>,
}

/// A response given as an object.
#[derive(Clone, Debug, PartialEq, Eq)]
pub struct ResponseClass<'a> {
    pub name: Option<Cow<'a, str>>,
    pub body: Option<Cow<'a, str>>,
    pub code: Option<i64>,
    pub cookie: Option<Vec<Cookie<'a>>>,
    pub header: Option<Headers<'a>>,
    pub id: Option<Cow<'a, str>>,
    pub original_request: Option<RequestClass<'a>>,
    pub response_time: Option<ResponseTime<'a>>,
    pub status: Option<Cow<'a, str>>,
}

/// A Cookie, that follows the [Google Chrome
/// format](https://developer.chrome.com/extensions/cookies)
#[derive(Clone, Debug, PartialEq, Eq)]
pub struct Cookie<'a> {
    pub domain: Option<Cow<'a, str>>,
    pub expires: Option<Cow<'a, str>>,
    pub extensions: Option<Vec<Option<JsonValue>>>,
    pub host_only: Option<bool>,
    pub http_only: Option<bool>,
    pub max_age: Option<Cow<'a, str>>,
    pub name: Option<Cow<'a, str>>,
    pub path: Option<Cow<'a, str>>,
    pub secure: Option<bool>,
    pub session: Option<bool>,
    pub value: Option<Cow<'a, str>>,
}

/// The host for the URL, E.g: api.yourdomain.com. Can be stored as a string or as an array
/// of strings.
#[derive(Clone, Debug, PartialEq, Eq)]
pub enum Host<'a> {
    String(Cow<'a, str>),

    StringArray(Vec<Cow<'a, str>>),
}

/// The code of a script: one string, or an array of lines.
#[derive(Clone, Debug, PartialEq, Eq)]
pub enum ScriptExec<'a> {
    String(Cow<'a, str>),

    StringArray(Vec<Cow<'a, str>>),
}

/// If object, contains the complete broken-down URL for this request. If string, contains
/// the literal request URL.
#[derive(Clone, Debug, PartialEq, Eq)]
pub enum Url<'a> {
    String(Cow<'a, str>),

    UrlClass(UrlClass<'a>),
}

/// The path of a URL: one string, or an array of segments.
#[derive(Clone, Debug, PartialEq, Eq)]
pub enum UrlPath<'a> {
    String(Cow<'a, str>),

    UnionArray(Vec<PathElement<'a>>),
}

/// The complete path of the current url, broken down into segments. A segment could be a
/// string, or a path variable.
#[derive(Clone, Debug, PartialEq, Eq)]
pub enum PathElement<'a> {
    PathClass(PathClass<'a>),

    String(Cow<'a, str>),
}

/// A Description can be a raw text, or be an object, which holds the description along with
/// its format.
#[derive(Clone, Debug, PartialEq, Eq)]
pub enum DescriptionUnion<'a> {
    String(Cow<'a, str>),
    Description(Description<'a>),
}

/// Postman allows you to version your collections as they grow, and this field holds the
/// version number. While optional, it is recommended that you use this field to its fullest
/// extent!
#[derive(Clone, Debug, PartialEq, Eq)]
pub enum CollectionVersion<'a> {
    CollectionVersionClass(CollectionVersionClass<'a>),

    String(Cow<'a, str>),
}

/// A request represents an HTTP request. If a string, the string is assumed to be the
/// request URL and the method is assumed to be 'GET'.
#[derive(Clone, Debug, PartialEq, Eq)]
pub enum RequestUnion<'a> {
    RequestClass(Box<RequestClass<'a>>),

    String(Cow<'a, str>),
}

/// The headers of a request: an array of headers, or one string.
#[derive(Clone, Debug, PartialEq, Eq)]
pub enum HeaderUnion<'a> {
    HeaderArray(Vec<Header<'a>>),

    String(Cow<'a, str>),
}

/// A response represents an HTTP response.
#[derive(Clone, Debug, PartialEq, Eq)]
pub enum Response<'a> {
    ResponseClass(Box<ResponseClass<'a>>),

    String(Cow<'a, str>),
}

/// The headers of a response: one string, or an array of elements.
#[derive(Clone, Debug, PartialEq, Eq)]
pub enum Headers<'a> {
    String(Cow<'a, str>),

    UnionArray(Vec<HeaderElement<'a>>),
}

/// No HTTP request is complete without its headers, and the same is true for a Postman
/// request. This field is an array containing all the headers.
#[derive(Clone, Debug, PartialEq, Eq)]
pub enum HeaderElement<'a> {
    Header(Header<'a>),

    String(Cow<'a, str>),
}

/// The time taken by the request to complete. If a number, the unit is milliseconds. If the
/// response is manually created, this can be set to `null`.
#[derive(Clone, Debug, PartialEq, Eq)]
pub enum ResponseTime<'a> {
    Number(u64),

    String(Cow<'a, str>),
}

/// A GraphQL body: one string, or an object.
#[derive(Clone, Debug, PartialEq, Eq)]
pub enum GraphQlBody<'a> {
    String(Cow<'a, str>),

    GraphQlBodyClass(GraphQlBodyClass<'a>),
}

/// The authentication methods that Postman knows.
#[derive(Clone, Copy, Debug, PartialEq, Eq)]
pub enum AuthType {
    Awsv4,
    Basic,
    Bearer,
    Digest,
    Jwt,
    Hawk,
    Noauth,
    Ntlm,
    Oauth1,
    Oauth2,
    Apikey,
}

/// A variable may have multiple types. This field specifies the type of the variable.
#[derive(Clone, Copy, Debug, PartialEq, Eq)]
pub enum VariableType {
    Any,
    Boolean,
    Number,
    String,
}

/// Postman stores the type of data associated with this request in this field.
#[derive(Clone, Copy, Debug, PartialEq, Eq)]
pub enum Mode {
    File,
    Formdata,
    Raw,
    Urlencoded,
    GraphQl,
}

/// A collection read only for its name and description.
#[derive(Clone, Debug, PartialEq, Default)]
pub struct Outer<'a> {
    pub info: TestInformation<'a>,
}

/// The name and description of a collection.
#[derive(Clone, Debug, PartialEq, Default)]
pub struct TestInformation<'a> {
    pub name: Cow<'a, str>,
    pub description: Option<TestDescriptionUnion<'a>>,
}

/// A description given as one string or as a list of strings.
#[derive(Clone, Debug, PartialEq)]
pub enum TestDescriptionUnion<'a> {
    Str(Cow<'a, str>),
    StrVec(Vec<Cow<'a, str>>),
}

/// `b` is a clone of `a` as `Option::clone` makes one: both empty, or both
/// present and the content of `b` a clone of the content of `a`.
pub open spec fn option_cloned<T: Clone>(a: Option<T>, b: Option<T>) -> bool {
    match (a, b) {
        (None, None) => true,
        (Some(x), Some(y)) => cloned::<T>(x, y),
        _ => false,
    }
}

/// `b` is a copy of `a`: every field a clone of the matching field of `a`,
/// and as many nested items, each a copy in turn.
pub open spec fn items_copied<'a>(a: Items<'a>, b: Items<'a>) -> bool
    decreases a,
{
    &&& option_cloned(a.id, b.id)
    &&& option_cloned(a.name, b.name)
    &&& option_cloned(a.description, b.description)
    &&& option_cloned(a.event, b.event)
    &&& option_cloned(a.protocol_profile_behavior, b.protocol_profile_behavior)
    &&& option_cloned(a.request, b.request)
    &&& option_cloned(a.response, b.response)
    &&& option_cloned(a.variable, b.variable)
    &&& option_cloned(a.auth, b.auth)
    &&& match (a.item, b.item) {
        (None, None) => true,
        (Some(x), Some(y)) => {
            &&& x.len() == y.len()
            &&& forall|i: int| #![trigger x@[i]] 0 <= i < x.len() ==> items_copied(x@[i], y@[i])
        },
        _ => false,
    }
}

/// A copy of `items`, made field by field; the nested items are copied in
/// turn, so that the copy is as deep as the original.
fn clone_items<'a>(items: &Items<'a>) -> (res: Items<'a>)
    ensures
        items_copied(*items, res),
    decreases *items,
{
    let item = match &items.item {
        None => None,
        Some(children) => {
            let mut out: Vec<Items<'a>> = Vec::new();
            let mut i: usize = 0;
            while i < children.len()
                invariant
                    items.item == Some(*children),
                    i <= children.len(),
                    out.len() == i,
                    forall|j: int| #![trigger children@[j]] 0 <= j < i ==> items_copied(children@[j], out@[j]),
                decreases children.len() - i,
            {
                proof {
                    assert(decreases_to!(*items => items.item->0@[i as int]));
                }
                let child = clone_items(&children[i]);
                out.push(child);
                i = i + 1;
            }
            Some(out)
        },
    };
    Items {
        description: items.description.clone(),
        event: items.event.clone(),
        id: items.id.clone(),
        name: items.name.clone(),
        protocol_profile_behavior: items.protocol_profile_behavior.clone(),
        request: items.request.clone(),
        response: items.response.clone(),
        variable: items.variable.clone(),
        auth: items.auth.clone(),
        item,
    }
}

impl<'a> Clone for Items<'a> {
    fn clone(&self) -> (res: Self)
        ensures
            items_copied(*self, res),
    {
        clone_items(self)
    }
}

/// The text of a description: the string itself, or the content of a
/// description object (empty when it has none).
pub open spec fn description_text<'a>(description: DescriptionUnion<'a>) -> Seq<char> {
    match description {
        DescriptionUnion::String(s) => s@,
        DescriptionUnion::Description(d) => match d.content {
            Some(c) => c@,
            None => Seq::empty(),
        },
    }
}

/// Whether the text of a description comes back borrowed: always for a plain
/// string; for a description object, when its content is held borrowed or is
/// missing (the empty text is a borrowed literal).
pub open spec fn description_text_borrowed<'a>(description: DescriptionUnion<'a>) -> bool {
    match description {
        DescriptionUnion::String(_) => true,
        DescriptionUnion::Description(d) => match d.content {
            Some(c) => c is Borrowed,
            None => true,
        },
    }
}

/// An owned copy of the text that `text` holds.
fn cow_to_string<'a>(text: &Cow<'a, str>) -> (res: String)
    ensures
        res@ == text@,
{
    match text {
        Cow::Borrowed(b) => String::from_str(*b),
        Cow::Owned(o) => o.clone(),
    }
}

impl<'a> DescriptionUnion<'a> {
    /// The text of the description, as an owned string: the string itself,
    /// or the content of a description object, empty when it has none.
    pub fn to_text(&self) -> (res: String)
        ensures
            res@ == description_text(*self),
    {
        match self {
            DescriptionUnion::String(s) => cow_to_string(s),
            DescriptionUnion::Description(d) => match &d.content {
                Some(c) => cow_to_string(c),
                None => String::new(),
            },
        }
    }

    /// The text of the description, borrowed where it can be: a plain string
    /// is lent out as it stands; the content of a description object comes
    /// back as `Cow::clone` makes it (borrowed stays borrowed, owned is
    /// copied); a description object without content gives the empty text.
    pub fn to_cow(&'a self) -> (res: Cow<'a, str>)
        ensures
            res@ == description_text(*self),
            (res is Borrowed) == description_text_borrowed(*self),
    {
        proof {
            reveal_strlit("");
        }
        match self {
            DescriptionUnion::String(s) => match s {
                Cow::Borrowed(b) => Cow::Borrowed(*b),
                Cow::Owned(o) => Cow::Borrowed(o.as_str()),
            },
            DescriptionUnion::Description(d) => match &d.content {
                Some(Cow::Borrowed(b)) => Cow::Borrowed(*b),
                Some(Cow::Owned(o)) => Cow::Owned(o.clone()),
                None => {
                    let empty: &str = "";
                    assert(empty@ =~= Seq::<char>::empty());
                    Cow::Borrowed(empty)
                },
            },
        }
    }
}

/// Law: the text of a description is, whatever its length, the whole string
/// of a plain description, the whole content of a description object, and
/// empty only for an object without content (or with empty content).
pub proof fn lemma_description_text_is_whole<'a>(description: DescriptionUnion<'a>)
    ensures
        description matches DescriptionUnion::String(s) ==> description_text(description) == s@,
        description matches DescriptionUnion::Description(d) ==> match d.content {
            Some(c) => description_text(description) == c@,
            None => description_text(description).len() == 0,
        },
        description_text(description).len() == match description {
            DescriptionUnion::String(s) => s@.len(),
            DescriptionUnion::Description(d) => match d.content {
                Some(c) => c@.len(),
                None => 0,
            },
        },
{
}

/// Law: a plain description is always lent out; a description object's
/// content comes back borrowed exactly when it is held borrowed, and the
/// missing content as a borrowed empty text.
pub proof fn lemma_description_borrowing<'a>(description: DescriptionUnion<'a>)
    ensures
        description is String ==> description_text_borrowed(description),
        description matches DescriptionUnion::Description(d) ==> match d.content {
            Some(c) => description_text_borrowed(description) == (c is Borrowed),
            None => description_text_borrowed(description),
        },
{
}

/// Law: a copy of an item keeps every field: each is a clone of the same
/// field of the original, present exactly when it is present there, and the
/// nested items are as many, each a copy in turn.
pub proof fn lemma_items_copied_keeps_fields<'a>(a: Items<'a>, b: Items<'a>)
    requires
        items_copied(a, b),
    ensures
        option_cloned(a.id, b.id),
        option_cloned(a.name, b.name),
        option_cloned(a.description, b.description),
        option_cloned(a.event, b.event),
        option_cloned(a.protocol_profile_behavior, b.protocol_profile_behavior),
        option_cloned(a.request, b.request),
        option_cloned(a.response, b.response),
        option_cloned(a.variable, b.variable),
        option_cloned(a.auth, b.auth),
        (a.id is Some) == (b.id is Some),
        (a.name is Some) == (b.name is Some),
        (a.description is Some) == (b.description is Some),
        (a.event is Some) == (b.event is Some),
        (a.protocol_profile_behavior is Some) == (b.protocol_profile_behavior is Some),
        (a.request is Some) == (b.request is Some),
        (a.response is Some) == (b.response is Some),
        (a.variable is Some) == (b.variable is Some),
        (a.auth is Some) == (b.auth is Some),
        (a.item is Some) == (b.item is Some),
        a.item is Some ==> a.item->0.len() == b.item->0.len() && forall|i: int|
            #![trigger a.item->0@[i]]
            0 <= i < a.item->0.len() ==> items_copied(a.item->0@[i], b.item->0@[i]),
{
}

/// Law: every item is a copy of itself, so no field may be lost in a copy.
pub proof fn lemma_items_copied_reflexive<'a>(a: Items<'a>)
    ensures
        items_copied(a, a),
    decreases a,
{
    if let Some(xs) = a.item {
        assert forall|i: int| #![trigger xs@[i]] 0 <= i < xs.len() implies items_copied(xs@[i], xs@[i]) by {
            lemma_items_copied_reflexive(xs@[i]);
        }
    }
}

/// Returns `Noauth` for AuthType by default
impl Default for AuthType {
    fn default() -> (res: AuthType)
        ensures
            res == AuthType::Noauth,
    {
        AuthType::Noauth
    }
}

} // verus!
