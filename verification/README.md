# postman

A data model of Postman collections (format v2.x), with the parts that are
more than a change of JSON shape written with contracts and proofs.

- `src/model.rs`: the collection's types (collection, items, requests,
  responses, authentication, URLs, ...), with text held as `Cow<'a, str>`;
  the text of a description (owned, or borrowed where it can be), and the
  default authentication type.
- `src/json.rs`: free-form JSON values held as plain data.
- `src/auth.rs`: reading API key and OAuth 2 settings out of the generic
  key/value attributes of an authentication method, with the laws that govern
  which attribute decides a setting.
- `src/text.rs`: decimal text of integers (numeric header values) and
  splitting at spaces (OAuth 2 scopes), with their round-trip laws.
- `app/`: copies of the types that carry serde's derives, the conversions
  between them and the library's types, and JSON reading and writing.
