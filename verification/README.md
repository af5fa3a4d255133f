# ortie

Completes OAuth 2.0 grants and inspects the tokens they issue.

- `src/` is the library, verified with Verus: the decisions of the `auth resume`
  and `token inspect` commands. It performs no input or output but reading the
  clock; it says what to do next and takes what came of it.
  - `auth::resume` completes a grant in steps, `auth::response` reads and
    validates the authorization response, `auth::state` and `auth::pkce` hold the
    two secrets of the authorization-code grant, `auth::error` says why a grant
    cannot be completed.
  - `token::inspect` reports the metadata of a token, as text and as JSON fields.
  - `auth::laws` and `token::laws` state what holds of the library as a whole.
- `app/` is the command line around it: arguments, configuration, storage, the
  connection to the token endpoint.
- `tests/` runs the library.

The calls into other crates stand behind functions marked
`#[verifier::external_body]`; the comment above each says what is taken on trust.
