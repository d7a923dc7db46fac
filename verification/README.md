# simple_oauth

Server-side OAuth2 login with the Authorization Code Flow (PKCE), with ready-made
providers (Discord, Facebook, GitHub, GitLab, Google, Microsoft, Twitch and any
OIDC provider), verified with Verus.

Layout:

- `src/` — the verified library.
  - `types.rs`: credentials, token responses, normalized user info.
  - `provider.rs`: the provider traits, whose methods are pinned down by spec
    functions, and their forwarding through `Box` and `Arc`.
  - `common/`: the providers' endpoints, scopes, headers and the normalization of
    each provider's user info response.
  - `text.rs`: decimal text of integers (GitHub's numeric user ids).
  - `lib.rs`: the client configuration (`SimpleOAuthClient`): URL validation, the
    authorization URL, and the code exchange, refresh, revocation and user info
    requests that the network side sends.
  - `external.rs`: the calls into `oauth2`, `url` and `serde_json`, each with the
    contract that the rest of the library relies on.
- `app/` — the network side: the `oauth2` and `reqwest` clients, JSON decoding of
  provider responses, and the types with serde derives or a redacted `Debug`.
- `tests/` — tests of the library.
