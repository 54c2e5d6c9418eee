# rtp-bff

The server-side core of a Backend-for-Frontend: a browser signs in through an OpenID Connect
provider, holds nothing but an opaque session cookie, and all OAuth tokens stay on the server.

`src/` is the library, verified with Verus.

| Module | What it does |
|---|---|
| `oidc::config` | Configuration, redirect rules, lists of trusted proxies |
| `oidc::client_address` | Address on which the limits of a client count |
| `oidc::transaction` | Logins that are pending: limits, expiry, browser binding, one-time use |
| `oidc::login` | Start of a login |
| `oidc::callback`, `oidc::callback_laws` | Return of a browser, step by step, and what holds of every return |
| `oidc::provider` | Metadata cache, authorization URLs, ID-token verification |
| `oidc::refresh`, `oidc::resolution_laws` | Resolution of an access token, step by step, and what holds of every resolution |
| `oidc::single_flight`, `oidc::one_exchange` | Many resolutions on one store, in any interleaving |
| `oidc::check_session` | Whether a browser is signed in |
| `session`, `session::store`, `session::laws` | Sessions, a store in memory, and what holds of it |
| `session::redis_store` | Settings, commands and replies of the Redis store |
| `cookies`, `clock`, `digest`, `random`, `keyed`, `status`, `text` | What the others rest on |

Work that waits for the outside (the store, the provider, a pause) is not done in the library. There a
request is a chain of steps; each step says what is to be done, and its `answer` method takes what
came back and gives the next step.

`app/` is the server around it: routes, the Redis connection, HTTP requests and the environment.
