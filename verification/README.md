# hellojudge_core

The account, follow and profile rules of the HelloJudge user API, written in
Verus and proved against their contracts.

Each endpoint is a step function: it takes what the handler has learned so far
(session, database rows, cache entries, permission checks) and answers either
with the next fact it needs or with the request's outcome. The HTTP server in
`app/` gathers the facts and carries out the outcomes.

- `src/login.rs`, `src/registration.rs`, `src/password_reset.rs`,
  `src/admin_mode.rs`, `src/email_change.rs`: the account endpoints.
- `src/follow.rs`: following users, the follower lists and their columns.
- `src/profile.rs`, `src/permission_group.rs`: profile pages, profile edits and
  the permissions a group grants through inheritance.
- `src/login_state.rs`: the session summary sent to the front end.
- `src/password.rs`, `src/pattern.rs`, `src/token.rs`, `src/mail.rs`: Argon2,
  regular expressions, UUID tokens and GBK mail bodies, called through
  trusted wrappers.
- `src/text.rs`, `src/numeric.rs`, `src/entity_model.rs`: text helpers,
  integer parsing and the JSON column payloads.
- `src/laws.rs`: properties that span endpoints.
