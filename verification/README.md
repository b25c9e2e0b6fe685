# oauth_callback_page

Browser feedback for the loopback callback of an OAuth login, verified with Verus.

A code is not a completed login. The browser is told to wait when the callback arrives,
and is shown success only after the login has reported that the credentials were saved.
Nothing that the provider sends is rendered.

- `src/page.rs`: the pages, their headers and the `tiny_http` response that shows them.
- `src/brand.rs`: whose brand the pages carry.
- `src/session.rs`: what the loopback server does with the requests of one login, as a
  state machine from events to steps.
- `src/capture.rs`: the raw text of a request, and reading a page back out of that of a
  response.
- `src/laws.rs`: what holds of every login and of every page.
- `src/text.rs`, `src/encoding.rs`, `src/http.rs`, and the host of a URL in
  `src/brand.rs`: searching text, and what is trusted of `base64`, `sha2`, `tiny_http` and
  `url`.
- `app/`: the server itself and the login's end of it. How the address of a request is
  read as an OAuth callback is the caller's to say.
