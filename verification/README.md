# trae_register

Quick registration of an account on a sign-up page with a throw-away mailbox,
as a verified library and a thin application around it.

`src/` (verified):

- `text` — decimal rendering, quote escaping, query stripping, whitespace.
- `mail` — the mail-code client: key, generated address and password, the
  code request URL, and how a reply is read (only six-digit codes come out).
- `code_wait` — the wait for the code as a state machine (check, pause,
  deliver, give up at the deadline).
- `cookies` — request-URL normalization, `Cookie`-header joining, and the wait
  for the cookies of a request.
- `scripts` — the scripts run in the page.
- `register` — timings, messages, the account-email rule, the callback route.
- `flow` — the whole registration as a state machine, with its laws.

`app/` performs what the library asks for: HTTP, timers, the local callback
server and the browser window.
