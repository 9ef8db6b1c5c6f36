# Email backend binding

Sends mail over SMTP and reads a mailbox over IMAP, as tools of a gateway (`kind: email`). One
binding is one operation: `send` delivers a message that is built from the arguments of the call
(`to`, `subject`, `body`); `read` returns the most recent messages of a mailbox, and leaves them
unseen.

The library in `src/` is written in Verus. It decides; the ordinary Rust in `app/` holds the
connections, the host and the clock, and does what the library says.

| module | what it holds |
|---|---|
| `types`, `profile` | the operator's spec, its defaults, and the rules that it is held to |
| `plugin` | the bindings that were registered, and the calls of them |
| `call` | the arguments of a call, the work that it asks for, and how it ends |
| `smtp` | the message that is delivered, and how |
| `imap` | the conversation with an IMAP server, step by step |
| `email` | what a response says of a message |
| `envelope`, `backend` | the envelope that a call is answered with |
| `observe` | metrics and audit events |
| `json`, `wire`, `text`, `failure` | JSON values, their text, strings, and words for what failed |

Each public function states in its contract what it returns. The public proof functions state what
holds of several of them: that a read hands over the messages that came, in order and within the
limit; that plaintext is only used where the operator wrote it; that no per-caller credential is
accepted; that every failure is audited; that a failed call is told apart by its envelope.

What `serde_json`, `lettre`, `chrono`, `rustls` and the standard library do is not proved. The items
that call them are marked `external_body`, and their comments say what is relied on.
