//! Operator-facing spec of an email binding.
//!
//! One binding = one operation = one tool (or resource). `op: send` delivers mail over SMTP, the
//! message built from the call arguments; `op: read` fetches recent messages from a mailbox over
//! IMAP.
use vstd::prelude::*;

verus! {

/// The email operation a binding performs.
#[derive(Debug, Clone, Copy, PartialEq, Eq, Structural)]
pub enum EmailOp {
    /// Send a message over SMTP. `to` / `subject` / `body` come from the call arguments.
    Send,
    /// Read recent messages from a mailbox over IMAP.
    Read,
}

impl EmailOp {
    /// The word for the operation.
    pub open spec fn word(self) -> Seq<char> {
        match self {
            EmailOp::Send => "send"@,
            EmailOp::Read => "read"@,
        }
    }

    /// The word for the operation.
    pub fn as_str(self) -> (word: &'static str)
        ensures
            word@ == self.word(),
    {
        match self {
            EmailOp::Send => "send",
            EmailOp::Read => "read",
        }
    }
}

impl Default for EmailOp {
    /// A binding that names no operation sends.
    fn default() -> (op: EmailOp)
        ensures
            op == EmailOp::Send,
    {
        EmailOp::Send
    }
}

/// Transport security.
#[derive(Debug, Clone, Copy, PartialEq, Eq, Structural)]
pub enum TlsMode {
    /// No TLS (plaintext). Trusted networks / development only.
    Plain,
    /// STARTTLS upgrade on the plaintext connection (SMTP only).
    Starttls,
    /// TLS for the whole connection.
    Implicit,
}

impl TlsMode {
    /// The word for the mode.
    pub open spec fn word(self) -> Seq<char> {
        match self {
            TlsMode::Plain => "none"@,
            TlsMode::Starttls => "starttls"@,
            TlsMode::Implicit => "implicit"@,
        }
    }

    /// The word for the mode.
    pub fn as_str(self) -> (word: &'static str)
        ensures
            word@ == self.word(),
    {
        match self {
            TlsMode::Plain => "none",
            TlsMode::Starttls => "starttls",
            TlsMode::Implicit => "implicit",
        }
    }
}

impl Default for TlsMode {
    /// A binding that names no mode is secured throughout.
    fn default() -> (tls: TlsMode)
        ensures
            tls == TlsMode::Implicit,
    {
        TlsMode::Implicit
    }
}

/// Operator-facing spec of one binding, complete.
#[derive(Debug, Clone)]
pub struct EmailBackendSpec {
    /// The operation.
    pub op: EmailOp,
    /// SMTP (send) or IMAP (read) host.
    pub host: String,
    /// TCP port of the server.
    pub port: u16,
    /// Transport security.
    pub tls: TlsMode,
    /// Login user. Required for `read`; empty for a `send` without authentication.
    pub username: String,
    /// Login password, resolved when the configuration was loaded.
    pub password: String,
    /// `From` address, required for `send`.
    pub from: Option<String>,
    /// Mailbox to read. `read` only.
    pub mailbox: String,
    /// Max recent messages to return. `read` only.
    pub limit: usize,
    /// Per-call timeout (ms) for connect + the operation.
    pub timeout_ms: u64,
}

/// What the operator wrote of a spec: a field that was left out is `None`.
#[derive(Debug, Clone)]
pub struct EmailSpecFields {
    pub op: Option<EmailOp>,
    pub host: String,
    pub port: u16,
    pub tls: Option<TlsMode>,
    pub username: Option<String>,
    pub password: Option<String>,
    pub from: Option<String>,
    pub mailbox: Option<String>,
    pub limit: Option<usize>,
    pub timeout_ms: Option<u64>,
}

/// What an [`EmailBackendSpec`] says.
pub ghost struct SpecView {
    pub op: EmailOp,
    pub host: Seq<char>,
    pub port: u16,
    pub tls: TlsMode,
    pub username: Seq<char>,
    pub password: Seq<char>,
    pub from: Option<Seq<char>>,
    pub mailbox: Seq<char>,
    pub limit: usize,
    pub timeout_ms: u64,
}

/// An optional text.
pub open spec fn text_view(text: Option<String>) -> Option<Seq<char>> {
    match text {
        Some(t) => Some(t@),
        None => None,
    }
}

/// An optional text, with what stands for it where there is none.
pub open spec fn text_or(text: Option<String>, otherwise: Seq<char>) -> Seq<char> {
    match text {
        Some(t) => t@,
        None => otherwise,
    }
}

impl View for EmailBackendSpec {
    type V = SpecView;

    open spec fn view(&self) -> SpecView {
        SpecView {
            op: self.op,
            host: self.host@,
            port: self.port,
            tls: self.tls,
            username: self.username@,
            password: self.password@,
            from: text_view(self.from),
            mailbox: self.mailbox@,
            limit: self.limit,
            timeout_ms: self.timeout_ms,
        }
    }
}

impl EmailSpecFields {
    /// What the operator's fields say, with the defaults for those left out.
    pub open spec fn completed(self) -> SpecView {
        SpecView {
            op: match self.op {
                Some(op) => op,
                None => EmailOp::Send,
            },
            host: self.host@,
            port: self.port,
            tls: match self.tls {
                Some(tls) => tls,
                None => TlsMode::Implicit,
            },
            username: text_or(self.username, Seq::empty()),
            password: text_or(self.password, Seq::empty()),
            from: text_view(self.from),
            mailbox: text_or(self.mailbox, "INBOX"@),
            limit: match self.limit {
                Some(limit) => limit,
                None => 10,
            },
            timeout_ms: match self.timeout_ms {
                Some(timeout_ms) => timeout_ms,
                None => 15_000,
            },
        }
    }
}

impl EmailBackendSpec {
    /// Completes what the operator wrote with the defaults.
    pub fn from_fields(fields: EmailSpecFields) -> (spec: EmailBackendSpec)
        ensures
            spec@ == fields.completed(),
    {
        EmailBackendSpec {
            op: match fields.op {
                Some(op) => op,
                None => EmailOp::default(),
            },
            host: fields.host,
            port: fields.port,
            tls: match fields.tls {
                Some(tls) => tls,
                None => TlsMode::default(),
            },
            username: match fields.username {
                Some(username) => username,
                None => String::new(),
            },
            password: match fields.password {
                Some(password) => password,
                None => String::new(),
            },
            from: fields.from,
            mailbox: match fields.mailbox {
                Some(mailbox) => mailbox,
                None => default_mailbox(),
            },
            limit: match fields.limit {
                Some(limit) => limit,
                None => default_limit(),
            },
            timeout_ms: match fields.timeout_ms {
                Some(timeout_ms) => timeout_ms,
                None => default_timeout_ms(),
            },
        }
    }
}

/// The mailbox that is read where none is named.
pub fn default_mailbox() -> (mailbox: String)
    ensures
        mailbox@ == "INBOX"@,
{
    "INBOX".to_owned()
}

/// The number of messages that are returned where none is named.
pub fn default_limit() -> (limit: usize)
    ensures
        limit == 10,
{
    10
}

/// The timeout where none is named.
pub fn default_timeout_ms() -> (timeout_ms: u64)
    ensures
        timeout_ms == 15_000,
{
    15_000
}

/// The secure default: a spec that leaves `tls` out is read as one that asks for TLS on the whole
/// connection, and a plaintext connection is used only where the operator wrote it.
pub proof fn plaintext_is_never_a_default(fields: EmailSpecFields)
    ensures
        fields.tls is None ==> fields.completed().tls == TlsMode::Implicit,
        fields.completed().tls == TlsMode::Plain <==> fields.tls == Some(TlsMode::Plain),
{
}

/// What the operator wrote is kept: completing a spec changes no field that was given.
pub proof fn completion_keeps_what_is_given(fields: EmailSpecFields)
    ensures
        fields.completed().host == fields.host@,
        fields.completed().port == fields.port,
        fields.op matches Some(op) ==> fields.completed().op == op,
        fields.tls matches Some(tls) ==> fields.completed().tls == tls,
        fields.username matches Some(username) ==> fields.completed().username == username@,
        fields.password matches Some(password) ==> fields.completed().password == password@,
        fields.completed().from == text_view(fields.from),
        fields.mailbox matches Some(mailbox) ==> fields.completed().mailbox == mailbox@,
        fields.limit matches Some(limit) ==> fields.completed().limit == limit,
        fields.timeout_ms matches Some(timeout_ms) ==> fields.completed().timeout_ms == timeout_ms,
{
}

/// The words for operations tell them apart.
pub proof fn words_tell_operations_apart(a: EmailOp, b: EmailOp)
    ensures
        a.word() == b.word() <==> a == b,
{
    reveal_strlit("send");
    reveal_strlit("read");
    assert("send"@[0] != "read"@[0]);
}

/// The words for modes tell them apart.
pub proof fn words_tell_modes_apart(a: TlsMode, b: TlsMode)
    ensures
        a.word() == b.word() <==> a == b,
{
    reveal_strlit("none");
    reveal_strlit("starttls");
    reveal_strlit("implicit");
    assert("none"@.len() == 4 && "starttls"@[0] != "implicit"@[0]);
}

} // verus!
