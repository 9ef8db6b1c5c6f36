//! Profiles: what is kept of a spec that was accepted.
use crate::text::{begins_with, is_blank, without_leading_space};
use crate::text::{blank, chars_of, starts_with, trim_start};
use crate::types::{EmailBackendSpec, EmailOp, SpecView, TlsMode};
use vstd::prelude::*;

verus! {

/// Per-binding email runtime. There is no persistent connection: each call makes its own.
pub struct EmailProfile {
    pub op: EmailOp,
    pub host: String,
    pub port: u16,
    pub tls: TlsMode,
    pub username: String,
    pub password: String,
    /// `From` address of what is sent; empty for a binding that reads.
    pub from: String,
    /// Mailbox that is read; empty for a binding that sends.
    pub mailbox: String,
    pub limit: usize,
    pub timeout_ms: u64,
}

/// What an [`EmailProfile`] says.
pub ghost struct ProfileView {
    pub op: EmailOp,
    pub host: Seq<char>,
    pub port: u16,
    pub tls: TlsMode,
    pub username: Seq<char>,
    pub password: Seq<char>,
    pub from: Seq<char>,
    pub mailbox: Seq<char>,
    pub limit: usize,
    pub timeout_ms: u64,
}

impl View for EmailProfile {
    type V = ProfileView;

    open spec fn view(&self) -> ProfileView {
        ProfileView {
            op: self.op,
            host: self.host@,
            port: self.port,
            tls: self.tls,
            username: self.username@,
            password: self.password@,
            from: self.from@,
            mailbox: self.mailbox@,
            limit: self.limit,
            timeout_ms: self.timeout_ms,
        }
    }
}

impl Clone for EmailProfile {
    fn clone(&self) -> (copy: EmailProfile)
        ensures
            copy@ == self@,
    {
        EmailProfile {
            op: self.op,
            host: self.host.clone(),
            port: self.port,
            tls: self.tls,
            username: self.username.clone(),
            password: self.password.clone(),
            from: self.from.clone(),
            mailbox: self.mailbox.clone(),
            limit: self.limit,
            timeout_ms: self.timeout_ms,
        }
    }
}

/// The sender that a spec names; empty where it names none.
pub open spec fn sender(spec: SpecView) -> Seq<char> {
    match spec.from {
        Some(from) => from,
        None => Seq::empty(),
    }
}

/// Why a spec is refused, where it is. The first rule that it breaks is named.
pub open spec fn spec_refusal(spec: SpecView) -> Option<Seq<char>> {
    if is_blank(spec.host) {
        Some("host must not be empty"@)
    } else if spec.port == 0 {
        Some("port must be greater than 0"@)
    } else if spec.timeout_ms == 0 {
        Some("timeout_ms must be greater than 0"@)
    } else if begins_with(spec.password, "cred://"@) {
        Some(
            "password must not be a cred:// URI — per-caller credentials are unsupported; use ${env.X} / vault:// (resolved at config load)"@,
        )
    } else if begins_with(without_leading_space(spec.host), "cred://"@) {
        Some("host is a transport-only field and must not be a cred:// URI"@)
    } else {
        match spec.op {
            EmailOp::Send => if is_blank(sender(spec)) {
                Some("op 'send' requires a 'from' address"@)
            } else {
                None
            },
            EmailOp::Read => if is_blank(spec.username) {
                Some("op 'read' requires a username (IMAP login)"@)
            } else if spec.tls == TlsMode::Starttls {
                Some(
                    "op 'read' does not support tls 'starttls' in v1 — use 'implicit' or 'none'"@,
                )
            } else {
                None
            },
        }
    }
}

/// What is kept of a spec: all of it, but for the sender where the binding reads and the mailbox
/// where it sends.
pub open spec fn profile_of(spec: SpecView) -> ProfileView {
    ProfileView {
        op: spec.op,
        host: spec.host,
        port: spec.port,
        tls: spec.tls,
        username: spec.username,
        password: spec.password,
        from: match spec.op {
            EmailOp::Send => sender(spec),
            EmailOp::Read => Seq::empty(),
        },
        mailbox: match spec.op {
            EmailOp::Send => Seq::empty(),
            EmailOp::Read => spec.mailbox,
        },
        limit: spec.limit,
        timeout_ms: spec.timeout_ms,
    }
}

/// What holds of every profile: there is a server to reach and time to do it, no per-caller
/// credential stands in it, a binding that sends has a sender, and one that reads has a user and
/// does not ask for an upgrade of its connection.
pub open spec fn valid_profile(profile: ProfileView) -> bool {
    &&& !is_blank(profile.host)
    &&& profile.port > 0
    &&& profile.timeout_ms > 0
    &&& !begins_with(profile.password, "cred://"@)
    &&& !begins_with(without_leading_space(profile.host), "cred://"@)
    &&& profile.op == EmailOp::Send ==> !is_blank(profile.from)
    &&& profile.op == EmailOp::Read ==> !is_blank(profile.username) && profile.tls
        != TlsMode::Starttls
}

/// Holds a spec to the rules, and keeps what is needed of it.
pub fn profile_from_spec(spec: EmailBackendSpec) -> (profile: Result<EmailProfile, String>)
    ensures
        match profile {
            Ok(p) => spec_refusal(spec@) is None && p@ == profile_of(spec@),
            Err(words) => spec_refusal(spec@) == Some(words@),
        },
{
    if blank(spec.host.as_str()) {
        return Err("host must not be empty".to_owned());
    }
    if spec.port == 0 {
        return Err("port must be greater than 0".to_owned());
    }
    if spec.timeout_ms == 0 {
        return Err("timeout_ms must be greater than 0".to_owned());
    }
    if starts_with(&chars_of(spec.password.as_str()), "cred://") {
        return Err(
            "password must not be a cred:// URI — per-caller credentials are unsupported; use ${env.X} / vault:// (resolved at config load)".to_owned(),
        );
    }
    if starts_with(&trim_start(spec.host.as_str()), "cred://") {
        return Err("host is a transport-only field and must not be a cred:// URI".to_owned());
    }
    let (from, mailbox) = match spec.op {
        EmailOp::Send => {
            let from = match spec.from {
                Some(from) => from,
                None => String::new(),
            };
            if blank(from.as_str()) {
                return Err("op 'send' requires a 'from' address".to_owned());
            }
            (from, String::new())
        },
        EmailOp::Read => {
            if blank(spec.username.as_str()) {
                return Err("op 'read' requires a username (IMAP login)".to_owned());
            }
            if spec.tls == TlsMode::Starttls {
                return Err(
                    "op 'read' does not support tls 'starttls' in v1 — use 'implicit' or 'none'".to_owned(),
                );
            }
            (String::new(), spec.mailbox)
        },
    };
    Ok(
        EmailProfile {
            op: spec.op,
            host: spec.host,
            port: spec.port,
            tls: spec.tls,
            username: spec.username,
            password: spec.password,
            from,
            mailbox,
            limit: spec.limit,
            timeout_ms: spec.timeout_ms,
        },
    )
}

/// The rules are exactly what a profile is held to: a spec is accepted if and only if what would be
/// kept of it is a valid profile.
pub proof fn accepted_exactly_where_valid(spec: SpecView)
    ensures
        spec_refusal(spec) is None <==> valid_profile(profile_of(spec)),
{
}

} // verus!
