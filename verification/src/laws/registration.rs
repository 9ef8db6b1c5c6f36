//! Laws of registration: which bindings are accepted, and what is kept of them.
use crate::laws::strings::leading_white_space;
use crate::plugin::{call_of, named, names_are_distinct, profiles_by_name};
use crate::plugin::{registered, registration_refusal};
use crate::backend::BackendRequest;
use crate::call::{arguments_of, payload_json, tool_name_of};
use crate::profile::{valid_profile, EmailProfile, ProfileView};
use crate::text::{is_blank, is_white_space, without_leading_space};
use crate::types::{EmailOp, EmailSpecFields, TlsMode};
use crate::wire::parsed_json;
use vstd::prelude::*;

verus! {

/// What an operator wrote, or nothing.
pub open spec fn written(text: Option<String>) -> Seq<char> {
    match text {
        Some(t) => t@,
        None => Seq::empty(),
    }
}

/// Whether a text holds something other than white space.
pub open spec fn says_something(text: Seq<char>) -> bool {
    exists|i: int| 0 <= i < text.len() && !is_white_space(#[trigger] text[i])
}

/// Whether a text is a reference to a per-caller credential, from the position `at` on.
pub open spec fn refers_to_a_credential(text: Seq<char>, at: int) -> bool {
    0 <= at && at + 7 <= text.len() && text.subrange(at, at + 7) == "cred://"@
}

/// Whether a host, behind any white space, is a reference to a per-caller credential.
pub open spec fn hides_a_credential(host: Seq<char>) -> bool {
    exists|at: int| #[trigger]
        refers_to_a_credential(host, at) && forall|i: int|
            0 <= i < at ==> is_white_space(#[trigger] host[i])
}

/// The operation that a spec asks for: to send, where it names none.
pub open spec fn operation(fields: EmailSpecFields) -> EmailOp {
    match fields.op {
        Some(op) => op,
        None => EmailOp::Send,
    }
}

proof fn lemma_blank(text: Seq<char>)
    ensures
        is_blank(text) <==> !says_something(text),
{
}

proof fn lemma_credential(text: Seq<char>, at: int)
    requires
        0 <= at <= text.len(),
    ensures
        crate::text::begins_with(text.skip(at), "cred://"@) <==> refers_to_a_credential(text, at),
{
    reveal_strlit("cred://");
    assert("cred://"@.len() == 7);
    if at + 7 <= text.len() {
        assert(text.skip(at).subrange(0, 7) =~= text.subrange(at, at + 7));
    }
}

proof fn lemma_hidden_credential(host: Seq<char>)
    ensures
        crate::text::begins_with(without_leading_space(host), "cred://"@) <==> hides_a_credential(
            host,
        ),
{
    reveal_strlit("cred://");
    leading_white_space(host);
    let rest = without_leading_space(host);
    let start = host.len() - rest.len();
    lemma_credential(host, start);
    if hides_a_credential(host) {
        let at = choose|at: int| #[trigger]
            refers_to_a_credential(host, at) && forall|i: int|
                0 <= i < at ==> is_white_space(#[trigger] host[i]);
        assert(host.subrange(at, at + 7)[0] == 'c');
        assert(host[at] == 'c');
        if start < at {
            assert(host[start] == rest[0]);
        }
        if start > at {
            assert(is_white_space(host[at]));
        }
    }
}

/// Which specs are accepted: those with a host, a port and time to work in, without a per-caller
/// credential for a password or a host; that name a sender where they send; and that name a user and ask
/// for no upgrade of the connection where they read.
pub proof fn which_specs_are_accepted(fields: EmailSpecFields)
    ensures
        registration_refusal(Ok(fields)) is None <==> {
            &&& says_something(fields.host@)
            &&& fields.port != 0
            &&& fields.timeout_ms != Some(0u64)
            &&& !refers_to_a_credential(written(fields.password), 0)
            &&& !hides_a_credential(fields.host@)
            &&& operation(fields) == EmailOp::Send ==> says_something(written(fields.from))
            &&& operation(fields) == EmailOp::Read ==> {
                &&& says_something(written(fields.username))
                &&& fields.tls != Some(TlsMode::Starttls)
            }
        },
{
    lemma_blank(fields.host@);
    lemma_blank(written(fields.from));
    lemma_blank(written(fields.username));
    lemma_credential(written(fields.password), 0);
    assert(written(fields.password).skip(0) =~= written(fields.password));
    lemma_hidden_credential(fields.host@);
}

/// What holds of every profile that a call runs with.
pub proof fn what_valid_profiles_are(profile: ProfileView)
    ensures
        valid_profile(profile) <==> {
            &&& says_something(profile.host)
            &&& profile.port != 0
            &&& profile.timeout_ms != 0
            &&& !refers_to_a_credential(profile.password, 0)
            &&& !hides_a_credential(profile.host)
            &&& profile.op == EmailOp::Send ==> says_something(profile.from)
            &&& profile.op == EmailOp::Read ==> {
                &&& says_something(profile.username)
                &&& profile.tls != TlsMode::Starttls
            }
        },
{
    lemma_blank(profile.host);
    lemma_blank(profile.from);
    lemma_blank(profile.username);
    lemma_credential(profile.password, 0);
    assert(profile.password.skip(0) =~= profile.password);
    lemma_hidden_credential(profile.host);
}

/// What a refused spec is told: the first of the rules that it breaks, and the words that a spec that
/// could not be read failed with.
pub proof fn what_refused_specs_are_told(fields: EmailSpecFields, words: String)
    ensures
        registration_refusal(Err(words)) == Some("Email binding spec: "@ + words@),
        ({
            let told = registration_refusal(Ok(fields));
            let hosted = says_something(fields.host@);
            let open = hosted && fields.port != 0;
            let timely = open && fields.timeout_ms != Some(0u64);
            let keyed = timely && !refers_to_a_credential(written(fields.password), 0);
            let sound = keyed && !hides_a_credential(fields.host@);
            let reads = operation(fields) == EmailOp::Read;
            let named = says_something(written(fields.username));
            &&& !hosted ==> told == Some("host must not be empty"@)
            &&& hosted && !open ==> told == Some("port must be greater than 0"@)
            &&& open && !timely ==> told == Some("timeout_ms must be greater than 0"@)
            &&& timely && !keyed ==> told == Some(
                "password must not be a cred:// URI — per-caller credentials are unsupported; use ${env.X} / vault:// (resolved at config load)"@,
            )
            &&& keyed && !sound ==> told == Some(
                "host is a transport-only field and must not be a cred:// URI"@,
            )
            &&& sound && !reads && !says_something(written(fields.from)) ==> told == Some(
                "op 'send' requires a 'from' address"@,
            )
            &&& sound && reads && !named ==> told == Some(
                "op 'read' requires a username (IMAP login)"@,
            )
            &&& sound && reads && named && fields.tls == Some(TlsMode::Starttls) ==> told == Some(
                "op 'read' does not support tls 'starttls' in v1 — use 'implicit' or 'none'"@,
            )
        }),
{
    lemma_blank(fields.host@);
    lemma_blank(written(fields.from));
    lemma_blank(written(fields.username));
    lemma_credential(written(fields.password), 0);
    assert(written(fields.password).skip(0) =~= written(fields.password));
    lemma_hidden_credential(fields.host@);
}

/// What is kept of an accepted spec: everything that the operator wrote and the operation needs, under its
/// name. What was left out is filled in: to send, TLS throughout, no login, the mailbox `INBOX`, ten
/// messages and fifteen seconds.
pub proof fn what_is_kept_of_a_spec(
    bindings: Map<Seq<char>, ProfileView>,
    backend_name: Seq<char>,
    fields: EmailSpecFields,
)
    requires
        registration_refusal(Ok(fields)) is None,
    ensures
        registered(bindings, backend_name, Ok(fields)).dom() == bindings.dom().insert(backend_name),
        ({
            let kept = registered(bindings, backend_name, Ok(fields))[backend_name];
            &&& kept.op == operation(fields)
            &&& kept.host == fields.host@
            &&& kept.port == fields.port
            &&& fields.tls matches Some(tls) ==> kept.tls == tls
            &&& fields.tls is None ==> kept.tls == TlsMode::Implicit
            &&& kept.username == written(fields.username)
            &&& kept.password == written(fields.password)
            &&& fields.limit matches Some(limit) ==> kept.limit == limit
            &&& fields.limit is None ==> kept.limit == 10
            &&& fields.timeout_ms matches Some(timeout_ms) ==> kept.timeout_ms == timeout_ms
            &&& fields.timeout_ms is None ==> kept.timeout_ms == 15_000
            &&& kept.op == EmailOp::Send ==> kept.from == written(fields.from)
            &&& kept.op == EmailOp::Send ==> kept.mailbox == Seq::<char>::empty()
            &&& kept.op == EmailOp::Read ==> kept.from == Seq::<char>::empty()
            &&& kept.op == EmailOp::Read ==> (fields.mailbox matches Some(m) ==> kept.mailbox == m@)
            &&& kept.op == EmailOp::Read ==> (fields.mailbox is None ==> kept.mailbox == "INBOX"@)
        }),
{
    assert(registered(bindings, backend_name, Ok(fields)).dom() =~= bindings.dom().insert(
        backend_name,
    ));
}

/// Profiles are found by their names: there is one exactly where an entry has the name, and where no two
/// have it, it is that entry's.
pub proof fn profiles_are_found_by_their_names(
    entries: Seq<(String, EmailProfile)>,
    name: Seq<char>,
    at: int,
)
    requires
        names_are_distinct(entries),
    ensures
        profiles_by_name(entries).contains_key(name) <==> exists|i: int|
            0 <= i < entries.len() && (#[trigger] entries[i]).0@ == name,
        0 <= at < entries.len() && entries[at].0@ == name ==> profiles_by_name(entries)[name]
            == entries[at].1@,
        forall|i: int, j: int|
            0 <= i < j < entries.len() ==> (#[trigger] entries[i]).0@ != (#[trigger] entries[j]).0@,
{
    if exists|i: int| 0 <= i < entries.len() && (#[trigger] entries[i]).0@ == name {
        let i = choose|i: int| 0 <= i < entries.len() && (#[trigger] entries[i]).0@ == name;
        assert(named(entries, name, i));
    }
    if profiles_by_name(entries).contains_key(name) {
        let i = choose|i: int| named(entries, name, i);
        assert(entries[i].0@ == name);
    }
    if 0 <= at < entries.len() && entries[at].0@ == name {
        assert(named(entries, name, at));
    }
    assert forall|i: int, j: int| 0 <= i < j < entries.len() implies (#[trigger] entries[i]).0@ != (
    #[trigger] entries[j]).0@ by {
        if entries[i].0@ == entries[j].0@ {
            assert(named(entries, entries[i].0@, i));
            assert(named(entries, entries[i].0@, j));
        }
    }
}

/// What is not accepted is not kept, and what is kept for other names stays.
pub proof fn what_stays(
    bindings: Map<Seq<char>, ProfileView>,
    backend_name: Seq<char>,
    spec: Result<EmailSpecFields, String>,
    other: Seq<char>,
)
    ensures
        registration_refusal(spec) is Some ==> registered(bindings, backend_name, spec) == bindings,
        other != backend_name && bindings.contains_key(other) ==> registered(
            bindings,
            backend_name,
            spec,
        ).contains_key(other) && registered(bindings, backend_name, spec)[other] == bindings[other],
{
}

/// A call is one of the binding that it names, with the profile that was registered for it; its tool name
/// comes from the headers, and its arguments from the payload.
pub proof fn what_a_call_is_made_of(
    backend_name: Seq<char>,
    profile: ProfileView,
    request: BackendRequest,
)
    ensures
        ({
            let call = call_of(backend_name, profile, request);
            &&& call.backend_name == backend_name
            &&& call.profile == profile
            &&& call.tool_name == tool_name_of(request.headers@, backend_name)
            &&& call.arguments == arguments_of(
                payload_json(request.payload@, parsed_json(request.payload@)),
            )
        }),
{
}

} // verus!
