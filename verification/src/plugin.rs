//! The plugin: the bindings that were registered, and the calls of them.
use crate::backend::{BackendError, BackendRequest, ErrorView};
use crate::call::{arguments_of, payload_json, tool_name_of, CallView};
use crate::call::{read_arguments, tool_name, Call};
use crate::json::{Json, JsonObject, JsonView};
use crate::profile::{accepted_exactly_where_valid, profile_of, spec_refusal, valid_profile};
use crate::profile::{profile_from_spec, EmailProfile, ProfileView};
use crate::text::{begins_with, without_leading_space};
use crate::text::{joined, same_text};
use crate::types::{plaintext_is_never_a_default, EmailBackendSpec, EmailSpecFields, TlsMode};
use crate::wire::{map_members, parsed_json, to_map};
use serde_json::Value;
use vstd::prelude::*;

verus! {

/// Whether the entry at `i` is of that name.
pub open spec fn named(entries: Seq<(String, EmailProfile)>, name: Seq<char>, i: int) -> bool {
    0 <= i < entries.len() && entries[i].0@ == name
}

/// Whether no two entries are of one name.
pub open spec fn names_are_distinct(entries: Seq<(String, EmailProfile)>) -> bool {
    forall|name: Seq<char>, i: int, j: int|
        #[trigger] named(entries, name, i) && #[trigger] named(entries, name, j) ==> i == j
}

/// Whether every profile keeps to the rules.
pub open spec fn all_valid(entries: Seq<(String, EmailProfile)>) -> bool {
    forall|i: int| 0 <= i < entries.len() ==> valid_profile((#[trigger] entries[i]).1@)
}

/// The profiles, by their names.
pub open spec fn profiles_by_name(entries: Seq<(String, EmailProfile)>) -> Map<
    Seq<char>,
    ProfileView,
> {
    Map::new(
        |name: Seq<char>| exists|i: int| named(entries, name, i),
        |name: Seq<char>| entries[choose|i: int| named(entries, name, i)].1@,
    )
}

/// The bindings of kind `email` that were registered.
///
/// There is one profile to a name, and each keeps to the rules for profiles.
pub struct EmailBackendPlugin {
    profiles: Vec<(String, EmailProfile)>,
}

impl View for EmailBackendPlugin {
    type V = Map<Seq<char>, ProfileView>;

    closed spec fn view(&self) -> Map<Seq<char>, ProfileView> {
        profiles_by_name(self.profiles@)
    }
}

/// Why a binding is not registered, where it is not: its spec could not be read, or is refused.
pub open spec fn registration_refusal(spec: Result<EmailSpecFields, String>) -> Option<Seq<char>> {
    match spec {
        Ok(fields) => spec_refusal(fields.completed()),
        Err(words) => Some("Email binding spec: "@ + words@),
    }
}

/// The bindings after one was to be registered: with it, where nothing is against it; as they were
/// otherwise.
pub open spec fn registered(
    bindings: Map<Seq<char>, ProfileView>,
    backend_name: Seq<char>,
    spec: Result<EmailSpecFields, String>,
) -> Map<Seq<char>, ProfileView> {
    match spec {
        Ok(fields) if spec_refusal(fields.completed()) is None => bindings.insert(
            backend_name,
            profile_of(fields.completed()),
        ),
        _ => bindings,
    }
}

/// The call that a request makes of a binding.
pub open spec fn call_of(
    backend_name: Seq<char>,
    profile: ProfileView,
    request: BackendRequest,
) -> CallView {
    CallView {
        backend_name,
        tool_name: tool_name_of(request.headers@, backend_name),
        profile,
        arguments: arguments_of(payload_json(request.payload@, parsed_json(request.payload@))),
    }
}

impl EmailBackendPlugin {
    /// One profile to a name, and each keeps to the rules.
    #[verifier::type_invariant]
    closed spec fn well_formed(self) -> bool {
        names_are_distinct(self.profiles@) && all_valid(self.profiles@)
    }

    /// A plugin without bindings.
    pub fn new() -> (plugin: EmailBackendPlugin)
        ensures
            plugin@ == Map::<Seq<char>, ProfileView>::empty(),
    {
        let plugin = EmailBackendPlugin { profiles: Vec::new() };
        assert(plugin@ =~= Map::empty()) by {
            assert forall|name: Seq<char>| !plugin@.contains_key(name) by {
                assert(forall|i: int| !named(plugin.profiles@, name, i));
            }
        }
        plugin
    }

    /// The kind of binding that the plugin serves.
    pub fn kind(&self) -> (kind: &'static str)
        ensures
            kind@ == "email"@,
    {
        "email"
    }

    /// The entry of that name.
    fn find(&self, name: &str) -> (found: Option<usize>)
        ensures
            match found {
                Some(i) => named(self.profiles@, name@, i as int),
                None => forall|i: int| !named(self.profiles@, name@, i),
            },
    {
        let mut i: usize = 0;
        while i < self.profiles.len()
            invariant
                i <= self.profiles@.len(),
                forall|j: int| 0 <= j < i ==> !named(self.profiles@, name@, j),
            decreases self.profiles@.len() - i,
        {
            if same_text(self.profiles[i].0.as_str(), name) {
                return Some(i);
            }
            i += 1;
        }
        None
    }

    /// The profile of that name.
    pub fn profile(&self, backend_name: &str) -> (profile: Option<&EmailProfile>)
        ensures
            match profile {
                Some(p) => self@.contains_key(backend_name@) && p@ == self@[backend_name@]
                    && valid_profile(p@),
                None => !self@.contains_key(backend_name@),
            },
    {
        proof {
            use_type_invariant(self);
        }
        match self.find(backend_name) {
            Some(i) => {
                assert(named(self.profiles@, backend_name@, i as int));
                Some(&self.profiles[i].1)
            },
            None => None,
        }
    }

    /// Makes `profile` the one of that name, in place of an earlier one.
    fn put(&mut self, backend_name: &str, profile: EmailProfile)
        requires
            valid_profile(profile@),
        ensures
            final(self)@ == old(self)@.insert(backend_name@, profile@),
    {
        proof {
            use_type_invariant(&*self);
        }
        let ghost before = self.profiles@;
        let found = self.find(backend_name);
        let mut profiles: Vec<(String, EmailProfile)> = Vec::new();
        std::mem::swap(&mut profiles, &mut self.profiles);
        let ghost at: int = match found {
            Some(i) => i as int,
            None => before.len() as int,
        };
        match found {
            Some(i) => {
                profiles.set(i, (backend_name.to_owned(), profile));
            },
            None => {
                profiles.push((backend_name.to_owned(), profile));
            },
        }
        proof {
            lemma_put(before, profiles@, backend_name@, profile@, at);
        }
        self.profiles = profiles;
    }

    /// Registers a binding under a name: in place of the one that had the name before, where there
    /// was one. A spec that could not be read, for the reason given, or that is refused leaves the
    /// bindings as they were.
    pub fn register_profile(
        &mut self,
        backend_name: &str,
        spec: Result<EmailSpecFields, String>,
    ) -> (result: Result<(), BackendError>)
        ensures
            final(self)@ == registered(old(self)@, backend_name@, spec),
            result is Ok <==> registration_refusal(spec) is None,
            result matches Err(error) ==> error@ == (ErrorView::InvalidSpec {
                message: registration_refusal(spec)->0,
            }),
    {
        let fields = match spec {
            Ok(fields) => fields,
            Err(words) => {
                return Err(
                    BackendError::InvalidSpec {
                        message: joined("Email binding spec: ", words.as_str()),
                    },
                );
            },
        };
        proof {
            accepted_exactly_where_valid(fields.completed());
        }
        match profile_from_spec(EmailBackendSpec::from_fields(fields)) {
            Ok(profile) => {
                self.put(backend_name, profile);
                Ok(())
            },
            Err(message) => Err(BackendError::InvalidSpec { message }),
        }
    }

    /// Begins a call of the binding of that name.
    pub fn begin(&self, backend_name: &str, request: &BackendRequest) -> (call: Result<
        Call,
        BackendError,
    >)
        ensures
            match call {
                Ok(c) => {
                    &&& self@.contains_key(backend_name@)
                    &&& c@ == call_of(backend_name@, self@[backend_name@], *request)
                    &&& valid_profile(c@.profile)
                },
                Err(error) => {
                    &&& !self@.contains_key(backend_name@)
                    &&& error@ == (ErrorView::ProfileNotFound { backend_name: backend_name@ })
                },
            },
    {
        match self.profile(backend_name) {
            Some(profile) => Ok(
                Call {
                    backend_name: backend_name.to_owned(),
                    tool_name: tool_name(&request.headers, backend_name),
                    profile: profile.clone(),
                    arguments: read_arguments(request.payload.as_slice()),
                },
            ),
            None => Err(BackendError::ProfileNotFound { backend_name: backend_name.to_owned() }),
        }
    }

    /// What is noted of every call in the gateway's own audit records.
    pub fn audit_metadata(_backend_name: &str) -> (metadata: serde_json::Map<String, Value>)
        ensures
            map_members(metadata) == map!["email.transport"@ => JsonView::Str("plugin"@)],
    {
        let mut members = JsonObject::new();
        members.insert("email.transport", Json::Str("plugin".to_owned()));
        to_map(&members)
    }
}

impl Default for EmailBackendPlugin {
    fn default() -> (plugin: EmailBackendPlugin)
        ensures
            plugin@ == Map::<Seq<char>, ProfileView>::empty(),
    {
        EmailBackendPlugin::new()
    }
}

/// Entries that differ at one place, or by one at the end, give the same profiles but for the one of
/// that name.
proof fn lemma_put(
    before: Seq<(String, EmailProfile)>,
    after: Seq<(String, EmailProfile)>,
    name: Seq<char>,
    profile: ProfileView,
    at: int,
)
    requires
        names_are_distinct(before),
        all_valid(before),
        valid_profile(profile),
        0 <= at < after.len(),
        after[at].0@ == name,
        after[at].1@ == profile,
        after.len() == if at < before.len() {
            before.len()
        } else {
            before.len() + 1
        },
        at <= before.len(),
        forall|i: int| 0 <= i < before.len() && i != at ==> after[i] == #[trigger] before[i],
        forall|i: int| #[trigger] named(before, name, i) ==> i == at,
        at < before.len() ==> named(before, name, at),
    ensures
        names_are_distinct(after),
        all_valid(after),
        profiles_by_name(after) == profiles_by_name(before).insert(name, profile),
{
    assert forall|n: Seq<char>, i: int| #[trigger] named(after, n, i) implies (i == at && n == name)
        || (i != at && n != name && named(before, n, i)) by {
        if i != at {
            assert(after[i] == before[i]);
            assert(named(before, n, i));
        }
    }
    assert(named(after, name, at));
    assert forall|n: Seq<char>, i: int| n != name && #[trigger] named(before, n, i) implies named(
        after,
        n,
        i,
    ) by {
        assert(i != at);
        assert(after[i] == before[i]);
    }
    assert forall|i: int| 0 <= i < after.len() implies valid_profile((#[trigger] after[i]).1@) by {
        if i != at {
            assert(after[i] == before[i]);
        }
    }
    assert forall|n: Seq<char>| n != name && profiles_by_name(before).contains_key(n) implies {
        &&& profiles_by_name(after).contains_key(n)
        &&& #[trigger] profiles_by_name(after)[n] == profiles_by_name(before)[n]
    } by {
        let i = choose|i: int| named(before, n, i);
        assert(named(after, n, i));
        let j = choose|j: int| named(after, n, j);
        assert(named(after, n, j));
        assert(named(before, n, j));
        assert(after[i] == before[i]);
    }
    assert(profiles_by_name(after) =~= profiles_by_name(before).insert(name, profile));
}

// ------------------------------------------------------------------------------------ laws

/// Whether every binding keeps to the rules.
pub open spec fn bindings_valid(bindings: Map<Seq<char>, ProfileView>) -> bool {
    forall|name: Seq<char>| #[trigger]
        bindings.contains_key(name) ==> valid_profile(bindings[name])
}

/// The rules are kept by every registration: where all bindings keep to them, all do afterwards.
pub proof fn registration_keeps_rules(
    bindings: Map<Seq<char>, ProfileView>,
    backend_name: Seq<char>,
    spec: Result<EmailSpecFields, String>,
)
    requires
        bindings_valid(bindings),
    ensures
        bindings_valid(registered(bindings, backend_name, spec)),
{
    if let Ok(fields) = spec {
        accepted_exactly_where_valid(fields.completed());
    }
}

/// Registering a binding touches no binding of another name, and a spec that is refused touches none.
pub proof fn registration_touches_one_name(
    bindings: Map<Seq<char>, ProfileView>,
    backend_name: Seq<char>,
    spec: Result<EmailSpecFields, String>,
    other: Seq<char>,
)
    ensures
        other != backend_name ==> {
            &&& registered(bindings, backend_name, spec).contains_key(other)
                <==> bindings.contains_key(other)
            &&& registered(bindings, backend_name, spec)[other] == bindings[other]
        },
        registration_refusal(spec) is Some ==> registered(bindings, backend_name, spec) == bindings,
{
}

/// A binding that was accepted is there, with what its spec says, and in place of what had its name
/// before; what was registered under the name earlier leaves no trace.
pub proof fn registration_replaces(
    bindings: Map<Seq<char>, ProfileView>,
    backend_name: Seq<char>,
    earlier: Result<EmailSpecFields, String>,
    spec: Result<EmailSpecFields, String>,
)
    requires
        registration_refusal(spec) is None,
    ensures
        registered(bindings, backend_name, spec).contains_key(backend_name),
        registered(bindings, backend_name, spec)[backend_name] == profile_of(
            spec->Ok_0.completed(),
        ),
        registered(registered(bindings, backend_name, earlier), backend_name, spec) =~= registered(
            bindings,
            backend_name,
            spec,
        ),
{
}

/// Bindings of different names can be registered in either order.
pub proof fn registrations_commute(
    bindings: Map<Seq<char>, ProfileView>,
    a: Seq<char>,
    spec_a: Result<EmailSpecFields, String>,
    b: Seq<char>,
    spec_b: Result<EmailSpecFields, String>,
)
    requires
        a != b,
    ensures
        registered(registered(bindings, a, spec_a), b, spec_b) =~= registered(
            registered(bindings, b, spec_b),
            a,
            spec_a,
        ),
{
}

/// No per-caller credential gets in: a spec whose password, or whose host behind white space, is a
/// `cred://` URI is refused.
pub proof fn per_caller_credentials_are_refused(fields: EmailSpecFields)
    requires
        begins_with(fields.completed().password, "cred://"@) || begins_with(
            without_leading_space(fields.completed().host),
            "cred://"@,
        ),
    ensures
        registration_refusal(Ok(fields)) is Some,
{
}

/// Plaintext is the operator's choice: a binding that was accepted goes without TLS only where its
/// spec says so.
pub proof fn plaintext_only_where_asked_for(
    bindings: Map<Seq<char>, ProfileView>,
    backend_name: Seq<char>,
    fields: EmailSpecFields,
)
    requires
        registration_refusal(Ok(fields)) is None,
    ensures
        registered(bindings, backend_name, Ok(fields))[backend_name].tls == TlsMode::Plain
            <==> fields.tls == Some(TlsMode::Plain),
        fields.tls is None ==> registered(bindings, backend_name, Ok(fields))[backend_name].tls
            == TlsMode::Implicit,
{
    plaintext_is_never_a_default(fields);
}

} // verus!
