//! Laws of reading: what is asked of a server, in which order, and what is handed over.
use crate::failure::FailureView;
use crate::imap::{after, event_fits, next_action, next_read, parsed_server_name, possible, received};
use crate::imap::{finish_hands_over_what_came, sequence_text, started};
use crate::imap::{ActionView, EventView, ReadStage, ReadView};
use crate::json::JsonView;
use crate::laws::strings::{is_numeral, numbers_are_written_as_their_numerals, numeral_value};
use crate::profile::ProfileView;
use crate::types::TlsMode;
use vstd::prelude::*;

verus! {

// ------------------------------------------------------------------------ what is fetched

/// Whether a text is the set of messages from `first` to `last` in the notation of IMAP: the numeral of
/// the one, a colon, and the numeral of the other.
pub open spec fn denotes(text: Seq<char>, first: nat, last: nat) -> bool {
    exists|left: Seq<char>, right: Seq<char>|
        {
            &&& text == #[trigger] (left + seq![':'] + right)
            &&& is_numeral(left)
            &&& is_numeral(right)
            &&& numeral_value(left) == first
            &&& numeral_value(right) == last
        }
}

/// A range is written as the set of the messages in it.
pub proof fn ranges_are_written_in_full(first: u32, last: u32)
    ensures
        denotes(sequence_text(first, last), first as nat, last as nat),
{
    reveal_strlit(":");
    let left = crate::text::decimal(first as nat);
    let right = crate::text::decimal(last as nat);
    numbers_are_written_as_their_numerals(first as nat);
    numbers_are_written_as_their_numerals(last as nat);
    assert(":"@ =~= seq![':']);
    assert(sequence_text(first, last) =~= left + seq![':'] + right);
}

/// A set stands for one range only: the numerals of a text that denotes one can be read in one way.
pub proof fn ranges_are_read_in_one_way(text: Seq<char>, a: nat, b: nat, c: nat, d: nat)
    requires
        denotes(text, a, b),
        denotes(text, c, d),
    ensures
        a == c,
        b == d,
{
    let (l1, r1) = choose|left: Seq<char>, right: Seq<char>|
        {
            &&& text == #[trigger] (left + seq![':'] + right)
            &&& is_numeral(left)
            &&& is_numeral(right)
            &&& numeral_value(left) == a
            &&& numeral_value(right) == b
        };
    let (l2, r2) = choose|left: Seq<char>, right: Seq<char>|
        {
            &&& text == #[trigger] (left + seq![':'] + right)
            &&& is_numeral(left)
            &&& is_numeral(right)
            &&& numeral_value(left) == c
            &&& numeral_value(right) == d
        };
    assert(text[l1.len() as int] == ':' && text[l2.len() as int] == ':');
    if l1.len() < l2.len() {
        assert(text[l1.len() as int] == l2[l1.len() as int]);
    }
    if l2.len() < l1.len() {
        assert(text[l2.len() as int] == l1[l2.len() as int]);
    }
    assert(l1 =~= text.take(l1.len() as int));
    assert(l2 =~= text.take(l1.len() as int));
    assert(r1 =~= text.skip(l1.len() as int + 1));
    assert(r2 =~= text.skip(l1.len() as int + 1));
}

/// How many messages are asked for: once a mailbox with `exists` messages is selected, the last `limit` of
/// them are, or all where there are no more, up to the last and with what leaves them unseen; where that
/// is none, the conversation is over.
pub proof fn the_last_messages_are_asked_for(read: ReadView, exists: u32)
    ensures
        ({
            let limit = read.profile.limit as int;
            let count = if exists < limit {
                exists as int
            } else {
                limit
            };
            match next_action(read, EventView::Selected { exists }) {
                ActionView::Fetch { sequence, items } => {
                    &&& count > 0
                    &&& denotes(sequence, (exists - count + 1) as nat, exists as nat)
                    &&& items == "(ENVELOPE INTERNALDATE BODY.PEEK[TEXT])"@
                },
                ActionView::Logout => count == 0,
                _ => false,
            }
        }),
{
    let limit = read.profile.limit;
    if exists > 0 && limit > 0 {
        let first: u32 = if limit >= exists {
            1
        } else {
            (exists - limit + 1) as u32
        };
        ranges_are_written_in_full(first, exists);
    }
}

// ----------------------------------------------------------------------- how it is come by

/// The way to the login: the server of the profile is connected to first. On a plaintext connection the
/// login follows at once; where TLS is asked for, the handshake comes before it, with a server that
/// proves to be the one that the host was read as.
pub proof fn the_way_to_the_login(profile: ProfileView)
    ensures
        ({
            let login = ActionView::Login {
                username: profile.username,
                password: profile.password,
            };
            let at = |stage: ReadStage| ReadView { stage, ..started(profile) };
            &&& started(profile).profile == profile
            &&& started(profile).stage == ReadStage::Connect
            &&& started(profile).messages == Seq::<JsonView>::empty()
            &&& profile.tls == TlsMode::Plain ==> next_action(started(profile), EventView::Done)
                == login
            &&& profile.tls == TlsMode::Implicit ==> next_action(started(profile), EventView::Done)
                == ActionView::ConfigureTls
            &&& parsed_server_name(profile.host) matches Ok(name) ==> next_action(
                at(ReadStage::ConfigureTls),
                EventView::Done,
            ) == (ActionView::Handshake { server_name: name })
            &&& parsed_server_name(profile.host) matches Err(detail) ==> next_action(
                at(ReadStage::ConfigureTls),
                EventView::Done,
            ) == (ActionView::Fail {
                failure: FailureView {
                    message: "invalid IMAP server name '"@ + profile.host + "': "@ + detail,
                    redact: false,
                },
            })
            &&& next_action(at(ReadStage::Handshake), EventView::Done) == login
        }),
{
}

/// From the login to the end, whatever was received by then: the mailbox of the profile is selected; what
/// was asked for is waited for, message by message, until there are no more; then comes the logout, and
/// the messages are handed over whatever the server answers to that.
pub proof fn the_way_from_the_login(read: ReadView, message: JsonView, detail: Seq<char>)
    ensures
        ({
            let at = |stage: ReadStage| ReadView { stage, ..read };
            let finish = ActionView::Finish { messages: read.messages };
            &&& next_action(at(ReadStage::Login), EventView::Done) == (ActionView::Select {
                mailbox: read.profile.mailbox,
            })
            &&& next_action(at(ReadStage::Fetch), EventView::Done) == ActionView::Receive
            &&& next_action(at(ReadStage::Receive), EventView::Received { message })
                == ActionView::Receive
            &&& next_action(at(ReadStage::Receive), EventView::Exhausted) == ActionView::Logout
            &&& next_action(at(ReadStage::Logout), EventView::Done) == finish
            &&& next_action(at(ReadStage::Logout), EventView::Failed { detail }) == finish
        }),
{
}

/// A step that is asked for is the one whose outcome is waited for, and the profile is kept.
pub proof fn what_is_asked_for_is_waited_for(read: ReadView, event: EventView)
    ensures
        next_read(read, event).profile == read.profile,
        next_read(read, event).stage == match next_action(read, event) {
            ActionView::Connect { .. } => ReadStage::Connect,
            ActionView::ConfigureTls => ReadStage::ConfigureTls,
            ActionView::Handshake { .. } => ReadStage::Handshake,
            ActionView::Login { .. } => ReadStage::Login,
            ActionView::Select { .. } => ReadStage::Select,
            ActionView::Fetch { .. } => ReadStage::Fetch,
            ActionView::Receive => ReadStage::Receive,
            ActionView::Logout => ReadStage::Logout,
            _ => ReadStage::End,
        },
{
}

/// A message that comes is put behind those that came before; nothing else changes them until they are
/// handed over.
pub proof fn messages_are_put_behind_one_another(read: ReadView, event: EventView)
    ensures
        event matches EventView::Received { message } ==> next_read(read, event).messages
            == read.messages.push(message),
        !(event is Received) && !(next_action(read, event) is Finish) ==> next_read(
            read,
            event,
        ).messages == read.messages,
{
    assert(read.messages + Seq::<JsonView>::empty() =~= read.messages);
    if let EventView::Received { message } = event {
        assert(read.messages + seq![message] =~= read.messages.push(message));
    }
}

/// Which outcomes a step can have: the selection gives a number of messages, waiting gives a message or
/// the end of them, every other step is done; and each of them can fail. Nothing comes after the end.
pub proof fn outcomes_of_steps(stage: ReadStage, exists: u32, message: JsonView, detail: Seq<char>)
    ensures
        event_fits(stage, EventView::Selected { exists }) <==> stage == ReadStage::Select,
        event_fits(stage, EventView::Received { message }) <==> stage == ReadStage::Receive,
        event_fits(stage, EventView::Exhausted) <==> stage == ReadStage::Receive,
        event_fits(stage, EventView::Done) <==> stage != ReadStage::Select && stage
            != ReadStage::Receive && stage != ReadStage::End,
        event_fits(stage, EventView::Failed { detail }) <==> stage != ReadStage::End,
{
}

// --------------------------------------------------------------------------- what is said

/// What is said of a step that failed: which step it was and, after that, the words that came; what may
/// repeat what was sent to log in, or where to, is marked to be redacted.
pub proof fn words_for_steps_that_fail(read: ReadView, detail: Seq<char>)
    ensures
        ({
            let said = |stage: ReadStage, what: Seq<char>, redact: bool|
                next_action(ReadView { stage, ..read }, EventView::Failed { detail }) == (
                ActionView::Fail { failure: FailureView { message: what + detail, redact } });
            &&& said(ReadStage::Connect, "IMAP connect failed: "@, true)
            &&& said(ReadStage::ConfigureTls, "rustls config: "@, false)
            &&& said(ReadStage::Handshake, "IMAP TLS handshake failed: "@, false)
            &&& said(ReadStage::Login, "IMAP login failed: "@, true)
            &&& said(
                ReadStage::Select,
                "IMAP select '"@ + read.profile.mailbox + "' failed: "@,
                false,
            )
            &&& said(ReadStage::Fetch, "IMAP fetch failed: "@, false)
            &&& said(ReadStage::Receive, "IMAP fetch read failed: "@, false)
        }),
{
}

/// A connection that would have to be upgraded is given up.
pub proof fn upgrades_are_given_up(profile: ProfileView)
    requires
        profile.tls == TlsMode::Starttls,
    ensures
        next_action(started(profile), EventView::Done) == (ActionView::Fail {
            failure: FailureView {
                message:
                    "IMAP STARTTLS is not supported in v1; use implicit TLS (imaps) or none"@,
                redact: false,
            },
        }),
{
}

// ------------------------------------------------------------------------ what is handed over

/// The messages in a list of events, the first one first.
pub open spec fn messages_in(events: Seq<EventView>) -> Seq<JsonView>
    decreases events.len(),
{
    if events.len() == 0 {
        Seq::empty()
    } else {
        match events.last() {
            EventView::Received { message } => messages_in(events.drop_last()).push(message),
            _ => messages_in(events.drop_last()),
        }
    }
}

proof fn lemma_received(events: Seq<EventView>)
    ensures
        received(events) == messages_in(events),
    decreases events.len(),
{
    if events.len() > 0 {
        lemma_received(events.drop_last());
        assert(received(events) =~= messages_in(events));
    }
}

/// Whatever comes in a conversation from its start, what it hands over when it finishes is every message
/// that came, once each and in the order in which they came.
pub proof fn every_message_is_handed_over(
    profile: ProfileView,
    events: Seq<EventView>,
    last: EventView,
)
    requires
        possible(started(profile), events.push(last)),
    ensures
        next_action(after(started(profile), events), last) matches ActionView::Finish { messages }
            ==> messages == messages_in(events.push(last)),
{
    finish_hands_over_what_came(profile, events, last);
    lemma_received(events.push(last));
}

/// A conversation goes from state to state as its events come.
pub proof fn events_are_taken_one_by_one(read: ReadView, events: Seq<EventView>, event: EventView)
    ensures
        after(read, Seq::empty()) == read,
        after(read, events.push(event)) == next_read(after(read, events), event),
        possible(read, events.push(event)) <==> possible(read, events) && event_fits(
            after(read, events).stage,
            event,
        ),
{
    assert(events.push(event).drop_last() =~= events);
}

} // verus!
