//! JSON values: the tree that responses and audit details are built as, and the way to and from
//! the text that travels.
use vstd::prelude::*;

verus! {

// ----------------------------------------------------------------------- model

/// What a JSON value says.
///
/// A number that fits `u64` is told apart from the others, which are kept as they are written.
pub ghost enum JsonView {
    Null,
    Bool(bool),
    Number(u64),
    OtherNumber(Seq<char>),
    Str(Seq<char>),
    Array(Seq<JsonView>),
    Object(Map<Seq<char>, JsonView>),
}

impl JsonView {
    /// The member `key` of an object; nothing of any other value.
    pub open spec fn member(self, key: Seq<char>) -> Option<JsonView> {
        match self {
            JsonView::Object(members) if members.contains_key(key) => Some(members[key]),
            _ => None,
        }
    }

    /// Whether lists and objects stand in one another no more than `depth` deep, and every number is a
    /// count.
    pub open spec fn nests_within(self, depth: nat) -> bool
        decreases depth,
    {
        match self {
            JsonView::OtherNumber(_) => false,
            JsonView::Array(items) => depth > 0 && forall|i: int|
                0 <= i < items.len() ==> (#[trigger] items[i]).nests_within((depth - 1) as nat),
            JsonView::Object(members) => depth > 0 && forall|key: Seq<char>| #[trigger]
                members.contains_key(key) ==> members[key].nests_within((depth - 1) as nat),
            _ => true,
        }
    }

    /// The member `key` of an object, where it is a string.
    pub open spec fn string_member(self, key: Seq<char>) -> Option<Seq<char>> {
        match self.member(key) {
            Some(JsonView::Str(text)) => Some(text),
            _ => None,
        }
    }
}

/// The JSON value of an optional one: `null` where there is none.
pub open spec fn or_null(value: Option<JsonView>) -> JsonView {
    match value {
        Some(v) => v,
        None => JsonView::Null,
    }
}

// ------------------------------------------------------------------------ tree

/// A JSON value as this crate builds it. Its numbers are counts.
#[derive(Debug, PartialEq, Eq)]
pub enum Json {
    Null,
    Bool(bool),
    Number(u64),
    Str(String),
    Array(Vec<Json>),
    Object(JsonObject),
}

/// The members of a JSON object. A member that is inserted again replaces the earlier one.
#[derive(Debug, PartialEq, Eq)]
pub struct JsonObject {
    /// Key and value of each insertion, the first one first.
    pub entries: Vec<(String, Json)>,
}

/// What the entries of an object say, in the order in which they were inserted.
pub open spec fn entries_model(entries: Seq<(String, Json)>) -> Map<Seq<char>, JsonView>
    decreases entries,
{
    if entries.len() == 0 {
        Map::empty()
    } else {
        entries_model(entries.drop_last()).insert(entries.last().0@, entries.last().1.model())
    }
}

/// What a list of values says.
pub open spec fn items_model(items: Seq<Json>) -> Seq<JsonView>
    decreases items,
{
    if items.len() == 0 {
        Seq::empty()
    } else {
        items_model(items.drop_last()).push(items.last().model())
    }
}

impl Json {
    /// What the value says.
    pub open spec fn model(self) -> JsonView
        decreases self,
    {
        match self {
            Json::Null => JsonView::Null,
            Json::Bool(b) => JsonView::Bool(b),
            Json::Number(n) => JsonView::Number(n),
            Json::Str(s) => JsonView::Str(s@),
            Json::Array(items) => JsonView::Array(items_model(items@)),
            Json::Object(object) => JsonView::Object(object.model()),
        }
    }
}

impl JsonObject {
    /// What the members say.
    pub open spec fn model(self) -> Map<Seq<char>, JsonView>
        decreases self,
    {
        entries_model(self.entries@)
    }
}

impl View for Json {
    type V = JsonView;

    open spec fn view(&self) -> JsonView {
        self.model()
    }
}

impl View for JsonObject {
    type V = Map<Seq<char>, JsonView>;

    open spec fn view(&self) -> Map<Seq<char>, JsonView> {
        self.model()
    }
}

/// What nests within a depth nests within a greater one.
pub proof fn lemma_nests_deeper(json: JsonView, depth: nat, deeper: nat)
    requires
        json.nests_within(depth),
        depth <= deeper,
    ensures
        json.nests_within(deeper),
    decreases depth,
{
    match json {
        JsonView::Array(items) => {
            assert forall|i: int| 0 <= i < items.len() implies (#[trigger] items[i]).nests_within(
                (deeper - 1) as nat,
            ) by {
                lemma_nests_deeper(items[i], (depth - 1) as nat, (deeper - 1) as nat);
            }
        },
        JsonView::Object(members) => {
            assert forall|key: Seq<char>| #[trigger]
                members.contains_key(key) implies members[key].nests_within((deeper - 1) as nat) by {
                lemma_nests_deeper(members[key], (depth - 1) as nat, (deeper - 1) as nat);
            }
        },
        _ => {},
    }
}

/// A list says, item by item, what its items say.
pub proof fn lemma_items_model(items: Seq<Json>)
    ensures
        items_model(items).len() == items.len(),
        forall|i: int| 0 <= i < items.len() ==> #[trigger] items_model(items)[i] == items[i]@,
    decreases items.len(),
{
    if items.len() > 0 {
        lemma_items_model(items.drop_last());
    }
}

impl JsonObject {
    /// No members.
    pub fn new() -> (object: JsonObject)
        ensures
            object@ == Map::<Seq<char>, JsonView>::empty(),
    {
        JsonObject { entries: Vec::new() }
    }

    /// Makes `value` the member `key`.
    pub fn insert(&mut self, key: &str, value: Json)
        ensures
            final(self)@ == old(self)@.insert(key@, value@),
    {
        let ghost before = self.entries@;
        self.entries.push((key.to_owned(), value));
        assert(self.entries@.drop_last() =~= before);
    }

    /// The member `key`.
    pub fn get(&self, key: &str) -> (member: Option<&Json>)
        ensures
            member is Some <==> self@.contains_key(key@),
            member matches Some(value) ==> value@ == self@[key@],
    {
        let mut i: usize = self.entries.len();
        assert(self.entries@.take(i as int) =~= self.entries@);
        while i > 0
            invariant
                i <= self.entries@.len(),
                self@.contains_key(key@) <==> entries_model(self.entries@.take(i as int)).contains_key(key@),
                self@.contains_key(key@) ==> self@[key@] == entries_model(
                    self.entries@.take(i as int),
                )[key@],
            decreases i,
        {
            let ghost shown = self.entries@.take(i as int);
            i -= 1;
            assert(shown.drop_last() =~= self.entries@.take(i as int));
            if crate::text::same_text(self.entries[i].0.as_str(), key) {
                return Some(&self.entries[i].1);
            }
        }
        None
    }
}

impl Json {
    /// The member `key` of an object; nothing of any other value.
    pub fn get(&self, key: &str) -> (member: Option<&Json>)
        ensures
            match member {
                Some(value) => self@.member(key@) == Some(value@),
                None => self@.member(key@) is None,
            },
    {
        match self {
            Json::Object(object) => object.get(key),
            _ => None,
        }
    }

    /// The text of a string; nothing of any other value.
    pub fn as_str(&self) -> (text: Option<&str>)
        ensures
            match text {
                Some(t) => self@ == JsonView::Str(t@),
                None => !(self@ is Str),
            },
    {
        match self {
            Json::Str(text) => Some(text.as_str()),
            _ => None,
        }
    }
}

/// A string, or `null` where there is no text.
pub fn optional_string(text: Option<&str>) -> (json: Json)
    ensures
        json@ == match text {
            Some(t) => JsonView::Str(t@),
            None => JsonView::Null,
        },
{
    match text {
        Some(t) => Json::Str(t.to_owned()),
        None => Json::Null,
    }
}

impl Clone for Json {
    fn clone(&self) -> (copy: Json)
        ensures
            copy@ == self@,
        decreases self,
    {
        match self {
            Json::Null => Json::Null,
            Json::Bool(b) => Json::Bool(*b),
            Json::Number(n) => Json::Number(*n),
            Json::Str(s) => Json::Str(s.clone()),
            Json::Array(items) => Json::Array(clone_items(items.as_slice())),
            Json::Object(object) => Json::Object(
                JsonObject { entries: clone_entries(&object.entries) },
            ),
        }
    }
}

/// A copy of a list.
pub fn clone_items(items: &[Json]) -> (copies: Vec<Json>)
    ensures
        items_model(copies@) == items_model(items@),
    decreases items@,
{
    let mut copies: Vec<Json> = Vec::new();
    let mut i: usize = 0;
    assert(items@.take(0) =~= copies@);
    while i < items.len()
        invariant
            i <= items@.len(),
            items_model(copies@) == items_model(items@.take(i as int)),
        decreases items@.len() - i,
    {
        let ghost before = copies@;
        copies.push(items[i].clone());
        assert(copies@.drop_last() =~= before);
        assert(items@.take(i + 1).drop_last() =~= items@.take(i as int));
        i += 1;
    }
    assert(items@.take(i as int) =~= items@);
    copies
}

/// A copy of the entries of an object.
fn clone_entries(entries: &Vec<(String, Json)>) -> (copies: Vec<(String, Json)>)
    ensures
        entries_model(copies@) == entries_model(entries@),
    decreases entries@,
{
    let mut copies: Vec<(String, Json)> = Vec::new();
    let mut i: usize = 0;
    assert(entries@.take(0) =~= copies@);
    while i < entries.len()
        invariant
            i <= entries@.len(),
            entries_model(copies@) == entries_model(entries@.take(i as int)),
        decreases entries@.len() - i,
    {
        let ghost before = copies@;
        copies.push((entries[i].0.clone(), entries[i].1.clone()));
        assert(copies@.drop_last() =~= before);
        assert(entries@.take(i + 1).drop_last() =~= entries@.take(i as int));
        i += 1;
    }
    assert(entries@.take(i as int) =~= entries@);
    copies
}

} // verus!
