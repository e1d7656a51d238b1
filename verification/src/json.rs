//! JSON documents as trees. Reading and printing text is `serde_json`'s work;
//! the tree is what the rest of the library computes on.

use vstd::prelude::*;

verus! {

/// `serde_json::Value`, carried through as it is.
#[verifier::external_type_specification]
#[verifier::external_body]
pub struct ExValue(serde_json::Value);

/// `serde_json::Number`, carried through as it is.
#[verifier::external_type_specification]
#[verifier::external_body]
pub struct ExNumber(serde_json::Number);

/// A JSON document.
#[derive(Debug)]
pub enum Json {
    Null,
    Bool(bool),
    Number(serde_json::Number),
    Text(String),
    List(Vec<Json>),
    /// Members in the order they were written; of two with one key the later counts.
    Object(Vec<(String, Json)>),
}

/// The mathematical value of a JSON document: an object is a finite map.
pub enum JsonView {
    Null,
    Bool(bool),
    Number(serde_json::Number),
    Text(Seq<char>),
    List(Seq<JsonView>),
    Object(Map<Seq<char>, JsonView>),
}

/// The map that a sequence of members denotes: later members override earlier ones.
pub open spec fn members_map(members: Seq<(Seq<char>, JsonView)>) -> Map<Seq<char>, JsonView>
    decreases members.len(),
{
    if members.len() == 0 {
        Map::empty()
    } else {
        members_map(members.drop_last()).insert(members.last().0, members.last().1)
    }
}

impl View for Json {
    type V = JsonView;

    open spec fn view(&self) -> JsonView
        decreases self,
    {
        match self {
            Json::Null => JsonView::Null,
            Json::Bool(b) => JsonView::Bool(*b),
            Json::Number(n) => JsonView::Number(*n),
            Json::Text(s) => JsonView::Text(s@),
            Json::List(items) => JsonView::List(item_views(items@)),
            Json::Object(members) => JsonView::Object(members_map(member_views(members@))),
        }
    }
}

/// The values of a list's items, one for one.
pub open spec fn item_views(items: Seq<Json>) -> Seq<JsonView>
    decreases items,
{
    Seq::new(
        items.len(),
        |i: int|
            if 0 <= i < items.len() {
                items[i].view()
            } else {
                JsonView::Null
            },
    )
}

/// The keys and values of an object's members, one for one.
pub open spec fn member_views(members: Seq<(String, Json)>) -> Seq<(Seq<char>, JsonView)>
    decreases members,
{
    Seq::new(
        members.len(),
        |i: int|
            if 0 <= i < members.len() {
                (members[i].0@, members[i].1.view())
            } else {
                (Seq::empty(), JsonView::Null)
            },
    )
}

/// One more member at the end overrides what the key had.
pub proof fn lemma_members_map_push(
    members: Seq<(Seq<char>, JsonView)>,
    key: Seq<char>,
    value: JsonView,
)
    ensures
        members_map(members.push((key, value))) == members_map(members).insert(key, value),
{
    assert(members.push((key, value)).drop_last() =~= members);
}

/// The last member with a key is the one that counts.
pub proof fn lemma_last_member(members: Seq<(Seq<char>, JsonView)>, i: int)
    requires
        0 <= i < members.len(),
        forall|j: int| i < j < members.len() ==> (#[trigger] members[j]).0 != members[i].0,
    ensures
        members_map(members).contains_key(members[i].0),
        members_map(members)[members[i].0] == members[i].1,
    decreases members.len(),
{
    if i < members.len() - 1 {
        let shorter = members.drop_last();
        assert(members.last() == members[members.len() - 1]);
        assert forall|j: int| i < j < shorter.len() implies (#[trigger] shorter[j]).0
            != shorter[i].0 by {
            assert(shorter[j] == members[j]);
        }
        lemma_last_member(shorter, i);
    }
}

/// A key that no member has is not in the object.
pub proof fn lemma_no_member(members: Seq<(Seq<char>, JsonView)>, key: Seq<char>)
    requires
        forall|j: int| 0 <= j < members.len() ==> (#[trigger] members[j]).0 != key,
    ensures
        !members_map(members).contains_key(key),
    decreases members.len(),
{
    if members.len() > 0 {
        let shorter = members.drop_last();
        assert(members.last() == members[members.len() - 1]);
        assert forall|j: int| 0 <= j < shorter.len() implies (#[trigger] shorter[j]).0 != key by {
            assert(shorter[j] == members[j]);
        }
        lemma_no_member(shorter, key);
    }
}

/// The document that a `serde_json::Value` holds: variant for variant, an object as the
/// map from its keys to its members.
pub uninterp spec fn value_tree(v: serde_json::Value) -> JsonView;

/// What `serde_json::from_str` reads from a text: the document, or the message of its
/// refusal.
pub uninterp spec fn parsed_json(text: Seq<char>) -> Result<JsonView, Seq<char>>;

/// The compact text that `serde_json::to_string` prints for a document, an object's
/// members in the order of their keys.
pub uninterp spec fn printed_json(tree: JsonView) -> Seq<char>;

/// `serde_json::from_str` at `serde_json::Value`: the value holds the document that
/// the text denotes; a text that is no JSON document gives the parser's message.
#[verifier::external_body]
fn read_value(text: &str) -> (r: Result<serde_json::Value, String>)
    ensures
        match r {
            Ok(v) => parsed_json(text@) == Ok::<JsonView, Seq<char>>(value_tree(v)),
            Err(e) => parsed_json(text@) == Err::<JsonView, Seq<char>>(e@),
        },
{
    serde_json::from_str::<serde_json::Value>(text).map_err(|e| e.to_string())
}

/// `serde_json::to_string` at `serde_json::Value`, where it does not fail: the text is
/// that of the document that the value holds.
#[verifier::external_body]
fn print_value(v: &serde_json::Value) -> (text: String)
    ensures
        text@ == printed_json(value_tree(*v)),
{
    serde_json::to_string(v).unwrap_or_default()
}

/// Copies a `serde_json::Value` into a tree, variant by variant, an object's members in
/// the order in which `serde_json::Map::iter` gives them: the tree is the document that
/// the value holds.
#[verifier::external_body]
fn lift(v: &serde_json::Value) -> (j: Json)
    ensures
        j@ == value_tree(*v),
{
    match v {
        serde_json::Value::Null => Json::Null,
        serde_json::Value::Bool(b) => Json::Bool(*b),
        serde_json::Value::Number(n) => Json::Number(n.clone()),
        serde_json::Value::String(s) => Json::Text(s.clone()),
        serde_json::Value::Array(a) => Json::List(a.iter().map(lift).collect()),
        serde_json::Value::Object(m) => Json::Object(
            m.iter().map(|(k, x)| (k.clone(), lift(x))).collect(),
        ),
    }
}

/// Copies a tree into a `serde_json::Value`, variant by variant. An object's members
/// go into an empty `serde_json::Map` one by one, in their order, by
/// `serde_json::Map::insert`, which puts a value in the place of one that the key
/// already has: the value holds the tree's document.
#[verifier::external_body]
fn lower(j: &Json) -> (v: serde_json::Value)
    ensures
        value_tree(v) == j@,
{
    match j {
        Json::Null => serde_json::Value::Null,
        Json::Bool(b) => serde_json::Value::Bool(*b),
        Json::Number(n) => serde_json::Value::Number(n.clone()),
        Json::Text(s) => serde_json::Value::String(s.clone()),
        Json::List(a) => serde_json::Value::Array(a.iter().map(lower).collect()),
        Json::Object(m) => {
            let mut map = serde_json::Map::new();
            for (k, x) in m {
                map.insert(k.clone(), lower(x));
            }
            serde_json::Value::Object(map)
        },
    }
}

impl Json {
    /// The member of an object that has this key; none where the document is no object
    /// or has no such member.
    pub fn get(&self, key: &str) -> (r: Option<&Json>)
        ensures
            match self@ {
                JsonView::Object(m) => match r {
                    Some(x) => m.contains_key(key@) && x@ == m[key@],
                    None => !m.contains_key(key@),
                },
                _ => r is None,
            },
    {
        match self {
            Json::Object(members) => {
                let wanted = key.to_owned();
                let mut i: usize = members.len();
                while i > 0
                    invariant
                        i <= members.len(),
                        wanted@ == key@,
                        self@ == JsonView::Object(members_map(member_views(members@))),
                        forall|j: int|
                            i <= j < members.len() ==> (#[trigger] member_views(members@)[j]).0
                                != key@,
                    decreases i,
                {
                    i = i - 1;
                    if members[i].0 == wanted {
                        proof {
                            let views = member_views(members@);
                            assert(views[i as int] == (members@[i as int].0@, members@[i as int].1@));
                            lemma_last_member(views, i as int);
                        }
                        return Some(&members[i].1);
                    }
                }
                proof {
                    lemma_no_member(member_views(members@), key@);
                }
                None
            },
            _ => None,
        }
    }

    /// An object of the given members.
    pub fn object(members: Vec<(String, Json)>) -> (r: Json)
        ensures
            r@ == JsonView::Object(members_map(member_views(members@))),
    {
        Json::Object(members)
    }

    /// A list of the given items.
    pub fn list(items: Vec<Json>) -> (r: Json)
        ensures
            r@ == JsonView::List(item_views(items@)),
    {
        Json::List(items)
    }

    /// A text.
    pub fn text(s: &str) -> (r: Json)
        ensures
            r@ == JsonView::Text(s@),
    {
        Json::Text(s.to_owned())
    }

    /// Reads a JSON text.
    pub fn parse(text: &str) -> (r: Result<Json, String>)
        ensures
            match r {
                Ok(j) => parsed_json(text@) == Ok::<JsonView, Seq<char>>(j@),
                Err(e) => parsed_json(text@) == Err::<JsonView, Seq<char>>(e@),
            },
    {
        match read_value(text) {
            Ok(v) => Ok(lift(&v)),
            Err(e) => Err(e),
        }
    }

    /// Prints the document as compact JSON text.
    pub fn print(&self) -> (text: String)
        ensures
            text@ == printed_json(self@),
    {
        let v = lower(self);
        print_value(&v)
    }
}

} // verus!
