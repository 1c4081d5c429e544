//! JSON values as trees, and their text form.
use crate::number::{
    check_plain_number, is_plain_number, parse_decimal, parse_nat, u64_from_text, Decimal,
};
use vstd::prelude::*;
use vstd::string::StringExecFns;

verus! {

/// A JSON value. A number is kept as its text, an object as its members in
/// the order in which they stand in the text.
#[derive(Debug)]
pub enum Json {
    Null,
    Bool(bool),
    Number(String),
    Text(String),
    Array(Vec<Json>),
    Object(Vec<Member>),
}

/// One member of a JSON object.
#[derive(Debug)]
pub struct Member {
    pub key: String,
    pub value: Json,
}

/// The mathematical value of a [`Json`].
pub enum JsonView {
    Null,
    Bool(bool),
    Number(Seq<char>),
    Text(Seq<char>),
    Array(Seq<JsonView>),
    Object(Seq<(Seq<char>, JsonView)>),
}

impl Json {
    pub open spec fn view(&self) -> JsonView
        decreases self,
    {
        match self {
            Json::Null => JsonView::Null,
            Json::Bool(b) => JsonView::Bool(*b),
            Json::Number(t) => JsonView::Number(t@),
            Json::Text(t) => JsonView::Text(t@),
            Json::Array(items) => JsonView::Array(
                Seq::new(
                    items@.len(),
                    |i: int|
                        if 0 <= i < items@.len() {
                            items@[i].view()
                        } else {
                            JsonView::Null
                        },
                ),
            ),
            Json::Object(members) => JsonView::Object(
                Seq::new(
                    members@.len(),
                    |i: int|
                        if 0 <= i < members@.len() {
                            (members@[i].key@, members@[i].value.view())
                        } else {
                            (Seq::empty(), JsonView::Null)
                        },
                ),
            ),
        }
    }
}

impl JsonView {
    /// Every number in the tree is written in plain decimal notation.
    pub open spec fn printable(self) -> bool
        decreases self,
    {
        match self {
            JsonView::Number(t) => is_plain_number(t),
            JsonView::Array(items) => forall|i: int|
                0 <= i < items.len() ==> (#[trigger] items[i]).printable(),
            JsonView::Object(members) => forall|i: int|
                0 <= i < members.len() ==> (#[trigger] members[i]).1.printable(),
            _ => true,
        }
    }
}

/// Each item of a printable array and each member of a printable object is
/// printable.
pub proof fn lemma_printable_parts(tree: JsonView, i: int)
    requires
        tree.printable(),
    ensures
        tree is Array && 0 <= i < tree->Array_0.len() ==> tree->Array_0[i].printable(),
        tree is Object && 0 <= i < tree->Object_0.len() ==> tree->Object_0[i].1.printable(),
{
}

#[verifier::external_type_specification]
#[verifier::external_body]
pub struct ExValue(serde_json::Value);

/// The tree that a `serde_json::Value` holds: its variants one for one, a
/// number as the text that `serde_json::Number` displays, the members of an
/// object in their order.
pub uninterp spec fn held(value: serde_json::Value) -> JsonView;

/// The tree that `serde_json::from_str` reads from a text as a
/// `serde_json::Value`, or `None` where it rejects the text.
pub uninterp spec fn parsed(text: Seq<char>) -> Option<JsonView>;

/// The text of the error with which `serde_json::from_str` rejects a text.
pub uninterp spec fn parse_failure(text: Seq<char>) -> Seq<char>;

/// The tree held by the `serde_json::Value` that is built of a tree. It may
/// differ from the tree it was built of: a number is read by
/// `serde_json::Number::from_str` and held as `serde_json::Number` displays
/// it, and of two members of an object with one key only the earlier place
/// and the later value are kept.
pub uninterp spec fn built(tree: JsonView) -> JsonView;

/// The compact text that `serde_json::to_string` writes for a
/// `serde_json::Value` that holds a tree.
pub uninterp spec fn shown(tree: JsonView) -> Seq<char>;

/// The text that is written for a tree: the text of the value that is built
/// of the tree.
pub open spec fn printed(tree: JsonView) -> Seq<char> {
    shown(built(tree))
}

/// Calls `serde_json::from_str` for a `serde_json::Value`. What the value
/// holds is the tree named [`parsed`]; where the text is rejected, the text
/// of the error comes back, which is named [`parse_failure`].
#[verifier::external_body]
fn parse_text(text: &str) -> (r: Result<serde_json::Value, String>)
    ensures
        match r {
            Ok(value) => parsed(text@) == Some(held(value)),
            Err(reason) => parsed(text@) is None && reason@ == parse_failure(text@),
        },
{
    serde_json::from_str::<serde_json::Value>(text).map_err(|e| e.to_string())
}

/// Moves what a `serde_json::Value` holds into a tree, variant by variant:
/// the tree named [`held`].
#[verifier::external_body]
fn from_value(value: serde_json::Value) -> (json: Json)
    ensures
        json@ == held(value),
{
    match value {
        serde_json::Value::Null => Json::Null,
        serde_json::Value::Bool(b) => Json::Bool(b),
        serde_json::Value::Number(n) => Json::Number(n.to_string()),
        serde_json::Value::String(s) => Json::Text(s),
        serde_json::Value::Array(items) => Json::Array(items.into_iter().map(from_value).collect()),
        serde_json::Value::Object(members) => Json::Object(
            members.into_iter().map(|(key, v)| Member { key, value: from_value(v) }).collect(),
        ),
    }
}

/// Builds a `serde_json::Value` of a tree, variant by variant. A number is
/// read by `serde_json::Number::from_str`, which accepts every plain number;
/// an object is collected into a `serde_json::Map`. What the value holds is
/// the tree named [`built`].
#[verifier::external_body]
fn to_value(json: &Json) -> (value: serde_json::Value)
    requires
        json@.printable(),
    ensures
        held(value) == built(json@),
{
    match json {
        Json::Null => serde_json::Value::Null,
        Json::Bool(b) => serde_json::Value::Bool(*b),
        Json::Number(t) => t.parse().map_or(serde_json::Value::Null, serde_json::Value::Number),
        Json::Text(s) => serde_json::Value::String(s.clone()),
        Json::Array(items) => serde_json::Value::Array(items.iter().map(to_value).collect()),
        Json::Object(members) => serde_json::Value::Object(
            members.iter().map(|m| (m.key.clone(), to_value(&m.value))).collect(),
        ),
    }
}

/// Calls `serde_json::to_string` on a `serde_json::Value`, which writes
/// compact JSON: the text named [`shown`] for the tree that the value
/// holds.
#[verifier::external_body]
fn show_value(value: &serde_json::Value) -> (text: String)
    ensures
        text@ == shown(held(*value)),
{
    serde_json::to_string(value).unwrap_or_default()
}

impl Json {
    /// Reads a JSON text. `Err` holds the reason for which the text was
    /// rejected. Where an object of the text has one key more than once,
    /// the tree has one member for it, with the value that stands last.
    pub fn parse(text: &str) -> (r: Result<Json, String>)
        ensures
            match parsed(text@) {
                Some(tree) => r matches Ok(json) && json@ == tree,
                None => r matches Err(reason) && reason@ == parse_failure(text@),
            },
    {
        match parse_text(text) {
            Ok(value) => Ok(from_value(value)),
            Err(reason) => Err(reason),
        }
    }

    /// Whether the tree can be written: whether every number in it is a
    /// plain number. A tree that was read from a text may hold a number
    /// with an exponent, which is none.
    pub fn is_printable(&self) -> (ok: bool)
        ensures
            ok == self@.printable(),
        decreases self,
    {
        match self {
            Json::Number(t) => check_plain_number(t.as_str()),
            Json::Array(items) => {
                let ghost views = self@->Array_0;
                let mut i: usize = 0;
                while i < items.len()
                    invariant
                        i <= items.len(),
                        views.len() == items@.len(),
                        self == Json::Array(*items),
                        self@ == JsonView::Array(views),
                        forall|j: int| 0 <= j < items@.len() ==> #[trigger] views[j] == items@[j]@,
                        forall|j: int| 0 <= j < i ==> (#[trigger] views[j]).printable(),
                    decreases items.len() - i,
                {
                    proof {
                        vstd::std_specs::vec::axiom_vec_index_decreases(*items, i as int);
                    }
                    if !items[i].is_printable() {
                        assert(!views[i as int].printable());
                        proof {
                            if self@.printable() {
                                lemma_printable_parts(self@, i as int);
                            }
                        }
                        return false;
                    }
                    i = i + 1;
                }
                true
            },
            Json::Object(members) => {
                let ghost views = self@->Object_0;
                let mut i: usize = 0;
                while i < members.len()
                    invariant
                        i <= members.len(),
                        views.len() == members@.len(),
                        self == Json::Object(*members),
                        self@ == JsonView::Object(views),
                        forall|j: int|
                            0 <= j < members@.len() ==> (#[trigger] views[j]).1
                                == members@[j].value@,
                        forall|j: int| 0 <= j < i ==> (#[trigger] views[j]).1.printable(),
                    decreases members.len() - i,
                {
                    proof {
                        vstd::std_specs::vec::axiom_vec_index_decreases(*members, i as int);
                    }
                    if !members[i].value.is_printable() {
                        assert(!views[i as int].1.printable());
                        proof {
                            if self@.printable() {
                                lemma_printable_parts(self@, i as int);
                            }
                        }
                        return false;
                    }
                    i = i + 1;
                }
                true
            },
            _ => true,
        }
    }

    /// Writes the tree as compact JSON text: the text of the
    /// `serde_json::Value` that is built of the tree. Where an object has
    /// two members with one key, only one of them is written, at the place
    /// of the earlier and with the value of the later.
    pub fn print(&self) -> (text: String)
        requires
            self@.printable(),
        ensures
            text@ == printed(self@),
    {
        let value = to_value(self);
        show_value(&value)
    }
}

/// The members of an object, as they stand in its view.
pub type MembersView = Seq<(Seq<char>, JsonView)>;

/// The value of the first member with the given key.
pub open spec fn lookup(members: MembersView, key: Seq<char>) -> Option<JsonView>
    decreases members.len(),
{
    if members.len() == 0 {
        None
    } else if members[0].0 == key {
        Some(members[0].1)
    } else {
        lookup(members.skip(1), key)
    }
}

/// The value that a key has in a tree: that of the first member with this
/// key, if the tree is an object.
pub open spec fn member_of(tree: JsonView, key: Seq<char>) -> Option<JsonView> {
    match tree {
        JsonView::Object(members) => lookup(members, key),
        _ => None,
    }
}

impl Json {
    /// The value of the first member with the given key, if `self` is an
    /// object that has one.
    pub fn get<'a>(&'a self, key: &str) -> (r: Option<&'a Json>)
        ensures
            match member_of(self@, key@) {
                Some(v) => r matches Some(found) && found@ == v,
                None => r is None,
            },
    {
        match self {
            Json::Object(members) => {
                let wanted = String::from_str(key);
                let ghost all = self@->Object_0;
                let mut i: usize = 0;
                assert(all.skip(0) =~= all);
                while i < members.len()
                    invariant
                        i <= members.len(),
                        wanted@ == key@,
                        self@ == JsonView::Object(all),
                        all.len() == members@.len(),
                        forall|j: int|
                            0 <= j < members@.len() ==> #[trigger] all[j] == (
                                members@[j].key@,
                                members@[j].value@,
                            ),
                        lookup(all, key@) == lookup(all.skip(i as int), key@),
                    decreases members.len() - i,
                {
                    let ghost rest = all.skip(i as int);
                    assert(rest[0] == all[i as int]);
                    assert(rest.skip(1) =~= all.skip(i + 1));
                    if members[i].key == wanted {
                        return Some(&members[i].value);
                    }
                    i = i + 1;
                }
                None
            },
            _ => None,
        }
    }
}

impl View for Member {
    type V = (Seq<char>, JsonView);

    open spec fn view(&self) -> (Seq<char>, JsonView) {
        (self.key@, self.value@)
    }
}

/// The views of the members of an object.
pub open spec fn members_view(members: Seq<Member>) -> MembersView {
    members.map_values(|m: Member| m@)
}

/// The views of the items of an array.
pub open spec fn items_view(items: Seq<Json>) -> Seq<JsonView> {
    items.map_values(|j: Json| j@)
}

impl Member {
    pub fn new(key: &str, value: Json) -> (m: Member)
        ensures
            m@ == (key@, value@),
    {
        Member { key: String::from_str(key), value }
    }
}

impl Json {
    /// The object with the given members, in their order.
    pub fn object(members: Vec<Member>) -> (json: Json)
        ensures
            json@ == JsonView::Object(members_view(members@)),
    {
        let json = Json::Object(members);
        assert(json@->Object_0 =~= members_view(members@));
        json
    }

    /// The array with the given items, in their order.
    pub fn array(items: Vec<Json>) -> (json: Json)
        ensures
            json@ == JsonView::Array(items_view(items@)),
    {
        let json = Json::Array(items);
        assert(json@->Array_0 =~= items_view(items@));
        json
    }

    /// The items of an array; `None` for every other value.
    pub fn items<'a>(&'a self) -> (r: Option<&'a Vec<Json>>)
        ensures
            match self@ {
                JsonView::Array(views) => r matches Some(items) && items_view(items@) == views,
                _ => r is None,
            },
    {
        match self {
            Json::Array(items) => {
                assert(self@->Array_0 =~= items_view(items@));
                Some(items)
            },
            _ => None,
        }
    }
}

/// The text under a key; `None` where the key is missing or holds
/// something else.
pub open spec fn text_field(tree: JsonView, key: Seq<char>) -> Option<Seq<char>> {
    match member_of(tree, key) {
        Some(JsonView::Text(s)) => Some(s),
        _ => None,
    }
}

/// The truth value under a key.
pub open spec fn bool_field(tree: JsonView, key: Seq<char>) -> Option<bool> {
    match member_of(tree, key) {
        Some(JsonView::Bool(b)) => Some(b),
        _ => None,
    }
}

/// The natural number under a key, if it is at most `max`.
pub open spec fn nat_field(tree: JsonView, key: Seq<char>, max: nat) -> Option<nat> {
    match member_of(tree, key) {
        Some(JsonView::Number(t)) => match parse_nat(t) {
            Some(n) => if n <= max {
                Some(n)
            } else {
                None
            },
            None => None,
        },
        _ => None,
    }
}

/// The decimal under a key, in thousandths.
pub open spec fn decimal_field(tree: JsonView, key: Seq<char>) -> Option<int> {
    match member_of(tree, key) {
        Some(JsonView::Number(t)) => match parse_decimal(t) {
            Some(v) => if i32::MIN <= v <= i32::MAX {
                Some(v)
            } else {
                None
            },
            None => None,
        },
        _ => None,
    }
}

/// The text under a key that may be missing or `null`: the outer `Option`
/// says whether the member is acceptable, the inner one whether a text is
/// there.
pub open spec fn opt_text_field(tree: JsonView, key: Seq<char>) -> Option<Option<Seq<char>>> {
    match member_of(tree, key) {
        None => Some(None),
        Some(JsonView::Null) => Some(None),
        Some(JsonView::Text(s)) => Some(Some(s)),
        _ => None,
    }
}

/// The natural number under a key that may be missing or `null`.
pub open spec fn opt_nat_field(tree: JsonView, key: Seq<char>, max: nat) -> Option<Option<nat>> {
    match member_of(tree, key) {
        None => Some(None),
        Some(JsonView::Null) => Some(None),
        Some(JsonView::Number(t)) => match parse_nat(t) {
            Some(n) => if n <= max {
                Some(Some(n))
            } else {
                None
            },
            None => None,
        },
        _ => None,
    }
}

/// Reads the text under a key.
pub fn read_text(json: &Json, key: &str) -> (r: Option<String>)
    ensures
        match text_field(json@, key@) {
            Some(s) => r matches Some(t) && t@ == s,
            None => r is None,
        },
{
    match json.get(key) {
        Some(Json::Text(s)) => Some(s.clone()),
        _ => None,
    }
}

/// Reads the truth value under a key.
pub fn read_bool(json: &Json, key: &str) -> (r: Option<bool>)
    ensures
        r == bool_field(json@, key@),
{
    match json.get(key) {
        Some(Json::Bool(b)) => Some(*b),
        _ => None,
    }
}

/// Reads the natural number under a key, if it is at most `max`.
pub fn read_u64(json: &Json, key: &str, max: u64) -> (r: Option<u64>)
    ensures
        match nat_field(json@, key@, max as nat) {
            Some(n) => r == Some(n as u64),
            None => r is None,
        },
{
    match json.get(key) {
        Some(Json::Number(t)) => match u64_from_text(t.as_str()) {
            Some(n) => if n <= max {
                Some(n)
            } else {
                None
            },
            None => None,
        },
        _ => None,
    }
}

/// Reads the decimal under a key.
pub fn read_decimal(json: &Json, key: &str) -> (r: Option<Decimal>)
    ensures
        match decimal_field(json@, key@) {
            Some(v) => r == Some(Decimal { thousandths: v as i32 }),
            None => r is None,
        },
{
    match json.get(key) {
        Some(Json::Number(t)) => Decimal::from_text(t.as_str()),
        _ => None,
    }
}

/// Reads the text under a key that may be missing or `null`.
pub fn read_opt_text(json: &Json, key: &str) -> (r: Option<Option<String>>)
    ensures
        match opt_text_field(json@, key@) {
            Some(Some(s)) => r matches Some(Some(t)) && t@ == s,
            Some(None) => r == Some(None::<String>),
            None => r is None,
        },
{
    match json.get(key) {
        None => Some(None),
        Some(Json::Null) => Some(None),
        Some(Json::Text(s)) => Some(Some(s.clone())),
        _ => None,
    }
}

/// Reads the natural number under a key that may be missing or `null`.
pub fn read_opt_u64(json: &Json, key: &str, max: u64) -> (r: Option<Option<u64>>)
    ensures
        match opt_nat_field(json@, key@, max as nat) {
            Some(Some(n)) => r == Some(Some(n as u64)),
            Some(None) => r == Some(None::<u64>),
            None => r is None,
        },
{
    match json.get(key) {
        None => Some(None),
        Some(Json::Null) => Some(None),
        Some(Json::Number(t)) => match u64_from_text(t.as_str()) {
            Some(n) => if n <= max {
                Some(Some(n))
            } else {
                None
            },
            None => None,
        },
        _ => None,
    }
}

/// A member whose key no earlier member has is the one that `lookup` finds.
pub proof fn lemma_lookup_at(members: MembersView, i: int)
    requires
        0 <= i < members.len(),
        forall|j: int| 0 <= j < i ==> (#[trigger] members[j]).0 != members[i].0,
    ensures
        lookup(members, members[i].0) == Some(members[i].1),
    decreases i,
{
    if i > 0 {
        let rest = members.skip(1);
        assert(members[0].0 != members[i].0);
        assert(rest[i - 1] == members[i]);
        assert forall|j: int| 0 <= j < i - 1 implies (#[trigger] rest[j]).0 != rest[i - 1].0 by {
            assert(rest[j] == members[j + 1]);
        }
        lemma_lookup_at(rest, i - 1);
    }
}

} // verus!
