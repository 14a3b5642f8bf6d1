//! The generic JSON value that documents are decoded from and encoded to.

use vstd::prelude::*;

verus! {

/// A JSON number. Integers are held exactly; any other number is carried as
/// the bit pattern of its IEEE 754 double and never inspected.
#[derive(Debug, Clone, Copy, PartialEq, Eq)]
pub enum Number {
    PosInt(u64),
    NegInt(i64),
    Float(u64),
}

impl Number {
    /// The integer that the number denotes, if it is one.
    pub open spec fn as_int(self) -> Option<int> {
        match self {
            Number::PosInt(n) => Some(n as int),
            Number::NegInt(n) => Some(n as int),
            Number::Float(_) => None,
        }
    }

    /// The integer that the number denotes, if it is one.
    pub fn integer(&self) -> (r: Option<i128>)
        ensures
            match r {
                Some(n) => self.as_int() == Some(n as int),
                None => self.as_int() is None,
            },
    {
        match self {
            Number::PosInt(n) => Some(*n as i128),
            Number::NegInt(n) => Some(*n as i128),
            Number::Float(_) => None,
        }
    }
}

/// A JSON value. An object keeps its members in order; where a key occurs
/// more than once, readers see the first occurrence.
#[derive(Debug, PartialEq, Eq)]
pub enum Json {
    Null,
    Bool(bool),
    Number(Number),
    Str(String),
    Array(Vec<Json>),
    Object(Vec<(String, Json)>),
}

/// The mathematical model of a [`Json`] value.
pub enum JsonView {
    Null,
    Bool(bool),
    Number(Number),
    Str(Seq<char>),
    Array(Seq<JsonView>),
    Object(Seq<(Seq<char>, JsonView)>),
}

/// The members of an object, in order.
pub type Members = Seq<(Seq<char>, JsonView)>;

/// The model of a JSON value.
pub open spec fn json_view(json: Json) -> JsonView
    decreases json,
{
    match json {
        Json::Null => JsonView::Null,
        Json::Bool(b) => JsonView::Bool(b),
        Json::Number(n) => JsonView::Number(n),
        Json::Str(s) => JsonView::Str(s@),
        Json::Array(items) => JsonView::Array(items_view(items@)),
        Json::Object(members) => JsonView::Object(members_view(members@)),
    }
}

/// The models of the items of an array, in order.
pub open spec fn items_view(items: Seq<Json>) -> Seq<JsonView>
    decreases items,
{
    Seq::new(
        items.len(),
        |i: int|
            if 0 <= i < items.len() {
                json_view(items[i])
            } else {
                JsonView::Null
            },
    )
}

/// The models of the members of an object, in order.
pub open spec fn members_view(members: Seq<(String, Json)>) -> Members
    decreases members,
{
    Seq::new(
        members.len(),
        |i: int|
            if 0 <= i < members.len() {
                (members[i].0@, json_view(members[i].1))
            } else {
                (Seq::empty(), JsonView::Null)
            },
    )
}

impl View for Json {
    type V = JsonView;

    open spec fn view(&self) -> JsonView {
        json_view(*self)
    }
}

impl Clone for Json {
    #[verifier::loop_isolation(false)]
    fn clone(&self) -> (copy: Json)
        ensures
            copy@ == self@,
        decreases self,
    {
        match self {
            Json::Null => Json::Null,
            Json::Bool(b) => Json::Bool(*b),
            Json::Number(n) => Json::Number(*n),
            Json::Str(s) => Json::Str(s.clone()),
            Json::Array(items) => {
                let mut copy: Vec<Json> = Vec::new();
                let mut i: usize = 0;
                while i < items.len()
                    invariant
                        i <= items.len(),
                        copy@.len() == i,
                        forall|j: int| 0 <= j < i ==> (#[trigger] copy@[j])@ == items@[j]@,
                    decreases items.len() - i,
                {
                    copy.push(items[i].clone());
                    i += 1;
                }
                assert(items_view(copy@) =~= items_view(items@));
                Json::Array(copy)
            },
            Json::Object(members) => {
                let mut copy: Vec<(String, Json)> = Vec::new();
                let mut i: usize = 0;
                while i < members.len()
                    invariant
                        i <= members.len(),
                        copy@.len() == i,
                        forall|j: int|
                            0 <= j < i ==> (#[trigger] copy@[j]).0@ == members@[j].0@ && copy@[j].1@
                                == members@[j].1@,
                    decreases members.len() - i,
                {
                    copy.push((members[i].0.clone(), members[i].1.clone()));
                    i += 1;
                }
                assert(members_view(copy@) =~= members_view(members@));
                Json::Object(copy)
            },
        }
    }
}

/// The value of the first member named `key`, if there is one.
pub open spec fn lookup(members: Members, key: Seq<char>) -> Option<JsonView>
    decreases members.len(),
{
    if members.len() == 0 {
        None
    } else if members[0].0 == key {
        Some(members[0].1)
    } else {
        lookup(members.drop_first(), key)
    }
}

/// A lookup in a concatenation searches the left part first.
pub broadcast proof fn lemma_lookup_concat(a: Members, b: Members, key: Seq<char>)
    ensures
        #[trigger] lookup(a + b, key) == match lookup(a, key) {
            Some(value) => Some(value),
            None => lookup(b, key),
        },
    decreases a.len(),
{
    if a.len() == 0 {
        assert(a + b == b);
    } else {
        assert((a + b).drop_first() == a.drop_first() + b);
        lemma_lookup_concat(a.drop_first(), b, key);
    }
}

/// A lookup in a single member finds it exactly under its own key.
pub broadcast proof fn lemma_lookup_single(name: Seq<char>, value: JsonView, key: Seq<char>)
    ensures
        #[trigger] lookup(seq![(name, value)], key) == if name == key {
            Some(value)
        } else {
            None
        },
{
    let m = seq![(name, value)];
    assert(m.drop_first().len() == 0);
    assert(lookup(m.drop_first(), key) is None);
}

/// What a lookup finds lies strictly inside the member list.
pub proof fn lemma_lookup_decreases(members: Members, key: Seq<char>)
    ensures
        lookup(members, key) matches Some(value) ==> decreases_to!(members => value),
    decreases members.len(),
{
    if members.len() != 0 && members[0].0 != key {
        lemma_lookup_decreases(members.drop_first(), key);
        if lookup(members, key) is Some {
            let value = lookup(members, key)->0;
            assert(decreases_to!(members => members.drop_first()));
        }
    }
}

/// Whether arrays and objects are nested in a value at most `limit` deep: a
/// value that is neither nests within any limit, and an array or an object
/// nests within a limit above zero within which, less one, each of its items
/// or member values nests.
pub open spec fn nests_within(json: JsonView, limit: nat) -> bool
    decreases json, 0nat,
{
    match json {
        JsonView::Array(items) => limit > 0 && items_nest_within(
            items,
            (limit - 1) as nat,
            items.len(),
        ),
        JsonView::Object(members) => limit > 0 && members_nest_within(
            members,
            (limit - 1) as nat,
            members.len(),
        ),
        _ => true,
    }
}

/// Whether each of the first `n` items nests within `limit`.
pub open spec fn items_nest_within(items: Seq<JsonView>, limit: nat, n: nat) -> bool
    decreases items, n,
{
    if n == 0 || n > items.len() {
        true
    } else {
        items_nest_within(items, limit, (n - 1) as nat) && nests_within(items[n - 1], limit)
    }
}

/// Whether the value of each of the first `n` members nests within `limit`.
pub open spec fn members_nest_within(members: Members, limit: nat, n: nat) -> bool
    decreases members, n,
{
    if n == 0 || n > members.len() {
        true
    } else {
        members_nest_within(members, limit, (n - 1) as nat) && nests_within(
            members[n - 1].1,
            limit,
        )
    }
}

impl Json {
    /// Whether arrays and objects are nested in the value at most `limit`
    /// deep. The check itself goes no deeper than `limit`, so it can be made
    /// on a value from an untrusted source before the value is decoded.
    #[verifier::loop_isolation(false)]
    pub fn nests_within(&self, limit: usize) -> (r: bool)
        ensures
            r == nests_within(self@, limit as nat),
        decreases self,
    {
        match self {
            Json::Array(items) => {
                if limit == 0 {
                    return false;
                }
                let ghost all = items_view(items@);
                let mut i: usize = 0;
                while i < items.len()
                    invariant
                        i <= items.len(),
                        items_nest_within(all, (limit - 1) as nat, i as nat),
                    decreases items.len() - i,
                {
                    assert(all[i as int] == items@[i as int]@);
                    if !items[i].nests_within(limit - 1) {
                        proof {
                            lemma_items_nest_within(
                                all,
                                (limit - 1) as nat,
                                (i + 1) as nat,
                                all.len(),
                            );
                        }
                        return false;
                    }
                    i += 1;
                }
                true
            },
            Json::Object(members) => {
                if limit == 0 {
                    return false;
                }
                let ghost all = members_view(members@);
                let mut i: usize = 0;
                while i < members.len()
                    invariant
                        i <= members.len(),
                        members_nest_within(all, (limit - 1) as nat, i as nat),
                    decreases members.len() - i,
                {
                    assert(all[i as int].1 == members@[i as int].1@);
                    if !members[i].1.nests_within(limit - 1) {
                        proof {
                            lemma_members_nest_within(
                                all,
                                (limit - 1) as nat,
                                (i + 1) as nat,
                                all.len(),
                            );
                        }
                        return false;
                    }
                    i += 1;
                }
                true
            },
            _ => true,
        }
    }
}

/// Where the first `n` items nest within a limit, so do the first `m` of
/// them.
pub proof fn lemma_items_nest_within(items: Seq<JsonView>, limit: nat, m: nat, n: nat)
    requires
        m <= n <= items.len(),
    ensures
        items_nest_within(items, limit, n) ==> items_nest_within(items, limit, m),
    decreases n,
{
    if m < n {
        lemma_items_nest_within(items, limit, m, (n - 1) as nat);
    }
}

/// Where the values of the first `n` members nest within a limit, so do
/// those of the first `m` of them.
pub proof fn lemma_members_nest_within(members: Members, limit: nat, m: nat, n: nat)
    requires
        m <= n <= members.len(),
    ensures
        members_nest_within(members, limit, n) ==> members_nest_within(members, limit, m),
    decreases n,
{
    if m < n {
        lemma_members_nest_within(members, limit, m, (n - 1) as nat);
    }
}

/// Whether two strings hold the same characters.
pub fn same(a: &str, b: &str) -> (r: bool)
    ensures
        r == (a@ == b@),
{
    broadcast use {vstd::utf8::encode_utf8_decode_utf8, vstd::utf8::encode_utf8_valid_utf8};

    let x = a.as_bytes();
    let y = b.as_bytes();
    if x.len() != y.len() {
        return false;
    }
    let mut i: usize = 0;
    while i < x.len()
        invariant
            i <= x.len(),
            x.len() == y.len(),
            x@ == vstd::utf8::encode_utf8(a@),
            y@ == vstd::utf8::encode_utf8(b@),
            forall|j: int| 0 <= j < i ==> x@[j] == y@[j],
        decreases x.len() - i,
    {
        if x[i] != y[i] {
            assert(a@ == b@ ==> x@[i as int] == y@[i as int]);
            return false;
        }
        i += 1;
    }
    assert(x@ =~= y@);
    assert(vstd::utf8::decode_utf8(vstd::utf8::encode_utf8(a@)) == vstd::utf8::decode_utf8(
        vstd::utf8::encode_utf8(b@),
    ));
    true
}

/// The first member named `key`.
pub fn get<'a>(members: &'a Vec<(String, Json)>, key: &str) -> (r: Option<&'a Json>)
    ensures
        match r {
            Some(value) => lookup(members_view(members@), key@) == Some(value@),
            None => lookup(members_view(members@), key@) is None,
        },
{
    let ghost all = members_view(members@);
    assert(all.subrange(0, all.len() as int) == all);
    let mut i: usize = 0;
    while i < members.len()
        invariant
            i <= members.len(),
            all == members_view(members@),
            lookup(all, key@) == lookup(all.subrange(i as int, all.len() as int), key@),
        decreases members.len() - i,
    {
        proof {
            let rest = all.subrange(i as int, all.len() as int);
            assert(rest.drop_first() == all.subrange(i + 1, all.len() as int));
        }
        if same(members[i].0.as_str(), key) {
            return Some(&members[i].1);
        }
        i += 1;
    }
    None
}

} // verus!
