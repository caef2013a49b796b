//! JSON values as the library sees them, and the operations on the context
//! object that is threaded through command-flow evaluation.
//!
//! An object keeps its entries in order. A key is looked up from the front,
//! so of two entries with one key only the first is seen; a merge and the
//! written text go by the first as well. Text is read and written by the
//! JSON library.

use crate::bindings::{
    array_value,
    bool_value,
    json_of_value,
    map_members,
    named_values_view,
    null_value,
    number_text,
    number_value,
    object_value,
    parse_value,
    parsed_json,
    string_value,
    value_json,
    values_view,
    write_value,
    written_json,
};
use crate::text::str_eq;
use vstd::prelude::*;

verus! {

/// A member of an object: a key and its value.
pub struct MemberV {
    pub key: Seq<char>,
    pub value: JsonV,
}

/// The mathematical value of a [`Json`].
pub enum JsonV {
    Null,
    Bool(bool),
    /// A number, by its JSON text.
    Number(Seq<char>),
    Str(Seq<char>),
    Array(Seq<JsonV>),
    Object(Seq<MemberV>),
}

/// A JSON value.
#[derive(Debug)]
pub enum Json {
    Null,
    Bool(bool),
    /// A number, by its JSON text.
    Number(String),
    Str(String),
    Array(Vec<Json>),
    Object(Vec<(String, Json)>),
}

/// The entries of an object, each by its value.
pub open spec fn entries_view(entries: Seq<(String, Json)>) -> Seq<MemberV> {
    Seq::new(entries.len(), |i: int| MemberV { key: entries[i].0@, value: entries[i].1@ })
}

/// The items of an array, each by its value.
pub open spec fn items_view(items: Seq<Json>) -> Seq<JsonV> {
    Seq::new(items.len(), |i: int| items[i]@)
}

impl View for Json {
    type V = JsonV;

    open spec fn view(&self) -> JsonV
        decreases self,
    {
        match self {
            Json::Null => JsonV::Null,
            Json::Bool(b) => JsonV::Bool(*b),
            Json::Number(n) => JsonV::Number(n@),
            Json::Str(s) => JsonV::Str(s@),
            Json::Array(v) => JsonV::Array(
                Seq::new(
                    v.len() as nat,
                    |i: int|
                        if 0 <= i < v.len() {
                            v[i].view()
                        } else {
                            JsonV::Null
                        },
                ),
            ),
            Json::Object(m) => JsonV::Object(
                Seq::new(
                    m.len() as nat,
                    |i: int|
                        if 0 <= i < m.len() {
                            MemberV { key: m[i].0@, value: m[i].1.view() }
                        } else {
                            MemberV { key: Seq::empty(), value: JsonV::Null }
                        },
                ),
            ),
        }
    }
}

/// The view of an array is the view of its items, and the view of an object
/// the view of its entries.
pub proof fn lemma_view_of_parts(j: Json)
    ensures
        j matches Json::Array(v) ==> j@ == JsonV::Array(items_view(v@)),
        j matches Json::Object(m) ==> j@ == JsonV::Object(entries_view(m@)),
{
    match j {
        Json::Array(v) => {
            assert(j@->Array_0 =~= items_view(v@));
        },
        Json::Object(m) => {
            assert(j@->Object_0 =~= entries_view(m@));
        },
        _ => {},
    }
}

/// The value of the first entry of `entries` whose key is `key`.
pub open spec fn lookup(entries: Seq<MemberV>, key: Seq<char>) -> Option<JsonV>
    decreases entries.len(),
{
    if entries.len() == 0 {
        None
    } else if entries[0].key == key {
        Some(entries[0].value)
    } else {
        lookup(entries.drop_first(), key)
    }
}

/// The place of the first entry of `entries` whose key is `key`, or -1
/// where no entry has it.
pub open spec fn key_index(entries: Seq<MemberV>, key: Seq<char>) -> int
    decreases entries.len(),
{
    if entries.len() == 0 {
        -1
    } else if entries[0].key == key {
        0
    } else {
        let rest = key_index(entries.drop_first(), key);
        if rest < 0 {
            -1
        } else {
            rest + 1
        }
    }
}

/// The place of a key is the place of the first entry that has it; what
/// is looked up under the key is the value at that place.
pub proof fn lemma_key_index(entries: Seq<MemberV>, key: Seq<char>)
    ensures
        -1 <= key_index(entries, key) < entries.len(),
        key_index(entries, key) >= 0 ==> entries[key_index(entries, key)].key == key && lookup(
            entries,
            key,
        ) == Some(entries[key_index(entries, key)].value),
        key_index(entries, key) < 0 ==> lookup(entries, key) is None,
        forall|k: int| 0 <= k < entries.len() && (k < key_index(entries, key) || key_index(entries, key) < 0)
            ==> entries[k].key != key,
    decreases entries.len(),
{
    if entries.len() > 0 && entries[0].key != key {
        lemma_key_index(entries.drop_first(), key);
        let rest = entries.drop_first();
        assert forall|k: int|
            0 <= k < entries.len() && (k < key_index(entries, key) || key_index(entries, key) < 0)
            implies entries[k].key != key by {
            if k > 0 {
                assert(entries[k] == rest[k - 1]);
            }
        }
    }
}

/// A place whose entry has the key, with no entry before it that does, is
/// the key's place; a key that no entry has has none.
pub proof fn lemma_key_index_is(entries: Seq<MemberV>, key: Seq<char>, i: int)
    requires
        -1 <= i < entries.len(),
        i >= 0 ==> entries[i].key == key,
        forall|k: int| 0 <= k < entries.len() && (k < i || i < 0) ==> entries[k].key != key,
    ensures
        key_index(entries, key) == i,
    decreases entries.len(),
{
    if entries.len() > 0 && entries[0].key != key {
        let rest = entries.drop_first();
        assert forall|k: int| 0 <= k < rest.len() && (k < i - 1 || i < 0) implies rest[k].key
            != key by {
            assert(rest[k] == entries[k + 1]);
        }
        if i < 0 {
            lemma_key_index_is(rest, key, -1);
        } else {
            lemma_key_index_is(rest, key, i - 1);
        }
    }
}

/// `entries` with `key` bound to `value`: the first entry with that key gets
/// the new value and keeps its place; without such an entry a new one goes
/// to the end.
pub open spec fn upsert(entries: Seq<MemberV>, key: Seq<char>, value: JsonV) -> Seq<MemberV>
    decreases entries.len(),
{
    if entries.len() == 0 {
        seq![MemberV { key, value }]
    } else if entries[0].key == key {
        seq![MemberV { key, value }] + entries.drop_first()
    } else {
        seq![entries[0]] + upsert(entries.drop_first(), key, value)
    }
}

/// `base` with the first `n` entries of `patch` bound in turn, first to
/// last. An entry whose key an earlier entry of the patch has is passed
/// over: of entries with one key the first counts, as in a lookup.
pub open spec fn merge_prefix(base: Seq<MemberV>, patch: Seq<MemberV>, n: nat) -> Seq<MemberV>
    decreases n,
{
    if n == 0 || n > patch.len() {
        base
    } else {
        let before = merge_prefix(base, patch, (n - 1) as nat);
        if key_index(patch, patch[n - 1].key) == n - 1 {
            upsert(before, patch[n - 1].key, patch[n - 1].value)
        } else {
            before
        }
    }
}

/// `base` with every entry of `patch` bound in turn.
pub open spec fn merge_entries(base: Seq<MemberV>, patch: Seq<MemberV>) -> Seq<MemberV> {
    merge_prefix(base, patch, patch.len())
}

/// Whether no key occurs twice in `entries`.
pub open spec fn distinct_keys(entries: Seq<MemberV>) -> bool {
    forall|i: int, j: int| 0 <= i < j < entries.len() ==> entries[i].key != entries[j].key
}

impl JsonV {
    /// The member `key` of an object; `None` for a missing key and for a
    /// value that is no object.
    pub open spec fn get(self, key: Seq<char>) -> Option<JsonV> {
        match self {
            JsonV::Object(entries) => lookup(entries, key),
            _ => None,
        }
    }

    /// The member `key` if it is a string.
    pub open spec fn get_str(self, key: Seq<char>) -> Option<Seq<char>> {
        match self.get(key) {
            Some(JsonV::Str(s)) => Some(s),
            _ => None,
        }
    }

    /// The value with `key` bound to `value`. `Null` counts as the empty
    /// object; any other value that is no object cannot take a member.
    pub open spec fn set(self, key: Seq<char>, value: JsonV) -> Option<JsonV> {
        match self {
            JsonV::Object(entries) => Some(JsonV::Object(upsert(entries, key, value))),
            JsonV::Null => Some(JsonV::Object(seq![MemberV { key, value }])),
            _ => None,
        }
    }

    /// The shallow merge of `patch` into the value: where both are objects,
    /// each member of `patch` replaces the member of that name or is added;
    /// otherwise `patch` takes the value's place.
    pub open spec fn merged(self, patch: JsonV) -> JsonV {
        match (self, patch) {
            (JsonV::Object(base), JsonV::Object(over)) => JsonV::Object(merge_entries(base, over)),
            _ => patch,
        }
    }
}

/// Looking a key up finds the first entry that has it.
pub proof fn lemma_lookup_at(entries: Seq<MemberV>, key: Seq<char>, i: int)
    requires
        0 <= i < entries.len(),
        entries[i].key == key,
        forall|k: int| 0 <= k < i ==> entries[k].key != key,
    ensures
        lookup(entries, key) == Some(entries[i].value),
    decreases i,
{
    if i > 0 {
        lemma_lookup_at(entries.drop_first(), key, i - 1);
    }
}

/// Looking up a key that no entry has finds nothing.
pub proof fn lemma_lookup_absent(entries: Seq<MemberV>, key: Seq<char>)
    requires
        forall|k: int| 0 <= k < entries.len() ==> entries[k].key != key,
    ensures
        lookup(entries, key) is None,
    decreases entries.len(),
{
    if entries.len() > 0 {
        lemma_lookup_absent(entries.drop_first(), key);
    }
}

/// Binding a key that an entry has replaces the value of the first such
/// entry.
pub proof fn lemma_upsert_at(entries: Seq<MemberV>, key: Seq<char>, value: JsonV, i: int)
    requires
        0 <= i < entries.len(),
        entries[i].key == key,
        forall|k: int| 0 <= k < i ==> entries[k].key != key,
    ensures
        upsert(entries, key, value) =~= entries.update(i, MemberV { key, value }),
    decreases i,
{
    if i > 0 {
        lemma_upsert_at(entries.drop_first(), key, value, i - 1);
    }
}

/// Binding a key that no entry has appends an entry.
pub proof fn lemma_upsert_absent(entries: Seq<MemberV>, key: Seq<char>, value: JsonV)
    requires
        forall|k: int| 0 <= k < entries.len() ==> entries[k].key != key,
    ensures
        upsert(entries, key, value) =~= entries.push(MemberV { key, value }),
    decreases entries.len(),
{
    if entries.len() > 0 {
        lemma_upsert_absent(entries.drop_first(), key, value);
    }
}

/// After a key is bound, looking it up gives the new value, and every other
/// key is found as before.
pub proof fn lemma_lookup_upsert(
    entries: Seq<MemberV>,
    key: Seq<char>,
    value: JsonV,
    other: Seq<char>,
)
    ensures
        lookup(upsert(entries, key, value), key) == Some(value),
        other != key ==> lookup(upsert(entries, key, value), other) == lookup(entries, other),
    decreases entries.len(),
{
    if entries.len() == 0 {
        assert(upsert(entries, key, value).drop_first() =~= entries);
    } else if entries[0].key == key {
        assert(upsert(entries, key, value).drop_first() =~= entries.drop_first());
    } else {
        lemma_lookup_upsert(entries.drop_first(), key, value, other);
        assert(upsert(entries, key, value).drop_first() =~= upsert(
            entries.drop_first(),
            key,
            value,
        ));
    }
}

/// Binding a key keeps the keys distinct.
pub proof fn lemma_upsert_distinct(entries: Seq<MemberV>, key: Seq<char>, value: JsonV)
    requires
        distinct_keys(entries),
    ensures
        distinct_keys(upsert(entries, key, value)),
{
    if exists|i: int| 0 <= i < entries.len() && entries[i].key == key {
        let i = choose|i: int| 0 <= i < entries.len() && entries[i].key == key;
        assert forall|k: int| 0 <= k < i implies entries[k].key != key by {
            assert(entries[k].key != entries[i].key);
        }
        lemma_upsert_at(entries, key, value, i);
    } else {
        lemma_upsert_absent(entries, key, value);
    }
}

/// Binding a part of a patch keeps the keys of the base distinct.
proof fn lemma_merge_prefix_distinct(base: Seq<MemberV>, patch: Seq<MemberV>, n: nat)
    requires
        distinct_keys(base),
    ensures
        distinct_keys(merge_prefix(base, patch, n)),
    decreases n,
{
    if n > 0 && n <= patch.len() {
        lemma_merge_prefix_distinct(base, patch, (n - 1) as nat);
        lemma_upsert_distinct(
            merge_prefix(base, patch, (n - 1) as nat),
            patch[n - 1].key,
            patch[n - 1].value,
        );
    }
}

/// A shallow merge keeps the keys of the base distinct.
pub proof fn lemma_merge_distinct(base: Seq<MemberV>, patch: Seq<MemberV>)
    requires
        distinct_keys(base),
    ensures
        distinct_keys(merge_entries(base, patch)),
{
    lemma_merge_prefix_distinct(base, patch, patch.len());
}

/// After the first `n` entries of a patch are bound, a key that one of
/// them has is found with the value of the first entry that has it, and
/// every other key as in the base.
proof fn lemma_lookup_merge_prefix(base: Seq<MemberV>, patch: Seq<MemberV>, n: nat, key: Seq<char>)
    requires
        n <= patch.len(),
    ensures
        lookup(merge_prefix(base, patch, n), key) == if 0 <= key_index(patch, key) < n {
            Some(patch[key_index(patch, key)].value)
        } else {
            lookup(base, key)
        },
    decreases n,
{
    if n > 0 {
        let before = merge_prefix(base, patch, (n - 1) as nat);
        let k = patch[n - 1].key;
        lemma_lookup_merge_prefix(base, patch, (n - 1) as nat, key);
        lemma_key_index(patch, key);
        lemma_key_index(patch, k);
        if key_index(patch, k) == n - 1 {
            lemma_lookup_upsert(before, k, patch[n - 1].value, key);
        }
    }
}

/// After a shallow merge, a key of the patch has the patch's value and
/// every other key the value it had in the base.
pub proof fn lemma_lookup_merge(
    base: Seq<MemberV>,
    patch: Seq<MemberV>,
    key: Seq<char>,
)
    ensures
        lookup(merge_entries(base, patch), key) == match lookup(patch, key) {
            Some(v) => Some(v),
            None => lookup(base, key),
        },
{
    lemma_lookup_merge_prefix(base, patch, patch.len(), key);
    lemma_key_index(patch, key);
}

impl Clone for Json {
    #[verifier::loop_isolation(false)]
    fn clone(&self) -> (r: Self)
        ensures
            r@ == self@,
        decreases self,
    {
        match self {
            Json::Null => Json::Null,
            Json::Bool(b) => Json::Bool(*b),
            Json::Number(n) => Json::Number(n.clone()),
            Json::Str(s) => Json::Str(s.clone()),
            Json::Array(v) => {
                let mut out: Vec<Json> = Vec::new();
                let mut i: usize = 0;
                while i < v.len()
                    invariant
                        i <= v.len(),
                        out.len() == i,
                        forall|k: int| 0 <= k < i ==> out[k]@ == v[k]@,
                    decreases v.len() - i,
                {
                    out.push(v[i].clone());
                    i += 1;
                }
                let r = Json::Array(out);
                assert(r@->Array_0 =~= self@->Array_0);
                r
            },
            Json::Object(m) => {
                let mut out: Vec<(String, Json)> = Vec::new();
                let mut i: usize = 0;
                while i < m.len()
                    invariant
                        i <= m.len(),
                        out.len() == i,
                        forall|k: int| 0 <= k < i ==> out[k].0@ == m[k].0@ && out[k].1@ == m[k].1@,
                    decreases m.len() - i,
                {
                    out.push((m[i].0.clone(), m[i].1.clone()));
                    i += 1;
                }
                let r = Json::Object(out);
                assert(r@->Object_0 =~= self@->Object_0);
                r
            },
        }
    }
}

/// The place of the first entry of `entries` whose key is `key`.
fn find_entry(entries: &Vec<(String, Json)>, key: &str) -> (r: Option<usize>)
    ensures
        match r {
            Some(i) => i < entries.len() && entries[i as int].0@ == key@ && forall|k: int|
                0 <= k < i ==> entries[k].0@ != key@,
            None => forall|k: int| 0 <= k < entries.len() ==> entries[k].0@ != key@,
        },
{
    let mut i: usize = 0;
    while i < entries.len()
        invariant
            i <= entries.len(),
            forall|k: int| 0 <= k < i ==> entries[k].0@ != key@,
        decreases entries.len() - i,
    {
        if str_eq(entries[i].0.as_str(), key) {
            return Some(i);
        }
        i += 1;
    }
    None
}

/// Binds `key` to `value` in the entries of an object.
fn upsert_entry(entries: &mut Vec<(String, Json)>, key: String, value: Json)
    ensures
        entries_view(final(entries)@) == upsert(entries_view(old(entries)@), key@, value@),
{
    let ghost before = entries_view(entries@);
    match find_entry(entries, key.as_str()) {
        Some(i) => {
            proof {
                lemma_upsert_at(before, key@, value@, i as int);
            }
            entries.set(i, (key, value));
            assert(entries_view(entries@) =~= before.update(i as int, MemberV { key: key@, value: value@ }));
        },
        None => {
            proof {
                lemma_upsert_absent(before, key@, value@);
            }
            entries.push((key, value));
            assert(entries_view(entries@) =~= before.push(MemberV { key: key@, value: value@ }));
        },
    }
}

/// The place of the member `key` among the members of an object.
pub fn member_index(members: &Vec<(String, Json)>, key: &str) -> (r: Option<usize>)
    ensures
        match r {
            Some(i) => key_index(entries_view(members@), key@) == i && i < members.len(),
            None => key_index(entries_view(members@), key@) == -1,
        },
{
    let r = find_entry(members, key);
    proof {
        match r {
            Some(i) => lemma_key_index_is(entries_view(members@), key@, i as int),
            None => lemma_key_index_is(entries_view(members@), key@, -1),
        }
    }
    r
}

/// Whether no key occurs twice among the members of an object.
pub fn has_distinct_keys(members: &Vec<(String, Json)>) -> (r: bool)
    ensures
        r == distinct_keys(entries_view(members@)),
{
    let ghost all = entries_view(members@);
    let mut i: usize = 0;
    while i < members.len()
        invariant
            i <= members.len(),
            all == entries_view(members@),
            forall|a: int, b: int| 0 <= a < b < i ==> all[a].key != all[b].key,
        decreases members.len() - i,
    {
        let first = member_index(members, members[i].0.as_str());
        proof {
            lemma_key_index(all, all[i as int].key);
        }
        if first != Some(i) {
            assert(all[key_index(all, all[i as int].key)].key == all[i as int].key);
            return false;
        }
        i += 1;
    }
    true
}

impl Json {
    /// An object without members.
    pub fn empty_object() -> (r: Json)
        ensures
            r@ == JsonV::Object(Seq::empty()),
    {
        let r = Json::Object(Vec::new());
        assert(r@->Object_0 =~= Seq::empty());
        r
    }

    /// A string value.
    pub fn string(s: &str) -> (r: Json)
        ensures
            r@ == JsonV::Str(s@),
    {
        Json::Str(s.to_owned())
    }

    /// The member `key` of an object.
    pub fn get(&self, key: &str) -> (r: Option<&Json>)
        ensures
            match r {
                Some(v) => self@.get(key@) == Some(v@),
                None => self@.get(key@) is None,
            },
    {
        match self {
            Json::Object(m) => {
                proof {
                    lemma_view_of_parts(*self);
                }
                match find_entry(m, key) {
                    Some(i) => {
                        proof {
                            lemma_lookup_at(entries_view(m@), key@, i as int);
                        }
                        Some(&m[i].1)
                    },
                    None => {
                        proof {
                            lemma_lookup_absent(entries_view(m@), key@);
                        }
                        None
                    },
                }
            },
            _ => None,
        }
    }

    /// The member `key` if it is a string.
    pub fn get_str(&self, key: &str) -> (r: Option<String>)
        ensures
            match r {
                Some(s) => self@.get_str(key@) == Some(s@),
                None => self@.get_str(key@) is None,
            },
    {
        match self.get(key) {
            Some(v) => match v {
                Json::Str(s) => Some(s.clone()),
                _ => None,
            },
            None => None,
        }
    }

    /// Binds `key` to `value`. A value that is neither an object nor `Null`
    /// cannot take a member and comes back unchanged as the error.
    pub fn set(self, key: String, value: Json) -> (r: Result<Json, Json>)
        ensures
            match r {
                Ok(j) => self@.set(key@, value@) == Some(j@),
                Err(j) => self@.set(key@, value@) is None && j@ == self@,
            },
    {
        match self {
            Json::Object(m) => {
                proof {
                    lemma_view_of_parts(self);
                }
                let mut m = m;
                upsert_entry(&mut m, key, value);
                let r = Json::Object(m);
                proof {
                    lemma_view_of_parts(r);
                }
                Ok(r)
            },
            Json::Null => {
                let ghost k = key@;
                let ghost v = value@;
                let mut m: Vec<(String, Json)> = Vec::new();
                m.push((key, value));
                let r = Json::Object(m);
                proof {
                    lemma_view_of_parts(r);
                    assert(entries_view(m@) =~= seq![MemberV { key: k, value: v }]);
                }
                Ok(r)
            },
            other => Err(other),
        }
    }

    /// The shallow merge of `patch` into the value.
    pub fn merge(self, patch: &Json) -> (r: Json)
        ensures
            r@ == self@.merged(patch@),
    {
        match self {
            Json::Object(base) => match patch {
                Json::Object(over) => {
                    proof {
                        lemma_view_of_parts(self);
                        lemma_view_of_parts(*patch);
                    }
                    let mut base = base;
                    let ghost start = entries_view(base@);
                    let ghost all = entries_view(over@);
                    let mut i: usize = 0;
                    while i < over.len()
                        invariant
                            i <= over.len(),
                            all == entries_view(over@),
                            entries_view(base@) == merge_prefix(start, all, i as nat),
                        decreases over.len() - i,
                    {
                        let first = member_index(over, over[i].0.as_str());
                        if first == Some(i) {
                            upsert_entry(&mut base, over[i].0.clone(), over[i].1.clone());
                        }
                        i += 1;
                    }
                    let r = Json::Object(base);
                    proof {
                        lemma_view_of_parts(r);
                    }
                    r
                },
                _ => patch.clone(),
            },
            _ => patch.clone(),
        }
    }
}

/// The items `items[..n]`, each as the JSON library holds it.
pub open spec fn stored_items(items: Seq<JsonV>, n: nat) -> Seq<JsonV>
    decreases items, n,
{
    if n == 0 || n > items.len() {
        Seq::empty()
    } else {
        stored_items(items, (n - 1) as nat).push(stored(items[n - 1]))
    }
}

/// Of the members `members[..n]` those whose key no earlier member has,
/// each with its value as the JSON library holds it.
pub open spec fn stored_members(members: Seq<MemberV>, n: nat) -> Seq<MemberV>
    decreases members, n,
{
    if n == 0 || n > members.len() {
        Seq::empty()
    } else {
        let before = stored_members(members, (n - 1) as nat);
        if key_index(members, members[n - 1].key) == n - 1 {
            before.push(MemberV { key: members[n - 1].key, value: stored(members[n - 1].value) })
        } else {
            before
        }
    }
}

/// A value as the JSON library holds it. `null`, truth values, strings
/// and arrays are held as they are. A number is held as the library reads
/// it, and written by the library's text for it; a text that spells no
/// number is held as `null`. Of the members of an object with one key the
/// first is held, and the library keeps the members in the order of their
/// keys.
pub open spec fn stored(j: JsonV) -> JsonV
    decreases j, 0nat,
{
    match j {
        JsonV::Null => JsonV::Null,
        JsonV::Bool(b) => JsonV::Bool(b),
        JsonV::Number(text) => match number_text(text) {
            Some(n) => JsonV::Number(n),
            None => JsonV::Null,
        },
        JsonV::Str(s) => JsonV::Str(s),
        JsonV::Array(items) => JsonV::Array(stored_items(items, items.len())),
        JsonV::Object(members) => JsonV::Object(
            map_members(stored_members(members, members.len())),
        ),
    }
}

/// The JSON text of a value: what the library writes for the value as it
/// holds it.
pub open spec fn json_text(j: JsonV) -> Seq<char> {
    written_json(stored(j))
}

/// The values of `items` as the JSON library holds them.
fn values_of(items: &Vec<Json>) -> (r: Vec<serde_json::Value>)
    ensures
        values_view(r@) == stored_items(items_view(items@), items.len() as nat),
    decreases items, 0nat,
{
    let ghost all = items_view(items@);
    let mut out: Vec<serde_json::Value> = Vec::new();
    let mut i: usize = 0;
    assert(values_view(out@) =~= stored_items(all, 0));
    while i < items.len()
        invariant
            i <= items.len(),
            all == items_view(items@),
            values_view(out@) == stored_items(all, i as nat),
        decreases items.len() - i,
    {
        let ghost before = values_view(out@);
        let value = items[i].to_value();
        let ghost held = value_json(value);
        out.push(value);
        assert(values_view(out@) =~= before.push(held));
        i += 1;
    }
    out
}

/// The members of an object as the JSON library is handed them: the first
/// of each key, with its value as the library holds it.
fn members_of(members: &Vec<(String, Json)>) -> (r: Vec<(String, serde_json::Value)>)
    ensures
        named_values_view(r@) == stored_members(entries_view(members@), members.len() as nat),
        distinct_keys(named_values_view(r@)),
    decreases members, 0nat,
{
    let ghost all = entries_view(members@);
    let mut out: Vec<(String, serde_json::Value)> = Vec::new();
    let ghost mut from: Seq<int> = Seq::empty();
    let mut i: usize = 0;
    assert(named_values_view(out@) =~= stored_members(all, 0));
    while i < members.len()
        invariant
            i <= members.len(),
            all == entries_view(members@),
            named_values_view(out@) == stored_members(all, i as nat),
            from.len() == out.len(),
            forall|a: int|
                0 <= a < from.len() ==> 0 <= #[trigger] from[a] < i && out[a].0@ == all[from[a]].key
                    && key_index(all, out[a].0@) == from[a],
            forall|a: int, b: int| 0 <= a < b < from.len() ==> from[a] < from[b],
        decreases members.len() - i,
    {
        let first = member_index(members, members[i].0.as_str());
        if first == Some(i) {
            let ghost before = named_values_view(out@);
            let value = members[i].1.to_value();
            let ghost held = value_json(value);
            out.push((members[i].0.clone(), value));
            proof {
                from = from.push(i as int);
                assert(named_values_view(out@) =~= before.push(
                    MemberV { key: all[i as int].key, value: held },
                ));
            }
        }
        i += 1;
    }
    assert forall|a: int, b: int| 0 <= a < b < out.len() implies named_values_view(out@)[a].key
        != named_values_view(out@)[b].key by {
        assert(from[a] < from[b]);
    }
    out
}

impl Json {
    /// The value as the JSON library holds it.
    pub(crate) fn to_value(&self) -> (r: serde_json::Value)
        ensures
            value_json(r) == stored(self@),
        decreases self, 1nat,
    {
        match self {
            Json::Null => null_value(),
            Json::Bool(b) => bool_value(*b),
            Json::Number(text) => match number_value(text.as_str()) {
                Some(value) => value,
                None => null_value(),
            },
            Json::Str(s) => string_value(s.as_str()),
            Json::Array(items) => {
                proof {
                    lemma_view_of_parts(*self);
                }
                array_value(values_of(items))
            },
            Json::Object(members) => {
                proof {
                    lemma_view_of_parts(*self);
                }
                object_value(members_of(members))
            },
        }
    }
}

impl Json {
    /// Reads a JSON document: the value it holds, or the parser's message
    /// where the text is none.
    pub fn from_text(text: &str) -> (r: Result<Json, String>)
        ensures
            match r {
                Ok(j) => parsed_json(text@) == Some(j@),
                Err(_) => parsed_json(text@) is None,
            },
    {
        match parse_value(text) {
            Ok(value) => Ok(json_of_value(&value)),
            Err(message) => Err(message),
        }
    }

    /// The JSON text of the value.
    pub fn to_text(&self) -> (r: String)
        ensures
            r@ == json_text(self@),
    {
        let value = self.to_value();
        write_value(&value)
    }
}

} // verus!
