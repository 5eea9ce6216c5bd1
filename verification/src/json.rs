//! JSON values as the library holds them: the open-ended property maps of
//! JSCalendar and JSContact objects, and other server-defined data.
use vstd::prelude::*;
use vstd::string::*;

use crate::text::str_eq;

verus! {

/// A JSON value. A number is held as its decimal text, as the JSON document
/// writes it.
#[derive(Debug)]
pub enum JsonValue {
    Null,
    Bool(bool),
    Number(String),
    String(String),
    Array(Vec<JsonValue>),
    Object(JsonMap),
}

/// A JSON object: members with pairwise distinct names.
#[derive(Debug)]
pub struct JsonMap {
    pub entries: Vec<(String, JsonValue)>,
}

/// The members of a map have pairwise distinct names.
pub open spec fn keys_distinct(e: Seq<(String, JsonValue)>) -> bool {
    forall|i: int, j: int| 0 <= i < j < e.len() ==> (#[trigger] e[i]).0@ != (#[trigger] e[j]).0@
}

/// Some member of `e` has the name `k`.
pub open spec fn has_key(e: Seq<(String, JsonValue)>, k: Seq<char>) -> bool {
    exists|i: int| 0 <= i < e.len() && (#[trigger] e[i]).0@ == k
}

/// The position of the member named `k`.
pub open spec fn key_index(e: Seq<(String, JsonValue)>, k: Seq<char>) -> int {
    choose|i: int| 0 <= i < e.len() && (#[trigger] e[i]).0@ == k
}

/// The map from member names to values.
pub open spec fn entries_map(e: Seq<(String, JsonValue)>) -> Map<Seq<char>, JsonValue> {
    Map::new(|k: Seq<char>| has_key(e, k), |k: Seq<char>| e[key_index(e, k)].1)
}

proof fn lemma_key_index_unique(e: Seq<(String, JsonValue)>, k: Seq<char>, i: int)
    requires
        keys_distinct(e),
        0 <= i < e.len(),
        e[i].0@ == k,
    ensures
        has_key(e, k),
        key_index(e, k) == i,
{
    assert(has_key(e, k));
    let j = key_index(e, k);
    if j < i {
        assert(e[j].0@ != e[i].0@);
    } else if j > i {
        assert(e[i].0@ != e[j].0@);
    }
}

/// Replacing the value of the member at `i` updates the map at its name.
proof fn lemma_update_value(e: Seq<(String, JsonValue)>, i: int, entry: (String, JsonValue))
    requires
        keys_distinct(e),
        0 <= i < e.len(),
        entry.0@ == e[i].0@,
    ensures
        keys_distinct(e.update(i, entry)),
        entries_map(e.update(i, entry)) == entries_map(e).insert(entry.0@, entry.1),
{
    let u = e.update(i, entry);
    assert forall|a: int, b: int| 0 <= a < b < u.len() implies (#[trigger] u[a]).0@ != (#[trigger] u[b]).0@ by {
        assert(u[a].0@ == e[a].0@);
        assert(u[b].0@ == e[b].0@);
        assert(e[a].0@ != e[b].0@);
    }
    lemma_key_index_unique(u, entry.0@, i);
    assert forall|k: Seq<char>| #[trigger] entries_map(u).contains_key(k) <==> entries_map(e).insert(entry.0@, entry.1).contains_key(k) by {
        if has_key(u, k) {
            let j = choose|j: int| 0 <= j < u.len() && (#[trigger] u[j]).0@ == k;
            assert(e[j].0@ == k);
        }
        if has_key(e, k) {
            let j = choose|j: int| 0 <= j < e.len() && (#[trigger] e[j]).0@ == k;
            assert(u[j].0@ == k);
        }
    }
    assert forall|k: Seq<char>| #[trigger] entries_map(u).contains_key(k) implies entries_map(u)[k] == entries_map(e).insert(entry.0@, entry.1)[k] by {
        if k != entry.0@ {
            let j = choose|j: int| 0 <= j < u.len() && (#[trigger] u[j]).0@ == k;
            assert(j != i);
            assert(e[j].0@ == k);
            lemma_key_index_unique(u, k, j);
            lemma_key_index_unique(e, k, j);
        }
    }
    assert(entries_map(u) =~= entries_map(e).insert(entry.0@, entry.1));
}

/// Adding a member with a new name adds it to the map.
proof fn lemma_push_new(e: Seq<(String, JsonValue)>, entry: (String, JsonValue))
    requires
        keys_distinct(e),
        !has_key(e, entry.0@),
    ensures
        keys_distinct(e.push(entry)),
        entries_map(e.push(entry)) == entries_map(e).insert(entry.0@, entry.1),
{
    let u = e.push(entry);
    assert forall|a: int, b: int| 0 <= a < b < u.len() implies (#[trigger] u[a]).0@ != (#[trigger] u[b]).0@ by {
        if b == e.len() {
            assert(u[a] == e[a]);
            if e[a].0@ == entry.0@ {
                assert(has_key(e, entry.0@));
            }
        } else {
            assert(u[a] == e[a]);
            assert(u[b] == e[b]);
        }
    }
    lemma_key_index_unique(u, entry.0@, e.len() as int);
    assert forall|k: Seq<char>| #[trigger] entries_map(u).contains_key(k) <==> entries_map(e).insert(entry.0@, entry.1).contains_key(k) by {
        if has_key(u, k) && k != entry.0@ {
            let j = choose|j: int| 0 <= j < u.len() && (#[trigger] u[j]).0@ == k;
            assert(j < e.len());
            assert(e[j].0@ == k);
        }
        if has_key(e, k) {
            let j = choose|j: int| 0 <= j < e.len() && (#[trigger] e[j]).0@ == k;
            assert(u[j].0@ == k);
        }
    }
    assert forall|k: Seq<char>| #[trigger] entries_map(u).contains_key(k) implies entries_map(u)[k] == entries_map(e).insert(entry.0@, entry.1)[k] by {
        if k != entry.0@ {
            let j = choose|j: int| 0 <= j < u.len() && (#[trigger] u[j]).0@ == k;
            assert(j < e.len());
            assert(u[j] == e[j]);
            lemma_key_index_unique(u, k, j);
            lemma_key_index_unique(e, k, j);
        }
    }
    assert(entries_map(u) =~= entries_map(e).insert(entry.0@, entry.1));
}

/// Taking out the member at `i` takes its name out of the map.
proof fn lemma_remove_at(e: Seq<(String, JsonValue)>, i: int)
    requires
        keys_distinct(e),
        0 <= i < e.len(),
    ensures
        keys_distinct(e.remove(i)),
        entries_map(e.remove(i)) == entries_map(e).remove(e[i].0@),
{
    let u = e.remove(i);
    let k0 = e[i].0@;
    assert forall|a: int, b: int| 0 <= a < b < u.len() implies (#[trigger] u[a]).0@ != (#[trigger] u[b]).0@ by {
        let a0 = if a < i { a } else { a + 1 };
        let b0 = if b < i { b } else { b + 1 };
        assert(u[a] == e[a0]);
        assert(u[b] == e[b0]);
        assert(e[a0].0@ != e[b0].0@);
    }
    assert forall|k: Seq<char>| #[trigger] entries_map(u).contains_key(k) <==> entries_map(e).remove(k0).contains_key(k) by {
        if has_key(u, k) {
            let j = choose|j: int| 0 <= j < u.len() && (#[trigger] u[j]).0@ == k;
            let j0 = if j < i { j } else { j + 1 };
            assert(u[j] == e[j0]);
            assert(e[j0].0@ == k);
            assert(j0 != i);
            if k == k0 {
                if j0 < i { assert(e[j0].0@ != e[i].0@); } else { assert(e[i].0@ != e[j0].0@); }
            }
        }
        if has_key(e, k) && k != k0 {
            let j = choose|j: int| 0 <= j < e.len() && (#[trigger] e[j]).0@ == k;
            assert(j != i);
            let j1 = if j < i { j } else { j - 1 };
            assert(u[j1] == e[j]);
        }
    }
    assert forall|k: Seq<char>| #[trigger] entries_map(u).contains_key(k) implies entries_map(u)[k] == entries_map(e).remove(k0)[k] by {
        let j = choose|j: int| 0 <= j < u.len() && (#[trigger] u[j]).0@ == k;
        let j0 = if j < i { j } else { j + 1 };
        assert(u[j] == e[j0]);
        lemma_key_index_unique(u, k, j);
        lemma_key_index_unique(e, k, j0);
    }
    assert(entries_map(u) =~= entries_map(e).remove(k0));
}

impl JsonMap {
    /// The map from member names to values.
    pub open spec fn view(&self) -> Map<Seq<char>, JsonValue> {
        entries_map(self.entries@)
    }

    /// The members have pairwise distinct names.
    pub open spec fn wf(&self) -> bool {
        keys_distinct(self.entries@)
    }

    /// An empty object.
    pub fn new() -> (m: JsonMap)
        ensures
            m.wf(),
            m@ == Map::<Seq<char>, JsonValue>::empty(),
    {
        let m = JsonMap { entries: Vec::new() };
        assert(m@ =~= Map::<Seq<char>, JsonValue>::empty());
        m
    }

    /// The number of members.
    pub fn len(&self) -> (n: usize)
        ensures
            n == self.entries@.len(),
    {
        self.entries.len()
    }

    fn find(&self, key: &str) -> (r: Option<usize>)
        requires
            self.wf(),
        ensures
            match r {
                Some(i) => i < self.entries@.len() && self.entries@[i as int].0@ == key@ && key_index(self.entries@, key@) == i,
                None => !has_key(self.entries@, key@),
            },
    {
        let mut i: usize = 0;
        while i < self.entries.len()
            invariant
                i <= self.entries@.len(),
                keys_distinct(self.entries@),
                forall|j: int| 0 <= j < i ==> self.entries@[j].0@ != key@,
            decreases self.entries@.len() - i,
        {
            if str_eq(self.entries[i].0.as_str(), key) {
                proof {
                    lemma_key_index_unique(self.entries@, key@, i as int);
                }
                return Some(i);
            }
            i = i + 1;
        }
        proof {
            if has_key(self.entries@, key@) {
                let j = choose|j: int| 0 <= j < self.entries@.len() && (#[trigger] self.entries@[j]).0@ == key@;
                assert(self.entries@[j].0@ != key@);
            }
        }
        None
    }

    /// Whether a member has the name `key`.
    pub fn contains_key(&self, key: &str) -> (r: bool)
        requires
            self.wf(),
        ensures
            r == self@.contains_key(key@),
    {
        self.find(key).is_some()
    }

    /// The value of the member named `key`.
    pub fn get(&self, key: &str) -> (r: Option<&JsonValue>)
        requires
            self.wf(),
        ensures
            r == if self@.contains_key(key@) {
                Some(&self@[key@])
            } else {
                None::<&JsonValue>
            },
    {
        match self.find(key) {
            Some(i) => Some(&self.entries[i].1),
            None => None,
        }
    }

    /// Sets the member named `key` to `value`, returning the value it
    /// replaced. A new member goes after the others.
    pub fn insert(&mut self, key: String, value: JsonValue) -> (r: Option<JsonValue>)
        requires
            old(self).wf(),
        ensures
            final(self).wf(),
            final(self)@ == old(self)@.insert(key@, value),
            r == if old(self)@.contains_key(key@) {
                Some(old(self)@[key@])
            } else {
                None::<JsonValue>
            },
    {
        match self.find(key.as_str()) {
            Some(i) => {
                let len = self.entries.len();
                assert(i < len);
                let ghost before = self.entries@;
                let entry = (key, value);
                proof {
                    lemma_update_value(before, i as int, entry);
                }
                self.entries.insert(i, entry);
                let old_entry = self.entries.remove(i + 1);
                assert(old_entry == before[i as int]);
                assert(self.entries@ =~= before.update(i as int, entry));
                Some(old_entry.1)
            },
            None => {
                let ghost before = self.entries@;
                let entry = (key, value);
                proof {
                    lemma_push_new(before, entry);
                }
                self.entries.push(entry);
                None
            },
        }
    }

    /// Takes out the member named `key`, returning its value.
    pub fn remove(&mut self, key: &str) -> (r: Option<JsonValue>)
        requires
            old(self).wf(),
        ensures
            final(self).wf(),
            final(self)@ == old(self)@.remove(key@),
            r == if old(self)@.contains_key(key@) {
                Some(old(self)@[key@])
            } else {
                None::<JsonValue>
            },
    {
        match self.find(key) {
            Some(i) => {
                let ghost before = self.entries@;
                proof {
                    lemma_remove_at(before, i as int);
                }
                let entry = self.entries.remove(i);
                Some(entry.1)
            },
            None => {
                assert(self@ =~= self@.remove(key@));
                None
            },
        }
    }
}

impl JsonValue {
    /// The text of a string value.
    pub fn as_str(&self) -> (r: Option<&str>)
        ensures
            match self {
                JsonValue::String(s) => r matches Some(t) && t@ == s@,
                _ => r is None,
            },
    {
        match self {
            JsonValue::String(s) => Some(s.as_str()),
            _ => None,
        }
    }

    /// The members of an object value.
    pub fn as_object(&self) -> (r: Option<&JsonMap>)
        ensures
            match self {
                JsonValue::Object(m) => r == Some(m),
                _ => r is None,
            },
    {
        match self {
            JsonValue::Object(m) => Some(m),
            _ => None,
        }
    }

    /// The items of an array value.
    pub fn as_array(&self) -> (r: Option<&Vec<JsonValue>>)
        ensures
            match self {
                JsonValue::Array(a) => r == Some(a),
                _ => r is None,
            },
    {
        match self {
            JsonValue::Array(a) => Some(a),
            _ => None,
        }
    }

    /// The value of a boolean.
    pub fn as_bool(&self) -> (r: Option<bool>)
        ensures
            match self {
                JsonValue::Bool(b) => r == Some(*b),
                _ => r is None,
            },
    {
        match self {
            JsonValue::Bool(b) => Some(*b),
            _ => None,
        }
    }

    /// The members of an object value, for changing them.
    pub fn as_object_mut(&mut self) -> (r: Option<&mut JsonMap>)
        ensures
            match *old(self) {
                JsonValue::Object(m) => r matches Some(rm) && *rm == m && *final(self) == JsonValue::Object(*final(rm)),
                _ => r is None && *final(self) == *old(self),
            },
    {
        match self {
            JsonValue::Object(m) => Some(m),
            _ => None,
        }
    }
}

} // verus!

verus! {

/// The text of member `k` of an object, where it is a string.
pub open spec fn text_member(m: Map<Seq<char>, JsonValue>, k: Seq<char>) -> Option<Seq<char>> {
    if m.contains_key(k) {
        match m[k] {
            JsonValue::String(s) => Some(s@),
            _ => None,
        }
    } else {
        None
    }
}

/// The members of member `k` of an object, where it is an object.
pub open spec fn object_member(m: Map<Seq<char>, JsonValue>, k: Seq<char>) -> Option<JsonMap> {
    if m.contains_key(k) {
        match m[k] {
            JsonValue::Object(o) => Some(o),
            _ => None,
        }
    } else {
        None
    }
}

/// The value of member `k` of an object, where it is a boolean.
pub open spec fn bool_member(m: Map<Seq<char>, JsonValue>, k: Seq<char>) -> Option<bool> {
    if m.contains_key(k) {
        match m[k] {
            JsonValue::Bool(b) => Some(b),
            _ => None,
        }
    } else {
        None
    }
}

/// The items of member `k` of an object, where it is an array.
pub open spec fn array_member(m: Map<Seq<char>, JsonValue>, k: Seq<char>) -> Option<Vec<JsonValue>> {
    if m.contains_key(k) {
        match m[k] {
            JsonValue::Array(a) => Some(a),
            _ => None,
        }
    } else {
        None
    }
}

/// The decimal text of member `k` of an object, where it is a number.
pub open spec fn number_member(m: Map<Seq<char>, JsonValue>, k: Seq<char>) -> Option<Seq<char>> {
    if m.contains_key(k) {
        match m[k] {
            JsonValue::Number(t) => Some(t@),
            _ => None,
        }
    } else {
        None
    }
}

/// Member `k` of an object where it is a string (`Some(Some(text))`) or
/// `null` (`Some(None)`).
pub open spec fn nullable_text_member(m: Map<Seq<char>, JsonValue>, k: Seq<char>) -> Option<Option<Seq<char>>> {
    if m.contains_key(k) {
        match m[k] {
            JsonValue::String(s) => Some(Some(s@)),
            JsonValue::Null => Some(None),
            _ => None,
        }
    } else {
        None
    }
}

/// Member `k` of an object where it is an object (`Some(Some(members))`) or
/// `null` (`Some(None)`).
pub open spec fn nullable_object_member(m: Map<Seq<char>, JsonValue>, k: Seq<char>) -> Option<Option<JsonMap>> {
    if m.contains_key(k) {
        match m[k] {
            JsonValue::Object(o) => Some(Some(o)),
            JsonValue::Null => Some(None),
            _ => None,
        }
    } else {
        None
    }
}

/// The text inside an optional, nullable string slice.
pub open spec fn opt_opt_str_view(o: Option<Option<&str>>) -> Option<Option<Seq<char>>> {
    match o {
        Some(Some(s)) => Some(Some(s@)),
        Some(None) => Some(None),
        None => None,
    }
}

/// The value inside an optional, nullable reference.
pub open spec fn opt_opt_deref<T>(o: Option<Option<&T>>) -> Option<Option<T>> {
    match o {
        Some(Some(x)) => Some(Some(*x)),
        Some(None) => Some(None),
        None => None,
    }
}

/// The text of an optional string slice.
pub open spec fn opt_str_view(o: Option<&str>) -> Option<Seq<char>> {
    match o {
        Some(s) => Some(s@),
        None => None,
    }
}

/// The value behind an optional reference.
pub open spec fn opt_deref<T>(o: Option<&T>) -> Option<T> {
    match o {
        Some(x) => Some(*x),
        None => None,
    }
}

/// An object whose members are the given names, each set to `true`.
pub open spec fn true_set(names: Seq<Seq<char>>) -> Map<Seq<char>, JsonValue> {
    Map::new(|k: Seq<char>| names.contains(k), |k: Seq<char>| JsonValue::Bool(true))
}

/// The text of member `k` of a map, where it is a string.
pub fn get_text<'a>(m: &'a JsonMap, k: &str) -> (r: Option<&'a str>)
    requires
        m.wf(),
    ensures
        opt_str_view(r) == text_member(m@, k@),
{
    match m.get(k) {
        Some(v) => v.as_str(),
        None => None,
    }
}

/// The members of member `k` of a map, where it is an object.
pub fn get_object<'a>(m: &'a JsonMap, k: &str) -> (r: Option<&'a JsonMap>)
    requires
        m.wf(),
    ensures
        opt_deref(r) == object_member(m@, k@),
{
    match m.get(k) {
        Some(v) => v.as_object(),
        None => None,
    }
}

/// The value of member `k` of a map, where it is a boolean.
pub fn get_bool(m: &JsonMap, k: &str) -> (r: Option<bool>)
    requires
        m.wf(),
    ensures
        r == bool_member(m@, k@),
{
    match m.get(k) {
        Some(v) => v.as_bool(),
        None => None,
    }
}

/// The items of member `k` of a map, where it is an array.
pub fn get_array<'a>(m: &'a JsonMap, k: &str) -> (r: Option<&'a Vec<JsonValue>>)
    requires
        m.wf(),
    ensures
        opt_deref(r) == array_member(m@, k@),
{
    match m.get(k) {
        Some(v) => v.as_array(),
        None => None,
    }
}

/// The decimal text of member `k` of a map, where it is a number.
pub fn get_number<'a>(m: &'a JsonMap, k: &str) -> (r: Option<&'a str>)
    requires
        m.wf(),
    ensures
        opt_str_view(r) == number_member(m@, k@),
{
    match m.get(k) {
        Some(JsonValue::Number(t)) => Some(t.as_str()),
        _ => None,
    }
}

/// Member `k` of a map where it is a string or `null`.
pub fn get_nullable_text<'a>(m: &'a JsonMap, k: &str) -> (r: Option<Option<&'a str>>)
    requires
        m.wf(),
    ensures
        opt_opt_str_view(r) == nullable_text_member(m@, k@),
{
    match m.get(k) {
        Some(JsonValue::String(s)) => Some(Some(s.as_str())),
        Some(JsonValue::Null) => Some(None),
        _ => None,
    }
}

/// Member `k` of a map where it is an object or `null`.
pub fn get_nullable_object<'a>(m: &'a JsonMap, k: &str) -> (r: Option<Option<&'a JsonMap>>)
    requires
        m.wf(),
    ensures
        opt_opt_deref(r) == nullable_object_member(m@, k@),
{
    match m.get(k) {
        Some(JsonValue::Object(o)) => Some(Some(o)),
        Some(JsonValue::Null) => Some(None),
        _ => None,
    }
}

/// An object with each of the names set to `true`.
pub fn true_set_of(names: Vec<String>) -> (m: JsonMap)
    ensures
        m.wf(),
        m@ == true_set(crate::text::views(names@)),
{
    let ghost all = crate::text::views(names@);
    let mut m = JsonMap::new();
    let mut rest = names;
    let n = rest.len();
    let mut i: usize = 0;
    assert(rest@ =~= names@.subrange(0, n as int));
    while i < n
        invariant
            n == names@.len(),
            all == crate::text::views(names@),
            i <= n,
            rest@ == names@.subrange(i as int, n as int),
            m.wf(),
            m@ == true_set(all.subrange(0, i as int)),
        decreases n - i,
    {
        let name = rest.remove(0);
        assert(name == names@[i as int]);
        assert(rest@ =~= names@.subrange(i + 1 as int, n as int));
        let ghost before = m@;
        m.insert(name, JsonValue::Bool(true));
        proof {
            let pre = all.subrange(0, i as int);
            let post = all.subrange(0, i + 1 as int);
            assert(post =~= pre.push(all[i as int]));
            assert forall|k: Seq<char>| #[trigger] post.contains(k) <==> (pre.contains(k) || k == all[i as int]) by {
                if post.contains(k) && k != all[i as int] {
                    let j = choose|j: int| 0 <= j < post.len() && post[j] == k;
                    assert(j < i);
                    assert(pre[j] == k);
                }
                if pre.contains(k) {
                    let j = choose|j: int| 0 <= j < pre.len() && pre[j] == k;
                    assert(post[j] == k);
                }
                if k == all[i as int] {
                    assert(post[i as int] == k);
                }
            }
            assert(m@ =~= true_set(post));
        }
        i = i + 1;
    }
    assert(all.subrange(0, n as int) =~= all);
    m
}

} // verus!
