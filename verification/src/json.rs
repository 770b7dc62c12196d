use vstd::prelude::*;

use crate::text::str_eq;

verus! {

/// A JSON value. Integers that fit `i64` or `u64` are held as such; any other
/// number is kept as its literal text, so that every number survives unchanged.
#[derive(Debug, PartialEq)]
pub enum JsonValue {
    Null,
    Bool(bool),
    Int(i64),
    UInt(u64),
    Number(String),
    Text(String),
    Array(Vec<JsonValue>),
    Object(Vec<(String, JsonValue)>),
}

/// The abstract value of a JSON value.
pub enum JsonView {
    Null,
    Bool(bool),
    Int(i64),
    UInt(u64),
    Number(Seq<char>),
    Text(Seq<char>),
    Array(Seq<JsonView>),
    Object(Seq<(Seq<char>, JsonView)>),
}

impl JsonValue {
    /// The abstract value.
    pub open spec fn json(self) -> JsonView
        decreases self,
    {
        match self {
            JsonValue::Null => JsonView::Null,
            JsonValue::Bool(b) => JsonView::Bool(b),
            JsonValue::Int(n) => JsonView::Int(n),
            JsonValue::UInt(n) => JsonView::UInt(n),
            JsonValue::Number(n) => JsonView::Number(n@),
            JsonValue::Text(t) => JsonView::Text(t@),
            JsonValue::Array(v) => JsonView::Array(Seq::new(v@.len(), |i: int| if 0 <= i < v@.len() { v@[i].json() } else { JsonView::Null })),
            JsonValue::Object(v) => JsonView::Object(Seq::new(v@.len(), |i: int| if 0 <= i < v@.len() { (v@[i].0@, v@[i].1.json()) } else { (Seq::empty(), JsonView::Null) })),
        }
    }
}


impl JsonValue {
    /// A copy of the value.
    pub fn copy(&self) -> (r: JsonValue)
        ensures
            r.json() == self.json(),
        decreases self,
    {
        match self {
            JsonValue::Null => JsonValue::Null,
            JsonValue::Bool(b) => JsonValue::Bool(*b),
            JsonValue::Int(n) => JsonValue::Int(*n),
            JsonValue::UInt(n) => JsonValue::UInt(*n),
            JsonValue::Number(n) => JsonValue::Number(n.clone()),
            JsonValue::Text(t) => JsonValue::Text(t.clone()),
            JsonValue::Array(items) => {
                let mut out: Vec<JsonValue> = Vec::new();
                let mut i: usize = 0;
                while i < items.len()
                    invariant
                        *self == JsonValue::Array(*items),
                        i <= items@.len(),
                        out@.len() == i,
                        forall|j: int| 0 <= j < i ==> #[trigger] out@[j].json() == items@[j].json(),
                    decreases items@.len() - i,
                {
                    assert(*self == JsonValue::Array(*items));
                    assert(decreases_to!(*self => self->Array_0));
                    assert(decreases_to!(self->Array_0 => self->Array_0@));
                    assert(decreases_to!(self->Array_0@ => self->Array_0@[i as int]));
                    let item = items[i].copy();
                    out.push(item);
                    i = i + 1;
                }
                let r = JsonValue::Array(out);
                assert(r.json() == self.json()) by {
                    assert forall|j: int| 0 <= j < out@.len() implies out@[j].json() == items@[j].json() by {}
                    let a = Seq::new(out@.len(), |j: int| if 0 <= j < out@.len() { out@[j].json() } else { JsonView::Null });
                    let b = Seq::new(items@.len(), |j: int| if 0 <= j < items@.len() { items@[j].json() } else { JsonView::Null });
                    assert(a =~= b);
                    assert(r.json()->Array_0 =~= self.json()->Array_0);
                }
                r
            },
            JsonValue::Object(pairs) => {
                let mut out: Vec<(String, JsonValue)> = Vec::new();
                let mut i: usize = 0;
                while i < pairs.len()
                    invariant
                        *self == JsonValue::Object(*pairs),
                        i <= pairs@.len(),
                        out@.len() == i,
                        forall|j: int| 0 <= j < i ==> (#[trigger] out@[j]).0@ == pairs@[j].0@ && out@[j].1.json() == pairs@[j].1.json(),
                    decreases pairs@.len() - i,
                {
                    assert(*self == JsonValue::Object(*pairs));
                    assert(decreases_to!(*self => self->Object_0));
                    assert(decreases_to!(self->Object_0 => pairs@));
                    assert(decreases_to!(pairs@ => pairs@[i as int]));
                    assert(decreases_to!(pairs@[i as int] => pairs@[i as int].1));
                    let key = pairs[i].0.clone();
                    let value = pairs[i].1.copy();
                    out.push((key, value));
                    i = i + 1;
                }
                let r = JsonValue::Object(out);
                assert(r.json() == self.json()) by {
                    let a = Seq::new(out@.len(), |j: int| if 0 <= j < out@.len() { (out@[j].0@, out@[j].1.json()) } else { (Seq::empty(), JsonView::Null) });
                    let b = Seq::new(pairs@.len(), |j: int| if 0 <= j < pairs@.len() { (pairs@[j].0@, pairs@[j].1.json()) } else { (Seq::empty(), JsonView::Null) });
                    assert(a =~= b);
                    assert(r.json()->Object_0 =~= self.json()->Object_0);
                }
                r
            },
        }
    }
}

/// The abstract key/value pairs of an object, in order.
pub open spec fn pairs_view(pairs: Seq<(String, JsonValue)>) -> Seq<(Seq<char>, JsonView)> {
    Seq::new(pairs.len(), |i: int| (pairs[i].0@, pairs[i].1.json()))
}

/// No key occurs twice.
pub open spec fn keys_unique(pairs: Seq<(String, JsonValue)>) -> bool {
    forall|i: int, j: int| 0 <= i < j < pairs.len() ==> #[trigger] pairs[i].0@ != #[trigger] pairs[j].0@
}

/// The map from keys to values that a list of pairs with unique keys denotes.
pub open spec fn pairs_map(pairs: Seq<(String, JsonValue)>) -> Map<Seq<char>, JsonView> {
    Map::new(
        |k: Seq<char>| exists|i: int| 0 <= i < pairs.len() && #[trigger] pairs[i].0@ == k,
        |k: Seq<char>| pairs[choose|i: int| 0 <= i < pairs.len() && #[trigger] pairs[i].0@ == k].1.json(),
    )
}

/// The value stored under the key found at position `i`.
pub proof fn lemma_pairs_map_at(pairs: Seq<(String, JsonValue)>, i: int)
    requires
        keys_unique(pairs),
        0 <= i < pairs.len(),
    ensures
        pairs_map(pairs).contains_key(pairs[i].0@),
        pairs_map(pairs)[pairs[i].0@] == pairs[i].1.json(),
{
    let k = pairs[i].0@;
    assert(pairs[i].0@ == k);
    let j = choose|j: int| 0 <= j < pairs.len() && #[trigger] pairs[j].0@ == k;
    if j != i {
        if j < i {
            assert(pairs[j].0@ != pairs[i].0@);
        } else {
            assert(pairs[i].0@ != pairs[j].0@);
        }
    }
}

/// Replacing the value of an existing key.
pub proof fn lemma_pairs_map_replace(pairs: Seq<(String, JsonValue)>, i: int, entry: (String, JsonValue))
    requires
        keys_unique(pairs),
        0 <= i < pairs.len(),
        entry.0@ == pairs[i].0@,
    ensures
        keys_unique(pairs.update(i, entry)),
        pairs_map(pairs.update(i, entry)) == pairs_map(pairs).insert(entry.0@, entry.1.json()),
{
    let q = pairs.update(i, entry);
    assert forall|a: int, b: int| 0 <= a < b < q.len() implies #[trigger] q[a].0@ != #[trigger] q[b].0@ by {
        assert(pairs[a].0@ != pairs[b].0@);
    }
    lemma_pairs_map_at(q, i);
    assert forall|k: Seq<char>| #[trigger] pairs_map(q).contains_key(k) == pairs_map(pairs).insert(entry.0@, entry.1.json()).contains_key(k) by {
        if pairs_map(q).contains_key(k) {
            let j = choose|j: int| 0 <= j < q.len() && #[trigger] q[j].0@ == k;
            if j != i {
                assert(pairs[j].0@ == k);
            }
        }
        if pairs_map(pairs).contains_key(k) {
            let j = choose|j: int| 0 <= j < pairs.len() && #[trigger] pairs[j].0@ == k;
            assert(q[j].0@ == k);
        }
    }
    assert forall|k: Seq<char>| #[trigger] pairs_map(q).contains_key(k) implies pairs_map(q)[k] == pairs_map(pairs).insert(entry.0@, entry.1.json())[k] by {
        let j = choose|j: int| 0 <= j < q.len() && #[trigger] q[j].0@ == k;
        lemma_pairs_map_at(q, j);
        if j != i {
            assert(pairs[j].0@ == k);
            lemma_pairs_map_at(pairs, j);
        }
    }
    assert(pairs_map(q) =~= pairs_map(pairs).insert(entry.0@, entry.1.json()));
}

/// Appending a key that is not yet present.
pub proof fn lemma_pairs_map_push(pairs: Seq<(String, JsonValue)>, entry: (String, JsonValue))
    requires
        keys_unique(pairs),
        forall|j: int| 0 <= j < pairs.len() ==> #[trigger] pairs[j].0@ != entry.0@,
    ensures
        keys_unique(pairs.push(entry)),
        pairs_map(pairs.push(entry)) == pairs_map(pairs).insert(entry.0@, entry.1.json()),
{
    let q = pairs.push(entry);
    let n = pairs.len() as int;
    assert forall|a: int, b: int| 0 <= a < b < q.len() implies #[trigger] q[a].0@ != #[trigger] q[b].0@ by {
        if b < n {
            assert(pairs[a].0@ != pairs[b].0@);
        } else {
            assert(pairs[a].0@ != entry.0@);
        }
    }
    lemma_pairs_map_at(q, n);
    assert forall|k: Seq<char>| #[trigger] pairs_map(q).contains_key(k) == pairs_map(pairs).insert(entry.0@, entry.1.json()).contains_key(k) by {
        if pairs_map(q).contains_key(k) {
            let j = choose|j: int| 0 <= j < q.len() && #[trigger] q[j].0@ == k;
            if j != n {
                assert(pairs[j].0@ == k);
            }
        }
        if pairs_map(pairs).contains_key(k) {
            let j = choose|j: int| 0 <= j < pairs.len() && #[trigger] pairs[j].0@ == k;
            assert(q[j].0@ == k);
        }
    }
    assert forall|k: Seq<char>| #[trigger] pairs_map(q).contains_key(k) implies pairs_map(q)[k] == pairs_map(pairs).insert(entry.0@, entry.1.json())[k] by {
        let j = choose|j: int| 0 <= j < q.len() && #[trigger] q[j].0@ == k;
        lemma_pairs_map_at(q, j);
        if j != n {
            assert(pairs[j].0@ == k);
            lemma_pairs_map_at(pairs, j);
        }
    }
    assert(pairs_map(q) =~= pairs_map(pairs).insert(entry.0@, entry.1.json()));
}

/// The order of keys: lexicographic by code point, which is the byte order of
/// their UTF-8 text and so the order `String` compares in.
pub open spec fn key_less(a: Seq<char>, b: Seq<char>) -> bool
    decreases a.len(),
{
    if a.len() == 0 {
        b.len() > 0
    } else if b.len() == 0 {
        false
    } else if a[0] != b[0] {
        (a[0] as u32) < (b[0] as u32)
    } else {
        key_less(a.drop_first(), b.drop_first())
    }
}

/// No key comes before itself.
pub proof fn lemma_key_less_irreflexive(a: Seq<char>)
    ensures
        !key_less(a, a),
    decreases a.len(),
{
    if a.len() > 0 {
        lemma_key_less_irreflexive(a.drop_first());
    }
}

/// The order of keys is transitive.
pub proof fn lemma_key_less_transitive(a: Seq<char>, b: Seq<char>, c: Seq<char>)
    requires
        key_less(a, b),
        key_less(b, c),
    ensures
        key_less(a, c),
    decreases a.len(),
{
    if a.len() > 0 && b.len() > 0 && c.len() > 0 && a[0] == b[0] && b[0] == c[0] {
        lemma_key_less_transitive(a.drop_first(), b.drop_first(), c.drop_first());
    }
}

/// Of two different keys, one comes first.
pub proof fn lemma_key_less_total(a: Seq<char>, b: Seq<char>)
    requires
        a != b,
    ensures
        key_less(a, b) || key_less(b, a),
    decreases a.len(),
{
    if a.len() > 0 && b.len() > 0 && a[0] == b[0] {
        if a.drop_first() == b.drop_first() {
            assert(a =~= seq![a[0]] + a.drop_first());
            assert(b =~= seq![b[0]] + b.drop_first());
        }
        lemma_key_less_total(a.drop_first(), b.drop_first());
    } else if a.len() > 0 && b.len() > 0 {
        vstd::utf8::char_u32_cast(a[0], a[0] as u32);
        vstd::utf8::char_u32_cast(b[0], b[0] as u32);
    } else if a.len() == 0 && b.len() == 0 {
        assert(a =~= b);
    }
}

pub(crate) fn chars_of(s: &str) -> (r: Vec<char>)
    ensures
        r@ == s@,
{
    let mut out: Vec<char> = Vec::new();
    for c in it: s.chars()
        invariant
            it.seq() == s@,
            out@ == s@.take(it.index() as int),
    {
        let ghost k = it.index();
        assert(s@.take(k + 1) =~= s@.take(k as int).push(c));
        out.push(c);
    }
    assert(s@.take(s@.len() as int) =~= s@);
    out
}

/// Whether key `a` comes before key `b`.
pub fn str_less(a: &str, b: &str) -> (r: bool)
    ensures
        r == key_less(a@, b@),
{
    let x = chars_of(a);
    let y = chars_of(b);
    let mut i: usize = 0;
    assert(x@.skip(0) =~= x@);
    assert(y@.skip(0) =~= y@);
    while i < x.len() && i < y.len()
        invariant
            i <= x@.len(),
            i <= y@.len(),
            x@ == a@,
            y@ == b@,
            key_less(a@, b@) == key_less(x@.skip(i as int), y@.skip(i as int)),
        decreases x@.len() - i,
    {
        let ghost xs = x@.skip(i as int);
        let ghost ys = y@.skip(i as int);
        assert(xs[0] == x@[i as int]);
        assert(ys[0] == y@[i as int]);
        if x[i] != y[i] {
            return (x[i] as u32) < (y[i] as u32);
        }
        assert(xs.drop_first() =~= x@.skip(i + 1));
        assert(ys.drop_first() =~= y@.skip(i + 1));
        i = i + 1;
    }
    i == x.len() && i < y.len()
}

/// Keys come in strictly increasing order.
pub open spec fn keys_sorted(pairs: Seq<(String, JsonValue)>) -> bool {
    forall|i: int, j: int|
        0 <= i < j < pairs.len() ==> key_less(#[trigger] pairs[i].0@, #[trigger] pairs[j].0@)
}

/// Keys in increasing order are unique.
pub proof fn lemma_sorted_keys_unique(pairs: Seq<(String, JsonValue)>)
    requires
        keys_sorted(pairs),
    ensures
        keys_unique(pairs),
{
    assert forall|i: int, j: int| 0 <= i < j < pairs.len() implies #[trigger] pairs[i].0@
        != #[trigger] pairs[j].0@ by {
        if pairs[i].0@ == pairs[j].0@ {
            lemma_key_less_irreflexive(pairs[i].0@);
        }
    }
}

/// Placing a new key at position `i`, between the smaller and the larger keys.
pub proof fn lemma_pairs_map_insert_at(pairs: Seq<(String, JsonValue)>, i: int, entry: (String, JsonValue))
    requires
        keys_sorted(pairs),
        0 <= i <= pairs.len(),
        forall|j: int| 0 <= j < i ==> key_less(#[trigger] pairs[j].0@, entry.0@),
        forall|j: int| i <= j < pairs.len() ==> key_less(entry.0@, #[trigger] pairs[j].0@),
    ensures
        keys_sorted(pairs.insert(i, entry)),
        pairs_map(pairs.insert(i, entry)) == pairs_map(pairs).insert(entry.0@, entry.1.json()),
{
    let q = pairs.insert(i, entry);
    assert forall|a: int, b: int| 0 <= a < b < q.len() implies key_less(#[trigger] q[a].0@, #[trigger] q[b].0@) by {
        if b < i {
        } else if b == i {
        } else if a < i {
            lemma_key_less_transitive(pairs[a].0@, entry.0@, pairs[b - 1].0@);
        } else if a == i {
        } else {
        }
    }
    lemma_sorted_keys_unique(q);
    lemma_sorted_keys_unique(pairs);
    assert forall|j: int| 0 <= j < pairs.len() implies #[trigger] pairs[j].0@ != entry.0@ by {
        lemma_key_less_irreflexive(entry.0@);
    }
    lemma_pairs_map_at(q, i);
    assert forall|k: Seq<char>| #[trigger] pairs_map(q).contains_key(k) == pairs_map(pairs).insert(entry.0@, entry.1.json()).contains_key(k) by {
        if pairs_map(q).contains_key(k) {
            let j = choose|j: int| 0 <= j < q.len() && #[trigger] q[j].0@ == k;
            if j < i {
                assert(pairs[j].0@ == k);
            } else if j > i {
                assert(pairs[j - 1].0@ == k);
            }
        }
        if pairs_map(pairs).contains_key(k) {
            let j = choose|j: int| 0 <= j < pairs.len() && #[trigger] pairs[j].0@ == k;
            if j < i {
                assert(q[j].0@ == k);
            } else {
                assert(q[j + 1].0@ == k);
            }
        }
    }
    assert forall|k: Seq<char>| #[trigger] pairs_map(q).contains_key(k) implies pairs_map(q)[k] == pairs_map(pairs).insert(entry.0@, entry.1.json())[k] by {
        let j = choose|j: int| 0 <= j < q.len() && #[trigger] q[j].0@ == k;
        lemma_pairs_map_at(q, j);
        if j < i {
            assert(pairs[j].0@ == k);
            lemma_pairs_map_at(pairs, j);
        } else if j > i {
            assert(pairs[j - 1].0@ == k);
            lemma_pairs_map_at(pairs, j - 1);
        }
    }
    assert(pairs_map(q) =~= pairs_map(pairs).insert(entry.0@, entry.1.json()));
}

/// A JSON object whose keys are unique and kept in key order: the fields a
/// response carried that the typed model does not name.
#[derive(Debug)]
pub struct JsonMap {
    entries: Vec<(String, JsonValue)>,
}

impl JsonMap {
    #[verifier::type_invariant]
    spec fn sorted(self) -> bool {
        keys_sorted(self.entries@)
    }

    /// The entries in key order.
    pub closed spec fn pairs(self) -> Seq<(String, JsonValue)> {
        self.entries@
    }

}

impl View for JsonMap {
    type V = Map<Seq<char>, JsonView>;

    open spec fn view(&self) -> Map<Seq<char>, JsonView> {
        pairs_map(self.pairs())
    }
}

impl JsonMap {
    /// An empty map.
    pub fn new() -> (r: Self)
        ensures
            r.pairs().len() == 0,
            r@ == Map::<Seq<char>, JsonView>::empty(),
    {
        let r = JsonMap { entries: Vec::new() };
        assert(r@ =~= Map::<Seq<char>, JsonView>::empty());
        r
    }

    /// Number of entries.
    pub fn len(&self) -> (r: usize)
        ensures
            r == self.pairs().len(),
            keys_sorted(self.pairs()),
            keys_unique(self.pairs()),
    {
        proof {
            use_type_invariant(self);
            lemma_sorted_keys_unique(self.pairs());
        }
        self.entries.len()
    }

    /// The key of the entry at position `i`.
    pub fn key_at(&self, i: usize) -> (r: &String)
        requires
            i < self.pairs().len(),
        ensures
            *r == self.pairs()[i as int].0,
    {
        &self.entries[i].0
    }

    /// The value of the entry at position `i`.
    pub fn value_at(&self, i: usize) -> (r: &JsonValue)
        requires
            i < self.pairs().len(),
        ensures
            *r == self.pairs()[i as int].1,
    {
        &self.entries[i].1
    }

    fn find(&self, key: &str) -> (r: Option<usize>)
        ensures
            match r {
                Some(i) => i < self.pairs().len() && self.pairs()[i as int].0@ == key@,
                None => forall|j: int| 0 <= j < self.pairs().len() ==> #[trigger] self.pairs()[j].0@ != key@,
            },
    {
        let mut i: usize = 0;
        while i < self.entries.len()
            invariant
                i <= self.entries@.len(),
                forall|j: int| 0 <= j < i ==> #[trigger] self.entries@[j].0@ != key@,
            decreases self.entries@.len() - i,
        {
            if str_eq(self.entries[i].0.as_str(), key) {
                return Some(i);
            }
            i = i + 1;
        }
        None
    }

    /// Whether `key` is present.
    pub fn contains_key(&self, key: &str) -> (r: bool)
        ensures
            r == self@.contains_key(key@),
    {
        match self.find(key) {
            Some(i) => {
                assert(self.pairs()[i as int].0@ == key@);
                true
            },
            None => false,
        }
    }

    /// The value stored under `key`.
    pub fn get(&self, key: &str) -> (r: Option<&JsonValue>)
        ensures
            match r {
                Some(v) => self@.contains_key(key@) && self@[key@] == v.json(),
                None => !self@.contains_key(key@),
            },
    {
        proof {
            use_type_invariant(self);
            lemma_sorted_keys_unique(self.pairs());
        }
        match self.find(key) {
            Some(i) => {
                proof {
                    lemma_pairs_map_at(self.pairs(), i as int);
                }
                Some(&self.entries[i].1)
            },
            None => None,
        }
    }

    /// Stores `value` under `key`, replacing and returning any previous value;
    /// a new key takes its place in key order.
    pub fn insert(&mut self, key: String, value: JsonValue) -> (r: Option<JsonValue>)
        ensures
            final(self)@ == old(self)@.insert(key@, value.json()),
            keys_sorted(final(self).pairs()),
            match r {
                Some(v) => old(self)@.contains_key(key@) && old(self)@[key@] == v.json(),
                None => !old(self)@.contains_key(key@),
            },
    {
        proof {
            use_type_invariant(&*self);
            lemma_sorted_keys_unique(self.entries@);
        }
        let ghost before = self.entries@;
        let mut i: usize = 0;
        while i < self.entries.len() && str_less(self.entries[i].0.as_str(), key.as_str())
            invariant
                i <= before.len(),
                self.entries@ == before,
                keys_sorted(before),
                forall|j: int| 0 <= j < i ==> key_less(#[trigger] before[j].0@, key@),
            decreases before.len() - i,
        {
            i = i + 1;
        }
        let mut entries: Vec<(String, JsonValue)> = Vec::new();
        core::mem::swap(&mut entries, &mut self.entries);
        assert(entries@ == before);
        if i < entries.len() && str_eq(entries[i].0.as_str(), key.as_str()) {
            proof {
                lemma_pairs_map_at(before, i as int);
            }
            let mut pair = (key, value);
            core::mem::swap(&mut entries[i], &mut pair);
            proof {
                assert(entries@ == before.update(i as int, (entries@[i as int].0, entries@[i as int].1)));
                lemma_pairs_map_replace(before, i as int, entries@[i as int]);
                assert forall|a: int, b: int| 0 <= a < b < entries@.len() implies key_less(
                    #[trigger] entries@[a].0@,
                    #[trigger] entries@[b].0@,
                ) by {
                    assert(key_less(before[a].0@, before[b].0@));
                }
            }
            self.entries = entries;
            Some(pair.1)
        } else {
            let ghost kv = key@;
            proof {
                assert forall|j: int| i <= j < before.len() implies key_less(kv, #[trigger] before[j].0@) by {
                    assert(!key_less(before[i as int].0@, kv));
                    assert(before[i as int].0@ != kv);
                    lemma_key_less_total(before[i as int].0@, kv);
                    if j > i {
                        lemma_key_less_transitive(kv, before[i as int].0@, before[j].0@);
                    }
                }
            }
            entries.insert(i, (key, value));
            proof {
                lemma_pairs_map_insert_at(before, i as int, entries@[i as int]);
                assert(entries@ == before.insert(i as int, entries@[i as int]));
                if pairs_map(before).contains_key(kv) {
                    let j = choose|j: int| 0 <= j < before.len() && #[trigger] before[j].0@ == kv;
                    if j < i {
                        lemma_key_less_irreflexive(kv);
                    } else {
                        lemma_key_less_irreflexive(kv);
                    }
                }
            }
            self.entries = entries;
            None
        }
    }
}

/// The value of the first entry under `key`.
pub open spec fn first_entry(entries: Seq<(Seq<char>, JsonView)>, key: Seq<char>) -> Option<JsonView>
    decreases entries.len(),
{
    if entries.len() == 0 {
        None
    } else if entries[0].0 == key {
        Some(entries[0].1)
    } else {
        first_entry(entries.drop_first(), key)
    }
}

/// The value of the first entry under `key`.
pub fn first_value<'a>(entries: &'a Vec<(String, JsonValue)>, key: &str) -> (r: Option<&'a JsonValue>)
    ensures
        match r {
            Some(v) => first_entry(pairs_view(entries@), key@) == Some(v.json()),
            None => first_entry(pairs_view(entries@), key@) is None,
        },
{
    let ghost view = pairs_view(entries@);
    let mut i: usize = 0;
    assert(view.subrange(0, view.len() as int) =~= view);
    while i < entries.len()
        invariant
            i <= entries@.len(),
            view == pairs_view(entries@),
            first_entry(view, key@) == first_entry(view.subrange(i as int, view.len() as int), key@),
        decreases entries@.len() - i,
    {
        let ghost rest = view.subrange(i as int, view.len() as int);
        assert(rest[0] == view[i as int]);
        assert(view[i as int] == (entries@[i as int].0@, entries@[i as int].1.json()));
        if str_eq(entries[i].0.as_str(), key) {
            return Some(&entries[i].1);
        }
        assert(rest.drop_first() =~= view.subrange(i + 1, view.len() as int));
        i = i + 1;
    }
    None
}

/// The key is one of the reserved names.
pub open spec fn is_reserved(key: Seq<char>, reserved: Seq<&str>) -> bool {
    exists|i: int| 0 <= i < reserved.len() && (#[trigger] reserved[i])@ == key
}

/// The extra entries that serialization emits: those whose key is not reserved,
/// in the order of the pairs, which a `JsonMap` keeps sorted by key.
pub open spec fn visible_extra(
    pairs: Seq<(String, JsonValue)>,
    reserved: Seq<&str>,
) -> Seq<(Seq<char>, JsonView)>
    decreases pairs.len(),
{
    if pairs.len() == 0 {
        Seq::empty()
    } else {
        let rest = visible_extra(pairs.drop_last(), reserved);
        let last = pairs.last();
        if is_reserved(last.0@, reserved) {
            rest
        } else {
            rest.push((last.0@, last.1.json()))
        }
    }
}

/// Whether `key` is one of the reserved names.
pub fn is_reserved_key(key: &str, reserved: &[&str]) -> (r: bool)
    ensures
        r == is_reserved(key@, reserved@),
{
    let mut i: usize = 0;
    while i < reserved.len()
        invariant
            i <= reserved@.len(),
            forall|j: int| 0 <= j < i ==> (#[trigger] reserved@[j])@ != key@,
        decreases reserved@.len() - i,
    {
        if str_eq(reserved[i], key) {
            assert((reserved@[i as int])@ == key@);
            return true;
        }
        i = i + 1;
    }
    false
}

/// Number of extra entries that serialization emits.
pub fn extra_field_len(extra: &JsonMap, reserved: &[&str]) -> (r: usize)
    ensures
        r == visible_extra(extra.pairs(), reserved@).len(),
{
    let n = extra.len();
    let mut count: usize = 0;
    let mut i: usize = 0;
    while i < n
        invariant
            n == extra.pairs().len(),
            i <= n,
            count == visible_extra(extra.pairs().take(i as int), reserved@).len(),
            count <= i,
        decreases n - i,
    {
        let key = extra.key_at(i);
        assert(extra.pairs().take(i + 1).drop_last() =~= extra.pairs().take(i as int));
        if !is_reserved_key(key.as_str(), reserved) {
            count = count + 1;
        }
        i = i + 1;
    }
    assert(extra.pairs().take(n as int) =~= extra.pairs());
    count
}

/// Appends the extra entries that serialization emits.
pub fn append_extra_fields(out: &mut Vec<(String, JsonValue)>, extra: &JsonMap, reserved: &[&str])
    ensures
        pairs_view(final(out)@) == pairs_view(old(out)@) + visible_extra(extra.pairs(), reserved@),
{
    let ghost start = pairs_view(out@);
    let n = extra.len();
    let mut i: usize = 0;
    while i < n
        invariant
            n == extra.pairs().len(),
            i <= n,
            pairs_view(out@) == start + visible_extra(extra.pairs().take(i as int), reserved@),
        decreases n - i,
    {
        let key = extra.key_at(i);
        assert(extra.pairs().take(i + 1).drop_last() =~= extra.pairs().take(i as int));
        assert(extra.pairs().take(i + 1).last() == extra.pairs()[i as int]);
        if !is_reserved_key(key.as_str(), reserved) {
            let ghost before = out@;
            let value = extra.value_at(i).copy();
            out.push((key.clone(), value));
            assert(pairs_view(out@) =~= pairs_view(before).push((key@, extra.pairs()[i as int].1.json())));
        }
        i = i + 1;
    }
    assert(extra.pairs().take(n as int) =~= extra.pairs());
}

/// No entry that serialization emits from the extra fields carries a reserved
/// key: extra fields never override a typed field.
pub proof fn lemma_visible_extra_not_reserved(pairs: Seq<(String, JsonValue)>, reserved: Seq<&str>)
    ensures
        forall|i: int|
            0 <= i < visible_extra(pairs, reserved).len() ==> !is_reserved(
                #[trigger] visible_extra(pairs, reserved)[i].0,
                reserved,
            ),
    decreases pairs.len(),
{
    if pairs.len() > 0 {
        let rest = visible_extra(pairs.drop_last(), reserved);
        lemma_visible_extra_not_reserved(pairs.drop_last(), reserved);
        let v = visible_extra(pairs, reserved);
        assert forall|i: int| 0 <= i < v.len() implies !is_reserved(#[trigger] v[i].0, reserved) by {
            if i < rest.len() {
                assert(v[i] == rest[i]);
            }
        }
    }
}

/// Every extra entry whose key is not reserved is emitted, with its value.
pub proof fn lemma_visible_extra_keeps_unreserved(
    pairs: Seq<(String, JsonValue)>,
    reserved: Seq<&str>,
    j: int,
)
    requires
        0 <= j < pairs.len(),
        !is_reserved(pairs[j].0@, reserved),
    ensures
        visible_extra(pairs, reserved).contains((pairs[j].0@, pairs[j].1.json())),
    decreases pairs.len(),
{
    let v = visible_extra(pairs, reserved);
    if j == pairs.len() - 1 {
        assert(v.last() == (pairs[j].0@, pairs[j].1.json()));
        assert(v[v.len() - 1] == (pairs[j].0@, pairs[j].1.json()));
    } else {
        let rest = pairs.drop_last();
        assert(rest[j] == pairs[j]);
        lemma_visible_extra_keeps_unreserved(rest, reserved, j);
        let w = visible_extra(rest, reserved);
        let k = choose|k: int| 0 <= k < w.len() && w[k] == (pairs[j].0@, pairs[j].1.json());
        if !is_reserved(pairs.last().0@, reserved) {
            assert(v[k] == w[k]);
        }
    }
}

/// Every key of the entries is one of the reserved names.
pub open spec fn keys_reserved(entries: Seq<(Seq<char>, JsonView)>, reserved: Seq<&str>) -> bool {
    forall|i: int| 0 <= i < entries.len() ==> is_reserved(#[trigger] entries[i].0, reserved)
}

/// Joining two runs of entries with reserved keys gives a run with reserved keys.
pub proof fn lemma_keys_reserved_append(
    a: Seq<(Seq<char>, JsonView)>,
    b: Seq<(Seq<char>, JsonView)>,
    reserved: Seq<&str>,
)
    requires
        keys_reserved(a, reserved),
        keys_reserved(b, reserved),
    ensures
        keys_reserved(a + b, reserved),
{
    assert forall|i: int| 0 <= i < (a + b).len() implies is_reserved(#[trigger] (a + b)[i].0, reserved) by {
        if i < a.len() {
            assert((a + b)[i] == a[i]);
        } else {
            assert((a + b)[i] == b[i - a.len()]);
        }
    }
}

/// In an object made of typed entries under reserved keys followed by the
/// extra entries, the entries under reserved keys are exactly the typed ones,
/// and every extra entry under another key is kept with its value: an extra
/// field never takes the place of a typed field.
pub proof fn lemma_extra_never_overrides(
    core: Seq<(Seq<char>, JsonView)>,
    pairs: Seq<(String, JsonValue)>,
    reserved: Seq<&str>,
)
    requires
        keys_reserved(core, reserved),
    ensures
        forall|i: int|
            0 <= i < (core + visible_extra(pairs, reserved)).len() ==> (is_reserved(
                #[trigger] (core + visible_extra(pairs, reserved))[i].0,
                reserved,
            ) <==> i < core.len()),
        forall|j: int|
            0 <= j < pairs.len() && !is_reserved(#[trigger] pairs[j].0@, reserved) ==> (core
                + visible_extra(pairs, reserved)).contains((pairs[j].0@, pairs[j].1.json())),
{
    let extra = visible_extra(pairs, reserved);
    let all = core + extra;
    lemma_visible_extra_not_reserved(pairs, reserved);
    assert forall|i: int| 0 <= i < all.len() implies (is_reserved(#[trigger] all[i].0, reserved)
        <==> i < core.len()) by {
        if i < core.len() {
            assert(all[i] == core[i]);
        } else {
            assert(all[i] == extra[i - core.len()]);
        }
    }
    assert forall|j: int| 0 <= j < pairs.len() && !is_reserved(#[trigger] pairs[j].0@, reserved)
        implies all.contains((pairs[j].0@, pairs[j].1.json())) by {
        lemma_visible_extra_keeps_unreserved(pairs, reserved, j);
        let k = choose|k: int| 0 <= k < extra.len() && extra[k] == (pairs[j].0@, pairs[j].1.json());
        assert(all[core.len() + k] == extra[k]);
    }
}

/// An entry for an optional flag: present only when the flag is set.
#[verifier::opaque]
pub open spec fn opt_bool_entry(key: Seq<char>, value: Option<bool>) -> Seq<(Seq<char>, JsonView)> {
    match value {
        Some(b) => seq![(key, JsonView::Bool(b))],
        None => Seq::empty(),
    }
}

/// An entry for an optional integer: present only when the integer is set.
pub open spec fn opt_int_entry(key: Seq<char>, value: Option<i64>) -> Seq<(Seq<char>, JsonView)> {
    match value {
        Some(n) => seq![(key, JsonView::Int(n))],
        None => Seq::empty(),
    }
}

/// Appends an entry for an optional flag.
pub fn push_opt_bool(out: &mut Vec<(String, JsonValue)>, key: &str, value: Option<bool>)
    ensures
        pairs_view(final(out)@) == pairs_view(old(out)@) + opt_bool_entry(key@, value),
{
    reveal(opt_bool_entry);
    let ghost before = out@;
    match value {
        Some(b) => {
            out.push((key.to_owned(), JsonValue::Bool(b)));
        },
        None => {},
    }
    assert(pairs_view(out@) =~= pairs_view(before) + opt_bool_entry(key@, value));
}

/// Appends an entry for an optional integer.
pub fn push_opt_int(out: &mut Vec<(String, JsonValue)>, key: &str, value: Option<i64>)
    ensures
        pairs_view(final(out)@) == pairs_view(old(out)@) + opt_int_entry(key@, value),
{
    let ghost before = out@;
    match value {
        Some(n) => {
            out.push((key.to_owned(), JsonValue::Int(n)));
        },
        None => {},
    }
    assert(pairs_view(out@) =~= pairs_view(before) + opt_int_entry(key@, value));
}

/// An entry for a flag that is written only when set.
pub open spec fn flag_entry(key: Seq<char>, value: bool) -> Seq<(Seq<char>, JsonView)> {
    if value {
        seq![(key, JsonView::Bool(true))]
    } else {
        Seq::empty()
    }
}

/// Appends an entry for a flag that is written only when set.
pub fn push_flag(out: &mut Vec<(String, JsonValue)>, key: &str, value: bool)
    ensures
        pairs_view(final(out)@) == pairs_view(old(out)@) + flag_entry(key@, value),
{
    let ghost before = out@;
    if value {
        out.push((key.to_owned(), JsonValue::Bool(true)));
    }
    assert(pairs_view(out@) =~= pairs_view(before) + flag_entry(key@, value));
}

/// Appends an entry whose value is the object made of `entries`.
pub fn push_object(out: &mut Vec<(String, JsonValue)>, key: &str, entries: Vec<(String, JsonValue)>)
    ensures
        pairs_view(final(out)@) == pairs_view(old(out)@).push(
            (key@, JsonView::Object(pairs_view(entries@))),
        ),
{
    let ghost before = out@;
    let ghost inner = pairs_view(entries@);
    let value = JsonValue::Object(entries);
    assert(value.json()->Object_0 =~= inner);
    out.push((key.to_owned(), value));
    assert(pairs_view(out@) =~= pairs_view(before).push((key@, JsonView::Object(inner))));
}

/// Appends an entry.
pub fn push_entry(out: &mut Vec<(String, JsonValue)>, key: &str, value: JsonValue)
    ensures
        pairs_view(final(out)@) == pairs_view(old(out)@).push((key@, value.json())),
{
    let ghost before = out@;
    let ghost v = value.json();
    out.push((key.to_owned(), value));
    assert(pairs_view(out@) =~= pairs_view(before).push((key@, v)));
}

/// An entry for an optional nested value: present only when the value is set.
#[verifier::opaque]
pub open spec fn opt_json_entry(key: Seq<char>, value: Option<JsonValue>) -> Seq<(Seq<char>, JsonView)> {
    match value {
        Some(v) => seq![(key, v.json())],
        None => Seq::empty(),
    }
}

/// Appends an entry for an optional nested value.
pub fn push_opt_json(out: &mut Vec<(String, JsonValue)>, key: &str, value: &Option<JsonValue>)
    ensures
        pairs_view(final(out)@) == pairs_view(old(out)@) + opt_json_entry(key@, *value),
{
    reveal(opt_json_entry);
    let ghost before = out@;
    match value {
        Some(v) => {
            out.push((key.to_owned(), v.copy()));
        },
        None => {},
    }
    assert(pairs_view(out@) =~= pairs_view(before) + opt_json_entry(key@, *value));
}

/// The entry for an optional nested value carries its key only.
pub proof fn lemma_opt_json_entry_key(key: Seq<char>, value: Option<JsonValue>, reserved: Seq<&str>)
    requires
        is_reserved(key, reserved),
    ensures
        keys_reserved(opt_json_entry(key, value), reserved),
{
    reveal(opt_json_entry);
}

/// An optional flag gives one entry when set and none otherwise.
pub proof fn lemma_opt_bool_entry_len(key: Seq<char>, value: Option<bool>)
    ensures
        opt_bool_entry(key, value).len() == (if value is Some { 1int } else { 0int }),
{
    reveal(opt_bool_entry);
}

/// The entry for an optional flag carries its key only.
pub proof fn lemma_opt_bool_entry_key(key: Seq<char>, value: Option<bool>, reserved: Seq<&str>)
    requires
        is_reserved(key, reserved),
    ensures
        keys_reserved(opt_bool_entry(key, value), reserved),
{
    reveal(opt_bool_entry);
}

} // verus!
