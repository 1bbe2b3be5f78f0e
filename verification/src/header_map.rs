//! A multimap of HTTP header fields. Names are kept ASCII lower-cased, as
//! `http::HeaderName` keeps them, and looked up without regard to case.
use vstd::prelude::*;
use crate::text::{lower_chars, to_ascii_lowercase};

verus! {

/// The header fields of a request or a response, in insertion order.
#[derive(Debug)]
pub struct HeaderMap {
    entries: Vec<(String, Vec<u8>)>,
}

/// Keeps the entries whose name differs from `key`.
pub open spec fn without_name(v: Seq<(Seq<char>, Seq<u8>)>, key: Seq<char>) -> Seq<(Seq<char>, Seq<u8>)> {
    v.filter(name_differs(key))
}

/// Whether an entry's name differs from `key`.
pub open spec fn name_differs(key: Seq<char>) -> spec_fn((Seq<char>, Seq<u8>)) -> bool {
    |e: (Seq<char>, Seq<u8>)| e.0 != key
}

/// Keeps the entries other than those named `key` with the value `value`.
pub open spec fn without_entry(v: Seq<(Seq<char>, Seq<u8>)>, key: Seq<char>, value: Seq<u8>) -> Seq<(Seq<char>, Seq<u8>)> {
    v.filter(entry_differs(key, value))
}

/// Whether an entry is other than (`key`, `value`).
pub open spec fn entry_differs(key: Seq<char>, value: Seq<u8>) -> spec_fn((Seq<char>, Seq<u8>)) -> bool {
    |e: (Seq<char>, Seq<u8>)| !(e.0 == key && e.1 == value)
}

/// The value of the first entry named `key`, searching from position `from`.
pub open spec fn first_value_from(v: Seq<(Seq<char>, Seq<u8>)>, key: Seq<char>, from: int) -> Option<Seq<u8>>
    decreases v.len() - from,
{
    if from < 0 || from >= v.len() {
        None
    } else if v[from].0 == key {
        Some(v[from].1)
    } else {
        first_value_from(v, key, from + 1)
    }
}

/// The value of the first entry named `key`.
pub open spec fn first_value(v: Seq<(Seq<char>, Seq<u8>)>, key: Seq<char>) -> Option<Seq<u8>> {
    first_value_from(v, key, 0)
}

pub proof fn lemma_first_value_none(v: Seq<(Seq<char>, Seq<u8>)>, key: Seq<char>, from: int)
    requires
        0 <= from,
        forall|j: int| from <= j < v.len() ==> v[j].0 != key,
    ensures
        first_value_from(v, key, from) is None,
    decreases v.len() - from,
{
    if from < v.len() {
        lemma_first_value_none(v, key, from + 1);
    }
}

pub proof fn lemma_first_value_push(v: Seq<(Seq<char>, Seq<u8>)>, e: (Seq<char>, Seq<u8>), key: Seq<char>, from: int)
    requires
        0 <= from <= v.len(),
    ensures
        first_value_from(v.push(e), key, from) == (match first_value_from(v, key, from) {
            Some(x) => Some(x),
            None => if e.0 == key { Some(e.1) } else { None },
        }),
    decreases v.len() - from,
{
    if from < v.len() {
        assert(v.push(e)[from] == v[from]);
        lemma_first_value_push(v, e, key, from + 1);
    } else {
        assert(v.push(e)[from] == e);
        assert(first_value_from(v.push(e), key, from + 1) is None);
    }
}

/// `h` after setting each field of `extra` in turn, each replacing the
/// earlier values of its name, as `HeaderMap::insert` does.
pub open spec fn apply_inserts(h: Seq<(Seq<char>, Seq<u8>)>, extra: Seq<(Seq<char>, Seq<u8>)>) -> Seq<(Seq<char>, Seq<u8>)>
    decreases extra.len(),
{
    if extra.len() == 0 {
        h
    } else {
        let e = extra.last();
        let before = apply_inserts(h, extra.drop_last());
        without_name(before, lower_chars(e.0)).push((lower_chars(e.0), e.1))
    }
}

/// After a field is set, looking up its name gives the value it was set to.
pub proof fn lemma_get_after_insert(v: Seq<(Seq<char>, Seq<u8>)>, key: Seq<char>, value: Seq<u8>)
    ensures
        first_value(without_name(v, key).push((key, value)), key) == Some(value),
{
    let w = without_name(v, key);
    assert forall|j: int| 0 <= j < w.len() implies w[j].0 != key by {
        v.lemma_filter_pred(name_differs(key), j);
    }
    lemma_first_value_none(w, key, 0);
    lemma_first_value_push(w, (key, value), key, 0);
}

/// Dropping the entries of one name leaves the first value of any other
/// name as it was.
pub proof fn lemma_first_value_without_other(v: Seq<(Seq<char>, Seq<u8>)>, n: Seq<char>, k: Seq<char>)
    requires
        n != k,
    ensures
        first_value(without_name(v, n), k) == first_value(v, k),
    decreases v.len(),
{
    reveal_with_fuel(Seq::<_>::filter, 1);
    if v.len() > 0 {
        let u = v.drop_last();
        let e = v.last();
        assert(u.push(e) =~= v);
        lemma_first_value_without_other(u, n, k);
        lemma_first_value_push(u, e, k, 0);
        let w = without_name(u, n);
        if e.0 != n {
            lemma_first_value_push(w, e, k, 0);
        }
    }
}

/// Setting a field of another name leaves the first value of `k` as it
/// was.
pub proof fn lemma_first_value_insert_other(
    h: Seq<(Seq<char>, Seq<u8>)>,
    f: Seq<(Seq<char>, Seq<u8>)>,
    e: (Seq<char>, Seq<u8>),
    k: Seq<char>,
)
    requires
        lower_chars(e.0) != k,
    ensures
        first_value(apply_inserts(h, f.push(e)), k) == first_value(apply_inserts(h, f), k),
{
    lemma_apply_inserts_push(h, f, e);
    let a = apply_inserts(h, f);
    let w = without_name(a, lower_chars(e.0));
    lemma_first_value_without_other(a, lower_chars(e.0), k);
    lemma_first_value_push(w, (lower_chars(e.0), e.1), k, 0);
}

/// Setting the fields of `f` and then `e` is setting `e` after the others.
pub proof fn lemma_apply_inserts_push(
    h: Seq<(Seq<char>, Seq<u8>)>,
    f: Seq<(Seq<char>, Seq<u8>)>,
    e: (Seq<char>, Seq<u8>),
)
    ensures
        apply_inserts(h, f.push(e)) == without_name(apply_inserts(h, f), lower_chars(e.0)).push(
            (lower_chars(e.0), e.1),
        ),
{
    assert(f.push(e).drop_last() =~= f);
}

/// Setting the fields of `a + b` is setting those of `a`, then those of `b`.
pub proof fn lemma_apply_inserts_concat(
    h: Seq<(Seq<char>, Seq<u8>)>,
    a: Seq<(Seq<char>, Seq<u8>)>,
    b: Seq<(Seq<char>, Seq<u8>)>,
)
    ensures
        apply_inserts(h, a + b) == apply_inserts(apply_inserts(h, a), b),
    decreases b.len(),
{
    if b.len() == 0 {
        assert(a + b =~= a);
    } else {
        lemma_apply_inserts_concat(h, a, b.drop_last());
        assert((a + b).drop_last() =~= a + b.drop_last());
        assert((a + b).last() == b.last());
    }
}

/// The values of the entries named `key`, in order.
pub open spec fn values_named(v: Seq<(Seq<char>, Seq<u8>)>, key: Seq<char>) -> Seq<Seq<u8>>
    decreases v.len(),
{
    if v.len() == 0 {
        Seq::empty()
    } else {
        let rest = values_named(v.drop_last(), key);
        if v.last().0 == key {
            rest.push(v.last().1)
        } else {
            rest
        }
    }
}

/// Appending a field keeps the earlier values of its name and adds the new
/// one last; the values of other names are unchanged.
pub proof fn lemma_values_after_append(v: Seq<(Seq<char>, Seq<u8>)>, name: Seq<char>, value: Seq<u8>, key: Seq<char>)
    ensures
        values_named(v.push((name, value)), key) == (if name == key {
            values_named(v, key).push(value)
        } else {
            values_named(v, key)
        }),
{
    assert(v.push((name, value)).drop_last() =~= v);
}

/// After the fields of a name are removed, looking the name up finds
/// nothing.
pub proof fn lemma_get_after_remove(v: Seq<(Seq<char>, Seq<u8>)>, key: Seq<char>)
    ensures
        first_value(without_name(v, key), key) is None,
        values_named(without_name(v, key), key) == Seq::<Seq<u8>>::empty(),
{
    let w = without_name(v, key);
    assert forall|j: int| 0 <= j < w.len() implies w[j].0 != key by {
        v.lemma_filter_pred(name_differs(key), j);
    }
    lemma_first_value_none(w, key, 0);
    lemma_values_named_none(w, key);
}

/// A list with no entry named `key` has no values of that name.
proof fn lemma_values_named_none(v: Seq<(Seq<char>, Seq<u8>)>, key: Seq<char>)
    requires
        forall|j: int| 0 <= j < v.len() ==> v[j].0 != key,
    ensures
        values_named(v, key) == Seq::<Seq<u8>>::empty(),
    decreases v.len(),
{
    if v.len() > 0 {
        lemma_values_named_none(v.drop_last(), key);
    }
}

/// Several values of one field merged into one, separated by `sep` and a space.
pub open spec fn join_values(vals: Seq<Seq<u8>>, sep: u8) -> Seq<u8>
    decreases vals.len(),
{
    if vals.len() == 0 {
        Seq::empty()
    } else if vals.len() == 1 {
        vals[0]
    } else {
        join_values(vals.drop_last(), sep) + seq![sep, 32u8] + vals.last()
    }
}

pub proof fn lemma_values_named_prefix_len(v: Seq<(Seq<char>, Seq<u8>)>, key: Seq<char>, i: int, j: int)
    requires
        0 <= i <= j <= v.len(),
    ensures
        values_named(v.subrange(0, i), key).len() <= values_named(v.subrange(0, j), key).len(),
    decreases j - i,
{
    if i < j {
        lemma_values_named_prefix_len(v, key, i, j - 1);
        assert(v.subrange(0, j).drop_last() =~= v.subrange(0, j - 1));
    }
}

impl HeaderMap {
    /// The entries as (lower-cased name, value) pairs.
    pub closed spec fn view(&self) -> Seq<(Seq<char>, Seq<u8>)> {
        Seq::new(self.entries@.len(), |i: int| (self.entries@[i].0@, self.entries@[i].1@))
    }

    /// The value of the first field named `name`, ignoring ASCII case.
    pub open spec fn spec_get(&self, name: Seq<char>) -> Option<Seq<u8>> {
        first_value(self.view(), lower_chars(name))
    }

    /// The value of the only field named `name`; `None` unless there is exactly one.
    pub open spec fn spec_single(&self, name: Seq<char>) -> Option<Seq<u8>> {
        let vals = values_named(self.view(), lower_chars(name));
        if vals.len() == 1 { Some(vals[0]) } else { None }
    }

    /// All values of the fields named `name` merged with `sep` and a space;
    /// `None` when there is no such field.
    pub open spec fn spec_joined(&self, name: Seq<char>, sep: u8) -> Option<Seq<u8>> {
        let vals = values_named(self.view(), lower_chars(name));
        if vals.len() == 0 { None } else { Some(join_values(vals, sep)) }
    }

    /// An empty map.
    pub fn new() -> (m: HeaderMap)
        ensures
            m.view() == Seq::<(Seq<char>, Seq<u8>)>::empty(),
    {
        let m = HeaderMap { entries: Vec::new() };
        assert(m.view() =~= Seq::<(Seq<char>, Seq<u8>)>::empty());
        m
    }

    /// Number of entries.
    pub fn len(&self) -> (n: usize)
        ensures
            n == self.view().len(),
    {
        self.entries.len()
    }

    /// Adds a field, keeping the fields of the same name.
    pub fn append(&mut self, name: &str, value: &[u8])
        ensures
            final(self).view() == old(self).view().push((lower_chars(name@), value@)),
    {
        let n = to_ascii_lowercase(name);
        let v = vstd::slice::slice_to_vec(value);
        self.entries.push((n, v));
        assert(self.view() =~= old(self).view().push((lower_chars(name@), value@)));
    }

    /// Removes every field named `name`.
    pub fn remove(&mut self, name: &str)
        ensures
            final(self).view() == without_name(old(self).view(), lower_chars(name@)),
    {
        let key = to_ascii_lowercase(name);
        let ghost old_view = self.view();
        let ghost keyv = lower_chars(name@);
        let mut kept: Vec<(String, Vec<u8>)> = Vec::new();
        let mut i: usize = 0;
        let len = self.entries.len();
        while i < len
            invariant
                len == self.entries@.len(),
                old_view == self.view(),
                key@ == keyv,
                i <= len,
                Seq::new(kept@.len(), |j: int| (kept@[j].0@, kept@[j].1@))
                    == without_name(old_view.subrange(0, i as int), keyv),
            decreases len - i,
        {
            let ghost before = kept@;
            let same = self.entries[i].0 == key;
            if !same {
                let e = (self.entries[i].0.clone(), self.entries[i].1.clone());
                kept.push(e);
            }
            proof {
                let pred = |e: (Seq<char>, Seq<u8>)| e.0 != keyv;
                assert(old_view.subrange(0, i + 1).drop_last() =~= old_view.subrange(0, i as int));
                assert(old_view.subrange(0, i + 1).last() == old_view[i as int]);
                reveal_with_fuel(Seq::<_>::filter, 1);
                assert(Seq::new(kept@.len(), |j: int| (kept@[j].0@, kept@[j].1@))
                    =~= without_name(old_view.subrange(0, i + 1), keyv));
            }
            i = i + 1;
        }
        assert(old_view.subrange(0, len as int) =~= old_view);
        self.entries = kept;
    }

    /// Removes every field named `name` whose value is exactly `value`,
    /// keeping the other fields in order.
    pub fn remove_value(&mut self, name: &str, value: &[u8])
        ensures
            final(self).view() == without_entry(old(self).view(), lower_chars(name@), value@),
    {
        let key = to_ascii_lowercase(name);
        let ghost old_view = self.view();
        let ghost keyv = lower_chars(name@);
        let mut kept: Vec<(String, Vec<u8>)> = Vec::new();
        let mut i: usize = 0;
        let len = self.entries.len();
        while i < len
            invariant
                len == self.entries@.len(),
                old_view == self.view(),
                key@ == keyv,
                i <= len,
                Seq::new(kept@.len(), |j: int| (kept@[j].0@, kept@[j].1@))
                    == without_entry(old_view.subrange(0, i as int), keyv, value@),
            decreases len - i,
        {
            let same = self.entries[i].0 == key && crate::text::bytes_eq(self.entries[i].1.as_slice(), value);
            if !same {
                let e = (self.entries[i].0.clone(), self.entries[i].1.clone());
                kept.push(e);
            }
            proof {
                assert(old_view.subrange(0, i + 1).drop_last() =~= old_view.subrange(0, i as int));
                assert(old_view.subrange(0, i + 1).last() == old_view[i as int]);
                reveal_with_fuel(Seq::<_>::filter, 1);
                assert(Seq::new(kept@.len(), |j: int| (kept@[j].0@, kept@[j].1@))
                    =~= without_entry(old_view.subrange(0, i + 1), keyv, value@));
            }
            i = i + 1;
        }
        assert(old_view.subrange(0, len as int) =~= old_view);
        self.entries = kept;
    }

    /// Sets `name` to the single value `value`, dropping earlier values of that name.
    pub fn insert(&mut self, name: &str, value: &[u8])
        ensures
            final(self).view() == without_name(old(self).view(), lower_chars(name@)).push(
                (lower_chars(name@), value@),
            ),
    {
        self.remove(name);
        self.append(name, value);
    }

    /// The value of the first field named `name`, ignoring ASCII case.
    pub fn get(&self, name: &str) -> (r: Option<&Vec<u8>>)
        ensures
            r matches Some(v) ==> self.spec_get(name@) == Some(v@),
            r is None ==> self.spec_get(name@) is None,
    {
        let key = to_ascii_lowercase(name);
        let len = self.entries.len();
        let mut i: usize = 0;
        while i < len
            invariant
                len == self.entries@.len(),
                key@ == lower_chars(name@),
                i <= len,
                self.spec_get(name@) == first_value_from(self.view(), key@, i as int),
            decreases len - i,
        {
            if self.entries[i].0 == key {
                return Some(&self.entries[i].1);
            }
            i = i + 1;
        }
        None
    }

    /// All values of the fields named `name`, merged with `sep` and a space
    /// as typed list headers merge them; `None` when there is no such field.
    pub fn get_joined(&self, name: &str, sep: u8) -> (r: Option<Vec<u8>>)
        ensures
            r is None <==> values_named(self.view(), lower_chars(name@)).len() == 0,
            r matches Some(v) ==> v@ == join_values(values_named(self.view(), lower_chars(name@)), sep),
    {
        let key = to_ascii_lowercase(name);
        let ghost keyv = lower_chars(name@);
        let len = self.entries.len();
        let mut out: Vec<u8> = Vec::new();
        let mut any = false;
        let mut i: usize = 0;
        while i < len
            invariant
                len == self.entries@.len(),
                key@ == keyv,
                i <= len,
                any == (values_named(self.view().subrange(0, i as int), keyv).len() > 0),
                out@ == join_values(values_named(self.view().subrange(0, i as int), keyv), sep),
            decreases len - i,
        {
            proof {
                assert(self.view().subrange(0, i + 1).drop_last() =~= self.view().subrange(0, i as int));
            }
            if self.entries[i].0 == key {
                if any {
                    out.push(sep);
                    out.push(32u8);
                }
                let v = &self.entries[i].1;
                let mut k: usize = 0;
                let ghost base = out@;
                while k < v.len()
                    invariant
                        k <= v@.len(),
                        out@ == base + v@.subrange(0, k as int),
                    decreases v@.len() - k,
                {
                    out.push(v[k]);
                    assert(v@.subrange(0, k + 1) =~= v@.subrange(0, k as int).push(v@[k as int]));
                    k = k + 1;
                }
                proof {
                    let vals = values_named(self.view().subrange(0, i + 1), keyv);
                    assert(v@.subrange(0, v@.len() as int) =~= v@);
                    if !any {
                        assert(vals =~= seq![v@]);
                        assert(out@ =~= v@);
                    } else {
                        assert(vals.drop_last() == values_named(self.view().subrange(0, i as int), keyv));
                        assert(out@ =~= join_values(vals.drop_last(), sep) + seq![sep, 32u8] + v@);
                    }
                }
                any = true;
            }
            i = i + 1;
        }
        assert(self.view().subrange(0, len as int) =~= self.view());
        if !any {
            None
        } else {
            Some(out)
        }
    }

    /// The value of the field named `name` when there is exactly one such
    /// field (as typed single-value headers require).
    pub fn get_single(&self, name: &str) -> (r: Option<&Vec<u8>>)
        ensures
            r is Some <==> values_named(self.view(), lower_chars(name@)).len() == 1,
            r matches Some(v) ==> values_named(self.view(), lower_chars(name@)) == seq![v@],
    {
        let key = to_ascii_lowercase(name);
        let ghost keyv = lower_chars(name@);
        let len = self.entries.len();
        let mut found: Option<usize> = None;
        let mut i: usize = 0;
        while i < len
            invariant
                len == self.entries@.len(),
                key@ == keyv,
                i <= len,
                keyv == lower_chars(name@),
                found is None ==> values_named(self.view().subrange(0, i as int), keyv).len() == 0,
                found matches Some(j) ==> j < i && values_named(self.view().subrange(0, i as int), keyv)
                    == seq![self.entries@[j as int].1@],
            decreases len - i,
        {
            proof {
                assert(self.view().subrange(0, i + 1).drop_last() =~= self.view().subrange(0, i as int));
            }
            if self.entries[i].0 == key {
                if found.is_some() {
                    proof {
                        let vals = values_named(self.view().subrange(0, i + 1), keyv);
                        assert(vals.len() == 2);
                        assert(self.view().subrange(0, len as int) =~= self.view());
                        lemma_values_named_prefix_len(self.view(), keyv, i + 1, len as int);
                        assert(values_named(self.view().subrange(0, len as int), keyv)
                            == values_named(self.view(), keyv));
                        assert(values_named(self.view(), keyv).len() >= 2);
                        assert(keyv == lower_chars(name@));
                    }
                    return None;
                }
                found = Some(i);
                proof {
                    assert(values_named(self.view().subrange(0, i + 1), keyv) =~= seq![self.entries@[i as int].1@]);
                }
            }
            i = i + 1;
        }
        assert(self.view().subrange(0, len as int) =~= self.view());
        match found {
            Some(j) => Some(&self.entries[j].1),
            None => None,
        }
    }

    /// The values of the fields named `name`, in order.
    pub fn get_all(&self, name: &str) -> (r: Vec<Vec<u8>>)
        ensures
            r@.len() == values_named(self.view(), lower_chars(name@)).len(),
            forall|k: int| 0 <= k < r@.len() ==> #[trigger] r@[k]@ == values_named(self.view(), lower_chars(name@))[k],
    {
        let key = to_ascii_lowercase(name);
        let ghost keyv = lower_chars(name@);
        let len = self.entries.len();
        let mut out: Vec<Vec<u8>> = Vec::new();
        let mut i: usize = 0;
        while i < len
            invariant
                len == self.entries@.len(),
                key@ == keyv,
                i <= len,
                keyv == lower_chars(name@),
                out@.len() == values_named(self.view().subrange(0, i as int), keyv).len(),
                forall|k: int| 0 <= k < out@.len() ==> #[trigger] out@[k]@ == values_named(self.view().subrange(0, i as int), keyv)[k],
            decreases len - i,
        {
            proof {
                assert(self.view().subrange(0, i + 1).drop_last() =~= self.view().subrange(0, i as int));
            }
            if self.entries[i].0 == key {
                out.push(self.entries[i].1.clone());
            }
            i = i + 1;
        }
        assert(self.view().subrange(0, len as int) =~= self.view());
        out
    }

    /// Whether a field named `name` is present.
    pub fn contains_key(&self, name: &str) -> (r: bool)
        ensures
            r == self.spec_get(name@) is Some,
    {
        self.get(name).is_some()
    }

    /// The name and value of the entry at position `i`.
    pub fn entry_at(&self, i: usize) -> (r: (&String, &Vec<u8>))
        requires
            i < self.view().len(),
        ensures
            (r.0@, r.1@) == self.view()[i as int],
    {
        (&self.entries[i].0, &self.entries[i].1)
    }
}

impl Clone for HeaderMap {
    fn clone(&self) -> (r: Self)
        ensures
            r.view() == self.view(),
    {
        let mut entries: Vec<(String, Vec<u8>)> = Vec::new();
        let mut i: usize = 0;
        while i < self.entries.len()
            invariant
                i <= self.entries@.len(),
                entries@.len() == i,
                forall|j: int| 0 <= j < i ==> entries@[j].0@ == self.entries@[j].0@
                    && entries@[j].1@ == self.entries@[j].1@,
            decreases self.entries@.len() - i,
        {
            entries.push((self.entries[i].0.clone(), self.entries[i].1.clone()));
            i = i + 1;
        }
        let r = HeaderMap { entries };
        assert(r.view() =~= self.view());
        r
    }
}

} // verus!
