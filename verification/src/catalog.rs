//! A catalog of records keyed by a string id: saving replaces the record with
//! the same id, and listing returns the records newest first, ties broken by
//! id in byte order.
use vstd::prelude::*;

use crate::text::chars_of;

verus! {

/// Byte-order comparison of strings: UTF-8 preserves the order of code
/// points, so comparing characters by code point compares the bytes.
pub open spec fn lex_lt(a: Seq<char>, b: Seq<char>) -> bool
    decreases a.len(),
{
    if a.len() == 0 {
        b.len() > 0
    } else if b.len() == 0 {
        false
    } else if (a[0] as u32) < (b[0] as u32) {
        true
    } else if (a[0] as u32) > (b[0] as u32) {
        false
    } else {
        lex_lt(a.subrange(1, a.len() as int), b.subrange(1, b.len() as int))
    }
}

/// `lex_lt` is a strict total order on sequences of characters.
pub proof fn lemma_lex_order(a: Seq<char>, b: Seq<char>, c: Seq<char>)
    ensures
        !lex_lt(a, a),
        lex_lt(a, b) ==> !lex_lt(b, a),
        a != b ==> lex_lt(a, b) || lex_lt(b, a),
        lex_lt(a, b) && lex_lt(b, c) ==> lex_lt(a, c),
{
    lemma_lex_irreflexive(a);
    lemma_lex_asymmetric(a, b);
    lemma_lex_total(a, b);
    lemma_lex_transitive(a, b, c);
}

proof fn lemma_lex_irreflexive(a: Seq<char>)
    ensures
        !lex_lt(a, a),
    decreases a.len(),
{
    if a.len() > 0 {
        lemma_lex_irreflexive(a.subrange(1, a.len() as int));
    }
}

proof fn lemma_lex_asymmetric(a: Seq<char>, b: Seq<char>)
    ensures
        lex_lt(a, b) ==> !lex_lt(b, a),
    decreases a.len(),
{
    if a.len() > 0 && b.len() > 0 {
        lemma_lex_asymmetric(a.subrange(1, a.len() as int), b.subrange(1, b.len() as int));
    }
}

proof fn lemma_lex_total(a: Seq<char>, b: Seq<char>)
    ensures
        a != b ==> lex_lt(a, b) || lex_lt(b, a),
    decreases a.len(),
{
    if a.len() == 0 && b.len() == 0 {
        assert(a =~= b);
    } else if a.len() > 0 && b.len() > 0 {
        let ta = a.subrange(1, a.len() as int);
        let tb = b.subrange(1, b.len() as int);
        lemma_lex_total(ta, tb);
        lemma_char_code_injective(a[0], b[0]);
        if a[0] == b[0] && ta == tb {
            assert forall|i: int| 0 <= i < a.len() implies a[i] == b[i] by {
                if i > 0 {
                    assert(a[i] == ta[i - 1]);
                    assert(b[i] == tb[i - 1]);
                }
            }
            assert(a =~= b);
        }
    }
}

proof fn lemma_lex_transitive(a: Seq<char>, b: Seq<char>, c: Seq<char>)
    ensures
        lex_lt(a, b) && lex_lt(b, c) ==> lex_lt(a, c),
    decreases a.len(),
{
    if a.len() > 0 && b.len() > 0 && c.len() > 0 {
        lemma_lex_transitive(
            a.subrange(1, a.len() as int),
            b.subrange(1, b.len() as int),
            c.subrange(1, c.len() as int),
        );
    }
}

proof fn lemma_char_code_injective(x: char, y: char)
    ensures
        (x as u32) == (y as u32) ==> x == y,
{
}

/// Whether `a` comes before `b` in byte order.
pub fn str_lt(a: &str, b: &str) -> (r: bool)
    ensures
        r == lex_lt(a@, b@),
{
    let va = chars_of(a);
    let vb = chars_of(b);
    let mut i: usize = 0;
    proof {
        assert(va@.subrange(0, va@.len() as int) =~= va@);
        assert(vb@.subrange(0, vb@.len() as int) =~= vb@);
    }
    while i < va.len() && i < vb.len() && va[i] == vb[i]
        invariant
            i <= va@.len(),
            i <= vb@.len(),
            va@ == a@,
            vb@ == b@,
            lex_lt(va@, vb@) == lex_lt(
                va@.subrange(i as int, va@.len() as int),
                vb@.subrange(i as int, vb@.len() as int),
            ),
        decreases va@.len() - i,
    {
        let ghost sa = va@.subrange(i as int, va@.len() as int);
        let ghost sb = vb@.subrange(i as int, vb@.len() as int);
        assert(sa.subrange(1, sa.len() as int) =~= va@.subrange(i + 1, va@.len() as int));
        assert(sb.subrange(1, sb.len() as int) =~= vb@.subrange(i + 1, vb@.len() as int));
        assert(sa[0] == va@[i as int]);
        assert(sb[0] == vb@[i as int]);
        i = i + 1;
    }
    let ghost sa = va@.subrange(i as int, va@.len() as int);
    let ghost sb = vb@.subrange(i as int, vb@.len() as int);
    if i == va.len() {
        assert(sa.len() == 0);
        i < vb.len()
    } else if i == vb.len() {
        assert(sb.len() == 0);
        false
    } else {
        assert(sa[0] == va@[i as int]);
        assert(sb[0] == vb@[i as int]);
        assert(va@[i as int] != vb@[i as int]);
        proof { lemma_char_code_injective(va@[i as int], vb@[i as int]); }
        (va[i] as u32) < (vb[i] as u32)
    }
}

/// A record that a catalog can hold: an id and a time stamp, and a copy that
/// keeps its content.
pub trait Keyed: View + Sized {
    /// The id of a record.
    spec fn key_of(v: Self::V) -> Seq<char>;

    /// The time stamp by which records are listed.
    spec fn stamp_of(v: Self::V) -> u64;

    /// The id of this record.
    fn key(&self) -> (r: &str)
        ensures
            r@ == Self::key_of(self@),
    ;

    /// The time stamp of this record.
    fn stamp(&self) -> (r: u64)
        ensures
            r == Self::stamp_of(self@),
    ;

    /// A copy of this record.
    fn duplicate(&self) -> (r: Self)
        ensures
            r@ == self@,
    ;
}

/// Listing order: newer first, equal stamps by id in byte order.
pub open spec fn listed_before<T: Keyed>(a: T::V, b: T::V) -> bool {
    T::stamp_of(a) > T::stamp_of(b) || (T::stamp_of(a) == T::stamp_of(b) && lex_lt(
        T::key_of(a),
        T::key_of(b),
    ))
}

/// Whether `s` is strictly in listing order.
pub open spec fn is_listed<T: Keyed>(s: Seq<T::V>) -> bool {
    forall|i: int, j: int| 0 <= i < j < s.len() ==> listed_before::<T>(s[i], s[j])
}

/// Whether no two records of `s` share an id.
pub open spec fn keys_distinct<T: Keyed>(s: Seq<T::V>) -> bool {
    forall|i: int, j: int|
        #![trigger s[i], s[j]]
        0 <= i < j < s.len() ==> T::key_of(s[i]) != T::key_of(s[j])
}

/// The contents of a sequence of records.
pub open spec fn views<T: View>(v: Seq<T>) -> Seq<T::V> {
    v.map_values(|t: T| t@)
}

/// The record of `s` with id `k`, if any.
pub open spec fn lookup<T: Keyed>(s: Seq<T::V>, k: Seq<char>) -> Option<T::V>
    decreases s.len(),
{
    if s.len() == 0 {
        None
    } else if T::key_of(s.last()) == k {
        Some(s.last())
    } else {
        lookup::<T>(s.drop_last(), k)
    }
}

/// The records of `s` as a map from id to record.
pub open spec fn as_map<T: Keyed>(s: Seq<T::V>) -> Map<Seq<char>, T::V> {
    Map::new(|k: Seq<char>| lookup::<T>(s, k) is Some, |k: Seq<char>| lookup::<T>(s, k)->0)
}

/// Records keyed by id, held in a vector in the order their ids were first
/// saved. The records are kept in a vector rather than a hash map because
/// every user of a catalog also lists, snapshots or writes out all of its
/// records, and vstd's `StringHashMap` specifies lookups and updates but no
/// way to enumerate its entries: a listing read from it could not be proved
/// to hold each record exactly once. Lookups walk the vector.
pub struct Catalog<T: Keyed> {
    items: Vec<T>,
}

impl<T: Keyed> Catalog<T> {
    /// The records in the order they were first saved.
    pub closed spec fn entries(&self) -> Seq<T::V> {
        self.items@.map_values(|t: T| t@)
    }

    /// The records, as a map from id to record.
    pub open spec fn contents(&self) -> Map<Seq<char>, T::V> {
        as_map::<T>(self.entries())
    }

    #[verifier::type_invariant]
    spec fn well_formed(&self) -> bool {
        keys_distinct::<T>(self.entries())
    }

    /// An empty catalog.
    pub fn new() -> (c: Catalog<T>)
        ensures
            c.contents() == Map::<Seq<char>, T::V>::empty(),
    {
        let c = Catalog { items: Vec::new() };
        assert(c.entries() =~= Seq::<T::V>::empty());
        assert(c.contents() =~= Map::<Seq<char>, T::V>::empty());
        c
    }

    /// The number of records.
    pub fn len(&self) -> (n: usize)
        ensures
            n == self.contents().dom().len(),
            self.contents().dom().finite(),
    {
        proof {
            use_type_invariant(self);
            lemma_map_size::<T>(self.entries());
        }
        self.items.len()
    }

    fn position(&self, key: &str) -> (r: Option<usize>)
        ensures
            r matches Some(i) ==> i < self.entries().len() && T::key_of(self.entries()[i as int])
                == key@,
            r is None ==> forall|i: int|
                0 <= i < self.entries().len() ==> T::key_of(self.entries()[i]) != key@,
    {
        let mut i: usize = 0;
        while i < self.items.len()
            invariant
                i <= self.items@.len(),
                forall|j: int| 0 <= j < i ==> T::key_of(self.entries()[j]) != key@,
            decreases self.items@.len() - i,
        {
            if crate::text::str_eq(self.items[i].key(), key) {
                return Some(i);
            }
            i = i + 1;
        }
        None
    }

    /// The record with id `key`, if any.
    pub fn load(&self, key: &str) -> (r: Option<T>)
        ensures
            r is Some <==> self.contents().contains_key(key@),
            r matches Some(t) ==> t@ == self.contents()[key@] && T::key_of(t@) == key@,
    {
        proof {
            use_type_invariant(self);
        }
        match self.position(key) {
            Some(i) => {
                proof {
                    lemma_lookup_at::<T>(self.entries(), i as int);
                }
                Some(self.items[i].duplicate())
            },
            None => {
                proof {
                    lemma_lookup_absent::<T>(self.entries(), key@);
                }
                None
            },
        }
    }

    /// Whether a record with id `key` is held.
    pub fn contains(&self, key: &str) -> (r: bool)
        ensures
            r == self.contents().contains_key(key@),
    {
        proof {
            use_type_invariant(self);
        }
        match self.position(key) {
            Some(i) => {
                proof {
                    lemma_lookup_at::<T>(self.entries(), i as int);
                }
                true
            },
            None => {
                proof {
                    lemma_lookup_absent::<T>(self.entries(), key@);
                }
                false
            },
        }
    }

    /// Saves `item`, replacing the record with the same id.
    pub fn save(&mut self, item: T)
        ensures
            final(self).contents() == old(self).contents().insert(T::key_of(item@), item@),
    {
        proof {
            use_type_invariant(&*self);
        }
        let ghost old_entries = self.entries();
        let ghost k = T::key_of(item@);
        let ghost v = item@;
        let pos = self.position(item.key());
        let mut items: Vec<T> = Vec::new();
        std::mem::swap(&mut items, &mut self.items);
        assert(items@.map_values(|t: T| t@) =~= old_entries);
        match pos {
            Some(i) => {
                items.set(i, item);
                proof {
                    let e = items@.map_values(|t: T| t@);
                    assert(e =~= old_entries.update(i as int, v));
                    lemma_lookup_update::<T>(old_entries, i as int, v);
                    assert(as_map::<T>(e) =~= as_map::<T>(old_entries).insert(k, v));
                }
                self.items = items;
            },
            None => {
                items.push(item);
                proof {
                    let e = items@.map_values(|t: T| t@);
                    assert(e =~= old_entries.push(v));
                    assert(e.drop_last() =~= old_entries);
                    assert forall|a: int, b: int| 0 <= a < b < e.len() implies T::key_of(e[a])
                        != T::key_of(e[b]) by {
                        if b == e.len() - 1 {
                            assert(e[a] == old_entries[a]);
                        } else {
                            assert(e[a] == old_entries[a]);
                            assert(e[b] == old_entries[b]);
                        }
                    }
                    assert(as_map::<T>(e) =~= as_map::<T>(old_entries).insert(k, v));
                }
                self.items = items;
            },
        }
    }

    /// Every record, newest first; records saved at the same time come in
    /// byte order of their ids.
    pub fn list(&self) -> (r: Vec<T>)
        ensures
            is_listed::<T>(views(r@)),
            forall|i: int|
                0 <= i < r@.len() ==> self.contents().contains_key(T::key_of(#[trigger] r@[i]@))
                    && self.contents()[T::key_of(r@[i]@)] == r@[i]@,
            forall|k: Seq<char>|
                #[trigger] self.contents().contains_key(k) ==> exists|i: int|
                    0 <= i < r@.len() && T::key_of(r@[i]@) == k,
    {
        proof {
            use_type_invariant(self);
        }
        let ghost e = self.entries();
        let mut out: Vec<T> = Vec::new();
        let mut i: usize = 0;
        proof {
            reveal(is_permutation_of_prefix);
        }
        while i < self.items.len()
            invariant
                i <= self.items@.len(),
                e == self.entries(),
                keys_distinct::<T>(e),
                is_listed::<T>(views(out@)),
                out@.len() == i,
                views(out@).len() == i,
                is_permutation_of_prefix::<T>(views(out@), e, i as int),
            decreases self.items@.len() - i,
        {
            let item = self.items[i].duplicate();
            assert(e[i as int] == self.items@[i as int]@);
            let ghost ov = views(out@);
            let mut p: usize = 0;
            while p < out.len() && !precedes(&item, &out[p])
                invariant
                    p <= out@.len(),
                    ov == views(out@),
                    item@ == e[i as int],
                    forall|q: int| 0 <= q < p ==> !listed_before::<T>(item@, #[trigger] ov[q]),
                decreases out@.len() - p,
            {
                p = p + 1;
            }
            proof {
                if p < out@.len() {
                    assert(ov[p as int] == out@[p as int]@);
                }
                lemma_prefix_keys_differ::<T>(ov, e, i as int);
                lemma_insert_keeps_listed::<T>(ov, p as int, item@);
                lemma_insert_permutation::<T>(ov, e, i as int, p as int);
            }
            out.insert(p, item);
            assert(views(out@) =~= ov.insert(p as int, e[i as int]));
            i = i + 1;
        }
        proof {
            reveal(is_permutation_of_prefix);
            let ov = views(out@);
            assert forall|j: int| 0 <= j < out@.len() implies self.contents().contains_key(
                T::key_of(#[trigger] out@[j]@),
            ) && self.contents()[T::key_of(out@[j]@)] == out@[j]@ by {
                assert(ov[j] == out@[j]@);
                let m = choose|m: int| 0 <= m < e.len() && ov[j] == e[m];
                lemma_lookup_at::<T>(e, m);
            }
            assert forall|k: Seq<char>| #[trigger] self.contents().contains_key(k) implies exists|
                j: int,
            | 0 <= j < out@.len() && T::key_of(out@[j]@) == k by {
                let m = lemma_lookup_some::<T>(e, k);
                let j = choose|j: int| 0 <= j < ov.len() && ov[j] == e[m];
                assert(ov[j] == out@[j]@);
            }
        }
        out
    }
}

/// Whether `s` holds exactly the first `n` records of `e`, in any order.
#[verifier::opaque]
pub open spec fn is_permutation_of_prefix<T: Keyed>(s: Seq<T::V>, e: Seq<T::V>, n: int) -> bool {
    &&& s.len() == n
    &&& n <= e.len()
    &&& forall|j: int| 0 <= j < s.len() ==> exists|m: int| 0 <= m < n && #[trigger] s[j] == e[m]
    &&& forall|m: int| 0 <= m < n ==> exists|j: int| 0 <= j < s.len() && s[j] == #[trigger] e[m]
}

proof fn lemma_prefix_keys_differ<T: Keyed>(s: Seq<T::V>, e: Seq<T::V>, n: int)
    requires
        is_permutation_of_prefix::<T>(s, e, n),
        keys_distinct::<T>(e),
        n < e.len(),
    ensures
        forall|q: int| 0 <= q < s.len() ==> T::key_of(#[trigger] s[q]) != T::key_of(e[n]),
{
    reveal(is_permutation_of_prefix);
    assert forall|q: int| 0 <= q < s.len() implies T::key_of(#[trigger] s[q]) != T::key_of(e[n]) by {
        let m = choose|m: int| 0 <= m < n && s[q] == e[m];
        assert(T::key_of(e[m]) != T::key_of(e[n]));
    }
}

proof fn lemma_insert_keeps_listed<T: Keyed>(s: Seq<T::V>, p: int, x: T::V)
    requires
        is_listed::<T>(s),
        0 <= p <= s.len(),
        forall|q: int| 0 <= q < p ==> !listed_before::<T>(x, #[trigger] s[q]),
        p < s.len() ==> listed_before::<T>(x, s[p]),
        forall|q: int| 0 <= q < s.len() ==> T::key_of(#[trigger] s[q]) != T::key_of(x),
    ensures
        is_listed::<T>(s.insert(p, x)),
{
    let t = s.insert(p, x);
    assert forall|a: int, b: int| 0 <= a < b < t.len() implies listed_before::<T>(t[a], t[b]) by {
        if b < p {
            assert(t[a] == s[a] && t[b] == s[b]);
        } else if b == p {
            assert(t[a] == s[a]);
            lemma_listed_total::<T>(s[a], x);
        } else if a < p {
            assert(t[a] == s[a] && t[b] == s[b - 1]);
        } else if a == p {
            assert(t[b] == s[b - 1]);
            if b - 1 > p {
                lemma_listed_trans::<T>(x, s[p], s[b - 1]);
            }
        } else {
            assert(t[a] == s[a - 1] && t[b] == s[b - 1]);
        }
    }
}

proof fn lemma_insert_permutation<T: Keyed>(s: Seq<T::V>, e: Seq<T::V>, n: int, p: int)
    requires
        is_permutation_of_prefix::<T>(s, e, n),
        n < e.len(),
        0 <= p <= s.len(),
    ensures
        is_permutation_of_prefix::<T>(s.insert(p, e[n]), e, n + 1),
{
    reveal(is_permutation_of_prefix);
    let t = s.insert(p, e[n]);
    assert forall|j: int| 0 <= j < t.len() implies exists|m: int| 0 <= m < n + 1 && #[trigger] t[j] == e[m] by {
        if j < p {
            assert(t[j] == s[j]);
            let m = choose|m: int| 0 <= m < n && s[j] == e[m];
        } else if j > p {
            assert(t[j] == s[j - 1]);
            let m = choose|m: int| 0 <= m < n && s[j - 1] == e[m];
        } else {
            assert(t[j] == e[n]);
        }
    }
    assert forall|m: int| 0 <= m < n + 1 implies exists|j: int| 0 <= j < t.len() && t[j] == #[trigger] e[m] by {
        if m < n {
            let j = choose|j: int| 0 <= j < s.len() && s[j] == e[m];
            if j < p {
                assert(t[j] == s[j]);
            } else {
                assert(t[j + 1] == s[j]);
            }
        } else {
            assert(t[p] == e[n]);
        }
    }
}

/// Whether `a` is listed before `b`.
pub fn precedes<T: Keyed>(a: &T, b: &T) -> (r: bool)
    ensures
        r == listed_before::<T>(a@, b@),
{
    let sa = a.stamp();
    let sb = b.stamp();
    if sa > sb {
        true
    } else if sa < sb {
        false
    } else {
        str_lt(a.key(), b.key())
    }
}

proof fn lemma_listed_total<T: Keyed>(a: T::V, b: T::V)
    ensures
        T::key_of(a) != T::key_of(b) ==> listed_before::<T>(a, b) || listed_before::<T>(b, a),
        listed_before::<T>(a, b) ==> !listed_before::<T>(b, a),
{
    lemma_lex_order(T::key_of(a), T::key_of(b), T::key_of(a));
}

proof fn lemma_listed_trans<T: Keyed>(a: T::V, b: T::V, c: T::V)
    ensures
        listed_before::<T>(a, b) && listed_before::<T>(b, c) ==> listed_before::<T>(a, c),
{
    lemma_lex_order(T::key_of(a), T::key_of(b), T::key_of(c));
}

proof fn lemma_lookup_at<T: Keyed>(s: Seq<T::V>, i: int)
    requires
        keys_distinct::<T>(s),
        0 <= i < s.len(),
    ensures
        lookup::<T>(s, T::key_of(s[i])) == Some(s[i]),
    decreases s.len(),
{
    if i < s.len() - 1 {
        lemma_lookup_at::<T>(s.drop_last(), i);
    }
}

proof fn lemma_lookup_absent<T: Keyed>(s: Seq<T::V>, k: Seq<char>)
    requires
        forall|i: int| 0 <= i < s.len() ==> T::key_of(s[i]) != k,
    ensures
        lookup::<T>(s, k) is None,
    decreases s.len(),
{
    if s.len() > 0 {
        lemma_lookup_absent::<T>(s.drop_last(), k);
    }
}

proof fn lemma_lookup_some<T: Keyed>(s: Seq<T::V>, k: Seq<char>) -> (m: int)
    requires
        lookup::<T>(s, k) is Some,
    ensures
        0 <= m < s.len(),
        T::key_of(s[m]) == k,
        lookup::<T>(s, k) == Some(s[m]),
    decreases s.len(),
{
    if T::key_of(s.last()) == k {
        (s.len() - 1) as int
    } else {
        lemma_lookup_some::<T>(s.drop_last(), k)
    }
}

proof fn lemma_lookup_update<T: Keyed>(s: Seq<T::V>, i: int, v: T::V)
    requires
        keys_distinct::<T>(s),
        0 <= i < s.len(),
        T::key_of(v) == T::key_of(s[i]),
    ensures
        keys_distinct::<T>(s.update(i, v)),
        forall|k: Seq<char>|
            #[trigger] lookup::<T>(s.update(i, v), k) == if k == T::key_of(v) {
                Some(v)
            } else {
                lookup::<T>(s, k)
            },
    decreases s.len(),
{
    let u = s.update(i, v);
    assert forall|a: int, b: int| 0 <= a < b < u.len() implies T::key_of(u[a]) != T::key_of(
        u[b],
    ) by {
        if a == i {
            assert(T::key_of(s[a]) != T::key_of(s[b]));
        } else if b == i {
            assert(T::key_of(s[a]) != T::key_of(s[b]));
        } else {
            assert(T::key_of(s[a]) != T::key_of(s[b]));
        }
    }
    if i < s.len() - 1 {
        let init = s.drop_last();
        assert forall|a: int, b: int| 0 <= a < b < init.len() implies T::key_of(init[a])
            != T::key_of(init[b]) by {
            assert(init[a] == s[a]);
            assert(init[b] == s[b]);
        }
        lemma_lookup_update::<T>(init, i, v);
        assert(u.drop_last() =~= init.update(i, v));
        assert(T::key_of(s.last()) != T::key_of(s[i]));
    } else {
        assert(u.drop_last() =~= s.drop_last());
    }
    assert forall|k: Seq<char>| #[trigger] lookup::<T>(u, k) == if k == T::key_of(v) {
        Some(v)
    } else {
        lookup::<T>(s, k)
    } by {
        if i < s.len() - 1 {
            let init = s.drop_last();
            assert(u.last() == s.last());
            assert(lookup::<T>(u.drop_last(), k) == lookup::<T>(init.update(i, v), k));
        } else {
            assert(u.last() == v);
            assert(lookup::<T>(u.drop_last(), k) == lookup::<T>(s.drop_last(), k));
        }
    }
}

proof fn lemma_map_size<T: Keyed>(s: Seq<T::V>)
    requires
        keys_distinct::<T>(s),
    ensures
        as_map::<T>(s).dom().finite(),
        as_map::<T>(s).dom().len() == s.len(),
    decreases s.len(),
{
    if s.len() == 0 {
        assert(as_map::<T>(s).dom() =~= Set::<Seq<char>>::empty());
    } else {
        let init = s.drop_last();
        lemma_map_size::<T>(init);
        assert forall|i: int| 0 <= i < init.len() implies T::key_of(init[i]) != T::key_of(
            s.last(),
        ) by {
            assert(init[i] == s[i]);
        }
        lemma_lookup_absent::<T>(init, T::key_of(s.last()));
        assert(as_map::<T>(s).dom() =~= as_map::<T>(init).dom().insert(T::key_of(s.last())));
    }
}

/// Two sequences in listing order that hold the same records are the same
/// sequence: the listing of a set of records is unique.
pub proof fn lemma_listing_unique<T: Keyed>(a: Seq<T::V>, b: Seq<T::V>)
    requires
        is_listed::<T>(a),
        is_listed::<T>(b),
        forall|x: T::V| a.contains(x) <==> b.contains(x),
    ensures
        a == b,
    decreases a.len(),
{
    if a.len() == 0 {
        if b.len() > 0 {
            assert(b.contains(b[0]));
        }
        assert(a =~= b);
    } else {
        assert(a.contains(a[0]));
        assert(b.len() > 0);
        assert(b.contains(b[0]));
        let i = choose|i: int| 0 <= i < a.len() && a[i] == b[0];
        let j = choose|j: int| 0 <= j < b.len() && b[j] == a[0];
        if a[0] != b[0] {
            assert(i > 0 && j > 0);
            assert(listed_before::<T>(a[0], a[i]));
            assert(listed_before::<T>(b[0], b[j]));
            lemma_listed_total::<T>(a[0], b[0]);
        }
        let ta = a.subrange(1, a.len() as int);
        let tb = b.subrange(1, b.len() as int);
        assert forall|x: T::V| ta.contains(x) <==> tb.contains(x) by {
            if ta.contains(x) {
                let k = choose|k: int| 0 <= k < ta.len() && ta[k] == x;
                assert(a[k + 1] == x);
                assert(listed_before::<T>(a[0], a[k + 1]));
                lemma_lex_order(T::key_of(x), T::key_of(x), T::key_of(x));
                assert(b.contains(x));
                let m = choose|m: int| 0 <= m < b.len() && b[m] == x;
                assert(m != 0);
                assert(tb[m - 1] == x);
            }
            if tb.contains(x) {
                let k = choose|k: int| 0 <= k < tb.len() && tb[k] == x;
                assert(b[k + 1] == x);
                assert(listed_before::<T>(b[0], b[k + 1]));
                lemma_lex_order(T::key_of(x), T::key_of(x), T::key_of(x));
                assert(a.contains(x));
                let m = choose|m: int| 0 <= m < a.len() && a[m] == x;
                assert(m != 0);
                assert(ta[m - 1] == x);
            }
        }
        lemma_listing_unique::<T>(ta, tb);
        assert(a =~= b) by {
            assert forall|k: int| 0 <= k < a.len() implies a[k] == b[k] by {
                if k > 0 {
                    assert(a[k] == ta[k - 1]);
                    assert(b[k] == tb[k - 1]);
                }
            }
        }
    }
}

} // verus!
