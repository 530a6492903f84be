use vstd::prelude::*;

verus! {

/// The result of comparing two sort keys.
#[derive(Clone, Copy, Debug, PartialEq, Eq, Structural)]
pub enum KeyOrder {
    Less,
    Equal,
    Greater,
}

/// Lexicographic byte order (the order of `[u8]`, and of `str` by its UTF-8 bytes).
pub open spec fn bytes_lt(a: Seq<u8>, b: Seq<u8>) -> bool
    decreases a.len(),
{
    if a.len() == 0 {
        b.len() > 0
    } else if b.len() == 0 {
        false
    } else if a[0] != b[0] {
        a[0] < b[0]
    } else {
        bytes_lt(a.drop_first(), b.drop_first())
    }
}

/// Text order: `str`'s `Ord`, which compares UTF-8 bytes.
pub open spec fn text_lt(a: Seq<char>, b: Seq<char>) -> bool {
    bytes_lt(vstd::utf8::encode_utf8(a), vstd::utf8::encode_utf8(b))
}

/// No byte string precedes itself.
pub proof fn lemma_bytes_lt_irreflexive(a: Seq<u8>)
    ensures
        !bytes_lt(a, a),
    decreases a.len(),
{
    if a.len() > 0 {
        lemma_bytes_lt_irreflexive(a.drop_first());
    }
}

/// Byte order is transitive.
pub proof fn lemma_bytes_lt_transitive(a: Seq<u8>, b: Seq<u8>, c: Seq<u8>)
    requires
        bytes_lt(a, b),
        bytes_lt(b, c),
    ensures
        bytes_lt(a, c),
    decreases a.len(),
{
    if a.len() > 0 && b.len() > 0 && c.len() > 0 && a[0] == b[0] && b[0] == c[0] {
        lemma_bytes_lt_transitive(a.drop_first(), b.drop_first(), c.drop_first());
    }
}

/// Two different byte strings are ordered one way or the other.
pub proof fn lemma_bytes_lt_total(a: Seq<u8>, b: Seq<u8>)
    requires
        a != b,
    ensures
        bytes_lt(a, b) || bytes_lt(b, a),
    decreases a.len(),
{
    if a.len() > 0 && b.len() > 0 && a[0] == b[0] {
        if a.drop_first() == b.drop_first() {
            assert(a =~= seq![a[0]] + a.drop_first());
            assert(b =~= seq![b[0]] + b.drop_first());
        }
        lemma_bytes_lt_total(a.drop_first(), b.drop_first());
    } else if a.len() == 0 && b.len() == 0 {
        assert(a =~= b);
    }
}

/// Text order is transitive.
pub proof fn lemma_text_lt_transitive(a: Seq<char>, b: Seq<char>, c: Seq<char>)
    requires
        text_lt(a, b),
        text_lt(b, c),
    ensures
        text_lt(a, c),
{
    lemma_bytes_lt_transitive(
        vstd::utf8::encode_utf8(a),
        vstd::utf8::encode_utf8(b),
        vstd::utf8::encode_utf8(c),
    );
}

/// No text precedes itself.
pub proof fn lemma_text_lt_irreflexive(a: Seq<char>)
    ensures
        !text_lt(a, a),
{
    lemma_bytes_lt_irreflexive(vstd::utf8::encode_utf8(a));
}

/// Two different texts are ordered one way or the other.
pub proof fn lemma_text_lt_total(a: Seq<char>, b: Seq<char>)
    requires
        a != b,
    ensures
        text_lt(a, b) || text_lt(b, a),
{
    broadcast use vstd::utf8::encode_utf8_decode_utf8;

    assert(vstd::utf8::decode_utf8(vstd::utf8::encode_utf8(a)) == a);
    assert(vstd::utf8::decode_utf8(vstd::utf8::encode_utf8(b)) == b);
    lemma_bytes_lt_total(vstd::utf8::encode_utf8(a), vstd::utf8::encode_utf8(b));
}

proof fn lemma_bytes_lt_common_prefix(a: Seq<u8>, b: Seq<u8>, i: int)
    requires
        0 <= i < a.len(),
        i < b.len(),
        a[i] == b[i],
    ensures
        bytes_lt(a.skip(i), b.skip(i)) == bytes_lt(a.skip(i + 1), b.skip(i + 1)),
{
    assert(a.skip(i).drop_first() =~= a.skip(i + 1));
    assert(b.skip(i).drop_first() =~= b.skip(i + 1));
}

/// Compares two byte strings lexicographically.
pub fn compare_bytes(a: &[u8], b: &[u8]) -> (o: KeyOrder)
    ensures
        (o == KeyOrder::Less) == bytes_lt(a@, b@),
        (o == KeyOrder::Greater) == bytes_lt(b@, a@),
        (o == KeyOrder::Equal) == (a@ == b@),
{
    let mut i: usize = 0;
    proof {
        assert(a@.skip(0) =~= a@);
        assert(b@.skip(0) =~= b@);
    }
    while i < a.len() && i < b.len()
        invariant
            i <= a@.len(),
            i <= b@.len(),
            a@.subrange(0, i as int) == b@.subrange(0, i as int),
            bytes_lt(a@, b@) == bytes_lt(a@.skip(i as int), b@.skip(i as int)),
            bytes_lt(b@, a@) == bytes_lt(b@.skip(i as int), a@.skip(i as int)),
        decreases a@.len() - i,
    {
        if a[i] != b[i] {
            proof {
                assert(a@.skip(i as int)[0] == a@[i as int]);
                assert(b@.skip(i as int)[0] == b@[i as int]);
                assert(a@ != b@ ) by {
                    if a@ == b@ {
                        assert(a@[i as int] == b@[i as int]);
                    }
                }
            }
            if a[i] < b[i] {
                return KeyOrder::Less;
            } else {
                return KeyOrder::Greater;
            }
        }
        proof {
            lemma_bytes_lt_common_prefix(a@, b@, i as int);
            lemma_bytes_lt_common_prefix(b@, a@, i as int);
            assert(a@.subrange(0, i + 1) =~= a@.subrange(0, i as int).push(a@[i as int]));
            assert(b@.subrange(0, i + 1) =~= b@.subrange(0, i as int).push(b@[i as int]));
        }
        i = i + 1;
    }
    if a.len() == b.len() {
        proof {
            assert(a@ =~= a@.subrange(0, i as int));
            assert(b@ =~= b@.subrange(0, i as int));
            lemma_bytes_lt_irreflexive(a@);
        }
        KeyOrder::Equal
    } else if a.len() < b.len() {
        proof {
            assert(a@.skip(i as int).len() == 0);
            assert(a@ != b@);
        }
        KeyOrder::Less
    } else {
        proof {
            assert(b@.skip(i as int).len() == 0);
            assert(a@ != b@);
        }
        KeyOrder::Greater
    }
}

/// Compares two texts in `str` order.
pub fn compare_text(a: &str, b: &str) -> (o: KeyOrder)
    ensures
        (o == KeyOrder::Less) == text_lt(a@, b@),
        (o == KeyOrder::Greater) == text_lt(b@, a@),
        (o == KeyOrder::Equal) == (a@ == b@),
{
    broadcast use vstd::utf8::encode_utf8_decode_utf8;

    let o = compare_bytes(a.as_bytes(), b.as_bytes());
    proof {
        assert(vstd::utf8::decode_utf8(vstd::utf8::encode_utf8(a@)) == a@);
        assert(vstd::utf8::decode_utf8(vstd::utf8::encode_utf8(b@)) == b@);
    }
    o
}

/// Three-way comparison of unsigned integers.
pub fn compare_u32(a: u32, b: u32) -> (o: KeyOrder)
    ensures
        (o == KeyOrder::Less) == (a < b),
        (o == KeyOrder::Greater) == (b < a),
        (o == KeyOrder::Equal) == (a == b),
{
    if a < b {
        KeyOrder::Less
    } else if a == b {
        KeyOrder::Equal
    } else {
        KeyOrder::Greater
    }
}

/// Three-way comparison of signed integers.
pub fn compare_i32(a: i32, b: i32) -> (o: KeyOrder)
    ensures
        (o == KeyOrder::Less) == (a < b),
        (o == KeyOrder::Greater) == (b < a),
        (o == KeyOrder::Equal) == (a == b),
{
    if a < b {
        KeyOrder::Less
    } else if a == b {
        KeyOrder::Equal
    } else {
        KeyOrder::Greater
    }
}

} // verus!

verus! {

/// A strict order on the sort key of a value.
pub trait SortKey: Sized {
    /// Whether the key of `self` precedes the key of `other`.
    spec fn key_lt(self, other: Self) -> bool;

    proof fn lemma_key_lt_transitive(a: Self, b: Self, c: Self)
        requires
            a.key_lt(b),
            b.key_lt(c),
        ensures
            a.key_lt(c),
    ;

    proof fn lemma_key_lt_irreflexive(a: Self)
        ensures
            !a.key_lt(a),
    ;

    fn compare_key(&self, other: &Self) -> (o: KeyOrder)
        ensures
            (o == KeyOrder::Less) == self.key_lt(*other),
            (o == KeyOrder::Greater) == other.key_lt(*self),
    ;
}

/// Neither key precedes the other.
pub open spec fn same_key<T: SortKey>(a: T, b: T) -> bool {
    !a.key_lt(b) && !b.key_lt(a)
}

/// Every earlier element's key precedes every later element's key.
pub open spec fn strictly_sorted<T: SortKey>(s: Seq<T>) -> bool {
    forall|i: int, j: int| 0 <= i < j < s.len() ==> (#[trigger] s[i]).key_lt(#[trigger] s[j])
}

/// Two different positions hold values with the same key.
pub open spec fn has_key_collision<T: SortKey>(s: Seq<T>) -> bool {
    exists|i: int, j: int| 0 <= i < j < s.len() && same_key(#[trigger] s[i], #[trigger] s[j])
}

/// `a` and `b` hold the same values, position for position up to reordering, with equal lengths.
pub open spec fn same_elements<T>(a: Seq<T>, b: Seq<T>) -> bool {
    &&& a.len() == b.len()
    &&& forall|i: int| 0 <= i < a.len() ==> b.contains(#[trigger] a[i])
    &&& forall|i: int| 0 <= i < b.len() ==> a.contains(#[trigger] b[i])
}

/// Sorts by key, or reports `None` when two values share a key.
pub fn sort_by_key<T: SortKey>(items: Vec<T>) -> (res: Option<Vec<T>>)
    ensures
        res is Some <==> !has_key_collision(items@),
        res matches Some(v) ==> strictly_sorted(v@) && same_elements(v@, items@) && v@ == sorted_by_key(
            items@,
        ),
{
    let ghost original = items@;
    let n = items.len();
    let mut remaining = items;
    let mut sorted: Vec<T> = Vec::new();
    while remaining.len() > 0
        invariant
            n == original.len(),
            original == items@,
            remaining.len() <= n,
            remaining@ == original.subrange(0, remaining.len() as int),
            strictly_sorted(sorted@),
            same_elements(sorted@, original.subrange(remaining.len() as int, n as int)),
            !has_key_collision(original.subrange(remaining.len() as int, n as int)),
        decreases remaining.len(),
    {
        let ghost processed = original.subrange(remaining.len() as int, n as int);
        let x = remaining.pop().unwrap();
        let ghost r = remaining.len() as int;
        assert(x == original[r]);
        let ghost next = original.subrange(r, n as int);
        assert(next =~= seq![x] + processed);
        let mut pos: usize = 0;
        let mut done = false;
        #[verifier::loop_isolation(false)]
        while pos < sorted.len() && !done
            invariant
                pos <= sorted.len(),
                strictly_sorted(sorted@),
                forall|k: int| 0 <= k < pos ==> (#[trigger] sorted@[k]).key_lt(x),
                done ==> pos < sorted.len() && x.key_lt(sorted@[pos as int]),
            decreases sorted.len() - pos + (if done { 0int } else { 1int }),
        {
            match x.compare_key(&sorted[pos]) {
                KeyOrder::Less => {
                    done = true;
                },
                KeyOrder::Equal => {
                    proof {
                        assert(sorted@.contains(sorted@[pos as int]));
                        let q = choose|q: int| 0 <= q < processed.len() && processed[q] == sorted@[pos as int];
                        assert(next[0] == x);
                        assert(next[q + 1] == processed[q]);
                        assert(same_key(next[0], next[q + 1]));
                        assert(has_key_collision(original.subrange(r, n as int)));
                        assert(original[r] == next[0]);
                        assert(original[r + q + 1] == next[q + 1]);
                        assert(same_key(original[r], original[r + q + 1]));
                        assert(has_key_collision(original));
                    }
                    return None;
                },
                KeyOrder::Greater => {
                    pos = pos + 1;
                },
            }
        }
        proof {
            assert forall|k: int| pos <= k < sorted.len() implies x.key_lt(#[trigger] sorted@[k]) by {
                if k > pos {
                    T::lemma_key_lt_transitive(x, sorted@[pos as int], sorted@[k]);
                }
            }
        }
        let ghost before = sorted@;
        sorted.insert(pos, x);
        proof {
            assert forall|i: int, j: int| 0 <= i < j < sorted@.len() implies (#[trigger] sorted@[i]).key_lt(#[trigger] sorted@[j]) by {
                if j < pos {
                } else if i < pos && j == pos {
                } else if i < pos && j > pos {
                    assert(sorted@[j] == before[j - 1]);
                } else if i == pos {
                    assert(sorted@[j] == before[j - 1]);
                } else {
                    assert(sorted@[i] == before[i - 1]);
                    assert(sorted@[j] == before[j - 1]);
                }
            }
            assert forall|i: int| 0 <= i < sorted@.len() implies next.contains(#[trigger] sorted@[i]) by {
                if i < pos {
                    assert(processed.contains(before[i]));
                    let q = choose|q: int| 0 <= q < processed.len() && processed[q] == before[i];
                    assert(next[q + 1] == processed[q]);
                } else if i == pos {
                    assert(next[0] == x);
                } else {
                    assert(sorted@[i] == before[i - 1]);
                    assert(processed.contains(before[i - 1]));
                    let q = choose|q: int| 0 <= q < processed.len() && processed[q] == before[i - 1];
                    assert(next[q + 1] == processed[q]);
                }
            }
            assert forall|i: int| 0 <= i < next.len() implies sorted@.contains(#[trigger] next[i]) by {
                if i == 0 {
                    assert(sorted@[pos as int] == x);
                } else {
                    assert(next[i] == processed[i - 1]);
                    assert(before.contains(processed[i - 1]));
                    let k = choose|k: int| 0 <= k < before.len() && before[k] == processed[i - 1];
                    if k < pos {
                        assert(sorted@[k] == before[k]);
                    } else {
                        assert(sorted@[k + 1] == before[k]);
                    }
                }
            }
            assert(!has_key_collision(next)) by {
                if has_key_collision(next) {
                    let (i, j) = choose|i: int, j: int| 0 <= i < j < next.len() && same_key(#[trigger] next[i], #[trigger] next[j]);
                    if i == 0 {
                        assert(before.contains(processed[j - 1]));
                        let k = choose|k: int| 0 <= k < before.len() && before[k] == processed[j - 1];
                        if k < pos {
                            assert(before[k].key_lt(x));
                        } else {
                            assert(x.key_lt(before[k]));
                        }
                    } else {
                        assert(next[i] == processed[i - 1]);
                        assert(next[j] == processed[j - 1]);
                        assert(has_key_collision(processed));
                    }
                }
            }
        }
    }
    proof {
        assert(original.subrange(0, n as int) =~= original);
    }
    proof {
        lemma_sorted_by_key_is(original, sorted@);
    }
    Some(sorted)
}

} // verus!

verus! {

/// Reports whether two texts are equal.
pub fn text_eq(a: &str, b: &str) -> (r: bool)
    ensures
        r == (a@ == b@),
{
    compare_text(a, b) == KeyOrder::Equal
}

} // verus!

verus! {

/// Sorting canonicalises: two strictly sorted sequences holding the same values are identical, so
/// the order in which values are supplied never shows in a sorted result.
pub proof fn lemma_sorted_unique<T: SortKey>(a: Seq<T>, b: Seq<T>)
    requires
        strictly_sorted(a),
        strictly_sorted(b),
        same_elements(a, b),
    ensures
        a == b,
    decreases a.len(),
{
    if a.len() > 0 {
        let x = a[0];
        let y = b[0];
        assert(b.contains(x));
        assert(a.contains(y));
        let k = choose|k: int| 0 <= k < b.len() && b[k] == x;
        let m = choose|m: int| 0 <= m < a.len() && a[m] == y;
        if x != y {
            assert(k > 0);
            assert(m > 0);
            assert(y.key_lt(x));
            assert(x.key_lt(y));
            T::lemma_key_lt_transitive(x, y, x);
            T::lemma_key_lt_irreflexive(x);
        }
        let ta = a.drop_first();
        let tb = b.drop_first();
        assert forall|i: int| 0 <= i < ta.len() implies tb.contains(#[trigger] ta[i]) by {
            assert(a[i + 1] == ta[i]);
            assert(b.contains(ta[i]));
            let j = choose|j: int| 0 <= j < b.len() && b[j] == ta[i];
            if j == 0 {
                assert(x.key_lt(a[i + 1]));
                T::lemma_key_lt_irreflexive(x);
            }
            assert(tb[j - 1] == ta[i]);
        }
        assert forall|i: int| 0 <= i < tb.len() implies ta.contains(#[trigger] tb[i]) by {
            assert(b[i + 1] == tb[i]);
            assert(a.contains(tb[i]));
            let j = choose|j: int| 0 <= j < a.len() && a[j] == tb[i];
            if j == 0 {
                assert(y.key_lt(b[i + 1]));
                T::lemma_key_lt_irreflexive(y);
            }
            assert(ta[j - 1] == tb[i]);
        }
        assert(strictly_sorted(ta)) by {
            assert forall|i: int, j: int| 0 <= i < j < ta.len() implies (#[trigger] ta[i]).key_lt(
                #[trigger] ta[j],
            ) by {
                assert(ta[i] == a[i + 1] && ta[j] == a[j + 1]);
            }
        }
        assert(strictly_sorted(tb)) by {
            assert forall|i: int, j: int| 0 <= i < j < tb.len() implies (#[trigger] tb[i]).key_lt(
                #[trigger] tb[j],
            ) by {
                assert(tb[i] == b[i + 1] && tb[j] == b[j + 1]);
            }
        }
        lemma_sorted_unique(ta, tb);
        assert(a =~= seq![x] + ta);
        assert(b =~= seq![y] + tb);
    } else {
        assert(a =~= b);
    }
}

} // verus!

verus! {

/// The values of `items` in strictly increasing key order, when such an order exists.
pub open spec fn sorted_by_key<T: SortKey>(items: Seq<T>) -> Seq<T> {
    choose|s: Seq<T>| strictly_sorted(s) && same_elements(s, items)
}

/// `same_elements` is transitive.
pub proof fn lemma_same_elements_transitive<T>(a: Seq<T>, b: Seq<T>, c: Seq<T>)
    requires
        same_elements(a, b),
        same_elements(b, c),
    ensures
        same_elements(a, c),
{
    assert forall|i: int| 0 <= i < a.len() implies c.contains(#[trigger] a[i]) by {
        assert(b.contains(a[i]));
        let j = choose|j: int| 0 <= j < b.len() && b[j] == a[i];
        assert(c.contains(b[j]));
    }
    assert forall|i: int| 0 <= i < c.len() implies a.contains(#[trigger] c[i]) by {
        assert(b.contains(c[i]));
        let j = choose|j: int| 0 <= j < b.len() && b[j] == c[i];
        assert(a.contains(b[j]));
    }
}

/// `same_elements` is symmetric.
pub proof fn lemma_same_elements_symmetric<T>(a: Seq<T>, b: Seq<T>)
    requires
        same_elements(a, b),
    ensures
        same_elements(b, a),
{
}

/// A strictly sorted arrangement of `items` is the one `sorted_by_key` names.
pub proof fn lemma_sorted_by_key_is<T: SortKey>(items: Seq<T>, s: Seq<T>)
    requires
        strictly_sorted(s),
        same_elements(s, items),
    ensures
        sorted_by_key(items) == s,
        strictly_sorted(sorted_by_key(items)),
        same_elements(sorted_by_key(items), items),
{
    let c = sorted_by_key(items);
    assert(strictly_sorted(c) && same_elements(c, items));
    lemma_same_elements_symmetric(s, items);
    lemma_same_elements_transitive(c, items, s);
    lemma_sorted_unique(c, s);
}

/// Reordering the input never changes the sorted result: two inputs holding the same values that
/// each have a strictly sorted arrangement sort to the same sequence.
pub proof fn lemma_sorted_by_key_order_independent<T: SortKey>(a: Seq<T>, b: Seq<T>)
    requires
        same_elements(a, b),
        strictly_sorted(sorted_by_key(a)),
        same_elements(sorted_by_key(a), a),
    ensures
        sorted_by_key(a) == sorted_by_key(b),
{
    lemma_same_elements_transitive(sorted_by_key(a), a, b);
    lemma_sorted_by_key_is(b, sorted_by_key(a));
}

} // verus!
