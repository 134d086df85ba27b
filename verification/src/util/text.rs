//! Helpers for working with text as a sequence of characters.

use vstd::prelude::*;
use vstd::string::*;

verus! {

/// `String::push` appends one character.
pub assume_specification[ String::push ](text: &mut String, c: char)
    ensures
        final(text)@ == old(text)@.push(c),
;

/// The characters of a text, in order.
pub fn chars_of(text: &str) -> (chars: Vec<char>)
    ensures
        chars@ == text@,
{
    broadcast use vstd::string::group_string_axioms;

    let mut chars: Vec<char> = Vec::new();
    for c in it: text.chars()
        invariant
            it.seq() == text@,
            chars@ == it.seq().take(it.index()),
    {
        assert(it.seq().take(it.index() + 1) =~= it.seq().take(it.index()).push(c));
        chars.push(c);
    }
    assert(text@.take(text@.len() as int) =~= text@);
    chars
}

/// The text made of the characters `chars[from..to]`.
pub fn text_of(chars: &Vec<char>, from: usize, to: usize) -> (text: String)
    requires
        from <= to <= chars@.len(),
    ensures
        text@ == chars@.subrange(from as int, to as int),
{
    let mut text = String::new();
    let mut i: usize = from;
    while i < to
        invariant
            from <= i <= to <= chars@.len(),
            text@ == chars@.subrange(from as int, i as int),
        decreases to - i,
    {
        text.push(chars[i]);
        i = i + 1;
        assert(chars@.subrange(from as int, i as int) =~= chars@.subrange(from as int, i - 1).push(
            chars@[i - 1],
        ));
    }
    text
}

/// Whether a character is white space (the Unicode `White_Space` property).
pub open spec fn is_space_spec(c: char) -> bool {
    let n = c as u32;
    ||| 0x09 <= n <= 0x0D
    ||| n == 0x20
    ||| n == 0x85
    ||| n == 0xA0
    ||| n == 0x1680
    ||| 0x2000 <= n <= 0x200A
    ||| n == 0x2028
    ||| n == 0x2029
    ||| n == 0x202F
    ||| n == 0x205F
    ||| n == 0x3000
}

pub fn is_space(c: char) -> (res: bool)
    ensures
        res == is_space_spec(c),
{
    let n: u32 = c as u32;
    (0x09 <= n && n <= 0x0D) || n == 0x20 || n == 0x85 || n == 0xA0 || n == 0x1680 || (0x2000 <= n
        && n <= 0x200A) || n == 0x2028 || n == 0x2029 || n == 0x202F || n == 0x205F || n == 0x3000
}

/// A text without its leading white space.
pub open spec fn trim_start_spec(text: Seq<char>) -> Seq<char>
    decreases text.len(),
{
    if text.len() > 0 && is_space_spec(text[0]) {
        trim_start_spec(text.drop_first())
    } else {
        text
    }
}

/// A text without its trailing white space.
pub open spec fn trim_end_spec(text: Seq<char>) -> Seq<char>
    decreases text.len(),
{
    if text.len() > 0 && is_space_spec(text.last()) {
        trim_end_spec(text.drop_last())
    } else {
        text
    }
}

/// A text without its leading and trailing white space.
pub open spec fn trim_spec(text: Seq<char>) -> Seq<char> {
    trim_end_spec(trim_start_spec(text))
}

/// The position of the first `c` in a text, or the text's length where it
/// holds none.
pub open spec fn first_index_spec(text: Seq<char>, c: char) -> int
    decreases text.len(),
{
    if text.len() == 0 || text[0] == c {
        0
    } else {
        1 + first_index_spec(text.drop_first(), c)
    }
}

/// The first index is in range, points at `c` where it is inside the text,
/// and nothing before it is `c`.
pub proof fn lemma_first_index(text: Seq<char>, c: char)
    ensures
        0 <= first_index_spec(text, c) <= text.len(),
        first_index_spec(text, c) < text.len() ==> text[first_index_spec(text, c)] == c,
        forall|i: int| 0 <= i < first_index_spec(text, c) ==> text[i] != c,
    decreases text.len(),
{
    if text.len() == 0 || text[0] == c {
    } else {
        lemma_first_index(text.drop_first(), c);
        assert forall|i: int| 0 <= i < first_index_spec(text, c) implies text[i] != c by {
            if i > 0 {
                assert(text[i] == text.drop_first()[i - 1]);
            }
        }
    }
}

/// Any position that points at `c` with no `c` before it, or the length of
/// a text without `c`, is the first index.
pub proof fn lemma_first_index_is(text: Seq<char>, c: char, at: int)
    requires
        0 <= at <= text.len(),
        at < text.len() ==> text[at] == c,
        forall|i: int| 0 <= i < at ==> text[i] != c,
    ensures
        first_index_spec(text, c) == at,
    decreases text.len(),
{
    if text.len() == 0 || text[0] == c {
    } else {
        assert forall|i: int| 0 <= i < at - 1 implies text.drop_first()[i] != c by {
            assert(text.drop_first()[i] == text[i + 1]);
        }
        lemma_first_index_is(text.drop_first(), c, at - 1);
    }
}

/// A prefix of white space does not change what trimming the start gives.
pub proof fn lemma_trim_start_skip(text: Seq<char>, k: int)
    requires
        0 <= k <= text.len(),
        forall|i: int| 0 <= i < k ==> is_space_spec(#[trigger] text[i]),
    ensures
        trim_start_spec(text) == trim_start_spec(text.skip(k)),
    decreases k,
{
    if k == 0 {
        assert(text.skip(0) =~= text);
    } else {
        assert(is_space_spec(text[0]));
        let rest = text.drop_first();
        assert forall|i: int| 0 <= i < k - 1 implies is_space_spec(#[trigger] rest[i]) by {
            assert(rest[i] == text[i + 1]);
        }
        lemma_trim_start_skip(rest, k - 1);
        assert(rest.skip(k - 1) =~= text.skip(k));
    }
}

/// A suffix of white space does not change what trimming the end gives.
pub proof fn lemma_trim_end_take(text: Seq<char>, k: int)
    requires
        0 <= k <= text.len(),
        forall|i: int| k <= i < text.len() ==> is_space_spec(#[trigger] text[i]),
    ensures
        trim_end_spec(text) == trim_end_spec(text.take(k)),
    decreases text.len() - k,
{
    if k == text.len() {
        assert(text.take(k) =~= text);
    } else {
        assert(is_space_spec(text[text.len() - 1]));
        let rest = text.drop_last();
        assert forall|i: int| k <= i < rest.len() implies is_space_spec(#[trigger] rest[i]) by {
            assert(rest[i] == text[i]);
        }
        lemma_trim_end_take(rest, k);
        assert(rest.take(k) =~= text.take(k));
    }
}

/// A text that neither begins nor ends with white space is its own trimming.
pub proof fn lemma_trim_identity(text: Seq<char>)
    requires
        text.len() > 0 ==> !is_space_spec(text[0]) && !is_space_spec(text.last()),
    ensures
        trim_spec(text) == text,
{
}

/// The bounds of `chars[from..to]` without its leading and trailing white
/// space.
pub fn trim_range(chars: &Vec<char>, from: usize, to: usize) -> (bounds: (usize, usize))
    requires
        from <= to <= chars@.len(),
    ensures
        from <= bounds.0 <= bounds.1 <= to,
        chars@.subrange(bounds.0 as int, bounds.1 as int) == trim_spec(
            chars@.subrange(from as int, to as int),
        ),
{
    let ghost whole = chars@.subrange(from as int, to as int);
    let mut a: usize = from;
    while a < to && is_space(chars[a])
        invariant
            from <= a <= to <= chars@.len(),
            forall|i: int| from <= i < a ==> is_space_spec(#[trigger] chars@[i]),
        decreases to - a,
    {
        a = a + 1;
    }
    let ghost started = chars@.subrange(a as int, to as int);
    proof {
        assert forall|i: int| 0 <= i < a - from implies is_space_spec(#[trigger] whole[i]) by {
            assert(whole[i] == chars@[from + i]);
        }
        lemma_trim_start_skip(whole, a - from);
        assert(whole.skip(a - from) =~= started);
        assert(trim_start_spec(started) == started);
    }
    let mut b: usize = to;
    while b > a && is_space(chars[b - 1])
        invariant
            a <= b <= to <= chars@.len(),
            forall|i: int| b <= i < to ==> is_space_spec(#[trigger] chars@[i]),
        decreases b,
    {
        b = b - 1;
    }
    proof {
        let kept = chars@.subrange(a as int, b as int);
        assert forall|i: int| b - a <= i < started.len() implies is_space_spec(
            #[trigger] started[i],
        ) by {
            assert(started[i] == chars@[a + i]);
        }
        lemma_trim_end_take(started, b - a);
        assert(started.take(b - a) =~= kept);
        if kept.len() > 0 {
            assert(kept.last() == chars@[b - 1]);
        }
        assert(trim_end_spec(kept) == kept);
    }
    (a, b)
}

/// The position of the first `c` in `chars[from..to]`, or `to` where the
/// range holds none.
pub fn find_char(chars: &Vec<char>, from: usize, to: usize, c: char) -> (at: usize)
    requires
        from <= to <= chars@.len(),
    ensures
        from <= at <= to,
        at - from == first_index_spec(chars@.subrange(from as int, to as int), c),
{
    let mut at: usize = from;
    while at < to && chars[at] != c
        invariant
            from <= at <= to <= chars@.len(),
            forall|i: int| from <= i < at ==> chars@[i] != c,
        decreases to - at,
    {
        at = at + 1;
    }
    proof {
        let range = chars@.subrange(from as int, to as int);
        assert forall|i: int| 0 <= i < at - from implies range[i] != c by {
            assert(range[i] == chars@[from + i]);
        }
        lemma_first_index_is(range, c, at - from);
    }
    at
}

/// Whether one byte string comes no later than another in dictionary
/// order, bytes compared by value.
pub open spec fn bytes_le(a: Seq<u8>, b: Seq<u8>) -> bool
    decreases a.len(),
{
    if a.len() == 0 {
        true
    } else if b.len() == 0 {
        false
    } else if a[0] != b[0] {
        a[0] < b[0]
    } else {
        bytes_le(a.drop_first(), b.drop_first())
    }
}

/// Whether one text comes no later than another in the order of their
/// UTF-8 bytes, which is the order in which strings sort.
pub open spec fn text_le(a: Seq<char>, b: Seq<char>) -> bool {
    bytes_le(vstd::utf8::encode_utf8(a), vstd::utf8::encode_utf8(b))
}

/// Of two byte strings, one comes no later than the other.
pub proof fn lemma_bytes_le_total(a: Seq<u8>, b: Seq<u8>)
    ensures
        bytes_le(a, b) || bytes_le(b, a),
    decreases a.len(),
{
    if a.len() > 0 && b.len() > 0 && a[0] == b[0] {
        lemma_bytes_le_total(a.drop_first(), b.drop_first());
    }
}

/// The dictionary order is transitive.
pub proof fn lemma_bytes_le_transitive(a: Seq<u8>, b: Seq<u8>, c: Seq<u8>)
    requires
        bytes_le(a, b),
        bytes_le(b, c),
    ensures
        bytes_le(a, c),
    decreases a.len(),
{
    if a.len() > 0 && b.len() > 0 && c.len() > 0 && a[0] == b[0] && b[0] == c[0] {
        lemma_bytes_le_transitive(a.drop_first(), b.drop_first(), c.drop_first());
    }
}

/// Skipping a common prefix does not change how two byte strings compare.
proof fn lemma_bytes_le_skip(a: Seq<u8>, b: Seq<u8>, k: int)
    requires
        0 <= k <= a.len(),
        k <= b.len(),
        forall|i: int| 0 <= i < k ==> a[i] == b[i],
    ensures
        bytes_le(a, b) == bytes_le(a.skip(k), b.skip(k)),
    decreases k,
{
    if k == 0 {
        assert(a.skip(0) =~= a);
        assert(b.skip(0) =~= b);
    } else {
        assert(a[0] == b[0]);
        let a1 = a.drop_first();
        let b1 = b.drop_first();
        assert forall|i: int| 0 <= i < k - 1 implies a1[i] == b1[i] by {
            assert(a1[i] == a[i + 1] && b1[i] == b[i + 1]);
        }
        lemma_bytes_le_skip(a1, b1, k - 1);
        assert(a1.skip(k - 1) =~= a.skip(k));
        assert(b1.skip(k - 1) =~= b.skip(k));
    }
}

/// Whether `a` sorts no later than `b`.
pub fn sorts_before(a: &str, b: &str) -> (res: bool)
    ensures
        res == text_le(a@, b@),
{
    let x = a.as_bytes();
    let y = b.as_bytes();
    let mut i: usize = 0;
    while i < x.len() && i < y.len() && x[i] == y[i]
        invariant
            i <= x@.len(),
            i <= y@.len(),
            forall|j: int| 0 <= j < i ==> x@[j] == y@[j],
        decreases x@.len() - i,
    {
        i = i + 1;
    }
    proof {
        lemma_bytes_le_skip(x@, y@, i as int);
        let xs = x@.skip(i as int);
        let ys = y@.skip(i as int);
        if i < x@.len() && i < y@.len() {
            assert(xs[0] == x@[i as int]);
            assert(ys[0] == y@[i as int]);
        }
    }
    if i == x.len() {
        true
    } else if i == y.len() {
        false
    } else {
        x[i] < y[i]
    }
}

/// The texts of a sequence of strings.
pub open spec fn texts(strings: Seq<String>) -> Seq<Seq<char>> {
    Seq::new(strings.len(), |i: int| strings[i]@)
}

/// Whether a list of texts is in sorted order.
pub open spec fn sorted(names: Seq<Seq<char>>) -> bool {
    forall|i: int, j: int| 0 <= i < j < names.len() ==> text_le(names[i], names[j])
}

/// The order in which texts sort, as a relation.
pub open spec fn text_order() -> spec_fn(Seq<char>, Seq<char>) -> bool {
    |a: Seq<char>, b: Seq<char>| text_le(a, b)
}

/// The given texts in sorted order.
pub open spec fn sorted_spec(names: Seq<Seq<char>>) -> Seq<Seq<char>> {
    names.sort_by(text_order())
}

proof fn lemma_bytes_le_reflexive(a: Seq<u8>)
    ensures
        bytes_le(a, a),
    decreases a.len(),
{
    if a.len() > 0 {
        lemma_bytes_le_reflexive(a.drop_first());
    }
}

proof fn lemma_bytes_le_antisymmetric(a: Seq<u8>, b: Seq<u8>)
    requires
        bytes_le(a, b),
        bytes_le(b, a),
    ensures
        a == b,
    decreases a.len(),
{
    if a.len() > 0 && b.len() > 0 {
        lemma_bytes_le_antisymmetric(a.drop_first(), b.drop_first());
        assert(a =~= seq![a[0]] + a.drop_first());
        assert(b =~= seq![b[0]] + b.drop_first());
    } else {
        assert(a =~= b);
    }
}

/// The sorting order of texts is a total order.
pub proof fn lemma_text_order_total()
    ensures
        vstd::relations::total_ordering(text_order()),
{
    let r = text_order();
    assert forall|x: Seq<char>| #[trigger] r(x, x) by {
        lemma_bytes_le_reflexive(vstd::utf8::encode_utf8(x));
    }
    assert forall|x: Seq<char>, y: Seq<char>| #[trigger] r(x, y) && #[trigger] r(y, x) implies x
        == y by {
        lemma_bytes_le_antisymmetric(vstd::utf8::encode_utf8(x), vstd::utf8::encode_utf8(y));
        vstd::utf8::encode_utf8_decode_utf8(x);
        vstd::utf8::encode_utf8_decode_utf8(y);
    }
    assert forall|x: Seq<char>, y: Seq<char>, z: Seq<char>| #[trigger]
        r(x, y) && #[trigger] r(y, z) implies r(x, z) by {
        lemma_bytes_le_transitive(
            vstd::utf8::encode_utf8(x),
            vstd::utf8::encode_utf8(y),
            vstd::utf8::encode_utf8(z),
        );
    }
    assert forall|x: Seq<char>, y: Seq<char>| #[trigger] r(x, y) || #[trigger] r(y, x) by {
        lemma_bytes_le_total(vstd::utf8::encode_utf8(x), vstd::utf8::encode_utf8(y));
    }
}

/// A sorted list with the same texts as another is that list sorted.
pub proof fn lemma_sorted_is_sort(names: Seq<Seq<char>>, out: Seq<Seq<char>>)
    requires
        sorted(out),
        out.to_multiset() == names.to_multiset(),
    ensures
        out == sorted_spec(names),
{
    lemma_text_order_total();
    names.lemma_sort_by_ensures(text_order());
    assert(vstd::relations::sorted_by(out, text_order()));
    vstd::seq_lib::lemma_sorted_unique(out, sorted_spec(names), text_order());
}

/// The given names in sorted order: the same names, each as often as it
/// was given.
pub fn sort_texts(names: &Vec<String>) -> (out: Vec<String>)
    ensures
        texts(out@) == sorted_spec(texts(names@)),
        sorted(texts(out@)),
        texts(out@).to_multiset() == texts(names@).to_multiset(),
        out@.len() == names@.len(),
{
    let ghost all = texts(names@);
    let mut out: Vec<String> = Vec::new();
    let mut i: usize = 0;
    proof {
        assert(all.take(0) =~= Seq::<Seq<char>>::empty());
        assert(texts(out@) =~= Seq::<Seq<char>>::empty());
    }
    while i < names.len()
        invariant
            i <= names@.len(),
            all == texts(names@),
            out@.len() == i,
            sorted(texts(out@)),
            texts(out@).to_multiset() == all.take(i as int).to_multiset(),
        decreases names@.len() - i,
    {
        let ghost before = texts(out@);
        let ghost name = all[i as int];
        let mut at: usize = 0;
        while at < out.len() && sorts_before(out[at].as_str(), names[i].as_str())
            invariant
                at <= out@.len(),
                i < names@.len(),
                before == texts(out@),
                name == names@[i as int]@,
                forall|j: int| 0 <= j < at ==> text_le(#[trigger] before[j], name),
            decreases out@.len() - at,
        {
            assert(before[at as int] == out@[at as int]@);
            at = at + 1;
        }
        proof {
            assert(sorted(before));
            if at < out@.len() {
                assert(before[at as int] == out@[at as int]@);
                assert(!text_le(before[at as int], name));
            }
        }
        out.insert(at, names[i].clone());
        proof {
            let after = texts(out@);
            assert(after =~= before.insert(at as int, name));
            vstd::seq_lib::to_multiset_insert(before, at as int, name);
            vstd::seq_lib::to_multiset_build(all.take(i as int), name);
            assert(all.take(i + 1) =~= all.take(i as int).push(name));
            assert forall|a: int, b: int| 0 <= a < b < after.len() implies text_le(
                after[a],
                after[b],
            ) by {
                if b < at {
                    assert(after[a] == before[a] && after[b] == before[b]);
                } else if b == at {
                    assert(after[a] == before[a]);
                } else if a == at {
                    assert(after[b] == before[b - 1]);
                    lemma_bytes_le_total(
                        vstd::utf8::encode_utf8(before[at as int]),
                        vstd::utf8::encode_utf8(name),
                    );
                    if at as int != b - 1 {
                        assert(text_le(before[at as int], before[b - 1]));
                        lemma_bytes_le_transitive(
                            vstd::utf8::encode_utf8(name),
                            vstd::utf8::encode_utf8(before[at as int]),
                            vstd::utf8::encode_utf8(before[b - 1]),
                        );
                    }
                } else if a < at {
                    assert(after[a] == before[a] && after[b] == before[b - 1]);
                } else {
                    assert(after[a] == before[a - 1] && after[b] == before[b - 1]);
                }
            }
        }
        i = i + 1;
    }
    proof {
        assert(all.take(names@.len() as int) =~= all);
        lemma_sorted_is_sort(all, texts(out@));
    }
    out
}

/// One more name at the end of a prefix adds exactly that name to what the
/// prefix holds.
pub proof fn lemma_take_contains(names: Seq<Seq<char>>, i: int)
    requires
        0 <= i < names.len(),
    ensures
        forall|key: Seq<char>|
            names.take(i + 1).contains(key) <==> (names.take(i).contains(key) || key == names[i]),
{
    let longer = names.take(i + 1);
    let shorter = names.take(i);
    assert forall|key: Seq<char>| longer.contains(key) <==> (shorter.contains(key) || key
        == names[i]) by {
        if longer.contains(key) {
            let j = choose|j: int| 0 <= j < longer.len() && #[trigger] longer[j] == key;
            if j < i {
                assert(shorter[j] == key);
            }
        }
        if shorter.contains(key) {
            let j = choose|j: int| 0 <= j < shorter.len() && #[trigger] shorter[j] == key;
            assert(longer[j] == key);
        }
        if key == names[i] {
            assert(longer[i] == key);
        }
    }
}

} // verus!
