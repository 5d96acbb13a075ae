//! Form data: the text `key=value&key=value` and the mapping it stands for.

use vstd::prelude::*;
use crate::text::{chars_of, find_char, first_index, lemma_first_index, same_text, text_of};

verus! {

/// A key with its value, as characters.
pub type Pair = (Seq<char>, Seq<char>);

/// The pieces of `s` between the occurrences of `sep`. There is always at
/// least one piece: a text without `sep` is its own single piece, and a
/// leading, trailing or doubled `sep` gives an empty piece.
pub open spec fn split(s: Seq<char>, sep: char) -> Seq<Seq<char>>
    decreases s.len(),
{
    let i = first_index(s, sep);
    if 0 <= i < s.len() {
        seq![s.take(i)] + split(s.skip(i + 1), sep)
    } else {
        seq![s]
    }
}

/// The key and value of one piece of form data: the text before its first
/// `=` and the text after it. A piece without `=` has none.
pub open spec fn key_value(piece: Seq<char>) -> Option<Pair> {
    let i = first_index(piece, '=');
    if 0 <= i < piece.len() {
        Some((piece.take(i), piece.skip(i + 1)))
    } else {
        None
    }
}

/// The pairs that the pieces give, in order. Pieces without `=` are left out.
pub open spec fn pairs_of(pieces: Seq<Seq<char>>) -> Seq<Pair>
    decreases pieces.len(),
{
    if pieces.len() == 0 {
        seq![]
    } else {
        let before = pairs_of(pieces.drop_last());
        match key_value(pieces.last()) {
            Some(pair) => before.push(pair),
            None => before,
        }
    }
}

/// The mapping that results from entering the pairs one after the other: a
/// later pair replaces an earlier one with the same key.
pub open spec fn map_of(pairs: Seq<Pair>) -> Map<Seq<char>, Seq<char>>
    decreases pairs.len(),
{
    if pairs.len() == 0 {
        Map::empty()
    } else {
        map_of(pairs.drop_last()).insert(pairs.last().0, pairs.last().1)
    }
}

/// The pairs of the form data `data`, in the order in which they stand.
pub open spec fn parsed_pairs(data: Seq<char>) -> Seq<Pair> {
    pairs_of(split(data, '&'))
}

/// The mapping that the form data `data` stands for.
pub open spec fn parsed_params(data: Seq<char>) -> Map<Seq<char>, Seq<char>> {
    map_of(parsed_pairs(data))
}

/// The pieces put together again, with `sep` between each two of them.
pub open spec fn joined_with(pieces: Seq<Seq<char>>, sep: char) -> Seq<char>
    decreases pieces.len(),
{
    if pieces.len() == 0 {
        Seq::empty()
    } else if pieces.len() == 1 {
        pieces[0]
    } else {
        pieces[0] + seq![sep] + joined_with(pieces.drop_first(), sep)
    }
}

/// Cutting a text at `sep` gives at least one piece, no piece holds `sep`,
/// and the pieces with `sep` between them are the text again.
pub proof fn lemma_split(s: Seq<char>, sep: char)
    ensures
        split(s, sep).len() >= 1,
        forall|i: int| 0 <= i < split(s, sep).len() ==> !(#[trigger] split(s, sep)[i]).contains(sep),
        joined_with(split(s, sep), sep) == s,
    decreases s.len(),
{
    lemma_first_index(s, sep);
    let i = first_index(s, sep);
    if i < s.len() {
        let head = s.take(i);
        let tail = split(s.skip(i + 1), sep);
        lemma_split(s.skip(i + 1), sep);
        let pieces = seq![head] + tail;
        assert(pieces.drop_first() =~= tail);
        assert(head + seq![sep] + s.skip(i + 1) =~= s);
        assert forall|k: int| 0 <= k < pieces.len() implies !(#[trigger] pieces[k]).contains(
            sep,
        ) by {
            if k > 0 {
                assert(pieces[k] == tail[k - 1]);
            }
        }
    }
}

/// A piece with a key and a value is the key, `=` and the value, and the key
/// holds no `=`; a piece without them holds no `=`.
pub proof fn lemma_key_value(piece: Seq<char>)
    ensures
        match key_value(piece) {
            Some((key, value)) => piece == key + seq!['='] + value && !key.contains('='),
            None => !piece.contains('='),
        },
{
    lemma_first_index(piece, '=');
    let i = first_index(piece, '=');
    if i < piece.len() {
        assert(piece.take(i) + seq!['='] + piece.skip(i + 1) =~= piece);
    }
}

/// Whether the last pair of `pairs` with the key `key` stands at `i`.
pub open spec fn is_last_with_key(pairs: Seq<Pair>, key: Seq<char>, i: int) -> bool {
    &&& 0 <= i < pairs.len()
    &&& pairs[i].0 == key
    &&& forall|j: int| i < j < pairs.len() ==> pairs[j].0 != key
}

/// Whether one of the pairs has the key `key`.
pub open spec fn has_key(pairs: Seq<Pair>, key: Seq<char>) -> bool {
    exists|i: int| 0 <= i < pairs.len() && (#[trigger] pairs[i]).0 == key
}

/// A key is in the mapping of a list of pairs exactly when one of the pairs
/// has it, and it is mapped to the value of the last such pair.
pub proof fn lemma_map_of_lookup(pairs: Seq<Pair>, key: Seq<char>)
    ensures
        map_of(pairs).contains_key(key) <==> has_key(pairs, key),
        forall|i: int| #[trigger]
            is_last_with_key(pairs, key, i) ==> map_of(pairs).contains_key(key) && map_of(
                pairs,
            )[key] == pairs[i].1,
    decreases pairs.len(),
{
    if pairs.len() > 0 {
        let before = pairs.drop_last();
        lemma_map_of_lookup(before, key);
        if pairs.last().0 == key {
            assert(pairs[pairs.len() - 1].0 == key);
        } else {
            if has_key(before, key) {
                let i = choose|i: int| 0 <= i < before.len() && (#[trigger] before[i]).0 == key;
                assert(pairs[i].0 == key);
            }
            if has_key(pairs, key) {
                let i = choose|i: int| 0 <= i < pairs.len() && (#[trigger] pairs[i]).0 == key;
                assert(before[i].0 == key);
            }
            assert forall|i: int| #[trigger] is_last_with_key(pairs, key, i) implies map_of(
                pairs,
            ).contains_key(key) && map_of(pairs)[key] == pairs[i].1 by {
                assert(pairs[i] == before[i]);
                assert(is_last_with_key(before, key, i));
            }
        }
    }
}

/// Whether no two pairs have the same key.
pub open spec fn distinct_keys(pairs: Seq<Pair>) -> bool {
    forall|i: int, j: int| 0 <= i < j < pairs.len() ==> (#[trigger] pairs[i]).0 != (#[trigger] pairs[j]).0
}

/// Among pairs with distinct keys, each key is mapped to the value beside it.
pub proof fn lemma_distinct_lookup(pairs: Seq<Pair>, i: int)
    requires
        distinct_keys(pairs),
        0 <= i < pairs.len(),
    ensures
        map_of(pairs).contains_key(pairs[i].0),
        map_of(pairs)[pairs[i].0] == pairs[i].1,
{
    lemma_map_of_lookup(pairs, pairs[i].0);
    assert(is_last_with_key(pairs, pairs[i].0, i));
}

/// Pairs with distinct keys give a mapping with as many keys as there are pairs.
pub proof fn lemma_distinct_len(pairs: Seq<Pair>)
    requires
        distinct_keys(pairs),
    ensures
        map_of(pairs).dom().finite(),
        map_of(pairs).len() == pairs.len(),
    decreases pairs.len(),
{
    if pairs.len() > 0 {
        let before = pairs.drop_last();
        assert forall|i: int, j: int| 0 <= i < j < before.len() implies (#[trigger] before[i]).0 != (
        #[trigger] before[j]).0 by {
            assert(before[i] == pairs[i] && before[j] == pairs[j]);
        }
        lemma_distinct_len(before);
        lemma_map_of_lookup(before, pairs.last().0);
        if has_key(before, pairs.last().0) {
            let i = choose|i: int| 0 <= i < before.len() && (#[trigger] before[i]).0 == pairs.last().0;
            assert(pairs[i].0 == pairs[pairs.len() - 1].0);
        }
    }
}

/// Replacing the value beside a key, among pairs with distinct keys, enters
/// that key with the new value into their mapping.
pub proof fn lemma_replace_value(pairs: Seq<Pair>, i: int, pair: Pair)
    requires
        distinct_keys(pairs),
        0 <= i < pairs.len(),
        pairs[i].0 == pair.0,
    ensures
        distinct_keys(pairs.update(i, pair)),
        map_of(pairs.update(i, pair)) == map_of(pairs).insert(pair.0, pair.1),
{
    let after = pairs.update(i, pair);
    assert forall|a: int, b: int| 0 <= a < b < after.len() implies (#[trigger] after[a]).0 != (
    #[trigger] after[b]).0 by {
        assert(after[a].0 == pairs[a].0 && after[b].0 == pairs[b].0);
    }
    let goal = map_of(pairs).insert(pair.0, pair.1);
    assert forall|key: Seq<char>| map_of(after).contains_key(key) <==> goal.contains_key(
        key,
    ) by {
        lemma_map_of_lookup(after, key);
        lemma_map_of_lookup(pairs, key);
        if has_key(after, key) {
            let a = choose|a: int| 0 <= a < after.len() && (#[trigger] after[a]).0 == key;
            assert(pairs[a].0 == key);
        }
        if has_key(pairs, key) {
            let a = choose|a: int| 0 <= a < pairs.len() && (#[trigger] pairs[a]).0 == key;
            assert(after[a].0 == key);
        }
        if key == pair.0 {
            assert(after[i].0 == key);
        }
    }
    assert forall|key: Seq<char>| map_of(after).contains_key(key) implies map_of(after)[key]
        == goal[key] by {
        lemma_map_of_lookup(after, key);
        let a = choose|a: int| 0 <= a < after.len() && (#[trigger] after[a]).0 == key;
        lemma_distinct_lookup(after, a);
        if a != i {
            assert(pairs[a] == after[a]);
            lemma_distinct_lookup(pairs, a);
        }
    }
    assert(map_of(after) =~= goal);
}

/// A mapping from keys to values, as form data gives it. No key occurs twice.
#[derive(Debug)]
pub struct Params {
    entries: Vec<(String, String)>,
}

impl View for Params {
    type V = Map<Seq<char>, Seq<char>>;

    /// The mapping, over characters.
    open spec fn view(&self) -> Map<Seq<char>, Seq<char>> {
        map_of(self.pairs())
    }
}

impl Params {
    /// The pairs of the mapping, in the order in which their keys were first entered.
    pub closed spec fn pairs(&self) -> Seq<Pair> {
        pairs_view(self.entries@)
    }

    #[verifier::type_invariant]
    spec fn well_formed(&self) -> bool {
        distinct_keys(self.pairs())
    }

    /// The empty mapping.
    pub fn new() -> (r: Params)
        ensures
            r@ == Map::<Seq<char>, Seq<char>>::empty(),
            r.pairs() == Seq::<Pair>::empty(),
    {
        let r = Params { entries: Vec::new() };
        assert(r.pairs() =~= Seq::<Pair>::empty());
        r
    }

    /// The number of keys.
    pub fn len(&self) -> (r: usize)
        ensures
            r == self@.len(),
            r == self.pairs().len(),
    {
        proof {
            use_type_invariant(self);
            lemma_distinct_len(self.pairs());
        }
        self.entries.len()
    }

    /// Whether the mapping has no key.
    pub fn is_empty(&self) -> (r: bool)
        ensures
            r == (self@.len() == 0),
    {
        self.len() == 0
    }

    /// Whether `key` is a key of the mapping.
    pub fn contains_key(&self, key: &str) -> (r: bool)
        ensures
            r == self@.contains_key(key@),
    {
        self.get(key).is_some()
    }

    /// The value beside `key`, if `key` is a key of the mapping.
    pub fn get(&self, key: &str) -> (r: Option<&String>)
        ensures
            match r {
                Some(value) => self@.contains_key(key@) && value@ == self@[key@],
                None => !self@.contains_key(key@),
            },
    {
        proof {
            use_type_invariant(self);
            lemma_map_of_lookup(self.pairs(), key@);
        }
        let i = position_of(&self.entries, key);
        if i < self.entries.len() {
            proof {
                lemma_distinct_lookup(self.pairs(), i as int);
            }
            Some(&self.entries[i].1)
        } else {
            None
        }
    }

    /// The keys with their values, each key once.
    pub fn entries(&self) -> (r: &Vec<(String, String)>)
        ensures
            pairs_view(r@) == self.pairs(),
            distinct_keys(pairs_view(r@)),
            map_of(pairs_view(r@)) == self@,
            r.len() == self@.len(),
    {
        proof {
            use_type_invariant(self);
            lemma_distinct_len(self.pairs());
        }
        &self.entries
    }

    /// Enters `key` with `value`. A value that stood beside `key` is replaced.
    pub fn insert(&mut self, key: String, value: String)
        ensures
            final(self)@ == old(self)@.insert(key@, value@),
    {
        proof {
            use_type_invariant(&*self);
        }
        let ghost before = self.pairs();
        let mut entries: Vec<(String, String)> = Vec::new();
        core::mem::swap(&mut self.entries, &mut entries);
        assert(self.pairs() =~= Seq::<Pair>::empty());
        let i = position_of(&entries, key.as_str());
        if i < entries.len() {
            proof {
                lemma_replace_value(before, i as int, (key@, value@));
            }
            entries.set(i, (key, value));
        } else {
            proof {
                assert(before.push((key@, value@)).drop_last() =~= before);
                assert forall|a: int, b: int| 0 <= a < b < before.len() + 1 implies (
                #[trigger] before.push((key@, value@))[a]).0 != (#[trigger] before.push(
                    (key@, value@),
                )[b]).0 by {
                    assert(before.push((key@, value@))[a] == before[a]);
                    if b < before.len() {
                        assert(before.push((key@, value@))[b] == before[b]);
                    }
                }
            }
            entries.push((key, value));
        }
        assert(pairs_view(entries@) =~= if i < before.len() {
            before.update(i as int, (key@, value@))
        } else {
            before.push((key@, value@))
        });
        self.entries = entries;
    }
}

/// Reads form data: the text is cut at each `&`, and each piece at its first
/// `=` into a key and a value. A piece without `=` is passed over. Where a
/// key comes twice, its last value stays.
pub fn parse_params(data: &str) -> (r: Params)
    ensures
        r@ == parsed_params(data@),
{
    let chars = chars_of(data);
    let n = chars.len();
    let mut params = Params::new();
    let mut start: usize = 0;
    let ghost mut done: Seq<Seq<char>> = Seq::empty();
    proof {
        assert(data@.skip(0) =~= data@);
        assert(done + split(data@, '&') =~= split(data@, '&'));
    }
    loop
        invariant
            chars@ == data@,
            n == chars.len(),
            start <= n,
            split(data@, '&') == done + split(data@.skip(start as int), '&'),
            params@ == map_of(pairs_of(done)),
        decreases n - start,
    {
        let end = find_char(&chars, start, n, '&');
        let eq = find_char(&chars, start, end, '=');
        let ghost rest = data@.skip(start as int);
        let ghost piece = chars@.subrange(start as int, end as int);
        proof {
            assert(chars@.subrange(start as int, n as int) =~= rest);
            assert(rest.take(end - start) =~= piece);
            if end < n {
                assert(rest.skip(end - start + 1) =~= data@.skip(end + 1));
            }
            assert(done.push(piece).drop_last() =~= done);
            assert(done.push(piece).last() == piece);
            assert(piece.take(eq - start) =~= chars@.subrange(start as int, eq as int));
            if eq < end {
                assert(piece.skip(eq - start + 1) =~= chars@.subrange(eq + 1, end as int));
            }
        }
        if eq < end {
            proof {
                let pair = (piece.take(eq - start), piece.skip(eq - start + 1));
                assert(pairs_of(done).push(pair).drop_last() =~= pairs_of(done));
            }
            params.insert(text_of(&chars, start, eq), text_of(&chars, eq + 1, end));
        }
        proof {
            assert(params@ == map_of(pairs_of(done.push(piece))));
            if end < n {
                assert(done + (seq![piece] + split(data@.skip(end + 1), '&')) =~= done.push(piece)
                    + split(data@.skip(end + 1), '&'));
            } else {
                assert(done + seq![rest] =~= done.push(piece));
            }
            done = done.push(piece);
        }
        if end == n {
            return params;
        }
        start = end + 1;
    }
}

/// The pairs of `entries`, as characters.
pub open spec fn pairs_view(entries: Seq<(String, String)>) -> Seq<Pair> {
    Seq::new(entries.len(), |i: int| (entries[i].0@, entries[i].1@))
}

/// The position of the entry with the key `key`, or the length of `entries`
/// where no entry has it.
fn position_of(entries: &Vec<(String, String)>, key: &str) -> (r: usize)
    ensures
        r <= entries.len(),
        forall|j: int| 0 <= j < r ==> (#[trigger] pairs_view(entries@)[j]).0 != key@,
        r < entries.len() ==> pairs_view(entries@)[r as int].0 == key@,
{
    let mut i: usize = 0;
    while i < entries.len()
        invariant
            i <= entries.len(),
            forall|j: int| 0 <= j < i ==> (#[trigger] pairs_view(entries@)[j]).0 != key@,
        decreases entries.len() - i,
    {
        if same_text(entries[i].0.as_str(), key) {
            return i;
        }
        i += 1;
    }
    i
}

} // verus!