//! The parameters of a signed request: pairs of key and value, kept in the
//! order of their keys, with every key once.
use vstd::prelude::*;
use vstd::string::StringExecFns;
use vstd::utf8::encode_utf8;
use vstd::utf8::encode_utf8_decode_utf8;

use crate::text::joined;
use crate::text::lemma_precedes_total;
use crate::text::lemma_precedes_transitive;
use crate::text::precedes;
use crate::text::text_equal;
use crate::text::text_precedes;

verus! {

/// A key and its value.
pub type Pair = (Seq<char>, Seq<char>);

/// Whether the keys stand in strictly rising order of their UTF-8 bytes.
pub open spec fn sorted(pairs: Seq<Pair>) -> bool {
    forall|i: int, j: int|
        0 <= i < j < pairs.len() ==> precedes(
            encode_utf8(#[trigger] pairs[i].0),
            encode_utf8(#[trigger] pairs[j].0),
        )
}

/// `pairs` with `pair` put in: in place of the pair with the same key where
/// there is one, else before the first pair whose key comes after its own.
pub open spec fn put(pairs: Seq<Pair>, pair: Pair) -> Seq<Pair>
    decreases pairs.len(),
{
    if pairs.len() == 0 {
        seq![pair]
    } else if pairs[0].0 == pair.0 {
        seq![pair] + pairs.drop_first()
    } else if precedes(encode_utf8(pair.0), encode_utf8(pairs[0].0)) {
        seq![pair] + pairs
    } else {
        seq![pairs[0]] + put(pairs.drop_first(), pair)
    }
}

/// The views of pairs of strings.
pub open spec fn pairs_of(entries: Seq<(String, String)>) -> Seq<Pair> {
    entries.map_values(|e: (String, String)| (e.0@, e.1@))
}

/// A pair written as `key=value`.
pub open spec fn assignment(pair: Pair) -> Seq<char> {
    pair.0 + seq!['='] + pair.1
}

/// The pairs written as `key=value`, with `&` between each two neighbours.
pub open spec fn query(pairs: Seq<Pair>) -> Seq<char> {
    joined(pairs.map_values(|pair: Pair| assignment(pair)), seq!['&'])
}

/// Texts with the same bytes are the same text.
pub proof fn lemma_bytes_tell_texts_apart(a: Seq<char>, b: Seq<char>)
    ensures
        encode_utf8(a) == encode_utf8(b) ==> a == b,
{
    encode_utf8_decode_utf8(a);
    encode_utf8_decode_utf8(b);
}

/// Every pair of `put(pairs, pair)` is `pair` or one of `pairs`.
pub proof fn lemma_put_members(pairs: Seq<Pair>, pair: Pair)
    ensures
        forall|k: int|
            0 <= k < put(pairs, pair).len() ==> #[trigger] put(pairs, pair)[k] == pair
                || pairs.contains(put(pairs, pair)[k]),
    decreases pairs.len(),
{
    if pairs.len() == 0 {
    } else if pairs[0].0 == pair.0 {
        assert forall|k: int| 1 <= k < put(pairs, pair).len() implies pairs.contains(
            #[trigger] put(pairs, pair)[k],
        ) by {
            assert(put(pairs, pair)[k] == pairs[k]);
        }
    } else if precedes(encode_utf8(pair.0), encode_utf8(pairs[0].0)) {
        assert forall|k: int| 1 <= k < put(pairs, pair).len() implies pairs.contains(
            #[trigger] put(pairs, pair)[k],
        ) by {
            assert(put(pairs, pair)[k] == pairs[k - 1]);
        }
    } else {
        let rest = pairs.drop_first();
        lemma_put_members(rest, pair);
        assert(pairs.contains(pairs[0]));
        assert forall|k: int| 1 <= k < put(pairs, pair).len() implies #[trigger] put(
            pairs,
            pair,
        )[k] == pair || pairs.contains(put(pairs, pair)[k]) by {
            let x = put(rest, pair)[k - 1];
            assert(put(pairs, pair)[k] == x);
            if x != pair {
                let j = choose|j: int| 0 <= j < rest.len() && rest[j] == x;
                assert(pairs[j + 1] == x);
            }
        }
    }
}

/// What is put in is there afterwards, and so is every pair with another key
/// that was there before.
pub proof fn lemma_put_keeps(pairs: Seq<Pair>, pair: Pair)
    ensures
        put(pairs, pair).contains(pair),
        forall|k: int|
            0 <= k < pairs.len() && (#[trigger] pairs[k]).0 != pair.0 ==> put(pairs, pair).contains(
                pairs[k],
            ),
    decreases pairs.len(),
{
    let out = put(pairs, pair);
    if pairs.len() == 0 {
        assert(out[0] == pair);
    } else if pairs[0].0 == pair.0 {
        assert(out[0] == pair);
        assert forall|k: int| 0 <= k < pairs.len() && (#[trigger] pairs[k]).0 != pair.0 implies out.contains(
            pairs[k],
        ) by {
            assert(out[k] == pairs[k]);
        }
    } else if precedes(encode_utf8(pair.0), encode_utf8(pairs[0].0)) {
        assert(out[0] == pair);
        assert forall|k: int| 0 <= k < pairs.len() && (#[trigger] pairs[k]).0 != pair.0 implies out.contains(
            pairs[k],
        ) by {
            assert(out[k + 1] == pairs[k]);
        }
    } else {
        let rest = pairs.drop_first();
        let inner = put(rest, pair);
        lemma_put_keeps(rest, pair);
        let at = choose|at: int| 0 <= at < inner.len() && inner[at] == pair;
        assert(out[at + 1] == pair);
        assert forall|k: int| 0 <= k < pairs.len() && (#[trigger] pairs[k]).0 != pair.0 implies out.contains(
            pairs[k],
        ) by {
            if k == 0 {
                assert(out[0] == pairs[0]);
            } else {
                assert(rest[k - 1] == pairs[k]);
                let j = choose|j: int| 0 <= j < inner.len() && inner[j] == rest[k - 1];
                assert(out[j + 1] == pairs[k]);
            }
        }
    }
}

/// Putting a pair into sorted pairs leaves them sorted.
pub proof fn lemma_put_sorted(pairs: Seq<Pair>, pair: Pair)
    requires
        sorted(pairs),
    ensures
        sorted(put(pairs, pair)),
    decreases pairs.len(),
{
    let out = put(pairs, pair);
    let key = encode_utf8(pair.0);
    if pairs.len() == 0 {
    } else if pairs[0].0 == pair.0 {
        assert forall|i: int, j: int| 0 <= i < j < out.len() implies precedes(
            encode_utf8(#[trigger] out[i].0),
            encode_utf8(#[trigger] out[j].0),
        ) by {
            assert(out[j] == pairs[j]);
            assert(out[i].0 == pairs[i].0);
        }
    } else if precedes(key, encode_utf8(pairs[0].0)) {
        assert forall|i: int, j: int| 0 <= i < j < out.len() implies precedes(
            encode_utf8(#[trigger] out[i].0),
            encode_utf8(#[trigger] out[j].0),
        ) by {
            assert(out[j] == pairs[j - 1]);
            if i == 0 {
                if j > 1 {
                    lemma_precedes_transitive(
                        key,
                        encode_utf8(pairs[0].0),
                        encode_utf8(pairs[j - 1].0),
                    );
                }
            } else {
                assert(out[i] == pairs[i - 1]);
            }
        }
    } else {
        let rest = pairs.drop_first();
        let first = encode_utf8(pairs[0].0);
        assert(sorted(rest)) by {
            assert forall|i: int, j: int| 0 <= i < j < rest.len() implies precedes(
                encode_utf8(#[trigger] rest[i].0),
                encode_utf8(#[trigger] rest[j].0),
            ) by {
                assert(rest[i] == pairs[i + 1] && rest[j] == pairs[j + 1]);
            }
        }
        lemma_put_sorted(rest, pair);
        lemma_put_members(rest, pair);
        lemma_precedes_total(first, key);
        lemma_bytes_tell_texts_apart(pairs[0].0, pair.0);
        assert forall|i: int, j: int| 0 <= i < j < out.len() implies precedes(
            encode_utf8(#[trigger] out[i].0),
            encode_utf8(#[trigger] out[j].0),
        ) by {
            let inner = put(rest, pair);
            assert(out[j] == inner[j - 1]);
            if i == 0 {
                if inner[j - 1] != pair {
                    let k = choose|k: int| 0 <= k < rest.len() && rest[k] == inner[j - 1];
                    assert(pairs[k + 1] == inner[j - 1]);
                }
            } else {
                assert(out[i] == inner[i - 1]);
            }
        }
    }
}

/// Parameters in the order of their keys, every key once.
pub struct Params {
    entries: Vec<(String, String)>,
}

impl View for Params {
    type V = Seq<Pair>;

    closed spec fn view(&self) -> Seq<Pair> {
        self.entries@.map_values(|e: (String, String)| (e.0@, e.1@))
    }
}

impl Params {
    /// No parameters.
    pub fn new() -> (params: Params)
        ensures
            params@ == Seq::<Pair>::empty(),
            sorted(params@),
    {
        let params = Params { entries: Vec::new() };
        assert(params@ =~= Seq::<Pair>::empty());
        params
    }

    /// The number of parameters.
    pub fn len(&self) -> (n: usize)
        ensures
            n == self@.len(),
    {
        self.entries.len()
    }

    /// Gives `key` the value `value`, in place of the value it had if it had
    /// one.
    pub fn insert(&mut self, key: String, value: String)
        ensures
            final(self)@ == put(old(self)@, (key@, value@)),
            sorted(old(self)@) ==> sorted(final(self)@),
    {
        let ghost before = self@;
        proof {
            if sorted(before) {
                lemma_put_sorted(before, (key@, value@));
            }
        }
        let ghost pair: Pair = (key@, value@);
        let mut i: usize = 0;
        assert(before.take(0) + put(before.skip(0), pair) =~= put(before, pair)) by {
            assert(before.skip(0) =~= before);
        }
        while i < self.entries.len() && text_precedes(self.entries[i].0.as_str(), key.as_str())
            invariant
                i <= self.entries.len(),
                self@ == before,
                pair == (key@, value@),
                put(before, pair) == before.take(i as int) + put(before.skip(i as int), pair),
            decreases self.entries.len() - i,
        {
            proof {
                let rest = before.skip(i as int);
                assert(rest[0] == before[i as int]);
                lemma_precedes_total(encode_utf8(rest[0].0), encode_utf8(key@));
                assert(rest.drop_first() =~= before.skip(i + 1));
                assert(before.take(i as int) + (seq![rest[0]] + put(rest.drop_first(), pair))
                    =~= before.take(i + 1) + put(before.skip(i + 1), pair));
            }
            i += 1;
        }
        let ghost rest = before.skip(i as int);
        if i < self.entries.len() && text_equal(self.entries[i].0.as_str(), key.as_str()) {
            self.entries.remove(i);
            self.entries.insert(i, (key, value));
            proof {
                assert(rest[0] == before[i as int]);
                assert(self@ =~= before.take(i as int) + (seq![pair] + rest.drop_first()));
            }
        } else {
            self.entries.insert(i, (key, value));
            proof {
                if i < before.len() {
                    assert(rest[0] == before[i as int]);
                    lemma_precedes_total(encode_utf8(rest[0].0), encode_utf8(pair.0));
                    lemma_bytes_tell_texts_apart(rest[0].0, pair.0);
                    assert(self@ =~= before.take(i as int) + (seq![pair] + rest));
                } else {
                    assert(self@ =~= before.take(i as int) + seq![pair]);
                }
            }
        }
    }

    /// The parameters written as `key=value`, with `&` between each two
    /// neighbours.
    pub fn render(&self) -> (out: String)
        ensures
            out@ == query(self@),
    {
        let mut out = String::new();
        let ghost all = self@.map_values(|pair: Pair| assignment(pair));
        let mut i: usize = 0;
        while i < self.entries.len()
            invariant
                i <= self.entries.len(),
                all == self@.map_values(|pair: Pair| assignment(pair)),
                out@ == joined(all.take(i as int), seq!['&']),
            decreases self.entries.len() - i,
        {
            let ghost start = out@;
            let ghost next = all.take(i + 1);
            assert(next.drop_last() =~= all.take(i as int));
            assert(next.last() == assignment(self@[i as int]));
            if i > 0 {
                out.push('&');
                assert(out@ =~= start + seq!['&']);
            }
            let ghost mid = out@;
            out.append(self.entries[i].0.as_str());
            out.push('=');
            out.append(self.entries[i].1.as_str());
            assert(out@ =~= mid + assignment(self@[i as int]));
            if i == 0 {
                assert(out@ =~= assignment(self@[0]));
            }
            i += 1;
        }
        assert(all.take(self.entries.len() as int) =~= all);
        out
    }
}

} // verus!
