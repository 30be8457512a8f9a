//! Example selectors for FerricLink Core.
//!
//! **Example selector** implements logic for selecting examples to include
//! them in prompts. The length-based selector chooses the longest prefix of
//! its examples that fits within a maximum length budget, measuring each
//! example by the word count or byte count of its sorted, space-joined
//! values.

use vstd::prelude::*;
use vstd::seq_lib::group_to_multiset_ensures;
use vstd::string::StringExecFns;
use vstd::string::StringSliceAdditionalSpecFns;

use crate::errors::FerricLinkError;

verus! {

/// A type alias for example data: input variables and their values, as
/// key/value pairs of plain text.
pub type Example = Vec<(String, String)>;

/// Lexicographic order on sequences of characters, by code point.
pub open spec fn chars_le(a: Seq<char>, b: Seq<char>) -> bool
    decreases a.len(),
{
    if a.len() == 0 {
        true
    } else if b.len() == 0 {
        false
    } else if (a.first() as u32) == (b.first() as u32) {
        chars_le(a.drop_first(), b.drop_first())
    } else {
        (a.first() as u32) < (b.first() as u32)
    }
}

/// Either order holds between any two sequences of characters.
pub proof fn lemma_chars_le_connex(a: Seq<char>, b: Seq<char>)
    ensures
        chars_le(a, b) || chars_le(b, a),
    decreases a.len(),
{
    if a.len() > 0 && b.len() > 0 && (a.first() as u32) == (b.first() as u32) {
        lemma_chars_le_connex(a.drop_first(), b.drop_first());
    }
}

/// The order on sequences of characters is transitive.
pub proof fn lemma_chars_le_trans(a: Seq<char>, b: Seq<char>, c: Seq<char>)
    requires
        chars_le(a, b),
        chars_le(b, c),
    ensures
        chars_le(a, c),
    decreases a.len(),
{
    if a.len() > 0 && b.len() > 0 && c.len() > 0 && (a.first() as u32) == (b.first() as u32)
        && (b.first() as u32) == (c.first() as u32) {
        lemma_chars_le_trans(a.drop_first(), b.drop_first(), c.drop_first());
    }
}

/// A sequence of strings in nondecreasing order.
pub open spec fn sorted_strings(vs: Seq<Seq<char>>) -> bool {
    forall|i: int, j: int| 0 <= i < j < vs.len() ==> chars_le(#[trigger] vs[i], #[trigger] vs[j])
}

/// A sequence of key/value pairs whose keys are in nondecreasing order.
pub open spec fn sorted_by_key(ps: Seq<(Seq<char>, Seq<char>)>) -> bool {
    forall|i: int, j: int|
        0 <= i < j < ps.len() ==> chars_le(#[trigger] ps[i].0, #[trigger] ps[j].0)
}

/// Decide the order between two strings.
fn str_le(a: &String, b: &String) -> (r: bool)
    ensures
        r == chars_le(a@, b@),
{
    let na = a.as_str().unicode_len();
    let nb = b.as_str().unicode_len();
    let mut i: usize = 0;
    proof {
        assert(a@.skip(0) =~= a@);
        assert(b@.skip(0) =~= b@);
    }
    loop
        invariant
            0 <= i <= na,
            i <= nb,
            na == a@.len(),
            nb == b@.len(),
            forall|k: int| 0 <= k < i ==> a@[k] == b@[k],
            chars_le(a@, b@) == chars_le(a@.skip(i as int), b@.skip(i as int)),
            chars_le(b@, a@) == chars_le(b@.skip(i as int), a@.skip(i as int)),
        decreases na - i,
    {
        if i == na {
            proof {
                assert(a@.skip(i as int) =~= Seq::<char>::empty());
            }
            return true;
        }
        if i == nb {
            proof {
                assert(b@.skip(i as int) =~= Seq::<char>::empty());
                assert(a@.skip(i as int).len() > 0);
            }
            return false;
        }
        let ca = a.as_str().get_char(i);
        let cb = b.as_str().get_char(i);
        proof {
            let sa = a@.skip(i as int);
            let sb = b@.skip(i as int);
            assert(sa.first() == a@[i as int]);
            assert(sb.first() == b@[i as int]);
            assert(sa.drop_first() =~= a@.skip(i + 1));
            assert(sb.drop_first() =~= b@.skip(i + 1));
        }
        let ca32 = ca as u32;
        let cb32 = cb as u32;
        if ca32 != cb32 {
            return ca32 < cb32;
        }
        i += 1;
    }
}

/// Moving one element of a sequence to another position keeps the
/// sequence a rearrangement: the multiset of elements is unchanged.
pub proof fn lemma_move_element<A>(s: Seq<A>, i: int, j: int)
    requires
        0 <= i < s.len(),
        0 <= j <= s.len() - 1,
    ensures
        s.remove(i).insert(j, s[i]).to_multiset() == s.to_multiset(),
{
    broadcast use group_to_multiset_ensures;

    let x = s[i];
    let m = s.remove(i);
    assert(m.to_multiset() == s.to_multiset().remove(x));
    assert(s.to_multiset().contains(x));
    assert(m.to_multiset().insert(x) =~= s.to_multiset());
    let ins = m.insert(j, x);
    let a = m.subrange(0, j);
    let b = m.subrange(j, m.len() as int);
    assert(ins == a.push(x) + b);
    vstd::seq_lib::lemma_multiset_commutative(a.push(x), b);
    vstd::seq_lib::lemma_multiset_commutative(a, b);
    assert(a + b =~= m);
    assert(a.push(x).to_multiset() =~= a.to_multiset().insert(x));
    assert(ins.to_multiset() =~= m.to_multiset().insert(x));
}

/// Sort a list of strings into nondecreasing order. The result is a
/// rearrangement of the input: the same strings, each the same number of
/// times.
pub fn sort_strings(values: Vec<String>) -> (r: Vec<String>)
    ensures
        sorted_strings(r.deep_view()),
        r.deep_view().to_multiset() == values.deep_view().to_multiset(),
{
    let mut v = values;
    let n = v.len();
    if n <= 1 {
        return v;
    }
    let mut i: usize = 1;
    while i < n
        invariant
            1 <= i <= n,
            n == v@.len(),
            sorted_strings(v.deep_view().take(i as int)),
            v.deep_view().to_multiset() == values.deep_view().to_multiset(),
        decreases n - i,
    {
        // find where to insert element i within the sorted prefix
        let mut j: usize = 0;
        while j < i && str_le(&v[j], &v[i])
            invariant
                0 <= j <= i < n,
                n == v@.len(),
                forall|k: int|
                    0 <= k < j ==> chars_le(
                        #[trigger] v.deep_view()[k],
                        v.deep_view()[i as int],
                    ),
            decreases i - j,
        {
            j += 1;
        }
        proof {
            if j < i {
                lemma_chars_le_connex(v.deep_view()[j as int], v.deep_view()[i as int]);
                assert(chars_le(v.deep_view()[i as int], v.deep_view()[j as int]));
            }
        }
        let ghost pre = v.deep_view();
        let x = v.remove(i);
        v.insert(j, x);
        proof {
            let post = v.deep_view();
            let x0 = pre[i as int];
            assert(post =~= pre.remove(i as int).insert(j as int, x0));
            assert(forall|k: int| 0 <= k < i ==> #[trigger] pre.take(i as int)[k] == pre[k]);
            lemma_move_element(pre, i as int, j as int);
            assert(post.to_multiset() == pre.to_multiset());
            assert(forall|k: int| 0 <= k < j ==> post[k] == pre[k]);
            assert(post[j as int] == x0);
            assert(forall|k: int| j < k <= i ==> post[k] == pre[k - 1]);
            assert forall|p: int, q: int| 0 <= p < q < i + 1
                implies chars_le(#[trigger] post[p], #[trigger] post[q]) by {
                if q < j {
                    assert(pre.take(i as int)[p] == pre[p]);
                    assert(pre.take(i as int)[q] == pre[q]);
                    assert(chars_le(pre.take(i as int)[p], pre.take(i as int)[q]));
                } else if p < j && q == j {
                    assert(chars_le(pre[p], x0));
                } else if p < j && q > j {
                    assert(pre.take(i as int)[p] == pre[p]);
                    assert(pre.take(i as int)[q - 1] == pre[q - 1]);
                    assert(chars_le(pre.take(i as int)[p], pre.take(i as int)[q - 1]));
                    assert(chars_le(pre[p], pre[q - 1]));
                } else if p == j && q > j {
                    assert(chars_le(x0, pre[j as int]));
                    if q - 1 > j {
                        assert(pre.take(i as int)[j as int] == pre[j as int]);
                        assert(pre.take(i as int)[q - 1] == pre[q - 1]);
                        assert(chars_le(pre.take(i as int)[j as int], pre.take(i as int)[q - 1]));
                        lemma_chars_le_trans(x0, pre[j as int], pre[q - 1]);
                    }
                } else {
                    assert(pre.take(i as int)[p - 1] == pre[p - 1]);
                    assert(pre.take(i as int)[q - 1] == pre[q - 1]);
                    assert(chars_le(pre.take(i as int)[p - 1], pre.take(i as int)[q - 1]));
                    assert(chars_le(pre[p - 1], pre[q - 1]));
                }
            }
            assert(sorted_strings(post.take(i + 1)));
        }
        i += 1;
    }
    proof {
        assert(v.deep_view().take(n as int) =~= v.deep_view());
    }
    v
}

/// Sort a list of key/value pairs into nondecreasing order of their keys.
/// The result is a rearrangement of the input pairs.
pub fn sort_pairs_by_key(pairs: Vec<(String, String)>) -> (r: Vec<(String, String)>)
    ensures
        sorted_by_key(r.deep_view()),
        r.deep_view().to_multiset() == pairs.deep_view().to_multiset(),
{
    let mut v = pairs;
    let n = v.len();
    if n <= 1 {
        return v;
    }
    let mut i: usize = 1;
    while i < n
        invariant
            1 <= i <= n,
            n == v@.len(),
            sorted_by_key(v.deep_view().take(i as int)),
            v.deep_view().to_multiset() == pairs.deep_view().to_multiset(),
        decreases n - i,
    {
        let mut j: usize = 0;
        while j < i && str_le(&v[j].0, &v[i].0)
            invariant
                0 <= j <= i < n,
                n == v@.len(),
                forall|k: int|
                    0 <= k < j ==> chars_le(
                        #[trigger] v.deep_view()[k].0,
                        v.deep_view()[i as int].0,
                    ),
            decreases i - j,
        {
            j += 1;
        }
        proof {
            if j < i {
                lemma_chars_le_connex(v.deep_view()[j as int].0, v.deep_view()[i as int].0);
                assert(chars_le(v.deep_view()[i as int].0, v.deep_view()[j as int].0));
            }
        }
        let ghost pre = v.deep_view();
        let x = v.remove(i);
        v.insert(j, x);
        proof {
            let post = v.deep_view();
            let x0 = pre[i as int];
            assert(post =~= pre.remove(i as int).insert(j as int, x0));
            assert(forall|k: int| 0 <= k < i ==> #[trigger] pre.take(i as int)[k] == pre[k]);
            lemma_move_element(pre, i as int, j as int);
            assert(post.to_multiset() == pre.to_multiset());
            assert(forall|k: int| 0 <= k < j ==> post[k] == pre[k]);
            assert(post[j as int] == x0);
            assert(forall|k: int| j < k <= i ==> post[k] == pre[k - 1]);
            assert forall|p: int, q: int| 0 <= p < q < i + 1
                implies chars_le(#[trigger] post[p].0, #[trigger] post[q].0) by {
                if q < j {
                    assert(chars_le(pre.take(i as int)[p].0, pre.take(i as int)[q].0));
                } else if p < j && q == j {
                    assert(chars_le(pre[p].0, x0.0));
                } else if p < j && q > j {
                    assert(chars_le(pre.take(i as int)[p].0, pre.take(i as int)[q - 1].0));
                } else if p == j && q > j {
                    assert(chars_le(x0.0, pre[j as int].0));
                    if q - 1 > j {
                        assert(chars_le(pre.take(i as int)[j as int].0, pre.take(i as int)[q - 1].0));
                        lemma_chars_le_trans(x0.0, pre[j as int].0, pre[q - 1].0);
                    }
                } else {
                    assert(chars_le(pre.take(i as int)[p - 1].0, pre.take(i as int)[q - 1].0));
                }
            }
            assert(sorted_by_key(post.take(i + 1)));
        }
        i += 1;
    }
    proof {
        assert(v.deep_view().take(n as int) =~= v.deep_view());
    }
    v
}

/// Produce an identical copy of an example's pairs.
pub fn duplicate_example(example: &Example) -> (r: Example)
    ensures
        r.deep_view() == example.deep_view(),
{
    let mut out: Example = Vec::new();
    let n = example.len();
    let mut i: usize = 0;
    while i < n
        invariant
            0 <= i <= n,
            n == example@.len(),
            out@.len() == i,
            forall|k: int|
                0 <= k < i ==> #[trigger] out.deep_view()[k] == example.deep_view()[k],
        decreases n - i,
    {
        let k = example[i].0.clone();
        let v = example[i].1.clone();
        let ghost out0 = out.deep_view();
        out.push((k, v));
        proof {
            assert(out.deep_view() =~= out0.push(
                (example@[i as int].0@, example@[i as int].1@),
            ));
            assert(example.deep_view()[i as int]
                == (example@[i as int].0@, example@[i as int].1@));
        }
        i += 1;
    }
    proof {
        assert(out.deep_view() =~= example.deep_view());
    }
    out
}

/// The values of an example's pairs, in pair order.
pub open spec fn pair_values(ps: Seq<(Seq<char>, Seq<char>)>) -> Seq<Seq<char>> {
    ps.map_values(|p: (Seq<char>, Seq<char>)| p.1)
}

/// Utility function to return values in a dictionary sorted by key.
///
/// The result lists the pairs' values in the order of some rearrangement of
/// the pairs whose keys are nondecreasing.
pub fn sorted_values(values: &Example) -> (r: Vec<String>)
    ensures
        exists|sp: Seq<(Seq<char>, Seq<char>)>|
            {
                &&& #[trigger] sp.to_multiset() == values.deep_view().to_multiset()
                &&& sorted_by_key(sp)
                &&& r.deep_view() == pair_values(sp)
            },
{
    let pairs = duplicate_example(values);
    let sorted = sort_pairs_by_key(pairs);
    let mut out: Vec<String> = Vec::new();
    let n = sorted.len();
    let mut i: usize = 0;
    while i < n
        invariant
            0 <= i <= n,
            n == sorted@.len(),
            out@.len() == i,
            forall|k: int|
                0 <= k < i ==> #[trigger] out.deep_view()[k] == sorted.deep_view()[k].1,
            sorted_by_key(sorted.deep_view()),
            sorted.deep_view().to_multiset() == values.deep_view().to_multiset(),
        decreases n - i,
    {
        let ghost out0 = out.deep_view();
        out.push(sorted[i].1.clone());
        proof {
            assert(out.deep_view() =~= out0.push(sorted@[i as int].1@));
            assert(sorted.deep_view()[i as int].1 == sorted@[i as int].1@);
        }
        i += 1;
    }
    proof {
        assert(out.deep_view() =~= pair_values(sorted.deep_view()));
        let sp = sorted.deep_view();
        assert(sp.to_multiset() == values.deep_view().to_multiset() && sorted_by_key(sp)
            && out.deep_view() == pair_values(sp));
    }
    out
}

/// Whether a byte is ASCII whitespace: space, tab, line feed, vertical
/// tab, form feed or carriage return.
pub open spec fn is_space_byte(b: u8) -> bool {
    b == 0x20 || b == 0x09 || b == 0x0a || b == 0x0b || b == 0x0c || b == 0x0d
}

/// The number of words remaining in `s`, given whether the previous byte
/// was inside a word: a word starts at each non-space byte that does not
/// follow another non-space byte.
pub open spec fn spec_count_words(s: Seq<u8>, in_word: bool) -> nat
    decreases s.len(),
{
    if s.len() == 0 {
        0
    } else {
        let w = !is_space_byte(s.first());
        (if w && !in_word {
            1nat
        } else {
            0nat
        }) + spec_count_words(s.drop_first(), w)
    }
}

/// The number of words of a byte sequence: maximal runs of bytes separated
/// by ASCII whitespace.
pub open spec fn spec_word_count(s: Seq<u8>) -> nat {
    spec_count_words(s, false)
}

/// The space-joined text of a list of strings.
pub open spec fn join_space(vs: Seq<Seq<char>>) -> Seq<char>
    decreases vs.len(),
{
    if vs.len() == 0 {
        Seq::<char>::empty()
    } else if vs.len() == 1 {
        vs[0]
    } else {
        join_space(vs.drop_last()) + " "@ + vs.last()
    }
}

/// Join a list of strings with single spaces.
pub fn join_with_spaces(vs: &Vec<String>) -> (r: String)
    ensures
        r@ == join_space(vs.deep_view()),
{
    let mut s = String::new();
    let n = vs.len();
    let mut i: usize = 0;
    while i < n
        invariant
            0 <= i <= n,
            n == vs@.len(),
            s@ == join_space(vs.deep_view().take(i as int)),
        decreases n - i,
    {
        if i > 0 {
            s.append(" ");
        }
        s.append(vs[i].as_str());
        proof {
            let dv = vs.deep_view();
            assert(dv.take(i + 1).drop_last() =~= dv.take(i as int));
            assert(dv.take(i + 1).last() == dv[i as int]);
            if i == 0 {
                assert(s@ =~= dv.take(1)[0]);
            }
        }
        i += 1;
    }
    proof {
        assert(vs.deep_view().take(n as int) =~= vs.deep_view());
    }
    s
}

/// How an example's text is measured.
#[derive(Debug, Clone, Copy, PartialEq, Eq, Structural)]
pub enum TextLengthMode {
    /// Count words: maximal runs separated by ASCII whitespace
    Words,
    /// Count bytes of the text
    Chars,
}

/// The length of a text under a measuring mode.
pub open spec fn spec_measure(mode: TextLengthMode, t: Seq<char>) -> nat {
    match mode {
        TextLengthMode::Words => spec_word_count(vstd::utf8::encode_utf8(t)),
        TextLengthMode::Chars => (vstd::utf8::encode_utf8(t).len() as usize) as nat,
    }
}

/// Whether `t` is the text of an example: its values, sorted, joined by
/// single spaces.
pub open spec fn is_example_text(example: Seq<(Seq<char>, Seq<char>)>, t: Seq<char>) -> bool {
    exists|vs: Seq<Seq<char>>|
        {
            &&& #[trigger] vs.to_multiset() == pair_values(example).to_multiset()
            &&& sorted_strings(vs)
            &&& t == join_space(vs)
        }
}

/// Whether `len` is the measured length of an example under a mode.
pub open spec fn is_example_len(
    mode: TextLengthMode,
    example: Seq<(Seq<char>, Seq<char>)>,
    len: usize,
) -> bool {
    exists|t: Seq<char>| #[trigger] is_example_text(example, t) && len == spec_measure(mode, t)
}

/// How many leading entries of `lengths` fit into `budget`: entries are
/// taken in order until the first one that no longer fits.
pub open spec fn spec_take_count(lengths: Seq<usize>, budget: int) -> int
    decreases lengths.len(),
{
    if lengths.len() == 0 {
        0
    } else if lengths.first() > budget {
        0
    } else {
        1 + spec_take_count(lengths.drop_first(), budget - lengths.first())
    }
}

/// Interface for selecting examples to include in prompts.
pub trait BaseExampleSelector {
    /// The invariant a selector maintains between calls.
    spec fn inv(&self) -> bool;

    /// Add a new example to the store.
    fn add_example(&mut self, example: Example) -> Result<(), FerricLinkError>
        requires
            old(self).inv(),
    ;

    /// Select which examples to use based on the inputs.
    fn select_examples(&self, input_variables: &Example)
        -> Result<Vec<Example>, FerricLinkError>
        requires
            self.inv(),
    ;
}

/// Select examples based on length.
///
/// This selector chooses the longest prefix of its examples that fits
/// within a maximum length constraint, making it useful for managing
/// prompt size and token limits.
#[derive(Debug)]
pub struct LengthBasedExampleSelector {
    /// A list of the examples that the prompt template expects
    pub examples: Vec<Example>,
    /// How text length is measured; the default is word count
    pub length_mode: TextLengthMode,
    /// Max length for the prompt, beyond which examples are cut
    pub max_length: usize,
    /// Length of each example (cached for performance)
    pub example_text_lengths: Vec<usize>,
}

impl LengthBasedExampleSelector {
    /// Default text length function (word count).
    pub fn default_text_length(text: &str) -> (r: usize)
        ensures
            r == spec_word_count(text.spec_bytes()),
    {
        let bytes = text.as_bytes();
        let n = bytes.len();
        let mut count: usize = 0;
        let mut in_word = false;
        let mut i: usize = 0;
        proof {
            assert(bytes@.skip(0) =~= bytes@);
        }
        while i < n
            invariant
                0 <= i <= n,
                n == bytes@.len(),
                count <= i,
                count + spec_count_words(bytes@.skip(i as int), in_word)
                    == spec_word_count(bytes@),
            decreases n - i,
        {
            proof {
                let rest = bytes@.skip(i as int);
                assert(rest.first() == bytes@[i as int]);
                assert(rest.drop_first() =~= bytes@.skip(i + 1));
            }
            let b = bytes[i];
            let w = !(b == 0x20 || b == 0x09 || b == 0x0a || b == 0x0b || b == 0x0c || b
                == 0x0d);
            if w && !in_word {
                count += 1;
            }
            in_word = w;
            i += 1;
        }
        proof {
            assert(bytes@.skip(n as int) =~= Seq::<u8>::empty());
        }
        count
    }

    /// Character count function: the length of the text in bytes.
    pub fn char_length(text: &str) -> (r: usize)
        ensures
            r == text.spec_bytes().len() as usize,
    {
        text.len()
    }

    /// Measure a text under a mode.
    fn measure_text(mode: TextLengthMode, text: &str) -> (r: usize)
        ensures
            r == spec_measure(mode, text@),
    {
        match mode {
            TextLengthMode::Words => Self::default_text_length(text),
            TextLengthMode::Chars => Self::char_length(text),
        }
    }

    /// Well-formedness: each example has a cached length, and each cached
    /// length measures that example's text.
    pub open spec fn wf(self) -> bool {
        &&& self.example_text_lengths@.len() == self.examples@.len()
        &&& forall|i: int|
            0 <= i < self.examples@.len() ==> is_example_len(
                self.length_mode,
                #[trigger] self.examples.deep_view()[i],
                self.example_text_lengths@[i],
            )
    }

    /// Create a new length-based example selector.
    ///
    /// The cached length of every example is computed up front.
    pub fn new(examples: Vec<Example>, max_length: usize, length_mode: Option<TextLengthMode>)
        -> (r: Self)
        ensures
            r.wf(),
            r.examples.deep_view() == examples.deep_view(),
            r.max_length == max_length,
            r.length_mode == length_mode.unwrap_or(TextLengthMode::Words),
    {
        let mode = match length_mode {
            Some(m) => m,
            None => TextLengthMode::Words,
        };
        let mut selector = LengthBasedExampleSelector {
            examples,
            length_mode: mode,
            max_length,
            example_text_lengths: Vec::new(),
        };
        selector.update_lengths();
        selector
    }

    /// Create a new selector with the default word count measure.
    pub fn with_word_count(examples: Vec<Example>, max_length: usize) -> (r: Self)
        ensures
            r.wf(),
            r.examples.deep_view() == examples.deep_view(),
            r.max_length == max_length,
            r.length_mode == TextLengthMode::Words,
    {
        Self::new(examples, max_length, Some(TextLengthMode::Words))
    }

    /// Create a new selector with the byte count measure.
    pub fn with_char_count(examples: Vec<Example>, max_length: usize) -> (r: Self)
        ensures
            r.wf(),
            r.examples.deep_view() == examples.deep_view(),
            r.max_length == max_length,
            r.length_mode == TextLengthMode::Chars,
    {
        Self::new(examples, max_length, Some(TextLengthMode::Chars))
    }

    /// Recompute the cached lengths of all examples.
    fn update_lengths(&mut self)
        ensures
            final(self).wf(),
            final(self).examples == old(self).examples,
            final(self).length_mode == old(self).length_mode,
            final(self).max_length == old(self).max_length,
    {
        let mut lengths: Vec<usize> = Vec::new();
        let n = self.examples.len();
        let mut i: usize = 0;
        while i < n
            invariant
                0 <= i <= n,
                n == self.examples@.len(),
                lengths@.len() == i,
                forall|k: int|
                    0 <= k < i ==> is_example_len(
                        self.length_mode,
                        #[trigger] self.examples.deep_view()[k],
                        lengths@[k],
                    ),
            decreases n - i,
        {
            let text = self.example_to_text(&self.examples[i]);
            let len = Self::measure_text(self.length_mode, text.as_str());
            lengths.push(len);
            proof {
                assert(self.examples.deep_view()[i as int] == self.examples@[i as int].deep_view());
                assert(is_example_text(self.examples@[i as int].deep_view(), text@));
                assert(is_example_len(
                    self.length_mode,
                    self.examples.deep_view()[i as int],
                    len,
                ));
            }
            i += 1;
        }
        self.example_text_lengths = lengths;
    }

    /// Convert an example to text: its values, sorted, joined by spaces.
    pub fn example_to_text(&self, example: &Example) -> (r: String)
        ensures
            is_example_text(example.deep_view(), r@),
    {
        let pairs = duplicate_example(example);
        let sorted = sort_pairs_by_key(pairs);
        let mut values: Vec<String> = Vec::new();
        let n = sorted.len();
        let mut i: usize = 0;
        while i < n
            invariant
                0 <= i <= n,
                n == sorted@.len(),
                values@.len() == i,
                forall|k: int|
                    0 <= k < i ==> #[trigger] values.deep_view()[k] == sorted.deep_view()[k].1,
            decreases n - i,
        {
            let ghost v0 = values.deep_view();
            values.push(sorted[i].1.clone());
            proof {
                assert(values.deep_view() =~= v0.push(sorted@[i as int].1@));
                assert(sorted.deep_view()[i as int].1 == sorted@[i as int].1@);
            }
            i += 1;
        }
        let sorted_vals = sort_strings(values);
        let text = join_with_spaces(&sorted_vals);
        proof {
            assert(values.deep_view() =~= pair_values(sorted.deep_view()));
            vstd::seq_lib::lemma_multiset_commutative(values.deep_view(), Seq::empty());
            lemma_map_values_multiset(sorted.deep_view(), example.deep_view());
            let vs = sorted_vals.deep_view();
            assert(vs.to_multiset() == pair_values(example.deep_view()).to_multiset()
                && sorted_strings(vs) && text@ == join_space(vs));
        }
        text
    }

    /// Get the current total length of examples, saturating at the largest
    /// representable value.
    pub fn total_length(&self) -> (r: usize)
        ensures
            r == if spec_sum(self.example_text_lengths@) > usize::MAX {
                usize::MAX as int
            } else {
                spec_sum(self.example_text_lengths@)
            },
    {
        let n = self.example_text_lengths.len();
        let mut total: usize = 0;
        let mut i: usize = 0;
        while i < n
            invariant
                0 <= i <= n,
                n == self.example_text_lengths@.len(),
                total == if spec_sum(self.example_text_lengths@.take(i as int)) > usize::MAX {
                    usize::MAX as int
                } else {
                    spec_sum(self.example_text_lengths@.take(i as int))
                },
            decreases n - i,
        {
            proof {
                let ls = self.example_text_lengths@;
                assert(ls.take(i + 1).drop_last() =~= ls.take(i as int));
                assert(ls.take(i + 1).last() == ls[i as int]);
            }
            total = total.saturating_add(self.example_text_lengths[i]);
            i += 1;
        }
        proof {
            assert(self.example_text_lengths@.take(n as int) =~= self.example_text_lengths@);
        }
        total
    }

    /// Get the number of examples.
    pub fn len(&self) -> (r: usize)
        ensures
            r == self.examples@.len(),
    {
        self.examples.len()
    }

    /// Check if the selector is empty.
    pub fn is_empty(&self) -> (r: bool)
        ensures
            r == (self.examples@.len() == 0),
    {
        self.examples.is_empty()
    }
}

/// The sum of a sequence of lengths.
pub open spec fn spec_sum(lengths: Seq<usize>) -> int
    decreases lengths.len(),
{
    if lengths.len() == 0 {
        0
    } else {
        spec_sum(lengths.drop_last()) + lengths.last()
    }
}

/// The values of sorted pairs are a rearrangement of the values of the
/// original pairs.
proof fn lemma_map_values_multiset(
    sorted: Seq<(Seq<char>, Seq<char>)>,
    orig: Seq<(Seq<char>, Seq<char>)>,
)
    requires
        sorted.to_multiset() == orig.to_multiset(),
    ensures
        pair_values(sorted).to_multiset() == pair_values(orig).to_multiset(),
{
    lemma_map_values_multiset_general(sorted, orig);
}

/// Mapping a function over two sequences with equal multisets gives equal
/// multisets.
proof fn lemma_map_values_multiset_general(a: Seq<(Seq<char>, Seq<char>)>, b: Seq<(Seq<char>, Seq<char>)>)
    requires
        a.to_multiset() == b.to_multiset(),
    ensures
        pair_values(a).to_multiset() == pair_values(b).to_multiset(),
    decreases a.len(),
{
    broadcast use group_to_multiset_ensures;

    if a.len() == 0 {
        assert(b.to_multiset().len() == 0);
        assert(b.len() == 0);
        assert(pair_values(a) =~= pair_values(b));
    } else {
        let x = a.last();
        assert(a.to_multiset().contains(x));
        assert(b.to_multiset().contains(x));
        assert(b.contains(x));
        let j = choose|j: int| 0 <= j < b.len() && b[j] == x;
        let a2 = a.drop_last();
        let b2 = b.remove(j);
        assert(a =~= a2.push(x));
        assert(a.to_multiset() =~= a2.to_multiset().insert(x));
        assert(b2.to_multiset() =~= b.to_multiset().remove(x));
        assert(a2.to_multiset() =~= b2.to_multiset());
        lemma_map_values_multiset_general(a2, b2);
        assert(pair_values(a) =~= pair_values(a2).push(x.1));
        assert(pair_values(a).to_multiset() =~= pair_values(a2).to_multiset().insert(x.1));
        assert(pair_values(b2) =~= pair_values(b).remove(j));
        assert(pair_values(b).to_multiset() =~= pair_values(b2).to_multiset().insert(x.1));
    }
}

impl BaseExampleSelector for LengthBasedExampleSelector {
    /// The selector's invariant is its well-formedness.
    open spec fn inv(&self) -> bool {
        self.wf()
    }

    /// Add a new example to the store, caching its measured length.
    fn add_example(&mut self, example: Example) -> (r: Result<(), FerricLinkError>)
        ensures
            r is Ok,
            final(self).wf(),
            final(self).length_mode == old(self).length_mode,
            final(self).max_length == old(self).max_length,
            final(self).examples.deep_view()
                == old(self).examples.deep_view().push(example.deep_view()),
    {
        let text = self.example_to_text(&example);
        let len = Self::measure_text(self.length_mode, text.as_str());
        let ghost ex0 = self.examples.deep_view();
        let ghost ls0 = self.example_text_lengths@;
        self.examples.push(example);
        self.example_text_lengths.push(len);
        proof {
            assert(self.examples.deep_view() =~= ex0.push(
                self.examples@[ex0.len() as int].deep_view(),
            ));
            assert forall|i: int| 0 <= i < self.examples@.len() implies is_example_len(
                self.length_mode,
                #[trigger] self.examples.deep_view()[i],
                self.example_text_lengths@[i],
            ) by {
                if i < ex0.len() {
                    assert(self.examples.deep_view()[i] == ex0[i]);
                    assert(self.example_text_lengths@[i] == ls0[i]);
                } else {
                    assert(is_example_text(self.examples.deep_view()[i], text@));
                }
            }
        }
        Ok(())
    }

    /// Select the longest prefix of examples whose measured lengths,
    /// together with the input's measured length, fit within `max_length`.
    fn select_examples(&self, input_variables: &Example)
        -> (r: Result<Vec<Example>, FerricLinkError>)
        ensures
            r matches Ok(selected) && exists|input_len: usize|
                {
                    &&& #[trigger] is_example_len(
                        self.length_mode,
                        input_variables.deep_view(),
                        input_len,
                    )
                    &&& selected.deep_view() == self.examples.deep_view().take(
                        spec_take_count(
                            self.example_text_lengths@,
                            if input_len > self.max_length {
                                0
                            } else {
                                self.max_length - input_len
                            },
                        ),
                    )
                },
    {
        let input_text = self.example_to_text(input_variables);
        let input_length = LengthBasedExampleSelector::measure_text(self.length_mode, input_text.as_str());
        let remaining_length = if input_length > self.max_length {
            0
        } else {
            self.max_length - input_length
        };

        let mut selected: Vec<Example> = Vec::new();
        let mut current_length: usize = 0;
        let n = self.examples.len();
        let mut i: usize = 0;
        let ghost ls = self.example_text_lengths@;
        proof {
            assert(ls.skip(0) =~= ls);
        }
        while i < n
            invariant
                0 <= i <= n,
                n == self.examples@.len(),
                n == ls.len(),
                ls == self.example_text_lengths@,
                0 <= current_length <= remaining_length,
                is_example_text(input_variables.deep_view(), input_text@),
                input_length == spec_measure(self.length_mode, input_text@),
                remaining_length == if input_length > self.max_length {
                    0int
                } else {
                    self.max_length - input_length
                },
                selected@.len() == i,
                forall|k: int|
                    0 <= k < i ==> #[trigger] selected.deep_view()[k]
                        == self.examples.deep_view()[k],
                spec_take_count(ls, remaining_length as int) == i + spec_take_count(
                    ls.skip(i as int),
                    remaining_length - current_length,
                ),
            decreases n - i,
        {
            proof {
                let rest = ls.skip(i as int);
                assert(rest.first() == ls[i as int]);
                assert(rest.drop_first() =~= ls.skip(i + 1));
            }
            let example_length = self.example_text_lengths[i];
            if example_length <= remaining_length - current_length {
                let ghost s0 = selected.deep_view();
                let copy = duplicate_example(&self.examples[i]);
                selected.push(copy);
                proof {
                    assert(selected.deep_view() =~= s0.push(self.examples@[i as int].deep_view()));
                    assert(self.examples.deep_view()[i as int]
                        == self.examples@[i as int].deep_view());
                }
                current_length += example_length;
                i += 1;
            } else {
                proof {
                    assert(spec_take_count(ls.skip(i as int), remaining_length - current_length)
                        == 0);
                    assert(selected.deep_view() =~= self.examples.deep_view().take(i as int));
                    assert(is_example_len(
                        self.length_mode,
                        input_variables.deep_view(),
                        input_length,
                    ));
                }
                return Ok(selected);
            }
        }
        proof {
            assert(ls.skip(n as int) =~= Seq::<usize>::empty());
            assert(selected.deep_view() =~= self.examples.deep_view().take(n as int));
            assert(is_example_len(self.length_mode, input_variables.deep_view(), input_length));
        }
        Ok(selected)
    }
}

} // verus!