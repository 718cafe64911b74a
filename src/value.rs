//! The text of a text input, as held by `iced_native`: a sequence of
//! grapheme clusters.
use iced_native::widget::text_input::Value;
use vstd::prelude::*;

verus! {

#[verifier::external_type_specification]
#[verifier::external_body]
pub struct ExValue(Value);

/// The grapheme clusters that a `Value` holds, in order.
pub uninterp spec fn graphemes_of(v: Value) -> Seq<Seq<char>>;

/// The grapheme index where the next word that ends after `index` ends,
/// found by Unicode word segmentation of the graphemes from `index` on.
pub uninterp spec fn next_word_end(graphemes: Seq<Seq<char>>, index: nat) -> nat;

/// The number of graphemes in a value.
pub open spec fn value_len(v: Value) -> nat {
    graphemes_of(v).len()
}

/// Relies on `Value::len`: the length of its vector of graphemes.
pub assume_specification[ Value::len ](v: &Value) -> (r: usize)
    ensures
        r == graphemes_of(*v).len(),
;

/// Relies on `Value::next_end_of_word`, which slices its graphemes from
/// `index` on and so needs `index` within them.
pub assume_specification[ Value::next_end_of_word ](v: &Value, index: usize) -> (r: usize)
    requires
        index <= graphemes_of(*v).len(),
    ensures
        r == next_word_end(graphemes_of(*v), index as nat),
;

/// Relies on `Value::until`: the graphemes before `index`, or all of them.
pub assume_specification[ Value::until ](v: &Value, index: usize) -> (r: Value)
    ensures
        graphemes_of(r) == graphemes_of(*v).subrange(
            0,
            if index <= graphemes_of(*v).len() { index as int } else { graphemes_of(*v).len() as int },
        ),
;

/// Relies on `Value::to_string`: its graphemes, concatenated.
pub assume_specification[ Value::to_string ](v: &Value) -> (r: String)
    ensures
        r@ == concat_all(graphemes_of(*v)),
;

/// The pieces of `s` between its Unicode word boundaries, in order.
pub uninterp spec fn word_bounds_of(s: Seq<char>) -> Seq<Seq<char>>;

/// The number of extended grapheme clusters in `s`.
pub uninterp spec fn grapheme_count_of(s: Seq<char>) -> nat;

/// Whether `c` has the Unicode `White_Space` property.
pub uninterp spec fn white_space(c: char) -> bool;

/// The sequences concatenated in order.
pub open spec fn concat_all(ws: Seq<Seq<char>>) -> Seq<char>
    decreases ws.len(),
{
    if ws.len() == 0 {
        Seq::empty()
    } else {
        concat_all(ws.drop_last()) + ws.last()
    }
}

/// Whether every character of `w` is white space.
pub open spec fn blank(w: Seq<char>) -> bool {
    forall|i: int| 0 <= i < w.len() ==> white_space(w[i])
}

/// The index of the last piece that is not blank; -1 where there is none.
pub open spec fn last_word_index(ws: Seq<Seq<char>>) -> int
    decreases ws.len(),
{
    if ws.len() == 0 {
        -1
    } else if !blank(ws.last()) {
        ws.len() - 1
    } else {
        last_word_index(ws.drop_last())
    }
}

/// The grapheme index where the last word before `index` starts: `index`
/// less the graphemes of that word and of the blanks after it. Zero where
/// there is no such word, or where those graphemes, counted anew, outnumber
/// `index`.
pub open spec fn previous_word_start(graphemes: Seq<Seq<char>>, index: nat) -> nat {
    let before = graphemes.subrange(0, if index <= graphemes.len() { index as int } else { graphemes.len() as int });
    let ws = word_bounds_of(concat_all(before));
    let k = last_word_index(ws);
    if k < 0 {
        0
    } else {
        let a = grapheme_count_of(ws[k]);
        let b = grapheme_count_of(concat_all(ws.subrange(k + 1, ws.len() as int)));
        if a + b <= index {
            (index - a - b) as nat
        } else {
            0
        }
    }
}

/// Relies on `UnicodeSegmentation::split_word_bounds`: the pieces between
/// word boundaries, whose concatenation is the string.
#[verifier::external_body]
fn word_bounds(s: &str) -> (r: Vec<Vec<char>>)
    ensures
        r@.map_values(|w: Vec<char>| w@) == word_bounds_of(s@),
        concat_all(r@.map_values(|w: Vec<char>| w@)) == s@,
{
    unicode_segmentation::UnicodeSegmentation::split_word_bounds(s).map(|w| w.chars().collect()).collect()
}

/// Relies on `UnicodeSegmentation::graphemes` (extended): their number.
#[verifier::external_body]
fn grapheme_count(cs: &[char]) -> (r: usize)
    ensures
        r == grapheme_count_of(cs@),
{
    unicode_segmentation::UnicodeSegmentation::graphemes(cs.iter().collect::<String>().as_str(), true).count()
}

/// Relies on `char::is_whitespace`: the Unicode `White_Space` property.
#[verifier::external_body]
fn is_white_space(c: char) -> (r: bool)
    ensures
        r == white_space(c),
{
    c.is_whitespace()
}

fn is_blank(w: &Vec<char>) -> (r: bool)
    ensures
        r == blank(w@),
{
    let mut i: usize = 0;
    while i < w.len()
        invariant
            i <= w@.len(),
            forall|j: int| 0 <= j < i ==> white_space(w@[j]),
        decreases w@.len() - i,
    {
        if !is_white_space(w[i]) {
            return false;
        }
        i = i + 1;
    }
    true
}

/// The grapheme index where the last word before `index` starts, counting
/// the blanks after it as part of it; zero where there is none.
pub fn previous_start_of_word(value: &Value, index: usize) -> (r: usize)
    ensures
        r == previous_word_start(graphemes_of(*value), index as nat),
{
    let before = value.until(index);
    let text = before.to_string();
    let words = word_bounds(text.as_str());
    let ghost ws = words@.map_values(|w: Vec<char>| w@);
    let mut k: usize = words.len();
    proof {
        assert(ws.subrange(0, ws.len() as int) =~= ws);
    }
    while k > 0
        invariant
            k <= ws.len(),
            ws == words@.map_values(|w: Vec<char>| w@),
            last_word_index(ws) == last_word_index(ws.subrange(0, k as int)),
        ensures
            k <= ws.len(),
            last_word_index(ws) == last_word_index(ws.subrange(0, k as int)),
            k == 0 || !blank(ws[k - 1]),
        decreases k,
    {
        if !is_blank(&words[k - 1]) {
            break;
        }
        proof {
            assert(ws.subrange(0, k as int).drop_last() =~= ws.subrange(0, k - 1));
        }
        k = k - 1;
    }
    if k == 0 {
        proof {
            assert(ws.subrange(0, 0) =~= Seq::<Seq<char>>::empty());
        }
        return 0;
    }
    let mut rest: Vec<char> = Vec::new();
    let mut j: usize = k;
    proof {
        assert(ws.subrange(k as int, k as int) =~= Seq::<Seq<char>>::empty());
    }
    while j < words.len()
        invariant
            k <= j <= ws.len(),
            ws == words@.map_values(|w: Vec<char>| w@),
            rest@ == concat_all(ws.subrange(k as int, j as int)),
        decreases ws.len() - j,
    {
        let w = &words[j];
        let ghost start = rest@;
        let mut m: usize = 0;
        while m < w.len()
            invariant
                m <= w@.len(),
                rest@ == start + w@.subrange(0, m as int),
            decreases w@.len() - m,
        {
            rest.push(w[m]);
            proof {
                assert(start + w@.subrange(0, m + 1) =~= (start + w@.subrange(0, m as int)).push(w@[m as int]));
            }
            m = m + 1;
        }
        proof {
            assert(w@.subrange(0, w@.len() as int) =~= w@);
            assert(ws.subrange(k as int, j + 1).drop_last() =~= ws.subrange(k as int, j as int));
        }
        j = j + 1;
    }
    proof {
        assert(ws.subrange(0, k as int).last() == ws[k - 1]);
        assert(last_word_index(ws) == k - 1);
        assert(text@ == concat_all(graphemes_of(before)));
    }
    let a = grapheme_count(words[k - 1].as_slice());
    let b = grapheme_count(rest.as_slice());
    if a <= index && b <= index - a {
        index - a - b
    } else {
        0
    }
}

} // verus!
