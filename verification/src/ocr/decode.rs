use vstd::prelude::*;
use vstd::string::*;

use crate::utils::text::str_eq;

verus! {

/// The word that stands for "nothing here" among the words of a model.
pub open spec fn blank_word() -> Seq<char> {
    "-"@
}

/// The word before the `i`-th word: the empty word before the first.
pub open spec fn word_before(words: Seq<Seq<char>>, i: int) -> Seq<char> {
    if i <= 0 {
        Seq::empty()
    } else {
        words[i - 1]
    }
}

/// The text that a run of words reads as: each word that differs from the
/// word before it and is not the blank word, one after the other.
pub open spec fn decoded(words: Seq<Seq<char>>) -> Seq<char>
    decreases words.len(),
{
    if words.len() == 0 {
        Seq::empty()
    } else {
        let before = decoded(words.drop_last());
        let word = words.last();
        if word != word_before(words, words.len() - 1) && word != blank_word() {
            before + word
        } else {
            before
        }
    }
}

/// The words that a run of labels stands for.
pub open spec fn labelled(labels: Seq<usize>, index_to_word: Seq<String>) -> Seq<Seq<char>> {
    Seq::new(labels.len(), |i: int| index_to_word[labels[i] as int]@)
}

/// Reads the text off the labels that a model gave, step by step: repeats of
/// a word count once, and the blank word counts for nothing.
pub fn decode_labels(labels: &Vec<usize>, index_to_word: &Vec<String>) -> (text: String)
    requires
        forall|i: int| 0 <= i < labels@.len() ==> (#[trigger] labels@[i]) < index_to_word@.len(),
    ensures
        text@ == decoded(labelled(labels@, index_to_word@)),
{
    let ghost words = labelled(labels@, index_to_word@);
    let mut text = String::new();
    let mut i: usize = 0;
    proof {
        assert(words.subrange(0, 0) =~= Seq::<Seq<char>>::empty());
    }
    while i < labels.len()
        invariant
            i <= labels@.len(),
            words == labelled(labels@, index_to_word@),
            forall|k: int|
                0 <= k < labels@.len() ==> (#[trigger] labels@[k]) < index_to_word@.len(),
            text@ == decoded(words.subrange(0, i as int)),
        decreases labels@.len() - i,
    {
        let word = index_to_word[labels[i]].as_str();
        let repeated = if i == 0 {
            str_eq(word, "")
        } else {
            str_eq(word, index_to_word[labels[i - 1]].as_str())
        };
        proof {
            reveal_strlit("-");
            reveal_strlit("");
            let upto = words.subrange(0, i + 1);
            assert(upto.drop_last() =~= words.subrange(0, i as int));
            assert(upto.last() == word@);
            assert(word_before(upto, i as int) == if i == 0 {
                Seq::<char>::empty()
            } else {
                words[i - 1]
            });
            assert(""@ =~= Seq::<char>::empty());
        }
        if !repeated && !str_eq(word, "-") {
            text.append(word);
        }
        i = i + 1;
    }
    assert(words.subrange(0, labels@.len() as int) =~= words);
    text
}

} // verus!
