//! The record of a finished dictation kept in the history.
use vstd::prelude::*;

use crate::text::{is_white_space, is_white_space_char};

verus! {

/// One dictation in the history.
#[derive(Debug, Clone)]
pub struct Transcription {
    pub id: i64,
    pub text: String,
    pub language: String,
    pub duration_ms: i64,
    pub speech_duration_ms: i64,
    pub word_count: i64,
    pub model: String,
    pub created_at: String,
}

/// How many history entries are kept; older ones are dropped on insert.
pub const HISTORY_LIMIT: i64 = 100;

/// A column that older history tables lack.
#[derive(Debug, Clone, Copy, PartialEq, Eq, Structural)]
pub enum MissingColumn {
    WordCount,
    SpeechDuration,
}

/// The columns to add to an existing history table, in order, given which of
/// them it already has.
pub fn columns_to_add(has_word_count: bool, has_speech_duration: bool) -> (cols: Vec<MissingColumn>)
    ensures
        cols@ == (if has_word_count {
            Seq::<MissingColumn>::empty()
        } else {
            seq![MissingColumn::WordCount]
        }) + (if has_speech_duration {
            Seq::<MissingColumn>::empty()
        } else {
            seq![MissingColumn::SpeechDuration]
        }),
{
    let mut cols: Vec<MissingColumn> = Vec::new();
    if !has_word_count {
        cols.push(MissingColumn::WordCount);
    }
    if !has_speech_duration {
        cols.push(MissingColumn::SpeechDuration);
    }
    assert(cols@ =~= (if has_word_count {
        Seq::<MissingColumn>::empty()
    } else {
        seq![MissingColumn::WordCount]
    }) + (if has_speech_duration {
        Seq::<MissingColumn>::empty()
    } else {
        seq![MissingColumn::SpeechDuration]
    }));
    cols
}

/// Whether a word starts at position `i` of `s`: a non-white-space character
/// at the start or after white space.
pub open spec fn word_starts_at(s: Seq<char>, i: int) -> bool {
    &&& !is_white_space(s[i])
    &&& (i == 0 || is_white_space(s[i - 1]))
}

/// The number of words of `s`: maximal runs of non-white-space characters,
/// as `str::split_whitespace` yields them.
pub open spec fn words(s: Seq<char>) -> nat
    decreases s.len(),
{
    if s.len() == 0 {
        0
    } else {
        words(s.drop_last()) + if word_starts_at(s, s.len() - 1) {
            1nat
        } else {
            0nat
        }
    }
}

proof fn lemma_words_bound(s: Seq<char>)
    ensures
        words(s) <= s.len(),
    decreases s.len(),
{
    if s.len() > 0 {
        lemma_words_bound(s.drop_last());
    }
}

/// The number of words of `text`.
pub fn word_count(text: &str) -> (n: usize)
    ensures
        n == words(text@),
{
    let len = text.unicode_len();
    let mut count: usize = 0;
    let mut i: usize = 0;
    let mut after_space = true;
    assert(text@.take(0) =~= Seq::<char>::empty());
    while i < len
        invariant
            i <= len,
            len == text@.len(),
            count == words(text@.take(i as int)),
            after_space == (i == 0 || is_white_space(text@[i - 1])),
        decreases len - i,
    {
        let c = text.get_char(i);
        let space = is_white_space_char(c);
        proof {
            let next = text@.take(i + 1);
            assert(next.drop_last() =~= text@.take(i as int));
            assert(next[i as int] == c);
            if i > 0 {
                assert(next[i - 1] == text@[i - 1]);
            }
            lemma_words_bound(text@.take(i as int));
        }
        if !space && after_space {
            count = count + 1;
        }
        after_space = space;
        i = i + 1;
    }
    assert(text@.take(len as int) =~= text@);
    count
}

} // verus!
