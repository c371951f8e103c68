//! The normal form of a name: white space collapsed and trimmed, every word
//! with an upper-case first letter and the rest in lower case.

use crate::text::char_to_uppercase;
use crate::text::chars_of;
use crate::text::is_whitespace;
use crate::text::is_whitespace_char;
use crate::text::lowercased;
use crate::text::push_char;
use crate::text::string_of;
use crate::text::to_lowercase;
use crate::text::trim;
use crate::text::trimmed;
use crate::text::uppercased_char;
use vstd::prelude::*;
use vstd::string::*;

verus! {

/// The first `count` characters of `text` with every run of white space
/// replaced by one space.
pub open spec fn collapsed(text: Seq<char>, count: int) -> Seq<char>
    decreases count,
{
    if count <= 0 {
        Seq::empty()
    } else {
        let before = collapsed(text, count - 1);
        if !is_whitespace_char(text[count - 1]) {
            before.push(text[count - 1])
        } else if count >= 2 && is_whitespace_char(text[count - 2]) {
            before
        } else {
            before.push(' ')
        }
    }
}

/// A text cut at its spaces: the words that are complete, and the word that
/// is still open.
pub struct Words {
    pub done: Seq<Seq<char>>,
    pub open: Seq<char>,
}

/// The first `count` characters of `text` cut at each space; no word is
/// empty.
pub open spec fn words_upto(text: Seq<char>, count: int) -> Words
    decreases count,
{
    if count <= 0 {
        Words { done: Seq::empty(), open: Seq::empty() }
    } else {
        let before = words_upto(text, count - 1);
        if text[count - 1] != ' ' {
            Words { done: before.done, open: before.open.push(text[count - 1]) }
        } else if before.open.len() > 0 {
            Words { done: before.done.push(before.open), open: Seq::empty() }
        } else {
            before
        }
    }
}

/// The words of `text`: the pieces between its spaces that are not empty.
pub open spec fn words(text: Seq<char>) -> Seq<Seq<char>> {
    let cut = words_upto(text, text.len() as int);
    if cut.open.len() > 0 {
        cut.done.push(cut.open)
    } else {
        cut.done
    }
}

/// A word with its first character in upper case and the rest in lower case.
pub open spec fn title_word(word: Seq<char>) -> Seq<char> {
    uppercased_char(word[0]) + lowercased(word.drop_first())
}

/// The first `count` words, each as a title word, with one space between
/// two of them.
pub open spec fn joined_titles(words: Seq<Seq<char>>, count: int) -> Seq<char>
    decreases count,
{
    if count <= 0 {
        Seq::empty()
    } else if count == 1 {
        title_word(words[0])
    } else {
        joined_titles(words, count - 1) + seq![' '] + title_word(words[count - 1])
    }
}

/// The words of `text` as title words, with one space between two of them.
pub open spec fn title_cased(text: Seq<char>) -> Seq<char> {
    joined_titles(words(text), words(text).len() as int)
}

/// The normal form of a name.
pub open spec fn normalized_name(text: Seq<char>) -> Seq<char> {
    title_cased(trimmed(collapsed(text, text.len() as int)))
}

/// Brings a name into its normal form.
pub fn normalize_name_action(text_value: String) -> (output_value: String)
    ensures
        output_value@ == normalized_name(text_value@),
{
    let collapsed_value = collapse_whitespace(text_value);
    let trimmed_value = String::from_str(trim(collapsed_value.as_str()));
    title_case_tokens(trimmed_value)
}

fn collapse_whitespace(text_value: String) -> (output_value: String)
    ensures
        output_value@ == collapsed(text_value@, text_value@.len() as int),
{
    let characters = chars_of(text_value.as_str());
    let mut output_value = String::new();
    let mut previous_was_space = false;
    let mut position: usize = 0;
    while position < characters.len()
        invariant
            position <= characters.len(),
            characters@ == text_value@,
            output_value@ == collapsed(text_value@, position as int),
            previous_was_space == (position >= 1 && is_whitespace_char(
                text_value@[position as int - 1],
            )),
        decreases characters.len() - position,
    {
        let character_value = characters[position];
        if is_whitespace(character_value) {
            if !previous_was_space {
                push_char(&mut output_value, ' ');
                previous_was_space = true;
            }
        } else {
            previous_was_space = false;
            push_char(&mut output_value, character_value);
        }
        position += 1;
    }
    output_value
}

/// Appends `word` as a title word to `output_value`, after a space unless
/// it is the first word.
fn append_title_word(output_value: &mut String, word: &Vec<char>, first: bool)
    requires
        word.len() > 0,
    ensures
        final(output_value)@ == old(output_value)@ + if first {
            title_word(word@)
        } else {
            seq![' '] + title_word(word@)
        },
{
    if !first {
        push_char(output_value, ' ');
    }
    let upper = char_to_uppercase(word[0]);
    output_value.append(upper.as_str());
    let mut rest: Vec<char> = Vec::new();
    let mut position: usize = 1;
    while position < word.len()
        invariant
            1 <= position <= word.len(),
            rest@ == word@.subrange(1, position as int),
        decreases word.len() - position,
    {
        rest.push(word[position]);
        position += 1;
        assert(rest@ =~= word@.subrange(1, position as int));
    }
    assert(word@.subrange(1, word.len() as int) =~= word@.drop_first());
    let lower = to_lowercase(string_of(&rest).as_str());
    output_value.append(lower.as_str());
    assert(output_value@ =~= old(output_value)@ + if first {
        title_word(word@)
    } else {
        seq![' '] + title_word(word@)
    });
}

fn title_case_tokens(text_value: String) -> (output_value: String)
    ensures
        output_value@ == title_cased(text_value@),
{
    let characters = chars_of(text_value.as_str());
    let mut output_value = String::new();
    let mut token: Vec<char> = Vec::new();
    let mut first = true;
    let mut position: usize = 0;
    while position < characters.len()
        invariant
            position <= characters.len(),
            characters@ == text_value@,
            token@ == words_upto(text_value@, position as int).open,
            first == (words_upto(text_value@, position as int).done.len() == 0),
            output_value@ == joined_titles(
                words_upto(text_value@, position as int).done,
                words_upto(text_value@, position as int).done.len() as int,
            ),
        decreases characters.len() - position,
    {
        let ghost before = words_upto(text_value@, position as int);
        let character_value = characters[position];
        if character_value != ' ' {
            token.push(character_value);
        } else if token.len() > 0 {
            append_title_word(&mut output_value, &token, first);
            proof {
                lemma_joined_titles_push(before.done, before.open);
            }
            first = false;
            token = Vec::new();
        }
        position += 1;
    }
    if token.len() > 0 {
        proof {
            let cut = words_upto(text_value@, position as int);
            lemma_joined_titles_push(cut.done, cut.open);
        }
        append_title_word(&mut output_value, &token, first);
    }
    output_value
}

/// The titles of some words and one more are the titles of the words, then
/// a space unless there was no word, then the title of the one more.
proof fn lemma_joined_titles_push(done: Seq<Seq<char>>, word: Seq<char>)
    ensures
        joined_titles(done.push(word), done.len() as int + 1) == joined_titles(done, done.len() as int)
            + if done.len() == 0 {
            title_word(word)
        } else {
            seq![' '] + title_word(word)
        },
{
    let all = done.push(word);
    lemma_joined_titles_prefix(done, all, done.len() as int);
    if done.len() == 0 {
        assert(joined_titles(all, 1) =~= Seq::<char>::empty() + title_word(word));
    } else {
        assert(joined_titles(all, done.len() as int + 1) =~= joined_titles(all, done.len() as int) + (
        seq![' '] + title_word(word)));
    }
}

/// The titles of the first words depend on those words alone.
proof fn lemma_joined_titles_prefix(a: Seq<Seq<char>>, b: Seq<Seq<char>>, count: int)
    requires
        0 <= count <= a.len(),
        count <= b.len(),
        forall|i: int| 0 <= i < count ==> a[i] == b[i],
    ensures
        joined_titles(a, count) == joined_titles(b, count),
    decreases count,
{
    if count > 1 {
        lemma_joined_titles_prefix(a, b, count - 1);
    }
}

} // verus!
