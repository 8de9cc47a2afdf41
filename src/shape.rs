//! What every generated name looks like, stated over the draws that made it.
use vstd::prelude::*;

use crate::haikunator::{default_settings, hex_digits, token_of, Haikunator};
use crate::name::{lemma_name_of_none, lemma_name_of_three, lemma_name_of_two, views};
use crate::random::RandomSource;
use crate::words::is_word;

verus! {

/// No listed word is the empty string.
pub open spec fn no_empty_word(words: Seq<&str>) -> bool {
    forall|i: int| 0 <= i < words.len() ==> #[trigger] words[i]@.len() > 0
}

/// The token has one character per pick, each a character of the alphabet.
pub proof fn lemma_token_chars(alphabet: Seq<char>, picks: Seq<usize>)
    requires
        forall|k: int| 0 <= k < picks.len() ==> #[trigger] picks[k] < alphabet.len(),
    ensures
        token_of(alphabet, picks).len() == picks.len(),
        forall|k: int|
            0 <= k < picks.len() ==> alphabet.contains(#[trigger] token_of(alphabet, picks)[k]),
{
    assert forall|k: int| 0 <= k < picks.len() implies alphabet.contains(
        #[trigger] token_of(alphabet, picks)[k],
    ) by {
        assert(alphabet[picks[k] as int] == token_of(alphabet, picks)[k]);
    }
}

/// With two non-empty lists of non-empty words and a token to draw, a name is
/// the drawn adjective, the delimiter, the drawn noun, the delimiter and a
/// token of `token_length` characters of the alphabet.
pub proof fn lemma_three_parts<R: RandomSource>(
    h: &Haikunator<'_, R>,
    adjective: int,
    noun: int,
    picks: Seq<usize>,
)
    requires
        h.adjectives@.len() > 0,
        h.nouns@.len() > 0,
        no_empty_word(h.adjectives@),
        no_empty_word(h.nouns@),
        h.token_length > 0,
        h.alphabet().len() > 0,
        h.draws_valid(adjective, noun, picks),
    ensures
        h.name_for(adjective, noun, picks) == h.adjectives@[adjective]@ + h.delimiter@
            + h.nouns@[noun]@ + h.delimiter@ + token_of(h.alphabet(), picks),
        token_of(h.alphabet(), picks).len() == h.token_length,
        forall|k: int|
            0 <= k < h.token_length ==> h.alphabet().contains(
                #[trigger] token_of(h.alphabet(), picks)[k],
            ),
{
    lemma_token_chars(h.alphabet(), picks);
    assert(h.adjectives@[adjective]@.len() > 0);
    assert(h.nouns@[noun]@.len() > 0);
    lemma_name_of_three(
        views(h.adjectives@)[adjective],
        views(h.nouns@)[noun],
        token_of(h.alphabet(), picks),
        h.delimiter@,
    );
}

/// With the default settings, a name is a plain word, `-`, a plain word, `-`
/// and four decimal digits.
pub proof fn lemma_default_shape<R: RandomSource>(
    h: &Haikunator<'_, R>,
    adjective: int,
    noun: int,
    picks: Seq<usize>,
)
    requires
        default_settings(h),
        h.draws_valid(adjective, noun, picks),
    ensures
        h.name_for(adjective, noun, picks) == h.adjectives@[adjective]@ + seq!['-']
            + h.nouns@[noun]@ + seq!['-'] + token_of(h.alphabet(), picks),
        is_word(h.adjectives@[adjective]@),
        is_word(h.nouns@[noun]@),
        token_of(h.alphabet(), picks).len() == 4,
        forall|k: int|
            0 <= k < 4 ==> '0' <= #[trigger] token_of(h.alphabet(), picks)[k] <= '9',
{
    assert(is_word(h.adjectives@[adjective]@));
    assert(is_word(h.nouns@[noun]@));
    assert forall|i: int| 0 <= i < h.adjectives@.len() implies #[trigger] h.adjectives@[i]@.len()
        > 0 by {
        assert(is_word(h.adjectives@[i]@));
    }
    assert forall|i: int| 0 <= i < h.nouns@.len() implies #[trigger] h.nouns@[i]@.len() > 0 by {
        assert(is_word(h.nouns@[i]@));
    }
    lemma_three_parts(h, adjective, noun, picks);
    assert forall|k: int| 0 <= k < 4 implies '0' <= #[trigger] token_of(h.alphabet(), picks)[k]
        <= '9' by {
        let c = token_of(h.alphabet(), picks)[k];
        assert(h.alphabet().contains(c));
        let j = choose|j: int| 0 <= j < h.alphabet().len() && h.alphabet()[j] == c;
        assert(0 <= j < 10);
    }
}

/// With `token_hex` set, the token has `token_length` characters, each a
/// lowercase hex digit, whatever `token_chars` holds.
pub proof fn lemma_hex_token<R: RandomSource>(
    h: &Haikunator<'_, R>,
    adjective: int,
    noun: int,
    picks: Seq<usize>,
)
    requires
        h.token_hex,
        h.draws_valid(adjective, noun, picks),
    ensures
        h.alphabet() == hex_digits(),
        token_of(h.alphabet(), picks).len() == h.token_length,
        forall|k: int|
            0 <= k < h.token_length ==> hex_digits().contains(
                #[trigger] token_of(h.alphabet(), picks)[k],
            ),
{
    lemma_token_chars(h.alphabet(), picks);
}

/// With a zero token length and two non-empty lists of non-empty words, a
/// name is the adjective, the delimiter and the noun, with nothing after.
pub proof fn lemma_no_token<R: RandomSource>(
    h: &Haikunator<'_, R>,
    adjective: int,
    noun: int,
    picks: Seq<usize>,
)
    requires
        h.token_length == 0,
        h.adjectives@.len() > 0,
        h.nouns@.len() > 0,
        no_empty_word(h.adjectives@),
        no_empty_word(h.nouns@),
        h.draws_valid(adjective, noun, picks),
    ensures
        h.name_for(adjective, noun, picks) == h.adjectives@[adjective]@ + h.delimiter@
            + h.nouns@[noun]@,
{
    assert(h.adjectives@[adjective]@.len() > 0);
    assert(h.nouns@[noun]@.len() > 0);
    assert(token_of(h.alphabet(), picks) =~= Seq::empty());
    lemma_name_of_two(views(h.adjectives@)[adjective], views(h.nouns@)[noun], h.delimiter@);
}

/// With no adjective, no noun and a zero token length, the name is empty.
pub proof fn lemma_empty_name<R: RandomSource>(
    h: &Haikunator<'_, R>,
    adjective: int,
    noun: int,
    picks: Seq<usize>,
)
    requires
        h.adjectives@.len() == 0,
        h.nouns@.len() == 0,
        h.token_length == 0,
        h.draws_valid(adjective, noun, picks),
    ensures
        h.name_for(adjective, noun, picks) == Seq::<char>::empty(),
{
    assert(token_of(h.alphabet(), picks) =~= Seq::empty());
    lemma_name_of_none(h.delimiter@);
}

/// The name depends on the settings and the draws alone: two generators with
/// the same settings make the same name from the same draws, so a source that
/// repeats its draws repeats its names.
pub proof fn lemma_same_draws_same_name<R: RandomSource, S: RandomSource>(
    h: &Haikunator<'_, R>,
    g: &Haikunator<'_, S>,
    adjective: int,
    noun: int,
    picks: Seq<usize>,
)
    requires
        h.adjectives@ == g.adjectives@,
        h.nouns@ == g.nouns@,
        h.delimiter@ == g.delimiter@,
        h.token_length == g.token_length,
        h.token_hex == g.token_hex,
        h.token_chars@ == g.token_chars@,
    ensures
        h.name_for(adjective, noun, picks) == g.name_for(adjective, noun, picks),
{
}

} // verus!
