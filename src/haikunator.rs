use vstd::prelude::*;

use crate::name::{join_non_empty, name_of, views};
use crate::random::RandomSource;
use crate::words::{builtin_adjectives, builtin_nouns, default_adjectives, default_nouns, is_word};

verus! {

/// The sixteen lowercase hexadecimal digits, in order.
pub open spec fn hex_digits() -> Seq<char> {
    seq!['0', '1', '2', '3', '4', '5', '6', '7', '8', '9', 'a', 'b', 'c', 'd', 'e', 'f']
}

/// The token alphabet: the hex digits when `token_hex` is set, else `token_chars`.
pub open spec fn alphabet_of(token_hex: bool, token_chars: Seq<char>) -> Seq<char> {
    if token_hex {
        hex_digits()
    } else {
        token_chars
    }
}

/// The word at index `i`, or the empty string where there is no word to pick.
pub open spec fn word_at(words: Seq<Seq<char>>, i: int) -> Seq<char> {
    if words.len() == 0 {
        Seq::empty()
    } else {
        words[i]
    }
}

/// The token whose k-th character is the alphabet's character at `picks[k]`.
pub open spec fn token_of(alphabet: Seq<char>, picks: Seq<usize>) -> Seq<char> {
    picks.map_values(|k: usize| alphabet[k as int])
}

/// Every pick is a position of the alphabet.
pub open spec fn picks_in(alphabet: Seq<char>, picks: Seq<usize>) -> bool {
    forall|k: int| 0 <= k < picks.len() ==> #[trigger] picks[k] < alphabet.len()
}

/// The characters of `alphabet` at the positions `picks`, in order.
pub fn token_from(alphabet: &str, picks: &[usize]) -> (r: String)
    requires
        picks_in(alphabet@, picks@),
    ensures
        r@ == token_of(alphabet@, picks@),
{
    let n = alphabet.unicode_len();
    let mut out = String::new();
    let mut i: usize = 0;
    while i < picks.len()
        invariant
            i <= picks.len(),
            n == alphabet@.len(),
            picks_in(alphabet@, picks@),
            out@ == token_of(alphabet@, picks@.take(i as int)),
        decreases picks.len() - i,
    {
        let k = picks[i];
        assert(picks@[i as int] < alphabet@.len());
        out.append(alphabet.substring_char(k, k + 1));
        assert(token_of(alphabet@, picks@.take(i + 1)) =~= token_of(alphabet@, picks@.take(i as int))
            + alphabet@.subrange(k as int, k + 1));
        i = i + 1;
    }
    assert(picks@.take(picks.len() as int) =~= picks@);
    out
}

/// A generator of short names: an adjective, a noun and a token of
/// `token_length` characters, the non-empty ones joined by `delimiter`.
///
/// When `token_hex` is set, the token is drawn from the sixteen lowercase hex
/// digits and `token_chars` is not read.
#[derive(Debug)]
pub struct Haikunator<'a, R: RandomSource> {
    /// The random source; each `haikunate` call draws from it.
    pub rng: R,
    pub adjectives: &'a [&'a str],
    pub nouns: &'a [&'a str],
    pub delimiter: &'a str,
    pub token_length: usize,
    pub token_hex: bool,
    pub token_chars: &'a str,
}

/// The settings that a `Haikunator` is made from.
pub struct HaikunatorParams<'a, R: RandomSource> {
    pub rng: R,
    pub adjectives: &'a [&'a str],
    pub nouns: &'a [&'a str],
    pub delimiter: &'a str,
    pub token_length: usize,
    pub token_hex: bool,
    pub token_chars: &'a str,
}

impl<'a, R: RandomSource> Haikunator<'a, R> {
    /// The alphabet that tokens are drawn from.
    pub open spec fn alphabet(&self) -> Seq<char> {
        alphabet_of(self.token_hex, self.token_chars@)
    }

    /// How many characters the token has: none where the alphabet is empty.
    pub open spec fn token_count(&self) -> nat {
        if self.alphabet().len() == 0 {
            0
        } else {
            self.token_length as nat
        }
    }

    /// Indices that `generate` may draw: a word index for each non-empty list
    /// and one alphabet position for each token character.
    pub open spec fn draws_valid(&self, adjective: int, noun: int, picks: Seq<usize>) -> bool {
        &&& self.adjectives@.len() > 0 ==> 0 <= adjective < self.adjectives@.len()
        &&& self.nouns@.len() > 0 ==> 0 <= noun < self.nouns@.len()
        &&& picks.len() == self.token_count()
        &&& picks_in(self.alphabet(), picks)
    }

    /// The name made by these draws.
    pub open spec fn name_for(&self, adjective: int, noun: int, picks: Seq<usize>) -> Seq<char> {
        name_of(
            word_at(views(self.adjectives@), adjective),
            word_at(views(self.nouns@), noun),
            token_of(self.alphabet(), picks),
            self.delimiter@,
        )
    }

    /// The settings, all but the random source, are those of `other`.
    pub open spec fn same_settings(&self, other: &Self) -> bool {
        &&& self.adjectives@ == other.adjectives@
        &&& self.nouns@ == other.nouns@
        &&& self.delimiter@ == other.delimiter@
        &&& self.token_length == other.token_length
        &&& self.token_hex == other.token_hex
        &&& self.token_chars@ == other.token_chars@
    }

    /// Creates a new Haikunator with the given parameters.
    pub fn new(params: HaikunatorParams<'a, R>) -> (h: Self)
        ensures
            h.rng == params.rng,
            h.adjectives@ == params.adjectives@,
            h.nouns@ == params.nouns@,
            h.delimiter@ == params.delimiter@,
            h.token_length == params.token_length,
            h.token_hex == params.token_hex,
            h.token_chars@ == params.token_chars@,
    {
        Haikunator {
            rng: params.rng,
            adjectives: params.adjectives,
            nouns: params.nouns,
            delimiter: params.delimiter,
            token_length: params.token_length,
            token_hex: params.token_hex,
            token_chars: params.token_chars,
        }
    }

    /// The name that the given draws make: the adjective at `adjective`, the
    /// noun at `noun` and the token of the alphabet's characters at `picks`.
    pub fn haikunate_with(&self, adjective: usize, noun: usize, picks: &[usize]) -> (r: String)
        requires
            self.draws_valid(adjective as int, noun as int, picks@),
        ensures
            r@ == self.name_for(adjective as int, noun as int, picks@),
    {
        let tokens: &str = if self.token_hex {
            "0123456789abcdef"
        } else {
            self.token_chars
        };
        proof {
            reveal_strlit("0123456789abcdef");
            if self.token_hex {
                assert(tokens@ =~= hex_digits());
            }
        }
        let adjective_word: &str = if self.adjectives.len() > 0 {
            self.adjectives[adjective]
        } else {
            ""
        };
        let noun_word: &str = if self.nouns.len() > 0 {
            self.nouns[noun]
        } else {
            ""
        };
        proof {
            reveal_strlit("");
        }
        let token = token_from(tokens, picks);
        assert(adjective_word@ == word_at(views(self.adjectives@), adjective as int));
        assert(noun_word@ == word_at(views(self.nouns@), noun as int));
        assert(token@ == token_of(self.alphabet(), picks@));
        let parts: [&str; 3] = [adjective_word, noun_word, token.as_str()];
        let r = join_non_empty(&parts, self.delimiter);
        assert(views(parts@) =~= seq![
            word_at(views(self.adjectives@), adjective as int),
            word_at(views(self.nouns@), noun as int),
            token_of(self.alphabet(), picks@),
        ]);
        r
    }

    /// Generates a name: draws an adjective, a noun and the token's
    /// characters from the random source, in that order, and joins the
    /// non-empty parts with the delimiter.
    ///
    /// An empty word list or alphabet, or a zero token length, leaves its part
    /// out; where every part is empty the name is the empty string.
    pub fn haikunate(&mut self) -> (r: String)
        ensures
            final(self).same_settings(old(self)),
            exists|adjective: int, noun: int, picks: Seq<usize>|
                old(self).draws_valid(adjective, noun, picks) && r@ == old(self).name_for(
                    adjective,
                    noun,
                    picks,
                ),
    {
        let adjective: usize = if self.adjectives.len() > 0 {
            self.rng.gen_index(self.adjectives.len())
        } else {
            0
        };
        let noun: usize = if self.nouns.len() > 0 {
            self.rng.gen_index(self.nouns.len())
        } else {
            0
        };
        let count: usize = if self.token_hex {
            16
        } else {
            self.token_chars.unicode_len()
        };
        proof {
            reveal_strlit("0123456789abcdef");
        }
        assert(count == self.alphabet().len());
        let mut picks: Vec<usize> = Vec::new();
        if count > 0 {
            let mut i: usize = 0;
            while i < self.token_length
                invariant
                    self.same_settings(old(self)),
                    count > 0,
                    count == self.alphabet().len(),
                    i <= self.token_length,
                    picks@.len() == i,
                    picks_in(self.alphabet(), picks@),
                decreases self.token_length - i,
            {
                let k = self.rng.gen_index(count);
                picks.push(k);
                i = i + 1;
            }
        }
        assert(old(self).draws_valid(adjective as int, noun as int, picks@));
        self.haikunate_with(adjective, noun, picks.as_slice())
    }
}

/// The settings are the default ones: every listed word is a plain word, both
/// lists are non-empty, `"-"` joins the parts, and the token is four
/// characters of the decimal digits.
pub open spec fn default_settings<R: RandomSource>(h: &Haikunator<'_, R>) -> bool {
    &&& h.adjectives@.len() > 0
    &&& h.nouns@.len() > 0
    &&& forall|i: int| 0 <= i < h.adjectives@.len() ==> is_word(#[trigger] h.adjectives@[i]@)
    &&& forall|i: int| 0 <= i < h.nouns@.len() ==> is_word(#[trigger] h.nouns@[i]@)
    &&& h.delimiter@ == seq!['-']
    &&& h.token_length == 4
    &&& !h.token_hex
    &&& h.token_chars@ == seq!['0', '1', '2', '3', '4', '5', '6', '7', '8', '9']
}

impl Default for HaikunatorParams<'static, rand::rngs::ThreadRng> {
    /// The built-in word lists, `"-"`, tokens of four decimal digits, and this
    /// thread's random generator.
    fn default() -> (p: Self)
        ensures
            p.adjectives@ == builtin_adjectives(),
            p.nouns@ == builtin_nouns(),
            p.adjectives@.len() > 0,
            p.nouns@.len() > 0,
            forall|i: int| 0 <= i < p.adjectives@.len() ==> is_word(#[trigger] p.adjectives@[i]@),
            forall|i: int| 0 <= i < p.nouns@.len() ==> is_word(#[trigger] p.nouns@[i]@),
            p.delimiter@ == seq!['-'],
            p.token_length == 4,
            !p.token_hex,
            p.token_chars@ == seq!['0', '1', '2', '3', '4', '5', '6', '7', '8', '9'],
    {
        proof {
            reveal_strlit("-");
            reveal_strlit("0123456789");
        }
        let p = HaikunatorParams {
            rng: rand::thread_rng(),
            adjectives: default_adjectives(),
            nouns: default_nouns(),
            delimiter: "-",
            token_length: 4,
            token_hex: false,
            token_chars: "0123456789",
        };
        assert(p.delimiter@ =~= seq!['-']);
        assert(p.token_chars@ =~= seq!['0', '1', '2', '3', '4', '5', '6', '7', '8', '9']);
        p
    }
}

impl Default for Haikunator<'static, rand::rngs::ThreadRng> {
    /// A Haikunator with the default settings: the same as
    /// `Haikunator::new(HaikunatorParams::default())`.
    fn default() -> (h: Self)
        ensures
            h.adjectives@ == builtin_adjectives(),
            h.nouns@ == builtin_nouns(),
            default_settings(&h),
    {
        Self::new(HaikunatorParams::default())
    }
}

} // verus!
