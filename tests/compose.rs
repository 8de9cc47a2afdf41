use haikunator::haikunator::token_from;
use haikunator::name::join_non_empty;
use haikunator::{default_adjectives, default_nouns, Haikunator, HaikunatorParams, RandomSource};
use rand::rngs::{SmallRng, StdRng, ThreadRng};
use rand::SeedableRng;

fn small(
    adjectives: &'static [&'static str],
    nouns: &'static [&'static str],
    delimiter: &'static str,
    token_length: usize,
    token_hex: bool,
    token_chars: &'static str,
    seed: u64,
) -> Haikunator<'static, SmallRng> {
    Haikunator::new(HaikunatorParams {
        rng: SmallRng::seed_from_u64(seed),
        adjectives,
        nouns,
        delimiter,
        token_length,
        token_hex,
        token_chars,
    })
}

#[test]
fn given_draws_make_an_exact_name() {
    let h = small(&["flying", "bubbly"], &["bat", "soda"], "-", 4, false, "0123456789", 1);
    assert_eq!(h.haikunate_with(1, 0, &[4, 8, 2, 1]), "bubbly-bat-4821");
    assert_eq!(h.haikunate_with(0, 1, &[0, 0, 0, 9]), "flying-soda-0009");
}

#[test]
fn hex_alphabet_overrides_token_chars() {
    let h = small(&["flying", "bubbly"], &["bat", "soda"], "-", 2, true, "xyz", 1);
    assert_eq!(h.haikunate_with(1, 0, &[10, 3]), "bubbly-bat-a3");
    assert_eq!(h.haikunate_with(0, 0, &[15, 15]), "flying-bat-ff");
}

#[test]
fn custom_delimiter_joins_every_part() {
    let h = small(&["flying"], &["bat"], "@", 2, false, "0123456789", 1);
    assert_eq!(h.haikunate_with(0, 0, &[0, 7]), "flying@bat@07");
    let h = small(&["flying"], &["bat"], "::", 1, false, "0123456789", 1);
    assert_eq!(h.haikunate_with(0, 0, &[5]), "flying::bat::5");
}

#[test]
fn alphabet_is_indexed_by_character() {
    let h = small(&["flying"], &["bat"], "-", 3, false, "忠犬ハチ公", 1);
    assert_eq!(h.haikunate_with(0, 0, &[0, 4, 2]), "flying-bat-忠公ハ");
}

#[test]
fn zero_token_length_leaves_the_token_out() {
    let h = small(&["flying"], &["bat"], "-", 0, false, "0123456789", 1);
    assert_eq!(h.haikunate_with(0, 0, &[]), "flying-bat");
}

#[test]
fn empty_alphabet_leaves_the_token_out() {
    let mut h = small(&["flying"], &["bat"], "-", 4, false, "", 1);
    assert_eq!(h.haikunate_with(0, 0, &[]), "flying-bat");
    assert_eq!(h.haikunate(), "flying-bat");
}

#[test]
fn empty_lists_leave_their_parts_out() {
    let h = small(&[], &["bat"], "-", 2, false, "0123456789", 1);
    assert_eq!(h.haikunate_with(0, 0, &[1, 2]), "bat-12");
    let h = small(&["flying"], &[], "-", 2, false, "0123456789", 1);
    assert_eq!(h.haikunate_with(0, 0, &[1, 2]), "flying-12");
    let h = small(&[], &[], "-", 2, false, "0123456789", 1);
    assert_eq!(h.haikunate_with(0, 0, &[1, 2]), "12");
}

#[test]
fn all_parts_empty_give_the_empty_name() {
    let mut h = small(&[], &[], "-", 0, false, "0123456789", 1);
    for _ in 0..100 {
        assert_eq!(h.haikunate(), "");
    }
}

#[test]
fn duplicate_alphabet_characters_are_kept() {
    let mut h = small(&["flying"], &["bat"], "-", 6, false, "aa", 3);
    assert_eq!(h.haikunate(), "flying-bat-aaaaaa");
}

#[test]
fn custom_lists_give_their_words() {
    let mut h = small(&["flying", "bubbly"], &["bat", "soda"], "-", 4, false, "0123456789", 9);
    for _ in 0..100 {
        let name = h.haikunate();
        let parts: Vec<&str> = name.split('-').collect();
        assert_eq!(parts.len(), 3);
        assert!(parts[0] == "flying" || parts[0] == "bubbly");
        assert!(parts[1] == "bat" || parts[1] == "soda");
        assert_eq!(parts[2].chars().count(), 4);
    }
}

#[test]
fn same_seed_repeats_the_names() {
    let mut a = small(&["flying", "bubbly"], &["bat", "soda"], "-", 6, false, "0123456789", 7);
    let mut b = small(&["flying", "bubbly"], &["bat", "soda"], "-", 6, false, "0123456789", 7);
    for _ in 0..20 {
        assert_eq!(a.haikunate(), b.haikunate());
    }
    let mut c = Haikunator::new(HaikunatorParams {
        rng: StdRng::seed_from_u64(11),
        adjectives: &["flying", "bubbly"],
        nouns: &["bat", "soda"],
        delimiter: "-",
        token_length: 6,
        token_hex: true,
        token_chars: "",
    });
    let mut d = Haikunator::new(HaikunatorParams {
        rng: StdRng::seed_from_u64(11),
        adjectives: &["flying", "bubbly"],
        nouns: &["bat", "soda"],
        delimiter: "-",
        token_length: 6,
        token_hex: true,
        token_chars: "",
    });
    for _ in 0..20 {
        assert_eq!(c.haikunate(), d.haikunate());
    }
}

#[test]
fn default_settings_hold() {
    let h = Haikunator::default();
    assert_eq!(h.delimiter, "-");
    assert_eq!(h.token_length, 4);
    assert!(!h.token_hex);
    assert_eq!(h.token_chars, "0123456789");
    assert!(h.adjectives.len() > 50);
    assert!(h.nouns.len() > 50);
}

#[test]
fn defaults_hold_the_built_in_lists() {
    let h = Haikunator::default();
    assert_eq!(h.adjectives, default_adjectives());
    assert_eq!(h.nouns, default_nouns());
    assert_ne!(h.adjectives, h.nouns);
    let p = HaikunatorParams::default();
    assert_eq!(p.adjectives, default_adjectives());
    assert_eq!(p.nouns, default_nouns());
    assert!(format!("{:?}", h).contains("token_length: 4"));
}

#[test]
fn default_words_are_plain_words() {
    for w in default_adjectives().iter().chain(default_nouns().iter()) {
        assert!(!w.is_empty());
        assert!(w.chars().all(|c| c.is_ascii_lowercase()));
    }
}

#[test]
fn join_skips_empty_parts() {
    assert_eq!(join_non_empty(&["", "a", "", "b"], "::"), "a::b");
    assert_eq!(join_non_empty(&["x", "y", "z"], "-"), "x-y-z");
    assert_eq!(join_non_empty(&["", "", ""], "-"), "");
    assert_eq!(join_non_empty(&[], "-"), "");
}

#[test]
fn token_takes_characters_at_the_picks() {
    assert_eq!(token_from("abc", &[2, 0, 1, 2]), "cabc");
    assert_eq!(token_from("忠犬ハチ公", &[1, 3]), "犬チ");
    assert_eq!(token_from("", &[]), "");
}

fn spread<R: RandomSource>(rng: &mut R) -> usize {
    let mut seen = [false; 10];
    for _ in 0..500 {
        let k = rng.gen_index(10);
        assert!(k < 10);
        seen[k] = true;
    }
    assert_eq!(rng.gen_index(1), 0);
    seen.iter().filter(|s| **s).count()
}

#[test]
fn random_sources_draw_in_range() {
    assert!(spread(&mut ThreadRng::default()) > 1);
    assert!(spread(&mut SmallRng::seed_from_u64(5)) > 1);
    assert!(spread(&mut StdRng::seed_from_u64(5)) > 1);
}
