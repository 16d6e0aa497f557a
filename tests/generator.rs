use tokenipsum::generator::{word_at, VOCABULARY_SIZE};
use tokenipsum::ContentGenerator;

fn in_vocabulary(w: &str) -> bool {
    (0..VOCABULARY_SIZE).any(|i| word_at(i) == w)
}

#[test]
fn test_word_generation() {
    let mut gen = ContentGenerator::new();
    let word = gen.word();
    assert!(!word.is_empty());
    assert!(in_vocabulary(word));
}

#[test]
fn test_sentence_generation() {
    let mut gen = ContentGenerator::new();
    let sentence = gen.sentence();
    assert!(sentence.ends_with('.'));
    assert!(sentence.chars().next().unwrap().is_uppercase());
}

#[test]
fn test_stream_chunks() {
    let mut gen = ContentGenerator::new();
    let chunks = gen.stream_chunks(10);
    assert!(!chunks.is_empty());
    assert!(chunks.last().unwrap().ends_with('.'));
}

#[test]
fn test_deterministic_with_seed() {
    let mut gen1 = ContentGenerator::with_seed(42);
    let mut gen2 = ContentGenerator::with_seed(42);

    let words1: Vec<_> = (0..10).map(|_| gen1.word()).collect();
    let words2: Vec<_> = (0..10).map(|_| gen2.word()).collect();

    assert_eq!(words1, words2);
}

#[test]
fn same_seed_gives_same_mixed_output() {
    let mut a = ContentGenerator::with_seed(7);
    let mut b = ContentGenerator::with_seed(7);
    assert_eq!(a.sentence(), b.sentence());
    assert_eq!(a.paragraph(), b.paragraph());
    assert_eq!(a.stream_chunks(17), b.stream_chunks(17));
    assert_eq!(a.tool_call_id(), b.tool_call_id());
    assert_eq!(a.fingerprint(), b.fingerprint());
    assert_eq!(a.words(5), b.words(5));
    assert_eq!(a.rng_state, b.rng_state);
}

#[test]
fn stream_chunks_partition_the_budget() {
    for seed in 0..20u64 {
        let mut gen = ContentGenerator::with_seed(seed);
        let chunks = gen.stream_chunks(10);
        let words: usize = chunks.iter().map(|c| c.split_whitespace().count()).sum();
        assert_eq!(words, 10);
        for c in &chunks {
            let n = c.split_whitespace().count();
            assert!(n >= 1 && n <= 3);
        }
        assert!(chunks.last().unwrap().ends_with('.'));
        assert_eq!(chunks.iter().filter(|c| c.ends_with('.')).count(), 1);
    }
}

#[test]
fn stream_chunks_of_zero_is_empty() {
    let mut gen = ContentGenerator::with_seed(1);
    assert!(gen.stream_chunks(0).is_empty());
}

#[test]
fn stream_chunks_of_one_is_one_word() {
    let mut gen = ContentGenerator::with_seed(3);
    let chunks = gen.stream_chunks(1);
    assert_eq!(chunks.len(), 1);
    assert_eq!(chunks[0].split_whitespace().count(), 1);
    assert!(chunks[0].ends_with('.'));
}

#[test]
fn estimate_tokens_is_quarter_byte_length_rounded_up() {
    assert_eq!(ContentGenerator::estimate_tokens(""), 0);
    assert_eq!(ContentGenerator::estimate_tokens("a"), 1);
    assert_eq!(ContentGenerator::estimate_tokens("abcd"), 1);
    assert_eq!(ContentGenerator::estimate_tokens("abcde"), 2);
    assert_eq!(ContentGenerator::estimate_tokens("Hello world"), 3);
    // six bytes in UTF-8
    assert_eq!(ContentGenerator::estimate_tokens("h\u{e9}llo"), 2);
}

#[test]
fn estimate_tokens_is_monotonic() {
    let mut prev = 0;
    let mut s = String::new();
    for _ in 0..40 {
        s.push('x');
        let e = ContentGenerator::estimate_tokens(&s);
        assert!(e >= prev);
        assert_eq!(e as usize, (s.len() + 3) / 4);
        prev = e;
    }
}

#[test]
fn sentence_has_five_to_fourteen_words() {
    let mut gen = ContentGenerator::with_seed(11);
    for _ in 0..20 {
        let s = gen.sentence();
        let n = s.split_whitespace().count();
        assert!((5..15).contains(&n));
        assert!(s.ends_with('.'));
    }
}

#[test]
fn paragraph_has_two_to_four_sentences() {
    let mut gen = ContentGenerator::with_seed(5);
    for _ in 0..20 {
        let p = gen.paragraph();
        let n = p.matches(". ").count() + 1;
        assert!((2..5).contains(&n));
    }
}

#[test]
fn identifiers_have_their_shapes() {
    let mut gen = ContentGenerator::with_seed(9);
    let id = gen.tool_call_id();
    assert!(id.len() >= 11 && id.len() <= 16);
    assert!(id.chars().all(|c| c.is_ascii_hexdigit() && !c.is_ascii_uppercase()));
    let fp = gen.fingerprint();
    assert!(fp.starts_with("fp_"));
    assert_eq!(fp.len(), 19);
    let before = gen.rng_state;
    let cid = gen.completion_id();
    assert!(cid.starts_with("chatcmpl-"));
    assert_eq!(cid.len(), 45);
    assert_ne!(gen.rng_state, before);
}

#[test]
fn words_are_joined_by_single_spaces() {
    let mut gen = ContentGenerator::with_seed(2);
    let w = gen.words(4);
    assert_eq!(w.split(' ').count(), 4);
    assert!(w.split(' ').all(in_vocabulary));
    assert_eq!(gen.words(0), "");
}

#[test]
fn default_producer_settings() {
    let gen = ContentGenerator::default();
    assert_eq!(gen.tokens_per_chunk, 3);
    assert_eq!(gen.chunk_delay_ms, 20);
}

#[test]
fn completion_id_follows_the_seed() {
    let mut a = ContentGenerator::with_seed(77);
    let mut b = ContentGenerator::with_seed(77);
    let (x, y) = (a.completion_id(), b.completion_id());
    assert_eq!(x, y);
    assert!(x.starts_with("chatcmpl-"));
    assert_eq!(x.len(), 45);
    assert_eq!(&x[9 + 14..9 + 15], "4");
    assert_ne!(a.rng_state, 77);
    let mut c = ContentGenerator::with_seed(78);
    assert_ne!(c.completion_id(), x);
}
