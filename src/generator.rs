//! Fake text: filler words, sentences, paragraphs, streaming chunks and
//! identifiers, all drawn from one seeded pseudo-random state.

use vstd::prelude::*;
use vstd::string::*;
use vstd::utf8::encode_utf8;

use crate::random::{draw, entropy_seed, seeded_draw};

verus! {

/// Number of words in the filler vocabulary.
pub const VOCABULARY_SIZE: u64 = 102;

/// The filler vocabulary: general English words and machine-learning terms.
pub open spec fn vocabulary_word(i: int) -> Seq<char> {
    if i == 0 {
        "the"@
    } else if i == 1 {
        "be"@
    } else if i == 2 {
        "to"@
    } else if i == 3 {
        "of"@
    } else if i == 4 {
        "and"@
    } else if i == 5 {
        "a"@
    } else if i == 6 {
        "in"@
    } else if i == 7 {
        "that"@
    } else if i == 8 {
        "have"@
    } else if i == 9 {
        "I"@
    } else if i == 10 {
        "it"@
    } else if i == 11 {
        "for"@
    } else if i == 12 {
        "not"@
    } else if i == 13 {
        "on"@
    } else if i == 14 {
        "with"@
    } else if i == 15 {
        "he"@
    } else if i == 16 {
        "as"@
    } else if i == 17 {
        "you"@
    } else if i == 18 {
        "do"@
    } else if i == 19 {
        "at"@
    } else if i == 20 {
        "this"@
    } else if i == 21 {
        "but"@
    } else if i == 22 {
        "his"@
    } else if i == 23 {
        "by"@
    } else if i == 24 {
        "from"@
    } else if i == 25 {
        "they"@
    } else if i == 26 {
        "we"@
    } else if i == 27 {
        "say"@
    } else if i == 28 {
        "her"@
    } else if i == 29 {
        "she"@
    } else if i == 30 {
        "or"@
    } else if i == 31 {
        "an"@
    } else if i == 32 {
        "will"@
    } else if i == 33 {
        "my"@
    } else if i == 34 {
        "one"@
    } else if i == 35 {
        "all"@
    } else if i == 36 {
        "would"@
    } else if i == 37 {
        "there"@
    } else if i == 38 {
        "their"@
    } else if i == 39 {
        "what"@
    } else if i == 40 {
        "so"@
    } else if i == 41 {
        "up"@
    } else if i == 42 {
        "out"@
    } else if i == 43 {
        "if"@
    } else if i == 44 {
        "about"@
    } else if i == 45 {
        "who"@
    } else if i == 46 {
        "get"@
    } else if i == 47 {
        "which"@
    } else if i == 48 {
        "go"@
    } else if i == 49 {
        "me"@
    } else if i == 50 {
        "when"@
    } else if i == 51 {
        "make"@
    } else if i == 52 {
        "can"@
    } else if i == 53 {
        "like"@
    } else if i == 54 {
        "time"@
    } else if i == 55 {
        "no"@
    } else if i == 56 {
        "just"@
    } else if i == 57 {
        "him"@
    } else if i == 58 {
        "know"@
    } else if i == 59 {
        "take"@
    } else if i == 60 {
        "people"@
    } else if i == 61 {
        "into"@
    } else if i == 62 {
        "year"@
    } else if i == 63 {
        "your"@
    } else if i == 64 {
        "good"@
    } else if i == 65 {
        "some"@
    } else if i == 66 {
        "could"@
    } else if i == 67 {
        "them"@
    } else if i == 68 {
        "see"@
    } else if i == 69 {
        "other"@
    } else if i == 70 {
        "than"@
    } else if i == 71 {
        "then"@
    } else if i == 72 {
        "now"@
    } else if i == 73 {
        "look"@
    } else if i == 74 {
        "only"@
    } else if i == 75 {
        "come"@
    } else if i == 76 {
        "its"@
    } else if i == 77 {
        "over"@
    } else if i == 78 {
        "think"@
    } else if i == 79 {
        "also"@
    } else if i == 80 {
        "AI"@
    } else if i == 81 {
        "model"@
    } else if i == 82 {
        "neural"@
    } else if i == 83 {
        "network"@
    } else if i == 84 {
        "learning"@
    } else if i == 85 {
        "data"@
    } else if i == 86 {
        "training"@
    } else if i == 87 {
        "inference"@
    } else if i == 88 {
        "token"@
    } else if i == 89 {
        "embedding"@
    } else if i == 90 {
        "transformer"@
    } else if i == 91 {
        "attention"@
    } else if i == 92 {
        "layer"@
    } else if i == 93 {
        "output"@
    } else if i == 94 {
        "input"@
    } else if i == 95 {
        "parameter"@
    } else if i == 96 {
        "weight"@
    } else if i == 97 {
        "gradient"@
    } else if i == 98 {
        "optimization"@
    } else if i == 99 {
        "loss"@
    } else if i == 100 {
        "accuracy"@
    } else {
        "batch"@
    }
}

/// The vocabulary word at position `i`.
pub fn word_at(i: u64) -> (r: &'static str)
    requires
        i < VOCABULARY_SIZE,
    ensures
        r@ == vocabulary_word(i as int),
{
    match i {
        0 => "the",
        1 => "be",
        2 => "to",
        3 => "of",
        4 => "and",
        5 => "a",
        6 => "in",
        7 => "that",
        8 => "have",
        9 => "I",
        10 => "it",
        11 => "for",
        12 => "not",
        13 => "on",
        14 => "with",
        15 => "he",
        16 => "as",
        17 => "you",
        18 => "do",
        19 => "at",
        20 => "this",
        21 => "but",
        22 => "his",
        23 => "by",
        24 => "from",
        25 => "they",
        26 => "we",
        27 => "say",
        28 => "her",
        29 => "she",
        30 => "or",
        31 => "an",
        32 => "will",
        33 => "my",
        34 => "one",
        35 => "all",
        36 => "would",
        37 => "there",
        38 => "their",
        39 => "what",
        40 => "so",
        41 => "up",
        42 => "out",
        43 => "if",
        44 => "about",
        45 => "who",
        46 => "get",
        47 => "which",
        48 => "go",
        49 => "me",
        50 => "when",
        51 => "make",
        52 => "can",
        53 => "like",
        54 => "time",
        55 => "no",
        56 => "just",
        57 => "him",
        58 => "know",
        59 => "take",
        60 => "people",
        61 => "into",
        62 => "year",
        63 => "your",
        64 => "good",
        65 => "some",
        66 => "could",
        67 => "them",
        68 => "see",
        69 => "other",
        70 => "than",
        71 => "then",
        72 => "now",
        73 => "look",
        74 => "only",
        75 => "come",
        76 => "its",
        77 => "over",
        78 => "think",
        79 => "also",
        80 => "AI",
        81 => "model",
        82 => "neural",
        83 => "network",
        84 => "learning",
        85 => "data",
        86 => "training",
        87 => "inference",
        88 => "token",
        89 => "embedding",
        90 => "transformer",
        91 => "attention",
        92 => "layer",
        93 => "output",
        94 => "input",
        95 => "parameter",
        96 => "weight",
        97 => "gradient",
        98 => "optimization",
        99 => "loss",
        100 => "accuracy",
        _ => "batch",
    }
}

/// Lowercase hexadecimal digit of `d`, for `d < 16`.
pub open spec fn hex_digit(d: nat) -> char {
    if d == 0 {
        '0'
    } else if d == 1 {
        '1'
    } else if d == 2 {
        '2'
    } else if d == 3 {
        '3'
    } else if d == 4 {
        '4'
    } else if d == 5 {
        '5'
    } else if d == 6 {
        '6'
    } else if d == 7 {
        '7'
    } else if d == 8 {
        '8'
    } else if d == 9 {
        '9'
    } else if d == 10 {
        'a'
    } else if d == 11 {
        'b'
    } else if d == 12 {
        'c'
    } else if d == 13 {
        'd'
    } else if d == 14 {
        'e'
    } else {
        'f'
    }
}

/// Lowercase hexadecimal digits of `v`, most significant first, no leading zeros.
pub open spec fn hex_digits(v: nat) -> Seq<char>
    decreases v,
{
    if v < 16 {
        seq![hex_digit(v)]
    } else {
        hex_digits(v / 16).push(hex_digit(v % 16))
    }
}

/// `s` with zeros in front, up to `width` characters.
pub open spec fn zero_padded(s: Seq<char>, width: nat) -> Seq<char> {
    if s.len() >= width {
        s
    } else {
        Seq::new((width - s.len()) as nat, |i: int| '0') + s
    }
}

/// Padded hex digits are never empty.
pub proof fn lemma_padded_hex_not_empty(v: nat, width: nat)
    ensures
        zero_padded(hex_digits(v), width).len() >= 1,
        zero_padded(hex_digits(v), width).len() >= width,
    decreases v,
{
    if v >= 16 {
        lemma_padded_hex_not_empty(v / 16, width);
    }
}

/// Relies on std's `{:0w$x}` formatting: lowercase hex digits of `v`, padded
/// with zeros to `width` characters.
#[verifier::external_body]
fn lower_hex(v: u64, width: usize) -> (r: String)
    ensures
        r@ == zero_padded(hex_digits(v as nat), width as nat),
{
    format!("{:0width$x}", v, width = width)
}

/// Two lowercase hex digits of a byte value.
pub fn hex_pair(v: u64) -> (r: String)
    requires
        v < 256,
    ensures
        r@ == zero_padded(hex_digits(v as nat), 2),
        r@.len() == 2,
{
    let r = lower_hex(v, 2);
    proof {
        if v >= 16 {
            assert(hex_digits((v / 16) as nat) == seq![hex_digit((v / 16) as nat)]);
        }
    }
    r
}

/// What uuid's version-4 builder gives, as hyphenated text, for the random
/// bytes of `high` followed by those of `low` (big-endian).
pub uninterp spec fn uuid_text_of(high: u64, low: u64) -> Seq<char>;

/// Relies on uuid::Builder::from_random_bytes, Builder::into_uuid and Uuid's
/// hyphenated Display: the version and variant bits are set on the sixteen
/// given bytes, the rest are kept, and the text has 36 characters. The result
/// depends on the bytes alone.
#[verifier::external_body]
fn uuid_v4_text(high: u64, low: u64) -> (r: String)
    ensures
        r@ == uuid_text_of(high, low),
        r@.len() == 36,
{
    let mut bytes = [0u8; 16];
    bytes[..8].copy_from_slice(&high.to_be_bytes());
    bytes[8..].copy_from_slice(&low.to_be_bytes());
    uuid::Builder::from_random_bytes(bytes).into_uuid().to_string()
}

/// A tool-call identifier drawn from state `s`: at least eleven lowercase hex
/// digits of one full-range draw, and the next state.
pub open spec fn spec_tool_call_id(s: u64) -> (Seq<char>, u64) {
    let (next, v) = seeded_draw(s, 0, u64::MAX);
    (zero_padded(hex_digits(v as nat), 11), next)
}

/// A system fingerprint drawn from state `s`: `fp_` and at least sixteen
/// lowercase hex digits of one full-range draw, and the next state.
pub open spec fn spec_fingerprint(s: u64) -> (Seq<char>, u64) {
    let (next, v) = seeded_draw(s, 0, u64::MAX);
    (seq!['f', 'p', '_'] + zero_padded(hex_digits(v as nat), 16), next)
}

/// A chat completion identifier drawn from state `s`: `chatcmpl-` and the
/// version-4 UUID built from two full-range draws, and the next state.
pub open spec fn spec_completion_id(s: u64) -> (Seq<char>, u64) {
    let (s1, high) = seeded_draw(s, 0, u64::MAX);
    let (s2, low) = seeded_draw(s1, 0, u64::MAX);
    ("chatcmpl-"@ + uuid_text_of(high, low), s2)
}

/// ASCII upper case of one character; other characters are kept.
pub open spec fn ascii_upper(c: char) -> char {
    if 'a' <= c && c <= 'z' {
        ((c as u32) - 32) as char
    } else {
        c
    }
}

/// Relies on str::to_ascii_uppercase: each ASCII lowercase letter is mapped
/// to its upper case, every other character is kept.
#[verifier::external_body]
fn ascii_uppercase(s: &str) -> (r: String)
    ensures
        r@ == s@.map_values(|c: char| ascii_upper(c)),
{
    s.to_ascii_uppercase()
}

/// `s` with its first character in ASCII upper case.
pub open spec fn capitalized(s: Seq<char>) -> Seq<char> {
    if s.len() == 0 {
        s
    } else {
        seq![ascii_upper(s[0])] + s.drop_first()
    }
}

/// Byte length of the UTF-8 encoding of `s`.
pub open spec fn utf8_len(s: Seq<char>) -> nat {
    encode_utf8(s).len()
}

/// `ceil(n / 4)`, saturated at `u32::MAX`.
pub open spec fn quarter_ceil(n: nat) -> nat {
    if (n + 3) / 4 > u32::MAX {
        u32::MAX as nat
    } else {
        (n + 3) / 4
    }
}

/// Token estimate of a text: a quarter of its UTF-8 byte length, rounded up.
pub open spec fn token_estimate(s: Seq<char>) -> nat {
    quarter_ceil(utf8_len(s))
}

/// One filler word drawn from state `s`, and the next state.
pub open spec fn spec_word(s: u64) -> (Seq<char>, u64) {
    let (next, i) = seeded_draw(s, 0, (VOCABULARY_SIZE - 1) as u64);
    (vocabulary_word(i as int), next)
}

/// `count` filler words joined by single spaces, drawn from state `s` in order.
pub open spec fn spec_words(s: u64, count: nat) -> (Seq<char>, u64)
    decreases count,
{
    if count == 0 {
        (Seq::empty(), s)
    } else {
        let (prev, s1) = spec_words(s, (count - 1) as nat);
        let (w, s2) = spec_word(s1);
        (if count == 1 { w } else { prev + " "@ + w }, s2)
    }
}

/// A sentence: 5 to 14 words, the first letter in upper case, a final period.
pub open spec fn spec_sentence(s: u64) -> (Seq<char>, u64) {
    let (s1, count) = seeded_draw(s, 5, 14);
    let (text, s2) = spec_words(s1, count as nat);
    (capitalized(text) + "."@, s2)
}

/// `count` sentences joined by single spaces, drawn from state `s` in order.
pub open spec fn spec_sentences(s: u64, count: nat) -> (Seq<char>, u64)
    decreases count,
{
    if count == 0 {
        (Seq::empty(), s)
    } else {
        let (prev, s1) = spec_sentences(s, (count - 1) as nat);
        let (t, s2) = spec_sentence(s1);
        (if count == 1 { t } else { prev + " "@ + t }, s2)
    }
}

/// A paragraph: 2 to 4 sentences.
pub open spec fn spec_paragraph(s: u64) -> (Seq<char>, u64) {
    let (s1, count) = seeded_draw(s, 2, 4);
    spec_sentences(s1, count as nat)
}

/// Largest chunk size that a draw may give for a `tokens_per_chunk` setting.
pub open spec fn chunk_cap(tokens_per_chunk: nat) -> nat {
    if tokens_per_chunk == 0 {
        1
    } else {
        tokens_per_chunk
    }
}

/// The size of the first chunk cut from `remaining` tokens at state `s`, and
/// the state after its draw.
pub open spec fn spec_chunk_size(s: u64, remaining: nat, tokens_per_chunk: nat) -> (nat, u64) {
    let (s1, d) = seeded_draw(s, 1, chunk_cap(tokens_per_chunk) as u64);
    (if d == 0 { 1 } else if (d as nat) < remaining { d as nat } else { remaining }, s1)
}

/// The sizes of the chunks that partition `remaining` tokens, from state `s`.
pub open spec fn spec_chunk_sizes(s: u64, remaining: nat, tokens_per_chunk: nat) -> Seq<nat>
    decreases remaining,
{
    if remaining == 0 {
        Seq::empty()
    } else {
        let (size, s1) = spec_chunk_size(s, remaining, tokens_per_chunk);
        let (_, s2) = spec_words(s1, size);
        seq![size] + spec_chunk_sizes(s2, (remaining - size) as nat, tokens_per_chunk)
    }
}

/// The chunk texts that partition `remaining` tokens, from state `s`, before
/// the final period is added, and the state after the last draw.
pub open spec fn spec_chunks(s: u64, remaining: nat, tokens_per_chunk: nat) -> (Seq<Seq<char>>, u64)
    decreases remaining,
{
    if remaining == 0 {
        (Seq::empty(), s)
    } else {
        let (size, s1) = spec_chunk_size(s, remaining, tokens_per_chunk);
        let (text, s2) = spec_words(s1, size);
        let (rest, s3) = spec_chunks(s2, (remaining - size) as nat, tokens_per_chunk);
        (seq![text] + rest, s3)
    }
}

/// Sum of a sequence of sizes.
pub open spec fn total_of(sizes: Seq<nat>) -> nat
    decreases sizes.len(),
{
    if sizes.len() == 0 {
        0
    } else {
        sizes[0] + total_of(sizes.drop_first())
    }
}

/// `chunks` with a period appended to the last one.
pub open spec fn with_final_period(chunks: Seq<Seq<char>>) -> Seq<Seq<char>> {
    if chunks.len() == 0 {
        chunks
    } else {
        chunks.update(chunks.len() - 1, chunks.last() + "."@)
    }
}

/// The view of a list of strings.
pub open spec fn texts(v: Seq<String>) -> Seq<Seq<char>> {
    v.map_values(|t: String| t@)
}

/// Producer of fake content. Every draw goes through one pseudo-random state,
/// so that two producers built from the same seed give the same output for
/// the same calls.
pub struct ContentGenerator {
    /// The pseudo-random state that the next draw starts from.
    pub rng_state: u64,
    /// Largest number of words in one streaming chunk.
    pub tokens_per_chunk: usize,
    /// Delay between streamed chunks, in milliseconds.
    pub chunk_delay_ms: u64,
}

impl ContentGenerator {
    /// A producer seeded from system entropy.
    pub fn new() -> (r: Self)
        ensures
            r.tokens_per_chunk == 3,
            r.chunk_delay_ms == 20,
    {
        ContentGenerator { rng_state: entropy_seed(), tokens_per_chunk: 3, chunk_delay_ms: 20 }
    }

    /// A producer whose output is fixed by `seed`.
    pub fn with_seed(seed: u64) -> (r: Self)
        ensures
            r.rng_state == seed,
            r.tokens_per_chunk == 3,
            r.chunk_delay_ms == 20,
    {
        ContentGenerator { rng_state: seed, tokens_per_chunk: 3, chunk_delay_ms: 20 }
    }

    /// One word drawn uniformly from the vocabulary.
    pub fn word(&mut self) -> (r: &'static str)
        ensures
            (r@, final(self).rng_state) == spec_word(old(self).rng_state),
            final(self).tokens_per_chunk == old(self).tokens_per_chunk,
            final(self).chunk_delay_ms == old(self).chunk_delay_ms,
    {
        let (next, i) = draw(self.rng_state, 0, VOCABULARY_SIZE - 1);
        self.rng_state = next;
        word_at(i)
    }

    /// `count` words joined by single spaces.
    pub fn words(&mut self, count: usize) -> (r: String)
        ensures
            (r@, final(self).rng_state) == spec_words(old(self).rng_state, count as nat),
            final(self).tokens_per_chunk == old(self).tokens_per_chunk,
            final(self).chunk_delay_ms == old(self).chunk_delay_ms,
    {
        let ghost s0 = self.rng_state;
        let mut out = String::new();
        let mut k: usize = 0;
        while k < count
            invariant
                k <= count,
                (out@, self.rng_state) == spec_words(s0, k as nat),
                self.tokens_per_chunk == old(self).tokens_per_chunk,
                self.chunk_delay_ms == old(self).chunk_delay_ms,
            decreases count - k,
        {
            let w = self.word();
            if k > 0 {
                out.append(" ");
            }
            out.append(w);
            proof {
                if k == 0 {
                    assert(out@ =~= w@);
                }
            }
            k = k + 1;
        }
        out
    }

    /// A sentence of 5 to 14 words with its first letter in upper case and a
    /// final period.
    pub fn sentence(&mut self) -> (r: String)
        ensures
            (r@, final(self).rng_state) == spec_sentence(old(self).rng_state),
            5 <= seeded_draw(old(self).rng_state, 5, 14).1 <= 14,
            r@.len() > 0,
            final(self).tokens_per_chunk == old(self).tokens_per_chunk,
            final(self).chunk_delay_ms == old(self).chunk_delay_ms,
    {
        let (next, count) = draw(self.rng_state, 5, 14);
        self.rng_state = next;
        let text = self.words(count as usize);
        let mut out = capitalize(text.as_str());
        out.append(".");
        proof {
            reveal_strlit(".");
        }
        out
    }

    /// A paragraph of 2 to 4 sentences joined by single spaces.
    pub fn paragraph(&mut self) -> (r: String)
        ensures
            (r@, final(self).rng_state) == spec_paragraph(old(self).rng_state),
            2 <= seeded_draw(old(self).rng_state, 2, 4).1 <= 4,
            r@.len() > 0,
            final(self).tokens_per_chunk == old(self).tokens_per_chunk,
            final(self).chunk_delay_ms == old(self).chunk_delay_ms,
    {
        let (next, count) = draw(self.rng_state, 2, 4);
        self.rng_state = next;
        let ghost s1 = next;
        let mut out = String::new();
        let mut k: u64 = 0;
        while k < count
            invariant
                k <= count,
                (out@, self.rng_state) == spec_sentences(s1, k as nat),
                k > 0 ==> out@.len() > 0,
                self.tokens_per_chunk == old(self).tokens_per_chunk,
                self.chunk_delay_ms == old(self).chunk_delay_ms,
            decreases count - k,
        {
            let t = self.sentence();
            if k > 0 {
                out.append(" ");
            }
            out.append(t.as_str());
            proof {
                if k == 0 {
                    assert(out@ =~= t@);
                }
            }
            k = k + 1;
        }
        out
    }

    /// Splits a budget of `total_tokens` words into chunks of 1 to
    /// `tokens_per_chunk` words each (at least 1), in order, the last one
    /// ending with a period. A budget of zero gives no chunk.
    pub fn stream_chunks(&mut self, total_tokens: usize) -> (r: Vec<String>)
        ensures
            texts(r@) == with_final_period(
                spec_chunks(old(self).rng_state, total_tokens as nat, old(self).tokens_per_chunk as nat).0,
            ),
            final(self).rng_state == spec_chunks(
                old(self).rng_state,
                total_tokens as nat,
                old(self).tokens_per_chunk as nat,
            ).1,
            final(self).tokens_per_chunk == old(self).tokens_per_chunk,
            final(self).chunk_delay_ms == old(self).chunk_delay_ms,
    {
        let ghost s0 = self.rng_state;
        let ghost tpc = self.tokens_per_chunk as nat;
        let cap: u64 = if self.tokens_per_chunk == 0 { 1 } else { self.tokens_per_chunk as u64 };
        let mut chunks: Vec<String> = Vec::new();
        let mut remaining = total_tokens;
        while remaining > 0
            invariant
                cap == chunk_cap(tpc),
                tpc == old(self).tokens_per_chunk,
                texts(chunks@) + spec_chunks(self.rng_state, remaining as nat, tpc).0
                    == spec_chunks(s0, total_tokens as nat, tpc).0,
                spec_chunks(self.rng_state, remaining as nat, tpc).1 == spec_chunks(
                    s0,
                    total_tokens as nat,
                    tpc,
                ).1,
                self.tokens_per_chunk == old(self).tokens_per_chunk,
                self.chunk_delay_ms == old(self).chunk_delay_ms,
            decreases remaining,
        {
            let ghost before = self.rng_state;
            let ghost old_chunks = texts(chunks@);
            let (next, d) = draw(self.rng_state, 1, cap);
            self.rng_state = next;
            let size: usize = if d < remaining as u64 { d as usize } else { remaining };
            let text = self.words(size);
            chunks.push(text);
            proof {
                let rest = spec_chunks(self.rng_state, (remaining - size) as nat, tpc).0;
                assert(spec_chunks(before, remaining as nat, tpc).0 == seq![text@] + rest);
                assert(texts(chunks@) =~= old_chunks.push(text@));
                assert(old_chunks + (seq![text@] + rest) =~= old_chunks.push(text@) + rest);
            }
            remaining = remaining - size;
        }
        proof {
            assert(spec_chunks(self.rng_state, 0, tpc).0 =~= Seq::<Seq<char>>::empty());
            assert(texts(chunks@) =~= texts(chunks@) + Seq::<Seq<char>>::empty());
        }
        let n = chunks.len();
        if n > 0 {
            let mut last = chunks.pop().unwrap();
            last.append(".");
            chunks.push(last);
            proof {
                assert(texts(chunks@) =~= with_final_period(spec_chunks(s0, total_tokens as nat, tpc).0));
            }
        }
        chunks
    }

    /// An identifier for a tool call: eleven lowercase hex digits of one draw.
    pub fn tool_call_id(&mut self) -> (r: String)
        ensures
            (r@, final(self).rng_state) == spec_tool_call_id(old(self).rng_state),
            r@.len() >= 11,
            final(self).tokens_per_chunk == old(self).tokens_per_chunk,
            final(self).chunk_delay_ms == old(self).chunk_delay_ms,
    {
        let (next, v) = draw(self.rng_state, 0, u64::MAX);
        self.rng_state = next;
        proof {
            lemma_padded_hex_not_empty(v as nat, 11);
        }
        lower_hex(v, 11)
    }

    /// A chat completion identifier: `chatcmpl-` and a version-4 UUID whose
    /// random bits come from two draws.
    pub fn completion_id(&mut self) -> (r: String)
        ensures
            (r@, final(self).rng_state) == spec_completion_id(old(self).rng_state),
            r@.len() == 45,
            r@.subrange(0, 9) == "chatcmpl-"@,
            final(self).tokens_per_chunk == old(self).tokens_per_chunk,
            final(self).chunk_delay_ms == old(self).chunk_delay_ms,
    {
        let (s1, high) = draw(self.rng_state, 0, u64::MAX);
        let (s2, low) = draw(s1, 0, u64::MAX);
        self.rng_state = s2;
        let mut out = String::from_str("chatcmpl-");
        let id = uuid_v4_text(high, low);
        out.append(id.as_str());
        proof {
            reveal_strlit("chatcmpl-");
            assert(out@.subrange(0, 9) =~= "chatcmpl-"@);
        }
        out
    }

    /// A system fingerprint: `fp_` and sixteen lowercase hex digits of one draw.
    pub fn fingerprint(&mut self) -> (r: String)
        ensures
            (r@, final(self).rng_state) == spec_fingerprint(old(self).rng_state),
            r@.subrange(0, 3) == "fp_"@,
            final(self).tokens_per_chunk == old(self).tokens_per_chunk,
            final(self).chunk_delay_ms == old(self).chunk_delay_ms,
    {
        let (next, v) = draw(self.rng_state, 0, u64::MAX);
        self.rng_state = next;
        let mut out = String::from_str("fp_");
        let digits = lower_hex(v, 16);
        out.append(digits.as_str());
        proof {
            reveal_strlit("fp_");
            assert("fp_"@ =~= seq!['f', 'p', '_']);
            assert(out@.subrange(0, 3) =~= "fp_"@);
        }
        out
    }

    /// Token estimate of `text`: its UTF-8 byte length divided by four,
    /// rounded up (saturated at `u32::MAX`).
    pub fn estimate_tokens(text: &str) -> (r: u32)
        ensures
            r as nat == token_estimate(text@),
    {
        let n = text.as_bytes().len();
        assert(n as nat == utf8_len(text@));
        let q: usize = n / 4 + if n % 4 == 0 { 0 } else { 1 };
        assert(q == (n + 3) / 4) by (nonlinear_arith)
            requires q == n / 4 + if n % 4 == 0 { 0int } else { 1int };
        if q > u32::MAX as usize {
            u32::MAX
        } else {
            q as u32
        }
    }
}

impl Default for ContentGenerator {
    /// A producer seeded from system entropy.
    fn default() -> (r: Self)
        ensures
            r.tokens_per_chunk == 3,
            r.chunk_delay_ms == 20,
    {
        ContentGenerator::new()
    }
}

/// Two producers in the same state (for instance both made by `with_seed`
/// from one seed) give the same result for each call and are left in the
/// same state, so equal sequences of calls on them give equal outputs.
pub proof fn lemma_same_state_same_output(a: ContentGenerator, b: ContentGenerator, count: nat, total: nat)
    requires
        a.rng_state == b.rng_state,
        a.tokens_per_chunk == b.tokens_per_chunk,
    ensures
        spec_word(a.rng_state) == spec_word(b.rng_state),
        spec_words(a.rng_state, count) == spec_words(b.rng_state, count),
        spec_sentence(a.rng_state) == spec_sentence(b.rng_state),
        spec_paragraph(a.rng_state) == spec_paragraph(b.rng_state),
        spec_chunks(a.rng_state, total, a.tokens_per_chunk as nat) == spec_chunks(
            b.rng_state,
            total,
            b.tokens_per_chunk as nat,
        ),
        seeded_draw(a.rng_state, 0, u64::MAX) == seeded_draw(b.rng_state, 0, u64::MAX),
{
}

/// The chunks of a budget partition it: there is one size per chunk, every
/// size is at least one word, and the sizes add up to the budget. A zero
/// budget gives no chunk; any other gives at least one, and the last one, as
/// `stream_chunks` returns it, ends with a period.
pub proof fn lemma_chunks_partition_budget(s: u64, total: nat, tokens_per_chunk: nat)
    ensures
        spec_chunk_sizes(s, total, tokens_per_chunk).len() == spec_chunks(s, total, tokens_per_chunk).0.len(),
        total_of(spec_chunk_sizes(s, total, tokens_per_chunk)) == total,
        forall|k: int|
            0 <= k < spec_chunk_sizes(s, total, tokens_per_chunk).len() ==> #[trigger] spec_chunk_sizes(
                s,
                total,
                tokens_per_chunk,
            )[k] >= 1,
        total == 0 <==> spec_chunks(s, total, tokens_per_chunk).0.len() == 0,
        total > 0 ==> with_final_period(spec_chunks(s, total, tokens_per_chunk).0).last().last() == '.',
    decreases total,
{
    if total > 0 {
        let (size, s1) = spec_chunk_size(s, total, tokens_per_chunk);
        let (_, s2) = spec_words(s1, size);
        let rest = (total - size) as nat;
        lemma_chunks_partition_budget(s2, rest, tokens_per_chunk);
        let sizes = spec_chunk_sizes(s, total, tokens_per_chunk);
        assert(sizes.drop_first() =~= spec_chunk_sizes(s2, rest, tokens_per_chunk));
        assert forall|k: int| 0 <= k < sizes.len() implies #[trigger] sizes[k] >= 1 by {
            if k > 0 {
                assert(sizes[k] == spec_chunk_sizes(s2, rest, tokens_per_chunk)[k - 1]);
            }
        }
        reveal_strlit(".");
    }
}

/// Whether `w` is a non-empty word without spaces or periods.
pub open spec fn plain_word(w: Seq<char>) -> bool {
    w.len() > 0 && forall|k: int| 0 <= k < w.len() ==> #[trigger] w[k] != ' ' && w[k] != '.'
}

/// Every vocabulary word is non-empty and holds no space and no period.
pub proof fn lemma_vocabulary_word_plain(i: int)
    ensures
        plain_word(vocabulary_word(i)),
{
    if i == 0 {
        reveal_strlit("the");
    } else if i == 1 {
        reveal_strlit("be");
    } else if i == 2 {
        reveal_strlit("to");
    } else if i == 3 {
        reveal_strlit("of");
    } else if i == 4 {
        reveal_strlit("and");
    } else if i == 5 {
        reveal_strlit("a");
    } else if i == 6 {
        reveal_strlit("in");
    } else if i == 7 {
        reveal_strlit("that");
    } else if i == 8 {
        reveal_strlit("have");
    } else if i == 9 {
        reveal_strlit("I");
    } else if i == 10 {
        reveal_strlit("it");
    } else if i == 11 {
        reveal_strlit("for");
    } else if i == 12 {
        reveal_strlit("not");
    } else if i == 13 {
        reveal_strlit("on");
    } else if i == 14 {
        reveal_strlit("with");
    } else if i == 15 {
        reveal_strlit("he");
    } else if i == 16 {
        reveal_strlit("as");
    } else if i == 17 {
        reveal_strlit("you");
    } else if i == 18 {
        reveal_strlit("do");
    } else if i == 19 {
        reveal_strlit("at");
    } else if i == 20 {
        reveal_strlit("this");
    } else if i == 21 {
        reveal_strlit("but");
    } else if i == 22 {
        reveal_strlit("his");
    } else if i == 23 {
        reveal_strlit("by");
    } else if i == 24 {
        reveal_strlit("from");
    } else if i == 25 {
        reveal_strlit("they");
    } else if i == 26 {
        reveal_strlit("we");
    } else if i == 27 {
        reveal_strlit("say");
    } else if i == 28 {
        reveal_strlit("her");
    } else if i == 29 {
        reveal_strlit("she");
    } else if i == 30 {
        reveal_strlit("or");
    } else if i == 31 {
        reveal_strlit("an");
    } else if i == 32 {
        reveal_strlit("will");
    } else if i == 33 {
        reveal_strlit("my");
    } else if i == 34 {
        reveal_strlit("one");
    } else if i == 35 {
        reveal_strlit("all");
    } else if i == 36 {
        reveal_strlit("would");
    } else if i == 37 {
        reveal_strlit("there");
    } else if i == 38 {
        reveal_strlit("their");
    } else if i == 39 {
        reveal_strlit("what");
    } else if i == 40 {
        reveal_strlit("so");
    } else if i == 41 {
        reveal_strlit("up");
    } else if i == 42 {
        reveal_strlit("out");
    } else if i == 43 {
        reveal_strlit("if");
    } else if i == 44 {
        reveal_strlit("about");
    } else if i == 45 {
        reveal_strlit("who");
    } else if i == 46 {
        reveal_strlit("get");
    } else if i == 47 {
        reveal_strlit("which");
    } else if i == 48 {
        reveal_strlit("go");
    } else if i == 49 {
        reveal_strlit("me");
    } else if i == 50 {
        reveal_strlit("when");
    } else if i == 51 {
        reveal_strlit("make");
    } else if i == 52 {
        reveal_strlit("can");
    } else if i == 53 {
        reveal_strlit("like");
    } else if i == 54 {
        reveal_strlit("time");
    } else if i == 55 {
        reveal_strlit("no");
    } else if i == 56 {
        reveal_strlit("just");
    } else if i == 57 {
        reveal_strlit("him");
    } else if i == 58 {
        reveal_strlit("know");
    } else if i == 59 {
        reveal_strlit("take");
    } else if i == 60 {
        reveal_strlit("people");
    } else if i == 61 {
        reveal_strlit("into");
    } else if i == 62 {
        reveal_strlit("year");
    } else if i == 63 {
        reveal_strlit("your");
    } else if i == 64 {
        reveal_strlit("good");
    } else if i == 65 {
        reveal_strlit("some");
    } else if i == 66 {
        reveal_strlit("could");
    } else if i == 67 {
        reveal_strlit("them");
    } else if i == 68 {
        reveal_strlit("see");
    } else if i == 69 {
        reveal_strlit("other");
    } else if i == 70 {
        reveal_strlit("than");
    } else if i == 71 {
        reveal_strlit("then");
    } else if i == 72 {
        reveal_strlit("now");
    } else if i == 73 {
        reveal_strlit("look");
    } else if i == 74 {
        reveal_strlit("only");
    } else if i == 75 {
        reveal_strlit("come");
    } else if i == 76 {
        reveal_strlit("its");
    } else if i == 77 {
        reveal_strlit("over");
    } else if i == 78 {
        reveal_strlit("think");
    } else if i == 79 {
        reveal_strlit("also");
    } else if i == 80 {
        reveal_strlit("AI");
    } else if i == 81 {
        reveal_strlit("model");
    } else if i == 82 {
        reveal_strlit("neural");
    } else if i == 83 {
        reveal_strlit("network");
    } else if i == 84 {
        reveal_strlit("learning");
    } else if i == 85 {
        reveal_strlit("data");
    } else if i == 86 {
        reveal_strlit("training");
    } else if i == 87 {
        reveal_strlit("inference");
    } else if i == 88 {
        reveal_strlit("token");
    } else if i == 89 {
        reveal_strlit("embedding");
    } else if i == 90 {
        reveal_strlit("transformer");
    } else if i == 91 {
        reveal_strlit("attention");
    } else if i == 92 {
        reveal_strlit("layer");
    } else if i == 93 {
        reveal_strlit("output");
    } else if i == 94 {
        reveal_strlit("input");
    } else if i == 95 {
        reveal_strlit("parameter");
    } else if i == 96 {
        reveal_strlit("weight");
    } else if i == 97 {
        reveal_strlit("gradient");
    } else if i == 98 {
        reveal_strlit("optimization");
    } else if i == 99 {
        reveal_strlit("loss");
    } else if i == 100 {
        reveal_strlit("accuracy");
    } else {
        reveal_strlit("batch");
    }
}

/// Number of spaces in `t`.
pub open spec fn spaces_in(t: Seq<char>) -> nat
    decreases t.len(),
{
    if t.len() == 0 {
        0
    } else {
        spaces_in(t.drop_last()) + if t.last() == ' ' {
            1nat
        } else {
            0nat
        }
    }
}

proof fn lemma_spaces_concat(a: Seq<char>, b: Seq<char>)
    ensures
        spaces_in(a + b) == spaces_in(a) + spaces_in(b),
    decreases b.len(),
{
    if b.len() == 0 {
        assert(a + b =~= a);
    } else {
        lemma_spaces_concat(a, b.drop_last());
        assert((a + b).drop_last() =~= a + b.drop_last());
    }
}

proof fn lemma_plain_has_no_spaces(t: Seq<char>)
    requires
        forall|k: int| 0 <= k < t.len() ==> #[trigger] t[k] != ' ',
    ensures
        spaces_in(t) == 0,
    decreases t.len(),
{
    if t.len() > 0 {
        assert forall|k: int| 0 <= k < t.drop_last().len() implies #[trigger] t.drop_last()[k] != ' ' by {
            assert(t.drop_last()[k] == t[k]);
        }
        lemma_plain_has_no_spaces(t.drop_last());
    }
}

/// `count` drawn words hold `count - 1` spaces, so that they are `count`
/// space-separated words; when there is at least one, the text is not empty
/// and does not end with a period.
pub proof fn lemma_words_shape(s: u64, count: nat)
    ensures
        count == 0 ==> spec_words(s, count).0.len() == 0,
        count > 0 ==> spaces_in(spec_words(s, count).0) + 1 == count,
        count > 0 ==> spec_words(s, count).0.len() > 0 && spec_words(s, count).0.last() != '.',
    decreases count,
{
    if count > 0 {
        let (prev, s1) = spec_words(s, (count - 1) as nat);
        let (next, i) = seeded_draw(s1, 0, (VOCABULARY_SIZE - 1) as u64);
        let w = vocabulary_word(i as int);
        lemma_vocabulary_word_plain(i as int);
        lemma_plain_has_no_spaces(w);
        lemma_words_shape(s, (count - 1) as nat);
        if count > 1 {
            reveal_strlit(" ");
            lemma_spaces_concat(prev, " "@);
            lemma_spaces_concat(prev + " "@, w);
            assert(" "@.drop_last() =~= Seq::<char>::empty());
            assert(spaces_in(" "@.drop_last()) == 0);
            assert(" "@.last() == ' ');
            assert(spaces_in(" "@) == 1);
            assert((prev + " "@ + w).last() == w.last());
            assert(spec_words(s, count).0 == prev + " "@ + w);
        } else {
            assert(spec_words(s, count).0 == w);
        }
        assert(w.last() == w[w.len() - 1]);
    }
}

/// Each chunk of a budget is as many words as its size: it holds one space
/// fewer than its size, is not empty, and does not end with a period.
pub proof fn lemma_chunk_words(s: u64, total: nat, tokens_per_chunk: nat)
    ensures
        forall|k: int|
            0 <= k < spec_chunks(s, total, tokens_per_chunk).0.len() ==> spaces_in(
                #[trigger] spec_chunks(s, total, tokens_per_chunk).0[k],
            ) + 1 == spec_chunk_sizes(s, total, tokens_per_chunk)[k] && spec_chunks(
                s,
                total,
                tokens_per_chunk,
            ).0[k].len() > 0 && spec_chunks(s, total, tokens_per_chunk).0[k].last() != '.',
    decreases total,
{
    if total > 0 {
        let (size, s1) = spec_chunk_size(s, total, tokens_per_chunk);
        let (text, s2) = spec_words(s1, size);
        let rest = (total - size) as nat;
        lemma_chunk_words(s2, rest, tokens_per_chunk);
        lemma_words_shape(s1, size);
        lemma_chunks_partition_budget(s2, rest, tokens_per_chunk);
        let chunks = spec_chunks(s, total, tokens_per_chunk).0;
        let sizes = spec_chunk_sizes(s, total, tokens_per_chunk);
        assert(sizes == seq![size] + spec_chunk_sizes(s2, rest, tokens_per_chunk));
        assert(chunks == seq![text] + spec_chunks(s2, rest, tokens_per_chunk).0);
        assert forall|k: int| 0 <= k < chunks.len() implies spaces_in(#[trigger] chunks[k]) + 1 == sizes[k]
            && chunks[k].len() > 0 && chunks[k].last() != '.' by {
            if k > 0 {
                assert(chunks[k] == spec_chunks(s2, rest, tokens_per_chunk).0[k - 1]);
                assert(sizes[k] == spec_chunk_sizes(s2, rest, tokens_per_chunk)[k - 1]);
            }
        }
    }
}

/// As `stream_chunks` returns them, only the last chunk ends with a period,
/// and every chunk still holds as many words as its size.
pub proof fn lemma_only_last_chunk_has_period(s: u64, total: nat, tokens_per_chunk: nat)
    ensures
        forall|k: int|
            0 <= k < spec_chunks(s, total, tokens_per_chunk).0.len() - 1 ==> (#[trigger] with_final_period(
                spec_chunks(s, total, tokens_per_chunk).0,
            )[k]).last() != '.',
        forall|k: int|
            0 <= k < spec_chunks(s, total, tokens_per_chunk).0.len() ==> spaces_in(
                #[trigger] with_final_period(spec_chunks(s, total, tokens_per_chunk).0)[k],
            ) + 1 == spec_chunk_sizes(s, total, tokens_per_chunk)[k],
{
    lemma_chunk_words(s, total, tokens_per_chunk);
    lemma_chunks_partition_budget(s, total, tokens_per_chunk);
    let chunks = spec_chunks(s, total, tokens_per_chunk).0;
    if chunks.len() > 0 {
        let n = chunks.len() - 1;
        reveal_strlit(".");
        lemma_spaces_concat(chunks[n], "."@);
        assert("."@.drop_last() =~= Seq::<char>::empty());
        assert(spaces_in("."@.drop_last()) == 0);
        assert("."@.last() == '.');
        assert(spaces_in("."@) == 0);
        assert(chunks.last() == chunks[n]);
        let fin = with_final_period(chunks);
        assert(fin[n] == chunks[n] + "."@);
        assert forall|k: int| 0 <= k < chunks.len() implies spaces_in(#[trigger] fin[k]) + 1
            == spec_chunk_sizes(s, total, tokens_per_chunk)[k] by {
            if k < n {
                assert(fin[k] == chunks[k]);
            }
        }
    }
}

/// The token estimate is the byte length divided by four, rounded up: for a
/// non-empty text below the saturation point, `4 * (e - 1) < len <= 4 * e`.
pub proof fn lemma_estimate_is_ceiling(s: Seq<char>)
    ensures
        utf8_len(s) == 0 ==> token_estimate(s) == 0,
        token_estimate(s) < u32::MAX ==> utf8_len(s) <= 4 * token_estimate(s),
        token_estimate(s) < u32::MAX && utf8_len(s) > 0 ==> 4 * (token_estimate(s) - 1) < utf8_len(s),
{
}

/// The token estimate never decreases as the byte length grows.
pub proof fn lemma_estimate_monotonic(a: Seq<char>, b: Seq<char>)
    requires
        utf8_len(a) <= utf8_len(b),
    ensures
        token_estimate(a) <= token_estimate(b),
{
}

/// `s` with its first character in ASCII upper case.
fn capitalize(s: &str) -> (r: String)
    ensures
        r@ == capitalized(s@),
{
    if s.is_empty() {
        String::from_str(s)
    } else {
        let n = s.unicode_len();
        let first = s.substring_char(0, 1);
        let rest = s.substring_char(1, n);
        let mut out = ascii_uppercase(first);
        out.append(rest);
        assert(out@ =~= capitalized(s@));
        out
    }
}

} // verus!
