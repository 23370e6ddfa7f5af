//! The tokenizer of the search core, in its Unicode mode: every character of
//! the input is one token, carrying the byte span it occupies in the input.
//! The same function runs at index build and at query parse, so the two can
//! never diverge; it is pure, so identical input always yields identical
//! tokens.

use vstd::prelude::*;

verus! {

/// One token: a single character of the input and the byte span it covers.
#[derive(Clone, Copy, Debug, PartialEq, Eq, Structural)]
pub struct TokenSpan {
    pub ch: char,
    pub byte_start: usize,
    pub byte_end: usize,
}

/// How many bytes UTF-8 spends on one character.
pub open spec fn char_utf8_len(c: char) -> int {
    if (c as u32) < 0x80 {
        1
    } else if (c as u32) < 0x800 {
        2
    } else if (c as u32) < 0x10000 {
        3
    } else {
        4
    }
}

/// The byte offset at which character `i` of `s` starts.
pub open spec fn byte_offset(s: Seq<char>, i: int) -> int
    decreases i,
{
    if i <= 0 {
        0
    } else {
        byte_offset(s, i - 1) + char_utf8_len(s[i - 1])
    }
}

/// The token character `i` of `s` becomes.
pub open spec fn span_of(s: Seq<char>, i: int) -> TokenSpan {
    TokenSpan {
        ch: s[i],
        byte_start: byte_offset(s, i) as usize,
        byte_end: byte_offset(s, i + 1) as usize,
    }
}

/// The token sequence of `s`: one token per character, with consecutive
/// byte spans starting at offset zero.
pub open spec fn tokens_model(s: Seq<char>) -> Seq<TokenSpan>
    decreases s.len(),
{
    if s.len() == 0 {
        Seq::<TokenSpan>::empty()
    } else {
        tokens_model(s.drop_last()).push(span_of(s, s.len() - 1))
    }
}

/// A character spends one to four bytes, so the offset of character `i`
/// lies between `i` and `4 * i`.
pub proof fn lemma_byte_offset_bound(s: Seq<char>, i: int)
    requires
        0 <= i,
    ensures
        i <= byte_offset(s, i) <= 4 * i,
    decreases i,
{
    if i > 0 {
        lemma_byte_offset_bound(s, i - 1);
    }
}

/// The offset of character `i` reads only the characters before it.
proof fn lemma_byte_offset_prefix(s1: Seq<char>, s2: Seq<char>, i: int)
    requires
        0 <= i,
        forall|j: int| 0 <= j < i ==> s1[j] == s2[j],
    ensures
        byte_offset(s1, i) == byte_offset(s2, i),
    decreases i,
{
    if i > 0 {
        lemma_byte_offset_prefix(s1, s2, i - 1);
    }
}

/// Token `i` of the model is the span of character `i`.
pub proof fn lemma_tokens_model_index(s: Seq<char>)
    ensures
        tokens_model(s).len() == s.len(),
        forall|i: int| 0 <= i < s.len() ==> #[trigger] tokens_model(s)[i] == span_of(s, i),
    decreases s.len(),
{
    if s.len() > 0 {
        let s0 = s.drop_last();
        lemma_tokens_model_index(s0);
        assert forall|i: int| 0 <= i < s.len() implies #[trigger] tokens_model(s)[i] == span_of(
            s,
            i,
        ) by {
            if i < s.len() - 1 {
                assert(tokens_model(s)[i] == tokens_model(s0)[i]);
                lemma_byte_offset_prefix(s0, s, i);
                lemma_byte_offset_prefix(s0, s, i + 1);
                assert(span_of(s0, i) == span_of(s, i));
            }
        }
    }
}

/// Returns the UTF-8 byte width of one character.
fn char_byte_len(c: char) -> (r: usize)
    ensures
        r == char_utf8_len(c),
{
    let u = c as u32;
    if u < 0x80 {
        1
    } else if u < 0x800 {
        2
    } else if u < 0x10000 {
        3
    } else {
        4
    }
}

/// Tokenizes `text` in Unicode mode: one token per character, each with the
/// byte span it occupies, in input order.
///
/// The result is a function of the text alone, so tokenization at index
/// build and at query parse always agree.
pub fn tokenize(text: &str) -> (r: Vec<TokenSpan>)
    requires
        4 * text@.len() <= usize::MAX,
    ensures
        r@ == tokens_model(text@),
{
    proof {
        lemma_tokens_model_index(text@);
    }
    let n = text.unicode_len();
    let mut out: Vec<TokenSpan> = Vec::new();
    let mut i: usize = 0;
    let mut off: usize = 0;
    while i < n
        invariant
            n == text@.len(),
            4 * n <= usize::MAX,
            0 <= i <= n,
            off == byte_offset(text@, i as int),
            tokens_model(text@).len() == n,
            forall|j: int| 0 <= j < n ==> #[trigger] tokens_model(text@)[j] == span_of(text@, j),
            out@ =~= tokens_model(text@).take(i as int),
        decreases n - i,
    {
        let c = text.get_char(i);
        let w = char_byte_len(c);
        proof {
            lemma_byte_offset_bound(text@, i as int);
            lemma_byte_offset_bound(text@, i as int + 1);
            assert(byte_offset(text@, i as int + 1) == byte_offset(text@, i as int)
                + char_utf8_len(text@[i as int]));
        }
        let end = off + w;
        proof {
            assert(tokens_model(text@)[i as int] == (TokenSpan {
                ch: c,
                byte_start: off,
                byte_end: end,
            }));
        }
        out.push(TokenSpan { ch: c, byte_start: off, byte_end: end });
        off = end;
        i += 1;
        proof {
            assert(out@ =~= tokens_model(text@).take(i as int));
        }
    }
    proof {
        assert(out@ =~= tokens_model(text@));
    }
    out
}

/// The token spans tile the input: one token per character, beginning at
/// byte zero, consecutive, and each as wide as its character's UTF-8
/// encoding.
pub proof fn lemma_token_spans_tile(s: Seq<char>)
    requires
        4 * s.len() <= usize::MAX,
    ensures
        tokens_model(s).len() == s.len(),
        s.len() > 0 ==> tokens_model(s)[0].byte_start == 0,
        forall|i: int|
            0 <= i < s.len() ==> (#[trigger] tokens_model(s)[i]).byte_end - tokens_model(
                s,
            )[i].byte_start == char_utf8_len(s[i]),
        forall|i: int|
            0 < i < s.len() ==> (#[trigger] tokens_model(s)[i]).byte_start == tokens_model(
                s,
            )[i - 1].byte_end,
{
    lemma_tokens_model_index(s);
    if s.len() > 0 {
        assert(tokens_model(s)[0] == span_of(s, 0));
    }
    assert forall|i: int| 0 <= i < s.len() implies (#[trigger] tokens_model(s)[i]).byte_end
        - tokens_model(s)[i].byte_start == char_utf8_len(s[i]) by {
        lemma_byte_offset_bound(s, i);
        lemma_byte_offset_bound(s, i + 1);
        assert(byte_offset(s, i + 1) == byte_offset(s, i) + char_utf8_len(s[i]));
        assert(tokens_model(s)[i] == span_of(s, i));
    }
    assert forall|i: int| 0 < i < s.len() implies (#[trigger] tokens_model(s)[i]).byte_start
        == tokens_model(s)[i - 1].byte_end by {
        lemma_byte_offset_bound(s, i);
        lemma_byte_offset_bound(s, i + 1);
        assert(tokens_model(s)[i] == span_of(s, i));
        assert(tokens_model(s)[i - 1] == span_of(s, i - 1));
    }
}

} // verus!
