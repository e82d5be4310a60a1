//! The formatter's output: an append-only sequence of coloured text spans.
use vstd::prelude::*;
use vstd::string::StringSliceAdditionalSpecFns;

verus! {

/// Colour tag of one span. Colours are decorative; consumers may ignore them.
#[derive(Debug, Clone, Copy, PartialEq, Eq, Structural)]
pub enum Color {
    Red,
    Blue,
    Magenta,
    Purple,
    White,
    Gray20,
    Gray40,
    Green,
}

/// One span of output text with its colour.
#[derive(Debug)]
pub struct Token {
    pub text: Vec<u8>,
    pub color: Color,
}

/// Ordered sequence of coloured spans; concatenating the spans gives the
/// plain-text demangled declaration.
#[derive(Debug)]
pub struct TokenStream {
    pub tokens: Vec<Token>,
}

/// Concatenation of the texts of `toks`.
pub open spec fn flatten(toks: Seq<Token>) -> Seq<u8>
    decreases toks.len(),
{
    if toks.len() == 0 {
        Seq::empty()
    } else {
        flatten(toks.drop_last()) + toks.last().text@
    }
}

/// A span as contracts see it: its bytes and its colour.
pub type Span = (Seq<u8>, Color);

impl View for TokenStream {
    type V = Seq<Span>;

    open spec fn view(&self) -> Seq<Span> {
        spans_of(self.tokens@)
    }
}

/// The spans of `toks`.
pub open spec fn spans_of(toks: Seq<Token>) -> Seq<Span> {
    toks.map_values(|t: Token| (t.text@, t.color))
}

/// Concatenation of the texts of `sp`.
pub open spec fn flatten_spans(sp: Seq<Span>) -> Seq<u8>
    decreases sp.len(),
{
    if sp.len() == 0 {
        Seq::empty()
    } else {
        flatten_spans(sp.drop_last()) + sp.last().0
    }
}

/// The text of tokens is the text of their spans.
pub proof fn lemma_flatten_spans(toks: Seq<Token>)
    ensures
        flatten(toks) == flatten_spans(spans_of(toks)),
    decreases toks.len(),
{
    if toks.len() > 0 {
        lemma_flatten_spans(toks.drop_last());
        assert(spans_of(toks.drop_last()) =~= spans_of(toks).drop_last());
    }
}

/// A stream of one fixed span.
pub open spec fn tok(s: &str, c: Color) -> Seq<Span> {
    seq![(s.spec_bytes(), c)]
}

/// `a` is an initial segment of `b`.
pub open spec fn is_prefix<T>(a: Seq<T>, b: Seq<T>) -> bool {
    a.len() <= b.len() && forall|i: int| 0 <= i < a.len() ==> #[trigger] a[i] == b[i]
}

impl TokenStream {
    pub fn new() -> (r: TokenStream)
        ensures
            r.tokens@.len() == 0,
            r@ == Seq::<Span>::empty(),
    {
        let r = TokenStream { tokens: Vec::new() };
        proof {
            assert(r@ =~= Seq::<Span>::empty());
        }
        r
    }

    /// Appends a fixed piece of text.
    pub fn push(&mut self, s: &str, color: Color)
        ensures
            final(self).tokens@.len() == old(self).tokens@.len() + 1,
            is_prefix(old(self).tokens@, final(self).tokens@),
            final(self).tokens@.last().text@ == s.spec_bytes(),
            final(self).tokens@.last().color == color,
            final(self)@ == old(self)@ + tok(s, color),
    {
        let text = vstd::slice::slice_to_vec(s.as_bytes());
        self.tokens.push(Token { text, color });
        proof {
            assert(self@ =~= old(self)@ + tok(s, color));
        }
    }

    /// Appends text that was computed at run time.
    pub fn push_bytes(&mut self, text: Vec<u8>, color: Color)
        ensures
            final(self).tokens@.len() == old(self).tokens@.len() + 1,
            is_prefix(old(self).tokens@, final(self).tokens@),
            final(self).tokens@.last().text@ == text@,
            final(self).tokens@.last().color == color,
            final(self)@ == old(self)@ + seq![(text@, color)],
    {
        let ghost t = text@;
        self.tokens.push(Token { text, color });
        proof {
            assert(self@ =~= old(self)@ + seq![(t, color)]);
        }
    }

    /// Number of spans.
    pub fn len(&self) -> (r: usize)
        ensures
            r == self.tokens@.len(),
    {
        self.tokens.len()
    }

    /// The plain text: all spans concatenated, colours dropped.
    pub fn to_bytes(&self) -> (r: Vec<u8>)
        ensures
            r@ == flatten(self.tokens@),
            r@ == flatten_spans(self@),
    {
        let mut out: Vec<u8> = Vec::new();
        let mut i: usize = 0;
        while i < self.tokens.len()
            invariant
                i <= self.tokens@.len(),
                out@ == flatten(self.tokens@.subrange(0, i as int)),
            decreases self.tokens@.len() - i,
        {
            let text = &self.tokens[i].text;
            let mut j: usize = 0;
            let ghost before = out@;
            while j < text.len()
                invariant
                    j <= text@.len(),
                    out@ == before + text@.subrange(0, j as int),
                decreases text@.len() - j,
            {
                out.push(text[j]);
                proof {
                    assert(text@.subrange(0, j + 1) =~= text@.subrange(0, j as int).push(text@[j as int]));
                }
                j += 1;
            }
            proof {
                let s = self.tokens@.subrange(0, i + 1);
                assert(s.drop_last() =~= self.tokens@.subrange(0, i as int));
                assert(text@.subrange(0, j as int) =~= text@);
            }
            i += 1;
        }
        proof {
            assert(self.tokens@.subrange(0, i as int) =~= self.tokens@);
            lemma_flatten_spans(self.tokens@);
        }
        out
    }
}

} // verus!
