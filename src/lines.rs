//! Demangling the symbol that a disassembly line names in angle brackets,
//! as in `call 401000 <?f@@YAXXZ+0x10>`.
use vstd::prelude::*;
use crate::ast::Symbol;
use crate::render::symbol_toks;
use crate::tokens::flatten_spans;

verus! {

/// `m` is what the symbol text `mangled` becomes: the text of a symbol
/// rendered from it, or `mangled` itself.
pub open spec fn replacement(mangled: Seq<u8>, m: Seq<u8>) -> bool {
    m == mangled || exists|t: Symbol| #[trigger] flatten_spans(symbol_toks(t, mangled)) == m
}

/// Index of the first `b` in `s[i..end]`.
pub open spec fn find_from(s: Seq<u8>, b: u8, i: int, end: int) -> Option<int>
    decreases end - i,
{
    if i >= end {
        None
    } else if s[i] == b {
        Some(i)
    } else {
        find_from(s, b, i + 1, end)
    }
}

/// Where the symbol of a line stands: the index of the `<` before it (never
/// the first byte of the line) and the index where it ends, at the first
/// `+` (an offset) or the `>` after it.
pub open spec fn symbol_span(s: Seq<u8>) -> Option<(int, int)> {
    match find_from(s, '<' as u8, 0, s.len() as int) {
        Some(l) => if l > 0 {
            match find_from(s, '>' as u8, l, s.len() as int) {
                Some(r) => Some(
                    (
                        l,
                        match find_from(s, '+' as u8, l, r) {
                            Some(p) => p,
                            None => r,
                        },
                    ),
                ),
                None => None,
            }
        } else {
            None
        },
        None => None,
    }
}

fn find(s: &[u8], b: u8, from: usize, end: usize) -> (r: Option<usize>)
    requires
        from <= end <= s@.len(),
    ensures
        match find_from(s@, b, from as int, end as int) {
            Some(i) => r == Some(i as usize),
            None => r is None,
        },
    decreases end - from,
{
    if from >= end {
        None
    } else if s[from] == b {
        Some(from)
    } else {
        find(s, b, from + 1, end)
    }
}

proof fn lemma_find_range(s: Seq<u8>, b: u8, i: int, end: int)
    requires
        0 <= i,
        end <= s.len(),
    ensures
        find_from(s, b, i, end) matches Some(k) ==> i <= k < end && s[k] == b,
    decreases end - i,
{
    if i < end && s[i] != b {
        lemma_find_range(s, b, i + 1, end);
    }
}

/// The demangled text of `mangled`, or `mangled` itself when it does not
/// demangle.
fn replace_symbol(mangled: Vec<u8>) -> (r: Vec<u8>)
    ensures
        replacement(mangled@, r@),
{
    let ghost mangled_text = mangled@;
    match crate::demangle(mangled.as_slice()) {
        Some(ts) => {
            let text = ts.to_bytes();
            proof {
                let t = choose|t: Symbol| #[trigger] symbol_toks(t, mangled_text) == ts@;
                assert(flatten_spans(symbol_toks(t, mangled_text)) == text@);
            }
            text
        },
        None => mangled,
    }
}

/// Replaces the symbol that `line` names in angle brackets by its demangled
/// text. A line without such a symbol comes back unchanged; so does the
/// symbol when it does not demangle.
pub fn demangle_line(line: &[u8]) -> (r: Vec<u8>)
    ensures
        match symbol_span(line@) {
            None => r@ == line@,
            Some((l, e)) => {
                let tail = line@.len() - e;
                &&& r@.len() >= l + 1 + tail
                &&& r@.subrange(0, l + 1) == line@.subrange(0, l + 1)
                &&& r@.subrange(r@.len() - tail, r@.len() as int) == line@.subrange(
                    e,
                    line@.len() as int,
                )
                &&& replacement(line@.subrange(l + 1, e), r@.subrange(l + 1, r@.len() - tail))
            },
        },
{
    let n = line.len();
    let left = match find(line, '<' as u8, 0, n) {
        Some(l) => l,
        None => return vstd::slice::slice_to_vec(line),
    };
    proof {
        lemma_find_range(line@, '<' as u8, 0, n as int);
    }
    if left == 0 {
        return vstd::slice::slice_to_vec(line);
    }
    let right = match find(line, '>' as u8, left, n) {
        Some(r) => r,
        None => return vstd::slice::slice_to_vec(line),
    };
    proof {
        lemma_find_range(line@, '>' as u8, left as int, n as int);
        lemma_find_range(line@, '+' as u8, left as int, right as int);
    }
    let end = match find(line, '+' as u8, left, right) {
        Some(p) => p,
        None => right,
    };
    // The `<` itself is neither `>` nor `+`, so the symbol starts after it.
    assert(left < end);
    let mut mangled: Vec<u8> = Vec::new();
    let mut i = left + 1;
    while i < end
        invariant
            left + 1 <= i <= end <= n == line@.len(),
            mangled@ == line@.subrange(left + 1, i as int),
        decreases end - i,
    {
        mangled.push(line[i]);
        proof {
            assert(line@.subrange(left + 1, i + 1) =~= line@.subrange(left + 1, i as int).push(
                line@[i as int],
            ));
        }
        i += 1;
    }
    let middle = replace_symbol(mangled);
    let mut out: Vec<u8> = Vec::new();
    let mut k: usize = 0;
    while k <= left
        invariant
            k <= left + 1,
            left < n == line@.len(),
            out@ == line@.subrange(0, k as int),
        decreases left + 1 - k,
    {
        out.push(line[k]);
        proof {
            assert(line@.subrange(0, k + 1) =~= line@.subrange(0, k as int).push(line@[k as int]));
        }
        k += 1;
    }
    let ghost before = out@;
    let mut j: usize = 0;
    while j < middle.len()
        invariant
            j <= middle@.len(),
            out@ == before + middle@.subrange(0, j as int),
        decreases middle@.len() - j,
    {
        out.push(middle[j]);
        proof {
            assert(middle@.subrange(0, j + 1) =~= middle@.subrange(0, j as int).push(middle@[j as int]));
        }
        j += 1;
    }
    proof {
        assert(middle@.subrange(0, j as int) =~= middle@);
    }
    let ghost with_middle = out@;
    let mut t = end;
    while t < n
        invariant
            end <= t <= n == line@.len(),
            out@ == with_middle + line@.subrange(end as int, t as int),
        decreases n - t,
    {
        out.push(line[t]);
        proof {
            assert(line@.subrange(end as int, t + 1) =~= line@.subrange(end as int, t as int).push(
                line@[t as int],
            ));
        }
        t += 1;
    }
    proof {
        let a = line@.subrange(0, left + 1);
        let b = line@.subrange(end as int, n as int);
        assert(out@ =~= a + middle@ + b);
        assert(out@.subrange(0, left + 1) =~= a);
        assert(out@.subrange(out@.len() - b.len(), out@.len() as int) =~= b);
        assert(out@.subrange(left + 1, out@.len() - b.len()) =~= middle@);
    }
    out
}

} // verus!
