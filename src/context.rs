//! Parse state: a cursor over the input bytes, the modifier stack, the
//! parsing flags and the recursion-depth guard.
use vstd::prelude::*;

verus! {

/// Deepest nesting of recursive parse steps that is accepted.
pub const MAX_DEPTH: usize = 256;

/// Bit set of type modifiers.
#[derive(Debug, Clone, Copy, PartialEq, Eq, Structural)]
pub struct Modifiers(pub u32);

pub const CONST: u32 = 1;
pub const VOLATILE: u32 = 2;
pub const FAR: u32 = 4;
pub const PTR64: u32 = 8;
pub const UNALIGNED: u32 = 16;
pub const RESTRICT: u32 = 32;
pub const LVALUE: u32 = 64;
pub const RVALUE: u32 = 128;

impl Modifiers {
    pub fn empty() -> (r: Modifiers)
        ensures
            r.0 == 0,
    {
        Modifiers(0)
    }

    pub fn contains(&self, bits: u32) -> (r: bool)
        ensures
            r == (self.0 & bits == bits),
    {
        self.0 & bits == bits
    }

    pub fn union(&self, other: Modifiers) -> (r: Modifiers)
        ensures
            r.0 == self.0 | other.0,
    {
        Modifiers(self.0 | other.0)
    }
}

/// Pushing an entry and popping it again leaves the stack as it was.
pub broadcast proof fn lemma_push_then_pop(s: Seq<Modifiers>, m: Modifiers)
    ensures
        #[trigger] s.push(m).drop_last() == s,
{
    assert(s.push(m).drop_last() =~= s);
}

/// An identifier: the byte range `start..end` of the input.
#[derive(Debug, Clone, Copy, PartialEq, Eq, Structural)]
pub struct Literal {
    pub start: usize,
    pub end: usize,
}

impl Literal {
    /// Number of bytes of the identifier.
    pub fn len(&self) -> (r: usize)
        requires
            self.start <= self.end,
        ensures
            r == self.end - self.start,
    {
        self.end - self.start
    }
}

/// Cursor and mutable state of one parse.
#[derive(Debug)]
pub struct Context {
    pub src: Vec<u8>,
    pub offset: usize,
    /// Modifiers parsed ahead of the type they apply to; the type pops them.
    pub mods: Vec<Modifiers>,
    /// Whether the next function consumes a leading `this`-qualifier run.
    pub parsing_qualifiers: bool,
    /// Whether parsed identifiers go into the identifier back-reference table.
    pub memorizing: bool,
    /// Number of recursive parse steps currently entered.
    pub depth: usize,
}

pub open spec fn is_digit(b: u8) -> bool {
    ('0' as u8) <= b <= ('9' as u8)
}

pub open spec fn is_hex(b: u8) -> bool {
    (('0' as u8) <= b <= ('9' as u8)) || (('a' as u8) <= b <= ('f' as u8)) || (('A' as u8) <= b <= ('F' as u8))
}

pub open spec fn hex_value(b: u8) -> u8 {
    if ('0' as u8) <= b <= ('9' as u8) {
        (b - ('0' as u8)) as u8
    } else if ('a' as u8) <= b <= ('f' as u8) {
        (b - ('a' as u8) + 10) as u8
    } else {
        (b - ('A' as u8) + 10) as u8
    }
}

/// A letter that stands for a hexadecimal digit in a number: `A` is 0, `P` is 15.
pub open spec fn is_letter_digit(b: u8) -> bool {
    ('A' as u8) <= b <= ('P' as u8)
}

/// Value of the letters `s[i..j]` read as hexadecimal digits.
pub open spec fn letters_value(s: Seq<u8>, i: int, j: int) -> int
    decreases j - i,
{
    if j <= i {
        0
    } else {
        letters_value(s, i, j - 1) * 16 + (s[j - 1] - ('A' as u8))
    }
}

/// Index of the `@` that ends the run of letters that starts at `i`; `None`
/// when another byte or the end of the input comes first.
pub open spec fn letters_end(s: Seq<u8>, i: int) -> Option<int>
    decreases s.len() - i,
{
    if i < 0 || i >= s.len() {
        None
    } else if s[i] == '@' as u8 {
        Some(i)
    } else if is_letter_digit(s[i]) {
        letters_end(s, i + 1)
    } else {
        None
    }
}

/// The number that starts at `off`, and the index after it: an optional `?`
/// for a negative value, then a digit `d` standing for `d + 1`, or a run of
/// letters ended by `@`. `None` when no number starts there or its value
/// does not fit in an `i64`.
pub open spec fn number_at(s: Seq<u8>, off: int) -> Option<(int, int)> {
    let neg = 0 <= off < s.len() && s[off] == '?' as u8;
    let st = if neg {
        off + 1
    } else {
        off
    };
    if 0 <= st < s.len() && is_digit(s[st]) {
        let v = (s[st] - ('0' as u8) + 1) as int;
        Some(
            (
                if neg {
                    -v
                } else {
                    v
                },
                st + 1,
            ),
        )
    } else {
        match letters_end(s, st) {
            Some(k) => {
                let v = letters_value(s, st, k);
                if v <= i64::MAX {
                    Some(
                        (
                            if neg {
                                -v
                            } else {
                                v
                            },
                            k + 1,
                        ),
                    )
                } else {
                    None
                }
            },
            None => None,
        }
    }
}

proof fn lemma_letters_end(s: Seq<u8>, i: int)
    ensures
        letters_end(s, i) matches Some(k) ==> {
            &&& 0 <= i <= k < s.len()
            &&& s[k] == '@' as u8
            &&& forall|m: int| i <= m < k ==> is_letter_digit(#[trigger] s[m])
        },
    decreases s.len() - i,
{
    if 0 <= i < s.len() && s[i] != '@' as u8 && is_letter_digit(s[i]) {
        lemma_letters_end(s, i + 1);
    }
}

proof fn lemma_letters_value_grows(s: Seq<u8>, i: int, j: int, k: int)
    requires
        i <= j <= k,
        forall|m: int| i <= m < k ==> is_letter_digit(#[trigger] s[m]),
    ensures
        0 <= letters_value(s, i, j) <= letters_value(s, i, k),
    decreases k - j,
{
    if j < k {
        lemma_letters_value_grows(s, i, j, k - 1);
        assert(is_letter_digit(s[k - 1]));
    } else {
        lemma_letters_value_nonneg(s, i, j);
    }
}

proof fn lemma_letters_value_nonneg(s: Seq<u8>, i: int, j: int)
    requires
        forall|m: int| i <= m < j ==> is_letter_digit(#[trigger] s[m]),
    ensures
        0 <= letters_value(s, i, j),
    decreases j - i,
{
    if i < j {
        lemma_letters_value_nonneg(s, i, j - 1);
        assert(is_letter_digit(s[j - 1]));
    }
}

/// Index of the first `@` in `s[i..]`.
pub open spec fn first_at(s: Seq<u8>, i: int) -> Option<int>
    decreases s.len() - i,
{
    if i < 0 || i >= s.len() {
        None
    } else if s[i] == '@' as u8 {
        Some(i)
    } else {
        first_at(s, i + 1)
    }
}

/// The identifier that starts at `off`: the bytes before the next `@`, at
/// least one of them.
pub open spec fn ident_at(s: Seq<u8>, off: int) -> Option<Literal> {
    match first_at(s, off) {
        Some(j) => if j > off {
            Some(Literal { start: off as usize, end: j as usize })
        } else {
            None
        },
        None => None,
    }
}

proof fn lemma_first_at(s: Seq<u8>, i: int, j: int)
    requires
        0 <= i <= j <= s.len(),
        no_at_between(s, i, j),
    ensures
        first_at(s, i) == first_at(s, j),
    decreases j - i,
{
    if i < j {
        lemma_first_at(s, i + 1, j);
    }
}

/// The byte at index `i` of `s`, if any.
pub open spec fn byte_at(s: Seq<u8>, i: int) -> Option<u8> {
    if 0 <= i < s.len() {
        Some(s[i])
    } else {
        None
    }
}

/// `c` is `b` with the cursor at `offset`.
pub open spec fn moved_to(b: Context, c: Context, offset: int) -> bool {
    &&& c.src == b.src
    &&& c.offset == offset
    &&& c.mods == b.mods
    &&& c.parsing_qualifiers == b.parsing_qualifiers
    &&& c.memorizing == b.memorizing
    &&& c.depth == b.depth
}

/// The first byte of an identifier run that starts at `i` and the byte that
/// ends it: the first `@` at or after `i`.
pub open spec fn no_at_between(s: Seq<u8>, i: int, j: int) -> bool {
    forall|k: int| i <= k < j ==> #[trigger] s[k] != ('@' as u8)
}

impl Context {
    pub open spec fn wf(&self) -> bool {
        &&& self.offset <= self.src@.len()
        &&& self.depth <= MAX_DEPTH
    }

    /// The byte `k` places after the cursor, if any.
    pub open spec fn at(&self, k: int) -> Option<u8> {
        byte_at(self.src@, self.offset + k)
    }

    pub fn new(s: &[u8]) -> (r: Context)
        ensures
            r.src@ == s@,
            r.offset == 0,
            r.mods@.len() == 0,
            r.depth == 0,
            r.memorizing,
            !r.parsing_qualifiers,
            r.wf(),
    {
        Context {
            src: vstd::slice::slice_to_vec(s),
            offset: 0,
            mods: Vec::new(),
            parsing_qualifiers: false,
            memorizing: true,
            depth: 0,
        }
    }

    /// True when the whole input has been consumed.
    pub fn is_empty(&self) -> (r: bool)
        requires
            self.wf(),
        ensures
            r == (self.offset == self.src@.len()),
    {
        self.offset == self.src.len()
    }

    /// The byte `k` places after the cursor, without consuming anything.
    pub fn peek_at(&self, k: usize) -> (r: Option<u8>)
        requires
            self.wf(),
        ensures
            r == self.at(k as int),
    {
        if k < self.src.len() - self.offset {
            Some(self.src[self.offset + k])
        } else {
            None
        }
    }

    pub fn peek(&self) -> (r: Option<u8>)
        requires
            self.wf(),
        ensures
            r == self.at(0),
    {
        self.peek_at(0)
    }

    /// Consumes and returns one byte.
    pub fn take(&mut self) -> (r: Option<u8>)
        requires
            old(self).wf(),
        ensures
            r == old(self).at(0),
            moved_to(*old(self), *final(self), old(self).offset + if r is Some { 1int } else { 0 }),
            final(self).wf(),
    {
        if self.offset < self.src.len() {
            let b = self.src[self.offset];
            self.offset = self.offset + 1;
            Some(b)
        } else {
            None
        }
    }

    /// Consumes `b` if it is the next byte.
    pub fn eat(&mut self, b: u8) -> (r: bool)
        requires
            old(self).wf(),
        ensures
            r == (old(self).at(0) == Some(b)),
            moved_to(*old(self), *final(self), old(self).offset + if r { 1int } else { 0 }),
            final(self).wf(),
    {
        if self.offset < self.src.len() && self.src[self.offset] == b {
            self.offset = self.offset + 1;
            true
        } else {
            false
        }
    }

    /// Consumes `a` and `b` if they are the next two bytes.
    pub fn eat2(&mut self, a: u8, b: u8) -> (r: bool)
        requires
            old(self).wf(),
        ensures
            r == (old(self).at(0) == Some(a) && old(self).at(1) == Some(b)),
            moved_to(*old(self), *final(self), old(self).offset + if r { 2int } else { 0 }),
            final(self).wf(),
    {
        if self.src.len() - self.offset >= 2 && self.src[self.offset] == a && self.src[self.offset
            + 1] == b {
            self.offset = self.offset + 2;
            true
        } else {
            false
        }
    }

    /// Consumes `pat` if the input continues with it.
    pub fn eat_slice(&mut self, pat: &[u8]) -> (r: bool)
        requires
            old(self).wf(),
        ensures
            r == (old(self).offset + pat@.len() <= old(self).src@.len() && old(self).src@.subrange(
                old(self).offset as int,
                old(self).offset + pat@.len(),
            ) == pat@),
            moved_to(*old(self), *final(self), old(self).offset + if r { pat@.len() as int } else { 0 }),
            final(self).wf(),
    {
        if pat.len() > self.src.len() - self.offset {
            return false;
        }
        let off = self.offset;
        let mut i: usize = 0;
        while i < pat.len()
            invariant
                self.wf(),
                off == self.offset,
                self.offset + pat@.len() <= self.src@.len(),
                i <= pat@.len(),
                forall|k: int| 0 <= k < i ==> self.src@[self.offset + k] == #[trigger] pat@[k],
            decreases pat@.len() - i,
        {
            assert(i < pat@.len());
            assert(off + i < self.src.len());
            if self.src[off + i] != pat[i] {
                proof {
                    let s = self.src@.subrange(self.offset as int, self.offset + pat@.len());
                    assert(s[i as int] != pat@[i as int]);
                }
                return false;
            }
            i += 1;
        }
        proof {
            assert(self.src@.subrange(self.offset as int, self.offset + pat@.len()) =~= pat@);
        }
        self.offset = self.offset + pat.len();
        true
    }

    /// Consumes `b`, or fails without consuming anything.
    pub fn consume(&mut self, b: u8) -> (r: Option<()>)
        requires
            old(self).wf(),
        ensures
            r is Some == (old(self).at(0) == Some(b)),
            moved_to(*old(self), *final(self), old(self).offset + if r is Some { 1int } else { 0 }),
            final(self).wf(),
    {
        if self.eat(b) {
            Some(())
        } else {
            None
        }
    }

    /// Consumes one decimal digit and returns its value.
    pub fn base10(&mut self) -> (r: Option<usize>)
        requires
            old(self).wf(),
        ensures
            match old(self).at(0) {
                Some(b) if is_digit(b) => r == Some((b - ('0' as u8)) as usize),
                _ => r is None,
            },
            moved_to(*old(self), *final(self), old(self).offset + if r is Some { 1int } else { 0 }),
            final(self).wf(),
            r matches Some(d) ==> d < 10,
    {
        if self.offset >= self.src.len() {
            return None;
        }
        let b = self.src[self.offset];
        match Some(b) {
            Some(b) if ('0' as u8) <= b && b <= ('9' as u8) => {
                self.offset = self.offset + 1;
                Some((b - ('0' as u8)) as usize)
            },
            _ => None,
        }
    }

    /// Consumes one hexadecimal digit and returns its value.
    pub fn base16(&mut self) -> (r: Option<u8>)
        requires
            old(self).wf(),
        ensures
            match old(self).at(0) {
                Some(b) if is_hex(b) => r == Some(hex_value(b)),
                _ => r is None,
            },
            moved_to(*old(self), *final(self), old(self).offset + if r is Some { 1int } else { 0 }),
            final(self).wf(),
    {
        if self.offset >= self.src.len() {
            return None;
        }
        let b = self.src[self.offset];
        match Some(b) {
            Some(b) if ('0' as u8) <= b && b <= ('9' as u8) => {
                self.offset = self.offset + 1;
                Some(b - ('0' as u8))
            },
            Some(b) if ('a' as u8) <= b && b <= ('f' as u8) => {
                self.offset = self.offset + 1;
                Some(b - ('a' as u8) + 10)
            },
            Some(b) if ('A' as u8) <= b && b <= ('F' as u8) => {
                self.offset = self.offset + 1;
                Some(b - ('A' as u8) + 10)
            },
            _ => None,
        }
    }

    /// Reads an identifier: the bytes up to the next `@`, which is consumed.
    /// Fails, consuming nothing, when the identifier would be empty or no `@`
    /// follows.
    pub fn ident(&mut self) -> (r: Option<Literal>)
        requires
            old(self).wf(),
        ensures
            final(self).wf(),
            r == ident_at(old(self).src@, old(self).offset as int),
            match r {
                Some(lit) => {
                    &&& lit.start == old(self).offset
                    &&& lit.start < lit.end < old(self).src@.len()
                    &&& old(self).src@[lit.end as int] == ('@' as u8)
                    &&& no_at_between(old(self).src@, lit.start as int, lit.end as int)
                    &&& moved_to(*old(self), *final(self), lit.end + 1)
                },
                None => {
                    &&& moved_to(*old(self), *final(self), old(self).offset as int)
                    &&& forall|j: int|
                        old(self).offset < j < old(self).src@.len() && #[trigger] old(self).src@[j]
                            == ('@' as u8) ==> !no_at_between(old(self).src@, old(self).offset as int, j)
                },
            },
    {
        let start = self.offset;
        let mut i = self.offset;
        while i < self.src.len() && self.src[i] != ('@' as u8)
            invariant
                self.wf(),
                start == self.offset,
                start <= i <= self.src@.len(),
                no_at_between(self.src@, start as int, i as int),
            decreases self.src@.len() - i,
        {
            i += 1;
        }
        proof {
            lemma_first_at(self.src@, start as int, i as int);
        }
        if i == self.src.len() || i == start {
            proof {
                assert forall|j: int|
                    start < j < self.src@.len() && #[trigger] self.src@[j] == ('@' as u8) implies !no_at_between(
                    self.src@,
                    start as int,
                    j,
                ) by {
                    if i < j {
                        assert(self.src@[i as int] == ('@' as u8));
                    }
                }
            }
            return None;
        }
        self.offset = i + 1;
        Some(Literal { start, end: i })
    }

    /// Reads a number in the MSVC encoding (see `number_at`). Fails,
    /// consuming nothing, where no number starts or its value does not fit.
    pub fn number(&mut self) -> (r: Option<i64>)
        requires
            old(self).wf(),
        ensures
            final(self).wf(),
            match number_at(old(self).src@, old(self).offset as int) {
                Some((v, next)) => r == Some(v as i64) && i64::MIN < v <= i64::MAX && moved_to(
                    *old(self),
                    *final(self),
                    next,
                ),
                None => r is None && moved_to(*old(self), *final(self), old(self).offset as int),
            },
            r is Some ==> final(self).offset > old(self).offset,
            old(self).at(0) is None ==> r is None,
            r is Some ==> r->0 > i64::MIN,
    {
        let start = self.offset;
        let negative = self.eat('?' as u8);
        if let Some(d) = self.base10() {
            let v = d as i64 + 1;
            return Some(
                if negative {
                    -v
                } else {
                    v
                },
            );
        }
        let st = self.offset;
        let ghost s = self.src@;
        let mut v: i64 = 0;
        loop
            invariant
                self.wf(),
                moved_to(*old(self), *self, self.offset as int),
                old(self).offset == start,
                s == self.src@,
                st == start + if negative { 1int } else { 0 },
                negative == (start < s.len() && s[start as int] == '?' as u8),
                !(st < s.len() && is_digit(s[st as int])),
                st <= self.offset,
                forall|m: int| st <= m < self.offset ==> is_letter_digit(#[trigger] s[m]),
                v == letters_value(s, st as int, self.offset as int),
                0 <= v,
                letters_end(s, st as int) == letters_end(s, self.offset as int),
            decreases self.src@.len() - self.offset,
        {
            let here = self.offset;
            match self.take() {
                Some(b) if b == '@' as u8 => {
                    return Some(
                        if negative {
                            -v
                        } else {
                            v
                        },
                    );
                },
                Some(b) if ('A' as u8) <= b && b <= ('P' as u8) => {
                    proof {
                        assert(letters_end(s, here as int) == letters_end(s, here + 1));
                    }
                    if v > 576460752303423487 {
                        proof {
                            let next = letters_value(s, st as int, here + 1);
                            assert(next > i64::MAX);
                            lemma_letters_end(s, here + 1);
                            if let Some(k) = letters_end(s, here + 1) {
                                lemma_letters_value_grows(s, st as int, here + 1, k);
                            }
                        }
                        self.offset = start;
                        return None;
                    }
                    v = v * 16 + (b - ('A' as u8)) as i64;
                },
                _ => {
                    self.offset = start;
                    return None;
                },
            }
        }
    }

    /// Enters one level of recursion; fails at the depth limit.
    pub fn descent(&mut self) -> (r: Option<()>)
        requires
            old(self).wf(),
        ensures
            r is Some == (old(self).depth < MAX_DEPTH),
            final(self).depth == old(self).depth + if r is Some { 1int } else { 0 },
            final(self).src == old(self).src,
            final(self).offset == old(self).offset,
            final(self).mods == old(self).mods,
            final(self).parsing_qualifiers == old(self).parsing_qualifiers,
            final(self).memorizing == old(self).memorizing,
            final(self).wf(),
    {
        if self.depth < MAX_DEPTH {
            self.depth = self.depth + 1;
            Some(())
        } else {
            None
        }
    }

    /// Leaves one level of recursion.
    pub fn ascent(&mut self)
        requires
            old(self).wf(),
            old(self).depth > 0,
        ensures
            final(self).depth == old(self).depth - 1,
            final(self).src == old(self).src,
            final(self).offset == old(self).offset,
            final(self).mods == old(self).mods,
            final(self).parsing_qualifiers == old(self).parsing_qualifiers,
            final(self).memorizing == old(self).memorizing,
            final(self).wf(),
    {
        self.depth = self.depth - 1;
    }

    /// Pushes modifiers for the type that is parsed next.
    pub fn push_modifiers(&mut self, m: Modifiers)
        ensures
            final(self).mods@ == old(self).mods@.push(m),
            final(self).src == old(self).src,
            final(self).offset == old(self).offset,
            final(self).parsing_qualifiers == old(self).parsing_qualifiers,
            final(self).memorizing == old(self).memorizing,
            final(self).depth == old(self).depth,
    {
        self.mods.push(m);
    }

    /// Pops the modifiers pushed last.
    pub fn pop_modifiers(&mut self) -> (r: Modifiers)
        requires
            old(self).mods@.len() > 0,
        ensures
            r == old(self).mods@.last(),
            final(self).mods@ == old(self).mods@.drop_last(),
            final(self).src == old(self).src,
            final(self).offset == old(self).offset,
            final(self).parsing_qualifiers == old(self).parsing_qualifiers,
            final(self).memorizing == old(self).memorizing,
            final(self).depth == old(self).depth,
    {
        self.mods.pop().unwrap()
    }
}

} // verus!
