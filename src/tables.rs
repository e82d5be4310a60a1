//! One-byte codes of the grammar: calling conventions, storage classes and
//! modifier sets.
use vstd::prelude::*;
use crate::ast::{
    CallingConv, StorageScope, StorageVariable, ADJUST, GLOBAL, PRIVATE, PROTECTED, PUBLIC,
    SCOPE_FAR, STATIC, VIRTUAL,
};
use crate::context::{byte_at, moved_to, Context, Modifiers, CONST, FAR, LVALUE, PTR64, RESTRICT, RVALUE, UNALIGNED, VOLATILE};

verus! {

/// The calling convention that byte `b` encodes.
pub open spec fn calling_conv_of(b: u8) -> Option<CallingConv> {
    match b as char {
        'A' | 'B' => Some(CallingConv::Cdecl),
        'C' | 'D' => Some(CallingConv::Pascal),
        'E' | 'F' => Some(CallingConv::Thiscall),
        'G' | 'H' => Some(CallingConv::Stdcall),
        'I' | 'J' => Some(CallingConv::Fastcall),
        'M' | 'N' => Some(CallingConv::Clrcall),
        'O' | 'P' => Some(CallingConv::Eabi),
        'Q' => Some(CallingConv::Vectorcall),
        _ => None,
    }
}

/// The storage class of a data symbol that byte `b` encodes.
pub open spec fn storage_variable_of(b: u8) -> Option<StorageVariable> {
    match b as char {
        '0' => Some(StorageVariable::PrivateStatic),
        '1' => Some(StorageVariable::ProtectedStatic),
        '2' => Some(StorageVariable::PublicStatic),
        '3' => Some(StorageVariable::Global),
        '4' => Some(StorageVariable::FunctionLocalStatic),
        _ => None,
    }
}

/// The member storage scope that byte `b` encodes.
pub open spec fn storage_scope_of(b: u8) -> Option<u32> {
    match b as char {
        'A' => Some(PRIVATE),
        'B' => Some(PRIVATE | SCOPE_FAR),
        'C' | 'D' => Some(PRIVATE | STATIC),
        'E' | 'F' => Some(PRIVATE | VIRTUAL),
        'G' => Some(PRIVATE | ADJUST),
        'H' => Some(PRIVATE | ADJUST | SCOPE_FAR),
        'I' => Some(PROTECTED),
        'J' => Some(PROTECTED | SCOPE_FAR),
        'K' => Some(PROTECTED | STATIC),
        'L' => Some(PROTECTED | STATIC | SCOPE_FAR),
        'M' => Some(PROTECTED | VIRTUAL),
        'N' => Some(PROTECTED | ADJUST | SCOPE_FAR),
        'O' => Some(PROTECTED | ADJUST),
        'P' => Some(PROTECTED | ADJUST | SCOPE_FAR),
        'Q' => Some(PUBLIC),
        'R' => Some(PUBLIC | SCOPE_FAR),
        'S' => Some(PUBLIC | STATIC),
        'T' => Some(PUBLIC | STATIC | SCOPE_FAR),
        'U' => Some(PUBLIC | VIRTUAL),
        'V' => Some(PUBLIC | VIRTUAL | SCOPE_FAR),
        'W' => Some(PUBLIC | ADJUST),
        'X' => Some(PUBLIC | ADJUST | SCOPE_FAR),
        'Y' => Some(GLOBAL),
        'Z' => Some(GLOBAL | SCOPE_FAR),
        _ => None,
    }
}

/// The cv-modifier set that byte `b` encodes.
pub open spec fn modifiers_of(b: u8) -> Option<u32> {
    match b as char {
        'E' => Some(FAR),
        'F' => Some(FAR | CONST),
        'G' => Some(FAR | VOLATILE),
        'H' => Some(FAR | VOLATILE | CONST),
        'A' | 'Q' => Some(0),
        'B' | 'R' => Some(CONST),
        'C' | 'S' => Some(VOLATILE),
        'D' | 'T' => Some(CONST | VOLATILE),
        _ => None,
    }
}

/// The qualifier set that byte `b` encodes.
pub open spec fn qualifiers_of(b: u8) -> Option<u32> {
    match b as char {
        'B' | 'R' => Some(CONST),
        'C' | 'S' => Some(VOLATILE),
        'D' | 'T' => Some(CONST | VOLATILE),
        'A' | 'Q' => Some(0),
        _ => None,
    }
}

/// The modifier set after `?` that byte `b` encodes, for return types.
pub open spec fn return_modifiers_of(b: u8) -> Option<u32> {
    match b as char {
        'A' => Some(0),
        'B' => Some(CONST),
        'C' => Some(VOLATILE),
        'D' => Some(CONST | VOLATILE),
        _ => None,
    }
}

/// The `this`-qualifier that byte `b` adds in a function's qualifier run.
pub open spec fn function_qualifier_of(b: u8) -> Option<u32> {
    match b as char {
        'E' => Some(PTR64),
        'I' => Some(RESTRICT),
        'F' => Some(UNALIGNED),
        'G' => Some(LVALUE),
        'H' => Some(RVALUE),
        _ => None,
    }
}

/// Parse of one byte by a table: the byte is consumed exactly when the
/// table has an entry for it.
pub open spec fn table_step<T>(b: Context, c: Context, r: Option<T>, table: Option<T>) -> bool {
    &&& r == table
    &&& moved_to(b, c, b.offset + if r is Some { 1int } else { 0 })
    &&& c.wf()
}

impl CallingConv {
    pub fn parse(ctx: &mut Context) -> (r: Option<CallingConv>)
        requires
            old(ctx).wf(),
        ensures
            table_step(
                *old(ctx),
                *final(ctx),
                r,
                match old(ctx).at(0) {
                    Some(b) => calling_conv_of(b),
                    None => None,
                },
            ),
    {
        let b = match ctx.peek() {
            Some(b) => b,
            None => return None,
        };
        let r = match b as char {
            'A' | 'B' => Some(CallingConv::Cdecl),
            'C' | 'D' => Some(CallingConv::Pascal),
            'E' | 'F' => Some(CallingConv::Thiscall),
            'G' | 'H' => Some(CallingConv::Stdcall),
            'I' | 'J' => Some(CallingConv::Fastcall),
            'M' | 'N' => Some(CallingConv::Clrcall),
            'O' | 'P' => Some(CallingConv::Eabi),
            'Q' => Some(CallingConv::Vectorcall),
            _ => None,
        };
        if r.is_some() {
            ctx.take();
        }
        r
    }
}

impl StorageVariable {
    pub fn parse(ctx: &mut Context) -> (r: Option<StorageVariable>)
        requires
            old(ctx).wf(),
        ensures
            table_step(
                *old(ctx),
                *final(ctx),
                r,
                match old(ctx).at(0) {
                    Some(b) => storage_variable_of(b),
                    None => None,
                },
            ),
    {
        let b = match ctx.peek() {
            Some(b) => b,
            None => return None,
        };
        let r = match b as char {
            '0' => Some(StorageVariable::PrivateStatic),
            '1' => Some(StorageVariable::ProtectedStatic),
            '2' => Some(StorageVariable::PublicStatic),
            '3' => Some(StorageVariable::Global),
            '4' => Some(StorageVariable::FunctionLocalStatic),
            _ => None,
        };
        if r.is_some() {
            ctx.take();
        }
        r
    }
}

impl StorageScope {
    pub fn parse(ctx: &mut Context) -> (r: Option<StorageScope>)
        requires
            old(ctx).wf(),
        ensures
            table_step(
                *old(ctx),
                *final(ctx),
                match r {
                    Some(s) => Some(s.0),
                    None => None,
                },
                match old(ctx).at(0) {
                    Some(b) => storage_scope_of(b),
                    None => None,
                },
            ),
    {
        let b = match ctx.peek() {
            Some(b) => b,
            None => return None,
        };
        let r = match b as char {
            'A' => Some(PRIVATE),
            'B' => Some(PRIVATE | SCOPE_FAR),
            'C' | 'D' => Some(PRIVATE | STATIC),
            'E' | 'F' => Some(PRIVATE | VIRTUAL),
            'G' => Some(PRIVATE | ADJUST),
            'H' => Some(PRIVATE | ADJUST | SCOPE_FAR),
            'I' => Some(PROTECTED),
            'J' => Some(PROTECTED | SCOPE_FAR),
            'K' => Some(PROTECTED | STATIC),
            'L' => Some(PROTECTED | STATIC | SCOPE_FAR),
            'M' => Some(PROTECTED | VIRTUAL),
            'N' => Some(PROTECTED | ADJUST | SCOPE_FAR),
            'O' => Some(PROTECTED | ADJUST),
            'P' => Some(PROTECTED | ADJUST | SCOPE_FAR),
            'Q' => Some(PUBLIC),
            'R' => Some(PUBLIC | SCOPE_FAR),
            'S' => Some(PUBLIC | STATIC),
            'T' => Some(PUBLIC | STATIC | SCOPE_FAR),
            'U' => Some(PUBLIC | VIRTUAL),
            'V' => Some(PUBLIC | VIRTUAL | SCOPE_FAR),
            'W' => Some(PUBLIC | ADJUST),
            'X' => Some(PUBLIC | ADJUST | SCOPE_FAR),
            'Y' => Some(GLOBAL),
            'Z' => Some(GLOBAL | SCOPE_FAR),
            _ => None,
        };
        match r {
            Some(bits) => {
                ctx.take();
                Some(StorageScope(bits))
            },
            None => None,
        }
    }

    pub fn contains(&self, bits: u32) -> (r: bool)
        ensures
            r == (self.0 & bits == bits),
    {
        self.0 & bits == bits
    }
}

/// Parse of an optional one-byte code: when the table has no entry for the
/// next byte nothing is consumed and the set is empty.
pub open spec fn optional_step(b: Context, c: Context, r: u32, table: Option<u32>) -> bool {
    &&& r == match table {
        Some(bits) => bits,
        None => 0,
    }
    &&& moved_to(b, c, b.offset + if table is Some { 1int } else { 0 })
    &&& c.wf()
}

pub open spec fn lookup(at: Option<u8>, table: spec_fn(u8) -> Option<u32>) -> Option<u32> {
    match at {
        Some(b) => table(b),
        None => None,
    }
}

/// The cv-modifier set that the byte `at`, if any, encodes.
pub open spec fn modifiers_code(at: Option<u8>) -> Option<u32> {
    match at {
        Some(b) => modifiers_of(b),
        None => None,
    }
}

/// The `this`-qualifier run at index `i`, after `count` bytes of it that
/// gave `acc`: at most four qualifier bytes, stopping at the first byte that
/// is none or that would join `&` and `&&`. The bits and the index after it.
pub open spec fn qualifier_run(s: Seq<u8>, i: int, count: nat, acc: u32) -> (u32, int)
    decreases 4 - count,
{
    if count >= 4 {
        (acc, i)
    } else {
        match byte_at(s, i) {
            Some(b) => match function_qualifier_of(b) {
                Some(q) => if (q == LVALUE && acc & RVALUE != 0) || (q == RVALUE && acc & LVALUE != 0) {
                    (acc, i)
                } else {
                    qualifier_run(s, i + 1, count + 1, acc | q)
                },
                None => (acc, i),
            },
            None => (acc, i),
        }
    }
}

/// A function's `this`-qualifiers at index `i`: the qualifier run, then an
/// optional qualifier code. The bits and the index after them.
pub open spec fn function_qualifiers_at(s: Seq<u8>, i: int) -> (u32, int) {
    let run = qualifier_run(s, i, 0, 0);
    match byte_at(s, run.1) {
        Some(b) => match qualifiers_of(b) {
            Some(q) => (run.0 | q, run.1 + 1),
            None => (run.0 | 0, run.1),
        },
        None => (run.0 | 0, run.1),
    }
}

impl Modifiers {
    /// Reads an optional cv-modifier byte.
    pub fn parse(ctx: &mut Context) -> (r: Modifiers)
        requires
            old(ctx).wf(),
        ensures
            optional_step(*old(ctx), *final(ctx), r.0, modifiers_code(old(ctx).at(0))),
    {
        let b = match ctx.peek() {
            Some(b) => b,
            None => return Modifiers(0),
        };
        let r = match b as char {
            'E' => Some(FAR),
            'F' => Some(FAR | CONST),
            'G' => Some(FAR | VOLATILE),
            'H' => Some(FAR | VOLATILE | CONST),
            'A' | 'Q' => Some(0),
            'B' | 'R' => Some(CONST),
            'C' | 'S' => Some(VOLATILE),
            'D' | 'T' => Some(CONST | VOLATILE),
            _ => None,
        };
        match r {
            Some(bits) => {
                ctx.take();
                Modifiers(bits)
            },
            None => Modifiers(0),
        }
    }

    /// Reads an optional qualifier byte.
    pub fn parse_qualifiers(ctx: &mut Context) -> (r: Modifiers)
        requires
            old(ctx).wf(),
        ensures
            optional_step(*old(ctx), *final(ctx), r.0, lookup(old(ctx).at(0), |b| qualifiers_of(b))),
    {
        let b = match ctx.peek() {
            Some(b) => b,
            None => return Modifiers(0),
        };
        let r = match b as char {
            'B' | 'R' => Some(CONST),
            'C' | 'S' => Some(VOLATILE),
            'D' | 'T' => Some(CONST | VOLATILE),
            'A' | 'Q' => Some(0),
            _ => None,
        };
        match r {
            Some(bits) => {
                ctx.take();
                Modifiers(bits)
            },
            None => Modifiers(0),
        }
    }

    /// Reads `?` and a return-modifier byte, if the input continues with `?`.
    /// Fails when a byte follows `?` that is no such code.
    pub fn parse_return(ctx: &mut Context) -> (r: Option<Modifiers>)
        requires
            old(ctx).wf(),
        ensures
            final(ctx).wf(),
            old(ctx).at(0) != Some('?' as u8) ==> r == Some(Modifiers(0)) && moved_to(
                *old(ctx),
                *final(ctx),
                old(ctx).offset as int,
            ),
            old(ctx).at(0) == Some('?' as u8) ==> match lookup(old(ctx).at(1), |b| return_modifiers_of(b)) {
                Some(bits) => r == Some(Modifiers(bits)) && moved_to(
                    *old(ctx),
                    *final(ctx),
                    old(ctx).offset + 2,
                ),
                None => r is None && final(ctx).src == old(ctx).src && final(ctx).mods == old(
                    ctx,
                ).mods && final(ctx).depth == old(ctx).depth && final(ctx).offset >= old(ctx).offset,
            },
    {
        if !ctx.eat('?' as u8) {
            return Some(Modifiers(0));
        }
        let b = match ctx.take() {
            Some(b) => b,
            None => return None,
        };
        match b as char {
            'A' => Some(Modifiers(0)),
            'B' => Some(Modifiers(CONST)),
            'C' => Some(Modifiers(VOLATILE)),
            'D' => Some(Modifiers(CONST | VOLATILE)),
            _ => None,
        }
    }

    /// Reads a function's `this`-qualifiers: up to four of `E`, `I`, `F`,
    /// `G`, `H` (where `G` and `H` exclude each other), then an optional
    /// qualifier byte.
    pub fn parse_function_qualifiers(ctx: &mut Context) -> (r: Modifiers)
        requires
            old(ctx).wf(),
        ensures
            final(ctx).wf(),
            moved_to(*old(ctx), *final(ctx), final(ctx).offset as int),
            old(ctx).offset <= final(ctx).offset <= old(ctx).offset + 5,
            lookup(old(ctx).at(0), |b| function_qualifier_of(b)) is None && lookup(
                old(ctx).at(0),
                |b| qualifiers_of(b),
            ) is None ==> r.0 == 0 && final(ctx).offset == old(ctx).offset,
            (r.0, final(ctx).offset as int) == function_qualifiers_at(old(ctx).src@, old(ctx).offset as int),
    {
        let mut acc: u32 = 0;
        let mut count: usize = 0;
        while count < 4
            invariant
                ctx.wf(),
                moved_to(*old(ctx), *ctx, ctx.offset as int),
                ctx.offset == old(ctx).offset + count,
                count <= 4,
                count == 0 ==> acc == 0,
                count > 0 ==> lookup(old(ctx).at(0), |b| function_qualifier_of(b)) is Some,
                qualifier_run(ctx.src@, old(ctx).offset as int, 0, 0) == qualifier_run(
                    ctx.src@,
                    ctx.offset as int,
                    count as nat,
                    acc,
                ),
            ensures
                qualifier_run(ctx.src@, old(ctx).offset as int, 0, 0) == (acc, ctx.offset as int),
            decreases 4 - count,
        {
            let addi = match ctx.peek() {
                Some(b) => match b as char {
                    'E' => PTR64,
                    'I' => RESTRICT,
                    'F' => UNALIGNED,
                    'G' => LVALUE,
                    'H' => RVALUE,
                    _ => break,
                },
                None => break,
            };
            if (addi == LVALUE && acc & RVALUE != 0) || (addi == RVALUE && acc & LVALUE != 0) {
                break;
            }
            acc = acc | addi;
            ctx.take();
            count += 1;
        }
        let q = Modifiers::parse_qualifiers(ctx);
        proof {
            if acc == 0 && q.0 == 0 {
                assert(0u32 | 0u32 == 0u32) by (bit_vector);
            }
        }
        Modifiers(acc | q.0)
    }
}

} // verus!
