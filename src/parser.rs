//! Recursive-descent parser from mangled bytes to the syntax tree.
//!
//! Every parse step keeps the same input, never moves the cursor back, and
//! leaves the recursion depth as it found it, whether it succeeds or not.
//! The modifier stack is balanced: `Type::parse` pops the entry that its
//! caller pushed for it, and every other step leaves the stack unchanged.
use vstd::prelude::*;
use crate::ast::{
    grown, Array, Backrefs, CallingConv, Function, Intrinsics, MemberFunction, MemberFunctionPtr,
    NestedPath, Path, Scope, StorageScope, StorageVariable, Symbol, Template, Type, Variable, STATIC,
};
use crate::tables::{return_modifiers_of, function_qualifiers_at, modifiers_code, calling_conv_of, storage_scope_of, storage_variable_of};
use crate::context::{number_at, byte_at, ident_at, is_digit, is_hex, moved_to, Context, Literal, Modifiers, MAX_DEPTH, CONST, PTR64, VOLATILE};

verus! {

broadcast use crate::context::lemma_push_then_pop;

/// `c` continues the parse from `b`: same input, cursor not moved back,
/// same recursion depth.
pub open spec fn advanced(b: Context, c: Context) -> bool {
    &&& c.src == b.src
    &&& b.offset <= c.offset
    &&& c.wf()
    &&& c.depth == b.depth
}

/// `advanced`, with the modifier stack as it was.
pub open spec fn balanced(b: Context, c: Context) -> bool {
    &&& advanced(b, c)
    &&& c.mods@ == b.mods@
}

/// Bytes `i..j` of `s` are hexadecimal digits.
pub open spec fn hex_run(s: Seq<u8>, i: int, j: int) -> bool {
    forall|k: int| i <= k < j ==> is_hex(#[trigger] s[k])
}

/// Reads the 32 hexadecimal digits of an MD5-hashed name and the `@` that
/// ends them.
pub fn parse_md5(ctx: &mut Context) -> (r: Option<Literal>)
    requires
        old(ctx).wf(),
    ensures
        advanced(*old(ctx), *final(ctx)),
        final(ctx).mods == old(ctx).mods,
        r is Some <==> {
            &&& old(ctx).offset + 32 < old(ctx).src@.len()
            &&& hex_run(old(ctx).src@, old(ctx).offset as int, old(ctx).offset + 32)
            &&& old(ctx).src@[old(ctx).offset + 32] == '@' as u8
        },
        r matches Some(lit) ==> lit.start == old(ctx).offset && lit.end == old(ctx).offset + 32
            && final(ctx).offset == old(ctx).offset + 33,
{
    let start = ctx.offset;
    let mut len: usize = 0;
    while ctx.base16().is_some()
        invariant
            ctx.wf(),
            moved_to(*old(ctx), *ctx, ctx.offset as int),
            ctx.offset == start + len,
            start == old(ctx).offset,
            hex_run(ctx.src@, start as int, ctx.offset as int),
        decreases ctx.src@.len() - ctx.offset,
    {
        len += 1;
    }
    if len != 32 {
        proof {
            if old(ctx).offset + 32 < old(ctx).src@.len() && hex_run(
                old(ctx).src@,
                start as int,
                start + 32,
            ) {
                if len < 32 {
                    assert(is_hex(ctx.src@[start + len]));
                }
                if len > 32 {
                    assert(is_hex(ctx.src@[start + 32]));
                }
            }
        }
        return None;
    }
    if !ctx.eat('@' as u8) {
        return None;
    }
    Some(Literal { start, end: start + 32 })
}

impl Literal {
    /// Reads an identifier and, while memorising is on, remembers it.
    pub fn parse(ctx: &mut Context, br: &mut Backrefs) -> (r: Option<Literal>)
        requires
            old(ctx).wf(),
            old(br).wf(),
        ensures
            balanced(*old(ctx), *final(ctx)),
            grown(*old(br), *final(br)),
            r is Some ==> final(ctx).offset > old(ctx).offset,
            r == ident_at(old(ctx).src@, old(ctx).offset as int),
            final(br).params == old(br).params,
            final(br).idents@ == if old(ctx).memorizing && r is Some {
                remembered(old(br).idents@, r->0)
            } else {
                old(br).idents@
            },
    {
        let ident = ctx.ident()?;
        if ctx.memorizing {
            br.try_memorizing_ident(ident);
        }
        Some(ident)
    }
}

/// Reads a name in an encoding that is not decoded: a width digit (0..2), a
/// length, a checksum, then that many name bytes.
pub fn parse_encoded(ctx: &mut Context) -> (r: Option<()>)
    requires
        old(ctx).wf(),
    ensures
        balanced(*old(ctx), *final(ctx)),
{
    let width = ctx.base10()?;
    if width > 2 {
        return None;
    }
    let n = ctx.number()?;
    if n < 0 {
        return None;
    }
    let len: u64 = if (n as u64) < (width as u64) * 32 {
        n as u64
    } else {
        (width as u64) * 32
    };
    ctx.number()?;
    let mut i: u64 = 0;
    while i < len
        invariant
            balanced(*old(ctx), *ctx),
        decreases len - i,
    {
        let chr = ctx.take()?;
        let c = chr as char;
        if ('0' <= c && c <= '9') || ('a' <= c && c <= 'z') || c == '_' || c == '$' {
        } else if c == '?' {
            ctx.take()?;
        } else {
            return None;
        }
        i += 1;
    }
    Some(())
}

/// Reads a parameter list, up to `@`, `Z` or the end of the input. Types
/// longer than one byte are remembered for back-references.
pub fn parse_parameters(ctx: &mut Context, br: &mut Backrefs) -> (r: Option<Vec<Type>>)
    requires
        old(ctx).wf(),
        old(br).wf(),
    ensures
        balanced(*old(ctx), *final(ctx)),
        grown(*old(br), *final(br)),
        old(ctx).at(0) is None || old(ctx).at(0) == Some('@' as u8) || old(ctx).at(0) == Some(
            'Z' as u8,
        ) ==> r is Some && r->0@.len() == 0,
        old(ctx).depth + 1 < MAX_DEPTH ==> match simple_params(old(ctx).src@, old(ctx).offset as int) {
            Some((ts, m)) => r is Some && r->0@ == ts && final(ctx).offset == m && final(br).idents
                == old(br).idents,
            None => true,
        },
    decreases MAX_DEPTH - old(ctx).depth, 1int,
{
    let mut types: Vec<Type> = Vec::new();
    loop
        invariant
            balanced(*old(ctx), *ctx),
            grown(*old(br), *br),
            ctx.offset == old(ctx).offset ==> types@.len() == 0,
            old(ctx).at(0) is None || old(ctx).at(0) == Some('@' as u8) || old(ctx).at(0) == Some(
                'Z' as u8,
            ) ==> ctx.offset == old(ctx).offset,
            old(ctx).depth + 1 < MAX_DEPTH ==> match simple_params(old(ctx).src@, old(ctx).offset as int) {
                Some((ts, m)) => types@.len() <= ts.len() && types@ == ts.subrange(0, types@.len() as int)
                    && br.idents == old(br).idents && simple_params(ctx.src@, ctx.offset as int) == Some(
                    (ts.subrange(types@.len() as int, ts.len() as int), m),
                ),
                None => true,
            },
        decreases ctx.src@.len() - ctx.offset,
    {
        if ctx.eat('Z' as u8) {
            return Some(types);
        }
        if ctx.eat('@' as u8) || ctx.is_empty() {
            return Some(types);
        }
        if let Some(digit) = ctx.base10() {
            let t = br.get_memorized_param(digit)?;
            types.push(t);
            continue;
        }
        let start = ctx.offset;
        let ghost before = types@;
        ctx.push_modifiers(Modifiers::empty());
        let tipe = Type::parse(ctx, br)?;
        let ghost parsed = tipe;
        if ctx.offset - start > 1 {
            br.try_memorizing_param(tipe.copy());
        }
        types.push(tipe);
        proof {
            if old(ctx).depth + 1 < MAX_DEPTH {
                if let Some((ts, m)) = simple_params(old(ctx).src@, old(ctx).offset as int) {
                    let k = before.len() as int;
                    let rest = ts.subrange(k, ts.len() as int);
                    assert(simple_params(ctx.src@, start as int) == Some((rest, m)));
                    assert(rest[0] == parsed);
                    assert(rest.len() > 0);
                    assert(ts[k] == parsed);
                    assert(types@ == before.push(parsed));
                    assert(types@ =~= ts.subrange(0, k + 1));
                    assert(ts.subrange(k + 1, ts.len() as int) =~= rest.subrange(1, rest.len() as int));
                }
            }
        }
    }
}

/// A parameter list and its optional `Z` (throw specification) suffix.
pub fn parse_function_parameters(ctx: &mut Context, br: &mut Backrefs) -> (r: Option<Vec<Type>>)
    requires
        old(ctx).wf(),
        old(br).wf(),
    ensures
        balanced(*old(ctx), *final(ctx)),
        grown(*old(br), *final(br)),
        old(ctx).depth + 1 < MAX_DEPTH ==> match simple_params(old(ctx).src@, old(ctx).offset as int) {
            Some((ts, m)) => r is Some && r->0@ == ts && final(br).idents == old(br).idents
                && final(ctx).offset == if byte_at(
                old(ctx).src@,
                m,
            ) == Some('Z' as u8) {
                m + 1
            } else {
                m
            },
            None => true,
        },
    decreases MAX_DEPTH - old(ctx).depth, 2int,
{
    let params = parse_parameters(ctx, br)?;
    ctx.eat('Z' as u8);
    Some(params)
}

/// Reads a return type. The caller pushes the modifiers meant for it; a
/// leading `?` and code overrides them, and `@` stands for no return type.
pub fn parse_return_type(ctx: &mut Context, br: &mut Backrefs) -> (r: Option<Type>)
    requires
        old(ctx).wf(),
        old(br).wf(),
        old(ctx).mods@.len() > 0,
    ensures
        advanced(*old(ctx), *final(ctx)),
        grown(*old(br), *final(br)),
        final(ctx).mods@ == old(ctx).mods@.drop_last(),
        r is Some ==> final(ctx).offset > old(ctx).offset,
        old(ctx).at(0) == Some('@' as u8) ==> r == Some(Type::Unit) && final(ctx).offset
            == old(ctx).offset + 1 && *final(br) == *old(br),
        old(ctx).depth + 1 < MAX_DEPTH && old(ctx).at(0) == Some('?' as u8) && old(ctx).at(1) is Some
            && return_modifiers_of(old(ctx).at(1)->0) is Some ==> match simple_type(
            old(ctx).src@,
            old(ctx).offset + 2,
            Modifiers(return_modifiers_of(old(ctx).at(1)->0)->0),
        ) {
            Some((t, n)) => r == Some(t) && final(ctx).offset == n && *final(br) == *old(br),
            None => true,
        },
        old(ctx).depth + 2 < MAX_DEPTH ==> match function_pointer_at(old(ctx).src@, old(ctx).offset as int) {
            Some((cc, ret, ps, n)) => r is Some && is_function_pointer(
                r->0,
                old(ctx).mods@.last(),
                cc,
                ret,
                ps,
            ) && final(ctx).offset == n && final(br).idents == old(br).idents,
            None => true,
        },
        old(ctx).depth + 1 < MAX_DEPTH && old(ctx).at(0) != Some('?' as u8) ==> match simple_type(
            old(ctx).src@,
            old(ctx).offset as int,
            old(ctx).mods@.last(),
        ) {
            Some((t, n)) => r == Some(t) && final(ctx).offset == n && *final(br) == *old(br),
            None => true,
        },
    decreases MAX_DEPTH - old(ctx).depth, 1int,
{
    let inherited = ctx.pop_modifiers();
    let had_override = ctx.peek() == Some('?' as u8);
    let over = Modifiers::parse_return(ctx)?;
    let modi = if had_override {
        over
    } else {
        inherited
    };
    if ctx.eat('@' as u8) {
        return Some(Type::Unit);
    }
    ctx.push_modifiers(modi);
    Type::parse(ctx, br)
}

impl Function {
    /// Reads a free function: `this`-qualifiers (only while qualifier
    /// parsing is on), calling convention, return type and parameters.
    pub fn parse(ctx: &mut Context, br: &mut Backrefs) -> (r: Option<Function>)
        requires
            old(ctx).wf(),
            old(br).wf(),
        ensures
            balanced(*old(ctx), *final(ctx)),
            grown(*old(br), *final(br)),
            r is Some ==> final(ctx).offset > old(ctx).offset,
            r matches Some(f) ==> (!old(ctx).parsing_qualifiers ==> f.qualifiers.0 == 0),
            r matches Some(f) ==> (!old(ctx).parsing_qualifiers ==> old(ctx).at(0) is Some
                && calling_conv_of(old(ctx).at(0)->0) == Some(f.calling_conv)),
            !old(ctx).parsing_qualifiers && old(ctx).depth + 2 < MAX_DEPTH ==> match pointer_returning_type(
                old(ctx).src@,
                old(ctx).offset as int,
            ) {
                Some((cc, inner, ps, n)) => r is Some && r->0.calling_conv == cc && is_function_pointer(
                    *r->0.return_type,
                    Modifiers(0),
                    inner.0,
                    inner.1,
                    inner.2,
                ) && r->0.params@ == ps && r->0.qualifiers.0 == 0 && final(ctx).offset == n
                    && final(br).idents == old(br).idents,
                None => true,
            },
            !old(ctx).parsing_qualifiers && old(ctx).depth + 1 < MAX_DEPTH ==> match simple_function_type(
                old(ctx).src@,
                old(ctx).offset as int,
            ) {
                Some((cc, ret, ps, n)) => r is Some && r->0.calling_conv == cc && *r->0.return_type == ret
                    && r->0.params@ == ps && r->0.qualifiers.0 == 0 && final(ctx).offset == n
                    && final(br).idents == old(br).idents,
                None => true,
            },
        decreases MAX_DEPTH - old(ctx).depth, 3int,
    {
        let mut qualifiers = Modifiers::empty();
        if ctx.parsing_qualifiers {
            qualifiers = Modifiers::parse_function_qualifiers(ctx);
        }
        let calling_conv = CallingConv::parse(ctx)?;
        ctx.push_modifiers(Modifiers::empty());
        let return_type = parse_return_type(ctx, br)?;
        let params = parse_function_parameters(ctx, br)?;
        Some(Function { calling_conv, qualifiers, return_type: Box::new(return_type), params })
    }
}

impl MemberFunction {
    /// Reads a member function: storage scope, `this`-qualifiers (unless
    /// static), calling convention, return modifiers, return type and
    /// parameters.
    pub fn parse(ctx: &mut Context, br: &mut Backrefs) -> (r: Option<MemberFunction>)
        requires
            old(ctx).wf(),
            old(br).wf(),
        ensures
            balanced(*old(ctx), *final(ctx)),
            grown(*old(br), *final(br)),
            r is Some ==> final(ctx).offset > old(ctx).offset,
            r matches Some(f) ==> (f.storage_scope.0 & STATIC == STATIC ==> f.qualifiers.0 == 0),
            r matches Some(f) ==> old(ctx).at(0) matches Some(b) && storage_scope_of(b) == Some(
                f.storage_scope.0,
            ),
            old(ctx).depth + 1 < MAX_DEPTH ==> match simple_member_type(old(ctx).src@, old(ctx).offset as int) {
                Some((ss, q, cc, ret, ps, n)) => r is Some && r->0.storage_scope == ss && r->0.qualifiers
                    == q && r->0.calling_conv == cc && *r->0.return_type == ret && r->0.params@ == ps
                    && final(ctx).offset == n && final(br).idents == old(br).idents,
                None => true,
            },
        decreases MAX_DEPTH - old(ctx).depth, 3int,
    {
        let storage_scope = StorageScope::parse(ctx)?;
        let mut qualifiers = Modifiers::empty();
        if !storage_scope.contains(STATIC) {
            qualifiers = Modifiers::parse_function_qualifiers(ctx);
        }
        let calling_conv = CallingConv::parse(ctx)?;
        let modi = Modifiers::parse_return(ctx)?;
        ctx.push_modifiers(modi);
        let return_type = parse_return_type(ctx, br)?;
        let params = parse_function_parameters(ctx, br)?;
        Some(
            MemberFunction {
                storage_scope,
                calling_conv,
                qualifiers,
                return_type: Box::new(return_type),
                params,
            },
        )
    }
}

impl MemberFunctionPtr {
    /// Reads a pointer to member function: class name, optional `E`
    /// (64-bit `this`), qualifiers or storage scope, calling convention,
    /// return modifiers, return type and parameters.
    pub fn parse(ctx: &mut Context, br: &mut Backrefs) -> (r: Option<MemberFunctionPtr>)
        requires
            old(ctx).wf(),
            old(br).wf(),
        ensures
            balanced(*old(ctx), *final(ctx)),
            grown(*old(br), *final(br)),
            r is Some ==> final(ctx).offset > old(ctx).offset,
        decreases MAX_DEPTH - old(ctx).depth, 3int,
    {
        let class_name = Path::parse(ctx, br)?;
        let mut qualifiers = Modifiers::empty();
        let mut storage_scope = StorageScope(0);
        if ctx.eat('E' as u8) {
            qualifiers = Modifiers(PTR64);
        }
        if ctx.parsing_qualifiers {
            let q = Modifiers::parse_function_qualifiers(ctx);
            qualifiers = qualifiers.union(q);
        } else {
            storage_scope = StorageScope::parse(ctx)?;
        }
        let calling_conv = CallingConv::parse(ctx)?;
        let modi = Modifiers::parse_return(ctx)?;
        ctx.push_modifiers(modi);
        let return_type = parse_return_type(ctx, br)?;
        let params = parse_function_parameters(ctx, br)?;
        Some(
            MemberFunctionPtr {
                storage_scope,
                class_name,
                calling_conv,
                qualifiers,
                return_type: Box::new(return_type),
                params,
            },
        )
    }
}

/// `count` numbers at index `i`: their values and the index after them.
pub open spec fn numbers_at(s: Seq<u8>, i: int, count: nat) -> Option<(Seq<i64>, int)>
    decreases count,
{
    if count == 0 {
        Some((Seq::empty(), i))
    } else {
        match number_at(s, i) {
            Some((v, j)) => match numbers_at(s, j, (count - 1) as nat) {
                Some((vs, k)) => Some((seq![v as i64] + vs, k)),
                None => None,
            },
            None => None,
        }
    }
}

proof fn lemma_numbers_at_push(s: Seq<u8>, i: int, count: nat, vs: Seq<i64>, k: int, v: int, k2: int)
    requires
        numbers_at(s, i, count) == Some((vs, k)),
        number_at(s, k) == Some((v, k2)),
    ensures
        numbers_at(s, i, count + 1) == Some((vs.push(v as i64), k2)),
    decreases count,
{
    if count > 0 {
        if let Some((v0, j)) = number_at(s, i) {
            if let Some((vs1, k1)) = numbers_at(s, j, (count - 1) as nat) {
                lemma_numbers_at_push(s, j, (count - 1) as nat, vs1, k1, v, k2);
                assert(seq![v0 as i64] + vs1.push(v as i64) =~= (seq![v0 as i64] + vs1).push(v as i64));
            }
        }
    } else {
        assert(vs =~= Seq::<i64>::empty());
        assert(numbers_at(s, k2, 0) == Some((Seq::<i64>::empty(), k2)));
        assert(seq![v as i64] + Seq::<i64>::empty() =~= vs.push(v as i64));
    }
}

proof fn lemma_numbers_at_next(s: Seq<u8>, i: int, c0: nat, c1: nat, vs: Seq<i64>, k: int)
    requires
        c0 < c1,
        numbers_at(s, i, c0) == Some((vs, k)),
        numbers_at(s, i, c1) is Some,
    ensures
        number_at(s, k) is Some,
    decreases c0,
{
    if c0 > 0 {
        if let Some((v0, j)) = number_at(s, i) {
            if let Some((vs1, k1)) = numbers_at(s, j, (c0 - 1) as nat) {
                lemma_numbers_at_next(s, j, (c0 - 1) as nat, (c1 - 1) as nat, vs1, k1);
            }
        }
    }
}

/// The modifier set that the code after `$$C` gives an array.
pub open spec fn array_code_of(b: Option<u8>) -> Option<u32> {
    match b {
        Some(c) => match c as char {
            'A' => Some(0u32),
            'B' => Some(CONST),
            'C' | 'D' => Some(CONST | VOLATILE),
            _ => None,
        },
        None => None,
    }
}

/// An array at index `i` (after its code) whose element is a simple type:
/// the rank, then the lengths of all but the last dimension, an optional
/// `$$C` code for the outermost dimension, the last length and the element.
/// The lengths of all dimensions, outermost first, the outermost modifiers,
/// the element and the index after it. `None` also where the code is bad.
pub open spec fn array_at(s: Seq<u8>, i: int, modi: Modifiers) -> Option<(Seq<i64>, Modifiers, Type, int)> {
    match number_at(s, i) {
        Some((n, j)) => if n < 1 {
            None
        } else {
            match numbers_at(s, j, (n - 1) as nat) {
                Some((vs, k)) => {
                    let has_code = byte_at(s, k) == Some('$' as u8) && byte_at(s, k + 1) == Some('$' as u8)
                        && byte_at(s, k + 2) == Some('C' as u8);
                    let code = array_code_of(byte_at(s, k + 3));
                    if has_code && code is None {
                        None
                    } else {
                        let root = if has_code {
                            Modifiers(code->0)
                        } else {
                            modi
                        };
                        let k2 = if has_code {
                            k + 4
                        } else {
                            k
                        };
                        match number_at(s, k2) {
                            Some((last, k3)) => match simple_type(s, k3, Modifiers(0)) {
                                Some((t, e)) => Some((vs.push(last as i64), root, t, e)),
                                None => None,
                            },
                            None => None,
                        }
                    }
                },
                None => None,
            }
        },
        None => None,
    }
}

/// An array at index `i` whose `$$C` code is none of `A`..`D`.
pub open spec fn array_bad_code(s: Seq<u8>, i: int) -> bool {
    match number_at(s, i) {
        Some((n, j)) => n >= 1 && match numbers_at(s, j, (n - 1) as nat) {
            Some((vs, k)) => byte_at(s, k) == Some('$' as u8) && byte_at(s, k + 1) == Some('$' as u8)
                && byte_at(s, k + 2) == Some('C' as u8) && array_code_of(byte_at(s, k + 3)) is None,
            None => false,
        },
        None => false,
    }
}

/// `a` is a chain of arrays with lengths `dims`, outermost first: the
/// outermost carries `root`, the inner ones no modifiers, the innermost
/// holds `elem`.
pub open spec fn array_shape(a: Array, dims: Seq<i64>, root: Modifiers, elem: Type) -> bool
    decreases dims.len(),
{
    &&& dims.len() >= 1
    &&& a.len == dims[0]
    &&& a.modifiers == root
    &&& if dims.len() == 1 {
        *a.tipe == elem
    } else {
        (*a.tipe) is Array && array_shape((*a.tipe)->Array_0, dims.drop_first(), Modifiers(0), elem)
    }
}

impl Array {
    /// Reads an array: the number of dimensions, the length of each, an
    /// optional `$$C` modifier code for the outermost dimension, and the
    /// element type. The outermost dimension comes first and carries `modi`
    /// unless the code overrides it.
    #[verifier::rlimit(60)]
    pub fn parse(ctx: &mut Context, br: &mut Backrefs, modi: Modifiers) -> (r: Option<Array>)
        requires
            old(ctx).wf(),
            old(br).wf(),
        ensures
            balanced(*old(ctx), *final(ctx)),
            grown(*old(br), *final(br)),
            r is Some ==> final(ctx).offset > old(ctx).offset,
            match number_at(old(ctx).src@, old(ctx).offset as int) {
                Some((n, _)) => n < 1 ==> r is None,
                None => r is None,
            },
            array_bad_code(old(ctx).src@, old(ctx).offset as int) ==> r is None,
            old(ctx).depth + 1 < MAX_DEPTH ==> match array_at(old(ctx).src@, old(ctx).offset as int, modi) {
                Some((dims, root, elem, e)) => r is Some && array_shape(r->0, dims, root, elem)
                    && final(ctx).offset == e,
                None => true,
            },
        decreases MAX_DEPTH - old(ctx).depth, 1int,
    {
        let dimensions = ctx.number()?;
        if dimensions < 1 {
            return None;
        }
        let ghost after_rank = ctx.offset as int;
        let mut lens: Vec<i64> = Vec::new();
        let mut i: i64 = 1;
        while i < dimensions
            invariant
                balanced(*old(ctx), *ctx),
                grown(*old(br), *br),
                ctx.offset > old(ctx).offset,
                1 <= i <= dimensions,
                number_at(old(ctx).src@, old(ctx).offset as int) == Some(
                    (dimensions as int, after_rank),
                ),
                numbers_at(ctx.src@, after_rank, (i - 1) as nat) == Some((lens@, ctx.offset as int)),
            decreases dimensions - i,
        {
            let ghost here = ctx.offset as int;
            let ghost before = lens@;
            proof {
                if let Some((dims, root, elem, e)) = array_at(old(ctx).src@, old(ctx).offset as int, modi) {
                    lemma_numbers_at_next(
                        ctx.src@,
                        after_rank,
                        (i - 1) as nat,
                        (dimensions - 1) as nat,
                        before,
                        here,
                    );
                }
            }
            let len = ctx.number()?;
            proof {
                lemma_numbers_at_push(ctx.src@, after_rank, (i - 1) as nat, before, here, len as int, ctx.offset as int);
            }
            lens.push(len);
            i += 1;
        }
        let ghost after_lens = ctx.offset as int;
        let mut root_modi = modi;
        if ctx.peek() == Some('$' as u8) && ctx.peek_at(1) == Some('$' as u8) && ctx.peek_at(2) == Some(
            'C' as u8,
        ) {
            ctx.take();
            ctx.take();
            ctx.take();
            let b = ctx.take()?;
            root_modi = match b as char {
                'A' => Modifiers::empty(),
                'B' => Modifiers(CONST),
                'C' | 'D' => Modifiers(CONST | VOLATILE),
                _ => return None,
            };
        }
        let last = ctx.number()?;
        ctx.push_modifiers(Modifiers::empty());
        let elem = Type::parse(ctx, br)?;
        let ghost dims = lens@.push(last);
        let ghost elem_v = elem;
        let mut node = Array {
            modifiers: if lens.len() == 0 {
                root_modi
            } else {
                Modifiers::empty()
            },
            tipe: Box::new(elem),
            len: last,
        };
        let mut k = lens.len();
        proof {
            assert(dims.subrange(k as int, dims.len() as int) =~= seq![last]);
        }
        while k > 0
            invariant
                k <= lens@.len(),
                dims == lens@.push(last),
                array_shape(
                    node,
                    dims.subrange(k as int, dims.len() as int),
                    if k == 0 {
                        root_modi
                    } else {
                        Modifiers(0)
                    },
                    elem_v,
                ),
            decreases k,
        {
            k -= 1;
            let ghost inner = node;
            node = Array {
                modifiers: if k == 0 {
                    root_modi
                } else {
                    Modifiers::empty()
                },
                tipe: Box::new(Type::Array(node)),
                len: lens[k],
            };
            proof {
                let sub = dims.subrange(k as int, dims.len() as int);
                assert(sub.drop_first() =~= dims.subrange(k + 1, dims.len() as int));
                assert(sub[0] == lens@[k as int]);
            }
        }
        proof {
            assert(dims.subrange(0, dims.len() as int) =~= dims);
        }
        Some(node)
    }
}

/// Reads what a pointer or reference points to: optional `E` (64-bit
/// pointer) and a modifier code, pushed for the pointee type, then that type.
pub fn parse_pointee(ctx: &mut Context, br: &mut Backrefs) -> (r: Option<Type>)
    requires
        old(ctx).wf(),
        old(br).wf(),
    ensures
        balanced(*old(ctx), *final(ctx)),
        grown(*old(br), *final(br)),
        old(ctx).depth < MAX_DEPTH ==> match pointee_scalar(old(ctx).src@, old(ctx).offset as int) {
            Some((t, n)) => r == Some(t) && final(ctx).offset == n && *final(br) == *old(br),
            None => true,
        },
    decreases MAX_DEPTH - old(ctx).depth, 1int,
{
    let mut modi = Modifiers::empty();
    if ctx.eat('E' as u8) {
        modi = Modifiers(PTR64);
    }
    let m = Modifiers::parse(ctx);
    ctx.push_modifiers(modi.union(m));
    Type::parse(ctx, br)
}

/// A data symbol of scalar type at index `i`: a storage code, a scalar type
/// code and an optional cv code. The variable and the index after it.
pub open spec fn variable_scalar(s: Seq<u8>, i: int) -> Option<(Variable, int)> {
    match byte_at(s, i) {
        Some(b) => match storage_variable_of(b) {
            Some(storage) => if byte_at(s, i + 1) == Some('?' as u8) {
                None
            } else {
                match scalar_in(s, i + 1, Modifiers(0)) {
                    Some((t, n)) => {
                        let j = i + 1 + n;
                        let m = modifiers_code(byte_at(s, j));
                        Some(
                            (
                                Variable {
                                    storage,
                                    modi: Modifiers(
                                        match m {
                                            Some(x) => x,
                                            None => 0,
                                        },
                                    ),
                                    tipe: Box::new(t),
                                },
                                if m is Some {
                                    j + 1
                                } else {
                                    j
                                },
                            ),
                        )
                    },
                    None => None,
                }
            },
            None => None,
        },
        None => None,
    }
}

/// A well-formed MD5 name at index `i`: `??@`, 32 hexadecimal digits, `@`.
pub open spec fn md5_name_at(s: Seq<u8>, i: int) -> bool {
    &&& byte_at(s, i) == Some('?' as u8)
    &&& byte_at(s, i + 1) == Some('?' as u8)
    &&& byte_at(s, i + 2) == Some('@' as u8)
    &&& 0 <= i
    &&& i + 35 < s.len()
    &&& hex_run(s, i + 3, i + 35)
    &&& s[i + 35] == '@' as u8
}

/// Input at index `i` that starts a thread-safe static guard, `?$TSS`.
pub open spec fn tss_at(s: Seq<u8>, i: int) -> bool {
    &&& byte_at(s, i) == Some('?' as u8)
    &&& byte_at(s, i + 1) == Some('$' as u8)
    &&& byte_at(s, i + 2) == Some('T' as u8)
    &&& byte_at(s, i + 3) == Some('S' as u8)
    &&& byte_at(s, i + 4) == Some('S' as u8)
}

/// A simple data symbol at index `i`: `?`, a simple name and plain scope, then a
/// data symbol of scalar type. Its name, scope, variable and end.
pub open spec fn simple_variable(s: Seq<u8>, i: int) -> Option<(NestedPath, Seq<NestedPath>, Variable, int)> {
    if byte_at(s, i) == Some('?' as u8) {
        match simple_named(s, i + 1) {
            Some((l, sc, m)) => match variable_scalar(s, m) {
                Some((v, n)) => Some((l, sc, v, n)),
                None => None,
            },
            None => None,
        }
    } else {
        None
    }
}

/// A scalar type, or a pointer to one, at index `i`, carrying `modi`: the
/// type and the index after it.
pub open spec fn simple_type(s: Seq<u8>, i: int, modi: Modifiers) -> Option<(Type, int)> {
    match scalar_in(s, i, modi) {
        Some((t, n)) => Some((t, i + n)),
        None => pointer_to_scalar(s, i, modi),
    }
}

/// A parameter list of simple types at index `i`, ended by `@`, `Z` or the
/// end of the input: the types and the index after the list.
pub open spec fn simple_params(s: Seq<u8>, i: int) -> Option<(Seq<Type>, int)>
    decreases s.len() - i,
{
    if i < 0 || i > s.len() {
        None
    } else if i == s.len() {
        Some((Seq::empty(), i))
    } else if s[i] == 'Z' as u8 || s[i] == '@' as u8 {
        Some((Seq::empty(), i + 1))
    } else {
        match simple_type(s, i, Modifiers(0)) {
            Some((t, n)) => if i < n <= s.len() {
                match simple_params(s, n) {
                    Some((ts, m)) => Some((seq![t] + ts, m)),
                    None => None,
                }
            } else {
                None
            },
            None => None,
        }
    }
}

/// A simple return type at index `i`: `@` for none, or a simple type.
pub open spec fn simple_return(s: Seq<u8>, i: int) -> Option<(Type, int)> {
    if byte_at(s, i) == Some('@' as u8) {
        Some((Type::Unit, i + 1))
    } else if byte_at(s, i) == Some('?' as u8) {
        None
    } else {
        simple_type(s, i, Modifiers(0))
    }
}

/// A function type without qualifiers at index `i`: calling convention,
/// simple return type, simple parameters and an optional `Z`.
pub open spec fn simple_function_type(s: Seq<u8>, i: int) -> Option<(CallingConv, Type, Seq<Type>, int)> {
    match byte_at(s, i) {
        Some(b) => match calling_conv_of(b) {
            Some(cc) => match simple_return(s, i + 1) {
                Some((ret, j)) => match simple_params(s, j) {
                    Some((ps, m)) => Some(
                        (
                            cc,
                            ret,
                            ps,
                            if byte_at(s, m) == Some('Z' as u8) {
                                m + 1
                            } else {
                                m
                            },
                        ),
                    ),
                    None => None,
                },
                None => None,
            },
            None => None,
        },
        None => None,
    }
}

/// A simple global function at index `i`: `?`, a simple name and plain scope,
/// `Y`, then a function type without qualifiers. Its name, scope, calling
/// convention, return type, parameters and end.
pub open spec fn simple_function(s: Seq<u8>, i: int) -> Option<
    (NestedPath, Seq<NestedPath>, CallingConv, Type, Seq<Type>, int),
> {
    if byte_at(s, i) == Some('?' as u8) {
        match simple_named(s, i + 1) {
            Some((l, sc, m)) => if byte_at(s, m) == Some('Y' as u8) {
                match simple_function_type(s, m + 1) {
                    Some((cc, ret, ps, n)) => Some((l, sc, cc, ret, ps, n)),
                    None => None,
                }
            } else {
                None
            },
            None => None,
        }
    } else {
        None
    }
}

/// A run of plain scope names at index `i`, each an identifier that is not
/// a back-reference or a special form, ended by `@`: the names as scope
/// components, innermost first, and the index after the `@`.
pub open spec fn plain_scope(s: Seq<u8>, i: int) -> Option<(Seq<NestedPath>, int)>
    decreases s.len() - i,
{
    match byte_at(s, i) {
        Some(b) => if b == '@' as u8 {
            Some((Seq::empty(), i + 1))
        } else if !is_digit(b) && b != '?' as u8 {
            match ident_at(s, i) {
                Some(l) => if i < l.end < s.len() {
                    match plain_scope(s, l.end + 1) {
                        Some((ls, m)) => Some((seq![NestedPath::Literal(l)] + ls, m)),
                        None => None,
                    }
                } else {
                    None
                },
                None => None,
            }
        } else {
            None
        },
        None => None,
    }
}

/// A path at index `i` whose name is a plain identifier, or `?` and a
/// one-byte operator code other than the conversion operator, and whose
/// scope is plain scope names: the name, the scope components and the index
/// after the scope.
pub open spec fn simple_named(s: Seq<u8>, i: int) -> Option<(NestedPath, Seq<NestedPath>, int)> {
    match byte_at(s, i) {
        Some(b) => if b == '?' as u8 {
            match byte_at(s, i + 1) {
                Some(c) => match operator_of(c) {
                    Some(op) => if op is TypeCast {
                        None
                    } else {
                        match plain_scope(s, i + 2) {
                            Some((sc, m)) => Some((NestedPath::Intrinsics(op), sc, m)),
                            None => None,
                        }
                    },
                    None => None,
                },
                None => None,
            }
        } else if !is_digit(b) && b != '$' as u8 {
            match ident_at(s, i) {
                Some(l) => match plain_scope(s, l.end + 1) {
                    Some((sc, m)) => Some((NestedPath::Literal(l), sc, m)),
                    None => None,
                },
                None => None,
            }
        } else {
            None
        },
        None => None,
    }
}

/// A member function type without return modifiers at index `i`: storage
/// scope, `this`-qualifiers (none when static), calling convention, simple
/// return type, simple parameters and an optional `Z`.
pub open spec fn simple_member_type(s: Seq<u8>, i: int) -> Option<
    (StorageScope, Modifiers, CallingConv, Type, Seq<Type>, int),
> {
    match byte_at(s, i) {
        Some(b) => match storage_scope_of(b) {
            Some(ss) => {
                let fq = if ss & STATIC == STATIC {
                    (0u32, i + 1)
                } else {
                    function_qualifiers_at(s, i + 1)
                };
                match byte_at(s, fq.1) {
                    Some(c) => match calling_conv_of(c) {
                        Some(cc) => match simple_return(s, fq.1 + 1) {
                            Some((ret, j)) => match simple_params(s, j) {
                                Some((ps, m)) => Some(
                                    (
                                        StorageScope(ss),
                                        Modifiers(fq.0),
                                        cc,
                                        ret,
                                        ps,
                                        if byte_at(s, m) == Some('Z' as u8) {
                                            m + 1
                                        } else {
                                            m
                                        },
                                    ),
                                ),
                                None => None,
                            },
                            None => None,
                        },
                        None => None,
                    },
                    None => None,
                }
            },
            None => None,
        },
        None => None,
    }
}

/// A simple member function at index `i`: `?`, a simple name and plain
/// scope, then a member function type without return modifiers.
pub open spec fn simple_member(s: Seq<u8>, i: int) -> Option<
    (NestedPath, Seq<NestedPath>, StorageScope, Modifiers, CallingConv, Type, Seq<Type>, int),
> {
    if byte_at(s, i) == Some('?' as u8) {
        match simple_named(s, i + 1) {
            Some((name, sc, m)) => match byte_at(s, m) {
                Some(b) => if b != 'Y' as u8 {
                    match simple_member_type(s, m) {
                        Some((ss, q, cc, ret, ps, n)) => Some((name, sc, ss, q, cc, ret, ps, n)),
                        None => None,
                    }
                } else {
                    None
                },
                None => None,
            },
            None => None,
        }
    } else {
        None
    }
}

/// The four numbers of an RTTI base class descriptor at index `i`, and the
/// index after them.
pub open spec fn four_numbers(s: Seq<u8>, i: int) -> Option<(int, int, int, int, int)> {
    match number_at(s, i) {
        Some((a, i1)) => match number_at(s, i1) {
            Some((b, i2)) => match number_at(s, i2) {
                Some((c, i3)) => match number_at(s, i3) {
                    Some((d, i4)) => Some((a, b, c, d, i4)),
                    None => None,
                },
                None => None,
            },
            None => None,
        },
        None => None,
    }
}

/// A template at index `i` (after its `?$`) whose name is a plain
/// identifier and whose arguments are simple types: the name, the
/// arguments and the index after them.
pub open spec fn simple_template(s: Seq<u8>, i: int) -> Option<(Literal, Seq<Type>, int)> {
    match byte_at(s, i) {
        Some(b) => if !is_digit(b) && b != '?' as u8 {
            match ident_at(s, i) {
                Some(l) => match simple_params(s, l.end + 1) {
                    Some((ps, m)) => Some((l, ps, m)),
                    None => None,
                },
                None => None,
            }
        } else {
            None
        },
        None => None,
    }
}

/// `t` is a pointer, carrying `m`, to a function without qualifiers with
/// calling convention `cc`, return type `ret` and parameters `ps`.
pub open spec fn is_function_pointer(t: Type, m: Modifiers, cc: CallingConv, ret: Type, ps: Seq<Type>) -> bool {
    &&& t is Ptr
    &&& t->Ptr_0 == m
    &&& (*t->Ptr_1) is Function
    &&& (*t->Ptr_1)->Function_0.calling_conv == cc
    &&& *(*t->Ptr_1)->Function_0.return_type == ret
    &&& (*t->Ptr_1)->Function_0.params@ == ps
    &&& (*t->Ptr_1)->Function_0.qualifiers.0 == 0
}

/// A pointer to a simple function type at index `i`: `P6`, then the
/// function type. Its calling convention, return type, parameters and end.
pub open spec fn function_pointer_at(s: Seq<u8>, i: int) -> Option<(CallingConv, Type, Seq<Type>, int)> {
    if byte_at(s, i) == Some('P' as u8) && byte_at(s, i + 1) == Some('6' as u8) {
        simple_function_type(s, i + 2)
    } else {
        None
    }
}

/// A global function type at index `i` whose return type is a pointer to a
/// simple function: calling convention, `P6` and the pointed-to function
/// type, then simple parameters and an optional `Z`. The calling
/// convention, the pointed-to function's parts, the parameters and the end.
pub open spec fn pointer_returning_type(s: Seq<u8>, i: int) -> Option<
    (CallingConv, (CallingConv, Type, Seq<Type>), Seq<Type>, int),
> {
    match byte_at(s, i) {
        Some(b) => match calling_conv_of(b) {
            Some(cc) => match function_pointer_at(s, i + 1) {
                Some((cc2, ret2, ps2, j)) => match simple_params(s, j) {
                    Some((ps, m)) => Some(
                        (
                            cc,
                            (cc2, ret2, ps2),
                            ps,
                            if byte_at(s, m) == Some('Z' as u8) {
                                m + 1
                            } else {
                                m
                            },
                        ),
                    ),
                    None => None,
                },
                None => None,
            },
            None => None,
        },
        None => None,
    }
}

/// A global function at index `i` that returns a pointer to a simple
/// function: `?`, a simple name and plain scope, `Y`, then such a type.
pub open spec fn pointer_returning_function(s: Seq<u8>, i: int) -> Option<
    (NestedPath, Seq<NestedPath>, CallingConv, (CallingConv, Type, Seq<Type>), Seq<Type>, int),
> {
    if byte_at(s, i) == Some('?' as u8) {
        match simple_named(s, i + 1) {
            Some((l, sc, m)) => if byte_at(s, m) == Some('Y' as u8) {
                match pointer_returning_type(s, m + 1) {
                    Some((cc, inner, ps, n)) => Some((l, sc, cc, inner, ps, n)),
                    None => None,
                }
            } else {
                None
            },
            None => None,
        }
    } else {
        None
    }
}

impl Variable {
    /// Reads a data symbol: storage class, then type and modifiers (in the
    /// other order after a `?`).
    pub fn parse(ctx: &mut Context, br: &mut Backrefs) -> (r: Option<Variable>)
        requires
            old(ctx).wf(),
            old(br).wf(),
        ensures
            balanced(*old(ctx), *final(ctx)),
            grown(*old(br), *final(br)),
            r is Some ==> final(ctx).offset > old(ctx).offset,
            r matches Some(v) ==> old(ctx).at(0) matches Some(b) && storage_variable_of(b) == Some(
                v.storage,
            ),
            old(ctx).depth < MAX_DEPTH ==> match variable_scalar(old(ctx).src@, old(ctx).offset as int) {
                Some((v, n)) => r == Some(v) && final(ctx).offset == n && *final(br) == *old(br),
                None => true,
            },
        decreases MAX_DEPTH - old(ctx).depth, 1int,
    {
        let storage = StorageVariable::parse(ctx)?;
        if ctx.eat('?' as u8) {
            let modi = Modifiers::parse(ctx);
            ctx.push_modifiers(Modifiers::empty());
            let tipe = Type::parse(ctx, br)?;
            Some(Variable { storage, modi, tipe: Box::new(tipe) })
        } else {
            ctx.push_modifiers(Modifiers::empty());
            let tipe = Type::parse(ctx, br)?;
            let modi = Modifiers::parse(ctx);
            Some(Variable { storage, modi, tipe: Box::new(tipe) })
        }
    }
}

/// The built-in scalar type that code `b` names, with modifiers `m`.
pub open spec fn scalar_of(b: u8, m: Modifiers) -> Option<Type> {
    match b as char {
        'X' => Some(Type::Void(m)),
        'D' => Some(Type::Char(m)),
        'C' => Some(Type::IChar(m)),
        'E' => Some(Type::UChar(m)),
        'F' => Some(Type::IShort(m)),
        'G' => Some(Type::UShort(m)),
        'H' => Some(Type::Int(m)),
        'I' => Some(Type::UInt(m)),
        'J' => Some(Type::Long(m)),
        'K' => Some(Type::ULong(m)),
        'M' => Some(Type::Float(m)),
        'N' => Some(Type::Double(m)),
        'O' => Some(Type::LDouble(m)),
        _ => None,
    }
}

/// The built-in scalar type that `_` and code `b` name, with modifiers `m`.
pub open spec fn extended_scalar_of(b: u8, m: Modifiers) -> Option<Type> {
    match b as char {
        'D' => Some(Type::Int8(m)),
        'E' => Some(Type::UInt8(m)),
        'F' => Some(Type::Int16(m)),
        'G' => Some(Type::UInt16(m)),
        'H' => Some(Type::Int32(m)),
        'I' => Some(Type::UInt32(m)),
        'J' => Some(Type::Int64(m)),
        'K' => Some(Type::UInt64(m)),
        'L' => Some(Type::Int128(m)),
        'M' => Some(Type::Uint128(m)),
        'N' => Some(Type::Bool(m)),
        'W' => Some(Type::WChar(m)),
        'Q' => Some(Type::Char8(m)),
        'S' => Some(Type::Char16(m)),
        'U' => Some(Type::Char32(m)),
        _ => None,
    }
}

/// The scalar type, if any, that `s` names at index `i`, and the number of
/// bytes its code takes.
pub open spec fn scalar_in(s: Seq<u8>, i: int, m: Modifiers) -> Option<(Type, int)> {
    match byte_at(s, i) {
        Some(b) => match scalar_of(b, m) {
            Some(t) => Some((t, 1)),
            None => if b == '_' as u8 {
                match byte_at(s, i + 1) {
                    Some(b2) => match extended_scalar_of(b2, m) {
                        Some(t) => Some((t, 2)),
                        None => None,
                    },
                    None => None,
                }
            } else {
                None
            },
        },
        None => None,
    }
}

/// The scalar type, if any, that the input names at the cursor of `c`, and
/// the number of bytes its code takes.
pub open spec fn scalar_at(c: Context, m: Modifiers) -> Option<(Type, int)> {
    scalar_in(c.src@, c.offset as int, m)
}

/// Bytes that can begin a type.
pub open spec fn begins_type(b: u8) -> bool {
    scalar_of(b, Modifiers(0)) is Some || is_digit(b) || match b as char {
        'W' | 'A' | 'P' | '$' | '?' | 'T' | 'U' | 'V' | 'B' | 'Q' | 'R' | 'S' | 'Y' | '_' => true,
        _ => false,
    }
}

/// The modifiers of a pointee prefix at index `i` (an optional `E`, then an
/// optional cv code), and the index after it.
pub open spec fn pointee_prefix(s: Seq<u8>, i: int) -> (u32, int) {
    let e = byte_at(s, i) == Some('E' as u8);
    let j = if e {
        i + 1
    } else {
        i
    };
    let cv = modifiers_code(byte_at(s, j));
    (
        (if e {
            PTR64
        } else {
            0u32
        }) | (match cv {
            Some(x) => x,
            None => 0u32,
        }),
        if cv is Some {
            j + 1
        } else {
            j
        },
    )
}

/// A pointee at index `i` that is a scalar type: the type, with the
/// modifiers of its prefix, and the index after it.
pub open spec fn pointee_scalar(s: Seq<u8>, i: int) -> Option<(Type, int)> {
    let p = pointee_prefix(s, i);
    match scalar_in(s, p.1, Modifiers(p.0)) {
        Some((t, n)) => Some((t, p.1 + n)),
        None => None,
    }
}

/// A pointer to a scalar type at index `i` (`P`, then a pointee that is a
/// scalar), carrying `modi`: the type and the index after it.
pub open spec fn pointer_to_scalar(s: Seq<u8>, i: int, modi: Modifiers) -> Option<(Type, int)> {
    if byte_at(s, i) == Some('P' as u8) && byte_at(s, i + 1) != Some('6' as u8) && byte_at(s, i + 1)
        != Some('8' as u8) {
        match pointee_scalar(s, i + 1) {
            Some((t, n)) => Some((Type::Ptr(modi, Box::new(t)), n)),
            None => None,
        }
    } else {
        None
    }
}

fn scalar(b: u8, m: Modifiers) -> (r: Option<Type>)
    ensures
        r == scalar_of(b, m),
{
    match b as char {
        'X' => Some(Type::Void(m)),
        'D' => Some(Type::Char(m)),
        'C' => Some(Type::IChar(m)),
        'E' => Some(Type::UChar(m)),
        'F' => Some(Type::IShort(m)),
        'G' => Some(Type::UShort(m)),
        'H' => Some(Type::Int(m)),
        'I' => Some(Type::UInt(m)),
        'J' => Some(Type::Long(m)),
        'K' => Some(Type::ULong(m)),
        'M' => Some(Type::Float(m)),
        'N' => Some(Type::Double(m)),
        'O' => Some(Type::LDouble(m)),
        _ => None,
    }
}

fn extended_scalar(b: u8, m: Modifiers) -> (r: Option<Type>)
    ensures
        r == extended_scalar_of(b, m),
{
    match b as char {
        'D' => Some(Type::Int8(m)),
        'E' => Some(Type::UInt8(m)),
        'F' => Some(Type::Int16(m)),
        'G' => Some(Type::UInt16(m)),
        'H' => Some(Type::Int32(m)),
        'I' => Some(Type::UInt32(m)),
        'J' => Some(Type::Int64(m)),
        'K' => Some(Type::UInt64(m)),
        'L' => Some(Type::Int128(m)),
        'M' => Some(Type::Uint128(m)),
        'N' => Some(Type::Bool(m)),
        'W' => Some(Type::WChar(m)),
        'Q' => Some(Type::Char8(m)),
        'S' => Some(Type::Char16(m)),
        'U' => Some(Type::Char32(m)),
        _ => None,
    }
}

impl Type {
    /// Reads a type. Pops the modifiers that the caller pushed for it.
    pub fn parse(ctx: &mut Context, br: &mut Backrefs) -> (r: Option<Type>)
        requires
            old(ctx).wf(),
            old(br).wf(),
            old(ctx).mods@.len() > 0,
        ensures
            advanced(*old(ctx), *final(ctx)),
            grown(*old(br), *final(br)),
            final(ctx).mods@ == old(ctx).mods@.drop_last(),
            r is Some ==> final(ctx).offset > old(ctx).offset,
            old(ctx).depth == MAX_DEPTH ==> r is None,
            old(ctx).depth < MAX_DEPTH ==> match scalar_at(*old(ctx), old(ctx).mods@.last()) {
                Some((t, n)) => r == Some(t) && final(ctx).offset == old(ctx).offset + n && *final(br)
                    == *old(br),
                None => true,
            },
            old(ctx).depth < MAX_DEPTH && old(ctx).at(0) == Some('$' as u8) && old(ctx).at(1) == Some(
                '$' as u8,
            ) && old(ctx).at(2) == Some('T' as u8) ==> r == Some(Type::Nullptr) && final(ctx).offset
                == old(ctx).offset + 3,
            old(ctx).at(0) is None ==> r is None,
            old(ctx).at(0) matches Some(b) && !begins_type(b) ==> r is None,
            forall|b: u8|
                old(ctx).depth < MAX_DEPTH && old(ctx).at(0) == Some(b) && is_digit(b) ==> (r is Some
                    <==> ((b - ('0' as u8)) as int) < old(br).params@.len()) && *final(br) == *old(br),
            old(ctx).depth < MAX_DEPTH && old(ctx).at(0) == Some('P' as u8) && old(ctx).at(1) == Some(
                '6' as u8,
            ) && r is Some ==> r->0 is Ptr && r->0->Ptr_0 == old(ctx).mods@.last() && (*r->0->Ptr_1) is Function,
            old(ctx).depth + 1 < MAX_DEPTH ==> match pointer_to_scalar(
                old(ctx).src@,
                old(ctx).offset as int,
                old(ctx).mods@.last(),
            ) {
                Some((t, n)) => r == Some(t) && final(ctx).offset == n && *final(br) == *old(br),
                None => true,
            },
            old(ctx).depth + 2 < MAX_DEPTH ==> match function_pointer_at(old(ctx).src@, old(ctx).offset as int) {
                Some((cc, ret, ps, n)) => r is Some && is_function_pointer(
                    r->0,
                    old(ctx).mods@.last(),
                    cc,
                    ret,
                    ps,
                ) && final(ctx).offset == n && final(br).idents == old(br).idents,
                None => true,
            },
            old(ctx).depth + 1 < MAX_DEPTH ==> match simple_type(
                old(ctx).src@,
                old(ctx).offset as int,
                old(ctx).mods@.last(),
            ) {
                Some((t, n)) => r == Some(t) && final(ctx).offset == n && *final(br) == *old(br),
                None => true,
            },
        decreases MAX_DEPTH - old(ctx).depth, 0int,
    {
        let modi = ctx.pop_modifiers();
        if ctx.descent().is_none() {
            return None;
        }
        let r = Type::parse_body(ctx, br, modi);
        ctx.ascent();
        r
    }

    /// The forms of a type that start with `$`. `Ok` holds the result when
    /// the form decides the type; `Err` holds the modifiers with which the
    /// one-byte codes that follow go on, the `$` prefixes consumed.
    #[verifier::rlimit(60)]
    fn parse_dollar(ctx: &mut Context, br: &mut Backrefs, modi: Modifiers) -> (r: Result<Option<Type>, Modifiers>)
        requires
            old(ctx).wf(),
            old(br).wf(),
        ensures
            balanced(*old(ctx), *final(ctx)),
            grown(*old(br), *final(br)),
            r matches Ok(Some(_)) ==> final(ctx).offset > old(ctx).offset,
            r is Err ==> final(ctx).offset > old(ctx).offset || (*final(ctx) == *old(ctx) && *final(br)
                == *old(br) && r == Err::<Option<Type>, Modifiers>(modi)),
            old(ctx).at(0) != Some('$' as u8) ==> r == Err::<Option<Type>, Modifiers>(modi) && *final(ctx)
                == *old(ctx) && *final(br) == *old(br),
            old(ctx).at(0) == Some('$' as u8) && old(ctx).at(1) == Some('$' as u8) && old(ctx).at(2)
                == Some('T' as u8) ==> r == Ok::<Option<Type>, Modifiers>(Some(Type::Nullptr))
                && final(ctx).offset == old(ctx).offset + 3,
        decreases MAX_DEPTH - old(ctx).depth, 4int,
    {
        let mut modi = modi;
        if !ctx.eat('$' as u8) {
            return Err(modi);
        }
        if ctx.eat('0' as u8) {
            let v = match ctx.number() {
                Some(x) => x,
                None => return Ok(None),
            };
            return Ok(Some(Type::Constant(v)));
        }
        if ctx.eat('D' as u8) {
            let v = match ctx.number() {
                Some(x) => x,
                None => return Ok(None),
            };
            return Ok(Some(Type::TemplateParameterIdx(v)));
        }
        if ctx.eat('$' as u8) {
            if ctx.eat('Y' as u8) {
                let saved = ctx.memorizing;
                ctx.memorizing = false;
                let name = match Literal::parse(ctx, br) {
                    Some(x) => x,
                    None => return Ok(None),
                };
                ctx.memorizing = saved;
                return Ok(Some(Type::Typedef(modi, name)));
            }
            if ctx.eat('T' as u8) {
                return Ok(Some(Type::Nullptr));
            }
            if ctx.eat('Q' as u8) {
                ctx.parsing_qualifiers = false;
                let func = match Function::parse(ctx, br) {
                    Some(x) => x,
                    None => return Ok(None),
                };
                return Ok(Some(Type::RValueRef(modi, Box::new(Type::Function(func)))));
            }
            if ctx.eat2('B' as u8, 'Y' as u8) {
                let array = match Array::parse(ctx, br, modi) {
                    Some(x) => x,
                    None => return Ok(None),
                };
                return Ok(Some(Type::Array(array)));
            }
            if ctx.eat2('A' as u8, '6' as u8) {
                ctx.parsing_qualifiers = false;
                let func = match Function::parse(ctx, br) {
                    Some(x) => x,
                    None => return Ok(None),
                };
                return Ok(Some(Type::Function(func)));
            }
            if ctx.eat_slice(&['A' as u8, '8' as u8, '@' as u8, '@' as u8]) {
                ctx.parsing_qualifiers = true;
                let func = match Function::parse(ctx, br) {
                    Some(x) => x,
                    None => return Ok(None),
                };
                return Ok(Some(Type::Function(func)));
            }
            if ctx.eat('V' as u8) || ctx.eat('Z' as u8) || ctx.eat2('$' as u8, 'V' as u8) {
                return Ok(Some(Type::Unit));
            }
            if is_member_pointer_code(ctx.peek()) && ctx.peek_at(1) == Some('?' as u8) {
                ctx.take();
                ctx.take();
                let func = match MemberFunctionPtr::parse(ctx, br) {
                    Some(x) => x,
                    None => return Ok(None),
                };
                return Ok(Some(Type::MemberFunctionPtr(func)));
            }
            if ctx.eat('C' as u8) {
                modi = Modifiers::parse_qualifiers(ctx);
            }
        }
        if ctx.eat('S' as u8) {
            return Ok(Some(Type::Unit));
        }
        if is_member_pointer_code(ctx.peek()) {
            ctx.take();
            if ctx.consume('?' as u8).is_none() {
                return Ok(None);
            }
            let func = match MemberFunctionPtr::parse(ctx, br) {
                Some(x) => x,
                None => return Ok(None),
            };
            return Ok(Some(Type::MemberFunctionPtr(func)));
        }
        Err(modi)
    }

    #[verifier::rlimit(60)]
    fn parse_body(ctx: &mut Context, br: &mut Backrefs, modi: Modifiers) -> (r: Option<Type>)
        requires
            old(ctx).wf(),
            old(br).wf(),
        ensures
            balanced(*old(ctx), *final(ctx)),
            grown(*old(br), *final(br)),
            r is Some ==> final(ctx).offset > old(ctx).offset,
            match scalar_at(*old(ctx), modi) {
                Some((t, n)) => r == Some(t) && final(ctx).offset == old(ctx).offset + n && *final(br)
                    == *old(br),
                None => true,
            },
            old(ctx).at(0) == Some('$' as u8) && old(ctx).at(1) == Some('$' as u8) && old(ctx).at(2)
                == Some('T' as u8) ==> r == Some(Type::Nullptr) && final(ctx).offset == old(ctx).offset
                + 3,
            old(ctx).at(0) is None ==> r is None,
            old(ctx).at(0) matches Some(b) && !begins_type(b) ==> r is None,
            forall|b: u8|
                old(ctx).at(0) == Some(b) && is_digit(b) ==> (r is Some <==> ((b - ('0' as u8)) as int)
                    < old(br).params@.len()) && *final(br) == *old(br),
            old(ctx).at(0) == Some('P' as u8) && old(ctx).at(1) == Some('6' as u8) && r is Some
                ==> r->0 is Ptr && r->0->Ptr_0 == modi && (*r->0->Ptr_1) is Function,
            old(ctx).depth + 1 < MAX_DEPTH ==> match function_pointer_at(old(ctx).src@, old(ctx).offset as int) {
                Some((cc, ret, ps, n)) => r is Some && is_function_pointer(r->0, modi, cc, ret, ps)
                    && final(ctx).offset == n && final(br).idents == old(br).idents,
                None => true,
            },
            old(ctx).depth < MAX_DEPTH ==> match pointer_to_scalar(
                old(ctx).src@,
                old(ctx).offset as int,
                modi,
            ) {
                Some((t, n)) => r == Some(t) && final(ctx).offset == n && *final(br) == *old(br),
                None => true,
            },
        decreases MAX_DEPTH - old(ctx).depth, 5int,
    {
        // Scalar codes never begin a longer prefix, so they are decided first.
        if let Some(b) = ctx.peek() {
            if let Some(t) = scalar(b, modi) {
                ctx.take();
                return Some(t);
            }
            if b == '_' as u8 {
                if let Some(b2) = ctx.peek_at(1) {
                    if let Some(t) = extended_scalar(b2, modi) {
                        ctx.take();
                        ctx.take();
                        return Some(t);
                    }
                }
            }
        }
        let mut modi = modi;
        if ctx.eat2('W' as u8, '4' as u8) {
            let saved = ctx.memorizing;
            ctx.memorizing = false;
            let name = Path::parse(ctx, br)?;
            ctx.memorizing = saved;
            return Some(Type::Enum(modi, name));
        }
        if ctx.eat2('A' as u8, '6' as u8) {
            ctx.parsing_qualifiers = false;
            let func = Function::parse(ctx, br)?;
            return Some(Type::Ref(modi, Box::new(Type::Function(func))));
        }
        if ctx.eat2('P' as u8, '6' as u8) {
            ctx.parsing_qualifiers = false;
            let func = Function::parse(ctx, br)?;
            return Some(Type::Ptr(modi, Box::new(Type::Function(func))));
        }
        if ctx.eat2('P' as u8, '8' as u8) {
            ctx.parsing_qualifiers = true;
            let func = MemberFunctionPtr::parse(ctx, br)?;
            return Some(Type::MemberFunctionPtr(func));
        }
        let modi = match Type::parse_dollar(ctx, br, modi) {
            Ok(r) => return r,
            Err(m) => m,
        };
        if ctx.eat('?' as u8) {
            let idx = ctx.number()?;
            return Some(Type::TemplateParameterIdx(-idx));
        }
        if let Some(digit) = ctx.base10() {
            return br.get_memorized_param(digit);
        }
        let b = ctx.take()?;
        let tipe = match b as char {
            'T' => Type::Union(modi, Path::parse(ctx, br)?),
            'U' => Type::Struct(modi, Path::parse(ctx, br)?),
            'V' => Type::Class(modi, Path::parse(ctx, br)?),
            'A' => Type::Ref(modi, Box::new(parse_pointee(ctx, br)?)),
            'B' => Type::Ref(Modifiers(VOLATILE), Box::new(parse_pointee(ctx, br)?)),
            'P' => Type::Ptr(modi, Box::new(parse_pointee(ctx, br)?)),
            'Q' => Type::Ptr(Modifiers(CONST), Box::new(parse_pointee(ctx, br)?)),
            'R' => Type::Ptr(Modifiers(VOLATILE), Box::new(parse_pointee(ctx, br)?)),
            'S' => Type::Ptr(Modifiers(CONST | VOLATILE), Box::new(parse_pointee(ctx, br)?)),
            'Y' => Type::Array(Array::parse(ctx, br, modi)?),
            '_' => {
                ctx.consume('$' as u8)?;
                ctx.push_modifiers(Modifiers::empty());
                let inner = Type::parse(ctx, br)?;
                Type::W64(modi, Box::new(inner))
            },
            _ => return None,
        };
        Some(tipe)
    }
}

/// The codes that introduce a member-function pointer after `$`.
pub fn is_member_pointer_code(b: Option<u8>) -> (r: bool)
    ensures
        r == (b == Some('1' as u8) || b == Some('H' as u8) || b == Some('I' as u8) || b == Some(
            'J' as u8,
        )),
{
    match b {
        Some(c) => c == '1' as u8 || c == 'H' as u8 || c == 'I' as u8 || c == 'J' as u8,
        None => false,
    }
}

/// Reads the type part of a symbol: a data symbol, a virtual table, a
/// function, a member function or one of the special forms.
pub fn parse_symbol_type(ctx: &mut Context, br: &mut Backrefs) -> (r: Option<Type>)
    requires
        old(ctx).wf(),
        old(br).wf(),
    ensures
        balanced(*old(ctx), *final(ctx)),
        grown(*old(br), *final(br)),
        r is Some ==> final(ctx).offset > old(ctx).offset,
        old(ctx).depth == MAX_DEPTH ==> r is None,
        old(ctx).depth < MAX_DEPTH && old(ctx).at(0) == Some('8' as u8) ==> r == Some(Type::Unit),
        old(ctx).at(0) == Some('5' as u8) || old(ctx).at(0) == Some('9' as u8) ==> r is None,
        old(ctx).at(0) == Some('$' as u8) && old(ctx).at(1) == Some('$' as u8) && !(old(ctx).at(3) is Some
            && is_digit(old(ctx).at(3)->0)) ==> r is None,
        old(ctx).depth + 1 < MAX_DEPTH ==> match variable_scalar(old(ctx).src@, old(ctx).offset as int) {
            Some((v, n)) => r == Some(Type::Variable(v)) && final(ctx).offset == n && *final(br)
                == *old(br),
            None => true,
        },
        old(ctx).depth + 2 < MAX_DEPTH && old(ctx).at(0) != Some('Y' as u8) ==> match simple_member_type(
            old(ctx).src@,
            old(ctx).offset as int,
        ) {
            Some((ss, q, cc, ret, ps, n)) => r is Some && r->0 is MemberFunction
                && r->0->MemberFunction_0.storage_scope == ss && r->0->MemberFunction_0.qualifiers == q
                && r->0->MemberFunction_0.calling_conv == cc && *r->0->MemberFunction_0.return_type == ret
                && r->0->MemberFunction_0.params@ == ps && final(ctx).offset == n && final(br).idents
                == old(br).idents,
            None => true,
        },
        !old(ctx).parsing_qualifiers && old(ctx).depth + 3 < MAX_DEPTH && old(ctx).at(0) == Some(
            'Y' as u8,
        ) ==> match pointer_returning_type(old(ctx).src@, old(ctx).offset + 1) {
            Some((cc, inner, ps, n)) => r is Some && r->0 is Function && r->0->Function_0.calling_conv
                == cc && is_function_pointer(
                *r->0->Function_0.return_type,
                Modifiers(0),
                inner.0,
                inner.1,
                inner.2,
            ) && r->0->Function_0.params@ == ps && r->0->Function_0.qualifiers.0 == 0
                && final(ctx).offset == n && final(br).idents == old(br).idents,
            None => true,
        },
        !old(ctx).parsing_qualifiers && old(ctx).depth + 2 < MAX_DEPTH && old(ctx).at(0) == Some(
            'Y' as u8,
        ) ==> match simple_function_type(old(ctx).src@, old(ctx).offset + 1) {
            Some((cc, ret, ps, n)) => r is Some && r->0 is Function && r->0->Function_0.calling_conv == cc
                && *r->0->Function_0.return_type == ret && r->0->Function_0.params@ == ps
                && r->0->Function_0.qualifiers.0 == 0 && final(ctx).offset == n && final(br).idents
                == old(br).idents,
            None => true,
        },
    decreases MAX_DEPTH - old(ctx).depth, 0int,
{
    if ctx.descent().is_none() {
        return None;
    }
    let r = parse_symbol_type_body(ctx, br);
    ctx.ascent();
    r
}

fn parse_symbol_type_body(ctx: &mut Context, br: &mut Backrefs) -> (r: Option<Type>)
    requires
        old(ctx).wf(),
        old(br).wf(),
    ensures
        balanced(*old(ctx), *final(ctx)),
        grown(*old(br), *final(br)),
        r is Some ==> final(ctx).offset > old(ctx).offset,
        old(ctx).at(0) == Some('8' as u8) ==> r == Some(Type::Unit),
        old(ctx).at(0) == Some('5' as u8) || old(ctx).at(0) == Some('9' as u8) ==> r is None,
        old(ctx).at(0) == Some('$' as u8) && old(ctx).at(1) == Some('$' as u8) && !(old(ctx).at(3) is Some
            && is_digit(old(ctx).at(3)->0)) ==> r is None,
        old(ctx).depth < MAX_DEPTH ==> match variable_scalar(old(ctx).src@, old(ctx).offset as int) {
            Some((v, n)) => r == Some(Type::Variable(v)) && final(ctx).offset == n && *final(br)
                == *old(br),
            None => true,
        },
        old(ctx).depth + 1 < MAX_DEPTH && old(ctx).at(0) != Some('Y' as u8) ==> match simple_member_type(
            old(ctx).src@,
            old(ctx).offset as int,
        ) {
            Some((ss, q, cc, ret, ps, n)) => r is Some && r->0 is MemberFunction
                && r->0->MemberFunction_0.storage_scope == ss && r->0->MemberFunction_0.qualifiers == q
                && r->0->MemberFunction_0.calling_conv == cc && *r->0->MemberFunction_0.return_type == ret
                && r->0->MemberFunction_0.params@ == ps && final(ctx).offset == n && final(br).idents
                == old(br).idents,
            None => true,
        },
        !old(ctx).parsing_qualifiers && old(ctx).depth + 2 < MAX_DEPTH && old(ctx).at(0) == Some(
            'Y' as u8,
        ) ==> match pointer_returning_type(old(ctx).src@, old(ctx).offset + 1) {
            Some((cc, inner, ps, n)) => r is Some && r->0 is Function && r->0->Function_0.calling_conv
                == cc && is_function_pointer(
                *r->0->Function_0.return_type,
                Modifiers(0),
                inner.0,
                inner.1,
                inner.2,
            ) && r->0->Function_0.params@ == ps && r->0->Function_0.qualifiers.0 == 0
                && final(ctx).offset == n && final(br).idents == old(br).idents,
            None => true,
        },
        !old(ctx).parsing_qualifiers && old(ctx).depth + 1 < MAX_DEPTH && old(ctx).at(0) == Some(
            'Y' as u8,
        ) ==> match simple_function_type(old(ctx).src@, old(ctx).offset + 1) {
            Some((cc, ret, ps, n)) => r is Some && r->0 is Function && r->0->Function_0.calling_conv == cc
                && *r->0->Function_0.return_type == ret && r->0->Function_0.params@ == ps
                && r->0->Function_0.qualifiers.0 == 0 && final(ctx).offset == n && final(br).idents
                == old(br).idents,
            None => true,
        },
    decreases MAX_DEPTH - old(ctx).depth, 4int,
{
    let b = ctx.peek()?;
    let tipe = match b as char {
        '0' | '1' | '2' | '3' | '4' => Type::Variable(Variable::parse(ctx, br)?),
        '6' => {
            ctx.take();
            let q = Modifiers::parse_qualifiers(ctx);
            let scope = Scope::parse(ctx, br);
            Type::VFTable(q, scope)
        },
        '7' => {
            ctx.take();
            let q = Modifiers::parse_qualifiers(ctx);
            let scope = Scope::parse(ctx, br);
            Type::VBTable(q, scope)
        },
        '8' => {
            ctx.take();
            Type::Unit
        },
        'Y' => {
            ctx.take();
            Type::Function(Function::parse(ctx, br)?)
        },
        '$' => {
            ctx.take();
            let b2 = ctx.take()?;
            match b2 as char {
                '$' => {
                    let prefix = ctx.take()?;
                    if !(prefix == 'J' as u8 || prefix == 'N' as u8 || prefix == 'O' as u8) {
                        return None;
                    }
                    ctx.base10()?;
                    while ctx.base10().is_some()
                        invariant
                            balanced(*old(ctx), *ctx),
                            ctx.offset > old(ctx).offset,
                        decreases ctx.src@.len() - ctx.offset,
                    {
                    }
                    let inner = parse_symbol_type(ctx, br)?;
                    Type::Extern(Box::new(inner))
                },
                'B' => {
                    let offset = ctx.number()?;
                    ctx.consume('A' as u8)?;
                    let calling_conv = CallingConv::parse(ctx)?;
                    Type::VCallThunk(offset, calling_conv)
                },
                _ => return None,
            }
        },
        '_' => {
            ctx.take();
            parse_encoded(ctx)?;
            Type::Encoded
        },
        '5' | '9' => return None,
        _ => Type::MemberFunction(MemberFunction::parse(ctx, br)?),
    };
    Some(tipe)
}

impl Scope {
    /// Reads scope components up to the `@` that ends the scope, dropping
    /// numeric disambiguators.
    pub fn parse(ctx: &mut Context, br: &mut Backrefs) -> (r: Option<Scope>)
        requires
            old(ctx).wf(),
            old(br).wf(),
        ensures
            balanced(*old(ctx), *final(ctx)),
            grown(*old(br), *final(br)),
            r is Some ==> final(ctx).offset > old(ctx).offset,
            old(ctx).at(0) == Some('@' as u8) ==> r is Some && (r->0).0@.len() == 0
                && final(ctx).offset == old(ctx).offset + 1,
            r matches Some(sc) ==> forall|i: int|
                0 <= i < sc.0@.len() ==> !(#[trigger] sc.0@[i] is Disambiguator),
            old(ctx).depth < MAX_DEPTH ==> match plain_scope(old(ctx).src@, old(ctx).offset as int) {
                Some((sc, m)) => r is Some && (r->0).0@ == sc && final(ctx).offset == m && final(br).idents@
                    == remember_all(old(br).idents@, sc) && final(br).params == old(br).params,
                None => true,
            },
        decreases MAX_DEPTH - old(ctx).depth, 1int,
    {
        let mut paths: Vec<NestedPath> = Vec::new();
        while !ctx.eat('@' as u8)
            invariant
                balanced(*old(ctx), *ctx),
                grown(*old(br), *br),
                ctx.offset > old(ctx).offset || paths@.len() == 0,
                forall|i: int| 0 <= i < paths@.len() ==> !(#[trigger] paths@[i] is Disambiguator),
                old(ctx).depth < MAX_DEPTH ==> match plain_scope(old(ctx).src@, old(ctx).offset as int) {
                    Some((sc, m)) => paths@.len() <= sc.len() && paths@ == sc.subrange(0, paths@.len() as int)
                        && br.idents@ == remember_all(old(br).idents@, paths@) && br.params == old(br).params
                        && plain_scope(ctx.src@, ctx.offset as int) == Some(
                        (sc.subrange(paths@.len() as int, sc.len() as int), m),
                    ),
                    None => true,
                },
                old(ctx).at(0) == Some('@' as u8) ==> ctx.offset == old(ctx).offset,
            decreases ctx.src@.len() - ctx.offset,
        {
            let ghost before = paths@;
            let ghost at = ctx.offset;
            let segment = NestedPath::parse(ctx, br)?;
            let ghost parsed = segment;
            if !matches!(segment, NestedPath::Disambiguator(_)) {
                paths.push(segment);
            }
            proof {
                if old(ctx).depth < MAX_DEPTH {
                    if let Some((sc, m)) = plain_scope(old(ctx).src@, old(ctx).offset as int) {
                        let k = before.len() as int;
                        let rest = sc.subrange(k, sc.len() as int);
                        assert(plain_scope(ctx.src@, at as int) == Some((rest, m)));
                        assert(rest[0] == parsed);
                        assert(rest.len() > 0);
                        assert(sc[k] == parsed);
                        assert(paths@ == before.push(parsed));
                        assert(paths@ =~= sc.subrange(0, k + 1));
                        assert(sc.subrange(k + 1, sc.len() as int) =~= rest.subrange(1, rest.len() as int));
                        assert(paths@.drop_last() =~= before);
                    }
                }
            }
        }
        Some(Scope(paths))
    }
}

impl Path {
    /// Reads a name and the scope that qualifies it.
    pub fn parse(ctx: &mut Context, br: &mut Backrefs) -> (r: Option<Path>)
        requires
            old(ctx).wf(),
            old(br).wf(),
        ensures
            balanced(*old(ctx), *final(ctx)),
            grown(*old(br), *final(br)),
            r is Some ==> final(ctx).offset > old(ctx).offset,
            old(ctx).depth < MAX_DEPTH ==> match simple_named(old(ctx).src@, old(ctx).offset as int) {
                Some((name, sc, n)) => r is Some && r->0.name == name && r->0.scope.0@ == sc
                    && final(ctx).offset == n && final(br).idents@ == remember_path(
                    old(br).idents@,
                    name,
                    sc,
                ) && final(br).params == old(br).params,
                None => true,
            },
        decreases MAX_DEPTH - old(ctx).depth, 2int,
    {
        let name = NestedPath::parse_unqualified(ctx, br)?;
        let scope = Scope::parse(ctx, br)?;
        Some(Path { name, scope })
    }
}

impl Template {
    /// Reads a template name and its arguments. Both use back-reference
    /// tables of their own, which start empty and are dropped afterwards.
    pub fn parse(ctx: &mut Context) -> (r: Option<Template>)
        requires
            old(ctx).wf(),
        ensures
            balanced(*old(ctx), *final(ctx)),
            r is Some ==> final(ctx).offset > old(ctx).offset,
            old(ctx).depth + 1 < MAX_DEPTH ==> match simple_template(old(ctx).src@, old(ctx).offset as int) {
                Some((l, ps, n)) => r is Some && *r->0.name == NestedPath::Literal(l) && r->0.params@ == ps
                    && final(ctx).offset == n,
                None => true,
            },
        decreases MAX_DEPTH - old(ctx).depth, 2int,
    {
        let mut temp = Backrefs::new();
        let name = NestedPath::parse_unqualified(ctx, &mut temp)?;
        let params = parse_parameters(ctx, &mut temp)?;
        Some(Template { name: Box::new(name), params })
    }
}

/// The identifier table after remembering `l`: a full table stays as it is.
pub open spec fn remembered(idents: Seq<Literal>, l: Literal) -> Seq<Literal> {
    if idents.len() < crate::ast::BACKREF_CAPACITY {
        idents.push(l)
    } else {
        idents
    }
}

/// The identifier table after remembering, in order, the names of the
/// plain scope components `ls`.
pub open spec fn remember_all(idents: Seq<Literal>, ls: Seq<NestedPath>) -> Seq<Literal>
    decreases ls.len(),
{
    if ls.len() == 0 {
        idents
    } else {
        remembered(remember_all(idents, ls.drop_last()), ls.last()->Literal_0)
    }
}

/// The identifier table after remembering the name of a path, when it is
/// an identifier, then its plain scope components.
pub open spec fn remember_path(idents: Seq<Literal>, name: NestedPath, sc: Seq<NestedPath>) -> Seq<Literal> {
    remember_all(
        match name {
            NestedPath::Literal(l) => remembered(idents, l),
            _ => idents,
        },
        sc,
    )
}

/// What a back-reference digit `b` names: the identifier remembered at
/// that index, if there is one.
pub open spec fn ident_backref(idents: Seq<Literal>, b: u8) -> Option<NestedPath> {
    let i = (b - ('0' as u8)) as int;
    if i < idents.len() {
        Some(NestedPath::Literal(idents[i]))
    } else {
        None
    }
}

/// The first index at or after `j` that holds no hexadecimal digit.
pub open spec fn hex_end(s: Seq<u8>, j: int) -> int
    decreases s.len() - j,
{
    if 0 <= j < s.len() && is_hex(s[j]) {
        hex_end(s, j + 1)
    } else {
        j
    }
}

/// An anonymous namespace at index `i`: `?A0x`, hexadecimal digits, `@`.
/// The index of the `@`.
pub open spec fn anonymous_at(s: Seq<u8>, i: int) -> Option<int> {
    if byte_at(s, i) == Some('?' as u8) && byte_at(s, i + 1) == Some('A' as u8) && byte_at(s, i + 2)
        == Some('0' as u8) && byte_at(s, i + 3) == Some('x' as u8) && byte_at(s, hex_end(s, i + 4))
        == Some('@' as u8) {
        Some(hex_end(s, i + 4))
    } else {
        None
    }
}

/// The identifier table after remembering the leaf name of template `t`.
pub open spec fn with_template_leaf(idents: Seq<Literal>, t: Template) -> Seq<Literal> {
    match *t.name {
        NestedPath::Literal(l) => if idents.len() < crate::ast::BACKREF_CAPACITY {
            idents.push(l)
        } else {
            idents
        },
        _ => idents,
    }
}

/// Remembers the leaf name of a template as an identifier.
fn memorize_template_leaf(br: &mut Backrefs, t: &Template)
    requires
        old(br).wf(),
    ensures
        grown(*old(br), *final(br)),
        final(br).params == old(br).params,
        final(br).idents@ == with_template_leaf(old(br).idents@, *t),
{
    match &*t.name {
        NestedPath::Literal(l) => br.try_memorizing_ident(*l),
        _ => {},
    }
}

impl NestedPath {
    /// Reads one scope component.
    pub fn parse(ctx: &mut Context, br: &mut Backrefs) -> (r: Option<NestedPath>)
        requires
            old(ctx).wf(),
            old(br).wf(),
        ensures
            balanced(*old(ctx), *final(ctx)),
            grown(*old(br), *final(br)),
            r is Some ==> final(ctx).offset > old(ctx).offset,
            old(ctx).depth == MAX_DEPTH ==> r is None,
            r matches Some(NestedPath::Template(t)) ==> final(br).params == old(br).params
                && final(br).idents@ == with_template_leaf(old(br).idents@, t),
            old(ctx).depth + 2 < MAX_DEPTH && old(ctx).at(0) == Some('?' as u8) && old(ctx).at(1) == Some(
                '$' as u8,
            ) ==> match simple_template(old(ctx).src@, old(ctx).offset + 2) {
                Some((l, ps, n)) => r is Some && r->0 is Template && *r->0->Template_0.name
                    == NestedPath::Literal(l) && r->0->Template_0.params@ == ps && final(br).idents@
                    == remembered(old(br).idents@, l) && final(ctx).offset == n,
                None => true,
            },
            old(ctx).depth < MAX_DEPTH ==> match anonymous_at(old(ctx).src@, old(ctx).offset as int) {
                Some(k) => r == Some(NestedPath::Anonymous) && final(br).idents@ == remembered(
                    old(br).idents@,
                    Literal { start: (old(ctx).offset + 4) as usize, end: k as usize },
                ) && final(br).params == old(br).params && final(ctx).offset == k + 1,
                None => true,
            },
            forall|b: u8|
                old(ctx).depth < MAX_DEPTH && old(ctx).at(0) == Some(b) && is_digit(b) ==> r
                    == ident_backref(old(br).idents@, b) && *final(br) == *old(br),
            old(ctx).at(0) matches Some(b) && !is_digit(b) && b != '?' as u8 && old(ctx).depth < MAX_DEPTH
                ==> match ident_at(old(ctx).src@, old(ctx).offset as int) {
                Some(l) => r == Some(NestedPath::Literal(l)) && final(br).idents@ == remembered(
                    old(br).idents@,
                    l,
                ) && final(ctx).offset == l.end + 1 && final(br).params == old(br).params,
                None => r is None,
            },
        decreases MAX_DEPTH - old(ctx).depth, 0int,
    {
        if ctx.descent().is_none() {
            return None;
        }
        let r = NestedPath::parse_body(ctx, br);
        ctx.ascent();
        r
    }

    fn parse_body(ctx: &mut Context, br: &mut Backrefs) -> (r: Option<NestedPath>)
        requires
            old(ctx).wf(),
            old(br).wf(),
        ensures
            balanced(*old(ctx), *final(ctx)),
            grown(*old(br), *final(br)),
            r is Some ==> final(ctx).offset > old(ctx).offset,
            r matches Some(NestedPath::Template(t)) ==> final(br).params == old(br).params
                && final(br).idents@ == with_template_leaf(old(br).idents@, t),
            old(ctx).depth + 1 < MAX_DEPTH && old(ctx).at(0) == Some('?' as u8) && old(ctx).at(1) == Some(
                '$' as u8,
            ) ==> match simple_template(old(ctx).src@, old(ctx).offset + 2) {
                Some((l, ps, n)) => r is Some && r->0 is Template && *r->0->Template_0.name
                    == NestedPath::Literal(l) && r->0->Template_0.params@ == ps && final(br).idents@
                    == remembered(old(br).idents@, l) && final(ctx).offset == n,
                None => true,
            },
            match anonymous_at(old(ctx).src@, old(ctx).offset as int) {
                Some(k) => r == Some(NestedPath::Anonymous) && final(br).idents@ == remembered(
                    old(br).idents@,
                    Literal { start: (old(ctx).offset + 4) as usize, end: k as usize },
                ) && final(br).params == old(br).params && final(ctx).offset == k + 1,
                None => true,
            },
            forall|b: u8|
                old(ctx).at(0) == Some(b) && is_digit(b) ==> r == ident_backref(old(br).idents@, b)
                    && *final(br) == *old(br),
            old(ctx).at(0) matches Some(b) && !is_digit(b) && b != '?' as u8 ==> match ident_at(
                old(ctx).src@,
                old(ctx).offset as int,
            ) {
                Some(l) => r == Some(NestedPath::Literal(l)) && final(br).idents@ == remembered(
                    old(br).idents@,
                    l,
                ) && final(ctx).offset == l.end + 1 && final(br).params == old(br).params,
                None => r is None,
            },
        decreases MAX_DEPTH - old(ctx).depth, 4int,
    {
        if let Some(digit) = ctx.base10() {
            let lit = br.get_memorized_ident(digit)?;
            return Some(NestedPath::Literal(lit));
        }
        if ctx.eat('?' as u8) {
            let b = ctx.peek()?;
            if b == '?' as u8 {
                let sym = Symbol::parse(ctx, br)?;
                return Some(NestedPath::Symbol(Box::new(sym)));
            } else if b == '$' as u8 {
                ctx.take();
                let template = Template::parse(ctx)?;
                memorize_template_leaf(br, &template);
                return Some(NestedPath::Template(template));
            } else if b == 'A' as u8 {
                ctx.take();
                if ctx.eat2('0' as u8, 'x' as u8) {
                    let start = ctx.offset;
                    while ctx.base16().is_some()
                        invariant
                            balanced(*old(ctx), *ctx),
                            start <= ctx.offset,
                            hex_end(ctx.src@, start as int) == hex_end(ctx.src@, ctx.offset as int),
                        decreases ctx.src@.len() - ctx.offset,
                    {
                    }
                    br.try_memorizing_ident(Literal { start, end: ctx.offset });
                }
                ctx.consume('@' as u8)?;
                return Some(NestedPath::Anonymous);
            } else if b == 'Q' as u8 {
                ctx.take();
                let ident = ctx.ident()?;
                ctx.consume('@' as u8)?;
                br.try_memorizing_ident(ident);
                return Some(NestedPath::Interface(ident));
            } else {
                let d = ctx.number()?;
                return Some(NestedPath::Disambiguator(d));
            }
        }
        let ident = ctx.ident()?;
        br.try_memorizing_ident(ident);
        Some(NestedPath::Literal(ident))
    }

    /// Reads the leaf name of a path: a remembered identifier, a template,
    /// an intrinsic, or a new identifier.
    pub fn parse_unqualified(ctx: &mut Context, br: &mut Backrefs) -> (r: Option<NestedPath>)
        requires
            old(ctx).wf(),
            old(br).wf(),
        ensures
            balanced(*old(ctx), *final(ctx)),
            grown(*old(br), *final(br)),
            r is Some ==> final(ctx).offset > old(ctx).offset,
            old(ctx).depth == MAX_DEPTH ==> r is None,
            forall|b: u8|
                old(ctx).depth < MAX_DEPTH && old(ctx).at(0) == Some(b) && is_digit(b) ==> r
                    == ident_backref(old(br).idents@, b) && *final(br) == *old(br),
            old(ctx).at(0) matches Some(b) && !is_digit(b) && b != '?' as u8 && old(ctx).depth < MAX_DEPTH
                ==> match ident_at(old(ctx).src@, old(ctx).offset as int) {
                Some(l) => r == Some(NestedPath::Literal(l)) && final(br).idents@ == remembered(
                    old(br).idents@,
                    l,
                ) && final(ctx).offset == l.end + 1 && final(br).params == old(br).params,
                None => r is None,
            },
            old(ctx).depth < MAX_DEPTH && old(ctx).at(0) == Some('?' as u8) && old(ctx).at(1) is Some
                && operator_of(old(ctx).at(1)->0) is Some ==> r == Some(
                NestedPath::Intrinsics(operator_of(old(ctx).at(1)->0)->0),
            ) && final(ctx).offset == old(ctx).offset + 2 && *final(br) == *old(br),
        decreases MAX_DEPTH - old(ctx).depth, 0int,
    {
        if ctx.descent().is_none() {
            return None;
        }
        let r = NestedPath::parse_unqualified_body(ctx, br);
        ctx.ascent();
        r
    }

    fn parse_unqualified_body(ctx: &mut Context, br: &mut Backrefs) -> (r: Option<NestedPath>)
        requires
            old(ctx).wf(),
            old(br).wf(),
        ensures
            old(ctx).at(0) == Some('?' as u8) && old(ctx).at(1) is Some && operator_of(old(ctx).at(1)->0)
                is Some ==> r == Some(NestedPath::Intrinsics(operator_of(old(ctx).at(1)->0)->0))
                && final(ctx).offset == old(ctx).offset + 2 && *final(br) == *old(br),
            balanced(*old(ctx), *final(ctx)),
            grown(*old(br), *final(br)),
            r is Some ==> final(ctx).offset > old(ctx).offset,
            forall|b: u8|
                old(ctx).at(0) == Some(b) && is_digit(b) ==> r == ident_backref(old(br).idents@, b)
                    && *final(br) == *old(br),
            old(ctx).at(0) matches Some(b) && !is_digit(b) && b != '?' as u8 ==> match ident_at(
                old(ctx).src@,
                old(ctx).offset as int,
            ) {
                Some(l) => r == Some(NestedPath::Literal(l)) && final(br).idents@ == remembered(
                    old(br).idents@,
                    l,
                ) && final(ctx).offset == l.end + 1 && final(br).params == old(br).params,
                None => r is None,
            },
        decreases MAX_DEPTH - old(ctx).depth, 4int,
    {
        if let Some(digit) = ctx.base10() {
            let lit = br.get_memorized_ident(digit)?;
            return Some(NestedPath::Literal(lit));
        }
        if ctx.eat('?' as u8) {
            if ctx.eat('$' as u8) {
                let template = Template::parse(ctx)?;
                memorize_template_leaf(br, &template);
                return Some(NestedPath::Template(template));
            }
            let op = Intrinsics::parse(ctx, br)?;
            return Some(NestedPath::Intrinsics(op));
        }
        let name = ctx.ident()?;
        br.try_memorizing_ident(name);
        Some(NestedPath::Literal(name))
    }
}

/// Reads the symbol (or, failing that, the identifier) that a dynamic
/// initializer or at-exit destructor refers to.
fn parse_initialized(ctx: &mut Context, br: &mut Backrefs) -> (r: Option<Symbol>)
    requires
        old(ctx).wf(),
        old(br).wf(),
    ensures
        balanced(*old(ctx), *final(ctx)),
        grown(*old(br), *final(br)),
    decreases MAX_DEPTH - old(ctx).depth, 1int,
{
    let save = ctx.offset;
    match Symbol::parse(ctx, br) {
        Some(sym) => Some(sym),
        None => {
            ctx.offset = save;
            let lit = Literal::parse(ctx, br)?;
            Some(Symbol::from_name(NestedPath::Literal(lit)))
        },
    }
}

/// The operator that a one-byte code names.
pub open spec fn operator_of(b: u8) -> Option<Intrinsics> {
    match b as char {
        '0' => Some(Intrinsics::Ctor),
        '1' => Some(Intrinsics::Dtor),
        '2' => Some(Intrinsics::New),
        '3' => Some(Intrinsics::Delete),
        '4' => Some(Intrinsics::Assign),
        '5' => Some(Intrinsics::ShiftRight),
        '6' => Some(Intrinsics::ShiftLeft),
        '7' => Some(Intrinsics::LogicalNot),
        '8' => Some(Intrinsics::Equals),
        '9' => Some(Intrinsics::NotEquals),
        'A' => Some(Intrinsics::Array),
        'B' => Some(Intrinsics::TypeCast),
        'C' => Some(Intrinsics::Pointer),
        'D' => Some(Intrinsics::Dereference),
        'E' => Some(Intrinsics::Increment),
        'F' => Some(Intrinsics::Decrement),
        'G' => Some(Intrinsics::Minus),
        'H' => Some(Intrinsics::Plus),
        'I' => Some(Intrinsics::ArithmeticAND),
        'J' => Some(Intrinsics::MemberDereference),
        'K' => Some(Intrinsics::Divide),
        'L' => Some(Intrinsics::Modulus),
        'M' => Some(Intrinsics::Less),
        'N' => Some(Intrinsics::LessEqual),
        'O' => Some(Intrinsics::Greater),
        'P' => Some(Intrinsics::GreaterEqual),
        'Q' => Some(Intrinsics::Comma),
        'R' => Some(Intrinsics::Calling),
        'S' => Some(Intrinsics::ArithmeticNot),
        'T' => Some(Intrinsics::Xor),
        'U' => Some(Intrinsics::ArithmeticOR),
        'V' => Some(Intrinsics::LogicalAND),
        'W' => Some(Intrinsics::LogicalOR),
        'X' => Some(Intrinsics::TimesEquals),
        'Y' => Some(Intrinsics::PlusEquals),
        'Z' => Some(Intrinsics::MinusEquals),
        _ => None,
    }
}

fn operator(b: u8) -> (r: Option<Intrinsics>)
    ensures
        r == operator_of(b),
{
    match b as char {
        '0' => Some(Intrinsics::Ctor),
        '1' => Some(Intrinsics::Dtor),
        '2' => Some(Intrinsics::New),
        '3' => Some(Intrinsics::Delete),
        '4' => Some(Intrinsics::Assign),
        '5' => Some(Intrinsics::ShiftRight),
        '6' => Some(Intrinsics::ShiftLeft),
        '7' => Some(Intrinsics::LogicalNot),
        '8' => Some(Intrinsics::Equals),
        '9' => Some(Intrinsics::NotEquals),
        'A' => Some(Intrinsics::Array),
        'B' => Some(Intrinsics::TypeCast),
        'C' => Some(Intrinsics::Pointer),
        'D' => Some(Intrinsics::Dereference),
        'E' => Some(Intrinsics::Increment),
        'F' => Some(Intrinsics::Decrement),
        'G' => Some(Intrinsics::Minus),
        'H' => Some(Intrinsics::Plus),
        'I' => Some(Intrinsics::ArithmeticAND),
        'J' => Some(Intrinsics::MemberDereference),
        'K' => Some(Intrinsics::Divide),
        'L' => Some(Intrinsics::Modulus),
        'M' => Some(Intrinsics::Less),
        'N' => Some(Intrinsics::LessEqual),
        'O' => Some(Intrinsics::Greater),
        'P' => Some(Intrinsics::GreaterEqual),
        'Q' => Some(Intrinsics::Comma),
        'R' => Some(Intrinsics::Calling),
        'S' => Some(Intrinsics::ArithmeticNot),
        'T' => Some(Intrinsics::Xor),
        'U' => Some(Intrinsics::ArithmeticOR),
        'V' => Some(Intrinsics::LogicalAND),
        'W' => Some(Intrinsics::LogicalOR),
        'X' => Some(Intrinsics::TimesEquals),
        'Y' => Some(Intrinsics::PlusEquals),
        'Z' => Some(Intrinsics::MinusEquals),
        _ => None,
    }
}

impl Intrinsics {
    /// Reads the code of an operator or compiler-generated name.
    pub fn parse(ctx: &mut Context, br: &mut Backrefs) -> (r: Option<Intrinsics>)
        requires
            old(ctx).wf(),
            old(br).wf(),
        ensures
            balanced(*old(ctx), *final(ctx)),
            grown(*old(br), *final(br)),
            r is Some ==> final(ctx).offset > old(ctx).offset,
            old(ctx).at(0) == Some('_' as u8) && old(ctx).at(1) == Some('R' as u8) && old(ctx).at(2) == Some(
                '1' as u8,
            ) ==> match four_numbers(old(ctx).src@, old(ctx).offset + 3) {
                Some((a, b, c, d, n)) => r == Some(
                    Intrinsics::RTTIBaseClassDescriptor {
                        nv_off: a as i64,
                        ptr_off: b as i64,
                        vbtable_off: c as i64,
                        flags: d as i64,
                    },
                ) && final(ctx).offset == n,
                None => r is None,
            },
            old(ctx).at(0) matches Some(b) && operator_of(b) is Some ==> r == operator_of(
                old(ctx).at(0)->0,
            ) && final(ctx).offset == old(ctx).offset + 1 && *final(br) == *old(br),
        decreases MAX_DEPTH - old(ctx).depth, 2int,
    {
        let b = ctx.take()?;
        if let Some(op) = operator(b) {
            return Some(op);
        }
        let op = match b as char {
            '_' => {
                let b2 = ctx.take()?;
                match b2 as char {
                    '0' => Intrinsics::DivideEquals,
                    '1' => Intrinsics::ModulusEquals,
                    '2' => Intrinsics::ShiftRightEquals,
                    '3' => Intrinsics::ShiftLeftEquals,
                    '4' => Intrinsics::ANDEquals,
                    '5' => Intrinsics::OREquals,
                    '6' => Intrinsics::XorEquals,
                    '7' => Intrinsics::VFTable,
                    '8' => Intrinsics::VBTable,
                    '9' => Intrinsics::VCall,
                    'A' => Intrinsics::TypeOff,
                    'B' => Intrinsics::LocalStaticGuard,
                    'C' => Intrinsics::String,
                    'D' => Intrinsics::VBaseDtor,
                    'E' => Intrinsics::VectorDeletingDtor,
                    'F' => Intrinsics::DefaultCtorClosure,
                    'G' => Intrinsics::ScalarDeletingDtor,
                    'H' => Intrinsics::VecCtorIter,
                    'I' => Intrinsics::VecDtorIter,
                    'J' => Intrinsics::VecVbaseCtorIter,
                    'K' => Intrinsics::VdispMap,
                    'L' => Intrinsics::EHVecCtorIter,
                    'M' => Intrinsics::EHVecDtorIter,
                    'N' => Intrinsics::EHVecVbaseCtorIter,
                    'O' => Intrinsics::CopyCtorClosure,
                    'R' => {
                        let b3 = ctx.take()?;
                        match b3 as char {
                            '0' => {
                                ctx.push_modifiers(Modifiers::empty());
                                let tipe = Type::parse(ctx, br)?;
                                let modi = Modifiers::parse(ctx);
                                Intrinsics::RTTITypeDescriptor(modi, Box::new(tipe))
                            },
                            '1' => {
                                let nv_off = ctx.number()?;
                                let ptr_off = ctx.number()?;
                                let vbtable_off = ctx.number()?;
                                let flags = ctx.number()?;
                                Intrinsics::RTTIBaseClassDescriptor {
                                    nv_off,
                                    ptr_off,
                                    vbtable_off,
                                    flags,
                                }
                            },
                            '2' => Intrinsics::RTTIBaseClassArray,
                            '3' => Intrinsics::RTTIClassHierarchyDescriptor,
                            '4' => Intrinsics::RTTIClassCompleteObjectLocator,
                            _ => return None,
                        }
                    },
                    'S' => Intrinsics::LocalVFTable,
                    'T' => Intrinsics::LocalVftableCtorClosure,
                    'U' => Intrinsics::NewArray,
                    'V' => Intrinsics::DeleteArray,
                    'X' => Intrinsics::PlacementDeleteClosure,
                    'Y' => Intrinsics::PlacementDeleteArrayClosure,
                    '_' => {
                        let b3 = ctx.take()?;
                        match b3 as char {
                            'L' => Intrinsics::CoAwait,
                            'E' => Intrinsics::DynamicInitializer(Box::new(parse_initialized(ctx, br)?)),
                            'F' => Intrinsics::DynamicAtExitDtor(Box::new(parse_initialized(ctx, br)?)),
                            'J' => Intrinsics::LocalStaticThreadGuard,
                            'M' => Intrinsics::Spaceship,
                            'K' => Intrinsics::SourceName(ctx.ident()?),
                            _ => return None,
                        }
                    },
                    _ => return None,
                }
            },
            _ => return None,
        };
        Some(op)
    }
}

impl Symbol {
    /// Reads a mangled name, starting at its `?`.
    pub fn parse(ctx: &mut Context, br: &mut Backrefs) -> (r: Option<Symbol>)
        requires
            old(ctx).wf(),
            old(br).wf(),
        ensures
            balanced(*old(ctx), *final(ctx)),
            grown(*old(br), *final(br)),
            r is Some ==> final(ctx).offset > old(ctx).offset,
            r is Some ==> old(ctx).at(0) == Some('?' as u8),
            old(ctx).offset + 1 >= old(ctx).src@.len() ==> r is None,
            r is Some && old(ctx).at(1) == Some('?' as u8) && old(ctx).at(2) == Some('@' as u8) ==> {
                &&& old(ctx).offset + 35 < old(ctx).src@.len()
                &&& hex_run(old(ctx).src@, old(ctx).offset + 3, old(ctx).offset + 35)
                &&& old(ctx).src@[old(ctx).offset + 35] == '@' as u8
                &&& r->0.path.name == NestedPath::MD5(
                    Literal { start: (old(ctx).offset + 3) as usize, end: (old(ctx).offset + 35) as usize },
                )
                &&& r->0.path.scope.0@.len() == 0
                &&& r->0.tipe is Unit
            },
            old(ctx).depth == MAX_DEPTH ==> r is None,
            tss_at(old(ctx).src@, old(ctx).offset as int) ==> r is None,
            old(ctx).depth < MAX_DEPTH && md5_name_at(old(ctx).src@, old(ctx).offset as int) ==> r is Some
                && final(ctx).offset == old(ctx).offset + 36,
            old(ctx).depth + 4 < MAX_DEPTH ==> match simple_member(old(ctx).src@, old(ctx).offset as int) {
                Some((name, sc, ss, q, cc, ret, ps, n)) => r is Some && r->0.path.name == name
                    && r->0.path.scope.0@ == sc && r->0.tipe is MemberFunction
                    && r->0.tipe->MemberFunction_0.storage_scope == ss
                    && r->0.tipe->MemberFunction_0.qualifiers == q
                    && r->0.tipe->MemberFunction_0.calling_conv == cc
                    && *r->0.tipe->MemberFunction_0.return_type == ret
                    && r->0.tipe->MemberFunction_0.params@ == ps && final(ctx).offset == n
                    && final(br).idents@ == remember_path(old(br).idents@, name, sc),
                None => true,
            },
            old(ctx).depth + 5 < MAX_DEPTH ==> match pointer_returning_function(
                old(ctx).src@,
                old(ctx).offset as int,
            ) {
                Some((l, sc, cc, inner, ps, n)) => r is Some && r->0.path.name == l && r->0.path.scope.0@
                    == sc && r->0.tipe is Function && r->0.tipe->Function_0.calling_conv == cc
                    && is_function_pointer(
                    *r->0.tipe->Function_0.return_type,
                    Modifiers(0),
                    inner.0,
                    inner.1,
                    inner.2,
                ) && r->0.tipe->Function_0.params@ == ps && r->0.tipe->Function_0.qualifiers.0 == 0
                    && final(ctx).offset == n && final(br).idents@ == remember_path(old(br).idents@, l, sc),
                None => true,
            },
            old(ctx).depth + 4 < MAX_DEPTH ==> match simple_function(old(ctx).src@, old(ctx).offset as int) {
                Some((l, sc, cc, ret, ps, n)) => r is Some && r->0.path.name == l
                    && r->0.path.scope.0@ == sc && r->0.tipe is Function
                    && r->0.tipe->Function_0.calling_conv == cc && *r->0.tipe->Function_0.return_type == ret
                    && r->0.tipe->Function_0.params@ == ps && r->0.tipe->Function_0.qualifiers.0 == 0
                    && final(ctx).offset == n && final(br).idents@ == remember_path(old(br).idents@, l, sc),
                None => true,
            },
            old(ctx).depth + 3 < MAX_DEPTH ==> match simple_variable(old(ctx).src@, old(ctx).offset as int) {
                Some((l, sc, v, n)) => r is Some && r->0.path.name == l
                    && r->0.path.scope.0@ == sc && r->0.tipe == Type::Variable(v) && final(ctx).offset
                    == n && final(br).idents@ == remember_path(old(br).idents@, l, sc) && final(br).params
                    == old(br).params,
                None => true,
            },
        decreases MAX_DEPTH - old(ctx).depth, 0int,
    {
        if ctx.descent().is_none() {
            return None;
        }
        let r = Symbol::parse_body(ctx, br);
        ctx.ascent();
        r
    }

    #[verifier::rlimit(100)]
    fn parse_body(ctx: &mut Context, br: &mut Backrefs) -> (r: Option<Symbol>)
        requires
            old(ctx).wf(),
            old(br).wf(),
        ensures
            balanced(*old(ctx), *final(ctx)),
            grown(*old(br), *final(br)),
            r is Some ==> final(ctx).offset > old(ctx).offset,
            r is Some ==> old(ctx).at(0) == Some('?' as u8),
            old(ctx).offset + 1 >= old(ctx).src@.len() ==> r is None,
            r is Some && old(ctx).at(1) == Some('?' as u8) && old(ctx).at(2) == Some('@' as u8) ==> {
                &&& old(ctx).offset + 35 < old(ctx).src@.len()
                &&& hex_run(old(ctx).src@, old(ctx).offset + 3, old(ctx).offset + 35)
                &&& old(ctx).src@[old(ctx).offset + 35] == '@' as u8
                &&& r->0.path.name == NestedPath::MD5(
                    Literal { start: (old(ctx).offset + 3) as usize, end: (old(ctx).offset + 35) as usize },
                )
                &&& r->0.path.scope.0@.len() == 0
                &&& r->0.tipe is Unit
            },
            tss_at(old(ctx).src@, old(ctx).offset as int) ==> r is None,
            md5_name_at(old(ctx).src@, old(ctx).offset as int) ==> r is Some && final(ctx).offset
                == old(ctx).offset + 36,
            old(ctx).depth + 3 < MAX_DEPTH ==> match simple_member(old(ctx).src@, old(ctx).offset as int) {
                Some((name, sc, ss, q, cc, ret, ps, n)) => r is Some && r->0.path.name == name
                    && r->0.path.scope.0@ == sc && r->0.tipe is MemberFunction
                    && r->0.tipe->MemberFunction_0.storage_scope == ss
                    && r->0.tipe->MemberFunction_0.qualifiers == q
                    && r->0.tipe->MemberFunction_0.calling_conv == cc
                    && *r->0.tipe->MemberFunction_0.return_type == ret
                    && r->0.tipe->MemberFunction_0.params@ == ps && final(ctx).offset == n
                    && final(br).idents@ == remember_path(old(br).idents@, name, sc),
                None => true,
            },
            old(ctx).depth + 4 < MAX_DEPTH ==> match pointer_returning_function(
                old(ctx).src@,
                old(ctx).offset as int,
            ) {
                Some((l, sc, cc, inner, ps, n)) => r is Some && r->0.path.name == l && r->0.path.scope.0@
                    == sc && r->0.tipe is Function && r->0.tipe->Function_0.calling_conv == cc
                    && is_function_pointer(
                    *r->0.tipe->Function_0.return_type,
                    Modifiers(0),
                    inner.0,
                    inner.1,
                    inner.2,
                ) && r->0.tipe->Function_0.params@ == ps && r->0.tipe->Function_0.qualifiers.0 == 0
                    && final(ctx).offset == n && final(br).idents@ == remember_path(old(br).idents@, l, sc),
                None => true,
            },
            old(ctx).depth + 3 < MAX_DEPTH ==> match simple_function(old(ctx).src@, old(ctx).offset as int) {
                Some((l, sc, cc, ret, ps, n)) => r is Some && r->0.path.name == l
                    && r->0.path.scope.0@ == sc && r->0.tipe is Function
                    && r->0.tipe->Function_0.calling_conv == cc && *r->0.tipe->Function_0.return_type == ret
                    && r->0.tipe->Function_0.params@ == ps && r->0.tipe->Function_0.qualifiers.0 == 0
                    && final(ctx).offset == n && final(br).idents@ == remember_path(old(br).idents@, l, sc),
                None => true,
            },
            old(ctx).depth + 2 < MAX_DEPTH ==> match simple_variable(old(ctx).src@, old(ctx).offset as int) {
                Some((l, sc, v, n)) => r is Some && r->0.path.name == l
                    && r->0.path.scope.0@ == sc && r->0.tipe == Type::Variable(v) && final(ctx).offset
                    == n && final(br).idents@ == remember_path(old(br).idents@, l, sc) && final(br).params
                    == old(br).params,
                None => true,
            },
        decreases MAX_DEPTH - old(ctx).depth, 4int,
    {
        ctx.consume('?' as u8)?;
        if ctx.peek() == Some('?' as u8) && ctx.peek_at(1) == Some('@' as u8) {
            ctx.take();
            ctx.take();
            let hash = parse_md5(ctx)?;
            return Some(Symbol::from_name(NestedPath::MD5(hash)));
        }
        if ctx.peek() == Some('$' as u8) && ctx.peek_at(1) == Some('T' as u8) && ctx.peek_at(2) == Some(
            'S' as u8,
        ) && ctx.peek_at(3) == Some('S' as u8) {
            // Thread-safe static guards are not supported.
            return None;
        }
        if ctx.eat('$' as u8) {
            let template = Template::parse(ctx)?;
            return Some(Symbol::from_name(NestedPath::Template(template)));
        }
        let path = Path::parse(ctx, br)?;
        if ctx.is_empty() {
            return Some(Symbol { path, tipe: Type::Unit });
        }
        ctx.parsing_qualifiers = false;
        let tipe = parse_symbol_type(ctx, br)?;
        Some(Symbol { path, tipe })
    }
}

} // verus!
