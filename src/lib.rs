//! Demangler for Microsoft Visual C++ decorated symbol names.
//!
//! A mangled name is parsed into a syntax tree ([`ast`]) by the recursive
//! descent parser in [`parser`], over the cursor of [`context`] and the
//! one-byte codes of [`tables`]; [`render`] then writes the tree into a
//! [`tokens::TokenStream`] of coloured text spans. [`lines`] demangles the
//! symbol named in a line of disassembly.
use vstd::prelude::*;

pub mod tokens;
pub mod context;
pub mod ast;
pub mod copy;
pub mod tables;
pub mod parser;
pub mod render;
pub mod lines;

use crate::ast::{Backrefs, CallingConv, NestedPath, StorageScope, Symbol, Type};
use crate::context::Modifiers;
use crate::context::{byte_at, Context, Literal};
use crate::parser::{is_function_pointer, pointer_returning_function, remember_path, md5_name_at, simple_function, simple_member, simple_variable, tss_at};
use crate::render::{
    enclosing_name, scope_into, storage_scope_into, then_tok, calling_conv_into, function_params_into, literal_toks, modifiers_into, nested_into, return_pre_into,
    type_post_into, type_pre_into,
};
use crate::tokens::{tok, Color, Span};
use crate::tokens::TokenStream;
use vstd::string::StringSliceAdditionalSpecFns;

verus! {

/// Index where the name proper starts: after one leading `.`, if any.
pub open spec fn name_start(input: Seq<u8>) -> int {
    if byte_at(input, 0) == Some('.' as u8) {
        1
    } else {
        0
    }
}

/// The spans of an MD5-hashed name whose digits start at index `i`.
pub open spec fn md5_spans(input: Seq<u8>, i: int) -> Seq<Span> {
    Seq::<Span>::empty() + tok("??@", Color::Gray20) + literal_toks(
        input,
        Literal { start: i as usize, end: (i + 32) as usize },
        Color::Gray20,
    ) + tok("@", Color::Gray20)
}

/// The spans of the name `l` in scope `sc`, after `acc`.
pub open spec fn named_into(acc: Seq<Span>, input: Seq<u8>, l: NestedPath, sc: Seq<NestedPath>) -> Seq<Span> {
    let ctor = enclosing_name(sc);
    nested_into(
        then_tok(scope_into(acc, sc, input, ctor), sc.len() > 0, tok("::", Color::Gray20)),
        l,
        input,
        ctor,
    )
}

/// The spans of a data symbol named `l` in scope `sc`, of variable `v`.
pub open spec fn variable_spans(
    input: Seq<u8>,
    l: NestedPath,
    sc: Seq<NestedPath>,
    v: crate::ast::Variable,
) -> Seq<Span> {
    let t = Type::Variable(v);
    let ctor = enclosing_name(sc);
    type_post_into(named_into(type_pre_into(Seq::empty(), t, input, ctor), input, l, sc), t, input, ctor)
}

/// The spans of a global function named `l` in scope `sc`, with no
/// qualifiers, calling convention `cc`, return type `ret` and parameters
/// `ps`.
pub open spec fn function_spans(
    input: Seq<u8>,
    l: NestedPath,
    sc: Seq<NestedPath>,
    cc: CallingConv,
    ret: Type,
    ps: Seq<Type>,
) -> Seq<Span> {
    let ctor = enclosing_name(sc);
    let pre = calling_conv_into(return_pre_into(Seq::empty(), ret, input, ctor), cc) + tok(
        " ",
        Color::White,
    );
    type_post_into(
        modifiers_into(function_params_into(named_into(pre, input, l, sc), ps, input, ctor), Modifiers(0)),
        ret,
        input,
        ctor,
    )
}

/// The spans of a member function named `l` in scope `sc`, with storage
/// scope `ss`, qualifiers `q`, calling convention `cc`, return type `ret`
/// and parameters `ps`.
pub open spec fn member_spans(
    input: Seq<u8>,
    l: NestedPath,
    sc: Seq<NestedPath>,
    ss: StorageScope,
    q: Modifiers,
    cc: CallingConv,
    ret: Type,
    ps: Seq<Type>,
) -> Seq<Span> {
    let ctor = enclosing_name(sc);
    let pre = calling_conv_into(
        return_pre_into(storage_scope_into(Seq::empty(), ss), ret, input, ctor),
        cc,
    ) + tok(" ", Color::White);
    type_post_into(
        modifiers_into(function_params_into(named_into(pre, input, l, sc), ps, input, ctor), q),
        ret,
        input,
        ctor,
    )
}

/// Parses a mangled name (one leading `.` is skipped) into its syntax tree.
/// Also returns the parse state and the back-reference tables as the parse
/// left them: the modifier stack is empty, the recursion depth is back to
/// zero and each table holds at most ten entries, whether the parse
/// succeeded or not. For MD5 names and for simple variables, functions and
/// member functions (plain names and scopes, scalar or pointer-to-scalar
/// types, and functions returning a pointer to such a function) the tree
/// and the identifier table are stated exactly; thread-safe
/// static guards (`?$TSS`) fail.
pub fn parse_tree(input: &[u8]) -> (r: (Option<Symbol>, Context, Backrefs))
    ensures
        r.1.mods@.len() == 0,
        r.1.depth == 0,
        r.2.wf(),
        r.1.src@ == input@,
        input@.len() == 0 ==> r.0 is None,
        input@ == seq!['?' as u8] ==> r.0 is None,
        input@ == seq!['.' as u8, '?' as u8] ==> r.0 is None,
        tss_at(input@, name_start(input@)) ==> r.0 is None,
        md5_name_at(input@, name_start(input@)) ==> r.0 is Some && r.0->0.path.name == NestedPath::MD5(
            Literal { start: (name_start(input@) + 3) as usize, end: (name_start(input@) + 35) as usize },
        ) && r.0->0.path.scope.0@.len() == 0 && r.0->0.tipe is Unit,
        simple_variable(input@, name_start(input@)) matches Some((l, sc, v, n)) ==> r.0 is Some
            && r.0->0.path.name == l && r.0->0.path.scope.0@ == sc
            && r.0->0.tipe == Type::Variable(v) && r.2.idents@ == remember_path(Seq::empty(), l, sc)
            && r.2.params@.len() == 0,
        simple_function(input@, name_start(input@)) matches Some((l, sc, cc, ret, ps, n)) ==> r.0 is Some
            && r.0->0.path.name == l && r.0->0.path.scope.0@ == sc
            && r.0->0.tipe is Function && r.0->0.tipe->Function_0.calling_conv == cc
            && *r.0->0.tipe->Function_0.return_type == ret && r.0->0.tipe->Function_0.params@ == ps
            && r.0->0.tipe->Function_0.qualifiers.0 == 0 && r.2.idents@ == remember_path(
            Seq::empty(),
            l,
            sc,
        ),
        simple_member(input@, name_start(input@)) matches Some((l, sc, ss, q, cc, ret, ps, n)) ==> r.0 is Some
            && r.0->0.path.name == l && r.0->0.path.scope.0@ == sc && r.0->0.tipe is MemberFunction
            && r.0->0.tipe->MemberFunction_0.storage_scope == ss
            && r.0->0.tipe->MemberFunction_0.qualifiers == q
            && r.0->0.tipe->MemberFunction_0.calling_conv == cc
            && *r.0->0.tipe->MemberFunction_0.return_type == ret
            && r.0->0.tipe->MemberFunction_0.params@ == ps && r.2.idents@ == remember_path(
            Seq::empty(),
            l,
            sc,
        ),
        pointer_returning_function(input@, name_start(input@)) matches Some((l, sc, cc, inner, ps, n))
            ==> r.0 is Some && r.0->0.path.name == l && r.0->0.path.scope.0@ == sc && r.0->0.tipe is Function
            && r.0->0.tipe->Function_0.calling_conv == cc && is_function_pointer(
            *r.0->0.tipe->Function_0.return_type,
            Modifiers(0),
            inner.0,
            inner.1,
            inner.2,
        ) && r.0->0.tipe->Function_0.params@ == ps && r.0->0.tipe->Function_0.qualifiers.0 == 0
            && r.2.idents@ == remember_path(Seq::empty(), l, sc),
{
    let mut ctx = Context::new(input);
    let mut backrefs = Backrefs::new();
    proof {
        assert(backrefs.idents@ =~= Seq::<Literal>::empty());
    }
    ctx.eat('.' as u8);
    let sym = Symbol::parse(&mut ctx, &mut backrefs);
    (sym, ctx, backrefs)
}

/// Demangles the bytes of a mangled name into coloured text; `None` when
/// the input is not a name this grammar accepts. The text is the rendering
/// of the tree that `parse_tree` reads from the input; for the forms that
/// `parse_tree` states exactly, the spans are given in full.
pub fn demangle(input: &[u8]) -> (r: Option<TokenStream>)
    ensures
        r matches Some(ts) ==> ts.tokens@.len() > 0,
        r matches Some(ts) ==> exists|s: Symbol| #[trigger] render::symbol_toks(s, input@) == ts@,
        input@.len() == 0 ==> r is None,
        input@ == seq!['?' as u8] ==> r is None,
        tss_at(input@, name_start(input@)) ==> r is None,
        md5_name_at(input@, name_start(input@)) ==> r is Some && r->0@ == md5_spans(
            input@,
            name_start(input@) + 3,
        ),
        simple_variable(input@, name_start(input@)) matches Some((l, sc, v, n)) ==> r is Some && r->0@
            == variable_spans(input@, l, sc, v),
        simple_function(input@, name_start(input@)) matches Some((l, sc, cc, ret, ps, n)) ==> r is Some
            && r->0@ == function_spans(input@, l, sc, cc, ret, ps),
        simple_member(input@, name_start(input@)) matches Some((l, sc, ss, q, cc, ret, ps, n)) ==> r is Some
            && r->0@ == member_spans(input@, l, sc, ss, q, cc, ret, ps),
        pointer_returning_function(input@, name_start(input@)) matches Some((l, sc, cc, inner, ps, n))
            ==> r is Some && exists|ret: Type|
            is_function_pointer(ret, Modifiers(0), inner.0, inner.1, inner.2) && r->0@
                == #[trigger] function_spans(input@, l, sc, cc, ret, ps),
{
    let (sym, ctx, _backrefs) = parse_tree(input);
    match sym {
        Some(sym) => {
            let mut stream = TokenStream::new();
            render::render_symbol(&sym, &ctx.src, &mut stream);
            proof {
                assert(render::symbol_toks(sym, input@) == stream@);
                if let Some((l, sc, cc, inner, ps, n)) = pointer_returning_function(
                    input@,
                    name_start(input@),
                ) {
                    let ret = *sym.tipe->Function_0.return_type;
                    assert(function_spans(input@, l, sc, cc, ret, ps) == stream@);
                }
            }
            Some(stream)
        },
        None => None,
    }
}

/// Demangles a mangled name into coloured text; `None` when the input is
/// not a name this grammar accepts.
pub fn parse(s: &str) -> (r: Option<TokenStream>)
    ensures
        r matches Some(ts) ==> ts.tokens@.len() > 0,
        r matches Some(ts) ==> exists|t: Symbol| #[trigger] render::symbol_toks(t, s.spec_bytes()) == ts@,
        tss_at(s.spec_bytes(), name_start(s.spec_bytes())) ==> r is None,
        md5_name_at(s.spec_bytes(), name_start(s.spec_bytes())) ==> r is Some && r->0@ == md5_spans(
            s.spec_bytes(),
            name_start(s.spec_bytes()) + 3,
        ),
        simple_variable(s.spec_bytes(), name_start(s.spec_bytes())) matches Some((l, sc, v, n)) ==> r is Some
            && r->0@ == variable_spans(s.spec_bytes(), l, sc, v),
        simple_function(s.spec_bytes(), name_start(s.spec_bytes())) matches Some((l, sc, cc, ret, ps, n))
            ==> r is Some && r->0@ == function_spans(s.spec_bytes(), l, sc, cc, ret, ps),
        simple_member(s.spec_bytes(), name_start(s.spec_bytes())) matches Some(
            (l, sc, ss, q, cc, ret, ps, n),
        ) ==> r is Some && r->0@ == member_spans(s.spec_bytes(), l, sc, ss, q, cc, ret, ps),
        pointer_returning_function(s.spec_bytes(), name_start(s.spec_bytes())) matches Some(
            (l, sc, cc, inner, ps, n),
        ) ==> r is Some && exists|ret: Type|
            is_function_pointer(ret, Modifiers(0), inner.0, inner.1, inner.2) && r->0@
                == #[trigger] function_spans(s.spec_bytes(), l, sc, cc, ret, ps),
        s.spec_bytes().len() == 0 ==> r is None,
        s.spec_bytes() == seq!['?' as u8] ==> r is None,
{
    demangle(s.as_bytes())
}

} // verus!
