//! Rendering of the syntax tree into a token stream.
//!
//! C++ declarators read inside-out, so a type renders in two passes:
//! `type_pre` writes what stands left of the declared name (return type,
//! `*`, `&`) and `type_post` what stands right of it (parameter lists, array
//! extents).
//!
//! Each step is specified by a spec function `*_into(acc, ...)`: the spans
//! of a stream that held `acc` once the step has appended its own. The
//! executable functions append exactly those spans.
use vstd::prelude::*;
use crate::ast::{
    CallingConv, Intrinsics, NestedPath, Path, Scope, StorageScope, StorageVariable, Symbol,
    Template, Type, PRIVATE, PROTECTED, PUBLIC, STATIC, VIRTUAL,
};
use crate::context::{Literal, Modifiers, CONST, FAR, LVALUE, RESTRICT, RVALUE, UNALIGNED, VOLATILE};
use crate::tokens::{is_prefix, tok, Color, Span, TokenStream};

verus! {

broadcast use {
    vstd::std_specs::vec::axiom_vec_index_decreases,
    vstd::std_specs::vec::axiom_vec_decreases_to_view,
    vstd::seq::axiom_seq_index_decreases,
    vstd::seq::axiom_seq_subrange_decreases,
};

/// `b` is `a` with zero or more tokens appended.
pub open spec fn appended(a: TokenStream, b: TokenStream) -> bool {
    is_prefix(a.tokens@, b.tokens@)
}

/// Decimal digits of `n`, most significant first.
pub open spec fn digits_of(n: nat) -> Seq<u8>
    decreases n,
{
    if n < 10 {
        seq![('0' as u8 + n) as u8]
    } else {
        digits_of(n / 10).push(('0' as u8 + n % 10) as u8)
    }
}

/// Decimal text of `n`, with a leading `-` when negative.
pub open spec fn decimal_of(n: int) -> Seq<u8> {
    if n < 0 {
        seq!['-' as u8] + digits_of((-n) as nat)
    } else {
        digits_of(n as nat)
    }
}

/// Text of the identifier `lit`, cut to the input's length.
pub open spec fn literal_text(src: Seq<u8>, lit: Literal) -> Seq<u8> {
    let e: int = if lit.end <= src.len() {
        lit.end as int
    } else {
        src.len() as int
    };
    if lit.start < e {
        src.subrange(lit.start as int, e)
    } else {
        Seq::empty()
    }
}

pub open spec fn literal_toks(src: Seq<u8>, lit: Literal, c: Color) -> Seq<Span> {
    seq![(literal_text(src, lit), c)]
}

pub open spec fn number_toks(n: i64, c: Color) -> Seq<Span> {
    seq![(decimal_of(n as int), c)]
}

pub open spec fn has(bits: u32, flag: u32) -> bool {
    bits & flag == flag
}

/// `acc` followed by `t` when `b` holds.
pub open spec fn then_tok(acc: Seq<Span>, b: bool, t: Seq<Span>) -> Seq<Span> {
    if b {
        acc + t
    } else {
        acc
    }
}

pub open spec fn modifiers_into(acc: Seq<Span>, m: Modifiers) -> Seq<Span> {
    then_tok(
        then_tok(acc, has(m.0, CONST), tok(" const", Color::Blue)),
        has(m.0, VOLATILE),
        tok(" volatile", Color::Blue),
    )
}

pub open spec fn qualifiers_into(acc: Seq<Span>, m: Modifiers) -> Seq<Span> {
    let a1 = then_tok(acc, has(m.0, CONST), tok("const ", Color::Blue));
    let a2 = then_tok(a1, has(m.0, VOLATILE), tok("volatile ", Color::Blue));
    let a3 = then_tok(a2, has(m.0, FAR), tok("__far ", Color::Blue));
    let a4 = then_tok(a3, has(m.0, UNALIGNED), tok("__unaligned ", Color::Blue));
    let a5 = then_tok(a4, has(m.0, RESTRICT), tok("__restrict ", Color::Blue));
    let a6 = then_tok(a5, has(m.0, LVALUE), tok("& ", Color::Blue));
    then_tok(a6, has(m.0, RVALUE), tok("&& ", Color::Blue))
}

pub open spec fn calling_conv_name(c: CallingConv) -> &'static str {
    match c {
        CallingConv::Cdecl => "__cdecl",
        CallingConv::Pascal => "__pascal",
        CallingConv::Thiscall => "__thiscall",
        CallingConv::Stdcall => "__stdcall",
        CallingConv::Fastcall => "__fastcall",
        CallingConv::Clrcall => "__clrcall",
        CallingConv::Eabi => "__eabicall",
        CallingConv::Vectorcall => "__vectorcall",
    }
}

pub open spec fn calling_conv_into(acc: Seq<Span>, c: CallingConv) -> Seq<Span> {
    acc + tok(calling_conv_name(c), Color::Gray40)
}

pub open spec fn storage_variable_into(acc: Seq<Span>, s: StorageVariable) -> Seq<Span> {
    match s {
        StorageVariable::PrivateStatic => acc + tok("private: static ", Color::Purple),
        StorageVariable::ProtectedStatic => acc + tok("protected: static ", Color::Purple),
        StorageVariable::PublicStatic => acc + tok("public: static ", Color::Purple),
        _ => acc,
    }
}

pub open spec fn storage_scope_into(acc: Seq<Span>, s: StorageScope) -> Seq<Span> {
    let a1 = then_tok(acc, has(s.0, PUBLIC), tok("public: ", Color::Magenta));
    let a2 = then_tok(a1, has(s.0, PRIVATE), tok("private: ", Color::Magenta));
    let a3 = then_tok(a2, has(s.0, PROTECTED), tok("protected: ", Color::Magenta));
    let a4 = then_tok(a3, has(s.0, STATIC), tok("static ", Color::Magenta));
    then_tok(a4, has(s.0, VIRTUAL), tok("virtual ", Color::Magenta))
}

/// The keyword and modifiers of a built-in scalar type.
pub open spec fn primitive_of(t: Type) -> Option<(&'static str, Modifiers)> {
    match t {
        Type::Void(m) => Some(("void", m)),
        Type::Char(m) => Some(("char", m)),
        Type::Char8(m) => Some(("char8_t", m)),
        Type::Char16(m) => Some(("char16_t", m)),
        Type::Char32(m) => Some(("char32_t", m)),
        Type::IChar(m) => Some(("signed char", m)),
        Type::UChar(m) => Some(("unsigned char", m)),
        Type::WChar(m) => Some(("wchar_t", m)),
        Type::IShort(m) => Some(("short", m)),
        Type::UShort(m) => Some(("unsigned short", m)),
        Type::Int(m) => Some(("int", m)),
        Type::UInt(m) => Some(("unsigned int", m)),
        Type::Float(m) => Some(("float", m)),
        Type::Double(m) => Some(("double", m)),
        Type::LDouble(m) => Some(("long double", m)),
        Type::Long(m) => Some(("long", m)),
        Type::ULong(m) => Some(("unsigned long", m)),
        Type::Int8(m) => Some(("__int8", m)),
        Type::UInt8(m) => Some(("unsigned __int8", m)),
        Type::Int16(m) => Some(("__int16", m)),
        Type::UInt16(m) => Some(("unsigned __int16", m)),
        Type::Int32(m) => Some(("__int32", m)),
        Type::UInt32(m) => Some(("unsigned __int32", m)),
        Type::Int64(m) => Some(("__int64", m)),
        Type::UInt64(m) => Some(("unsigned __int64", m)),
        Type::Int128(m) => Some(("__int128", m)),
        Type::Uint128(m) => Some(("unsigned __int128", m)),
        Type::Bool(m) => Some(("bool", m)),
        _ => None,
    }
}

/// Function types: their second pass writes a parameter list.
pub open spec fn is_function_like(t: Type) -> bool {
    t is Function || t is MemberFunction || t is MemberFunctionPtr
}

/// A pointer or reference to `t` puts its sigil in parentheses.
pub open spec fn is_grouped(t: Type) -> bool {
    t is Function || t is MemberFunction || t is Array
}

/// A pointer or reference to a function: its text ends with the open
/// declarator `(conv*`, which the declared name follows directly.
pub open spec fn opens_declarator(t: Type) -> bool {
    match t {
        Type::Ptr(_, inner) => *inner is Function || *inner is MemberFunction,
        Type::Ref(_, inner) => *inner is Function || *inner is MemberFunction,
        Type::RValueRef(_, inner) => *inner is Function || *inner is MemberFunction,
        _ => false,
    }
}

pub open spec fn sigil(plain: &'static str, grouped: &'static str, g: bool) -> &'static str {
    if g {
        grouped
    } else {
        plain
    }
}

/// First pass of a type: what stands left of the declared name.
pub open spec fn type_pre_into(acc: Seq<Span>, t: Type, src: Seq<u8>, ctor: Option<Literal>) -> Seq<Span>
    decreases t, 0int,
{
    match primitive_of(t) {
        Some(p) => modifiers_into(acc + tok(p.0, Color::Magenta), p.1),
        None => match t {
            Type::Nullptr => acc + tok("std::nullptr_t", Color::Magenta),
            Type::W64(m, inner) => modifiers_into(
                type_into(acc + tok("__w64 ", Color::Magenta), *inner, src, ctor),
                m,
            ),
            Type::Union(m, p) => modifiers_into(
                path_into(acc + tok("union ", Color::Magenta), p, src, ctor),
                m,
            ),
            Type::Enum(m, p) => modifiers_into(
                path_into(acc + tok("enum ", Color::Magenta), p, src, ctor),
                m,
            ),
            Type::Struct(m, p) => modifiers_into(
                path_into(acc + tok("struct ", Color::Magenta), p, src, ctor),
                m,
            ),
            Type::Class(m, p) => modifiers_into(
                path_into(acc + tok("class ", Color::Magenta), p, src, ctor),
                m,
            ),
            Type::Ptr(m, inner) => modifiers_into(
                pointee_pre_into(acc, *inner, src, ctor) + tok(
                    sigil(" *", "*", is_grouped(*inner)),
                    Color::Red,
                ),
                m,
            ),
            Type::Ref(m, inner) => modifiers_into(
                pointee_pre_into(acc, *inner, src, ctor) + tok(
                    sigil(" &", "&", is_grouped(*inner)),
                    Color::Red,
                ),
                m,
            ),
            Type::RValueRef(m, inner) => modifiers_into(
                pointee_pre_into(acc, *inner, src, ctor) + tok(
                    sigil(" &&", "&&", is_grouped(*inner)),
                    Color::Red,
                ),
                m,
            ),
            Type::Function(f) => calling_conv_into(
                return_pre_into(acc, *f.return_type, src, ctor),
                f.calling_conv,
            ) + tok(" ", Color::White),
            Type::MemberFunction(f) => calling_conv_into(
                return_pre_into(storage_scope_into(acc, f.storage_scope), *f.return_type, src, ctor),
                f.calling_conv,
            ) + tok(" ", Color::White),
            Type::MemberFunctionPtr(f) => path_into(
                calling_conv_into(
                    return_pre_into(storage_scope_into(acc, f.storage_scope), *f.return_type, src, ctor)
                        + tok("(", Color::Gray40),
                    f.calling_conv,
                ) + tok(" ", Color::White),
                f.class_name,
                src,
                ctor,
            ) + tok("::*", Color::Gray40),
            Type::Constant(v) => acc + number_toks(v, Color::Gray20),
            Type::TemplateParameterIdx(i) => acc + tok("`template-parameter-", Color::Gray20)
                + number_toks(i, Color::Gray20) + tok("'", Color::Gray20),
            Type::Typedef(m, name) => modifiers_into(acc + literal_toks(src, name, Color::Purple), m),
            Type::Variable(v) => modifiers_into(
                type_pre_into(storage_variable_into(acc, v.storage), *v.tipe, src, ctor),
                v.modi,
            ) + tok(" ", Color::White),
            Type::Array(a) => type_pre_into(acc, *a.tipe, src, ctor),
            Type::VFTable(q, _) => qualifiers_into(acc, q),
            Type::VBTable(q, _) => qualifiers_into(acc, q),
            Type::VCallThunk(_, c) => calling_conv_into(acc + tok("[thunk]: ", Color::Gray40), c),
            Type::Extern(inner) => type_pre_into(
                acc + tok("extern \"C\" ", Color::Gray40),
                *inner,
                src,
                ctor,
            ),
            Type::Variadic => acc + tok("...", Color::Gray40),
            _ => acc,
        },
    }
}

/// First pass of what a pointer or reference points to, up to its sigil.
pub open spec fn pointee_pre_into(acc: Seq<Span>, t: Type, src: Seq<u8>, ctor: Option<Literal>) -> Seq<Span>
    decreases t, 1int,
{
    match t {
        Type::Function(f) => calling_conv_into(
            return_pre_into(acc, *f.return_type, src, ctor) + tok("(", Color::Gray40),
            f.calling_conv,
        ),
        Type::MemberFunction(f) => calling_conv_into(
            return_pre_into(storage_scope_into(acc, f.storage_scope), *f.return_type, src, ctor)
                + tok("(", Color::Gray40),
            f.calling_conv,
        ),
        Type::Array(_) => type_pre_into(acc, t, src, ctor) + tok(" (", Color::Gray40),
        _ => type_pre_into(acc, t, src, ctor),
    }
}

/// First pass of a return type, with the space that separates it from what
/// follows.
pub open spec fn return_pre_into(acc: Seq<Span>, t: Type, src: Seq<u8>, ctor: Option<Literal>) -> Seq<Span>
    decreases t, 1int,
{
    then_tok(
        type_pre_into(acc, t, src, ctor),
        !(t is Unit) && !opens_declarator(t),
        tok(" ", Color::White),
    )
}

/// Second pass of a type: what stands right of the declared name.
pub open spec fn type_post_into(acc: Seq<Span>, t: Type, src: Seq<u8>, ctor: Option<Literal>) -> Seq<Span>
    decreases t, 0int,
{
    match t {
        Type::Ptr(_, inner) => type_post_into(
            then_tok(acc, is_grouped(*inner), tok(")", Color::Gray40)),
            *inner,
            src,
            ctor,
        ),
        Type::Ref(_, inner) => type_post_into(
            then_tok(acc, is_grouped(*inner), tok(")", Color::Gray40)),
            *inner,
            src,
            ctor,
        ),
        Type::RValueRef(_, inner) => type_post_into(
            then_tok(acc, is_grouped(*inner), tok(")", Color::Gray40)),
            *inner,
            src,
            ctor,
        ),
        Type::Function(f) => type_post_into(
            modifiers_into(function_params_into(acc, f.params@, src, ctor), f.qualifiers),
            *f.return_type,
            src,
            ctor,
        ),
        Type::MemberFunction(f) => type_post_into(
            modifiers_into(function_params_into(acc, f.params@, src, ctor), f.qualifiers),
            *f.return_type,
            src,
            ctor,
        ),
        Type::MemberFunctionPtr(f) => type_post_into(
            modifiers_into(
                function_params_into(acc + tok(")", Color::Gray40), f.params@, src, ctor),
                f.qualifiers,
            ),
            *f.return_type,
            src,
            ctor,
        ),
        Type::Variable(v) => type_post_into(acc, *v.tipe, src, ctor),
        Type::Array(a) => type_post_into(
            acc + tok("[", Color::Gray40) + number_toks(a.len, Color::Blue) + tok("]", Color::Gray40),
            *a.tipe,
            src,
            ctor,
        ),
        Type::VFTable(_, scope) => table_scope_into(acc, scope, src, ctor),
        Type::VBTable(_, scope) => table_scope_into(acc, scope, src, ctor),
        Type::VCallThunk(offset, _) => acc + tok("{", Color::Gray40) + number_toks(offset, Color::Blue)
            + tok(", {flat}}", Color::Gray40),
        Type::Extern(inner) => type_post_into(acc, *inner, src, ctor),
        _ => acc,
    }
}

/// The `{for ...}` suffix of a virtual table.
pub open spec fn table_scope_into(
    acc: Seq<Span>,
    scope: Option<Scope>,
    src: Seq<u8>,
    ctor: Option<Literal>,
) -> Seq<Span>
    decreases scope, 0int,
{
    match scope {
        Some(s) => if s.0@.len() > 0 {
            scope_into(acc + tok("{for `", Color::Gray40), s.0@, src, ctor) + tok("'}", Color::Gray40)
        } else {
            acc
        },
        None => acc + tok("{for ??}", Color::Gray40),
    }
}

/// A whole type: both passes.
pub open spec fn type_into(acc: Seq<Span>, t: Type, src: Seq<u8>, ctor: Option<Literal>) -> Seq<Span>
    decreases t, 1int,
{
    type_post_into(type_pre_into(acc, t, src, ctor), t, src, ctor)
}

/// Types separated by `, `.
pub open spec fn params_into(acc: Seq<Span>, ps: Seq<Type>, src: Seq<u8>, ctor: Option<Literal>) -> Seq<Span>
    decreases ps, 0int,
{
    if ps.len() == 0 {
        acc
    } else {
        type_into(
            then_tok(
                params_into(acc, ps.subrange(0, ps.len() - 1), src, ctor),
                ps.len() > 1,
                tok(", ", Color::Gray40),
            ),
            ps[ps.len() - 1],
            src,
            ctor,
        )
    }
}

pub open spec fn function_params_into(
    acc: Seq<Span>,
    ps: Seq<Type>,
    src: Seq<u8>,
    ctor: Option<Literal>,
) -> Seq<Span>
    decreases ps, 1int,
{
    params_into(acc + tok("(", Color::Gray40), ps, src, ctor) + tok(")", Color::Gray40)
}

/// Scope components, outermost (last) first, joined by `::`.
pub open spec fn scope_into(acc: Seq<Span>, ps: Seq<NestedPath>, src: Seq<u8>, ctor: Option<Literal>) -> Seq<Span>
    decreases ps, 0int,
{
    if ps.len() == 0 {
        acc
    } else if ps.len() == 1 {
        nested_into(acc, ps[0], src, ctor)
    } else {
        nested_into(
            scope_into(acc, ps.subrange(1, ps.len() as int), src, ctor) + tok("::", Color::Gray20),
            ps[0],
            src,
            ctor,
        )
    }
}

pub open spec fn path_into(acc: Seq<Span>, p: Path, src: Seq<u8>, ctor: Option<Literal>) -> Seq<Span>
    decreases p, 0int,
{
    nested_into(
        then_tok(
            scope_into(acc, p.scope.0@, src, ctor),
            p.scope.0@.len() > 0,
            tok("::", Color::Gray20),
        ),
        p.name,
        src,
        ctor,
    )
}

pub open spec fn template_into(acc: Seq<Span>, t: Template, src: Seq<u8>, ctor: Option<Literal>) -> Seq<Span>
    decreases t, 0int,
{
    params_into(nested_into(acc, *t.name, src, ctor) + tok("<", Color::Gray40), t.params@, src, ctor)
        + tok(">", Color::Gray40)
}

pub open spec fn nested_into(acc: Seq<Span>, n: NestedPath, src: Seq<u8>, ctor: Option<Literal>) -> Seq<Span>
    decreases n, 0int,
{
    match n {
        NestedPath::Literal(l) => acc + literal_toks(src, l, Color::Blue),
        NestedPath::Interface(l) => acc + tok("[", Color::Gray40) + literal_toks(src, l, Color::Blue)
            + tok("]", Color::Gray40),
        NestedPath::Template(t) => template_into(acc, t, src, ctor),
        NestedPath::Intrinsics(op) => intrinsic_into(acc, op, src, ctor),
        NestedPath::Symbol(s) => symbol_into(acc, *s, src),
        NestedPath::Disambiguator(v) => acc + tok("`", Color::Gray20) + number_toks(v, Color::Gray20)
            + tok("'", Color::Gray20),
        NestedPath::MD5(l) => acc + tok("??@", Color::Gray20) + literal_toks(src, l, Color::Gray20)
            + tok("@", Color::Gray20),
        NestedPath::Anonymous => acc + tok("`anonymous namespace'", Color::Gray40),
    }
}

/// The fixed text of an operator or compiler-generated name; `None` for
/// those whose text depends on more than their kind.
pub open spec fn intrinsic_name(op: Intrinsics) -> Option<&'static str> {
    match op {
        Intrinsics::RTTIBaseClassArray => Some("`RTTI Base Class Array'"),
        Intrinsics::RTTIClassHierarchyDescriptor => Some("`RTTI Class Hierarchy Descriptor'"),
        Intrinsics::RTTIClassCompleteObjectLocator => Some("`RTTI Complete Object Locator'"),
        Intrinsics::New => Some("operator new"),
        Intrinsics::Delete => Some("operator delete"),
        Intrinsics::Assign => Some("operator="),
        Intrinsics::ShiftRight => Some("operator>>"),
        Intrinsics::ShiftRightEquals => Some("operator>>="),
        Intrinsics::ShiftLeft => Some("operator<<"),
        Intrinsics::ShiftLeftEquals => Some("operator<<="),
        Intrinsics::LogicalNot => Some("operator!"),
        Intrinsics::Equals => Some("operator=="),
        Intrinsics::NotEquals => Some("operator!="),
        Intrinsics::Array => Some("operator[]"),
        Intrinsics::TypeCast => Some("operator cast"),
        Intrinsics::Pointer => Some("operator->"),
        Intrinsics::Dereference => Some("operator*"),
        Intrinsics::TimesEquals => Some("operator*="),
        Intrinsics::MemberDereference => Some("operator->*"),
        Intrinsics::Increment => Some("operator++"),
        Intrinsics::Decrement => Some("operator--"),
        Intrinsics::Minus => Some("operator-"),
        Intrinsics::MinusEquals => Some("operator-="),
        Intrinsics::Plus => Some("operator+"),
        Intrinsics::PlusEquals => Some("operator+="),
        Intrinsics::ArithmeticAND => Some("operator&"),
        Intrinsics::ANDEquals => Some("operator&="),
        Intrinsics::LogicalAND => Some("operator&&"),
        Intrinsics::ArithmeticOR => Some("operator|"),
        Intrinsics::OREquals => Some("operator|="),
        Intrinsics::LogicalOR => Some("operator||"),
        Intrinsics::Divide => Some("operator/"),
        Intrinsics::DivideEquals => Some("operator/="),
        Intrinsics::Modulus => Some("operator%"),
        Intrinsics::ModulusEquals => Some("operator%="),
        Intrinsics::Less => Some("operator<"),
        Intrinsics::LessEqual => Some("operator<="),
        Intrinsics::Greater => Some("operator>"),
        Intrinsics::GreaterEqual => Some("operator>="),
        Intrinsics::Comma => Some("operator,"),
        Intrinsics::Calling => Some("operator()"),
        Intrinsics::ArithmeticNot => Some("operator~"),
        Intrinsics::Xor => Some("operator^"),
        Intrinsics::XorEquals => Some("operator^="),
        Intrinsics::VFTable => Some("`vftable'"),
        Intrinsics::VBTable => Some("`vbtable'"),
        Intrinsics::LocalVFTable => Some("`local vftable'"),
        Intrinsics::VCall => Some("`vcall'"),
        Intrinsics::TypeOff => Some("`typeoff'"),
        Intrinsics::LocalStaticGuard => Some("`local static guard'"),
        Intrinsics::String => Some("`string'"),
        Intrinsics::VBaseDtor => Some("`vbase destructor'"),
        Intrinsics::VectorDeletingDtor => Some("`vector deleting destructor'"),
        Intrinsics::DefaultCtorClosure => Some("`default constructor closure'"),
        Intrinsics::ScalarDeletingDtor => Some("`scalar deleting destructor'"),
        Intrinsics::VecCtorIter => Some("`vector constructor iterator'"),
        Intrinsics::VecDtorIter => Some("`vector destructor iterator'"),
        Intrinsics::VecVbaseCtorIter => Some("`vector vbase constructor iterator'"),
        Intrinsics::VdispMap => Some("`virtual displacement map'"),
        Intrinsics::EHVecCtorIter => Some("`eh vector constructor iterator'"),
        Intrinsics::EHVecDtorIter => Some("`eh vector destructor iterator'"),
        Intrinsics::EHVecVbaseCtorIter => Some("`eh vector vbase constructor iterator'"),
        Intrinsics::CopyCtorClosure => Some("`copy constructor closure'"),
        Intrinsics::LocalVftableCtorClosure => Some("`local vftable constructor closure'"),
        Intrinsics::LocalStaticThreadGuard => Some("`local static thread guard'"),
        Intrinsics::PlacementDeleteClosure => Some("`placement delete closure'"),
        Intrinsics::PlacementDeleteArrayClosure => Some("`placement delete[] closure'"),
        Intrinsics::NewArray => Some("operator new[]"),
        Intrinsics::DeleteArray => Some("operator delete[]"),
        Intrinsics::CoAwait => Some("co_await"),
        Intrinsics::Spaceship => Some("operator<=>"),
        _ => None,
    }
}

/// Name of a constructor or destructor: the enclosing class `ctor`, or a
/// placeholder when there is none.
pub open spec fn class_name_into(
    acc: Seq<Span>,
    src: Seq<u8>,
    ctor: Option<Literal>,
    missing: &'static str,
) -> Seq<Span> {
    match ctor {
        Some(l) => acc + literal_toks(src, l, Color::Blue),
        None => acc + tok(missing, Color::Gray20),
    }
}

pub open spec fn intrinsic_into(acc: Seq<Span>, op: Intrinsics, src: Seq<u8>, ctor: Option<Literal>) -> Seq<Span>
    decreases op, 0int,
{
    match intrinsic_name(op) {
        Some(name) => acc + tok(name, Color::Magenta),
        None => match op {
            Intrinsics::Ctor => class_name_into(acc, src, ctor, "`unnamed constructor'"),
            Intrinsics::Dtor => class_name_into(
                acc + tok("~", Color::Magenta),
                src,
                ctor,
                "`unnamed destructor'",
            ),
            Intrinsics::DynamicInitializer(s) => symbol_into(
                acc + tok("`dynamic initializer for '", Color::Gray20),
                *s,
                src,
            ) + tok("''", Color::Gray40),
            Intrinsics::DynamicAtExitDtor(s) => symbol_into(
                acc + tok("`dynamic atexit destructor for '", Color::Gray20),
                *s,
                src,
            ) + tok("''", Color::Gray40),
            Intrinsics::SourceName(l) => acc + literal_toks(src, l, Color::Magenta),
            Intrinsics::RTTITypeDescriptor(_, t) => type_into(acc, *t, src, ctor) + tok(
                " `RTTI Type Descriptor'",
                Color::Gray40,
            ),
            Intrinsics::RTTIBaseClassDescriptor { nv_off, ptr_off, vbtable_off, flags } => acc + tok(
                "`RTTI Base Class Descriptor at (",
                Color::Gray40,
            ) + number_toks(nv_off, Color::Gray40) + tok(", ", Color::Gray40) + number_toks(
                ptr_off,
                Color::Gray40,
            ) + tok(", ", Color::Gray40) + number_toks(vbtable_off, Color::Gray40) + tok(
                ", ",
                Color::Gray40,
            ) + number_toks(flags, Color::Gray40) + tok(")'", Color::Gray40),
            _ => acc,
        },
    }
}

/// The class name that constructors and destructors of a symbol with
/// scope `ps` take: the innermost scope component, when it is a name.
pub open spec fn enclosing_name(ps: Seq<NestedPath>) -> Option<Literal> {
    if ps.len() == 0 {
        None
    } else {
        match ps[0] {
            NestedPath::Literal(l) => Some(l),
            NestedPath::Template(t) => match *t.name {
                NestedPath::Literal(l) => Some(l),
                _ => None,
            },
            _ => None,
        }
    }
}


/// A conversion operator whose type is a member function.
pub open spec fn is_conversion(s: Symbol) -> bool {
    s.path.name matches NestedPath::Intrinsics(Intrinsics::TypeCast) && s.tipe is MemberFunction
}

/// A whole symbol: its type around its qualified name. A conversion
/// operator names its target type, the return type, after `operator`.
pub open spec fn symbol_into(acc: Seq<Span>, s: Symbol, src: Seq<u8>) -> Seq<Span>
    decreases s, 0int,
{
    let ctor = enclosing_name(s.path.scope.0@);
    if is_conversion(s) {
        let f = s.tipe->MemberFunction_0;
        function_params_into(
            type_into(
                scope_into(
                    calling_conv_into(storage_scope_into(acc, f.storage_scope), f.calling_conv) + tok(
                        " ",
                        Color::White,
                    ),
                    s.path.scope.0@,
                    src,
                    ctor,
                ) + tok("::operator ", Color::Magenta),
                *f.return_type,
                src,
                ctor,
            ),
            f.params@,
            src,
            ctor,
        )
    } else {
        type_post_into(path_into(type_pre_into(acc, s.tipe, src, ctor), s.path, src, ctor), s.tipe, src, ctor)
    }
}

/// The spans of symbol `s` rendered on its own.
pub open spec fn symbol_toks(s: Symbol, src: Seq<u8>) -> Seq<Span> {
    symbol_into(Seq::empty(), s, src)
}

/// Rendering is deterministic: `render_symbol` leaves a stream that held
/// `before` holding `symbol_into(before, s, src)`, so two streams that held
/// the same spans (two fresh streams, say) and had the same symbol rendered
/// into them hold the same spans afterwards.
pub proof fn lemma_render_deterministic(
    before_a: Seq<Span>,
    before_b: Seq<Span>,
    after_a: Seq<Span>,
    after_b: Seq<Span>,
    s: Symbol,
    src: Seq<u8>,
)
    requires
        before_a == before_b,
        after_a == symbol_into(before_a, s, src),
        after_b == symbol_into(before_b, s, src),
    ensures
        after_a == after_b,
{
}

fn push_digits(out: &mut Vec<u8>, n: u64)
    ensures
        final(out)@ == old(out)@ + digits_of(n as nat),
    decreases n,
{
    if n >= 10 {
        push_digits(out, n / 10);
    }
    out.push(('0' as u8 + (n % 10) as u8) as u8);
    proof {
        if n < 10 {
            assert(n % 10 == n);
        }
        assert(old(out)@ + digits_of(n as nat) =~= out@);
    }
}

/// Decimal text of `n`.
pub fn decimal(n: i64) -> (r: Vec<u8>)
    ensures
        r@ == decimal_of(n as int),
{
    let mut out: Vec<u8> = Vec::new();
    if n < 0 {
        out.push('-' as u8);
        let magnitude: u64 = if n == i64::MIN {
            9223372036854775808
        } else {
            (-n) as u64
        };
        push_digits(&mut out, magnitude);
    } else {
        push_digits(&mut out, n as u64);
        proof {
            assert(out@ =~= digits_of(n as nat));
        }
    }
    out
}

/// Appends the identifier `lit`, cut to the input's length.
pub fn render_literal(src: &Vec<u8>, lit: Literal, color: Color, out: &mut TokenStream)
    ensures
        appended(*old(out), *final(out)),
        final(out).tokens@.len() == old(out).tokens@.len() + 1,
        final(out)@ == old(out)@ + literal_toks(src@, lit, color),
{
    let e = if lit.end <= src.len() {
        lit.end
    } else {
        src.len()
    };
    let mut text: Vec<u8> = Vec::new();
    if lit.start < e {
        let mut i = lit.start;
        while i < e
            invariant
                lit.start <= i <= e <= src@.len(),
                text@ == src@.subrange(lit.start as int, i as int),
            decreases e - i,
        {
            text.push(src[i]);
            proof {
                assert(src@.subrange(lit.start as int, i + 1) =~= src@.subrange(
                    lit.start as int,
                    i as int,
                ).push(src@[i as int]));
            }
            i += 1;
        }
    } else {
        proof {
            assert(text@ =~= Seq::<u8>::empty());
        }
    }
    out.push_bytes(text, color);
}

/// Appends `n` in decimal.
pub fn render_number(n: i64, color: Color, out: &mut TokenStream)
    ensures
        appended(*old(out), *final(out)),
        final(out).tokens@.len() == old(out).tokens@.len() + 1,
        final(out)@ == old(out)@ + number_toks(n, color),
{
    out.push_bytes(decimal(n), color);
}

/// Appends ` const` and ` volatile` as `m` holds them.
pub fn render_modifiers(m: Modifiers, out: &mut TokenStream)
    ensures
        appended(*old(out), *final(out)),
        final(out)@ == modifiers_into(old(out)@, m),
{
    if m.contains(CONST) {
        out.push(" const", Color::Blue);
    }
    if m.contains(VOLATILE) {
        out.push(" volatile", Color::Blue);
    }
}

/// Appends the qualifier words of `m`, each followed by a space.
pub fn render_qualifiers(m: Modifiers, out: &mut TokenStream)
    ensures
        appended(*old(out), *final(out)),
        final(out)@ == qualifiers_into(old(out)@, m),
{
    if m.contains(CONST) {
        out.push("const ", Color::Blue);
    }
    if m.contains(VOLATILE) {
        out.push("volatile ", Color::Blue);
    }
    if m.contains(FAR) {
        out.push("__far ", Color::Blue);
    }
    if m.contains(UNALIGNED) {
        out.push("__unaligned ", Color::Blue);
    }
    if m.contains(RESTRICT) {
        out.push("__restrict ", Color::Blue);
    }
    if m.contains(LVALUE) {
        out.push("& ", Color::Blue);
    }
    if m.contains(RVALUE) {
        out.push("&& ", Color::Blue);
    }
}

pub fn render_calling_conv(c: CallingConv, out: &mut TokenStream)
    ensures
        appended(*old(out), *final(out)),
        final(out).tokens@.len() == old(out).tokens@.len() + 1,
        final(out)@ == calling_conv_into(old(out)@, c),
{
    let text = match c {
        CallingConv::Cdecl => "__cdecl",
        CallingConv::Pascal => "__pascal",
        CallingConv::Thiscall => "__thiscall",
        CallingConv::Stdcall => "__stdcall",
        CallingConv::Fastcall => "__fastcall",
        CallingConv::Clrcall => "__clrcall",
        CallingConv::Eabi => "__eabicall",
        CallingConv::Vectorcall => "__vectorcall",
    };
    out.push(text, Color::Gray40);
}

pub fn render_storage_variable(s: StorageVariable, out: &mut TokenStream)
    ensures
        appended(*old(out), *final(out)),
        final(out)@ == storage_variable_into(old(out)@, s),
{
    match s {
        StorageVariable::PrivateStatic => out.push("private: static ", Color::Purple),
        StorageVariable::ProtectedStatic => out.push("protected: static ", Color::Purple),
        StorageVariable::PublicStatic => out.push("public: static ", Color::Purple),
        StorageVariable::Global | StorageVariable::FunctionLocalStatic => {},
    }
}

pub fn render_storage_scope(s: StorageScope, out: &mut TokenStream)
    ensures
        appended(*old(out), *final(out)),
        final(out)@ == storage_scope_into(old(out)@, s),
{
    if s.contains(PUBLIC) {
        out.push("public: ", Color::Magenta);
    }
    if s.contains(PRIVATE) {
        out.push("private: ", Color::Magenta);
    }
    if s.contains(PROTECTED) {
        out.push("protected: ", Color::Magenta);
    }
    if s.contains(STATIC) {
        out.push("static ", Color::Magenta);
    }
    if s.contains(VIRTUAL) {
        out.push("virtual ", Color::Magenta);
    }
}

fn primitive(t: &Type) -> (r: Option<(&'static str, Modifiers)>)
    ensures
        r == primitive_of(*t),
{
    match t {
        Type::Void(m) => Some(("void", *m)),
        Type::Char(m) => Some(("char", *m)),
        Type::Char8(m) => Some(("char8_t", *m)),
        Type::Char16(m) => Some(("char16_t", *m)),
        Type::Char32(m) => Some(("char32_t", *m)),
        Type::IChar(m) => Some(("signed char", *m)),
        Type::UChar(m) => Some(("unsigned char", *m)),
        Type::WChar(m) => Some(("wchar_t", *m)),
        Type::IShort(m) => Some(("short", *m)),
        Type::UShort(m) => Some(("unsigned short", *m)),
        Type::Int(m) => Some(("int", *m)),
        Type::UInt(m) => Some(("unsigned int", *m)),
        Type::Float(m) => Some(("float", *m)),
        Type::Double(m) => Some(("double", *m)),
        Type::LDouble(m) => Some(("long double", *m)),
        Type::Long(m) => Some(("long", *m)),
        Type::ULong(m) => Some(("unsigned long", *m)),
        Type::Int8(m) => Some(("__int8", *m)),
        Type::UInt8(m) => Some(("unsigned __int8", *m)),
        Type::Int16(m) => Some(("__int16", *m)),
        Type::UInt16(m) => Some(("unsigned __int16", *m)),
        Type::Int32(m) => Some(("__int32", *m)),
        Type::UInt32(m) => Some(("unsigned __int32", *m)),
        Type::Int64(m) => Some(("__int64", *m)),
        Type::UInt64(m) => Some(("unsigned __int64", *m)),
        Type::Int128(m) => Some(("__int128", *m)),
        Type::Uint128(m) => Some(("unsigned __int128", *m)),
        Type::Bool(m) => Some(("bool", *m)),
        _ => None,
    }
}

fn function_like(t: &Type) -> (r: bool)
    ensures
        r == is_function_like(*t),
{
    match t {
        Type::Function(_) | Type::MemberFunction(_) | Type::MemberFunctionPtr(_) => true,
        _ => false,
    }
}

fn grouped(t: &Type) -> (r: bool)
    ensures
        r == is_grouped(*t),
{
    matches!(t, Type::Function(_) | Type::MemberFunction(_) | Type::Array(_))
}

fn opens(t: &Type) -> (r: bool)
    ensures
        r == opens_declarator(*t),
{
    match t {
        Type::Ptr(_, inner) | Type::Ref(_, inner) | Type::RValueRef(_, inner) => matches!(
            &**inner,
            Type::Function(_) | Type::MemberFunction(_)
        ),
        _ => false,
    }
}

/// Appends a comma-separated list of types.
pub fn render_params(params: &Vec<Type>, src: &Vec<u8>, ctor: Option<Literal>, out: &mut TokenStream)
    ensures
        appended(*old(out), *final(out)),
        final(out)@ == params_into(old(out)@, params@, src@, ctor),
    decreases params, 0int,
{
    let mut i: usize = 0;
    while i < params.len()
        invariant
            appended(*old(out), *out),
            i <= params@.len(),
            out@ == params_into(old(out)@, params@.subrange(0, i as int), src@, ctor),
        decreases params@.len() - i,
    {
        proof {
            let next = params@.subrange(0, i + 1);
            assert(next.subrange(0, next.len() - 1) =~= params@.subrange(0, i as int));
            assert(next[next.len() - 1] == params@[i as int]);
        }
        if i > 0 {
            out.push(", ", Color::Gray40);
        }
        proof {
            assert(decreases_to!(*params => params[i as int]));
        }
        render_type(&params[i], src, ctor, out);
        i += 1;
    }
    proof {
        assert(params@.subrange(0, i as int) =~= params@);
    }
}

/// Appends a parenthesised parameter list.
pub fn render_function_params(
    params: &Vec<Type>,
    src: &Vec<u8>,
    ctor: Option<Literal>,
    out: &mut TokenStream,
)
    ensures
        appended(*old(out), *final(out)),
        final(out)@ == function_params_into(old(out)@, params@, src@, ctor),
    decreases params, 1int,
{
    out.push("(", Color::Gray40);
    render_params(params, src, ctor, out);
    out.push(")", Color::Gray40);
}

/// Appends a whole type: both passes.
pub fn render_type(t: &Type, src: &Vec<u8>, ctor: Option<Literal>, out: &mut TokenStream)
    ensures
        appended(*old(out), *final(out)),
        final(out)@ == type_into(old(out)@, *t, src@, ctor),
    decreases t, 2int,
{
    type_pre(t, src, ctor, out);
    type_post(t, src, ctor, out);
}

/// First pass of a return type, with the space that separates it from what
/// follows.
pub fn return_pre(t: &Type, src: &Vec<u8>, ctor: Option<Literal>, out: &mut TokenStream)
    ensures
        appended(*old(out), *final(out)),
        final(out)@ == return_pre_into(old(out)@, *t, src@, ctor),
    decreases t, 1int,
{
    type_pre(t, src, ctor, out);
    if !matches!(t, Type::Unit) && !opens(t) {
        out.push(" ", Color::White);
    }
}

fn named(keyword: &str, m: Modifiers, p: &Path, src: &Vec<u8>, ctor: Option<Literal>, out: &mut TokenStream)
    ensures
        appended(*old(out), *final(out)),
        final(out)@ == modifiers_into(path_into(old(out)@ + tok(keyword, Color::Magenta), *p, src@, ctor), m),
    decreases p, 1int,
{
    out.push(keyword, Color::Magenta);
    render_path(p, src, ctor, out);
    render_modifiers(m, out);
}

/// First pass of what a pointer or reference points to, up to its sigil.
fn pointee_pre(t: &Type, src: &Vec<u8>, ctor: Option<Literal>, out: &mut TokenStream)
    ensures
        appended(*old(out), *final(out)),
        final(out)@ == pointee_pre_into(old(out)@, *t, src@, ctor),
    decreases t, 1int,
{
    match t {
        Type::Function(f) => {
            return_pre(&f.return_type, src, ctor, out);
            out.push("(", Color::Gray40);
            render_calling_conv(f.calling_conv, out);
        },
        Type::MemberFunction(f) => {
            render_storage_scope(f.storage_scope, out);
            return_pre(&f.return_type, src, ctor, out);
            out.push("(", Color::Gray40);
            render_calling_conv(f.calling_conv, out);
        },
        Type::Array(_) => {
            type_pre(t, src, ctor, out);
            out.push(" (", Color::Gray40);
        },
        _ => type_pre(t, src, ctor, out),
    }
}

/// First pass of a type: what stands left of the declared name.
pub fn type_pre(t: &Type, src: &Vec<u8>, ctor: Option<Literal>, out: &mut TokenStream)
    ensures
        appended(*old(out), *final(out)),
        final(out)@ == type_pre_into(old(out)@, *t, src@, ctor),
    decreases t, 0int,
{
    if let Some((name, m)) = primitive(t) {
        out.push(name, Color::Magenta);
        render_modifiers(m, out);
        return;
    }
    match t {
        Type::Nullptr => out.push("std::nullptr_t", Color::Magenta),
        Type::W64(m, inner) => {
            out.push("__w64 ", Color::Magenta);
            render_type(inner, src, ctor, out);
            render_modifiers(*m, out);
        },
        Type::Union(m, p) => named("union ", *m, p, src, ctor, out),
        Type::Enum(m, p) => named("enum ", *m, p, src, ctor, out),
        Type::Struct(m, p) => named("struct ", *m, p, src, ctor, out),
        Type::Class(m, p) => named("class ", *m, p, src, ctor, out),
        Type::Ptr(m, inner) => {
            pointee_pre(inner, src, ctor, out);
            out.push(if grouped(inner) { "*" } else { " *" }, Color::Red);
            render_modifiers(*m, out);
        },
        Type::Ref(m, inner) => {
            pointee_pre(inner, src, ctor, out);
            out.push(if grouped(inner) { "&" } else { " &" }, Color::Red);
            render_modifiers(*m, out);
        },
        Type::RValueRef(m, inner) => {
            pointee_pre(inner, src, ctor, out);
            out.push(if grouped(inner) { "&&" } else { " &&" }, Color::Red);
            render_modifiers(*m, out);
        },
        Type::Function(f) => {
            return_pre(&f.return_type, src, ctor, out);
            render_calling_conv(f.calling_conv, out);
            out.push(" ", Color::White);
        },
        Type::MemberFunction(f) => {
            render_storage_scope(f.storage_scope, out);
            return_pre(&f.return_type, src, ctor, out);
            render_calling_conv(f.calling_conv, out);
            out.push(" ", Color::White);
        },
        Type::MemberFunctionPtr(f) => {
            render_storage_scope(f.storage_scope, out);
            return_pre(&f.return_type, src, ctor, out);
            out.push("(", Color::Gray40);
            render_calling_conv(f.calling_conv, out);
            out.push(" ", Color::White);
            render_path(&f.class_name, src, ctor, out);
            out.push("::*", Color::Gray40);
        },
        Type::Constant(v) => render_number(*v, Color::Gray20, out),
        Type::TemplateParameterIdx(i) => {
            out.push("`template-parameter-", Color::Gray20);
            render_number(*i, Color::Gray20, out);
            out.push("'", Color::Gray20);
        },
        Type::Typedef(m, name) => {
            render_literal(src, *name, Color::Purple, out);
            render_modifiers(*m, out);
        },
        Type::Variable(v) => {
            render_storage_variable(v.storage, out);
            type_pre(&v.tipe, src, ctor, out);
            render_modifiers(v.modi, out);
            out.push(" ", Color::White);
        },
        Type::Array(a) => type_pre(&a.tipe, src, ctor, out),
        Type::VFTable(q, _) | Type::VBTable(q, _) => render_qualifiers(*q, out),
        Type::VCallThunk(_, c) => {
            out.push("[thunk]: ", Color::Gray40);
            render_calling_conv(*c, out);
        },
        Type::Extern(inner) => {
            out.push("extern \"C\" ", Color::Gray40);
            type_pre(inner, src, ctor, out);
        },
        Type::Variadic => out.push("...", Color::Gray40),
        _ => {},
    }
}

/// Second pass of what a pointer or reference points to.
fn pointee_post(t: &Type, src: &Vec<u8>, ctor: Option<Literal>, out: &mut TokenStream)
    ensures
        appended(*old(out), *final(out)),
        final(out)@ == type_post_into(
            then_tok(old(out)@, is_grouped(*t), tok(")", Color::Gray40)),
            *t,
            src@,
            ctor,
        ),
    decreases t, 2int,
{
    if grouped(t) {
        out.push(")", Color::Gray40);
    }
    type_post(t, src, ctor, out);
}

/// Second pass of a function type: its parameters, qualifiers and what its
/// return type puts after them.
fn function_post(t: &Type, src: &Vec<u8>, ctor: Option<Literal>, out: &mut TokenStream)
    requires
        is_function_like(*t),
    ensures
        appended(*old(out), *final(out)),
        final(out)@ == type_post_into(old(out)@, *t, src@, ctor),
    decreases t, 0int,
{
    match t {
        Type::Function(f) => {
            render_function_params(&f.params, src, ctor, out);
            render_modifiers(f.qualifiers, out);
            type_post(&f.return_type, src, ctor, out);
        },
        Type::MemberFunction(f) => {
            render_function_params(&f.params, src, ctor, out);
            render_modifiers(f.qualifiers, out);
            type_post(&f.return_type, src, ctor, out);
        },
        Type::MemberFunctionPtr(f) => {
            out.push(")", Color::Gray40);
            render_function_params(&f.params, src, ctor, out);
            render_modifiers(f.qualifiers, out);
            type_post(&f.return_type, src, ctor, out);
        },
        _ => {},
    }
}

/// Second pass of a type: what stands right of the declared name.
pub fn type_post(t: &Type, src: &Vec<u8>, ctor: Option<Literal>, out: &mut TokenStream)
    ensures
        appended(*old(out), *final(out)),
        final(out)@ == type_post_into(old(out)@, *t, src@, ctor),
    decreases t, 1int,
{
    if function_like(t) {
        function_post(t, src, ctor, out);
        return;
    }
    match t {
        Type::Ptr(_, inner) => pointee_post(inner, src, ctor, out),
        Type::Ref(_, inner) => pointee_post(inner, src, ctor, out),
        Type::RValueRef(_, inner) => pointee_post(inner, src, ctor, out),
        Type::Variable(v) => type_post(&v.tipe, src, ctor, out),
        Type::Array(a) => {
            out.push("[", Color::Gray40);
            render_number(a.len, Color::Blue, out);
            out.push("]", Color::Gray40);
            type_post(&a.tipe, src, ctor, out);
        },
        Type::VFTable(_, scope) => render_table_scope(scope, src, ctor, out),
        Type::VBTable(_, scope) => render_table_scope(scope, src, ctor, out),
        Type::VCallThunk(offset, _) => {
            out.push("{", Color::Gray40);
            render_number(*offset, Color::Blue, out);
            out.push(", {flat}}", Color::Gray40);
        },
        Type::Extern(inner) => type_post(inner, src, ctor, out),
        _ => {},
    }
}

/// Appends the `{for ...}` suffix of a virtual table.
fn render_table_scope(scope: &Option<Scope>, src: &Vec<u8>, ctor: Option<Literal>, out: &mut TokenStream)
    ensures
        appended(*old(out), *final(out)),
        final(out)@ == table_scope_into(old(out)@, *scope, src@, ctor),
    decreases scope, 0int,
{
    match scope {
        Some(s) => if s.0.len() > 0 {
            out.push("{for `", Color::Gray40);
            render_scope(s, src, ctor, out);
            out.push("'}", Color::Gray40);
        },
        None => out.push("{for ??}", Color::Gray40),
    }
}

/// Appends scope components, outermost first, joined by `::`.
pub fn render_scope(s: &Scope, src: &Vec<u8>, ctor: Option<Literal>, out: &mut TokenStream)
    ensures
        appended(*old(out), *final(out)),
        s.0@.len() > 0 ==> final(out).tokens@.len() > old(out).tokens@.len(),
        final(out)@ == scope_into(old(out)@, s.0@, src@, ctor),
    decreases s, 0int,
{
    let n = s.0.len();
    let mut i = n;
    proof {
        assert(s.0@.subrange(n as int, n as int) =~= Seq::<NestedPath>::empty());
    }
    while i > 0
        invariant
            appended(*old(out), *out),
            i <= n == s.0@.len(),
            i < n ==> out.tokens@.len() > old(out).tokens@.len(),
            out@ == scope_into(old(out)@, s.0@.subrange(i as int, n as int), src@, ctor),
        decreases i,
    {
        proof {
            let next = s.0@.subrange(i - 1, n as int);
            assert(next.subrange(1, next.len() as int) =~= s.0@.subrange(i as int, n as int));
            assert(next[0] == s.0@[i - 1]);
        }
        if i < n {
            out.push("::", Color::Gray20);
        }
        proof {
            assert(decreases_to!(s.0 => s.0[i - 1]));
        }
        render_nested(&s.0[i - 1], src, ctor, out);
        i -= 1;
    }
    proof {
        assert(s.0@.subrange(0, n as int) =~= s.0@);
    }
}

/// Appends a qualified name.
pub fn render_path(p: &Path, src: &Vec<u8>, ctor: Option<Literal>, out: &mut TokenStream)
    ensures
        appended(*old(out), *final(out)),
        final(out).tokens@.len() > old(out).tokens@.len(),
        final(out)@ == path_into(old(out)@, *p, src@, ctor),
    decreases p, 0int,
{
    render_scope(&p.scope, src, ctor, out);
    if p.scope.0.len() > 0 {
        out.push("::", Color::Gray20);
    }
    render_nested(&p.name, src, ctor, out);
}

/// Appends a template name and its arguments.
pub fn render_template(t: &Template, src: &Vec<u8>, ctor: Option<Literal>, out: &mut TokenStream)
    ensures
        appended(*old(out), *final(out)),
        final(out).tokens@.len() > old(out).tokens@.len(),
        final(out)@ == template_into(old(out)@, *t, src@, ctor),
    decreases t, 0int,
{
    render_nested(&t.name, src, ctor, out);
    out.push("<", Color::Gray40);
    render_params(&t.params, src, ctor, out);
    out.push(">", Color::Gray40);
}

/// Appends one name component.
pub fn render_nested(n: &NestedPath, src: &Vec<u8>, ctor: Option<Literal>, out: &mut TokenStream)
    ensures
        appended(*old(out), *final(out)),
        final(out).tokens@.len() > old(out).tokens@.len(),
        final(out)@ == nested_into(old(out)@, *n, src@, ctor),
    decreases n, 0int,
{
    match n {
        NestedPath::Literal(l) => render_literal(src, *l, Color::Blue, out),
        NestedPath::Interface(l) => {
            out.push("[", Color::Gray40);
            render_literal(src, *l, Color::Blue, out);
            out.push("]", Color::Gray40);
        },
        NestedPath::Template(t) => render_template(t, src, ctor, out),
        NestedPath::Intrinsics(op) => render_intrinsic(op, src, ctor, out),
        NestedPath::Symbol(s) => render_symbol(s, src, out),
        NestedPath::Disambiguator(v) => {
            out.push("`", Color::Gray20);
            render_number(*v, Color::Gray20, out);
            out.push("'", Color::Gray20);
        },
        NestedPath::MD5(l) => {
            out.push("??@", Color::Gray20);
            render_literal(src, *l, Color::Gray20, out);
            out.push("@", Color::Gray20);
        },
        NestedPath::Anonymous => out.push("`anonymous namespace'", Color::Gray40),
    }
}

fn intrinsic_text(op: &Intrinsics) -> (r: Option<&'static str>)
    ensures
        r == intrinsic_name(*op),
{
    match op {
        Intrinsics::RTTIBaseClassArray => Some("`RTTI Base Class Array'"),
        Intrinsics::RTTIClassHierarchyDescriptor => Some("`RTTI Class Hierarchy Descriptor'"),
        Intrinsics::RTTIClassCompleteObjectLocator => Some("`RTTI Complete Object Locator'"),
        Intrinsics::New => Some("operator new"),
        Intrinsics::Delete => Some("operator delete"),
        Intrinsics::Assign => Some("operator="),
        Intrinsics::ShiftRight => Some("operator>>"),
        Intrinsics::ShiftRightEquals => Some("operator>>="),
        Intrinsics::ShiftLeft => Some("operator<<"),
        Intrinsics::ShiftLeftEquals => Some("operator<<="),
        Intrinsics::LogicalNot => Some("operator!"),
        Intrinsics::Equals => Some("operator=="),
        Intrinsics::NotEquals => Some("operator!="),
        Intrinsics::Array => Some("operator[]"),
        Intrinsics::TypeCast => Some("operator cast"),
        Intrinsics::Pointer => Some("operator->"),
        Intrinsics::Dereference => Some("operator*"),
        Intrinsics::TimesEquals => Some("operator*="),
        Intrinsics::MemberDereference => Some("operator->*"),
        Intrinsics::Increment => Some("operator++"),
        Intrinsics::Decrement => Some("operator--"),
        Intrinsics::Minus => Some("operator-"),
        Intrinsics::MinusEquals => Some("operator-="),
        Intrinsics::Plus => Some("operator+"),
        Intrinsics::PlusEquals => Some("operator+="),
        Intrinsics::ArithmeticAND => Some("operator&"),
        Intrinsics::ANDEquals => Some("operator&="),
        Intrinsics::LogicalAND => Some("operator&&"),
        Intrinsics::ArithmeticOR => Some("operator|"),
        Intrinsics::OREquals => Some("operator|="),
        Intrinsics::LogicalOR => Some("operator||"),
        Intrinsics::Divide => Some("operator/"),
        Intrinsics::DivideEquals => Some("operator/="),
        Intrinsics::Modulus => Some("operator%"),
        Intrinsics::ModulusEquals => Some("operator%="),
        Intrinsics::Less => Some("operator<"),
        Intrinsics::LessEqual => Some("operator<="),
        Intrinsics::Greater => Some("operator>"),
        Intrinsics::GreaterEqual => Some("operator>="),
        Intrinsics::Comma => Some("operator,"),
        Intrinsics::Calling => Some("operator()"),
        Intrinsics::ArithmeticNot => Some("operator~"),
        Intrinsics::Xor => Some("operator^"),
        Intrinsics::XorEquals => Some("operator^="),
        Intrinsics::VFTable => Some("`vftable'"),
        Intrinsics::VBTable => Some("`vbtable'"),
        Intrinsics::LocalVFTable => Some("`local vftable'"),
        Intrinsics::VCall => Some("`vcall'"),
        Intrinsics::TypeOff => Some("`typeoff'"),
        Intrinsics::LocalStaticGuard => Some("`local static guard'"),
        Intrinsics::String => Some("`string'"),
        Intrinsics::VBaseDtor => Some("`vbase destructor'"),
        Intrinsics::VectorDeletingDtor => Some("`vector deleting destructor'"),
        Intrinsics::DefaultCtorClosure => Some("`default constructor closure'"),
        Intrinsics::ScalarDeletingDtor => Some("`scalar deleting destructor'"),
        Intrinsics::VecCtorIter => Some("`vector constructor iterator'"),
        Intrinsics::VecDtorIter => Some("`vector destructor iterator'"),
        Intrinsics::VecVbaseCtorIter => Some("`vector vbase constructor iterator'"),
        Intrinsics::VdispMap => Some("`virtual displacement map'"),
        Intrinsics::EHVecCtorIter => Some("`eh vector constructor iterator'"),
        Intrinsics::EHVecDtorIter => Some("`eh vector destructor iterator'"),
        Intrinsics::EHVecVbaseCtorIter => Some("`eh vector vbase constructor iterator'"),
        Intrinsics::CopyCtorClosure => Some("`copy constructor closure'"),
        Intrinsics::LocalVftableCtorClosure => Some("`local vftable constructor closure'"),
        Intrinsics::LocalStaticThreadGuard => Some("`local static thread guard'"),
        Intrinsics::PlacementDeleteClosure => Some("`placement delete closure'"),
        Intrinsics::PlacementDeleteArrayClosure => Some("`placement delete[] closure'"),
        Intrinsics::NewArray => Some("operator new[]"),
        Intrinsics::DeleteArray => Some("operator delete[]"),
        Intrinsics::CoAwait => Some("co_await"),
        Intrinsics::Spaceship => Some("operator<=>"),
        _ => None,
    }
}

fn render_class_name(src: &Vec<u8>, ctor: Option<Literal>, missing: &'static str, out: &mut TokenStream)
    ensures
        appended(*old(out), *final(out)),
        final(out).tokens@.len() > old(out).tokens@.len(),
        final(out)@ == class_name_into(old(out)@, src@, ctor, missing),
{
    match ctor {
        Some(l) => render_literal(src, l, Color::Blue, out),
        None => out.push(missing, Color::Gray20),
    }
}

/// Appends an operator or compiler-generated name. Constructors and
/// destructors take the name `ctor` of the enclosing class.
pub fn render_intrinsic(op: &Intrinsics, src: &Vec<u8>, ctor: Option<Literal>, out: &mut TokenStream)
    ensures
        appended(*old(out), *final(out)),
        final(out).tokens@.len() > old(out).tokens@.len(),
        final(out)@ == intrinsic_into(old(out)@, *op, src@, ctor),
    decreases op, 0int,
{
    if let Some(name) = intrinsic_text(op) {
        out.push(name, Color::Magenta);
        return;
    }
    match op {
        Intrinsics::Ctor => render_class_name(src, ctor, "`unnamed constructor'", out),
        Intrinsics::Dtor => {
            out.push("~", Color::Magenta);
            render_class_name(src, ctor, "`unnamed destructor'", out);
        },
        Intrinsics::DynamicInitializer(s) => {
            out.push("`dynamic initializer for '", Color::Gray20);
            render_symbol(s, src, out);
            out.push("''", Color::Gray40);
        },
        Intrinsics::DynamicAtExitDtor(s) => {
            out.push("`dynamic atexit destructor for '", Color::Gray20);
            render_symbol(s, src, out);
            out.push("''", Color::Gray40);
        },
        Intrinsics::SourceName(l) => render_literal(src, *l, Color::Magenta, out),
        Intrinsics::RTTITypeDescriptor(_, t) => {
            render_type(t, src, ctor, out);
            out.push(" `RTTI Type Descriptor'", Color::Gray40);
        },
        Intrinsics::RTTIBaseClassDescriptor { nv_off, ptr_off, vbtable_off, flags } => {
            out.push("`RTTI Base Class Descriptor at (", Color::Gray40);
            render_number(*nv_off, Color::Gray40, out);
            out.push(", ", Color::Gray40);
            render_number(*ptr_off, Color::Gray40, out);
            out.push(", ", Color::Gray40);
            render_number(*vbtable_off, Color::Gray40, out);
            out.push(", ", Color::Gray40);
            render_number(*flags, Color::Gray40, out);
            out.push(")'", Color::Gray40);
        },
        _ => {
            proof {
                assert(false);
            }
        },
    }
}

/// The class name that constructors and destructors of a symbol with
/// scope `s` take: the innermost scope component, when it is a name.
pub fn enclosing_class_name(s: &Scope) -> (r: Option<Literal>)
    ensures
        r == enclosing_name(s.0@),
{
    if s.0.len() == 0 {
        return None;
    }
    match &s.0[0] {
        NestedPath::Literal(l) => Some(*l),
        NestedPath::Template(t) => match &*t.name {
            NestedPath::Literal(l) => Some(*l),
            _ => None,
        },
        _ => None,
    }
}

/// Appends a whole symbol: its type around its qualified name.
pub fn render_symbol(s: &Symbol, src: &Vec<u8>, out: &mut TokenStream)
    ensures
        appended(*old(out), *final(out)),
        final(out).tokens@.len() > old(out).tokens@.len(),
        final(out)@ == symbol_into(old(out)@, *s, src@),
    decreases s, 0int,
{
    let ctor = enclosing_class_name(&s.path.scope);
    if let NestedPath::Intrinsics(Intrinsics::TypeCast) = &s.path.name {
        if let Type::MemberFunction(f) = &s.tipe {
            // A conversion operator names its target type, the return type.
            render_storage_scope(f.storage_scope, out);
            render_calling_conv(f.calling_conv, out);
            out.push(" ", Color::White);
            render_scope(&s.path.scope, src, ctor, out);
            out.push("::operator ", Color::Magenta);
            render_type(&f.return_type, src, ctor, out);
            render_function_params(&f.params, src, ctor, out);
            return;
        }
    }
    type_pre(&s.tipe, src, ctor, out);
    render_path(&s.path, src, ctor, out);
    type_post(&s.tipe, src, ctor, out);
}

} // verus!
