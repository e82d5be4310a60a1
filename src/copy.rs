//! Deep copies of syntax trees, used when a back-reference repeats a type
//! that was parsed earlier.
use vstd::prelude::*;
use crate::ast::{Array, Function, Intrinsics, MemberFunction, MemberFunctionPtr, NestedPath, Path, Scope, Symbol, Template, Type, Variable};

verus! {

broadcast use vstd::std_specs::vec::axiom_vec_index_decreases;

/// A copy of a list of types.
pub fn copy_types(v: &Vec<Type>) -> (r: Vec<Type>)
    ensures
        r@.len() == v@.len(),
    decreases v, 0int,
{
    let mut r: Vec<Type> = Vec::new();
    let mut i: usize = 0;
    while i < v.len()
        invariant
            i <= v@.len(),
            r@.len() == i,
        decreases v@.len() - i,
    {
        proof {
            assert(decreases_to!(*v => v[i as int]));
        }
        r.push(v[i].copy());
        i += 1;
    }
    r
}

/// A copy of a list of name components.
pub fn copy_nested_paths(v: &Vec<NestedPath>) -> (r: Vec<NestedPath>)
    ensures
        r@.len() == v@.len(),
    decreases v, 0int,
{
    let mut r: Vec<NestedPath> = Vec::new();
    let mut i: usize = 0;
    while i < v.len()
        invariant
            i <= v@.len(),
            r@.len() == i,
        decreases v@.len() - i,
    {
        proof {
            assert(decreases_to!(*v => v[i as int]));
        }
        r.push(v[i].copy());
        i += 1;
    }
    r
}

impl Type {
    /// A copy of this type.
    pub fn copy(&self) -> Type
        decreases self, 0int,
    {
        match self {
            Type::Unit => Type::Unit,
            Type::Nullptr => Type::Nullptr,
            Type::Void(m) => Type::Void(*m),
            Type::Bool(m) => Type::Bool(*m),
            Type::Char(m) => Type::Char(*m),
            Type::Char8(m) => Type::Char8(*m),
            Type::Char16(m) => Type::Char16(*m),
            Type::Char32(m) => Type::Char32(*m),
            Type::IChar(m) => Type::IChar(*m),
            Type::UChar(m) => Type::UChar(*m),
            Type::WChar(m) => Type::WChar(*m),
            Type::IShort(m) => Type::IShort(*m),
            Type::UShort(m) => Type::UShort(*m),
            Type::Int(m) => Type::Int(*m),
            Type::UInt(m) => Type::UInt(*m),
            Type::Float(m) => Type::Float(*m),
            Type::Double(m) => Type::Double(*m),
            Type::LDouble(m) => Type::LDouble(*m),
            Type::Long(m) => Type::Long(*m),
            Type::ULong(m) => Type::ULong(*m),
            Type::W64(m, t) => Type::W64(*m, Box::new(t.copy())),
            Type::Int8(m) => Type::Int8(*m),
            Type::UInt8(m) => Type::UInt8(*m),
            Type::Int16(m) => Type::Int16(*m),
            Type::UInt16(m) => Type::UInt16(*m),
            Type::Int32(m) => Type::Int32(*m),
            Type::UInt32(m) => Type::UInt32(*m),
            Type::Int64(m) => Type::Int64(*m),
            Type::UInt64(m) => Type::UInt64(*m),
            Type::Int128(m) => Type::Int128(*m),
            Type::Uint128(m) => Type::Uint128(*m),
            Type::Union(m, p) => Type::Union(*m, p.copy()),
            Type::Enum(m, p) => Type::Enum(*m, p.copy()),
            Type::Struct(m, p) => Type::Struct(*m, p.copy()),
            Type::Class(m, p) => Type::Class(*m, p.copy()),
            Type::Ref(m, t) => Type::Ref(*m, Box::new(t.copy())),
            Type::RValueRef(m, t) => Type::RValueRef(*m, Box::new(t.copy())),
            Type::Ptr(m, t) => Type::Ptr(*m, Box::new(t.copy())),
            Type::Function(f) => Type::Function(
                Function {
                    calling_conv: f.calling_conv,
                    qualifiers: f.qualifiers,
                    return_type: Box::new(f.return_type.copy()),
                    params: copy_types(&f.params),
                },
            ),
            Type::MemberFunction(f) => Type::MemberFunction(
                MemberFunction {
                    storage_scope: f.storage_scope,
                    calling_conv: f.calling_conv,
                    qualifiers: f.qualifiers,
                    return_type: Box::new(f.return_type.copy()),
                    params: copy_types(&f.params),
                },
            ),
            Type::MemberFunctionPtr(f) => Type::MemberFunctionPtr(
                MemberFunctionPtr {
                    storage_scope: f.storage_scope,
                    class_name: f.class_name.copy(),
                    calling_conv: f.calling_conv,
                    qualifiers: f.qualifiers,
                    return_type: Box::new(f.return_type.copy()),
                    params: copy_types(&f.params),
                },
            ),
            Type::Constant(v) => Type::Constant(*v),
            Type::Variable(v) => Type::Variable(
                Variable { storage: v.storage, modi: v.modi, tipe: Box::new(v.tipe.copy()) },
            ),
            Type::Typedef(m, l) => Type::Typedef(*m, *l),
            Type::Encoded => Type::Encoded,
            Type::Array(a) => Type::Array(
                Array { modifiers: a.modifiers, tipe: Box::new(a.tipe.copy()), len: a.len },
            ),
            Type::TemplateParameterIdx(i) => Type::TemplateParameterIdx(*i),
            Type::VFTable(q, s) => Type::VFTable(
                *q,
                match s {
                    Some(s) => Some(s.copy()),
                    None => None,
                },
            ),
            Type::VBTable(q, s) => Type::VBTable(
                *q,
                match s {
                    Some(s) => Some(s.copy()),
                    None => None,
                },
            ),
            Type::VCallThunk(o, c) => Type::VCallThunk(*o, *c),
            Type::Extern(t) => Type::Extern(Box::new(t.copy())),
            Type::Variadic => Type::Variadic,
        }
    }
}

impl Scope {
    /// A copy of this scope.
    pub fn copy(&self) -> Scope
        decreases self, 0int,
    {
        Scope(copy_nested_paths(&self.0))
    }
}

impl Path {
    /// A copy of this path.
    pub fn copy(&self) -> Path
        decreases self, 0int,
    {
        Path { name: self.name.copy(), scope: self.scope.copy() }
    }
}

impl Symbol {
    /// A copy of this symbol.
    pub fn copy(&self) -> Symbol
        decreases self, 0int,
    {
        Symbol { path: self.path.copy(), tipe: self.tipe.copy() }
    }
}

impl NestedPath {
    /// A copy of this name component.
    pub fn copy(&self) -> NestedPath
        decreases self, 0int,
    {
        match self {
            NestedPath::Literal(l) => NestedPath::Literal(*l),
            NestedPath::Interface(l) => NestedPath::Interface(*l),
            NestedPath::Template(t) => NestedPath::Template(
                Template { name: Box::new(t.name.copy()), params: copy_types(&t.params) },
            ),
            NestedPath::Intrinsics(i) => NestedPath::Intrinsics(i.copy()),
            NestedPath::Symbol(s) => NestedPath::Symbol(Box::new(s.copy())),
            NestedPath::Disambiguator(d) => NestedPath::Disambiguator(*d),
            NestedPath::MD5(l) => NestedPath::MD5(*l),
            NestedPath::Anonymous => NestedPath::Anonymous,
        }
    }
}

impl Intrinsics {
    /// A copy of this intrinsic name.
    pub fn copy(&self) -> Intrinsics
        decreases self, 0int,
    {
        match self {
            Intrinsics::DynamicInitializer(s) => Intrinsics::DynamicInitializer(Box::new(s.copy())),
            Intrinsics::DynamicAtExitDtor(s) => Intrinsics::DynamicAtExitDtor(Box::new(s.copy())),
            Intrinsics::RTTITypeDescriptor(m, t) => Intrinsics::RTTITypeDescriptor(*m, Box::new(t.copy())),
            Intrinsics::RTTIBaseClassDescriptor { nv_off, ptr_off, vbtable_off, flags } =>
                Intrinsics::RTTIBaseClassDescriptor {
                    nv_off: *nv_off,
                    ptr_off: *ptr_off,
                    vbtable_off: *vbtable_off,
                    flags: *flags,
                },
            Intrinsics::SourceName(l) => Intrinsics::SourceName(*l),
            Intrinsics::Ctor => Intrinsics::Ctor,
            Intrinsics::Dtor => Intrinsics::Dtor,
            Intrinsics::New => Intrinsics::New,
            Intrinsics::NewArray => Intrinsics::NewArray,
            Intrinsics::Delete => Intrinsics::Delete,
            Intrinsics::DeleteArray => Intrinsics::DeleteArray,
            Intrinsics::ShiftLeft => Intrinsics::ShiftLeft,
            Intrinsics::ShiftLeftEquals => Intrinsics::ShiftLeftEquals,
            Intrinsics::ShiftRight => Intrinsics::ShiftRight,
            Intrinsics::ShiftRightEquals => Intrinsics::ShiftRightEquals,
            Intrinsics::TypeCast => Intrinsics::TypeCast,
            Intrinsics::Array => Intrinsics::Array,
            Intrinsics::Pointer => Intrinsics::Pointer,
            Intrinsics::Dereference => Intrinsics::Dereference,
            Intrinsics::MemberDereference => Intrinsics::MemberDereference,
            Intrinsics::Increment => Intrinsics::Increment,
            Intrinsics::Decrement => Intrinsics::Decrement,
            Intrinsics::TimesEquals => Intrinsics::TimesEquals,
            Intrinsics::Minus => Intrinsics::Minus,
            Intrinsics::MinusEquals => Intrinsics::MinusEquals,
            Intrinsics::Plus => Intrinsics::Plus,
            Intrinsics::PlusEquals => Intrinsics::PlusEquals,
            Intrinsics::Divide => Intrinsics::Divide,
            Intrinsics::DivideEquals => Intrinsics::DivideEquals,
            Intrinsics::Modulus => Intrinsics::Modulus,
            Intrinsics::ModulusEquals => Intrinsics::ModulusEquals,
            Intrinsics::Xor => Intrinsics::Xor,
            Intrinsics::XorEquals => Intrinsics::XorEquals,
            Intrinsics::VFTable => Intrinsics::VFTable,
            Intrinsics::VBTable => Intrinsics::VBTable,
            Intrinsics::VCall => Intrinsics::VCall,
            Intrinsics::TypeOff => Intrinsics::TypeOff,
            Intrinsics::LocalStaticGuard => Intrinsics::LocalStaticGuard,
            Intrinsics::String => Intrinsics::String,
            Intrinsics::ArithmeticAND => Intrinsics::ArithmeticAND,
            Intrinsics::ANDEquals => Intrinsics::ANDEquals,
            Intrinsics::ArithmeticOR => Intrinsics::ArithmeticOR,
            Intrinsics::OREquals => Intrinsics::OREquals,
            Intrinsics::ArithmeticNot => Intrinsics::ArithmeticNot,
            Intrinsics::LogicalAND => Intrinsics::LogicalAND,
            Intrinsics::LogicalOR => Intrinsics::LogicalOR,
            Intrinsics::LogicalNot => Intrinsics::LogicalNot,
            Intrinsics::Assign => Intrinsics::Assign,
            Intrinsics::Equals => Intrinsics::Equals,
            Intrinsics::NotEquals => Intrinsics::NotEquals,
            Intrinsics::Less => Intrinsics::Less,
            Intrinsics::LessEqual => Intrinsics::LessEqual,
            Intrinsics::Greater => Intrinsics::Greater,
            Intrinsics::GreaterEqual => Intrinsics::GreaterEqual,
            Intrinsics::Comma => Intrinsics::Comma,
            Intrinsics::Calling => Intrinsics::Calling,
            Intrinsics::LocalStaticThreadGuard => Intrinsics::LocalStaticThreadGuard,
            Intrinsics::Spaceship => Intrinsics::Spaceship,
            Intrinsics::CoAwait => Intrinsics::CoAwait,
            Intrinsics::VBaseDtor => Intrinsics::VBaseDtor,
            Intrinsics::VectorDeletingDtor => Intrinsics::VectorDeletingDtor,
            Intrinsics::DefaultCtorClosure => Intrinsics::DefaultCtorClosure,
            Intrinsics::ScalarDeletingDtor => Intrinsics::ScalarDeletingDtor,
            Intrinsics::VecCtorIter => Intrinsics::VecCtorIter,
            Intrinsics::VecDtorIter => Intrinsics::VecDtorIter,
            Intrinsics::VecVbaseCtorIter => Intrinsics::VecVbaseCtorIter,
            Intrinsics::VdispMap => Intrinsics::VdispMap,
            Intrinsics::EHVecCtorIter => Intrinsics::EHVecCtorIter,
            Intrinsics::EHVecDtorIter => Intrinsics::EHVecDtorIter,
            Intrinsics::EHVecVbaseCtorIter => Intrinsics::EHVecVbaseCtorIter,
            Intrinsics::CopyCtorClosure => Intrinsics::CopyCtorClosure,
            Intrinsics::RTTIBaseClassArray => Intrinsics::RTTIBaseClassArray,
            Intrinsics::RTTIClassHierarchyDescriptor => Intrinsics::RTTIClassHierarchyDescriptor,
            Intrinsics::RTTIClassCompleteObjectLocator => Intrinsics::RTTIClassCompleteObjectLocator,
            Intrinsics::LocalVFTable => Intrinsics::LocalVFTable,
            Intrinsics::LocalVftableCtorClosure => Intrinsics::LocalVftableCtorClosure,
            Intrinsics::PlacementDeleteClosure => Intrinsics::PlacementDeleteClosure,
            Intrinsics::PlacementDeleteArrayClosure => Intrinsics::PlacementDeleteArrayClosure,
        }
    }
}

} // verus!
