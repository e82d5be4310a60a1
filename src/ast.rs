//! The syntax tree of a demangled symbol, and the back-reference tables
//! that parsing fills.
use vstd::prelude::*;
use crate::context::{Literal, Modifiers};

verus! {

/// Number of entries each back-reference table can hold.
pub const BACKREF_CAPACITY: usize = 10;

/// A C++ type.
#[derive(Debug)]
pub enum Type {
    Unit,
    Nullptr,
    Void(Modifiers),
    Bool(Modifiers),
    Char(Modifiers),
    Char8(Modifiers),
    Char16(Modifiers),
    Char32(Modifiers),
    IChar(Modifiers),
    UChar(Modifiers),
    WChar(Modifiers),
    IShort(Modifiers),
    UShort(Modifiers),
    Int(Modifiers),
    UInt(Modifiers),
    Float(Modifiers),
    Double(Modifiers),
    LDouble(Modifiers),
    Long(Modifiers),
    ULong(Modifiers),
    W64(Modifiers, Box<Type>),
    Int8(Modifiers),
    UInt8(Modifiers),
    Int16(Modifiers),
    UInt16(Modifiers),
    Int32(Modifiers),
    UInt32(Modifiers),
    Int64(Modifiers),
    UInt64(Modifiers),
    Int128(Modifiers),
    Uint128(Modifiers),
    Union(Modifiers, Path),
    Enum(Modifiers, Path),
    Struct(Modifiers, Path),
    Class(Modifiers, Path),
    Ref(Modifiers, Box<Type>),
    RValueRef(Modifiers, Box<Type>),
    Ptr(Modifiers, Box<Type>),
    Function(Function),
    MemberFunction(MemberFunction),
    MemberFunctionPtr(MemberFunctionPtr),
    Constant(i64),
    Variable(Variable),
    /// Renamed literal with additional modifiers.
    Typedef(Modifiers, Literal),
    /// Identifier in an encoding that is not decoded.
    Encoded,
    /// Array with one dimension; more dimensions chain through the element type.
    Array(Array),
    /// `template-parameter-<idx>`
    TemplateParameterIdx(i64),
    /// Virtual function table.
    VFTable(Modifiers, Option<Scope>),
    /// Virtual base table.
    VBTable(Modifiers, Option<Scope>),
    /// Virtual call thunk at an offset.
    VCallThunk(i64, CallingConv),
    /// `extern "C"`
    Extern(Box<Type>),
    /// `...` in a parameter list.
    Variadic,
}

/// Storage class of a data symbol.
#[derive(Debug, Clone, Copy, PartialEq, Eq, Structural)]
pub enum StorageVariable {
    PrivateStatic,
    ProtectedStatic,
    PublicStatic,
    Global,
    FunctionLocalStatic,
}

/// A data symbol.
#[derive(Debug)]
pub struct Variable {
    pub storage: StorageVariable,
    pub modi: Modifiers,
    pub tipe: Box<Type>,
}

/// Calling conventions of MSVC.
#[derive(Debug, Clone, Copy, PartialEq, Eq, Structural)]
pub enum CallingConv {
    Cdecl,
    Pascal,
    Thiscall,
    Stdcall,
    Fastcall,
    Clrcall,
    Eabi,
    Vectorcall,
}

/// Bit set of visibility, linkage and dispatch of a member.
#[derive(Debug, Clone, Copy, PartialEq, Eq, Structural)]
pub struct StorageScope(pub u32);

pub const PUBLIC: u32 = 1;
pub const PRIVATE: u32 = 2;
pub const PROTECTED: u32 = 4;
pub const GLOBAL: u32 = 8;
pub const STATIC: u32 = 16;
pub const VIRTUAL: u32 = 32;
pub const SCOPE_FAR: u32 = 64;
pub const THUNK: u32 = 128;
pub const ADJUST: u32 = 256;

/// A free function.
#[derive(Debug)]
pub struct Function {
    pub calling_conv: CallingConv,
    pub qualifiers: Modifiers,
    pub return_type: Box<Type>,
    pub params: Vec<Type>,
}

/// A member function of a class.
#[derive(Debug)]
pub struct MemberFunction {
    pub storage_scope: StorageScope,
    pub calling_conv: CallingConv,
    pub qualifiers: Modifiers,
    pub return_type: Box<Type>,
    pub params: Vec<Type>,
}

/// A pointer to a member function of `class_name`.
#[derive(Debug)]
pub struct MemberFunctionPtr {
    pub storage_scope: StorageScope,
    pub class_name: Path,
    pub calling_conv: CallingConv,
    pub qualifiers: Modifiers,
    pub return_type: Box<Type>,
    pub params: Vec<Type>,
}

/// One dimension of an array, of `len` elements of `tipe`.
#[derive(Debug)]
pub struct Array {
    pub modifiers: Modifiers,
    pub tipe: Box<Type>,
    pub len: i64,
}

/// Operators and compiler-generated names.
#[derive(Debug)]
pub enum Intrinsics {
    Ctor,
    Dtor,
    New,
    NewArray,
    Delete,
    DeleteArray,
    ShiftLeft,
    ShiftLeftEquals,
    ShiftRight,
    ShiftRightEquals,
    TypeCast,
    Array,
    Pointer,
    Dereference,
    MemberDereference,
    Increment,
    Decrement,
    TimesEquals,
    Minus,
    MinusEquals,
    Plus,
    PlusEquals,
    Divide,
    DivideEquals,
    Modulus,
    ModulusEquals,
    Xor,
    XorEquals,
    VFTable,
    VBTable,
    VCall,
    TypeOff,
    LocalStaticGuard,
    String,
    ArithmeticAND,
    ANDEquals,
    ArithmeticOR,
    OREquals,
    ArithmeticNot,
    LogicalAND,
    LogicalOR,
    LogicalNot,
    Assign,
    Equals,
    NotEquals,
    Less,
    LessEqual,
    Greater,
    GreaterEqual,
    Comma,
    Calling,
    DynamicInitializer(Box<Symbol>),
    DynamicAtExitDtor(Box<Symbol>),
    LocalStaticThreadGuard,
    Spaceship,
    CoAwait,
    VBaseDtor,
    VectorDeletingDtor,
    DefaultCtorClosure,
    ScalarDeletingDtor,
    VecCtorIter,
    VecDtorIter,
    VecVbaseCtorIter,
    VdispMap,
    EHVecCtorIter,
    EHVecDtorIter,
    EHVecVbaseCtorIter,
    CopyCtorClosure,
    RTTITypeDescriptor(Modifiers, Box<Type>),
    RTTIBaseClassDescriptor { nv_off: i64, ptr_off: i64, vbtable_off: i64, flags: i64 },
    RTTIBaseClassArray,
    RTTIClassHierarchyDescriptor,
    RTTIClassCompleteObjectLocator,
    LocalVFTable,
    LocalVftableCtorClosure,
    PlacementDeleteClosure,
    PlacementDeleteArrayClosure,
    SourceName(Literal),
}

/// Enclosing namespaces and classes, innermost first.
#[derive(Debug)]
pub struct Scope(pub Vec<NestedPath>);

/// A fully-qualified name.
#[derive(Debug)]
pub struct Path {
    pub name: NestedPath,
    pub scope: Scope,
}

/// One component of a name.
#[derive(Debug)]
pub enum NestedPath {
    Literal(Literal),
    Interface(Literal),
    Template(Template),
    Intrinsics(Intrinsics),
    Symbol(Box<Symbol>),
    Disambiguator(i64),
    MD5(Literal),
    Anonymous,
}

/// A name with template arguments.
#[derive(Debug)]
pub struct Template {
    pub name: Box<NestedPath>,
    pub params: Vec<Type>,
}

/// Root of the tree: a mangled name.
#[derive(Debug)]
pub struct Symbol {
    pub path: Path,
    pub tipe: Type,
}

impl Symbol {
    /// A symbol that is a bare name with no type.
    pub fn from_name(name: NestedPath) -> (r: Symbol)
        ensures
            r.path.name == name,
            r.path.scope.0@.len() == 0,
            r.tipe is Unit,
    {
        Symbol { path: Path { name, scope: Scope(Vec::new()) }, tipe: Type::Unit }
    }
}

/// The two back-reference tables of one parse: identifiers and parameter
/// types, each addressed by one decimal digit.
#[derive(Debug)]
pub struct Backrefs {
    pub idents: Vec<Literal>,
    pub params: Vec<Type>,
}

/// `b` holds what `a` held, and maybe more after it.
pub open spec fn grown(a: Backrefs, b: Backrefs) -> bool {
    &&& b.wf()
    &&& crate::tokens::is_prefix(a.idents@, b.idents@)
    &&& crate::tokens::is_prefix(a.params@, b.params@)
}

impl Backrefs {
    pub open spec fn wf(&self) -> bool {
        &&& self.idents@.len() <= BACKREF_CAPACITY
        &&& self.params@.len() <= BACKREF_CAPACITY
    }

    /// Two empty tables.
    pub fn new() -> (r: Backrefs)
        ensures
            r.idents@.len() == 0,
            r.params@.len() == 0,
    {
        Backrefs { idents: Vec::new(), params: Vec::new() }
    }

    /// Appends an identifier; does nothing when the table is full.
    pub fn try_memorizing_ident(&mut self, lit: Literal)
        requires
            old(self).wf(),
        ensures
            final(self).wf(),
            final(self).params == old(self).params,
            final(self).idents@ == if old(self).idents@.len() < BACKREF_CAPACITY {
                old(self).idents@.push(lit)
            } else {
                old(self).idents@
            },
            grown(*old(self), *final(self)),
    {
        if self.idents.len() < BACKREF_CAPACITY {
            self.idents.push(lit);
        }
    }

    /// Appends a parameter type; does nothing when the table is full.
    pub fn try_memorizing_param(&mut self, t: Type)
        requires
            old(self).wf(),
        ensures
            final(self).wf(),
            final(self).idents == old(self).idents,
            final(self).params@ == if old(self).params@.len() < BACKREF_CAPACITY {
                old(self).params@.push(t)
            } else {
                old(self).params@
            },
            grown(*old(self), *final(self)),
    {
        if self.params.len() < BACKREF_CAPACITY {
            self.params.push(t);
        }
    }

    /// The identifier stored at `idx`, if there is one.
    pub fn get_memorized_ident(&self, idx: usize) -> (r: Option<Literal>)
        ensures
            r == if idx < self.idents@.len() {
                Some(self.idents@[idx as int])
            } else {
                None
            },
    {
        if idx < self.idents.len() {
            Some(self.idents[idx])
        } else {
            None
        }
    }

    /// A copy of the parameter type stored at `idx`, if there is one.
    pub fn get_memorized_param(&self, idx: usize) -> (r: Option<Type>)
        ensures
            r is Some == (idx < self.params@.len()),
    {
        if idx < self.params.len() {
            Some(self.params[idx].copy())
        } else {
            None
        }
    }
}

} // verus!
