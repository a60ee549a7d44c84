use vstd::prelude::*;

verus! {

/// An IR type, held as plain data so that the handle layer can reason about it.
#[derive(Debug, PartialEq, Eq)]
pub enum IrType {
    Void,
    Int(u32),
    Half,
    Float,
    Double,
    FP128,
    X86FP80,
    PPCFP128,
    X86MMX,
    Label,
    Pointer(Box<IrType>, u32),
}

/// First-class types are the ones a value (a parameter, a global) may have.
pub open spec fn is_first_class(t: IrType) -> bool {
    !(t is Void) && !(t is Label)
}

impl IrType {
    /// A deep copy.
    pub fn duplicate(&self) -> (r: IrType)
        ensures
            r == *self,
        decreases self,
    {
        match self {
            IrType::Void => IrType::Void,
            IrType::Int(n) => IrType::Int(*n),
            IrType::Half => IrType::Half,
            IrType::Float => IrType::Float,
            IrType::Double => IrType::Double,
            IrType::FP128 => IrType::FP128,
            IrType::X86FP80 => IrType::X86FP80,
            IrType::PPCFP128 => IrType::PPCFP128,
            IrType::X86MMX => IrType::X86MMX,
            IrType::Label => IrType::Label,
            IrType::Pointer(elem, space) => IrType::Pointer(Box::new((**elem).duplicate()), *space),
        }
    }

    /// Structural equality of two types.
    pub fn same_as(&self, other: &IrType) -> (r: bool)
        ensures
            r == (*self == *other),
        decreases self,
    {
        match (self, other) {
            (IrType::Void, IrType::Void) => true,
            (IrType::Int(a), IrType::Int(b)) => *a == *b,
            (IrType::Half, IrType::Half) => true,
            (IrType::Float, IrType::Float) => true,
            (IrType::Double, IrType::Double) => true,
            (IrType::FP128, IrType::FP128) => true,
            (IrType::X86FP80, IrType::X86FP80) => true,
            (IrType::PPCFP128, IrType::PPCFP128) => true,
            (IrType::X86MMX, IrType::X86MMX) => true,
            (IrType::Label, IrType::Label) => true,
            (IrType::Pointer(ea, sa), IrType::Pointer(eb, sb)) => {
                *sa == *sb && (**ea).same_as(&**eb)
            },
            _ => false,
        }
    }

    /// Whether a value may have this type.
    pub fn first_class(&self) -> (r: bool)
        ensures
            r == is_first_class(*self),
    {
        match self {
            IrType::Void => false,
            IrType::Label => false,
            _ => true,
        }
    }
}

/// What a function type is: return type, ordered parameter types, variadic flag.
pub struct FunctionTypeView {
    pub ret: IrType,
    pub params: Seq<IrType>,
    pub variadic: bool,
}

/// A function signature.
#[derive(Debug, PartialEq, Eq)]
pub struct FunctionType {
    pub ret: IrType,
    pub params: Vec<IrType>,
    pub variadic: bool,
}

impl View for FunctionType {
    type V = FunctionTypeView;

    open spec fn view(&self) -> FunctionTypeView {
        FunctionTypeView { ret: self.ret, params: self.params@, variadic: self.variadic }
    }
}

impl FunctionType {
    /// Builds a signature from its parts.
    pub fn new(ret: IrType, params: Vec<IrType>, variadic: bool) -> (r: FunctionType)
        ensures
            r@ == (FunctionTypeView { ret, params: params@, variadic }),
    {
        FunctionType { ret, params, variadic }
    }

    /// A deep copy.
    pub fn duplicate(&self) -> (r: FunctionType)
        ensures
            r@ == self@,
    {
        let mut params: Vec<IrType> = Vec::new();
        let mut i: usize = 0;
        while i < self.params.len()
            invariant
                i <= self.params@.len(),
                params@ == self.params@.subrange(0, i as int),
            decreases self.params@.len() - i,
        {
            params.push(self.params[i].duplicate());
            i = i + 1;
        }
        assert(params@ == self.params@);
        FunctionType { ret: self.ret.duplicate(), params, variadic: self.variadic }
    }
}

/// An integer constant: the bits handed over and whether they are sign-extended
/// to the constant's width.
#[derive(Debug, PartialEq, Eq)]
pub struct Constant {
    pub ty: IrType,
    pub val: u64,
    pub sign_extend: bool,
}

impl Constant {
    /// A deep copy.
    pub fn duplicate(&self) -> (r: Constant)
        ensures
            r == *self,
    {
        Constant { ty: self.ty.duplicate(), val: self.val, sign_extend: self.sign_extend }
    }
}

} // verus!
