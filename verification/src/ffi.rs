//! The bridge to host functions: from a registry signature to the type of
//! the declared function, and from a name to its declaration.

use crate::error::{failure, CodegenError, CodegenErrorView, ErrorCode};
use crate::expr::{failed, Failed};
use crate::state::{Compiler, CompilerView};
use crate::symbols::{semantic_type, FfiSignature, FfiType};
use crate::types::{ir_type_of, IrType};
use vstd::prelude::*;

verus! {

/// The type of a function of the intermediate representation.
#[derive(Debug)]
pub struct FnType {
    pub params: Vec<IrType>,
    /// The type of the result; `None` where the function returns nothing.
    pub ret: Option<IrType>,
}

/// The type of a function as contracts speak of it.
pub struct FnTypeView {
    pub params: Seq<IrType>,
    pub ret: Option<IrType>,
}

impl View for FnType {
    type V = FnTypeView;

    open spec fn view(&self) -> FnTypeView {
        FnTypeView { params: self.params@, ret: self.ret }
    }
}

/// The machine type of a boundary type; `Unit` has none.
pub open spec fn ffi_ir_type(ty: FfiType) -> Option<IrType> {
    ir_type_of(semantic_type(ty))
}

/// The function type that a signature maps to: each parameter and the
/// result by `ffi_ir_type`, a `Unit` result to "returns nothing". A `Unit`
/// parameter has no mapping.
pub open spec fn spec_ffi_fn_type(signature: FfiSignature) -> Result<FnTypeView, CodegenErrorView> {
    if signature.wf() {
        Ok(
            FnTypeView {
                params: Seq::new(
                    signature.params@.len(),
                    |i: int| ffi_ir_type(signature.params@[i]).unwrap(),
                ),
                ret: ffi_ir_type(signature.result),
            },
        )
    } else {
        Err(failure(ErrorCode::UnitFfiParam, Seq::empty()))
    }
}

/// The machine type of a boundary type in parameter position.
pub fn ffi_type_to_basic(ty: FfiType) -> (r: Result<IrType, CodegenError>)
    ensures
        match r {
            Ok(t) => ffi_ir_type(ty) == Some(t),
            Err(e) => ty == FfiType::Unit && e@ == failure(ErrorCode::UnitFfiParam, Seq::empty()),
        },
{
    match ty {
        FfiType::Unit => Err(CodegenError::bare(ErrorCode::UnitFfiParam)),
        FfiType::Bool => Ok(IrType::I1),
        FfiType::I32 => Ok(IrType::I32),
        FfiType::I64 => Ok(IrType::I64),
        FfiType::F64 => Ok(IrType::F64),
        FfiType::Str => Ok(IrType::Ptr),
    }
}

/// The machine types of a list of parameters.
pub fn ffi_param_types(params: &Vec<FfiType>) -> (r: Result<Vec<IrType>, CodegenError>)
    ensures
        match r {
            Ok(types) => {
                &&& types@.len() == params@.len()
                &&& forall|i: int| 0 <= i < params@.len()
                    ==> ffi_ir_type(params@[i]) == Some(types@[i])
            },
            Err(e) => {
                &&& exists|i: int| 0 <= i < params@.len() && params@[i] == FfiType::Unit
                &&& e@ == failure(ErrorCode::UnitFfiParam, Seq::empty())
            },
        },
{
    let mut types: Vec<IrType> = Vec::new();
    let mut i: usize = 0;
    while i < params.len()
        invariant
            i <= params.len(),
            types@.len() == i,
            forall|j: int| 0 <= j < i ==> ffi_ir_type(params@[j]) == Some(types@[j]),
        decreases params.len() - i,
    {
        match ffi_type_to_basic(params[i]) {
            Ok(t) => types.push(t),
            Err(e) => {
                return Err(e);
            },
        }
        i += 1;
    }
    Ok(types)
}

/// The function type that a registry signature maps to.
pub fn ffi_signature_to_fn_type(signature: &FfiSignature) -> (r: Result<FnType, CodegenError>)
    ensures
        match spec_ffi_fn_type(*signature) {
            Ok(ty) => r matches Ok(t) && t@ == ty,
            Err(e) => r matches Err(x) && x@ == e,
        },
{
    let params = ffi_param_types(&signature.params)?;
    let ret = match signature.result {
        FfiType::Unit => None,
        FfiType::Bool => Some(IrType::I1),
        FfiType::I32 => Some(IrType::I32),
        FfiType::I64 => Some(IrType::I64),
        FfiType::F64 => Some(IrType::F64),
        FfiType::Str => Some(IrType::Ptr),
    };
    proof {
        assert(signature.wf()) by {
            assert forall|i: int| 0 <= i < signature.params@.len() implies signature.params@[i]
                != FfiType::Unit by {
                assert(ffi_ir_type(signature.params@[i]) == Some(params@[i]));
            }
        }
        assert(params@ =~= spec_ffi_fn_type(*signature)->Ok_0.params);
    }
    Ok(FnType { params, ret })
}

/// The session after the function called `name` was looked up and, if the
/// module has none so called, declared with the given type; and the place
/// of that function.
pub open spec fn spec_get_or_declare(c: CompilerView, name: Seq<char>, ty: FnTypeView) -> (
    CompilerView,
    usize,
) {
    match c.module.find_function(name) {
        Some(i) => (c, i as usize),
        None => (c.declare(name, ty.params, ty.ret), c.next_function()),
    }
}

/// The session after the host function that `name` resolves to was looked
/// up in the module and, if it is not there, declared; and its place.
pub open spec fn spec_declare_symbol(c: CompilerView, name: Seq<char>) -> Result<
    (CompilerView, usize),
    Failed,
> {
    match c.registry.get(name) {
        None => Err(failed(c, ErrorCode::UnresolvedSymbol, name)),
        Some(entry) => match c.module.find_function(entry.symbol@) {
            Some(i) => Ok((c, i as usize)),
            None => match spec_ffi_fn_type(entry.signature) {
                Err(e) => Err(Failed { state: c, error: e }),
                Ok(ty) => Ok(spec_get_or_declare(c, entry.symbol@, ty)),
            },
        },
    }
}

impl<'a> Compiler<'a> {
    /// The function called `name`: the one that the module has, or else a
    /// new declaration of the given type.
    pub fn get_or_declare(&mut self, name: &str, ty: FnType) -> (index: usize)
        ensures
            (final(self)@, index) == spec_get_or_declare(old(self)@, name@, ty@),
            index < final(self)@.module.functions.len(),
            final(self)@.module.functions[index as int].name == name@,
            old(self)@.positioned()
                ==> final(self)@.appends_to(old(self)@)
                && final(self)@.current_fn().blocks == old(self)@.current_fn().blocks,
            old(self)@.grounded() ==> final(self)@.grounded(),
    {
        proof {
            crate::ir::lemma_first_named(self@.module.functions, name@, 0);
        }
        match self.get_function(name) {
            Some(i) => i,
            None => {
                proof {
                    crate::ir::lemma_first_named(self@.module.functions, name@, 0);
                }
                self.add_function(name, ty.params, ty.ret)
            },
        }
    }

    /// The declaration of the host function that `name` resolves to. It is
    /// declared on first use, with the type that its signature maps to, and
    /// found again afterwards.
    pub fn declare_symbol_function(&mut self, name: &str) -> (r: Result<usize, CodegenError>)
        ensures
            match spec_declare_symbol(old(self)@, name@) {
                Ok((c, f)) => r == Ok::<usize, CodegenError>(f) && final(self)@ == c && f
                    < c.module.functions.len(),
                Err(stopped) => r matches Err(x) && x@ == stopped.error && final(self)@
                    == stopped.state,
            },
            r is Ok && old(self)@.positioned() ==> final(self)@.appends_to(old(self)@),
            r is Ok && old(self)@.grounded() ==> final(self)@.grounded(),
    {
        let symbol = match self.resolve(name) {
            Some(entry) => entry,
            None => {
                return Err(CodegenError::new(ErrorCode::UnresolvedSymbol, name));
            },
        };
        if let Some(function) = self.get_function(symbol.symbol.as_str()) {
            return Ok(function);
        }
        let ty = ffi_signature_to_fn_type(&symbol.signature)?;
        let name = symbol.symbol.clone();
        Ok(self.get_or_declare(name.as_str(), ty))
    }
}

} // verus!
