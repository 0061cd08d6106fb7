//! The two override attributes. Each turns a replacement function into one
//! with the calling convention of what it replaces, and declares the cell
//! that will hold the original.

use super::calls::{
    all_pass, all_pass_object, expand_calls, expanded_all, lemma_every_call_passes_null,
    passes_null, views_of, Expr, ExprView,
};
use super::item::{Abi, ExpandError, FnItem, FnItemView, Param, ParamView};
use crate::interop::platform::Platform;
use vstd::prelude::*;

verus! {

/// What an override attribute puts in place of the function: the function
/// rewritten, and a cell named `original` whose type is the signature of the
/// rewritten function.
#[derive(Debug, Clone, PartialEq, Eq)]
pub struct OverrideExpansion {
    pub function: FnItem,
    pub original: String,
}

pub struct OverrideExpansionView {
    pub function: FnItemView,
    pub original: Seq<char>,
}

impl DeepView for OverrideExpansion {
    type V = OverrideExpansionView;

    open spec fn deep_view(&self) -> OverrideExpansionView {
        OverrideExpansionView { function: self.function.deep_view(), original: self.original@ }
    }
}

/// What the function-override attribute makes of `func`. A replacement must
/// leave the calling convention to the attribute, and must be `unsafe`; the
/// convention is looked at first.
pub open spec fn fn_override_of(original: Seq<char>, func: FnItemView) -> Result<
    OverrideExpansionView,
    ExpandError,
> {
    if func.abi is Some {
        Err(ExpandError::FnAbiSpecified)
    } else if !func.is_unsafe {
        Err(ExpandError::FnNotUnsafe)
    } else {
        Ok(OverrideExpansionView { function: FnItemView { abi: Some(Abi::C), ..func }, original })
    }
}

/// The parameter that stands for the unused register.
pub open spec fn hidden_param() -> ParamView {
    ParamView { name: "_edx"@, ty: "*const ()"@ }
}

/// What the method-override attribute puts in place of the function: the
/// function rewritten, its body with the calls of the original rewritten,
/// and a cell named `original` whose type is the signature of the rewritten
/// function.
#[derive(Debug, PartialEq, Eq)]
pub struct MethodOverrideExpansion {
    pub function: FnItem,
    pub body: Vec<Expr>,
    pub original: String,
}

pub struct MethodOverrideExpansionView {
    pub function: FnItemView,
    pub body: Seq<ExprView>,
    pub original: Seq<char>,
}

impl DeepView for MethodOverrideExpansion {
    type V = MethodOverrideExpansionView;

    open spec fn deep_view(&self) -> MethodOverrideExpansionView {
        MethodOverrideExpansionView {
            function: self.function.deep_view(),
            body: views_of(self.body@),
            original: self.original@,
        }
    }
}

/// What the method-override attribute makes of `func` with the body `body`
/// on `platform`. Here `unsafe` is looked at first. Where a method call
/// passes an unused register, the replacement takes it as a parameter of its
/// own, right after the object, and every call of the original in its body,
/// nested or not, passes a null pointer for it. Elsewhere the body stays as
/// it is.
pub open spec fn method_override_of(
    original: Seq<char>,
    func: FnItemView,
    body: Seq<ExprView>,
    platform: Platform,
) -> Result<MethodOverrideExpansionView, ExpandError> {
    if !func.is_unsafe {
        Err(ExpandError::MethodNotUnsafe)
    } else if func.abi is Some {
        Err(ExpandError::MethodAbiSpecified)
    } else if platform.has_hidden_register() {
        Ok(
            MethodOverrideExpansionView {
                function: FnItemView {
                    abi: Some(Abi::Fastcall),
                    inputs: func.inputs.insert(1, hidden_param()),
                    ..func
                },
                body: expanded_all(original, body),
                original,
            },
        )
    } else {
        Ok(
            MethodOverrideExpansionView {
                function: FnItemView { abi: Some(Abi::C), ..func },
                body,
                original,
            },
        )
    }
}

/// Whether `method_override` takes an override: false only for one that
/// would be accepted where the unused register is passed and that lacks the
/// object, as its own first parameter or as the first argument of a call of
/// the original.
pub open spec fn expandable(
    original: Seq<char>,
    func: FnItemView,
    body: Seq<ExprView>,
    platform: Platform,
) -> bool {
    platform.has_hidden_register() && func.is_unsafe && func.abi is None ==> func.inputs.len()
        >= 1 && all_pass_object(original, body)
}

/// The parameter of a method type that stands for the unused register.
pub open spec fn register_param() -> ParamView {
    ParamView { name: "edx"@, ty: "*const ()"@ }
}

/// The type of a method of the foreign binary on `platform`, from the
/// signature that the method declares, the object first: an unsafe function
/// with the calling convention of methods, which, where the unused register
/// is passed, takes it right after the object.
pub open spec fn method_type_of(func: FnItemView, platform: Platform) -> FnItemView {
    if platform.has_hidden_register() {
        FnItemView {
            is_unsafe: true,
            abi: Some(Abi::Fastcall),
            inputs: func.inputs.insert(1, register_param()),
            ..func
        }
    } else {
        FnItemView { is_unsafe: true, abi: Some(Abi::C), ..func }
    }
}

/// Constructs the type for a method function.
pub fn method(func: FnItem, platform: Platform) -> (r: FnItem)
    requires
        func.inputs.len() >= 1,
    ensures
        r.deep_view() == method_type_of(func.deep_view(), platform),
{
    let ghost before = func.inputs.deep_view();
    let mut inputs = func.inputs;
    let abi = if platform.hidden_register() {
        let edx = Param { name: String::from_str("edx"), ty: String::from_str("*const ()") };
        inputs.insert(1, edx);
        assert(inputs.deep_view() =~= before.insert(1, register_param()));
        Abi::Fastcall
    } else {
        Abi::C
    };
    FnItem {
        vis: func.vis,
        name: func.name,
        is_unsafe: true,
        abi: Some(abi),
        inputs,
        output: func.output,
    }
}

/// Expands the function-override attribute on `func`; `original` names the
/// cell for the function that is replaced.
pub fn fn_override(original: String, func: FnItem) -> (r: Result<OverrideExpansion, ExpandError>)
    ensures
        match r {
            Ok(e) => fn_override_of(original@, func.deep_view()) == Ok::<
                OverrideExpansionView,
                ExpandError,
            >(e.deep_view()),
            Err(e) => fn_override_of(original@, func.deep_view()) == Err::<
                OverrideExpansionView,
                ExpandError,
            >(e),
        },
{
    if func.abi.is_some() {
        return Err(ExpandError::FnAbiSpecified);
    }
    if !func.is_unsafe {
        return Err(ExpandError::FnNotUnsafe);
    }
    let function = FnItem {
        vis: func.vis,
        name: func.name,
        is_unsafe: func.is_unsafe,
        abi: Some(Abi::C),
        inputs: func.inputs,
        output: func.output,
    };
    Ok(OverrideExpansion { function, original })
}

/// Expands the method-override attribute on `func`, whose body holds the
/// expressions `body`, for `platform`.
pub fn method_override(original: String, func: FnItem, body: Vec<Expr>, platform: Platform) -> (r:
    Result<MethodOverrideExpansion, ExpandError>)
    requires
        expandable(original@, func.deep_view(), views_of(body@), platform),
    ensures
        match r {
            Ok(e) => method_override_of(original@, func.deep_view(), views_of(body@), platform)
                == Ok::<MethodOverrideExpansionView, ExpandError>(e.deep_view()),
            Err(e) => method_override_of(original@, func.deep_view(), views_of(body@), platform)
                == Err::<MethodOverrideExpansionView, ExpandError>(e),
        },
{
    if !func.is_unsafe {
        return Err(ExpandError::MethodNotUnsafe);
    }
    if func.abi.is_some() {
        return Err(ExpandError::MethodAbiSpecified);
    }
    let ghost before = func.inputs.deep_view();
    let mut inputs = func.inputs;
    let (abi, body) = if platform.hidden_register() {
        let edx = Param { name: String::from_str("_edx"), ty: String::from_str("*const ()") };
        inputs.insert(1, edx);
        assert(inputs.deep_view() =~= before.insert(1, hidden_param()));
        (Abi::Fastcall, expand_calls(&original, body))
    } else {
        (Abi::C, body)
    };
    let function = FnItem {
        vis: func.vis,
        name: func.name,
        is_unsafe: func.is_unsafe,
        abi: Some(abi),
        inputs,
        output: func.output,
    };
    Ok(MethodOverrideExpansion { function, body, original })
}

/// Tells whether `method_override` takes an override.
pub fn can_expand(original: &String, func: &FnItem, body: &Vec<Expr>, platform: Platform) -> (ok:
    bool)
    ensures
        ok == expandable(original@, func.deep_view(), views_of(body@), platform),
{
    if platform.hidden_register() && func.is_unsafe && func.abi.is_none() {
        func.inputs.len() >= 1 && all_pass(original, body)
    } else {
        true
    }
}

/// What an accepted method override looks like where the unused register is
/// passed: it has one parameter more than was written, the added one right
/// after the object; and every call of the original in its body, nested or
/// not, passes a null pointer right after the object. Elsewhere parameters
/// and body are as they were written.
pub proof fn lemma_method_override_takes_register(
    original: Seq<char>,
    func: FnItemView,
    body: Seq<ExprView>,
)
    requires
        func.is_unsafe,
        func.abi is None,
        func.inputs.len() >= 1,
        all_pass_object(original, body),
    ensures
        method_override_of(original, func, body, Platform::Windows) is Ok,
        ({
            let e = method_override_of(original, func, body, Platform::Windows)->Ok_0;
            &&& e.function.inputs.len() == func.inputs.len() + 1
            &&& e.function.inputs[0] == func.inputs[0]
            &&& e.function.inputs[1] == hidden_param()
            &&& e.body.len() == body.len()
            &&& forall|i: int| 0 <= i < e.body.len() ==> passes_null(original, #[trigger] e.body[i])
        }),
        method_override_of(original, func, body, Platform::MacOs) is Ok,
        method_override_of(original, func, body, Platform::MacOs)->Ok_0.function.inputs
            == func.inputs,
        method_override_of(original, func, body, Platform::MacOs)->Ok_0.body == body,
{
    let e = method_override_of(original, func, body, Platform::Windows)->Ok_0;
    assert forall|i: int| 0 <= i < e.body.len() implies passes_null(
        original,
        #[trigger] e.body[i],
    ) by {
        lemma_every_call_passes_null(original, body[i]);
    }
}

} // verus!
