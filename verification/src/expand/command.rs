//! The console-command attribute: it turns a function into a private
//! function with the engine's calling convention and a public descriptor
//! under the function's name.

use super::item::{
    is_word, Abi, ExpandError, FnItem, FnItemView, ReturnType, ReturnTypeView, Visibility,
};
use super::meta::{ConsoleFnMeta, ConsoleFnMetaView};
use crate::con::command::CommandKind;
use vstd::prelude::*;

verus! {

/// What the attribute puts in place of the function.
#[derive(Debug, Clone, PartialEq, Eq)]
pub struct CommandExpansion {
    /// The function itself, now private and renamed.
    pub function: FnItem,
    /// The visibility of the descriptor: the one the function had.
    pub vis: Visibility,
    /// The name of the descriptor: the one the function had.
    pub ident: String,
    /// The class whose method the command is, if it is one.
    pub class: Option<String>,
    /// The name under which the console knows the command.
    pub name: String,
    pub usage: String,
    pub min_args: i32,
    pub max_args: i32,
    /// What the function returns to the console.
    pub kind: CommandKind,
}

pub struct CommandExpansionView {
    pub function: FnItemView,
    pub vis: Visibility,
    pub ident: Seq<char>,
    pub class: Option<Seq<char>>,
    pub name: Seq<char>,
    pub usage: Seq<char>,
    pub min_args: i32,
    pub max_args: i32,
    pub kind: CommandKind,
}

impl DeepView for CommandExpansion {
    type V = CommandExpansionView;

    open spec fn deep_view(&self) -> CommandExpansionView {
        CommandExpansionView {
            function: self.function.deep_view(),
            vis: self.vis,
            ident: self.ident@,
            class: self.class.deep_view(),
            name: self.name@,
            usage: self.usage@,
            min_args: self.min_args,
            max_args: self.max_args,
            kind: self.kind,
        }
    }
}

/// What a function of the given return type hands to the console: nothing,
/// one of `bool`, `f32` and `i32`, or, for any raw pointer, a string. Any
/// other type is refused.
pub open spec fn kind_of(output: ReturnTypeView) -> Option<CommandKind> {
    match output {
        ReturnTypeView::Default => Some(CommandKind::Void),
        ReturnTypeView::Ident(name) => if name == "bool"@ {
            Some(CommandKind::Bool)
        } else if name == "f32"@ {
            Some(CommandKind::Float)
        } else if name == "i32"@ {
            Some(CommandKind::Int)
        } else {
            None
        },
        ReturnTypeView::Ptr => Some(CommandKind::String),
        _ => None,
    }
}

/// The name of the private function: two underscores, then the name.
pub open spec fn private_name(name: Seq<char>) -> Seq<char> {
    "__"@ + name
}

/// What the attribute makes of `func`, or why it refuses it. A calling
/// convention is looked for first, then the return type.
pub open spec fn command_of(meta: ConsoleFnMetaView, func: FnItemView) -> Result<
    CommandExpansionView,
    ExpandError,
> {
    if func.abi is Some {
        Err(ExpandError::ConsoleAbiSpecified)
    } else {
        match kind_of(func.output) {
            None => Err(ExpandError::BadReturnType),
            Some(kind) => Ok(
                CommandExpansionView {
                    function: FnItemView {
                        vis: Visibility::Inherited,
                        name: private_name(func.name),
                        abi: Some(Abi::C),
                        ..func
                    },
                    vis: func.vis,
                    ident: func.name,
                    class: meta.class,
                    name: func.name,
                    usage: meta.usage,
                    min_args: meta.min_args,
                    max_args: meta.max_args,
                    kind,
                },
            ),
        }
    }
}

/// Classifies a return type as `kind_of` says.
pub fn return_kind(output: &ReturnType) -> (kind: Option<CommandKind>)
    ensures
        kind == kind_of(output.deep_view()),
{
    match output {
        ReturnType::Default => Some(CommandKind::Void),
        ReturnType::Ident(name) => {
            if is_word(name, "bool") {
                Some(CommandKind::Bool)
            } else if is_word(name, "f32") {
                Some(CommandKind::Float)
            } else if is_word(name, "i32") {
                Some(CommandKind::Int)
            } else {
                None
            }
        },
        ReturnType::Ptr => Some(CommandKind::String),
        _ => None,
    }
}

/// Expands the console-command attribute on `func` with arguments `meta`.
pub fn command(meta: ConsoleFnMeta, func: FnItem) -> (r: Result<CommandExpansion, ExpandError>)
    ensures
        match r {
            Ok(e) => command_of(meta.deep_view(), func.deep_view()) == Ok::<
                CommandExpansionView,
                ExpandError,
            >(e.deep_view()),
            Err(e) => command_of(meta.deep_view(), func.deep_view()) == Err::<
                CommandExpansionView,
                ExpandError,
            >(e),
        },
{
    if func.abi.is_some() {
        return Err(ExpandError::ConsoleAbiSpecified);
    }
    let kind = match return_kind(&func.output) {
        Some(kind) => kind,
        None => {
            return Err(ExpandError::BadReturnType);
        },
    };
    let private = String::from_str("__").concat(func.name.as_str());
    let ident = func.name.clone();
    let vis = func.vis;
    let function = FnItem {
        vis: Visibility::Inherited,
        name: private,
        is_unsafe: func.is_unsafe,
        abi: Some(Abi::C),
        inputs: func.inputs,
        output: func.output,
    };
    Ok(
        CommandExpansion {
            function,
            vis,
            ident,
            class: meta.class,
            name: func.name,
            usage: meta.usage,
            min_args: meta.min_args,
            max_args: meta.max_args,
            kind,
        },
    )
}

} // verus!
