//! A token-free picture of the items that the attribute expansions rewrite:
//! what an expansion reads of a function or a struct, and nothing else.

use vstd::prelude::*;

verus! {

/// How far an item can be seen. An expansion only ever moves a visibility
/// from one item to another, so a restricted one is carried as such.
#[derive(Debug, Clone, Copy, PartialEq, Eq, Structural)]
pub enum Visibility {
    Inherited,
    Public,
    Crate,
    Restricted,
}

/// The calling convention written in front of `fn`.
#[derive(Debug, Clone, Copy, PartialEq, Eq, Structural)]
pub enum Abi {
    /// `extern "C"`: arguments on the stack.
    C,
    /// `extern "fastcall"`: the first two arguments in registers.
    Fastcall,
    /// Any other convention.
    Other,
}

/// One parameter of a function: its pattern and its type, as written.
#[derive(Debug, Clone, PartialEq, Eq)]
pub struct Param {
    pub name: String,
    pub ty: String,
}

pub struct ParamView {
    pub name: Seq<char>,
    pub ty: Seq<char>,
}

impl DeepView for Param {
    type V = ParamView;

    open spec fn deep_view(&self) -> ParamView {
        ParamView { name: self.name@, ty: self.ty@ }
    }
}

/// The shape of what a function returns.
#[derive(Debug, Clone, PartialEq, Eq)]
pub enum ReturnType {
    /// Nothing is written after the parameters.
    Default,
    /// A path of one plain identifier, such as `bool`.
    Ident(String),
    /// Any other path.
    Path,
    /// A raw pointer.
    Ptr,
    /// Any other type.
    Other,
}

pub enum ReturnTypeView {
    Default,
    Ident(Seq<char>),
    Path,
    Ptr,
    Other,
}

impl DeepView for ReturnType {
    type V = ReturnTypeView;

    open spec fn deep_view(&self) -> ReturnTypeView {
        match self {
            ReturnType::Default => ReturnTypeView::Default,
            ReturnType::Ident(name) => ReturnTypeView::Ident(name@),
            ReturnType::Path => ReturnTypeView::Path,
            ReturnType::Ptr => ReturnTypeView::Ptr,
            ReturnType::Other => ReturnTypeView::Other,
        }
    }
}

/// A function item: its header, without its body.
#[derive(Debug, Clone, PartialEq, Eq)]
pub struct FnItem {
    pub vis: Visibility,
    pub name: String,
    pub is_unsafe: bool,
    pub abi: Option<Abi>,
    pub inputs: Vec<Param>,
    pub output: ReturnType,
}

pub struct FnItemView {
    pub vis: Visibility,
    pub name: Seq<char>,
    pub is_unsafe: bool,
    pub abi: Option<Abi>,
    pub inputs: Seq<ParamView>,
    pub output: ReturnTypeView,
}

impl DeepView for FnItem {
    type V = FnItemView;

    open spec fn deep_view(&self) -> FnItemView {
        FnItemView {
            vis: self.vis,
            name: self.name@,
            is_unsafe: self.is_unsafe,
            abi: self.abi,
            inputs: self.inputs.deep_view(),
            output: self.output.deep_view(),
        }
    }
}

/// One named field of a struct.
#[derive(Debug, Clone, PartialEq, Eq)]
pub struct Field {
    pub public: bool,
    pub name: String,
    pub ty: String,
}

pub struct FieldView {
    pub public: bool,
    pub name: Seq<char>,
    pub ty: Seq<char>,
}

impl DeepView for Field {
    type V = FieldView;

    open spec fn deep_view(&self) -> FieldView {
        FieldView { public: self.public, name: self.name@, ty: self.ty@ }
    }
}

/// The fields of a struct, by the way they are written.
#[derive(Debug, Clone, PartialEq, Eq)]
pub enum Fields {
    /// `{ a: A, b: B }`, in order.
    Named(Vec<Field>),
    /// `(A, B)`.
    Unnamed,
    /// No fields at all.
    Unit,
}

pub enum FieldsView {
    Named(Seq<FieldView>),
    Unnamed,
    Unit,
}

impl DeepView for Fields {
    type V = FieldsView;

    open spec fn deep_view(&self) -> FieldsView {
        match self {
            Fields::Named(fields) => FieldsView::Named(fields.deep_view()),
            Fields::Unnamed => FieldsView::Unnamed,
            Fields::Unit => FieldsView::Unit,
        }
    }
}

/// A struct item. Of each attribute only the last segment of its path is
/// kept, `None` where the path is empty.
#[derive(Debug, Clone, PartialEq, Eq)]
pub struct StructItem {
    pub name: String,
    pub attrs: Vec<Option<String>>,
    pub fields: Fields,
}

pub struct StructItemView {
    pub name: Seq<char>,
    pub attrs: Seq<Option<Seq<char>>>,
    pub fields: FieldsView,
}

impl DeepView for StructItem {
    type V = StructItemView;

    open spec fn deep_view(&self) -> StructItemView {
        StructItemView {
            name: self.name@,
            attrs: self.attrs.deep_view(),
            fields: self.fields.deep_view(),
        }
    }
}

/// Why an expansion refuses an item.
#[derive(Debug, Clone, Copy, PartialEq, Eq, Structural)]
pub enum ExpandError {
    /// A function override names a calling convention.
    FnAbiSpecified,
    /// A function override is not `unsafe`.
    FnNotUnsafe,
    /// A method override is not `unsafe`.
    MethodNotUnsafe,
    /// A method override names a calling convention.
    MethodAbiSpecified,
    /// A struct with unnamed fields cannot take a leading field.
    StructNotNamed,
    /// A console function names a calling convention.
    ConsoleAbiSpecified,
    /// A console function returns a type that the console cannot take.
    BadReturnType,
}

impl ExpandError {
    /// The text shown to the author of the refused item.
    pub open spec fn text(self) -> Seq<char> {
        match self {
            ExpandError::FnAbiSpecified => "function overrides must not specify an ABI"@,
            ExpandError::FnNotUnsafe => "function overrides must be `unsafe`"@,
            ExpandError::MethodNotUnsafe => "method overrides must be `unsafe`"@,
            ExpandError::MethodAbiSpecified => "method overrides must not specify an ABI"@,
            ExpandError::StructNotNamed => "struct must have named fields"@,
            ExpandError::ConsoleAbiSpecified => "console functions must not specify an ABI"@,
            ExpandError::BadReturnType =>
                "return type must be none, `bool`, `f32`, `i32`, or `*const c_char`"@,
        }
    }

    /// The text shown to the author of the refused item.
    pub fn message(self) -> (m: &'static str)
        ensures
            m@ == self.text(),
    {
        match self {
            ExpandError::FnAbiSpecified => "function overrides must not specify an ABI",
            ExpandError::FnNotUnsafe => "function overrides must be `unsafe`",
            ExpandError::MethodNotUnsafe => "method overrides must be `unsafe`",
            ExpandError::MethodAbiSpecified => "method overrides must not specify an ABI",
            ExpandError::StructNotNamed => "struct must have named fields",
            ExpandError::ConsoleAbiSpecified => "console functions must not specify an ABI",
            ExpandError::BadReturnType =>
                "return type must be none, `bool`, `f32`, `i32`, or `*const c_char`",
        }
    }
}

/// Whether `text` reads exactly `word`.
pub fn is_word(text: &String, word: &str) -> (same: bool)
    ensures
        same == (text@ == word@),
{
    let owned = String::from_str(word);
    *text == owned
}

} // verus!
