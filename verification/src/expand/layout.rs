//! The attributes that shape a struct after a foreign object: a derived
//! object begins with its base, a base object begins with the address of its
//! dispatch table, and an object that the library owns is torn down through
//! that table.

use super::item::{is_word, ExpandError, Field, FieldView, Fields, FieldsView, StructItem, StructItemView};
use vstd::prelude::*;

verus! {

/// How generated code names the library: from inside it, or from a plugin.
#[derive(Debug, Clone, Copy, PartialEq, Eq, Structural)]
pub enum LibraryPath {
    /// `crate`.
    Crate,
    /// `::mbx`.
    Extern,
}

/// The name of the package that is the library itself.
pub open spec fn library_package() -> Seq<char> {
    "mbx"@
}

impl LibraryPath {
    /// How code generated while `package` is built names the library.
    pub open spec fn of(package: Seq<char>) -> LibraryPath {
        if package == library_package() {
            LibraryPath::Crate
        } else {
            LibraryPath::Extern
        }
    }

    /// How code generated while `package` is built names the library.
    pub fn for_package(package: &String) -> (path: LibraryPath)
        ensures
            path == LibraryPath::of(package@),
    {
        if is_word(package, "mbx") {
            LibraryPath::Crate
        } else {
            LibraryPath::Extern
        }
    }
}

/// `fields` with `field` put in front: a struct without fields gets it as its
/// only one, and unnamed fields cannot take it.
pub open spec fn with_leading(fields: FieldsView, field: FieldView) -> Option<FieldsView> {
    match fields {
        FieldsView::Named(named) => Some(FieldsView::Named(named.insert(0, field))),
        FieldsView::Unnamed => None,
        FieldsView::Unit => Some(FieldsView::Named(seq![field])),
    }
}

/// Puts `field` in front of `fields`.
pub fn put_leading(fields: Fields, field: Field) -> (r: Option<Fields>)
    ensures
        r.deep_view() == with_leading(fields.deep_view(), field.deep_view()),
{
    match fields {
        Fields::Named(named) => {
            let ghost before = named.deep_view();
            let mut named = named;
            named.insert(0, field);
            assert(named.deep_view() =~= before.insert(0, field.deep_view()));
            Some(Fields::Named(named))
        },
        Fields::Unnamed => None,
        Fields::Unit => {
            let mut named: Vec<Field> = Vec::new();
            named.push(field);
            assert(named.deep_view() =~= seq![field.deep_view()]);
            Some(Fields::Named(named))
        },
    }
}

/// What the inheritance attribute puts in place of the struct: the struct
/// with its base in front, and access to the base through the field `parent`.
#[derive(Debug, Clone, PartialEq, Eq)]
pub struct InheritsExpansion {
    pub item: StructItem,
    pub parent: String,
}

pub struct InheritsExpansionView {
    pub item: StructItemView,
    pub parent: Seq<char>,
}

impl DeepView for InheritsExpansion {
    type V = InheritsExpansionView;

    open spec fn deep_view(&self) -> InheritsExpansionView {
        InheritsExpansionView { item: self.item.deep_view(), parent: self.parent@ }
    }
}

/// The field that embeds the base.
pub open spec fn parent_field(parent: Seq<char>) -> FieldView {
    FieldView { public: true, name: "parent"@, ty: parent }
}

/// What the inheritance attribute makes of `item`: the base is embedded as
/// the first field, in front of every field that was written.
pub open spec fn inherits_of(parent: Seq<char>, item: StructItemView) -> Result<
    InheritsExpansionView,
    ExpandError,
> {
    match with_leading(item.fields, parent_field(parent)) {
        Some(fields) => Ok(
            InheritsExpansionView { item: StructItemView { fields, ..item }, parent },
        ),
        None => Err(ExpandError::StructNotNamed),
    }
}

/// Expands the inheritance attribute on `item` with base `parent`.
pub fn inherits(parent: String, item: StructItem) -> (r: Result<InheritsExpansion, ExpandError>)
    ensures
        match r {
            Ok(e) => inherits_of(parent@, item.deep_view()) == Ok::<
                InheritsExpansionView,
                ExpandError,
            >(e.deep_view()),
            Err(e) => inherits_of(parent@, item.deep_view()) == Err::<
                InheritsExpansionView,
                ExpandError,
            >(e),
        },
{
    let field = Field { public: true, name: String::from_str("parent"), ty: parent.clone() };
    match put_leading(item.fields, field) {
        Some(fields) => Ok(
            InheritsExpansion {
                item: StructItem { name: item.name, attrs: item.attrs, fields },
                parent,
            },
        ),
        None => Err(ExpandError::StructNotNamed),
    }
}

/// Whether a struct is derived from another: it still carries the
/// inheritance attribute, or its first field is the embedded base.
pub open spec fn is_subclass(item: StructItemView) -> bool {
    ||| exists|i: int| 0 <= i < item.attrs.len() && #[trigger] item.attrs[i] == Some("inherits"@)
    ||| item.fields matches FieldsView::Named(named) && named.len() > 0 && named[0].name
        == "parent"@
}

/// Whether `item` is derived from another struct.
pub fn subclass(item: &StructItem) -> (derived: bool)
    ensures
        derived == is_subclass(item.deep_view()),
{
    let ghost attrs = item.deep_view().attrs;
    let mut i: usize = 0;
    while i < item.attrs.len()
        invariant
            i <= item.attrs.len(),
            attrs == item.attrs.deep_view(),
            forall|k: int| 0 <= k < i ==> #[trigger] attrs[k] != Some("inherits"@),
        decreases item.attrs.len() - i,
    {
        let found = match &item.attrs[i] {
            Some(name) => is_word(name, "inherits"),
            None => false,
        };
        if found {
            assert(attrs[i as int] == Some("inherits"@));
            return true;
        }
        i += 1;
    }
    match &item.fields {
        Fields::Named(named) => {
            if named.len() > 0 {
                is_word(&named[0].name, "parent")
            } else {
                false
            }
        },
        _ => false,
    }
}

/// What the dispatch-table attribute puts in place of the struct: the struct,
/// and the lookup of its table, whose type is `vtable_type`.
#[derive(Debug, Clone, PartialEq, Eq)]
pub struct VtableExpansion {
    pub item: StructItem,
    pub vtable_type: String,
    pub library: LibraryPath,
}

pub struct VtableExpansionView {
    pub item: StructItemView,
    pub vtable_type: Seq<char>,
    pub library: LibraryPath,
}

impl DeepView for VtableExpansion {
    type V = VtableExpansionView;

    open spec fn deep_view(&self) -> VtableExpansionView {
        VtableExpansionView {
            item: self.item.deep_view(),
            vtable_type: self.vtable_type@,
            library: self.library,
        }
    }
}

/// The field that holds the address of the dispatch table.
pub open spec fn vtable_field(vtable_type: Seq<char>) -> FieldView {
    FieldView { public: true, name: "vtable"@, ty: "*const "@ + vtable_type }
}

/// What the dispatch-table attribute makes of `item`. Only the struct at the
/// base of a chain gets the address of the table as a field of its own, in
/// front of every field that was written: a derived struct already begins
/// with it, inside its base.
pub open spec fn vtable_of(
    vtable_type: Seq<char>,
    item: StructItemView,
    library: LibraryPath,
) -> Result<VtableExpansionView, ExpandError> {
    if is_subclass(item) {
        Ok(VtableExpansionView { item, vtable_type, library })
    } else {
        match with_leading(item.fields, vtable_field(vtable_type)) {
            Some(fields) => Ok(
                VtableExpansionView {
                    item: StructItemView { fields, ..item },
                    vtable_type,
                    library,
                },
            ),
            None => Err(ExpandError::StructNotNamed),
        }
    }
}

/// Expands the dispatch-table attribute on `item`.
pub fn vtable(vtable_type: String, item: StructItem, library: LibraryPath) -> (r: Result<
    VtableExpansion,
    ExpandError,
>)
    ensures
        match r {
            Ok(e) => vtable_of(vtable_type@, item.deep_view(), library) == Ok::<
                VtableExpansionView,
                ExpandError,
            >(e.deep_view()),
            Err(e) => vtable_of(vtable_type@, item.deep_view(), library) == Err::<
                VtableExpansionView,
                ExpandError,
            >(e),
        },
{
    if subclass(&item) {
        return Ok(VtableExpansion { item, vtable_type, library });
    }
    let ty = String::from_str("*const ").concat(vtable_type.as_str());
    let field = Field { public: true, name: String::from_str("vtable"), ty };
    match put_leading(item.fields, field) {
        Some(fields) => Ok(
            VtableExpansion {
                item: StructItem { name: item.name, attrs: item.attrs, fields },
                vtable_type,
                library,
            },
        ),
        None => Err(ExpandError::StructNotNamed),
    }
}

/// What the destructor attribute puts in place of the struct: the struct as
/// it is, and a teardown that looks up the destructor in the struct's
/// dispatch table and invokes it on the value, once, when the value goes.
#[derive(Debug, Clone, PartialEq, Eq)]
pub struct DropExpansion {
    pub item: StructItem,
    pub library: LibraryPath,
}

/// Expands the destructor attribute on `item`.
pub fn virtual_destructor(item: StructItem, library: LibraryPath) -> (e: DropExpansion)
    ensures
        e.item == item,
        e.library == library,
{
    DropExpansion { item, library }
}

/// After the inheritance attribute the struct begins with its base, the
/// fields that were written follow in their order, and the dispatch-table
/// attribute, whichever of the two is expanded first, adds no table address.
pub proof fn lemma_derived_struct_layout(parent: Seq<char>, item: StructItemView)
    requires
        inherits_of(parent, item) is Ok,
    ensures
        inherits_of(parent, item)->Ok_0.item.fields matches FieldsView::Named(fields) && {
            &&& fields[0] == parent_field(parent)
            &&& item.fields matches FieldsView::Named(written) ==> fields.len() == written.len()
                + 1 && forall|i: int| 0 <= i < written.len() ==> fields[i + 1] == written[i]
            &&& item.fields is Unit ==> fields.len() == 1
        },
        is_subclass(inherits_of(parent, item)->Ok_0.item),
        forall|vtable_type: Seq<char>, library: LibraryPath|
            (#[trigger] vtable_of(
                vtable_type,
                inherits_of(parent, item)->Ok_0.item,
                library,
            ))->Ok_0.item == inherits_of(parent, item)->Ok_0.item,
{
}

} // verus!
