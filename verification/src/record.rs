//! The structural description of a record type, and how it is obtained from a
//! type definition.

use vstd::prelude::*;

verus! {

/// What a generic parameter stands for.
#[derive(Clone, Copy, Debug, PartialEq, Eq, Structural)]
pub enum GenericKind {
    Type,
    Lifetime,
    Const,
}

/// One generic parameter of a type definition, with the bounds it must meet.
#[derive(Debug)]
pub struct GenericParam {
    pub name: String,
    pub kind: GenericKind,
    pub bounds: Vec<String>,
}

/// The mathematical value of a [`GenericParam`].
pub struct GenericParamView {
    pub name: Seq<char>,
    pub kind: GenericKind,
    pub bounds: Seq<Seq<char>>,
}

/// The texts of `items`, in order.
pub open spec fn text_views(items: Seq<String>) -> Seq<Seq<char>> {
    Seq::new(items.len(), |i: int| items[i]@)
}

impl View for GenericParam {
    type V = GenericParamView;

    open spec fn view(&self) -> GenericParamView {
        GenericParamView { name: self.name@, kind: self.kind, bounds: text_views(self.bounds@) }
    }
}

/// The values of `params`, in order.
pub open spec fn generic_views(params: Seq<GenericParam>) -> Seq<GenericParamView> {
    Seq::new(params.len(), |i: int| params[i]@)
}

/// A named field: its name and its declared type, as written.
#[derive(Debug)]
pub struct Field {
    pub name: String,
    pub ty: String,
}

/// The mathematical value of a [`Field`].
pub struct FieldView {
    pub name: Seq<char>,
    pub ty: Seq<char>,
}

impl View for Field {
    type V = FieldView;

    open spec fn view(&self) -> FieldView {
        FieldView { name: self.name@, ty: self.ty@ }
    }
}

/// The values of `fields`, in order.
pub open spec fn field_views(fields: Seq<Field>) -> Seq<FieldView> {
    Seq::new(fields.len(), |i: int| fields[i]@)
}

/// The body of a type definition.
#[derive(Debug)]
pub enum TypeBody {
    /// A struct with named fields, in declaration order.
    Named(Vec<Field>),
    /// A struct with positional fields: their declared types.
    Tuple(Vec<String>),
    /// A struct without fields and without braces.
    Unit,
    /// An enum.
    Enum,
    /// A union.
    Union,
}

/// The mathematical value of a [`TypeBody`].
pub enum TypeBodyView {
    Named(Seq<FieldView>),
    Tuple(Seq<Seq<char>>),
    Unit,
    Enum,
    Union,
}

impl View for TypeBody {
    type V = TypeBodyView;

    open spec fn view(&self) -> TypeBodyView {
        match self {
            TypeBody::Named(fields) => TypeBodyView::Named(field_views(fields@)),
            TypeBody::Tuple(types) => TypeBodyView::Tuple(text_views(types@)),
            TypeBody::Unit => TypeBodyView::Unit,
            TypeBody::Enum => TypeBodyView::Enum,
            TypeBody::Union => TypeBodyView::Union,
        }
    }
}

/// A type definition as it is handed to the expansion: an identifier, the
/// generic parameters and the body.
#[derive(Debug)]
pub struct TypeDefinition {
    pub name: String,
    pub generics: Vec<GenericParam>,
    pub body: TypeBody,
}

/// The mathematical value of a [`TypeDefinition`].
pub struct TypeDefinitionView {
    pub name: Seq<char>,
    pub generics: Seq<GenericParamView>,
    pub body: TypeBodyView,
}

impl View for TypeDefinition {
    type V = TypeDefinitionView;

    open spec fn view(&self) -> TypeDefinitionView {
        TypeDefinitionView {
            name: self.name@,
            generics: generic_views(self.generics@),
            body: self.body@,
        }
    }
}

/// Why a type definition is not a record with named fields.
#[derive(Clone, Copy, Debug, PartialEq, Eq, Structural)]
pub enum ShapeError {
    /// The definition is an enum.
    Enum,
    /// The definition is a union.
    Union,
    /// The struct has positional fields.
    TupleStruct,
    /// The struct is a unit struct.
    UnitStruct,
    /// The struct has braces and no field in them.
    NoFields,
    /// Two fields carry the same name.
    DuplicateField,
}

/// No two of `fields` carry the same name.
pub open spec fn names_unique(fields: Seq<FieldView>) -> bool {
    forall|i: int, j: int|
        0 <= i < j < fields.len() ==> (#[trigger] fields[i]).name != (#[trigger] fields[j]).name
}

/// The reason for which `def` is refused, if it is.
pub open spec fn shape_error(def: TypeDefinitionView) -> Option<ShapeError> {
    match def.body {
        TypeBodyView::Enum => Some(ShapeError::Enum),
        TypeBodyView::Union => Some(ShapeError::Union),
        TypeBodyView::Tuple(_) => Some(ShapeError::TupleStruct),
        TypeBodyView::Unit => Some(ShapeError::UnitStruct),
        TypeBodyView::Named(fields) => if fields.len() == 0 {
            Some(ShapeError::NoFields)
        } else if !names_unique(fields) {
            Some(ShapeError::DuplicateField)
        } else {
            None
        },
    }
}

/// The mathematical value of a [`RecordDescription`].
pub struct RecordView {
    pub name: Seq<char>,
    pub generics: Seq<GenericParamView>,
    pub fields: Seq<FieldView>,
}

impl RecordView {
    /// A record has at least one field, and no two fields share a name.
    pub open spec fn wf(self) -> bool {
        self.fields.len() > 0 && names_unique(self.fields)
    }
}

/// The record that an accepted definition describes.
pub open spec fn record_of(def: TypeDefinitionView) -> RecordView {
    RecordView {
        name: def.name,
        generics: def.generics,
        fields: match def.body {
            TypeBodyView::Named(fields) => fields,
            _ => Seq::empty(),
        },
    }
}

/// The introspected input of an expansion: the name of a record type, its
/// generic parameters and its named fields in declaration order. It is made
/// once, by [`introspect`], and only read afterwards.
#[derive(Debug)]
pub struct RecordDescription {
    pub(crate) name: String,
    pub(crate) generics: Vec<GenericParam>,
    pub(crate) fields: Vec<Field>,
}

impl View for RecordDescription {
    type V = RecordView;

    closed spec fn view(&self) -> RecordView {
        RecordView {
            name: self.name@,
            generics: generic_views(self.generics@),
            fields: field_views(self.fields@),
        }
    }
}

/// The names of `generics`, in order, with a comma and a space between two of
/// them.
pub open spec fn parameter_names(generics: Seq<GenericParamView>) -> Seq<char>
    decreases generics.len(),
{
    if generics.len() == 0 {
        Seq::empty()
    } else if generics.len() == 1 {
        generics[0].name
    } else {
        parameter_names(generics.drop_last()) + ", "@ + generics.last().name
    }
}

/// What stands behind the name of a type with the parameters `generics` where
/// the type is used: the names of the parameters in angle brackets, or nothing
/// where there are none.
pub open spec fn type_arguments(generics: Seq<GenericParamView>) -> Seq<char> {
    if generics.len() == 0 {
        Seq::empty()
    } else {
        "<"@ + parameter_names(generics) + ">"@
    }
}

impl RecordView {
    /// The record type as it is written where it is used: its name with its
    /// parameters.
    pub open spec fn type_text(self) -> Seq<char> {
        self.name + type_arguments(self.generics)
    }
}

impl RecordDescription {
    #[verifier::type_invariant]
    pub closed spec fn inv(self) -> bool {
        self@.wf()
    }

    /// The name of the record type.
    pub fn name(&self) -> (name: &str)
        ensures
            name@ == self@.name,
    {
        self.name.as_str()
    }

    /// What stands behind the name of an emitted type where it is used: the
    /// names of the record's parameters in angle brackets.
    pub fn arguments(&self) -> (text: String)
        ensures
            text@ == type_arguments(self@.generics),
    {
        let n = self.generics.len();
        if n == 0 {
            return String::new();
        }
        let mut text = String::from_str("<");
        let mut i: usize = 0;
        while i < n
            invariant
                i <= n,
                n == self.generics@.len(),
                text@ == "<"@ + parameter_names(generic_views(self.generics@).take(i as int)),
            decreases n - i,
        {
            if i > 0 {
                text.append(", ");
            }
            text.append(self.generics[i].name.as_str());
            proof {
                let upto = generic_views(self.generics@).take(i + 1);
                assert(upto.drop_last() =~= generic_views(self.generics@).take(i as int));
                assert(upto.last() == self.generics@[i as int]@);
                assert(text@ =~= "<"@ + parameter_names(upto));
            }
            i += 1;
        }
        assert(generic_views(self.generics@).take(n as int) =~= generic_views(self.generics@));
        text.append(">");
        text
    }

    /// The record type as it is written where it is used.
    pub fn type_text(&self) -> (text: String)
        ensures
            text@ == self@.type_text(),
    {
        let mut text = String::from_str(self.name.as_str());
        text.append(self.arguments().as_str());
        text
    }

    /// The number of fields.
    pub fn field_count(&self) -> (n: usize)
        ensures
            n == self@.fields.len(),
            self@.wf(),
    {
        proof {
            use_type_invariant(self);
        }
        self.fields.len()
    }

    /// The field at position `i` of the declaration.
    pub fn field(&self, i: usize) -> (field: &Field)
        requires
            i < self@.fields.len(),
        ensures
            field@ == self@.fields[i as int],
    {
        &self.fields[i]
    }

    /// The generic parameters, in declaration order.
    pub fn generics(&self) -> (generics: &Vec<GenericParam>)
        ensures
            generic_views(generics@) == self@.generics,
    {
        &self.generics
    }
}

/// Whether no two of `fields` carry the same name.
fn has_unique_names(fields: &Vec<Field>) -> (unique: bool)
    ensures
        unique == names_unique(field_views(fields@)),
{
    let n = fields.len();
    let mut j: usize = 0;
    while j < n
        invariant
            n == fields@.len(),
            j <= n,
            forall|a: int, b: int| 0 <= a < b < j ==> fields@[a].name@ != fields@[b].name@,
        decreases n - j,
    {
        let mut i: usize = 0;
        while i < j
            invariant
                n == fields@.len(),
                j < n,
                i <= j,
                forall|a: int| 0 <= a < i ==> fields@[a].name@ != fields@[j as int].name@,
            decreases j - i,
        {
            if fields[i].name == fields[j].name {
                proof {
                    let views = field_views(fields@);
                    assert(views[i as int].name == views[j as int].name);
                }
                return false;
            }
            i += 1;
        }
        j += 1;
    }
    proof {
        let views = field_views(fields@);
        assert forall|a: int, b: int| 0 <= a < b < views.len() implies (#[trigger] views[a]).name != (
        #[trigger] views[b]).name by {}
    }
    true
}

/// Reads a type definition as a record. Only a struct with at least one named
/// field, and no name used twice, is accepted; anything else is refused with
/// the reason.
pub fn introspect(def: TypeDefinition) -> (result: Result<RecordDescription, ShapeError>)
    ensures
        match result {
            Ok(record) => shape_error(def@) is None && record@ == record_of(def@),
            Err(error) => shape_error(def@) == Some(error),
        },
{
    let TypeDefinition { name, generics, body } = def;
    match body {
        TypeBody::Enum => Err(ShapeError::Enum),
        TypeBody::Union => Err(ShapeError::Union),
        TypeBody::Tuple(_) => Err(ShapeError::TupleStruct),
        TypeBody::Unit => Err(ShapeError::UnitStruct),
        TypeBody::Named(fields) => {
            if fields.len() == 0 {
                Err(ShapeError::NoFields)
            } else if !has_unique_names(&fields) {
                Err(ShapeError::DuplicateField)
            } else {
                Ok(RecordDescription { name, generics, fields })
            }
        },
    }
}

/// The bounds that every type parameter of a record receives: the record is
/// printed for debugging and handed to the serialization codecs.
pub open spec fn added_bounds() -> Seq<Seq<char>> {
    seq!["::std::fmt::Debug"@, "::serde::Serialize"@, "for<'de> ::serde::Deserialize<'de>"@]
}

/// `param` with the added bounds behind its own, if it is a type parameter.
pub open spec fn with_traits(param: GenericParamView) -> GenericParamView {
    if param.kind == GenericKind::Type {
        GenericParamView { bounds: param.bounds + added_bounds(), ..param }
    } else {
        param
    }
}

/// `def` with the added bounds on each of its type parameters.
pub open spec fn with_added_traits(def: TypeDefinitionView) -> TypeDefinitionView {
    TypeDefinitionView {
        generics: def.generics.map_values(|param: GenericParamView| with_traits(param)),
        ..def
    }
}

/// Adds to every type parameter of `def` the bounds of [`added_bounds`], after
/// the bounds it has. Lifetime and const parameters, the name and the body are
/// left as they are.
pub fn add_traits_to_generics(def: &mut TypeDefinition)
    ensures
        final(def)@ == with_added_traits(old(def)@),
{
    let n = def.generics.len();
    let mut i: usize = 0;
    while i < n
        invariant
            i <= n,
            n == def.generics@.len(),
            n == old(def).generics@.len(),
            def.name == old(def).name,
            def.body == old(def).body,
            forall|k: int| 0 <= k < i ==> #[trigger] def.generics@[k]@ == with_traits(old(def).generics@[k]@),
            forall|k: int| i <= k < n ==> #[trigger] def.generics@[k] == old(def).generics@[k],
        decreases n - i,
    {
        if def.generics[i].kind == GenericKind::Type {
            let ghost before = def.generics@[i as int]@;
            let param = &mut def.generics[i];
            param.bounds.push(String::from_str("::std::fmt::Debug"));
            param.bounds.push(String::from_str("::serde::Serialize"));
            param.bounds.push(String::from_str("for<'de> ::serde::Deserialize<'de>"));
            assert(def.generics@[i as int]@.bounds =~= before.bounds + added_bounds());
        }
        i += 1;
    }
    assert(def@.generics =~= with_added_traits(old(def)@).generics);
}

} // verus!
