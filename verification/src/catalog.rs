//! What an expansion emits: wrapper types and their methods, as data.

use vstd::prelude::*;
use crate::capability::ContainerKind;
use crate::record::GenericParam;
use crate::record::GenericParamView;
use crate::record::generic_views;

verus! {

/// How a method takes the value it is called on.
#[derive(Clone, Copy, Debug, PartialEq, Eq, Structural)]
pub enum Receiver {
    /// By value: the call uses the value up.
    Consumes,
    /// By shared reference.
    Borrows,
}

/// What a method does.
#[derive(Clone, Copy, Debug, PartialEq, Eq, Structural)]
pub enum MethodRole {
    /// Turns the record into the top-level wrapper.
    Entry,
    /// Turns the top-level wrapper into the field selector.
    Fields,
    /// Reads every field as a tuple of references.
    Tuple,
    /// Hands out the held container.
    Accessor,
    /// Looks a field up by name and type in the map of fields.
    Lookup,
    /// Puts the held value into a container of the given kind.
    Convert(ContainerKind),
    /// Decodes the record from the held serialized form.
    Reconstruct,
    /// Decodes the record from a serialized form that the caller supplies.
    ReconstructFrom,
    /// Writes the held bytes as hexadecimal text.
    HexEncode,
    /// Decodes the record from hexadecimal text.
    HexDecode,
    /// Moves the field at the given position out of the record.
    Select(usize),
    /// Hashes a text field as a credential.
    Hash,
    /// Checks a candidate against a stored credential hash.
    Verify,
}

/// Where a definition comes from.
#[derive(Clone, Copy, Debug, PartialEq, Eq, Structural)]
pub enum Origin {
    /// The top-level wrapper of the record.
    TopLevel,
    /// The wrapper of one container kind around the record.
    Container(ContainerKind),
    /// The field selector.
    Selector,
    /// The holder of the value of the field at the given position.
    FieldInner(usize),
    /// What the selector returns for the field at the given position.
    FieldOuter(usize),
    /// The wrapper of one container kind around the field at the given position.
    FieldContainer(usize, ContainerKind),
    /// The stored credential hash of the field at the given position.
    FieldHash(usize),
}

/// One parameter of a method, besides the value it is called on.
#[derive(Debug)]
pub struct Parameter {
    pub name: String,
    pub ty: String,
}

/// The mathematical value of a [`Parameter`].
pub struct ParameterView {
    pub name: Seq<char>,
    pub ty: Seq<char>,
}

impl View for Parameter {
    type V = ParameterView;

    open spec fn view(&self) -> ParameterView {
        ParameterView { name: self.name@, ty: self.ty@ }
    }
}

/// The values of `parameters`, in order.
pub open spec fn parameter_views(parameters: Seq<Parameter>) -> Seq<ParameterView> {
    if parameters.len() == 0 {
        Seq::empty()
    } else {
        Seq::new(parameters.len(), |i: int| parameters[i]@)
    }
}

/// The one parameter `name` of type `ty`.
pub open spec fn one(name: Seq<char>, ty: Seq<char>) -> Seq<ParameterView> {
    seq![ParameterView { name, ty }]
}

/// The one parameter `name` of type `ty`.
pub fn one_parameter(name: &str, ty: String) -> (parameters: Vec<Parameter>)
    ensures
        parameter_views(parameters@) == one(name@, ty@),
{
    let mut parameters: Vec<Parameter> = Vec::new();
    parameters.push(Parameter { name: String::from_str(name), ty });
    assert(parameter_views(parameters@) =~= one(name@, ty@));
    parameters
}

/// The type of the error that every method returns which may fail.
pub open spec fn error_type() -> Seq<char> {
    "Box<dyn std::error::Error + Send + Sync>"@
}

/// The type of the error that every method returns which may fail.
pub fn error_type_name() -> (ty: &'static str)
    ensures
        ty@ == error_type(),
{
    "Box<dyn std::error::Error + Send + Sync>"
}

/// One emitted method.
#[derive(Debug)]
pub struct MethodSpec {
    pub name: String,
    pub role: MethodRole,
    pub receiver: Receiver,
    /// The type of the value returned on success.
    pub returns: String,
    /// Whether the method returns a result that may be an error, of the type
    /// of [`error_type`].
    pub fallible: bool,
    /// The type parameters of the method with their bounds, as written;
    /// empty where it has none.
    pub generics: String,
    /// What the method takes besides the value it is called on.
    pub parameters: Vec<Parameter>,
}

/// The mathematical value of a [`MethodSpec`].
pub struct MethodView {
    pub name: Seq<char>,
    pub role: MethodRole,
    pub receiver: Receiver,
    pub returns: Seq<char>,
    pub fallible: bool,
    pub generics: Seq<char>,
    pub parameters: Seq<ParameterView>,
}

impl View for MethodSpec {
    type V = MethodView;

    open spec fn view(&self) -> MethodView {
        MethodView {
            name: self.name@,
            role: self.role,
            receiver: self.receiver,
            returns: self.returns@,
            fallible: self.fallible,
            generics: self.generics@,
            parameters: parameter_views(self.parameters@),
        }
    }
}

/// The values of `methods`, in order.
pub open spec fn method_views(methods: Seq<MethodSpec>) -> Seq<MethodView> {
    Seq::new(methods.len(), |i: int| methods[i]@)
}

/// One emitted type: it owns exactly one value of `held_type`, and carries
/// `methods`.
#[derive(Debug)]
pub struct WrapperSpec {
    pub wrapper_name: String,
    pub held_type: String,
    /// Whether the held value can be reached from outside the type.
    pub public: bool,
    pub origin: Origin,
    /// The name of the field that the type belongs to, if it belongs to one.
    pub field: Option<String>,
    pub methods: Vec<MethodSpec>,
}

/// The mathematical value of a [`WrapperSpec`].
pub struct WrapperView {
    pub wrapper_name: Seq<char>,
    pub held_type: Seq<char>,
    pub public: bool,
    pub origin: Origin,
    pub field: Option<Seq<char>>,
    pub methods: Seq<MethodView>,
}

/// The text of `item`, if there is one.
pub open spec fn option_text(item: Option<String>) -> Option<Seq<char>> {
    match item {
        Some(text) => Some(text@),
        None => None,
    }
}

impl View for WrapperSpec {
    type V = WrapperView;

    open spec fn view(&self) -> WrapperView {
        WrapperView {
            wrapper_name: self.wrapper_name@,
            held_type: self.held_type@,
            public: self.public,
            origin: self.origin,
            field: option_text(self.field),
            methods: method_views(self.methods@),
        }
    }
}

/// The values of `wrappers`, in order.
pub open spec fn wrapper_views(wrappers: Seq<WrapperSpec>) -> Seq<WrapperView> {
    Seq::new(wrappers.len(), |i: int| wrappers[i]@)
}

/// The value of `wrapper`, if there is one.
pub open spec fn option_wrapper(wrapper: Option<WrapperSpec>) -> Option<WrapperView> {
    match wrapper {
        Some(spec) => Some(spec@),
        None => None,
    }
}

/// What is emitted for one field.
#[derive(Debug)]
pub struct FieldWrappers {
    /// The holder of the field's value.
    pub inner: WrapperSpec,
    /// What the selector returns: it owns one holder.
    pub outer: WrapperSpec,
    /// One wrapper for each active container kind.
    pub containers: Vec<WrapperSpec>,
    /// The stored credential hash, for a text field under credential hashing.
    pub hash: Option<WrapperSpec>,
}

/// The mathematical value of a [`FieldWrappers`].
pub struct FieldWrappersView {
    pub inner: WrapperView,
    pub outer: WrapperView,
    pub containers: Seq<WrapperView>,
    pub hash: Option<WrapperView>,
}

impl View for FieldWrappers {
    type V = FieldWrappersView;

    open spec fn view(&self) -> FieldWrappersView {
        FieldWrappersView {
            inner: self.inner@,
            outer: self.outer@,
            containers: wrapper_views(self.containers@),
            hash: option_wrapper(self.hash),
        }
    }
}

impl FieldWrappersView {
    /// The definitions of the field, one after the other.
    pub open spec fn definitions(self) -> Seq<WrapperView> {
        seq![self.inner, self.outer] + self.containers + match self.hash {
            Some(hash) => seq![hash],
            None => Seq::empty(),
        }
    }
}

/// The values of `fields`, in order.
pub open spec fn field_wrappers_views(fields: Seq<FieldWrappers>) -> Seq<FieldWrappersView> {
    Seq::new(fields.len(), |i: int| fields[i]@)
}

/// The field selector and what is emitted for each field.
#[derive(Debug)]
pub struct FieldCatalog {
    pub selector: WrapperSpec,
    pub fields: Vec<FieldWrappers>,
}

/// The mathematical value of a [`FieldCatalog`].
pub struct FieldCatalogView {
    pub selector: WrapperView,
    pub fields: Seq<FieldWrappersView>,
}

impl View for FieldCatalog {
    type V = FieldCatalogView;

    open spec fn view(&self) -> FieldCatalogView {
        FieldCatalogView {
            selector: self.selector@,
            fields: field_wrappers_views(self.fields@),
        }
    }
}

/// The method that is attached to the record type itself.
#[derive(Debug)]
pub struct EntrySpec {
    /// The name of the record type.
    pub record: String,
    /// The generic parameters of the block that holds the method.
    pub generics: Vec<GenericParam>,
    pub method: MethodSpec,
}

/// The mathematical value of an [`EntrySpec`].
pub struct EntryView {
    pub record: Seq<char>,
    pub generics: Seq<GenericParamView>,
    pub method: MethodView,
}

impl View for EntrySpec {
    type V = EntryView;

    open spec fn view(&self) -> EntryView {
        EntryView {
            record: self.record@,
            generics: generic_views(self.generics@),
            method: self.method@,
        }
    }
}

/// What is emitted around the top-level wrapper: the wrapper, the field
/// catalog and the entry point.
#[derive(Debug)]
pub struct ParseSpec {
    pub top: WrapperSpec,
    pub by_field: FieldCatalog,
    pub entry: EntrySpec,
}

/// The mathematical value of a [`ParseSpec`].
pub struct ParseView {
    pub top: WrapperView,
    pub by_field: FieldCatalogView,
    pub entry: EntryView,
}

impl View for ParseSpec {
    type V = ParseView;

    open spec fn view(&self) -> ParseView {
        ParseView { top: self.top@, by_field: self.by_field@, entry: self.entry@ }
    }
}

/// Everything that one expansion emits.
#[derive(Debug)]
pub struct Expansion {
    pub parse: ParseSpec,
    /// The wrapper of each active container kind.
    pub wrappers: Vec<WrapperSpec>,
}

/// The mathematical value of an [`Expansion`].
pub struct ExpansionView {
    pub parse: ParseView,
    pub wrappers: Seq<WrapperView>,
}

impl View for Expansion {
    type V = ExpansionView;

    open spec fn view(&self) -> ExpansionView {
        ExpansionView { parse: self.parse@, wrappers: wrapper_views(self.wrappers@) }
    }
}

/// The definitions of the fields in `fields`, one field after the other.
pub open spec fn field_definitions(fields: Seq<FieldWrappersView>) -> Seq<WrapperView>
    decreases fields.len(),
{
    if fields.len() == 0 {
        Seq::empty()
    } else {
        field_definitions(fields.drop_last()) + fields.last().definitions()
    }
}

impl ExpansionView {
    /// The emitted types as one flat sequence: the top-level wrapper, the
    /// wrappers of the active kinds, the field selector, then what belongs to
    /// each field.
    pub open spec fn definitions(self) -> Seq<WrapperView> {
        seq![self.parse.top] + self.wrappers + seq![self.parse.by_field.selector]
            + field_definitions(self.parse.by_field.fields)
    }
}

} // verus!
