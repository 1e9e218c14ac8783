//! The wrapper of each container kind around the record.

use vstd::prelude::*;
use crate::capability::CapabilitySet;
use crate::capability::ContainerKind;
use crate::catalog::MethodRole;
use crate::catalog::MethodSpec;
use crate::catalog::MethodView;
use crate::catalog::ParameterView;
use crate::catalog::one;
use crate::catalog::one_parameter;
use crate::catalog::Origin;
use crate::catalog::Receiver;
use crate::catalog::WrapperSpec;
use crate::catalog::WrapperView;
use crate::catalog::method_views;
use crate::conversions::Source;
use crate::conversions::SourceView;
use crate::conversions::joined;
use crate::conversions::wrapper_name;
use crate::record::RecordDescription;

verus! {

/// The method `get` of the wrapper of `kind` around a record of type `record`,
/// which holds a value of type `held`.
///
/// The wrapper of a container hands the container out and is used up. The
/// wrapper of a serialized form lends what it holds, so that the value can be
/// handed back to it for decoding: the bytes as a slice, a value by reference.
/// The wrapper of the one-time cell lends the record in the cell. The map of
/// fields cannot be read without knowing a field's type, so there `get` looks
/// one field up, by reference, and returns nothing if the requested type is
/// not that of the stored value.
pub open spec fn accessor(kind: ContainerKind, held: Seq<char>, record: Seq<char>) -> MethodView {
    match kind {
        ContainerKind::HashMap => MethodView {
            name: "get"@,
            role: MethodRole::Lookup,
            receiver: Receiver::Borrows,
            returns: "Option<&T>"@,
            fallible: false,
            generics: "T: 'static"@,
            parameters: one("key"@, "&str"@),
        },
        ContainerKind::Bin => MethodView {
            name: "get"@,
            role: MethodRole::Accessor,
            receiver: Receiver::Borrows,
            returns: "&[u8]"@,
            fallible: false,
            generics: Seq::empty(),
            parameters: Seq::empty(),
        },
        ContainerKind::Toml | ContainerKind::Json => MethodView {
            name: "get"@,
            role: MethodRole::Accessor,
            receiver: Receiver::Borrows,
            returns: "&"@ + held,
            fallible: false,
            generics: Seq::empty(),
            parameters: Seq::empty(),
        },
        ContainerKind::OnceCell => MethodView {
            name: "get"@,
            role: MethodRole::Accessor,
            receiver: Receiver::Borrows,
            returns: "Option<&"@ + record + ">"@,
            fallible: false,
            generics: Seq::empty(),
            parameters: Seq::empty(),
        },
        _ => MethodView {
            name: "get"@,
            role: MethodRole::Accessor,
            receiver: Receiver::Consumes,
            returns: held,
            fallible: false,
            generics: Seq::empty(),
            parameters: Seq::empty(),
        },
    }
}

/// The name of the method that decodes a record from a value that the caller
/// supplies in the serialized form `kind`.
pub open spec fn decoder_name(kind: ContainerKind) -> Seq<char> {
    if kind == ContainerKind::Bin {
        "from_bytes"@
    } else {
        "from_value"@
    }
}

/// What the caller supplies to the method that decodes a record from a value
/// in the serialized form `kind`: bytes as a slice, a value by reference.
pub open spec fn supplied(kind: ContainerKind, record: Seq<char>) -> Seq<ParameterView> {
    if kind == ContainerKind::Bin {
        one("bytes"@, "&[u8]"@)
    } else {
        one("value"@, "&"@ + kind.applied_to(record))
    }
}

/// The two operations that reconstruct a record of type `record` from the
/// serialized form `kind`: one uses the wrapper up and decodes what it holds,
/// the other decodes a value that the caller supplies and leaves the wrapper
/// as it is. Both can fail. A kind that is no serialized form has neither.
pub open spec fn reconstructs(kind: ContainerKind, record: Seq<char>) -> Seq<MethodView> {
    if kind.is_serialized() {
        seq![
            MethodView {
                name: "from"@,
                role: MethodRole::Reconstruct,
                receiver: Receiver::Consumes,
                returns: record,
                fallible: true,
                generics: Seq::empty(),
                parameters: Seq::empty(),
            },
            MethodView {
                name: decoder_name(kind),
                role: MethodRole::ReconstructFrom,
                receiver: Receiver::Borrows,
                returns: record,
                fallible: true,
                generics: Seq::empty(),
                parameters: supplied(kind, record),
            },
        ]
    } else {
        Seq::empty()
    }
}

/// The round trip of the binary form through hexadecimal text: encoding always
/// succeeds, decoding can fail. Other kinds have neither operation.
pub open spec fn hex_methods(kind: ContainerKind, record: Seq<char>) -> Seq<MethodView> {
    if kind == ContainerKind::Bin {
        seq![
            MethodView {
                name: "hex"@,
                role: MethodRole::HexEncode,
                receiver: Receiver::Borrows,
                returns: "String"@,
                fallible: false,
                generics: Seq::empty(),
                parameters: Seq::empty(),
            },
            MethodView {
                name: "from_hex"@,
                role: MethodRole::HexDecode,
                receiver: Receiver::Borrows,
                returns: record,
                fallible: true,
                generics: Seq::empty(),
                parameters: one("hex_str"@, "&str"@),
            },
        ]
    } else {
        Seq::empty()
    }
}

/// The wrapper of `kind` around a record of type `record` under `caps`. It
/// holds the container applied to the record type. Its methods are `get`, a
/// conversion into every other active kind, and, for a serialized form, the
/// operations that reconstruct the record.
pub open spec fn wrapper_spec(kind: ContainerKind, record: Seq<char>, caps: CapabilitySet)
    -> WrapperView {
    let held = kind.applied_to(record);
    WrapperView {
        wrapper_name: wrapper_name(kind),
        held_type: held,
        public: false,
        origin: Origin::Container(kind),
        field: None,
        methods: seq![accessor(kind, held, record)] + SourceView::Wrapper(kind, held).conversions(
            caps,
        )
            + reconstructs(kind, record) + hex_methods(kind, record),
    }
}

/// The method `get` of the wrapper of `kind`.
fn accessor_method(kind: ContainerKind, held: &str, record: &str) -> (method: MethodSpec)
    ensures
        method@ == accessor(kind, held@, record@),
{
    match kind {
        ContainerKind::HashMap => MethodSpec {
            name: String::from_str("get"),
            role: MethodRole::Lookup,
            receiver: Receiver::Borrows,
            returns: String::from_str("Option<&T>"),
            fallible: false,
            generics: String::from_str("T: 'static"),
            parameters: one_parameter("key", String::from_str("&str")),
        },
        ContainerKind::Bin => MethodSpec {
            name: String::from_str("get"),
            role: MethodRole::Accessor,
            receiver: Receiver::Borrows,
            returns: String::from_str("&[u8]"),
            fallible: false,
            generics: String::new(),
            parameters: Vec::new(),
        },
        ContainerKind::Toml | ContainerKind::Json => MethodSpec {
            name: String::from_str("get"),
            role: MethodRole::Accessor,
            receiver: Receiver::Borrows,
            returns: joined("&", held),
            fallible: false,
            generics: String::new(),
            parameters: Vec::new(),
        },
        ContainerKind::OnceCell => {
            let mut lent = joined("Option<&", record);
            lent.append(">");
            MethodSpec {
                name: String::from_str("get"),
                role: MethodRole::Accessor,
                receiver: Receiver::Borrows,
                returns: lent,
                fallible: false,
                generics: String::new(),
                parameters: Vec::new(),
            }
        },
        _ => MethodSpec {
            name: String::from_str("get"),
            role: MethodRole::Accessor,
            receiver: Receiver::Consumes,
            returns: String::from_str(held),
            fallible: false,
            generics: String::new(),
            parameters: Vec::new(),
        },
    }
}

/// Adds to `methods` the operations that reconstruct the record.
fn push_reconstructs(methods: &mut Vec<MethodSpec>, kind: ContainerKind, record: &str)
    ensures
        method_views(final(methods)@) == method_views(old(methods)@) + reconstructs(kind, record@)
            + hex_methods(kind, record@),
{
    let ghost before = method_views(methods@);
    if kind.serialized() {
        let decoder = match kind {
            ContainerKind::Bin => "from_bytes",
            _ => "from_value",
        };
        let given = match kind {
            ContainerKind::Bin => one_parameter("bytes", String::from_str("&[u8]")),
            _ => one_parameter("value", joined("&", kind.apply(record).as_str())),
        };
        methods.push(
            MethodSpec {
                name: String::from_str("from"),
                role: MethodRole::Reconstruct,
                receiver: Receiver::Consumes,
                returns: String::from_str(record),
                fallible: true,
                generics: String::new(),
                parameters: Vec::new(),
            },
        );
        methods.push(
            MethodSpec {
                name: String::from_str(decoder),
                role: MethodRole::ReconstructFrom,
                receiver: Receiver::Borrows,
                returns: String::from_str(record),
                fallible: true,
                generics: String::new(),
                parameters: given,
            },
        );
    }
    assert(method_views(methods@) =~= before + reconstructs(kind, record@));
    let ghost decoded = method_views(methods@);
    match kind {
        ContainerKind::Bin => {
            methods.push(
                MethodSpec {
                    name: String::from_str("hex"),
                    role: MethodRole::HexEncode,
                    receiver: Receiver::Borrows,
                    returns: String::from_str("String"),
                    fallible: false,
                    generics: String::new(),
                    parameters: Vec::new(),
                },
            );
            methods.push(
                MethodSpec {
                    name: String::from_str("from_hex"),
                    role: MethodRole::HexDecode,
                    receiver: Receiver::Borrows,
                    returns: String::from_str(record),
                    fallible: true,
                    generics: String::new(),
                    parameters: one_parameter("hex_str", String::from_str("&str")),
                },
            );
        },
        _ => {},
    }
    assert(method_views(methods@) =~= decoded + hex_methods(kind, record@));
}

/// Describes the wrapper of `kind` around a record of type `record`.
pub fn generate_wrapper(kind: ContainerKind, record: &str, caps: &CapabilitySet) -> (wrapper:
    WrapperSpec)
    ensures
        wrapper@ == wrapper_spec(kind, record@, *caps),
{
    let held = kind.apply(record);
    let mut methods: Vec<MethodSpec> = Vec::new();
    methods.push(accessor_method(kind, held.as_str(), record));
    let mut conversions = Source::Wrapper(kind, held.as_str()).conversion_methods(caps);
    let ghost offered = method_views(conversions@);
    methods.append(&mut conversions);
    assert(method_views(methods@) =~= seq![accessor(kind, held@, record@)] + offered);
    push_reconstructs(&mut methods, kind, record);
    WrapperSpec {
        wrapper_name: joined("Parse", kind.suffix_name()),
        held_type: held,
        public: false,
        origin: Origin::Container(kind),
        field: None,
        methods,
    }
}

/// Describes `ParseArc`: the wrapper around the shared-ownership pointer to
/// the record.
pub fn generate_parse_arc(record: &RecordDescription, caps: &CapabilitySet) -> (wrapper:
    WrapperSpec)
    ensures
        wrapper@ == wrapper_spec(ContainerKind::Arc, record@.type_text(), *caps),
{
    generate_wrapper(ContainerKind::Arc, record.type_text().as_str(), caps)
}

/// Describes `ParseBox`: the wrapper around the boxed record.
pub fn generate_parse_box(record: &RecordDescription, caps: &CapabilitySet) -> (wrapper:
    WrapperSpec)
    ensures
        wrapper@ == wrapper_spec(ContainerKind::Boxed, record@.type_text(), *caps),
{
    generate_wrapper(ContainerKind::Boxed, record.type_text().as_str(), caps)
}

/// Describes `ParseMutex`: the wrapper around the record behind a blocking
/// mutex.
pub fn generate_parse_mutex(record: &RecordDescription, caps: &CapabilitySet) -> (wrapper:
    WrapperSpec)
    ensures
        wrapper@ == wrapper_spec(ContainerKind::Mutex, record@.type_text(), *caps),
{
    generate_wrapper(ContainerKind::Mutex, record.type_text().as_str(), caps)
}

/// Describes `ParseTokioMutex`: the wrapper around the record behind a
/// cooperatively scheduled mutex.
pub fn generate_parse_tokio_mutex(record: &RecordDescription, caps: &CapabilitySet) -> (wrapper:
    WrapperSpec)
    ensures
        wrapper@ == wrapper_spec(ContainerKind::TokioMutex, record@.type_text(), *caps),
{
    generate_wrapper(ContainerKind::TokioMutex, record.type_text().as_str(), caps)
}

/// Describes `ParseRefCell`: the wrapper around the record in a cell with
/// run-time borrow checks.
pub fn generate_parse_ref_cell(record: &RecordDescription, caps: &CapabilitySet) -> (wrapper:
    WrapperSpec)
    ensures
        wrapper@ == wrapper_spec(ContainerKind::RefCell, record@.type_text(), *caps),
{
    generate_wrapper(ContainerKind::RefCell, record.type_text().as_str(), caps)
}

/// Describes `ParseUnsafeCell`: the wrapper around the record in a cell that
/// checks nothing. Whoever mutates through it must hold exclusive access by
/// other means; nothing that is emitted enforces it.
pub fn generate_parse_unsafe_cell(record: &RecordDescription, caps: &CapabilitySet) -> (wrapper:
    WrapperSpec)
    ensures
        wrapper@ == wrapper_spec(ContainerKind::UnsafeCell, record@.type_text(), *caps),
{
    generate_wrapper(ContainerKind::UnsafeCell, record.type_text().as_str(), caps)
}

/// Describes `ParseOnceCell`: the wrapper around a cell that was initialised
/// with the record.
pub fn generate_parse_once_cell(record: &RecordDescription, caps: &CapabilitySet) -> (wrapper:
    WrapperSpec)
    ensures
        wrapper@ == wrapper_spec(ContainerKind::OnceCell, record@.type_text(), *caps),
{
    generate_wrapper(ContainerKind::OnceCell, record.type_text().as_str(), caps)
}

/// Describes `ParseVec`: the wrapper around a list that holds the record.
pub fn generate_parse_vec(record: &RecordDescription, caps: &CapabilitySet) -> (wrapper:
    WrapperSpec)
    ensures
        wrapper@ == wrapper_spec(ContainerKind::Vec, record@.type_text(), *caps),
{
    generate_wrapper(ContainerKind::Vec, record.type_text().as_str(), caps)
}

/// Describes `ParseHashMap`: the wrapper around the map from field names to
/// field values. Neither its name nor the type it holds depends on the record.
pub fn generate_parse_hash_map(caps: &CapabilitySet) -> (wrapper: WrapperSpec)
    ensures
        forall|record: Seq<char>| wrapper@ == wrapper_spec(ContainerKind::HashMap, record, *caps),
{
    let wrapper = generate_wrapper(ContainerKind::HashMap, "", caps);
    assert forall|record: Seq<char>| wrapper@ == wrapper_spec(
        ContainerKind::HashMap,
        record,
        *caps,
    ) by {
        assert(reconstructs(ContainerKind::HashMap, record) =~= reconstructs(
            ContainerKind::HashMap,
            ""@,
        ));
    }
    wrapper
}

/// Describes `ParseBin`: the wrapper around the record's binary form, with
/// the round trip through hexadecimal text.
pub fn generate_parse_bin(record: &RecordDescription, caps: &CapabilitySet) -> (wrapper:
    WrapperSpec)
    ensures
        wrapper@ == wrapper_spec(ContainerKind::Bin, record@.type_text(), *caps),
{
    generate_wrapper(ContainerKind::Bin, record.type_text().as_str(), caps)
}

/// Describes `ParseToml`: the wrapper around the record's structured-text
/// value.
pub fn generate_parse_toml(record: &RecordDescription, caps: &CapabilitySet) -> (wrapper:
    WrapperSpec)
    ensures
        wrapper@ == wrapper_spec(ContainerKind::Toml, record@.type_text(), *caps),
{
    generate_wrapper(ContainerKind::Toml, record.type_text().as_str(), caps)
}

/// Describes `ParseJson`: the wrapper around the record's JSON value.
pub fn generate_parse_json(record: &RecordDescription, caps: &CapabilitySet) -> (wrapper:
    WrapperSpec)
    ensures
        wrapper@ == wrapper_spec(ContainerKind::Json, record@.type_text(), *caps),
{
    generate_wrapper(ContainerKind::Json, record.type_text().as_str(), caps)
}

} // verus!
