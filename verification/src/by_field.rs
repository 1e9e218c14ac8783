//! The field selector, and the wrappers that belong to each field.

use vstd::prelude::*;
use crate::capability::CapabilitySet;
use crate::capability::ContainerKind;
use crate::catalog::FieldCatalog;
use crate::catalog::FieldCatalogView;
use crate::catalog::FieldWrappers;
use crate::catalog::FieldWrappersView;
use crate::catalog::MethodRole;
use crate::catalog::MethodSpec;
use crate::catalog::MethodView;
use crate::catalog::one;
use crate::catalog::one_parameter;
use crate::catalog::Origin;
use crate::catalog::Receiver;
use crate::catalog::WrapperSpec;
use crate::catalog::WrapperView;
use crate::catalog::field_wrappers_views;
use crate::catalog::method_views;
use crate::catalog::wrapper_views;
use crate::conversions::Source;
use crate::conversions::SourceView;
use crate::conversions::joined;
use crate::record::Field;
use crate::record::FieldView;
use crate::record::RecordDescription;
use crate::record::RecordView;
use crate::record::type_arguments;

verus! {

/// Whether the type written as `ty` is the text string type: a path of the
/// single segment `String`.
pub uninterp spec fn names_string_type(ty: Seq<char>) -> bool;

/// The upper-case form of `c`. It can be longer than one character.
pub uninterp spec fn uppercase_of(c: char) -> Seq<char>;

/// Calls `syn::parse_str` to read `ty` as a type and `mokuya`'s `is_string` on
/// what was read. Trusted: the answer depends on the text alone, and text that
/// is no type is no string type.
#[verifier::external_body]
fn is_string_type(ty: &str) -> (text: bool)
    ensures
        text == names_string_type(ty@),
{
    match syn::parse_str::<syn::Type>(ty) {
        Ok(parsed) => mokuya::components::prelude::is_string(&parsed),
        Err(_) => false,
    }
}

/// Calls `char::to_uppercase` and collects the characters it yields. Trusted:
/// they depend on `c` alone.
#[verifier::external_body]
fn uppercase(c: char) -> (upper: String)
    ensures
        upper@ == uppercase_of(c),
{
    c.to_uppercase().collect()
}

/// `name` with its first character in upper case.
pub open spec fn capitalized(name: Seq<char>) -> Seq<char> {
    if name.len() == 0 {
        name
    } else {
        uppercase_of(name[0]) + name.skip(1)
    }
}

/// Puts the first character of `name` in upper case and leaves the rest.
pub fn capitalize(name: &str) -> (text: String)
    ensures
        text@ == capitalized(name@),
{
    let n = name.unicode_len();
    if n == 0 {
        String::from_str(name)
    } else {
        let mut text = uppercase(name.get_char(0));
        text.append(name.substring_char(1, n));
        assert(name@.subrange(1, n as int) =~= name@.skip(1));
        text
    }
}

/// The name of the type that holds the value of a field: `capital` is the
/// field's name with its first character in upper case.
pub open spec fn inner_name(record: Seq<char>, capital: Seq<char>) -> Seq<char> {
    "Parse"@ + record + capital
}

/// The name of the type that the selector returns for a field.
pub open spec fn outer_name(capital: Seq<char>) -> Seq<char> {
    "Field"@ + capital
}

/// The name of the type that holds a field's stored credential hash.
pub open spec fn hash_name(capital: Seq<char>) -> Seq<char> {
    outer_name(capital) + "Argon2"@
}

/// Whether the hashing operations exist for a field: credential hashing is
/// active and the field is declared as a text string.
pub open spec fn hashes(text: bool, caps: CapabilitySet) -> bool {
    text && caps.argon2
}

/// The operation that hashes a field's text with a fresh salt. It uses the
/// field's wrapper up and can fail.
pub open spec fn hash_method(capital: Seq<char>, arguments: Seq<char>) -> MethodView {
    MethodView {
        name: "argon2_hash"@,
        role: MethodRole::Hash,
        receiver: Receiver::Consumes,
        returns: hash_name(capital) + arguments,
        fallible: true,
        generics: Seq::empty(),
        parameters: Seq::empty(),
    }
}

/// The operation that checks a candidate text against a stored hash. It
/// fails if the stored text is no hash; a mismatch is `false`, no failure.
pub open spec fn verify_method() -> MethodView {
    MethodView {
        name: "verify"@,
        role: MethodRole::Verify,
        receiver: Receiver::Borrows,
        returns: "bool"@,
        fallible: true,
        generics: Seq::empty(),
        parameters: one("candidate"@, "&str"@),
    }
}

/// The wrapper of `kind` around the value of `field`, the field at position
/// `index`.
pub open spec fn field_container(
    index: usize,
    field: FieldView,
    capital: Seq<char>,
    kind: ContainerKind,
) -> WrapperView {
    WrapperView {
        wrapper_name: outer_name(capital) + kind.suffix(),
        held_type: kind.applied_to(field.ty),
        public: true,
        origin: Origin::FieldContainer(index, kind),
        field: Some(field.name),
        methods: Seq::empty(),
    }
}

/// Everything that belongs to `field`, the field at position `index` of a
/// record named `record`. `arguments` stand behind the name of every emitted
/// type where it is used, `capital` is the field's name with its first
/// character in upper case, and `text` says whether the field is declared as
/// a text string.
///
/// The inner type holds the field's value, the outer type holds one inner
/// type. The outer type converts into every active kind; the wrapper of each
/// kind it converts into exists, and that of no other. A text field under credential
/// hashing has the hash operation and the type of the stored hash, which
/// verifies candidates; any other field has neither.
pub open spec fn field_wrappers(
    record: Seq<char>,
    arguments: Seq<char>,
    index: usize,
    field: FieldView,
    capital: Seq<char>,
    text: bool,
    caps: CapabilitySet,
) -> FieldWrappersView {
    let outer = outer_name(capital);
    FieldWrappersView {
        inner: WrapperView {
            wrapper_name: inner_name(record, capital),
            held_type: field.ty,
            public: true,
            origin: Origin::FieldInner(index),
            field: Some(field.name),
            methods: Seq::empty(),
        },
        outer: WrapperView {
            wrapper_name: outer,
            held_type: inner_name(record, capital) + arguments,
            public: true,
            origin: Origin::FieldOuter(index),
            field: Some(field.name),
            methods: SourceView::Field(outer, arguments).conversions(caps) + if hashes(text, caps) {
                seq![hash_method(capital, arguments)]
            } else {
                Seq::empty()
            },
        },
        containers: SourceView::Field(outer, arguments).offered(caps).map_values(
            |kind: ContainerKind| field_container(index, field, capital, kind),
        ),
        hash: if hashes(text, caps) {
            Some(
                WrapperView {
                    wrapper_name: hash_name(capital),
                    held_type: "String"@,
                    public: true,
                    origin: Origin::FieldHash(index),
                    field: Some(field.name),
                    methods: seq![verify_method()],
                },
            )
        } else {
            None
        },
    }
}

/// The selector's accessor for `field`, the field at position `index`: it is
/// named after the field, uses the selector up and returns the field's outer
/// type.
pub open spec fn selector_method(
    index: usize,
    field: FieldView,
    capital: Seq<char>,
    arguments: Seq<char>,
) -> MethodView {
    MethodView {
        name: field.name,
        role: MethodRole::Select(index),
        receiver: Receiver::Consumes,
        returns: outer_name(capital) + arguments,
        fallible: false,
        generics: Seq::empty(),
        parameters: Seq::empty(),
    }
}

/// The field selector of a record with `fields`: it holds the top-level
/// wrapper and has one accessor for each field, in declaration order.
pub open spec fn selector(fields: Seq<FieldView>, arguments: Seq<char>) -> WrapperView {
    WrapperView {
        wrapper_name: "FieldSelector"@,
        held_type: "Parse"@ + arguments,
        public: true,
        origin: Origin::Selector,
        field: None,
        methods: Seq::new(
            fields.len(),
            |i: int|
                selector_method(i as usize, fields[i], capitalized(fields[i].name), arguments),
        ),
    }
}

/// The field selector of `record` and what belongs to each of its fields, in
/// declaration order.
pub open spec fn field_catalog(record: RecordView, caps: CapabilitySet) -> FieldCatalogView {
    FieldCatalogView {
        selector: selector(record.fields, type_arguments(record.generics)),
        fields: Seq::new(
            record.fields.len(),
            |i: int|
                field_wrappers(
                    record.name,
                    type_arguments(record.generics),
                    i as usize,
                    record.fields[i],
                    capitalized(record.fields[i].name),
                    names_string_type(record.fields[i].ty),
                    caps,
                ),
        ),
    }
}

/// The wrappers around the value of `field`: one for each kind that the field
/// converts into.
fn field_containers(
    index: usize,
    field: &Field,
    capital: &str,
    arguments: &str,
    caps: &CapabilitySet,
) -> (wrappers: Vec<WrapperSpec>)
    ensures
        wrapper_views(wrappers@) == SourceView::Field(outer_name(capital@), arguments@).offered(
            *caps,
        ).map_values(|kind: ContainerKind| field_container(index, field@, capital@, kind)),
{
    let outer = joined("Field", capital);
    let make = |kind: ContainerKind| -> (wrapper: WrapperSpec)
        ensures
            wrapper@ == field_container(index, field@, capital@, kind),
        {
            let wrapper = WrapperSpec {
                wrapper_name: joined(outer.as_str(), kind.suffix_name()),
                held_type: kind.apply(field.ty.as_str()),
                public: true,
                origin: Origin::FieldContainer(index, kind),
                field: Some(field.name.clone()),
                methods: Vec::new(),
            };
            assert(wrapper@.methods =~= Seq::<MethodView>::empty());
            wrapper
        };
    let wrappers = Source::Field(outer.as_str(), arguments).made_of_offered(caps, make);
    assert(wrapper_views(wrappers@) =~= SourceView::Field(
        outer_name(capital@),
        arguments@,
    ).offered(*caps).map_values(
        |kind: ContainerKind| field_container(index, field@, capital@, kind),
    ));
    wrappers
}

/// Describes what belongs to one field. `arguments` stand behind the name of
/// every emitted type where it is used; `capital` is the field's name with its
/// first character in upper case; `text` says whether the field is declared
/// as a text string.
pub fn generate_field(
    record: &str,
    arguments: &str,
    index: usize,
    field: &Field,
    capital: &str,
    text: bool,
    caps: &CapabilitySet,
) -> (wrappers: FieldWrappers)
    ensures
        wrappers@ == field_wrappers(record@, arguments@, index, field@, capital@, text, *caps),
{
    let outer = joined("Field", capital);
    let mut inner = joined("Parse", record);
    inner.append(capital);
    let mut methods = Source::Field(outer.as_str(), arguments).conversion_methods(caps);
    let ghost offered = method_views(methods@);
    let hashed = text && caps.argon2;
    let hash_type = joined(outer.as_str(), "Argon2");
    let hash_used = joined(hash_type.as_str(), arguments);
    if hashed {
        methods.push(
            MethodSpec {
                name: String::from_str("argon2_hash"),
                role: MethodRole::Hash,
                receiver: Receiver::Consumes,
                returns: hash_used,
                fallible: true,
                generics: String::new(),
                parameters: Vec::new(),
            },
        );
        assert(method_views(methods@) =~= offered + seq![hash_method(capital@, arguments@)]);
    } else {
        assert(method_views(methods@) =~= offered + Seq::<MethodView>::empty());
    }
    let hash = if hashed {
        let mut verify: Vec<MethodSpec> = Vec::new();
        verify.push(
            MethodSpec {
                name: String::from_str("verify"),
                role: MethodRole::Verify,
                receiver: Receiver::Borrows,
                returns: String::from_str("bool"),
                fallible: true,
                generics: String::new(),
                parameters: one_parameter("candidate", String::from_str("&str")),
            },
        );
        assert(method_views(verify@) =~= seq![verify_method()]);
        Some(
            WrapperSpec {
                wrapper_name: hash_type,
                held_type: String::from_str("String"),
                public: true,
                origin: Origin::FieldHash(index),
                field: Some(field.name.clone()),
                methods: verify,
            },
        )
    } else {
        None
    };
    let containers = field_containers(index, field, capital, arguments, caps);
    let inner_wrapper = WrapperSpec {
        wrapper_name: inner.clone(),
        held_type: field.ty.clone(),
        public: true,
        origin: Origin::FieldInner(index),
        field: Some(field.name.clone()),
        methods: Vec::new(),
    };
    assert(inner_wrapper@.methods =~= Seq::<MethodView>::empty());
    FieldWrappers {
        inner: inner_wrapper,
        outer: WrapperSpec {
            wrapper_name: outer,
            held_type: joined(inner.as_str(), arguments),
            public: true,
            origin: Origin::FieldOuter(index),
            field: Some(field.name.clone()),
            methods,
        },
        containers,
        hash,
    }
}

/// Describes the field selector of `record` and what belongs to each of its
/// fields. A field's names are built from its name with the first character
/// in upper case; the hashing operations exist for the fields that are
/// declared as text strings, under credential hashing.
pub fn generate_parse_by_field(record: &RecordDescription, caps: &CapabilitySet) -> (catalog:
    FieldCatalog)
    ensures
        catalog@ == field_catalog(record@, *caps),
{
    let n = record.field_count();
    let arguments = record.arguments();
    let mut accessors: Vec<MethodSpec> = Vec::new();
    let mut fields: Vec<FieldWrappers> = Vec::new();
    let mut i: usize = 0;
    while i < n
        invariant
            i <= n,
            n == record@.fields.len(),
            arguments@ == type_arguments(record@.generics),
            accessors@.len() == i,
            fields@.len() == i,
            forall|k: int|
                0 <= k < i ==> (#[trigger] accessors@[k])@ == selector_method(
                    k as usize,
                    record@.fields[k],
                    capitalized(record@.fields[k].name),
                    arguments@,
                ),
            forall|k: int|
                0 <= k < i ==> (#[trigger] fields@[k])@ == field_wrappers(
                    record@.name,
                    arguments@,
                    k as usize,
                    record@.fields[k],
                    capitalized(record@.fields[k].name),
                    names_string_type(record@.fields[k].ty),
                    *caps,
                ),
        decreases n - i,
    {
        let field = record.field(i);
        let capital = capitalize(field.name.as_str());
        let text = is_string_type(field.ty.as_str());
        accessors.push(
            MethodSpec {
                name: field.name.clone(),
                role: MethodRole::Select(i),
                receiver: Receiver::Consumes,
                returns: joined(joined("Field", capital.as_str()).as_str(), arguments.as_str()),
                fallible: false,
                generics: String::new(),
                parameters: Vec::new(),
            },
        );
        fields.push(
            generate_field(
                record.name(),
                arguments.as_str(),
                i,
                field,
                capital.as_str(),
                text,
                caps,
            ),
        );
        i += 1;
    }
    let selector_spec = WrapperSpec {
        wrapper_name: String::from_str("FieldSelector"),
        held_type: joined("Parse", arguments.as_str()),
        public: true,
        origin: Origin::Selector,
        field: None,
        methods: accessors,
    };
    assert(selector_spec@.methods =~= selector(record@.fields, arguments@).methods);
    let catalog = FieldCatalog { selector: selector_spec, fields };
    assert(catalog@.fields =~= field_catalog(record@, *caps).fields);
    catalog
}

} // verus!
