//! The top-level wrapper, the entry point on the record, and the whole
//! expansion.

use vstd::prelude::*;
use crate::by_field::field_catalog;
use crate::by_field::generate_parse_by_field;
use crate::capability::CapabilitySet;
use crate::capability::ContainerKind;
use crate::catalog::EntrySpec;
use crate::catalog::EntryView;
use crate::catalog::Expansion;
use crate::catalog::ExpansionView;
use crate::catalog::FieldCatalog;
use crate::catalog::FieldWrappers;
use crate::catalog::field_definitions;
use crate::catalog::field_wrappers_views;
use crate::catalog::MethodRole;
use crate::catalog::MethodSpec;
use crate::catalog::MethodView;
use crate::catalog::Origin;
use crate::catalog::ParseSpec;
use crate::catalog::ParseView;
use crate::catalog::Receiver;
use crate::catalog::WrapperSpec;
use crate::catalog::WrapperView;
use crate::catalog::method_views;
use crate::catalog::wrapper_views;
use crate::conversions::Source;
use crate::conversions::SourceView;
use crate::record::FieldView;
use crate::record::GenericParam;
use crate::record::RecordDescription;
use crate::record::RecordView;
use crate::record::ShapeError;
use crate::record::TypeDefinition;
use crate::record::TypeDefinitionView;
use crate::record::add_traits_to_generics;
use crate::record::generic_views;
use crate::record::introspect;
use crate::record::record_of;
use crate::record::shape_error;
use crate::record::text_views;
use crate::record::type_arguments;
use crate::record::with_added_traits;
use crate::wrappers::generate_wrapper;
use crate::wrappers::wrapper_spec;

verus! {

/// A reference to each field's type, in declaration order, with a comma and a
/// space between two of them.
pub open spec fn reference_list(fields: Seq<FieldView>) -> Seq<char>
    decreases fields.len(),
{
    if fields.len() == 0 {
        Seq::empty()
    } else if fields.len() == 1 {
        "&"@ + fields[0].ty
    } else {
        reference_list(fields.drop_last()) + ", "@ + "&"@ + fields.last().ty
    }
}

/// The tuple of references to every field of the record.
pub open spec fn tuple_type(fields: Seq<FieldView>) -> Seq<char> {
    "("@ + reference_list(fields) + ")"@
}

/// The method that turns the top-level wrapper into the field selector.
pub open spec fn fields_method(arguments: Seq<char>) -> MethodView {
    MethodView {
        name: "field"@,
        role: MethodRole::Fields,
        receiver: Receiver::Consumes,
        returns: "FieldSelector"@ + arguments,
        fallible: false,
        generics: Seq::empty(),
        parameters: Seq::empty(),
    }
}

/// The positional read of every field: it borrows the wrapper.
pub open spec fn tuple_method(fields: Seq<FieldView>) -> MethodView {
    MethodView {
        name: "tuple"@,
        role: MethodRole::Tuple,
        receiver: Receiver::Borrows,
        returns: tuple_type(fields),
        fallible: false,
        generics: Seq::empty(),
        parameters: Seq::empty(),
    }
}

/// The top-level wrapper of `record` under `caps`: it holds the record, leads
/// to the field selector, converts into the wrapper of every active kind and,
/// under the tuple capability, reads every field at once.
pub open spec fn top_level(record: RecordView, caps: CapabilitySet) -> WrapperView {
    WrapperView {
        wrapper_name: "Parse"@,
        held_type: record.type_text(),
        public: false,
        origin: Origin::TopLevel,
        field: None,
        methods: seq![fields_method(type_arguments(record.generics))] + SourceView::TopLevel(
            type_arguments(record.generics),
        ).conversions(caps) + if caps.tuple {
            seq![tuple_method(record.fields)]
        } else {
            Seq::empty()
        },
    }
}

/// The entry point: the one method attached to the record type. It uses the
/// record up and returns the top-level wrapper.
pub open spec fn entry(record: RecordView) -> EntryView {
    EntryView {
        record: record.name,
        generics: record.generics,
        method: MethodView {
            name: "parse"@,
            role: MethodRole::Entry,
            receiver: Receiver::Consumes,
            returns: "Parse"@ + type_arguments(record.generics),
            fallible: false,
            generics: Seq::empty(),
            parameters: Seq::empty(),
        },
    }
}

/// What is emitted around the top-level wrapper of `record` under `caps`.
pub open spec fn parse_spec(record: RecordView, caps: CapabilitySet) -> ParseView {
    ParseView {
        top: top_level(record, caps),
        by_field: field_catalog(record, caps),
        entry: entry(record),
    }
}

/// Everything that is emitted for `record` under `caps`: the top-level
/// wrapper with the field catalog and the entry point, and the wrapper of
/// each kind that the top-level wrapper converts into, which is every active
/// kind, in the order of [`all_kinds`](crate::capability::all_kinds). Nothing
/// is emitted for a kind that is not active.
pub open spec fn expansion(record: RecordView, caps: CapabilitySet) -> ExpansionView {
    ExpansionView {
        parse: parse_spec(record, caps),
        wrappers: SourceView::TopLevel(type_arguments(record.generics)).offered(caps).map_values(
            |kind: ContainerKind| wrapper_spec(kind, record.type_text(), caps),
        ),
    }
}

/// The type of the tuple of references to the fields of `record`.
fn tuple_type_of(record: &RecordDescription) -> (ty: String)
    ensures
        ty@ == tuple_type(record@.fields),
{
    let n = record.field_count();
    let mut ty = String::from_str("(");
    let mut i: usize = 0;
    while i < n
        invariant
            i <= n,
            n == record@.fields.len(),
            ty@ == "("@ + reference_list(record@.fields.take(i as int)),
        decreases n - i,
    {
        if i > 0 {
            ty.append(", ");
        }
        ty.append("&");
        ty.append(record.field(i).ty.as_str());
        proof {
            let upto = record@.fields.take(i + 1);
            assert(upto.drop_last() =~= record@.fields.take(i as int));
            assert(upto.last() == record@.fields[i as int]);
            assert(ty@ =~= "("@ + reference_list(upto));
        }
        i += 1;
    }
    assert(record@.fields.take(n as int) =~= record@.fields);
    ty.append(")");
    ty
}

/// A copy of `texts`.
fn copy_texts(texts: &Vec<String>) -> (copy: Vec<String>)
    ensures
        text_views(copy@) == text_views(texts@),
{
    let mut copy: Vec<String> = Vec::new();
    let mut i: usize = 0;
    while i < texts.len()
        invariant
            i <= texts@.len(),
            copy@.len() == i,
            forall|k: int| 0 <= k < i ==> (#[trigger] copy@[k])@ == texts@[k]@,
        decreases texts@.len() - i,
    {
        copy.push(texts[i].clone());
        i += 1;
    }
    assert(text_views(copy@) =~= text_views(texts@));
    copy
}

/// A copy of `params`.
fn copy_generics(params: &Vec<GenericParam>) -> (copy: Vec<GenericParam>)
    ensures
        generic_views(copy@) == generic_views(params@),
{
    let mut copy: Vec<GenericParam> = Vec::new();
    let mut i: usize = 0;
    while i < params.len()
        invariant
            i <= params@.len(),
            copy@.len() == i,
            forall|k: int| 0 <= k < i ==> (#[trigger] copy@[k])@ == params@[k]@,
        decreases params@.len() - i,
    {
        let param = &params[i];
        copy.push(
            GenericParam {
                name: param.name.clone(),
                kind: param.kind,
                bounds: copy_texts(&param.bounds),
            },
        );
        i += 1;
    }
    assert(generic_views(copy@) =~= generic_views(params@));
    copy
}

/// Describes the top-level wrapper `Parse` of `record`, with the field
/// catalog, and the entry point `parse` on the record type.
pub fn generate_parse(record: &RecordDescription, caps: &CapabilitySet) -> (parse: ParseSpec)
    ensures
        parse@ == parse_spec(record@, *caps),
{
    let arguments = record.arguments();
    let mut methods: Vec<MethodSpec> = Vec::new();
    methods.push(
        MethodSpec {
            name: String::from_str("field"),
            role: MethodRole::Fields,
            receiver: Receiver::Consumes,
            returns: crate::conversions::joined("FieldSelector", arguments.as_str()),
            fallible: false,
            generics: String::new(),
            parameters: Vec::new(),
        },
    );
    let mut conversions = Source::TopLevel(arguments.as_str()).conversion_methods(caps);
    let ghost offered = method_views(conversions@);
    methods.append(&mut conversions);
    assert(method_views(methods@) =~= seq![fields_method(arguments@)] + offered);
    if caps.tuple {
        methods.push(
            MethodSpec {
                name: String::from_str("tuple"),
                role: MethodRole::Tuple,
                receiver: Receiver::Borrows,
                returns: tuple_type_of(record),
                fallible: false,
                generics: String::new(),
                parameters: Vec::new(),
            },
        );
        assert(method_views(methods@) =~= seq![fields_method(arguments@)] + offered + seq![
            tuple_method(record@.fields),
        ]);
    } else {
        assert(method_views(methods@) =~= seq![fields_method(arguments@)] + offered + Seq::<
            MethodView,
        >::empty());
    }
    ParseSpec {
        top: WrapperSpec {
            wrapper_name: String::from_str("Parse"),
            held_type: record.type_text(),
            public: false,
            origin: Origin::TopLevel,
            field: None,
            methods,
        },
        by_field: generate_parse_by_field(record, caps),
        entry: EntrySpec {
            record: String::from_str(record.name()),
            generics: copy_generics(record.generics()),
            method: MethodSpec {
                name: String::from_str("parse"),
                role: MethodRole::Entry,
                receiver: Receiver::Consumes,
                returns: crate::conversions::joined("Parse", arguments.as_str()),
                fallible: false,
                generics: String::new(),
                parameters: Vec::new(),
            },
        },
    }
}

/// Describes everything that is emitted for `record` under `caps`.
pub fn expand(record: &RecordDescription, caps: &CapabilitySet) -> (emitted: Expansion)
    ensures
        emitted@ == expansion(record@, *caps),
{
    let make = |kind: ContainerKind| -> (wrapper: WrapperSpec)
        ensures
            wrapper@ == wrapper_spec(kind, record@.type_text(), *caps),
        { generate_wrapper(kind, record.type_text().as_str(), caps) };
    let arguments = record.arguments();
    let wrappers = Source::TopLevel(arguments.as_str()).made_of_offered(caps, make);
    assert(wrapper_views(wrappers@) =~= expansion(record@, *caps).wrappers);
    Expansion { parse: generate_parse(record, caps), wrappers }
}

/// Adds to `out` what belongs to one field: the inner type, the outer type,
/// the wrappers of the active kinds and, where there is one, the stored hash.
fn push_field_definitions(out: &mut Vec<WrapperSpec>, field: FieldWrappers)
    ensures
        wrapper_views(final(out)@) == wrapper_views(old(out)@) + field@.definitions(),
{
    let ghost before = wrapper_views(out@);
    let FieldWrappers { inner, outer, containers, hash } = field;
    let mut containers = containers;
    let ghost kinds = wrapper_views(containers@);
    out.push(inner);
    out.push(outer);
    out.append(&mut containers);
    assert(wrapper_views(out@) =~= before + seq![inner@, outer@] + kinds);
    match hash {
        Some(stored) => {
            out.push(stored);
            assert(wrapper_views(out@) =~= before + (seq![inner@, outer@] + kinds + seq![stored@]));
        },
        None => {
            assert(wrapper_views(out@) =~= before + (seq![inner@, outer@] + kinds + Seq::<
                WrapperView,
            >::empty()));
        },
    }
}

/// Lays an expansion out as one flat sequence of emitted types: the top-level
/// wrapper, the wrappers of the active kinds, the field selector, then what
/// belongs to each field, in declaration order. The entry point is handed
/// back beside them.
pub fn definitions(emitted: Expansion) -> (flat: (Vec<WrapperSpec>, EntrySpec))
    ensures
        wrapper_views(flat.0@) == emitted@.definitions(),
        flat.1 == emitted.parse.entry,
{
    let Expansion { parse, wrappers } = emitted;
    let ParseSpec { top, by_field, entry } = parse;
    let FieldCatalog { selector, fields } = by_field;
    let mut wrappers = wrappers;
    let mut fields = fields;
    let ghost all = field_wrappers_views(fields@);
    let ghost given = fields@;
    let ghost head = seq![top@] + wrapper_views(wrappers@) + seq![selector@];
    let mut out: Vec<WrapperSpec> = Vec::new();
    out.push(top);
    out.append(&mut wrappers);
    out.push(selector);
    assert(wrapper_views(out@) =~= head);
    let n = fields.len();
    let mut i: usize = 0;
    assert(field_definitions(all.take(0)) =~= Seq::<WrapperView>::empty());
    while i < n
        invariant
            i <= n,
            n == given.len(),
            all == field_wrappers_views(given),
            fields@ =~= given.skip(i as int),
            wrapper_views(out@) =~= head + field_definitions(all.take(i as int)),
        decreases n - i,
    {
        let field = fields.remove(0);
        proof {
            assert(field == given[i as int]);
            let upto = all.take(i + 1);
            assert(upto.drop_last() =~= all.take(i as int));
            assert(upto.last() == field@);
            assert(given.skip(i as int).remove(0) =~= given.skip(i + 1));
        }
        push_field_definitions(&mut out, field);
        i += 1;
    }
    assert(all.take(n as int) =~= all);
    (out, entry)
}

/// The record that `def` describes once the added bounds stand on its type
/// parameters.
pub open spec fn described(def: TypeDefinitionView) -> RecordView {
    record_of(with_added_traits(def))
}

/// The entry point of the expansion: reads `def` as a record and describes
/// everything that is emitted for it under `caps`. Either the definition is
/// refused, because it is no struct with named fields, or the whole
/// expansion is returned; there is no partial result.
pub fn parser(def: TypeDefinition, caps: &CapabilitySet) -> (result: Result<Expansion, ShapeError>)
    ensures
        match result {
            Ok(emitted) => shape_error(def@) is None && emitted@ == expansion(
                described(def@),
                *caps,
            ),
            Err(error) => shape_error(def@) == Some(error),
        },
{
    let mut def = def;
    let ghost given = def@;
    add_traits_to_generics(&mut def);
    assert(shape_error(def@) == shape_error(given));
    match introspect(def) {
        Ok(record) => Ok(expand(&record, caps)),
        Err(error) => Err(error),
    }
}

} // verus!
