//! What holds of every expansion, whatever the record and the capabilities.

use vstd::prelude::*;
use crate::by_field::field_container;
use crate::by_field::field_wrappers;
use crate::by_field::hash_method;
use crate::by_field::hashes;
use crate::by_field::selector;
use crate::capability::CapabilitySet;
use crate::capability::ContainerKind;
use crate::capability::all_kinds;
use crate::capability::kind_index;
use crate::catalog::MethodRole;
use crate::catalog::MethodView;
use crate::catalog::Origin;
use crate::catalog::Receiver;
use crate::conversions::SourceView;
use crate::conversions::wrapper_name;
use crate::parse::entry;
use crate::parse::expansion;
use crate::parse::top_level;
use crate::record::FieldView;
use crate::record::RecordView;
use crate::record::type_arguments;
use crate::wrappers::accessor;
use crate::wrappers::wrapper_spec;

verus! {

/// Every kind stands in [`all_kinds`], at its index.
pub proof fn lemma_kind_listed(kind: ContainerKind)
    ensures
        0 <= kind_index(kind) < all_kinds().len(),
        all_kinds()[kind_index(kind)] == kind,
{
}

/// The kinds that pass `keep`, each mapped by `make`: what is at a position of
/// the result was made of a kind that passes.
proof fn lemma_made_of_kept<B>(
    keep: spec_fn(ContainerKind) -> bool,
    make: spec_fn(ContainerKind) -> B,
    i: int,
) -> (kind: ContainerKind)
    requires
        0 <= i < all_kinds().filter(keep).map_values(make).len(),
    ensures
        keep(kind),
        all_kinds().filter(keep).map_values(make)[i] == make(kind),
{
    let kept = all_kinds().filter(keep);
    all_kinds().lemma_filter_pred(keep, i);
    kept[i]
}

/// The kinds that pass `keep`, each mapped by `make`: every kind that passes
/// has its image in the result.
proof fn lemma_kept_is_made<B>(
    keep: spec_fn(ContainerKind) -> bool,
    make: spec_fn(ContainerKind) -> B,
    kind: ContainerKind,
) -> (i: int)
    requires
        keep(kind),
    ensures
        0 <= i < all_kinds().filter(keep).map_values(make).len(),
        all_kinds().filter(keep).map_values(make)[i] == make(kind),
{
    lemma_kind_listed(kind);
    all_kinds().lemma_filter_contains(keep, kind_index(kind));
    let kept = all_kinds().filter(keep);
    let i = choose|i: int| 0 <= i < kept.len() && kept[i] == kind;
    i
}

/// Conversions stay within the active set: every conversion that a source
/// lists leads into a kind that is active, and that the source offers.
pub proof fn law_conversions_stay_enabled(source: SourceView, caps: CapabilitySet, i: int) -> (target:
    ContainerKind)
    requires
        0 <= i < source.conversions(caps).len(),
    ensures
        caps.enables(target),
        source.offers(caps, target),
        source.conversions(caps)[i] == source.conversion(target),
{
    lemma_made_of_kept(
        |target: ContainerKind| source.offers(caps, target),
        |target: ContainerKind| source.conversion(target),
        i,
    )
}

/// The conversions are all-pairs: a source converts into every active kind
/// but its own.
pub proof fn law_every_offered_kind_is_reached(
    source: SourceView,
    caps: CapabilitySet,
    target: ContainerKind,
) -> (i: int)
    requires
        source.offers(caps, target),
    ensures
        0 <= i < source.conversions(caps).len(),
        source.conversions(caps)[i] == source.conversion(target),
{
    lemma_kept_is_made(
        |target: ContainerKind| source.offers(caps, target),
        |target: ContainerKind| source.conversion(target),
        target,
    )
}

/// The conversion into a kind carries the same name on every source, and uses
/// up the value it is called on.
pub proof fn law_conversion_names_are_uniform(
    first: SourceView,
    second: SourceView,
    target: ContainerKind,
)
    ensures
        first.conversion(target).name == second.conversion(target).name,
        first.conversion(target).name == target.method(),
        first.conversion(target).receiver == Receiver::Consumes,
{
}

/// A kind is told by its names: two different kinds differ in the name of the
/// conversion into them, in their suffix, and in the name of their wrapper.
pub proof fn law_kinds_are_told_apart_by_name(first: ContainerKind, second: ContainerKind)
    requires
        first != second,
    ensures
        first.method() != second.method(),
        first.suffix() != second.suffix(),
        wrapper_name(first) != wrapper_name(second),
{
    reveal_strlit("arc");
    reveal_strlit("tokio_mutex");
    reveal_strlit("hashmap");
    reveal_strlit("mutex");
    reveal_strlit("boxed");
    reveal_strlit("ref_cell");
    reveal_strlit("bin");
    reveal_strlit("toml");
    reveal_strlit("json");
    reveal_strlit("vec");
    reveal_strlit("unsafe_cell");
    reveal_strlit("once_cell");
    reveal_strlit("Arc");
    reveal_strlit("TokioMutex");
    reveal_strlit("HashMap");
    reveal_strlit("Mutex");
    reveal_strlit("Box");
    reveal_strlit("RefCell");
    reveal_strlit("Bin");
    reveal_strlit("Toml");
    reveal_strlit("Json");
    reveal_strlit("Vec");
    reveal_strlit("UnsafeCell");
    reveal_strlit("OnceCell");
    reveal_strlit("Parse");
    let a = first.suffix();
    let b = second.suffix();
    if first.method().len() == second.method().len() {
        assert(first.method()[0] != second.method()[0]);
    }
    if a.len() == b.len() {
        assert(a[0] != b[0] || a[1] != b[1]);
        assert(wrapper_name(first)[5] == a[0] && wrapper_name(first)[6] == a[1]);
        assert(wrapper_name(second)[5] == b[0] && wrapper_name(second)[6] == b[1]);
    } else {
        assert(wrapper_name(first).len() == 5 + a.len());
        assert(wrapper_name(second).len() == 5 + b.len());
    }
}

/// The chain type-checks at its start: the entry point returns the top-level
/// wrapper, and every conversion of the top-level wrapper returns a wrapper
/// that the expansion emits.
pub proof fn law_top_level_leads_to_emitted_wrappers(record: RecordView, caps: CapabilitySet, i: int)
    -> (at: int)
    requires
        0 <= i < SourceView::TopLevel(type_arguments(record.generics)).conversions(caps).len(),
    ensures
        entry(record).method.returns == top_level(record, caps).wrapper_name + type_arguments(
            record.generics,
        ),
        0 <= at < expansion(record, caps).wrappers.len(),
        expansion(record, caps).wrappers[at].wrapper_name + type_arguments(record.generics)
            == SourceView::TopLevel(type_arguments(record.generics)).conversions(caps)[i].returns,
{
    let source = SourceView::TopLevel(type_arguments(record.generics));
    let target = law_conversions_stay_enabled(source, caps, i);
    lemma_kept_is_made(
        |target: ContainerKind| source.offers(caps, target),
        |kind: ContainerKind| wrapper_spec(kind, record.type_text(), caps),
        target,
    )
}

/// Every wrapper that the expansion emits belongs to an active kind: nothing
/// is emitted for a kind that is not active.
pub proof fn law_emitted_wrappers_are_enabled(record: RecordView, caps: CapabilitySet, i: int) -> (kind:
    ContainerKind)
    requires
        0 <= i < expansion(record, caps).wrappers.len(),
    ensures
        caps.enables(kind),
        expansion(record, caps).wrappers[i] == wrapper_spec(kind, record.type_text(), caps),
        expansion(record, caps).wrappers[i].origin == Origin::Container(kind),
        expansion(record, caps).wrappers[i].wrapper_name == wrapper_name(kind),
{
    let source = SourceView::TopLevel(type_arguments(record.generics));
    lemma_made_of_kept(
        |target: ContainerKind| source.offers(caps, target),
        |kind: ContainerKind| wrapper_spec(kind, record.type_text(), caps),
        i,
    )
}

/// Every active kind has its wrapper in the expansion.
pub proof fn law_enabled_kinds_are_emitted(record: RecordView, caps: CapabilitySet, kind: ContainerKind)
    -> (i: int)
    requires
        caps.enables(kind),
    ensures
        0 <= i < expansion(record, caps).wrappers.len(),
        expansion(record, caps).wrappers[i] == wrapper_spec(kind, record.type_text(), caps),
{
    let source = SourceView::TopLevel(type_arguments(record.generics));
    lemma_kept_is_made(
        |target: ContainerKind| source.offers(caps, target),
        |kind: ContainerKind| wrapper_spec(kind, record.type_text(), caps),
        kind,
    )
}

/// The methods of a wrapper, one by one: `get` comes first; what follows is a
/// conversion into an active kind other than the wrapper's own, or one of the
/// operations that reconstruct the record, which only a serialized form has.
pub proof fn law_wrapper_methods(kind: ContainerKind, record: Seq<char>, caps: CapabilitySet, i: int)
    requires
        0 <= i < wrapper_spec(kind, record, caps).methods.len(),
    ensures
        i == 0 ==> wrapper_spec(kind, record, caps).methods[i] == accessor(
            kind,
            kind.applied_to(record),
            record,
        ),
        match wrapper_spec(kind, record, caps).methods[i].role {
            MethodRole::Accessor => i == 0 && kind != ContainerKind::HashMap,
            MethodRole::Lookup => i == 0 && kind == ContainerKind::HashMap,
            MethodRole::Convert(target) => target != kind && caps.enables(target),
            MethodRole::Reconstruct | MethodRole::ReconstructFrom => kind.is_serialized()
                && wrapper_spec(kind, record, caps).methods[i].returns == record,
            MethodRole::HexEncode | MethodRole::HexDecode => kind == ContainerKind::Bin,
            _ => false,
        },
{
    let held = kind.applied_to(record);
    let source = SourceView::Wrapper(kind, held);
    let offered = source.conversions(caps);
    if 1 <= i < 1 + offered.len() {
        let target = law_conversions_stay_enabled(source, caps, i - 1);
    }
}

/// The wrappers are fully connected: the wrapper of an active kind has a
/// conversion into every other active kind, named after that kind, which
/// uses the wrapper up.
pub proof fn law_wrappers_are_fully_connected(
    record: Seq<char>,
    caps: CapabilitySet,
    from: ContainerKind,
    to: ContainerKind,
) -> (i: int)
    requires
        caps.enables(to),
        from != to,
    ensures
        0 <= i < wrapper_spec(from, record, caps).methods.len(),
        wrapper_spec(from, record, caps).methods[i].role == MethodRole::Convert(to),
        wrapper_spec(from, record, caps).methods[i].name == to.method(),
        wrapper_spec(from, record, caps).methods[i].receiver == Receiver::Consumes,
        wrapper_spec(from, record, caps).methods[i].returns == to.applied_to(
            from.applied_to(record),
        ),
{
    let source = SourceView::Wrapper(from, from.applied_to(record));
    let at = law_every_offered_kind_is_reached(source, caps, to);
    1 + at
}

/// Selecting a field uses the selector up: the selector has one accessor for
/// each field, named after the field, and each takes the selector by value.
pub proof fn law_selecting_consumes_the_selector(
    fields: Seq<FieldView>,
    arguments: Seq<char>,
    i: int,
)
    requires
        0 <= i < fields.len(),
    ensures
        selector(fields, arguments).methods.len() == fields.len(),
        selector(fields, arguments).methods[i].name == fields[i].name,
        selector(fields, arguments).methods[i].receiver == Receiver::Consumes,
{
}

/// The hashing operations exist for a field exactly if credential hashing is
/// active and the field is declared as a text string. No other capability
/// looks at a field's type.
pub proof fn law_hashing_is_for_text_fields(
    record: Seq<char>,
    arguments: Seq<char>,
    index: usize,
    field: FieldView,
    capital: Seq<char>,
    text: bool,
    caps: CapabilitySet,
)
    ensures
        field_wrappers(record, arguments, index, field, capital, text, caps).hash is Some <==> text
            && caps.argon2,
        field_wrappers(record, arguments, index, field, capital, text, caps).outer.methods.contains(
            hash_method(capital, arguments),
        ) <==> text && caps.argon2,
        field_wrappers(record, arguments, index, field, capital, text, caps).containers == field_wrappers(
            record,
            arguments,
            index,
            field,
            capital,
            !text,
            caps,
        ).containers,
{
    let wrappers = field_wrappers(record, arguments, index, field, capital, text, caps);
    let source = SourceView::Field(wrappers.outer.wrapper_name, arguments);
    let offered = source.conversions(caps);
    if hashes(text, caps) {
        assert(wrappers.outer.methods[offered.len() as int] == hash_method(capital, arguments));
    } else {
        assert(wrappers.outer.methods =~= offered);
        if offered.contains(hash_method(capital, arguments)) {
            let i = choose|i: int|
                0 <= i < offered.len() && offered[i] == hash_method(capital, arguments);
            let target = law_conversions_stay_enabled(source, caps, i);
        }
    }
}

/// Every conversion of a field leads to a wrapper that is emitted for the
/// field, and every wrapper that is emitted for a field belongs to an active
/// kind.
pub proof fn law_field_conversions_lead_to_emitted_wrappers(
    record: Seq<char>,
    arguments: Seq<char>,
    index: usize,
    field: FieldView,
    capital: Seq<char>,
    text: bool,
    caps: CapabilitySet,
    i: int,
) -> (at: int)
    requires
        0 <= i < SourceView::Field("Field"@ + capital, arguments).conversions(caps).len(),
    ensures
        0 <= at < field_wrappers(record, arguments, index, field, capital, text, caps).containers.len(),
        field_wrappers(
            record,
            arguments,
            index,
            field,
            capital,
            text,
            caps,
        ).containers[at].wrapper_name + arguments == field_wrappers(
            record,
            arguments,
            index,
            field,
            capital,
            text,
            caps,
        ).outer.methods[i].returns,
{
    let source = SourceView::Field("Field"@ + capital, arguments);
    let target = law_conversions_stay_enabled(source, caps, i);
    lemma_kept_is_made(
        |target: ContainerKind| source.offers(caps, target),
        |kind: ContainerKind| field_container(index, field, capital, kind),
        target,
    )
}

} // verus!
