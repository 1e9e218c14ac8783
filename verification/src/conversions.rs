//! The conversion methods that a definition offers into the active container
//! kinds.

use vstd::prelude::*;
use crate::capability::ContainerKind;
use crate::capability::CapabilitySet;
use crate::capability::all_kinds;
use crate::capability::kinds_in_order;
use crate::catalog::MethodRole;
use crate::catalog::MethodSpec;
use crate::catalog::MethodView;
use crate::catalog::Receiver;
use crate::catalog::method_views;

verus! {

/// The definition that offers a conversion.
#[derive(Clone, Copy, Debug)]
pub enum Source<'a> {
    /// The top-level wrapper: it converts into the wrapper of each kind.
    /// Every emitted type is used with the given arguments behind its name.
    TopLevel(&'a str),
    /// The wrapper of a kind, with the type it holds: it puts what it holds
    /// into each other kind.
    Wrapper(ContainerKind, &'a str),
    /// What the selector returns for a field, by its name: it converts into
    /// the field's wrapper of each kind. Every emitted type is used with the
    /// given arguments behind its name.
    Field(&'a str, &'a str),
}

/// The mathematical value of a [`Source`].
pub enum SourceView {
    TopLevel(Seq<char>),
    Wrapper(ContainerKind, Seq<char>),
    Field(Seq<char>, Seq<char>),
}

impl View for Source<'_> {
    type V = SourceView;

    open spec fn view(&self) -> SourceView {
        match self {
            Source::TopLevel(arguments) => SourceView::TopLevel(arguments@),
            Source::Wrapper(kind, held) => SourceView::Wrapper(*kind, held@),
            Source::Field(outer, arguments) => SourceView::Field(outer@, arguments@),
        }
    }
}

/// The name of the wrapper of `kind` around the record.
pub open spec fn wrapper_name(kind: ContainerKind) -> Seq<char> {
    "Parse"@ + kind.suffix()
}

impl SourceView {
    /// Whether the source offers a conversion into `target`: the kind is
    /// active, and it is not the source's own. The conversions are all-pairs:
    /// the wrapper of every active kind converts into every other active kind.
    pub open spec fn offers(self, caps: CapabilitySet, target: ContainerKind) -> bool {
        caps.enables(target) && match self {
            SourceView::Wrapper(own, _) => own != target,
            _ => true,
        }
    }

    /// Whether the conversion into `target` returns a result that may be an
    /// error. A conversion into a serialized form does, since a codec is
    /// behind it. So does the conversion of a serialized form into the map of
    /// fields, which has to read the record from the form first.
    pub open spec fn may_fail(self, target: ContainerKind) -> bool {
        target.is_fallible() || (target == ContainerKind::HashMap && match self {
            SourceView::Wrapper(own, _) => own.is_serialized(),
            _ => false,
        })
    }

    /// The type that the conversion into `target` returns on success.
    pub open spec fn result_type(self, target: ContainerKind) -> Seq<char> {
        match self {
            SourceView::TopLevel(arguments) => wrapper_name(target) + arguments,
            SourceView::Wrapper(_, held) => target.applied_to(held),
            SourceView::Field(outer, arguments) => outer + target.suffix() + arguments,
        }
    }

    /// The conversion into `target`: it is named after the kind alone, and
    /// uses up the value it is called on.
    pub open spec fn conversion(self, target: ContainerKind) -> MethodView {
        MethodView {
            name: target.method(),
            role: MethodRole::Convert(target),
            receiver: Receiver::Consumes,
            returns: self.result_type(target),
            fallible: self.may_fail(target),
            generics: Seq::empty(),
            parameters: Seq::empty(),
        }
    }

    /// The kinds that the source offers under `caps`, in the order of
    /// [`all_kinds`].
    pub open spec fn offered(self, caps: CapabilitySet) -> Seq<ContainerKind> {
        all_kinds().filter(|target: ContainerKind| self.offers(caps, target))
    }

    /// The conversions that the source offers under `caps`: one into each kind
    /// it offers, in the order of [`all_kinds`].
    pub open spec fn conversions(self, caps: CapabilitySet) -> Seq<MethodView> {
        self.offered(caps).map_values(|target: ContainerKind| self.conversion(target))
    }
}

/// `first`, then `second`.
pub fn joined(first: &str, second: &str) -> (text: String)
    ensures
        text@ == first@ + second@,
{
    let mut text = String::from_str(first);
    text.append(second);
    text
}

impl Source<'_> {
    /// The type that the conversion into `target` returns on success.
    pub fn returns_of(&self, target: ContainerKind) -> (ty: String)
        ensures
            ty@ == self@.result_type(target),
    {
        match self {
            Source::TopLevel(arguments) => {
                let mut ty = joined("Parse", target.suffix_name());
                ty.append(arguments);
                ty
            },
            Source::Wrapper(_, held) => target.apply(held),
            Source::Field(outer, arguments) => {
                let mut ty = joined(outer, target.suffix_name());
                ty.append(arguments);
                ty
            },
        }
    }

    /// Whether the source offers a conversion into `target` under `caps`.
    pub fn offers_under(&self, caps: &CapabilitySet, target: ContainerKind) -> (offered: bool)
        ensures
            offered == self@.offers(*caps, target),
    {
        caps.has(target) && match self {
            Source::Wrapper(own, _) => *own != target,
            _ => true,
        }
    }

    /// Whether the conversion into `target` returns a result that may be an
    /// error.
    pub fn fails_into(&self, target: ContainerKind) -> (fallible: bool)
        ensures
            fallible == self@.may_fail(target),
    {
        target.serialized() || match target {
            ContainerKind::HashMap => match self {
                Source::Wrapper(own, _) => own.serialized(),
                _ => false,
            },
            _ => false,
        }
    }

    /// What `make` makes of each kind that the source offers under `caps`, in
    /// the order of [`all_kinds`].
    pub fn made_of_offered<B, F: Fn(ContainerKind) -> B>(&self, caps: &CapabilitySet, make: F) -> (made:
        Vec<B>)
        requires
            forall|target: ContainerKind| call_requires(make, (target,)),
        ensures
            made@.len() == self@.offered(*caps).len(),
            forall|i: int|
                0 <= i < made@.len() ==> call_ensures(
                    make,
                    (self@.offered(*caps)[i],),
                    #[trigger] made@[i],
                ),
    {
        let kinds = kinds_in_order();
        let ghost keep = |target: ContainerKind| self@.offers(*caps, target);
        let mut made: Vec<B> = Vec::new();
        let mut i: usize = 0;
        proof {
            reveal(Seq::filter);
            assert(all_kinds().take(0).filter(keep) =~= Seq::<ContainerKind>::empty());
        }
        while i < 12
            invariant
                i <= 12,
                kinds@ == all_kinds(),
                keep == |target: ContainerKind| self@.offers(*caps, target),
                forall|target: ContainerKind| call_requires(make, (target,)),
                made@.len() == all_kinds().take(i as int).filter(keep).len(),
                forall|k: int|
                    0 <= k < made@.len() ==> call_ensures(
                        make,
                        (all_kinds().take(i as int).filter(keep)[k],),
                        #[trigger] made@[k],
                    ),
            decreases 12 - i,
        {
            let target = kinds[i];
            proof {
                assert(all_kinds().take(i + 1) =~= all_kinds().take(i as int).push(target));
                all_kinds().take(i as int).lemma_filter_push(target, keep);
                assert(keep(target) == self@.offers(*caps, target));
            }
            if self.offers_under(caps, target) {
                made.push(make(target));
            }
            i += 1;
        }
        assert(all_kinds().take(12) =~= all_kinds());
        made
    }

    /// The conversion methods that the source offers under `caps`.
    pub fn conversion_methods(&self, caps: &CapabilitySet) -> (methods: Vec<MethodSpec>)
        ensures
            method_views(methods@) == self@.conversions(*caps),
    {
        let make = |target: ContainerKind| -> (method: MethodSpec)
            ensures
                method@ == self@.conversion(target),
            {
                MethodSpec {
                    name: String::from_str(target.method_name()),
                    role: MethodRole::Convert(target),
                    receiver: Receiver::Consumes,
                    returns: self.returns_of(target),
                    fallible: self.fails_into(target),
                    generics: String::new(),
                    parameters: Vec::new(),
                }
            };
        let methods = self.made_of_offered(caps, make);
        assert(method_views(methods@) =~= self@.conversions(*caps));
        methods
    }
}

} // verus!
