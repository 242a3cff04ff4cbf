use vstd::prelude::*;

verus! {

/// `proc_macro2::Span`: the source location a diagnostic points at.
/// The library only carries spans through, it never looks inside one.
#[verifier::external_type_specification]
#[verifier::external_body]
pub struct ExSpan(proc_macro2::Span);

/// Items whose variants can be compared by kind only (e.g. two `greater`
/// validators with different bounds are of the same kind).
pub trait Kind {
    type Kind;

    /// The kind of an item.
    spec fn spec_kind(&self) -> Self::Kind;

    fn kind(&self) -> (k: Self::Kind)
        ensures
            k == self.spec_kind(),
    ;

    /// Tells whether two items are of the same kind.
    fn same_kind(&self, other: &Self) -> (r: bool)
        ensures
            r == (self.spec_kind() == other.spec_kind()),
    ;
}

/// A domain item together with the span it was parsed from, so that the
/// validation stage can point precise errors at the user's input.
pub struct SpannedItem<T> {
    pub item: T,
    pub span: proc_macro2::Span,
}

impl<T> SpannedItem<T> {
    pub fn new(item: T, span: proc_macro2::Span) -> (r: Self)
        ensures
            r.item == item,
            r.span == span,
    {
        SpannedItem { item, span }
    }

    pub fn span(&self) -> (r: proc_macro2::Span)
        ensures
            r == self.span,
    {
        self.span
    }
}

impl<T: Kind> Kind for SpannedItem<T> {
    type Kind = T::Kind;

    open spec fn spec_kind(&self) -> T::Kind {
        self.item.spec_kind()
    }

    fn kind(&self) -> (k: T::Kind) {
        self.item.kind()
    }

    fn same_kind(&self, other: &Self) -> (r: bool) {
        self.item.same_kind(&other.item)
    }
}

} // verus!
