use vstd::prelude::*;

verus! {

/// Zero-copy read-only view over caller-owned contiguous memory, valid only
/// for the duration of the call that received it. The span never owns the
/// memory; the borrow lifetime is the mechanism that keeps it from being held
/// past the originating call.
pub struct InteropReadOnlySpan<'a, T> {
    data: &'a [T],
}

impl<'a, T> View for InteropReadOnlySpan<'a, T> {
    type V = Seq<T>;

    closed spec fn view(&self) -> Seq<T> {
        self.data@
    }
}

impl<'a, T> InteropReadOnlySpan<'a, T> {
    /// The exact slice this span was built over: same memory, same length.
    pub closed spec fn spec_slice(&self) -> &'a [T] {
        self.data
    }

    pub fn len(&self) -> (r: usize)
        ensures
            r == self@.len(),
    {
        self.data.len()
    }

    pub fn is_empty(&self) -> (r: bool)
        ensures
            r == (self@.len() == 0),
    {
        self.data.len() == 0
    }

    /// Borrow the viewed memory back as a slice without copying.
    pub fn as_slice(&self) -> (r: &'a [T])
        ensures
            r == self.spec_slice(),
            r@ == self@,
    {
        self.data
    }
}

impl<'a, T> From<&'a [T]> for InteropReadOnlySpan<'a, T> {
    fn from(s: &'a [T]) -> (r: Self) {
        InteropReadOnlySpan { data: s }
    }
}

impl<'a, T> vstd::std_specs::convert::FromSpecImpl<&'a [T]> for InteropReadOnlySpan<'a, T> {
    open spec fn obeys_from_spec() -> bool {
        true
    }

    closed spec fn from_spec(s: &'a [T]) -> Self {
        InteropReadOnlySpan { data: s }
    }
}

impl<'a, T> From<InteropReadOnlySpan<'a, T>> for &'a [T] {
    fn from(span: InteropReadOnlySpan<'a, T>) -> (r: Self) {
        span.data
    }
}

impl<'a, T> vstd::std_specs::convert::FromSpecImpl<InteropReadOnlySpan<'a, T>> for &'a [T] {
    open spec fn obeys_from_spec() -> bool {
        true
    }

    open spec fn from_spec(span: InteropReadOnlySpan<'a, T>) -> Self {
        span.spec_slice()
    }
}

/// Building a span over a slice keeps the slice itself: the conversion copies
/// nothing and the view is the slice's view.
pub proof fn lemma_span_of_slice<'a, T>(s: &'a [T])
    ensures
        <InteropReadOnlySpan<'a, T> as vstd::std_specs::convert::FromSpec<&'a [T]>>::from_spec(
            s,
        ).spec_slice() == s,
        <InteropReadOnlySpan<'a, T> as vstd::std_specs::convert::FromSpec<&'a [T]>>::from_spec(
            s,
        )@ == s@,
{
}

/// Law: converting a borrowed slice into a span and back yields the original
/// slice itself — identical pointer and length, because the span stores the
/// borrow and neither conversion reallocates.
pub proof fn lemma_span_slice_round_trip<'a, T>(s: &'a [T])
    ensures
        <&'a [T] as vstd::std_specs::convert::FromSpec<InteropReadOnlySpan<'a, T>>>::from_spec(
            <InteropReadOnlySpan<'a, T> as vstd::std_specs::convert::FromSpec<&'a [T]>>::from_spec(
                s,
            ),
        ) == s,
{
}

} // verus!
