//! The owning handle that callers build and hand to the engine.

use vstd::prelude::*;
use crate::text_analysis_source_impl::{
    CustomTextAnalysisSourceImpl,
    NumberSubstitution,
    TextAnalysisSourceMethods,
    MAX_TEXT_LEN,
};

verus! {

/// Owns a finished text analysis source.
pub struct TextAnalysisSource<P> {
    native: CustomTextAnalysisSourceImpl<P>,
}

impl<P: TextAnalysisSourceMethods> TextAnalysisSource<P> {
    /// The source this handle owns.
    pub closed spec fn native_spec(&self) -> CustomTextAnalysisSourceImpl<P> {
        self.native
    }

    /// A source over `text` with `inner` as policy and no number substitution.
    pub fn from_text(inner: P, text: Vec<u16>) -> (r: Self)
        requires
            text@.len() <= MAX_TEXT_LEN,
        ensures
            r.native_spec().wf(),
            r.native_spec().text_spec() == text@,
            r.native_spec().policy() == inner,
            r.native_spec().subst_spec() is None,
            r.native_spec().locale_spec() == Seq::<u16>::empty(),
            r.native_spec().ref_count() == 1,
    {
        let native = CustomTextAnalysisSourceImpl::from_text_and_number_subst_native(inner, text, None);
        TextAnalysisSource::take(native)
    }

    /// A source over `text` with `inner` as policy and `number_subst` for all of the text.
    pub fn from_text_and_number_subst(inner: P, text: Vec<u16>, number_subst: NumberSubstitution) -> (r: Self)
        requires
            text@.len() <= MAX_TEXT_LEN,
        ensures
            r.native_spec().wf(),
            r.native_spec().text_spec() == text@,
            r.native_spec().policy() == inner,
            r.native_spec().subst_spec() == Some(number_subst),
            r.native_spec().locale_spec() == Seq::<u16>::empty(),
            r.native_spec().ref_count() == 1,
    {
        let native = CustomTextAnalysisSourceImpl::from_text_and_number_subst_native(
            inner,
            text,
            Some(number_subst),
        );
        TextAnalysisSource::take(native)
    }

    /// Takes ownership of a finished source.
    pub fn take(native: CustomTextAnalysisSourceImpl<P>) -> (r: Self)
        ensures
            r.native_spec() == native,
    {
        TextAnalysisSource { native }
    }

    /// The source this handle owns.
    pub fn native(&self) -> (r: &CustomTextAnalysisSourceImpl<P>)
        ensures
            *r == self.native_spec(),
    {
        &self.native
    }

    /// Gives up the handle and returns the source.
    pub fn into_native(self) -> (r: CustomTextAnalysisSourceImpl<P>)
        ensures
            r == self.native_spec(),
    {
        self.native
    }
}

} // verus!
