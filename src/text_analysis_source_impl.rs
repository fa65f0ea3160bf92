//! The text analysis source: a reference-counted object that answers the engine's
//! pull queries over an owned UTF-16 text buffer and a caller-supplied policy.

use vstd::prelude::*;
use vstd::slice::slice_subrange;
use crate::wide::{lemma_terminator_ends_string, to_wide_null, utf16_of, wide_null};

verus! {

/// The direction in which a paragraph reads.
#[derive(Clone, Copy, Debug, PartialEq, Eq, Structural)]
pub enum ReadingDirection {
    LeftToRight,
    RightToLeft,
    TopToBottom,
    BottomToTop,
}

impl ReadingDirection {
    /// The engine's numeric code for this direction.
    pub fn as_raw(self) -> (r: u32)
        ensures
            r == reading_direction_code(self),
    {
        match self {
            ReadingDirection::LeftToRight => 0,
            ReadingDirection::RightToLeft => 1,
            ReadingDirection::TopToBottom => 2,
            ReadingDirection::BottomToTop => 3,
        }
    }
}

/// The engine's numeric code of each reading direction.
pub open spec fn reading_direction_code(d: ReadingDirection) -> u32 {
    match d {
        ReadingDirection::LeftToRight => 0,
        ReadingDirection::RightToLeft => 1,
        ReadingDirection::TopToBottom => 2,
        ReadingDirection::BottomToTop => 3,
    }
}

/// The caller's side of a text analysis source: the locale of each range of text and
/// the paragraph's reading direction. Callers implement it; the source promises
/// nothing about its answers beyond what it does with them.
pub trait TextAnalysisSourceMethods {
    /// The locale at `text_position`, and the number of UTF-16 code units from there
    /// for which it holds.
    fn get_locale_name(&self, text_position: u32) -> (String, u32);

    /// The reading direction of the paragraph.
    fn get_paragraph_reading_direction(&self) -> ReadingDirection;
}

/// A number substitution policy: how digits are shaped, for which locale, and how
/// many references to it have been handed out.
pub struct NumberSubstitution {
    subst_method: u32,
    locale: String,
    ignore_user_overrides: bool,
    refs: usize,
}

impl NumberSubstitution {
    pub closed spec fn method_spec(&self) -> u32 {
        self.subst_method
    }

    pub closed spec fn locale_spec(&self) -> Seq<char> {
        self.locale@
    }

    pub closed spec fn ignores_user_overrides(&self) -> bool {
        self.ignore_user_overrides
    }

    /// References to the substitution handed out so far: the creator's one and each
    /// one given to the engine. The engine gives its references back to the
    /// substitution object itself, so this count never goes down.
    pub closed spec fn ref_count(&self) -> nat {
        self.refs as nat
    }

    /// A substitution with `subst_method` for `locale`, held by one reference.
    pub fn new(subst_method: u32, locale: &str, ignore_user_overrides: bool) -> (r: NumberSubstitution)
        ensures
            r.method_spec() == subst_method,
            r.locale_spec() == locale@,
            r.ignores_user_overrides() == ignore_user_overrides,
            r.ref_count() == 1,
    {
        NumberSubstitution {
            subst_method,
            locale: locale.to_string(),
            ignore_user_overrides,
            refs: 1,
        }
    }

    pub fn subst_method(&self) -> (r: u32)
        ensures
            r == self.method_spec(),
    {
        self.subst_method
    }

    pub fn locale(&self) -> (r: &str)
        ensures
            r@ == self.locale_spec(),
    {
        self.locale.as_str()
    }

    pub fn ignore_user_overrides(&self) -> (r: bool)
        ensures
            r == self.ignores_user_overrides(),
    {
        self.ignore_user_overrides
    }

    pub fn refs(&self) -> (r: usize)
        ensures
            r == self.ref_count(),
    {
        self.refs
    }
}

/// Why a query was refused.
#[derive(Clone, Copy, Debug, PartialEq, Eq, Structural)]
pub enum QueryError {
    /// The position lies outside the text.
    InvalidArg,
}

/// The largest text, in UTF-16 code units, that the engine can address.
pub const MAX_TEXT_LEN: usize = 0xFFFF_FFFF;

/// A text analysis source over an owned UTF-16 buffer.
///
/// The reference count starts at one and the object is dead once it reaches zero.
/// The locale buffer holds the answer to the last locale query and is overwritten
/// by the next one.
pub struct CustomTextAnalysisSourceImpl<P> {
    refcount: usize,
    inner: P,
    text: Vec<u16>,
    number_subst: Option<NumberSubstitution>,
    locale_buf: Vec<u16>,
}

impl<P: TextAnalysisSourceMethods> CustomTextAnalysisSourceImpl<P> {
    /// The text buffer.
    pub closed spec fn text_spec(&self) -> Seq<u16> {
        self.text@
    }

    /// The number of code units in the text buffer.
    pub open spec fn len_spec(&self) -> int {
        self.text_spec().len() as int
    }

    /// The contents of the locale buffer.
    pub closed spec fn locale_spec(&self) -> Seq<u16> {
        self.locale_buf@
    }

    /// Outstanding references to this object.
    pub closed spec fn ref_count(&self) -> nat {
        self.refcount as nat
    }

    /// The number substitution, if any.
    pub closed spec fn subst_spec(&self) -> Option<NumberSubstitution> {
        self.number_subst
    }

    /// The caller's policy.
    pub closed spec fn policy(&self) -> P {
        self.inner
    }

    /// Everything but the reference count is the same in `self` and `next`.
    pub open spec fn same_contents(&self, next: &Self) -> bool {
        &&& next.text_spec() == self.text_spec()
        &&& next.locale_spec() == self.locale_spec()
        &&& next.subst_spec() == self.subst_spec()
        &&& next.policy() == self.policy()
    }

    /// `next` is `self` after one `add_ref`.
    pub open spec fn add_ref_step(&self, next: &Self) -> bool {
        &&& next.ref_count() == self.ref_count() + 1
        &&& self.same_contents(next)
    }

    /// `next` is `self` after one `release`.
    pub open spec fn release_step(&self, next: &Self) -> bool {
        &&& next.ref_count() == self.ref_count() - 1
        &&& self.same_contents(next)
    }

    /// `states` is a new object followed by `n` calls to `add_ref` and then `n + 1`
    /// calls to `release`.
    pub open spec fn balanced_trace(states: Seq<Self>, n: nat) -> bool {
        &&& states.len() == 2 * n + 2
        &&& states[0].ref_count() == 1
        &&& forall|i: int| 0 <= i < n ==> #[trigger] states[i].add_ref_step(&states[i + 1])
        &&& forall|i: int| n <= i < 2 * n + 1 ==> #[trigger] states[i].release_step(&states[i + 1])
    }

    proof fn lemma_trace_count(states: Seq<Self>, n: nat, i: int)
        requires
            Self::balanced_trace(states, n),
            0 <= i < 2 * n + 2,
        ensures
            states[i].ref_count() == if i <= n { 1 + i } else { 1 + 2 * n - i },
            states[0].same_contents(&states[i]),
        decreases i,
    {
        if i > 0 {
            Self::lemma_trace_count(states, n, i - 1);
            let j = i - 1;
            if j < n {
                assert(states[j].add_ref_step(&states[j + 1]));
            } else {
                assert(states[j].release_step(&states[j + 1]));
            }
            assert(states[j + 1] == states[i]);
        }
    }

    /// After construction, with its single reference, `n` calls to `add_ref` followed
    /// by `n` matching calls to `release` keep the object alive all along, with its
    /// contents untouched, and leave exactly the constructor's reference; the release
    /// of that last reference is the one and only step that brings the count to zero.
    pub proof fn lemma_balanced_references(states: Seq<Self>, n: nat)
        requires
            Self::balanced_trace(states, n),
        ensures
            forall|i: int| 0 <= i <= 2 * n ==> #[trigger] states[i].ref_count() > 0,
            states[2 * n as int].ref_count() == 1,
            states[2 * n + 1 as int].ref_count() == 0,
            forall|i: int| 0 <= i < 2 * n + 2 ==> states[0].same_contents(#[trigger] &states[i]),
    {
        assert forall|i: int| 0 <= i <= 2 * n implies #[trigger] states[i].ref_count() > 0 by {
            Self::lemma_trace_count(states, n, i);
        }
        assert forall|i: int| 0 <= i < 2 * n + 2 implies states[0].same_contents(
            #[trigger] &states[i],
        ) by {
            Self::lemma_trace_count(states, n, i);
        }
        Self::lemma_trace_count(states, n, (2 * n) as int);
        Self::lemma_trace_count(states, n, (2 * n + 1) as int);
    }

    /// Once the locale buffer holds `name` in the form `store_locale` and
    /// `get_locale_name` leave it in, a reader that stops at the first null unit sees
    /// exactly `name` and nothing of what the buffer held before, as long as `name`
    /// holds no NUL.
    pub proof fn lemma_locale_query_replaces(next: &Self, name: Seq<char>)
        requires
            next.locale_spec() == wide_null(name),
            forall|j: int| 0 <= j < name.len() ==> #[trigger] name[j] != '\0',
        ensures
            next.locale_spec().len() == utf16_of(name).len() + 1,
            next.locale_spec().last() == 0,
            forall|i: int| 0 <= i < utf16_of(name).len() ==> #[trigger] next.locale_spec()[i] != 0,
            next.locale_spec().subrange(0, utf16_of(name).len() as int) == utf16_of(name),
    {
        lemma_terminator_ends_string(name);
    }

    /// The text fits the engine's 32-bit counts.
    pub open spec fn wf(&self) -> bool {
        self.len_spec() <= MAX_TEXT_LEN
    }

    /// A source over `text` with `inner` as policy and `number_subst` for all of the
    /// text, held by one reference.
    pub fn from_text_and_number_subst_native(
        inner: P,
        text: Vec<u16>,
        number_subst: Option<NumberSubstitution>,
    ) -> (r: Self)
        requires
            text@.len() <= MAX_TEXT_LEN,
        ensures
            r.wf(),
            r.text_spec() == text@,
            r.policy() == inner,
            r.subst_spec() == number_subst,
            r.locale_spec() == Seq::<u16>::empty(),
            r.ref_count() == 1,
    {
        CustomTextAnalysisSourceImpl {
            refcount: 1,
            inner,
            text,
            number_subst,
            locale_buf: Vec::new(),
        }
    }

    /// The text buffer.
    pub fn text(&self) -> (r: &[u16])
        ensures
            r@ == self.text_spec(),
    {
        self.text.as_slice()
    }

    /// The locale buffer: the answer to the last locale query, null-terminated.
    pub fn locale_buf(&self) -> (r: &[u16])
        ensures
            r@ == self.locale_spec(),
    {
        self.locale_buf.as_slice()
    }

    /// The number substitution, if any.
    pub fn number_subst(&self) -> (r: &Option<NumberSubstitution>)
        ensures
            *r == self.subst_spec(),
    {
        &self.number_subst
    }

    /// Outstanding references to this object.
    pub fn refs(&self) -> (r: usize)
        ensures
            r == self.ref_count(),
    {
        self.refcount
    }

    /// Takes one more reference and returns the new count.
    pub fn add_ref(&mut self) -> (r: usize)
        requires
            old(self).ref_count() < usize::MAX,
        ensures
            old(self).add_ref_step(final(self)),
            r == final(self).ref_count(),
    {
        self.refcount = self.refcount + 1;
        self.refcount
    }

    /// Gives one reference back and returns the new count; at zero the object is dead.
    pub fn release(&mut self) -> (r: usize)
        requires
            old(self).ref_count() > 0,
        ensures
            old(self).release_step(final(self)),
            r == final(self).ref_count(),
    {
        self.refcount = self.refcount - 1;
        self.refcount
    }

    /// The text from `text_position` to the end and its length; no text and zero at
    /// or past the end.
    pub fn get_text_at_position(&self, text_position: u32) -> (r: (Option<&[u16]>, u32))
        requires
            self.wf(),
        ensures
            text_position < self.len_spec() ==> r.0 is Some && r.0->0@ == self.text_spec().subrange(
                text_position as int,
                self.len_spec(),
            ) && r.1 == self.len_spec() - text_position,
            text_position >= self.len_spec() ==> r.0 is None && r.1 == 0,
    {
        let len: usize = self.text.len();
        if text_position as usize >= len {
            return (None, 0);
        }
        let rest = slice_subrange(self.text.as_slice(), text_position as usize, len);
        (Some(rest), (len - text_position as usize) as u32)
    }

    /// The text before `text_position` and its length; no text and zero at position
    /// zero and past the end.
    pub fn get_text_before_position(&self, text_position: u32) -> (r: (Option<&[u16]>, u32))
        requires
            self.wf(),
        ensures
            0 < text_position <= self.len_spec() ==> r.0 is Some && r.0->0@
                == self.text_spec().subrange(0, text_position as int) && r.1 == text_position,
            text_position == 0 || text_position > self.len_spec() ==> r.0 is None && r.1 == 0,
    {
        let len: usize = self.text.len();
        if text_position == 0 || text_position as usize > len {
            return (None, 0);
        }
        let before = slice_subrange(self.text.as_slice(), 0, text_position as usize);
        (Some(before), text_position)
    }

    /// Hands the engine one more reference to the number substitution, which covers
    /// the whole rest of the text, and returns the length of that rest. A position at
    /// or past the end is refused. Without a substitution nothing is counted and the
    /// engine gets none.
    pub fn get_number_substitution(&mut self, text_position: u32) -> (r: Result<u32, QueryError>)
        requires
            old(self).wf(),
            old(self).subst_spec() is Some ==> old(self).subst_spec()->0.ref_count() < usize::MAX,
        ensures
            text_position >= old(self).len_spec() ==> r == Err::<u32, QueryError>(QueryError::InvalidArg)
                && *final(self) == *old(self),
            text_position < old(self).len_spec() ==> r == Ok::<u32, QueryError>(
                (old(self).len_spec() - text_position) as u32,
            ),
            text_position < old(self).len_spec() ==> match old(self).subst_spec() {
                Some(ns) => final(self).subst_spec() is Some && final(self).subst_spec()->0.ref_count()
                    == ns.ref_count() + 1 && final(self).subst_spec()->0.method_spec()
                    == ns.method_spec() && final(self).subst_spec()->0.locale_spec()
                    == ns.locale_spec() && final(self).subst_spec()->0.ignores_user_overrides()
                    == ns.ignores_user_overrides(),
                None => final(self).subst_spec() is None,
            },
            final(self).text_spec() == old(self).text_spec(),
            final(self).locale_spec() == old(self).locale_spec(),
            final(self).ref_count() == old(self).ref_count(),
            final(self).policy() == old(self).policy(),
    {
        let len: usize = self.text.len();
        if text_position as usize >= len {
            return Err(QueryError::InvalidArg);
        }
        match &mut self.number_subst {
            Some(ns) => {
                ns.refs = ns.refs + 1;
            },
            None => {},
        }
        Ok((len - text_position as usize) as u32)
    }

    /// The engine's code for the paragraph's reading direction, as the policy gives it.
    pub fn get_paragraph_reading_direction(&self) -> (r: u32)
        ensures
            exists|d: ReadingDirection| r == reading_direction_code(d),
    {
        let d = self.inner.get_paragraph_reading_direction();
        d.as_raw()
    }

    /// Answers a locale query from the policy's answer: replaces the locale buffer by
    /// `locale` in UTF-16 with a null terminator, whatever it held before, and returns
    /// `text_len` as it stands, with no bound against the text.
    pub fn store_locale(&mut self, locale: &str, text_len: u32) -> (r: u32)
        ensures
            final(self).locale_spec() == wide_null(locale@),
            r == text_len,
            final(self).text_spec() == old(self).text_spec(),
            final(self).subst_spec() == old(self).subst_spec(),
            final(self).ref_count() == old(self).ref_count(),
            final(self).policy() == old(self).policy(),
    {
        self.locale_buf = to_wide_null(locale);
        text_len
    }

    /// Asks the policy for the locale at `text_position` and answers with
    /// `store_locale`: the buffer then holds the policy's name, null-terminated, and
    /// the result is the policy's run length.
    pub fn get_locale_name(&mut self, text_position: u32) -> (r: u32)
        ensures
            exists|locale: Seq<char>| final(self).locale_spec() == wide_null(locale),
            final(self).text_spec() == old(self).text_spec(),
            final(self).subst_spec() == old(self).subst_spec(),
            final(self).ref_count() == old(self).ref_count(),
            final(self).policy() == old(self).policy(),
    {
        let (locale, text_len) = self.inner.get_locale_name(text_position);
        self.store_locale(locale.as_str(), text_len)
    }
}

} // verus!
