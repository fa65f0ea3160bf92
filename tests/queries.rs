use dwrite_source::{
    to_wide_null, CustomTextAnalysisSourceImpl, NumberSubstitution, QueryError, ReadingDirection,
    TextAnalysisSource, TextAnalysisSourceMethods,
};

struct FixedPolicy {
    locale: String,
    run: u32,
    direction: ReadingDirection,
}

impl TextAnalysisSourceMethods for FixedPolicy {
    fn get_locale_name(&self, _text_position: u32) -> (String, u32) {
        (self.locale.clone(), self.run)
    }

    fn get_paragraph_reading_direction(&self) -> ReadingDirection {
        self.direction
    }
}

/// A long locale name for the first code unit, a short one after it.
struct SplitPolicy;

impl TextAnalysisSourceMethods for SplitPolicy {
    fn get_locale_name(&self, text_position: u32) -> (String, u32) {
        if text_position == 0 {
            ("zh-Hant-TW".to_string(), 1)
        } else {
            ("de".to_string(), text_position + 1)
        }
    }

    fn get_paragraph_reading_direction(&self) -> ReadingDirection {
        ReadingDirection::RightToLeft
    }
}

fn utf16(s: &str) -> Vec<u16> {
    s.encode_utf16().collect()
}

fn hello() -> CustomTextAnalysisSourceImpl<FixedPolicy> {
    let policy = FixedPolicy {
        locale: "en-US".to_string(),
        run: 5,
        direction: ReadingDirection::LeftToRight,
    };
    CustomTextAnalysisSourceImpl::from_text_and_number_subst_native(policy, utf16("Hello"), None)
}

fn hello_with_subst() -> CustomTextAnalysisSourceImpl<FixedPolicy> {
    let policy = FixedPolicy {
        locale: "en-US".to_string(),
        run: 5,
        direction: ReadingDirection::LeftToRight,
    };
    let subst = NumberSubstitution::new(0, "ar-EG", true);
    CustomTextAnalysisSourceImpl::from_text_and_number_subst_native(policy, utf16("Hello"), Some(subst))
}

#[test]
fn hello_scenario() {
    let mut src = hello();
    let (at, at_len) = src.get_text_at_position(2);
    assert_eq!(at, Some(&utf16("llo")[..]));
    assert_eq!(at_len, 3);
    let (before, before_len) = src.get_text_before_position(2);
    assert_eq!(before, Some(&utf16("He")[..]));
    assert_eq!(before_len, 2);
    let run = src.get_locale_name(0);
    assert_eq!(run, 5);
    assert_eq!(src.locale_buf(), &[101u16, 110, 45, 85, 83, 0][..]);
    assert_eq!(src.get_paragraph_reading_direction(), 0);
    assert_eq!(src.get_text_at_position(5), (None, 0));
}

#[test]
fn text_at_every_position_is_the_suffix() {
    let src = hello();
    let text = utf16("Hello");
    for p in 0..5u32 {
        let (at, len) = src.get_text_at_position(p);
        assert_eq!(at, Some(&text[p as usize..]));
        assert_eq!(len, 5 - p);
    }
}

#[test]
fn text_at_end_and_past_end_is_empty() {
    let src = hello();
    assert_eq!(src.get_text_at_position(5), (None, 0));
    assert_eq!(src.get_text_at_position(6), (None, 0));
    assert_eq!(src.get_text_at_position(u32::MAX), (None, 0));
}

#[test]
fn text_before_every_position_is_the_prefix() {
    let src = hello();
    let text = utf16("Hello");
    for p in 1..=5u32 {
        let (before, len) = src.get_text_before_position(p);
        assert_eq!(before, Some(&text[..p as usize]));
        assert_eq!(len, p);
    }
}

#[test]
fn text_before_start_and_past_end_is_empty() {
    let src = hello();
    assert_eq!(src.get_text_before_position(0), (None, 0));
    assert_eq!(src.get_text_before_position(6), (None, 0));
}

#[test]
fn empty_text_has_nothing_at_or_before_zero() {
    let policy = FixedPolicy {
        locale: "fr".to_string(),
        run: 0,
        direction: ReadingDirection::TopToBottom,
    };
    let mut src = CustomTextAnalysisSourceImpl::from_text_and_number_subst_native(policy, Vec::new(), None);
    assert_eq!(src.get_text_at_position(0), (None, 0));
    assert_eq!(src.get_text_before_position(0), (None, 0));
    assert_eq!(src.get_number_substitution(0), Err(QueryError::InvalidArg));
}

#[test]
fn number_substitution_counts_a_reference_per_query() {
    let mut src = hello_with_subst();
    assert_eq!(src.number_subst().as_ref().unwrap().refs(), 1);
    assert_eq!(src.get_number_substitution(0), Ok(5));
    assert_eq!(src.number_subst().as_ref().unwrap().refs(), 2);
    assert_eq!(src.get_number_substitution(3), Ok(2));
    assert_eq!(src.get_number_substitution(4), Ok(1));
    assert_eq!(src.number_subst().as_ref().unwrap().refs(), 4);
    let ns = src.number_subst().as_ref().unwrap();
    assert_eq!(ns.locale(), "ar-EG");
    assert_eq!(ns.subst_method(), 0);
    assert!(ns.ignore_user_overrides());
}

#[test]
fn number_substitution_refuses_end_and_beyond() {
    let mut src = hello_with_subst();
    assert_eq!(src.get_number_substitution(5), Err(QueryError::InvalidArg));
    assert_eq!(src.get_number_substitution(100), Err(QueryError::InvalidArg));
    assert_eq!(src.number_subst().as_ref().unwrap().refs(), 1);
}

#[test]
fn number_substitution_absent_gives_rest_length() {
    let mut src = hello();
    assert_eq!(src.get_number_substitution(1), Ok(4));
    assert!(src.number_subst().is_none());
}

#[test]
fn balanced_add_ref_and_release() {
    let mut src = hello();
    assert_eq!(src.refs(), 1);
    for i in 0..10usize {
        assert_eq!(src.add_ref(), i + 2);
    }
    for i in 0..10usize {
        assert_eq!(src.release(), 10 - i);
    }
    assert_eq!(src.refs(), 1);
    assert_eq!(src.release(), 0);
}

#[test]
fn locale_buffer_is_overwritten() {
    let mut src = CustomTextAnalysisSourceImpl::from_text_and_number_subst_native(SplitPolicy, utf16("abc"), None);
    assert_eq!(src.get_locale_name(0), 1);
    assert_eq!(src.locale_buf(), &to_wide_null("zh-Hant-TW")[..]);
    assert_eq!(src.get_locale_name(2), 3);
    assert_eq!(src.locale_buf(), &[100u16, 101, 0][..]);
    assert_eq!(src.get_locale_name(0), 1);
    assert_eq!(src.locale_buf(), &to_wide_null("zh-Hant-TW")[..]);
    assert_eq!(src.get_paragraph_reading_direction(), 1);
}

#[test]
fn store_locale_replaces_buffer() {
    let mut src = hello();
    assert_eq!(src.store_locale("en-GB", 7), 7);
    assert_eq!(src.store_locale("ja", 2), 2);
    assert_eq!(src.locale_buf(), &[106u16, 97, 0][..]);
    assert_eq!(src.store_locale("", 0), 0);
    assert_eq!(src.locale_buf(), &[0u16][..]);
}

#[test]
fn wide_strings() {
    assert_eq!(to_wide_null(""), vec![0u16]);
    assert_eq!(to_wide_null("A"), vec![65u16, 0]);
    assert_eq!(to_wide_null("\u{e9}"), vec![0xE9u16, 0]);
    assert_eq!(to_wide_null("\u{FFFF}"), vec![0xFFFFu16, 0]);
    assert_eq!(to_wide_null("\u{1F600}"), vec![0xD83Du16, 0xDE00, 0]);
    assert_eq!(to_wide_null("\u{10000}"), vec![0xD800u16, 0xDC00, 0]);
    assert_eq!(to_wide_null("\u{10FFFF}"), vec![0xDBFFu16, 0xDFFF, 0]);
    let s = "a\u{1F600}b\u{4E2D}";
    let mut expected: Vec<u16> = s.encode_utf16().collect();
    expected.push(0);
    assert_eq!(to_wide_null(s), expected);
}

#[test]
fn reading_direction_codes() {
    assert_eq!(ReadingDirection::LeftToRight.as_raw(), 0);
    assert_eq!(ReadingDirection::RightToLeft.as_raw(), 1);
    assert_eq!(ReadingDirection::TopToBottom.as_raw(), 2);
    assert_eq!(ReadingDirection::BottomToTop.as_raw(), 3);
}

#[test]
fn handle_from_text() {
    let policy = FixedPolicy {
        locale: "en-US".to_string(),
        run: 3,
        direction: ReadingDirection::LeftToRight,
    };
    let handle = TextAnalysisSource::from_text(policy, utf16("abc"));
    assert_eq!(handle.native().text(), &utf16("abc")[..]);
    assert!(handle.native().number_subst().is_none());
    assert_eq!(handle.native().refs(), 1);
    assert!(handle.native().locale_buf().is_empty());
}

#[test]
fn handle_with_number_subst() {
    let policy = FixedPolicy {
        locale: "ar".to_string(),
        run: 2,
        direction: ReadingDirection::RightToLeft,
    };
    let subst = NumberSubstitution::new(2, "ar", false);
    let handle = TextAnalysisSource::from_text_and_number_subst(policy, utf16("12"), subst);
    let mut native = handle.into_native();
    assert_eq!(native.get_number_substitution(1), Ok(1));
    let ns = native.number_subst().as_ref().unwrap();
    assert_eq!(ns.refs(), 2);
    assert_eq!(ns.subst_method(), 2);
    assert!(!ns.ignore_user_overrides());
}

#[test]
fn take_keeps_the_source() {
    let src = hello();
    let handle = TextAnalysisSource::take(src);
    assert_eq!(handle.native().get_text_at_position(4), (Some(&[111u16][..]), 1));
}

#[test]
fn locale_run_length_is_not_clamped() {
    let mut src = hello();
    assert_eq!(src.get_locale_name(9), 5);
    assert_eq!(src.locale_buf(), &to_wide_null("en-US")[..]);
}

#[test]
fn reading_direction_is_the_policys() {
    for (direction, code) in [
        (ReadingDirection::LeftToRight, 0u32),
        (ReadingDirection::RightToLeft, 1),
        (ReadingDirection::TopToBottom, 2),
        (ReadingDirection::BottomToTop, 3),
    ] {
        let policy = FixedPolicy {
            locale: "en".to_string(),
            run: 1,
            direction,
        };
        let src = CustomTextAnalysisSourceImpl::from_text_and_number_subst_native(policy, utf16("x"), None);
        assert_eq!(src.get_paragraph_reading_direction(), code);
    }
}
