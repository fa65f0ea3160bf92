//! A text analysis source for a DirectWrite-style shaping engine: the engine pulls
//! text, locale names, reading direction and number substitution from it by position.

pub mod text_analysis_source;
pub mod text_analysis_source_impl;
pub mod wide;

pub use text_analysis_source::TextAnalysisSource;
pub use text_analysis_source_impl::{
    CustomTextAnalysisSourceImpl,
    NumberSubstitution,
    QueryError,
    ReadingDirection,
    TextAnalysisSourceMethods,
    MAX_TEXT_LEN,
};
pub use wide::to_wide_null;
