//! Unicode text segmentation: grapheme-cluster and sentence boundaries
//! following the rules of Unicode Standard Annex #29.
//!
//! The byte-position model of UTF-8 text lives in [`textpos`]; the
//! character-property tables in [`tables`]; the declarative boundary
//! specification and its laws in [`boundary`]; the grapheme iterators and the
//! resumable [`grapheme::GraphemeCursor`] in [`grapheme`]; the sentence
//! segmenter in [`sentence`].

pub mod boundary;
pub mod grapheme;
pub mod sentence;
pub mod str_ref;
pub mod tables;
pub mod textpos;

pub use grapheme::GraphemeCursor;
pub use grapheme::GraphemeIncomplete;
pub use grapheme::GraphemeIndices;
pub use grapheme::Graphemes;
pub use grapheme::new_grapheme_indices;
pub use grapheme::new_graphemes;
pub use sentence::SentenceBreaks;
pub use sentence::USentenceBounds;
pub use sentence::new_sentence_breaks;
pub use str_ref::StrRef;
pub use sentence::new_sentence_bounds;
