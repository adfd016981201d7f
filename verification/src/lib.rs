//! The catalog of PyPI trove classifiers: a fixed, versioned set of tag
//! strings, one symbolic `Classifier` value per tag, with verified exact
//! parsing, canonical rendering, and decomposition of a tag into its
//! hierarchical segments.

mod catalog;
mod laws;
mod lexord;
mod parse;
mod rank;
mod render;
mod segments;
mod strcmp;
mod tag_order;
mod tag_order_facts_a;
mod tag_order_facts_b;
mod tag_order_facts_c;
mod tag_order_facts_d;
mod tag_order_facts_e;
mod tag_order_facts_f;
mod tag_order_facts_g;

pub use catalog::CLASSIFIER_COUNT;
pub use catalog::Classifier;
pub use catalog::PYPA_VERSION;
pub use parse::UnknownTag;
pub use tag_order::lemma_tag_injective;
pub use segments::split_spec;
pub use segments::join_spec;
pub use segments::lemma_join_split;
pub use segments::lemma_segments_compose;
pub use segments::lemma_split_segments_delim_free;
pub use segments::split_tag;
pub use segments::delimiter;
pub use laws::parse_spec;
pub use laws::lemma_parse_render_round_trip;
pub use laws::lemma_parse_exact;
pub use laws::lemma_version_label_nonempty;
