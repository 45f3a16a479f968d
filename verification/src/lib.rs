//! Analysis of Portable Executable images whose files carry junk bytes
//! appended past the last declared section.
//!
//! The crate has two independent parts: a trailing-data truncator, which
//! computes the true end of the image from its section table and slices the
//! buffer there, and a resource accountant, which walks the embedded
//! resource-directory tree and sums the declared sizes of its data entries.


mod error;
mod pe;
mod rsrc;
mod sections;
mod text;

pub use error::{RsrcError, TruncError};
pub use pe::{
    RsrcReport, analyze_rsrc, parse_pe_sections, pe64_manifest, pe64_parse_ok, pe64_resource_root,
    pe64_resources_ok, pe64_sections, spec_read_forest, strip_junk_at_end,
};
pub use rsrc::{
    MAX_RESOURCE_DEPTH, ResourceNode, forest_fits, forest_total, lemma_directory_total_additive,
    lemma_forest_depth_bounded_fits, lemma_forest_no_leaves_total_zero, lemma_forest_total_concat,
    lemma_node_depth_bounded_fits, lemma_node_no_leaves_total_zero, node_fits, node_total,
    render_tree, resource_total, spec_forest_depth, spec_forest_fits, spec_forest_leaves,
    spec_forest_total, spec_node_depth, spec_node_fits, spec_node_leaves, spec_node_line,
    spec_node_total, spec_render_forest, spec_render_node,
};
pub use sections::{
    Section, SectionModel, find_rsrc_section, lemma_max_end_attained, lemma_max_end_ge,
    lemma_max_end_order_independent, lemma_noop_is_reported, lemma_truncate_order_independent,
    lemma_truncate_shrinks, max_section_end, section_models, section_report, spec_find_named,
    spec_max_end, spec_section_line, spec_truncate, truncate_sections,
};
pub use text::{
    get_tab_str_from_level, lines_model, spec_dec, spec_digit_char, spec_tab, u64_to_string,
};
