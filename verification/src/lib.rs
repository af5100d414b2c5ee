//! Citum core: the CSLN style schema (templates, options, presets, references,
//! locale terms) and the CSL 1.0 migration passes that compile legacy node
//! trees into CSLN templates.

pub mod citation;
pub mod bibliography_analysis;
pub mod citation_analysis;
pub mod compressor;
pub mod debug_output;
pub mod embedded;
pub mod grouping;
pub mod legacy;
pub mod locale;
pub mod migration;
pub mod preset_detector;
pub mod presets;
pub mod provenance;
pub mod reference;
pub mod sorting;
pub mod options;
pub mod passes;
pub mod template;
pub mod template_checks;
pub mod template_compiler;
pub mod template_resolver;
pub mod template_view;
pub mod text;
pub mod vecs;
pub mod xml;
