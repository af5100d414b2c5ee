//! Embedded styles: the names of the built-in styles and their aliases, and
//! the priority templates of common citation styles.

pub mod apa;
pub mod chicago;
pub mod harvard;
pub mod numeric;
pub mod parts;
pub mod styles;
pub mod vancouver;

pub use apa::bibliography as apa_bibliography;
pub use apa::citation as apa_citation;
pub use chicago::author_date_bibliography as chicago_author_date_bibliography;
pub use chicago::author_date_citation as chicago_author_date_citation;
pub use harvard::bibliography as harvard_bibliography;
pub use harvard::citation as harvard_citation;
pub use numeric::citation as numeric_citation;
pub use styles::resolve_embedded_style_name;
pub use vancouver::bibliography as vancouver_bibliography;
pub use vancouver::citation as vancouver_citation;
