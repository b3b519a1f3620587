//! The content records: pages (leaves) and sections (branches), plus the
//! stable keys through which they reference one another.
//!
//! Records are built once by the upstream loading phase and treated as
//! immutable here; every cross-reference is a key into the registry, never a
//! direct owning reference, which lets mutual links (two pages naming each
//! other as siblings) exist without ownership cycles.

use vstd::prelude::*;

verus! {

/// Stable key of a `Page` in the registry's page arena.
#[derive(Clone, Copy, PartialEq, Eq, Structural, Debug)]
pub struct PageKey(pub usize);

/// Stable key of a `Section` in the registry's section arena.
#[derive(Clone, Copy, PartialEq, Eq, Structural, Debug)]
pub struct SectionKey(pub usize);

/// One entry of a page's or section's table of contents.
#[derive(Debug)]
pub struct Header {
    pub level: u32,
    pub id: String,
    pub permalink: String,
    pub title: String,
}

/// A content leaf. Scalar metadata and derived fields are produced upstream;
/// the four sibling fields and `ancestors` are keys into the registry.
#[derive(Debug)]
pub struct Page {
    /// Path of the source file, relative to the content directory.
    pub relative_path: String,
    /// Rendered body.
    pub content: String,
    pub permalink: String,
    pub slug: String,
    /// Enclosing section keys, ordered from the root to the immediate parent.
    pub ancestors: Vec<SectionKey>,
    pub title: Option<String>,
    pub description: Option<String>,
    /// Date as written in the front matter, if any.
    pub date: Option<String>,
    /// The date decomposed as (year, month, day), if a date was set.
    pub datetime_tuple: Option<(i32, u32, u32)>,
    /// Taxonomy name mapped to the page's term names, in loading order.
    pub taxonomies: Vec<(String, Vec<String>)>,
    /// Open-ended extra metadata, carried through verbatim.
    pub extra: tera::Map<String, tera::Value>,
    /// Logical path of the page on the site.
    pub path: String,
    pub components: Vec<String>,
    pub summary: Option<String>,
    pub word_count: Option<usize>,
    pub reading_time: Option<usize>,
    /// Table of contents, in document order.
    pub toc: Vec<Header>,
    /// File names of the assets colocated with the page.
    pub serialized_assets: Vec<String>,
    pub draft: bool,
    /// Previous page by weight, if any.
    pub lighter: Option<PageKey>,
    /// Next page by weight, if any.
    pub heavier: Option<PageKey>,
    /// Previous page by date, if any.
    pub earlier: Option<PageKey>,
    /// Next page by date, if any.
    pub later: Option<PageKey>,
}

impl Page {
    pub fn is_draft(&self) -> (r: bool)
        ensures
            r == self.draft,
    {
        self.draft
    }
}

/// A content branch. Child pages and subsections are referenced by key.
#[derive(Debug)]
pub struct Section {
    /// Path of the source file, relative to the content directory.
    pub relative_path: String,
    /// Rendered body.
    pub content: String,
    pub permalink: String,
    /// Enclosing section keys, ordered from the root to the immediate parent.
    pub ancestors: Vec<SectionKey>,
    pub title: Option<String>,
    pub description: Option<String>,
    /// Open-ended extra metadata, carried through verbatim.
    pub extra: tera::Map<String, tera::Value>,
    /// Logical path of the section on the site.
    pub path: String,
    pub components: Vec<String>,
    pub word_count: Option<usize>,
    pub reading_time: Option<usize>,
    /// Table of contents, in document order.
    pub toc: Vec<Header>,
    /// File names of the assets colocated with the section.
    pub serialized_assets: Vec<String>,
    /// Keys of the pages directly under this section.
    pub pages: Vec<PageKey>,
    /// Keys of the sections directly under this section.
    pub subsections: Vec<SectionKey>,
}

} // verus!
