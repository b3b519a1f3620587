//! What we are sending to the templates when rendering them.
//!
//! A *full* projection resolves one hop of relations: a page's siblings are
//! embedded as *basic* views (whose own sibling fields are always absent) and
//! a section's child pages are embedded as full page views, while its
//! subsections are reduced to their path strings. Together the two modes
//! bound the expansion depth, so projection terminates even when the sibling
//! graph contains cycles.

use vstd::prelude::*;

use crate::content::{Header, Page, PageKey, Section, SectionKey};
use crate::extra::clone_extra;
use crate::registry::Library;

verus! {

/// A detached, renderer-facing snapshot of a page.
#[derive(Debug)]
pub struct SerializingPage {
    pub relative_path: String,
    pub content: String,
    pub permalink: String,
    pub slug: String,
    /// Ancestor section paths, from the root to the immediate parent.
    pub ancestors: Vec<String>,
    pub title: Option<String>,
    pub description: Option<String>,
    pub date: Option<String>,
    pub year: Option<i32>,
    pub month: Option<u32>,
    pub day: Option<u32>,
    pub taxonomies: Vec<(String, Vec<String>)>,
    pub extra: tera::Map<String, tera::Value>,
    pub path: String,
    pub components: Vec<String>,
    pub summary: Option<String>,
    pub word_count: Option<usize>,
    pub reading_time: Option<usize>,
    pub toc: Vec<Header>,
    pub assets: Vec<String>,
    pub draft: bool,
    pub lighter: Option<Box<SerializingPage>>,
    pub heavier: Option<Box<SerializingPage>>,
    pub earlier: Option<Box<SerializingPage>>,
    pub later: Option<Box<SerializingPage>>,
}

/// A detached, renderer-facing snapshot of a section.
#[derive(Debug)]
pub struct SerializingSection {
    pub relative_path: String,
    pub content: String,
    pub permalink: String,
    /// Ancestor section paths, from the root to the immediate parent.
    pub ancestors: Vec<String>,
    pub title: Option<String>,
    pub description: Option<String>,
    pub extra: tera::Map<String, tera::Value>,
    pub path: String,
    pub components: Vec<String>,
    pub word_count: Option<usize>,
    pub reading_time: Option<usize>,
    pub toc: Vec<Header>,
    pub assets: Vec<String>,
    /// Child pages, each a full page view.
    pub pages: Vec<SerializingPage>,
    /// Child sections, each reduced to its relative path.
    pub subsections: Vec<String>,
}

/// The year component of a decomposed date, if one was set.
pub open spec fn year_of(d: Option<(i32, u32, u32)>) -> Option<i32> {
    match d {
        Some(t) => Some(t.0),
        None => None,
    }
}

/// The month component of a decomposed date, if one was set.
pub open spec fn month_of(d: Option<(i32, u32, u32)>) -> Option<u32> {
    match d {
        Some(t) => Some(t.1),
        None => None,
    }
}

/// The day component of a decomposed date, if one was set.
pub open spec fn day_of(d: Option<(i32, u32, u32)>) -> Option<u32> {
    match d {
        Some(t) => Some(t.2),
        None => None,
    }
}

/// Taxonomies with the term lists abstracted to sequences, so that two
/// taxonomy tables can be compared by contents.
pub open spec fn tax_view(t: Seq<(String, Vec<String>)>) -> Seq<(String, Seq<String>)> {
    t.map_values(|kv: (String, Vec<String>)| (kv.0, kv.1@))
}

/// The ancestor keys resolved to their sections' relative paths, order kept.
pub open spec fn section_paths(keys: Seq<SectionKey>, lib: Library) -> Seq<String> {
    keys.map_values(|k: SectionKey| lib.sections@[k.0 as int].relative_path)
}

/// The fields a basic and a full page projection share, each pinned verbatim
/// to the projected record.
pub open spec fn basic_fields_match(r: SerializingPage, p: Page) -> bool {
    &&& r.relative_path == p.relative_path
    &&& r.content == p.content
    &&& r.permalink == p.permalink
    &&& r.slug == p.slug
    &&& r.title == p.title
    &&& r.description == p.description
    &&& r.date == p.date
    &&& r.year == year_of(p.datetime_tuple)
    &&& r.month == month_of(p.datetime_tuple)
    &&& r.day == day_of(p.datetime_tuple)
    &&& tax_view(r.taxonomies@) == tax_view(p.taxonomies@)
    &&& r.extra == p.extra
    &&& r.path == p.path
    &&& r.components@ == p.components@
    &&& r.summary == p.summary
    &&& r.word_count == p.word_count
    &&& r.reading_time == p.reading_time
    &&& r.toc@ == p.toc@
    &&& r.assets@ == p.serialized_assets@
    &&& r.draft == p.draft
}

/// `r` is the basic view of `p` with ancestor paths `anc`: all shared fields
/// verbatim, sibling views absent.
pub open spec fn is_basic_page_view(r: SerializingPage, p: Page, anc: Seq<String>) -> bool {
    &&& basic_fields_match(r, p)
    &&& r.ancestors@ == anc
    &&& r.lighter is None
    &&& r.heavier is None
    &&& r.earlier is None
    &&& r.later is None
}

/// An embedded sibling view is present exactly when the sibling key is, and
/// is then the basic view of the referenced page with its ancestors resolved.
pub open spec fn sibling_view_matches(
    v: Option<Box<SerializingPage>>,
    k: Option<PageKey>,
    lib: Library,
) -> bool {
    match k {
        None => v is None,
        Some(key) => v matches Some(b) && is_basic_page_view(
            *b,
            lib.pages@[key.0 as int],
            section_paths(lib.pages@[key.0 as int].ancestors@, lib),
        ),
    }
}

/// `r` is the full view of `p` against registry `lib`: all shared fields
/// verbatim, ancestors resolved, each set sibling embedded as a basic view.
pub open spec fn is_full_page_view(r: SerializingPage, p: Page, lib: Library) -> bool {
    &&& basic_fields_match(r, p)
    &&& r.ancestors@ == section_paths(p.ancestors@, lib)
    &&& sibling_view_matches(r.lighter, p.lighter, lib)
    &&& sibling_view_matches(r.heavier, p.heavier, lib)
    &&& sibling_view_matches(r.earlier, p.earlier, lib)
    &&& sibling_view_matches(r.later, p.later, lib)
}

/// The fields a basic and a full section projection share, each pinned
/// verbatim to the projected record.
pub open spec fn section_fields_match(r: SerializingSection, s: Section) -> bool {
    &&& r.relative_path == s.relative_path
    &&& r.content == s.content
    &&& r.permalink == s.permalink
    &&& r.title == s.title
    &&& r.description == s.description
    &&& r.extra == s.extra
    &&& r.path == s.path
    &&& r.components@ == s.components@
    &&& r.word_count == s.word_count
    &&& r.reading_time == s.reading_time
    &&& r.toc@ == s.toc@
    &&& r.assets@ == s.serialized_assets@
}

/// `r` is the basic view of `s` with ancestor paths `anc`: all shared fields
/// verbatim, no child pages, no subsections.
pub open spec fn is_basic_section_view(r: SerializingSection, s: Section, anc: Seq<String>) -> bool {
    &&& section_fields_match(r, s)
    &&& r.ancestors@ == anc
    &&& r.pages@.len() == 0
    &&& r.subsections@.len() == 0
}

/// `r` is the full view of `s` against registry `lib`: all shared fields
/// verbatim, ancestors resolved, every child page embedded as a full page
/// view, every subsection reduced to its path string.
pub open spec fn is_full_section_view(r: SerializingSection, s: Section, lib: Library) -> bool {
    &&& section_fields_match(r, s)
    &&& r.ancestors@ == section_paths(s.ancestors@, lib)
    &&& r.pages@.len() == s.pages@.len()
    &&& forall|i: int|
        0 <= i < s.pages@.len() ==> is_full_page_view(
            #[trigger] r.pages@[i],
            lib.pages@[s.pages@[i].0 as int],
            lib,
        )
    &&& r.subsections@ == section_paths(s.subsections@, lib)
}

fn clone_string_vec(v: &Vec<String>) -> (r: Vec<String>)
    ensures
        r@ == v@,
{
    let r = v.clone();
    proof {
        assert(r@ =~= v@);
    }
    r
}

fn clone_opt_string(o: &Option<String>) -> (r: Option<String>)
    ensures
        r == *o,
{
    match o {
        Some(s) => Some(s.clone()),
        None => None,
    }
}

fn clone_header(h: &Header) -> (r: Header)
    ensures
        r == *h,
{
    Header {
        level: h.level,
        id: h.id.clone(),
        permalink: h.permalink.clone(),
        title: h.title.clone(),
    }
}

fn clone_headers(v: &Vec<Header>) -> (r: Vec<Header>)
    ensures
        r@ == v@,
{
    let mut r: Vec<Header> = Vec::new();
    let mut i: usize = 0;
    while i < v.len()
        invariant
            i <= v.len(),
            r@.len() == i as int,
            forall|j: int| 0 <= j < i ==> #[trigger] r@[j] == v@[j],
        decreases v.len() - i,
    {
        r.push(clone_header(&v[i]));
        i += 1;
    }
    proof {
        assert(r@ =~= v@);
    }
    r
}

fn clone_taxonomies(v: &Vec<(String, Vec<String>)>) -> (r: Vec<(String, Vec<String>)>)
    ensures
        tax_view(r@) == tax_view(v@),
{
    let mut r: Vec<(String, Vec<String>)> = Vec::new();
    let mut i: usize = 0;
    while i < v.len()
        invariant
            i <= v.len(),
            r@.len() == i as int,
            forall|j: int|
                0 <= j < i ==> (#[trigger] r@[j]).0 == v@[j].0 && r@[j].1@ == v@[j].1@,
        decreases v.len() - i,
    {
        let name = v[i].0.clone();
        let terms = clone_string_vec(&v[i].1);
        r.push((name, terms));
        i += 1;
    }
    proof {
        assert(tax_view(r@) =~= tax_view(v@));
    }
    r
}

/// Resolve an ancestor chain to the referenced sections' relative paths,
/// preserving the root-to-parent order.
fn resolve_ancestors(keys: &Vec<SectionKey>, library: &Library) -> (r: Vec<String>)
    requires
        library.ancestors_ok(keys@),
    ensures
        r@ == section_paths(keys@, *library),
{
    let mut r: Vec<String> = Vec::new();
    let mut i: usize = 0;
    while i < keys.len()
        invariant
            i <= keys.len(),
            library.ancestors_ok(keys@),
            r@.len() == i as int,
            forall|j: int|
                0 <= j < i ==> #[trigger] r@[j] == library.sections@[keys@[j].0 as int].relative_path,
        decreases keys.len() - i,
    {
        r.push(library.get_section_path_by_key(keys[i]));
        i += 1;
    }
    proof {
        assert(r@ =~= section_paths(keys@, *library));
    }
    r
}

/// Resolve an optional sibling key to an embedded basic view of the sibling.
fn resolve_sibling(key: Option<PageKey>, library: &Library) -> (r: Option<Box<SerializingPage>>)
    requires
        library.wf(),
        key matches Some(k) ==> library.valid_page_key(k),
    ensures
        sibling_view_matches(r, key, *library),
{
    match key {
        Some(k) => {
            let sibling = library.get_page_by_key(k);
            proof {
                assert(library.page_ok(library.pages@[k.0 as int]));
            }
            Some(Box::new(SerializingPage::from_page_basic(sibling, Some(library))))
        },
        None => None,
    }
}

impl SerializingPage {
    /// Grabs all the data from a page, including sibling pages embedded as
    /// basic views: a sibling's own siblings are never expanded, so
    /// projection terminates in one hop however the sibling graph is linked.
    pub fn from_page(page: &Page, library: &Library) -> (r: SerializingPage)
        requires
            library.wf(),
            library.page_ok(*page),
        ensures
            is_full_page_view(r, *page, *library),
    {
        let mut view = Self::from_page_basic(page, Some(library));
        view.lighter = resolve_sibling(page.lighter, library);
        view.heavier = resolve_sibling(page.heavier, library);
        view.earlier = resolve_sibling(page.earlier, library);
        view.later = resolve_sibling(page.later, library);
        view
    }

    /// Same as `from_page` but does not fill sibling pages; ancestor paths
    /// are resolved exactly when a registry is supplied.
    pub fn from_page_basic(page: &Page, library: Option<&Library>) -> (r: SerializingPage)
        requires
            library matches Some(lib) ==> lib.ancestors_ok(page.ancestors@),
        ensures
            match library {
                Some(lib) => is_basic_page_view(r, *page, section_paths(page.ancestors@, *lib)),
                None => is_basic_page_view(r, *page, Seq::<String>::empty()),
            },
    {
        let ymd: (Option<i32>, Option<u32>, Option<u32>) = match page.datetime_tuple {
            Some(d) => (Some(d.0), Some(d.1), Some(d.2)),
            None => (None, None, None),
        };
        let ancestors: Vec<String> = match library {
            Some(lib) => resolve_ancestors(&page.ancestors, lib),
            None => Vec::new(),
        };
        SerializingPage {
            relative_path: page.relative_path.clone(),
            ancestors,
            content: page.content.clone(),
            permalink: page.permalink.clone(),
            slug: page.slug.clone(),
            title: clone_opt_string(&page.title),
            description: clone_opt_string(&page.description),
            extra: clone_extra(&page.extra),
            date: clone_opt_string(&page.date),
            year: ymd.0,
            month: ymd.1,
            day: ymd.2,
            taxonomies: clone_taxonomies(&page.taxonomies),
            path: page.path.clone(),
            components: clone_string_vec(&page.components),
            summary: clone_opt_string(&page.summary),
            word_count: page.word_count,
            reading_time: page.reading_time,
            toc: clone_headers(&page.toc),
            assets: clone_string_vec(&page.serialized_assets),
            draft: page.is_draft(),
            lighter: None,
            heavier: None,
            earlier: None,
            later: None,
        }
    }
}

impl SerializingSection {
    /// Grabs all the data from a section: child pages are embedded as full
    /// page views, subsections are reduced to their path strings, so the
    /// section side of the graph is never expanded more than one level.
    pub fn from_section(section: &Section, library: &Library) -> (r: SerializingSection)
        requires
            library.wf(),
            library.section_ok(*section),
        ensures
            is_full_section_view(r, *section, *library),
    {
        let mut pages: Vec<SerializingPage> = Vec::new();
        let mut i: usize = 0;
        while i < section.pages.len()
            invariant
                library.wf(),
                library.section_ok(*section),
                i <= section.pages.len(),
                pages@.len() == i as int,
                forall|j: int|
                    0 <= j < i ==> is_full_page_view(
                        #[trigger] pages@[j],
                        library.pages@[section.pages@[j].0 as int],
                        *library,
                    ),
            decreases section.pages.len() - i,
        {
            let page = library.get_page_by_key(section.pages[i]);
            proof {
                assert(library.page_ok(library.pages@[section.pages@[i as int].0 as int]));
            }
            pages.push(SerializingPage::from_page(page, library));
            i += 1;
        }
        let mut subsections: Vec<String> = Vec::new();
        let mut i: usize = 0;
        while i < section.subsections.len()
            invariant
                library.section_ok(*section),
                i <= section.subsections.len(),
                subsections@.len() == i as int,
                forall|j: int|
                    0 <= j < i ==> #[trigger] subsections@[j]
                        == library.sections@[section.subsections@[j].0 as int].relative_path,
            decreases section.subsections.len() - i,
        {
            subsections.push(library.get_section_path_by_key(section.subsections[i]));
            i += 1;
        }
        proof {
            assert(subsections@ =~= section_paths(section.subsections@, *library));
        }
        let ancestors = resolve_ancestors(&section.ancestors, library);
        SerializingSection {
            relative_path: section.relative_path.clone(),
            ancestors,
            content: section.content.clone(),
            permalink: section.permalink.clone(),
            title: clone_opt_string(&section.title),
            description: clone_opt_string(&section.description),
            extra: clone_extra(&section.extra),
            path: section.path.clone(),
            components: clone_string_vec(&section.components),
            word_count: section.word_count,
            reading_time: section.reading_time,
            toc: clone_headers(&section.toc),
            assets: clone_string_vec(&section.serialized_assets),
            pages,
            subsections,
        }
    }

    /// Same as `from_section` but doesn't fetch pages and subsections;
    /// ancestor paths are resolved exactly when a registry is supplied.
    pub fn from_section_basic(section: &Section, library: Option<&Library>) -> (r:
        SerializingSection)
        requires
            library matches Some(lib) ==> lib.ancestors_ok(section.ancestors@),
        ensures
            match library {
                Some(lib) => is_basic_section_view(
                    r,
                    *section,
                    section_paths(section.ancestors@, *lib),
                ),
                None => is_basic_section_view(r, *section, Seq::<String>::empty()),
            },
    {
        let ancestors: Vec<String> = match library {
            Some(lib) => resolve_ancestors(&section.ancestors, lib),
            None => Vec::new(),
        };
        SerializingSection {
            relative_path: section.relative_path.clone(),
            ancestors,
            content: section.content.clone(),
            permalink: section.permalink.clone(),
            title: clone_opt_string(&section.title),
            description: clone_opt_string(&section.description),
            extra: clone_extra(&section.extra),
            path: section.path.clone(),
            components: clone_string_vec(&section.components),
            word_count: section.word_count,
            reading_time: section.reading_time,
            toc: clone_headers(&section.toc),
            assets: clone_string_vec(&section.serialized_assets),
            pages: Vec::new(),
            subsections: Vec::new(),
        }
    }
}

} // verus!
