//! The registry: the single arena owning every page and section record.
//!
//! Keys are indices into the two arenas, so a key is valid exactly when it is
//! in range. A well-formed registry (see [`Library::wf`]) contains no
//! dangling keys: every cross-reference held by a stored record resolves.
//! Establishing that invariant is the upstream loader's job; the projection
//! layer only relies on it.

use vstd::prelude::*;

use crate::content::{Page, PageKey, Section, SectionKey};

verus! {

pub struct Library {
    pub pages: Vec<Page>,
    pub sections: Vec<Section>,
}

impl Library {
    /// A page key resolves in this registry.
    pub open spec fn valid_page_key(self, k: PageKey) -> bool {
        k.0 < self.pages.len()
    }

    /// A section key resolves in this registry.
    pub open spec fn valid_section_key(self, k: SectionKey) -> bool {
        k.0 < self.sections.len()
    }

    /// Every key of an ancestor chain resolves in this registry.
    pub open spec fn ancestors_ok(self, ancestors: Seq<SectionKey>) -> bool {
        forall|i: int| 0 <= i < ancestors.len() ==> self.valid_section_key(#[trigger] ancestors[i])
    }

    /// Every cross-reference held by `p` resolves in this registry.
    pub open spec fn page_ok(self, p: Page) -> bool {
        &&& self.ancestors_ok(p.ancestors@)
        &&& (p.lighter matches Some(k) ==> self.valid_page_key(k))
        &&& (p.heavier matches Some(k) ==> self.valid_page_key(k))
        &&& (p.earlier matches Some(k) ==> self.valid_page_key(k))
        &&& (p.later matches Some(k) ==> self.valid_page_key(k))
    }

    /// Every cross-reference held by `s` resolves in this registry.
    pub open spec fn section_ok(self, s: Section) -> bool {
        &&& self.ancestors_ok(s.ancestors@)
        &&& forall|i: int| 0 <= i < s.pages@.len() ==> self.valid_page_key(#[trigger] s.pages@[i])
        &&& forall|i: int|
            0 <= i < s.subsections@.len() ==> self.valid_section_key(#[trigger] s.subsections@[i])
    }

    /// The registry is closed: no stored record holds a dangling key.
    pub open spec fn wf(self) -> bool {
        &&& forall|i: int| 0 <= i < self.pages@.len() ==> self.page_ok(#[trigger] self.pages@[i])
        &&& forall|i: int|
            0 <= i < self.sections@.len() ==> self.section_ok(#[trigger] self.sections@[i])
    }

    /// Resolve a page key. A dangling key is an invariant violation of the
    /// upstream graph and is ruled out by the precondition.
    pub fn get_page_by_key(&self, key: PageKey) -> (r: &Page)
        requires
            self.valid_page_key(key),
        ensures
            *r == self.pages@[key.0 as int],
    {
        &self.pages[key.0]
    }

    /// Resolve a section key. Same contract as page resolution.
    pub fn get_section_by_key(&self, key: SectionKey) -> (r: &Section)
        requires
            self.valid_section_key(key),
        ensures
            *r == self.sections@[key.0 as int],
    {
        &self.sections[key.0]
    }

    /// Resolve a section key to the section's relative path alone, without
    /// materializing a view of it.
    pub fn get_section_path_by_key(&self, key: SectionKey) -> (r: String)
        requires
            self.valid_section_key(key),
        ensures
            r == self.sections@[key.0 as int].relative_path,
    {
        self.sections[key.0].relative_path.clone()
    }

    /// Every page of the site, in arena order.
    pub fn pages(&self) -> (r: &Vec<Page>)
        ensures
            r == &self.pages,
    {
        &self.pages
    }
}

} // verus!
