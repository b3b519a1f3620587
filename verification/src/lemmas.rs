//! Laws of the projection layer, proved from the projection contracts alone.

use vstd::prelude::*;

use crate::content::{Page, Section, SectionKey};
use crate::registry::Library;
use crate::ser::{
    basic_fields_match, is_basic_page_view, is_full_page_view, is_full_section_view, tax_view,
    SerializingPage, SerializingSection,
};

verus! {

/// Two page views agree on every field a basic and a full projection share.
pub open spec fn basic_fields_agree(a: SerializingPage, b: SerializingPage) -> bool {
    &&& a.relative_path == b.relative_path
    &&& a.content == b.content
    &&& a.permalink == b.permalink
    &&& a.slug == b.slug
    &&& a.title == b.title
    &&& a.description == b.description
    &&& a.date == b.date
    &&& a.year == b.year
    &&& a.month == b.month
    &&& a.day == b.day
    &&& tax_view(a.taxonomies@) == tax_view(b.taxonomies@)
    &&& a.extra == b.extra
    &&& a.path == b.path
    &&& a.components@ == b.components@
    &&& a.summary == b.summary
    &&& a.word_count == b.word_count
    &&& a.reading_time == b.reading_time
    &&& a.toc@ == b.toc@
    &&& a.assets@ == b.assets@
    &&& a.draft == b.draft
}

/// Two basic page views agree on every field, siblings absent in both.
pub open spec fn basic_views_agree(a: SerializingPage, b: SerializingPage) -> bool {
    &&& basic_fields_agree(a, b)
    &&& a.ancestors@ == b.ancestors@
    &&& a.lighter is None && b.lighter is None
    &&& a.heavier is None && b.heavier is None
    &&& a.earlier is None && b.earlier is None
    &&& a.later is None && b.later is None
}

/// Two embedded sibling views agree: both absent, or both present and equal
/// field for field.
pub open spec fn sibling_views_agree(
    a: Option<Box<SerializingPage>>,
    b: Option<Box<SerializingPage>>,
) -> bool {
    match (a, b) {
        (Option::None, Option::None) => true,
        (Option::Some(x), Option::Some(y)) => basic_views_agree(*x, *y),
        _ => false,
    }
}

/// Two full page views agree on every field.
pub open spec fn page_views_agree(a: SerializingPage, b: SerializingPage) -> bool {
    &&& basic_fields_agree(a, b)
    &&& a.ancestors@ == b.ancestors@
    &&& sibling_views_agree(a.lighter, b.lighter)
    &&& sibling_views_agree(a.heavier, b.heavier)
    &&& sibling_views_agree(a.earlier, b.earlier)
    &&& sibling_views_agree(a.later, b.later)
}

/// Two full section views agree on every field.
pub open spec fn section_views_agree(a: SerializingSection, b: SerializingSection) -> bool {
    &&& a.relative_path == b.relative_path
    &&& a.content == b.content
    &&& a.permalink == b.permalink
    &&& a.title == b.title
    &&& a.description == b.description
    &&& a.extra == b.extra
    &&& a.path == b.path
    &&& a.components@ == b.components@
    &&& a.word_count == b.word_count
    &&& a.reading_time == b.reading_time
    &&& a.toc@ == b.toc@
    &&& a.assets@ == b.assets@
    &&& a.ancestors@ == b.ancestors@
    &&& a.subsections@ == b.subsections@
    &&& a.pages@.len() == b.pages@.len()
    &&& forall|i: int|
        0 <= i < a.pages@.len() ==> page_views_agree(#[trigger] a.pages@[i], b.pages@[i])
}

/// Determinism: projection is a pure function of the record and the registry,
/// so two full page views of the same unmodified inputs agree on every field.
pub proof fn lemma_page_projection_deterministic(
    a: SerializingPage,
    b: SerializingPage,
    p: Page,
    lib: Library,
)
    requires
        is_full_page_view(a, p, lib),
        is_full_page_view(b, p, lib),
    ensures
        page_views_agree(a, b),
{
}

/// Determinism for sections: two full section views of the same record and
/// registry agree on every field, child page views included.
pub proof fn lemma_section_projection_deterministic(
    a: SerializingSection,
    b: SerializingSection,
    s: Section,
    lib: Library,
)
    requires
        is_full_section_view(a, s, lib),
        is_full_section_view(b, s, lib),
    ensures
        section_views_agree(a, b),
{
    assert forall|i: int| 0 <= i < a.pages@.len() implies page_views_agree(
        #[trigger] a.pages@[i],
        b.pages@[i],
    ) by {
        lemma_page_projection_deterministic(
            a.pages@[i],
            b.pages@[i],
            lib.pages@[s.pages@[i].0 as int],
            lib,
        );
    }
}

/// Depth bound for page siblings: every sibling embedded in a full page view
/// is a basic view, so its own four sibling fields are absent. In particular
/// a two-cycle of `lighter` links cannot expand beyond one hop.
pub proof fn lemma_sibling_not_expanded(r: SerializingPage, p: Page, lib: Library)
    requires
        is_full_page_view(r, p, lib),
        p.lighter is Some,
    ensures
        r.lighter matches Some(q) && q.lighter is None && q.heavier is None && q.earlier is None
            && q.later is None,
{
}

/// Depth bound for sections: each subsection of a full section view is the
/// referenced section's path string, never an expanded view, however large
/// the subtree below that subsection is.
pub proof fn lemma_subsection_is_path_only(r: SerializingSection, s: Section, lib: Library, i: int)
    requires
        is_full_section_view(r, s, lib),
        0 <= i < s.subsections@.len(),
    ensures
        r.subsections@[i] == lib.sections@[s.subsections@[i].0 as int].relative_path,
{
}

/// Ancestor ordering: for a page under root section `a1` and child section
/// `a2`, the full view lists the two section paths in root-to-parent order,
/// and a basic view taken without a registry has no ancestors at all.
pub proof fn lemma_ancestor_ordering(
    rf: SerializingPage,
    rb: SerializingPage,
    p: Page,
    lib: Library,
    a1: SectionKey,
    a2: SectionKey,
)
    requires
        p.ancestors@ == seq![a1, a2],
        is_full_page_view(rf, p, lib),
        is_basic_page_view(rb, p, Seq::<String>::empty()),
    ensures
        rf.ancestors@ == seq![
            lib.sections@[a1.0 as int].relative_path,
            lib.sections@[a2.0 as int].relative_path,
        ],
        rb.ancestors@.len() == 0,
{
    assert(rf.ancestors@ =~= seq![
        lib.sections@[a1.0 as int].relative_path,
        lib.sections@[a2.0 as int].relative_path,
    ]);
}

/// Field parity: a full and a basic projection of the same page record agree
/// on every field other than `ancestors` and the four sibling fields.
pub proof fn lemma_full_basic_field_parity(
    rf: SerializingPage,
    rb: SerializingPage,
    p: Page,
    lib: Library,
    anc: Seq<String>,
)
    requires
        is_full_page_view(rf, p, lib),
        is_basic_page_view(rb, p, anc),
    ensures
        basic_fields_agree(rf, rb),
{
}

/// Section child counts: a full section view holds one embedded page view
/// per child page key and one path string per subsection key.
pub proof fn lemma_section_child_counts(r: SerializingSection, s: Section, lib: Library)
    requires
        is_full_section_view(r, s, lib),
    ensures
        r.pages@.len() == s.pages@.len(),
        r.subsections@.len() == s.subsections@.len(),
{
}

/// Missing optional date: a page without a date projects `year`, `month` and
/// `day` all absent, in basic and full views alike.
pub proof fn lemma_no_date_no_parts(r: SerializingPage, p: Page)
    requires
        basic_fields_match(r, p),
        p.datetime_tuple is None,
    ensures
        r.year is None,
        r.month is None,
        r.day is None,
{
}

} // verus!
