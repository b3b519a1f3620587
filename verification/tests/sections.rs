use library::content::{Page, PageKey, Section, SectionKey};
use library::registry::Library;
use library::ser::SerializingSection;

fn plain_page(relative_path: &str) -> Page {
    Page {
        relative_path: relative_path.to_string(),
        content: String::new(),
        permalink: String::new(),
        slug: String::new(),
        ancestors: Vec::new(),
        title: None,
        description: None,
        date: None,
        datetime_tuple: None,
        taxonomies: Vec::new(),
        extra: tera::Map::new(),
        path: String::new(),
        components: Vec::new(),
        summary: None,
        word_count: None,
        reading_time: None,
        toc: Vec::new(),
        serialized_assets: Vec::new(),
        draft: false,
        lighter: None,
        heavier: None,
        earlier: None,
        later: None,
    }
}

fn plain_section(relative_path: &str) -> Section {
    Section {
        relative_path: relative_path.to_string(),
        content: String::new(),
        permalink: String::new(),
        ancestors: Vec::new(),
        title: None,
        description: None,
        extra: tera::Map::new(),
        path: String::new(),
        components: Vec::new(),
        word_count: None,
        reading_time: None,
        toc: Vec::new(),
        serialized_assets: Vec::new(),
        pages: Vec::new(),
        subsections: Vec::new(),
    }
}

#[test]
fn section_view_counts_children() {
    let mut s = plain_section("blog/_index.md");
    s.pages = vec![PageKey(0), PageKey(1), PageKey(2)];
    s.subsections = vec![SectionKey(1), SectionKey(2)];
    let lib = Library {
        pages: vec![plain_page("a.md"), plain_page("b.md"), plain_page("c.md")],
        sections: vec![
            plain_section("blog/_index.md"),
            plain_section("blog/2018/_index.md"),
            plain_section("blog/2019/_index.md"),
        ],
    };
    let view = SerializingSection::from_section(&s, &lib);
    assert_eq!(view.pages.len(), 3);
    assert_eq!(view.subsections.len(), 2);
    assert_eq!(view.pages[0].relative_path, "a.md");
    assert_eq!(view.pages[1].relative_path, "b.md");
    assert_eq!(view.pages[2].relative_path, "c.md");
}

#[test]
fn subsections_are_path_strings_not_views() {
    // The subsection has child pages of its own; the parent's view still
    // holds only its path string.
    let mut sub = plain_section("docs/guide/_index.md");
    sub.pages = vec![PageKey(0), PageKey(1)];
    let mut top = plain_section("docs/_index.md");
    top.subsections = vec![SectionKey(1)];
    let lib = Library {
        pages: vec![plain_page("one.md"), plain_page("two.md")],
        sections: vec![plain_section("docs/_index.md"), sub],
    };
    let view = SerializingSection::from_section(&top, &lib);
    assert_eq!(view.subsections, vec!["docs/guide/_index.md".to_string()]);
    assert!(view.pages.is_empty());
}

#[test]
fn child_pages_are_full_views_with_siblings() {
    // A child page's siblings are expanded one hop inside the section view.
    let mut a = plain_page("a.md");
    a.heavier = Some(PageKey(1));
    let b = plain_page("b.md");
    let mut s = plain_section("_index.md");
    s.pages = vec![PageKey(0)];
    let lib = Library { pages: vec![a, b], sections: vec![] };
    let view = SerializingSection::from_section(&s, &lib);
    let child = &view.pages[0];
    let sibling = child.heavier.as_ref().expect("child page sibling must be embedded");
    assert_eq!(sibling.relative_path, "b.md");
    assert!(sibling.heavier.is_none());
}

#[test]
fn section_ancestors_resolved_in_order() {
    let mut s = plain_section("a/b/_index.md");
    s.ancestors = vec![SectionKey(0), SectionKey(1)];
    let lib = Library {
        pages: vec![],
        sections: vec![plain_section("_index.md"), plain_section("a/_index.md")],
    };
    let view = SerializingSection::from_section(&s, &lib);
    assert_eq!(
        view.ancestors,
        vec!["_index.md".to_string(), "a/_index.md".to_string()]
    );
}

#[test]
fn basic_section_view_has_no_children() {
    let mut s = plain_section("blog/_index.md");
    s.pages = vec![PageKey(0)];
    s.subsections = vec![SectionKey(1)];
    s.ancestors = vec![SectionKey(0)];
    let lib = Library {
        pages: vec![plain_page("a.md")],
        sections: vec![plain_section("_index.md"), plain_section("blog/x/_index.md")],
    };
    let with_registry = SerializingSection::from_section_basic(&s, Some(&lib));
    assert!(with_registry.pages.is_empty());
    assert!(with_registry.subsections.is_empty());
    assert_eq!(with_registry.ancestors, vec!["_index.md".to_string()]);
    let without_registry = SerializingSection::from_section_basic(&s, None);
    assert!(without_registry.pages.is_empty());
    assert!(without_registry.subsections.is_empty());
    assert!(without_registry.ancestors.is_empty());
}

#[test]
fn section_projection_is_deterministic() {
    let mut s = plain_section("blog/_index.md");
    s.title = Some("Blog".to_string());
    s.content = "<h1>hi</h1>".to_string();
    s.pages = vec![PageKey(0)];
    s.subsections = vec![SectionKey(0)];
    let lib = Library {
        pages: vec![plain_page("a.md")],
        sections: vec![plain_section("blog/x/_index.md")],
    };
    let v1 = SerializingSection::from_section(&s, &lib);
    let v2 = SerializingSection::from_section(&s, &lib);
    assert_eq!(v1.relative_path, v2.relative_path);
    assert_eq!(v1.content, v2.content);
    assert_eq!(v1.title, v2.title);
    assert_eq!(v1.ancestors, v2.ancestors);
    assert_eq!(v1.subsections, v2.subsections);
    assert_eq!(v1.pages.len(), v2.pages.len());
    assert_eq!(v1.pages[0].relative_path, v2.pages[0].relative_path);
}

#[test]
fn registry_resolves_keys_and_paths() {
    let lib = Library {
        pages: vec![plain_page("a.md"), plain_page("b.md")],
        sections: vec![plain_section("_index.md")],
    };
    assert_eq!(lib.get_page_by_key(PageKey(1)).relative_path, "b.md");
    assert_eq!(lib.get_section_by_key(SectionKey(0)).relative_path, "_index.md");
    assert_eq!(lib.get_section_path_by_key(SectionKey(0)), "_index.md");
    assert_eq!(lib.pages().len(), 2);
}
