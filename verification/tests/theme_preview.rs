use zed_core::theme_preview::{
    ButtonStyle, ElevationLayer, Headline, HeadlineSize, NavEntry, PageContent, PageLayout,
    TextColor, ThemeColor, ThemePreview, ThemePreviewPage, TintColor,
    LOREM_1, LOREM_6, OVERVIEW_DESCRIPTION, OVERVIEW_TITLE, WRAPPED_TEXT,
};

#[test]
fn page_names() {
    assert_eq!(ThemePreviewPage::Overview.name(), "概述");
    assert_eq!(ThemePreviewPage::Typography.name(), "排版");
}

#[test]
fn pages_in_order() {
    assert_eq!(
        ThemePreviewPage::all(),
        vec![ThemePreviewPage::Overview, ThemePreviewPage::Typography]
    );
}

#[test]
fn starts_on_overview_and_selects() {
    let mut p = ThemePreview::new();
    assert_eq!(p.current_page(), ThemePreviewPage::Overview);
    assert!(p.is_selected(ThemePreviewPage::Overview));
    assert!(!p.is_selected(ThemePreviewPage::Typography));
    p.select_page(ThemePreviewPage::Typography);
    assert_eq!(p.current_page(), ThemePreviewPage::Typography);
    assert!(p.is_selected(ThemePreviewPage::Typography));
    assert!(!p.is_selected(ThemePreviewPage::Overview));
}

#[test]
fn nav_entries_follow_selection() {
    let mut p = ThemePreview::new();
    p.select_page(ThemePreviewPage::Typography);
    assert_eq!(
        p.nav_entries(),
        vec![
            NavEntry {
                page: ThemePreviewPage::Overview,
                id: "概述",
                label: "概述",
                selected: false,
                selected_style: ButtonStyle::Tinted(TintColor::Accent),
            },
            NavEntry {
                page: ThemePreviewPage::Typography,
                id: "排版",
                label: "排版",
                selected: true,
                selected_style: ButtonStyle::Tinted(TintColor::Accent),
            },
        ]
    );
}

#[test]
fn tab_title() {
    assert_eq!(ThemePreview::tab_content_text("One Dark"), "One Dark 预览");
    assert_eq!(ThemePreview::tab_content_text(""), " 预览");
}

#[test]
fn item_properties() {
    let mut p = ThemePreview::new();
    p.select_page(ThemePreviewPage::Typography);
    assert_eq!(p.telemetry_event_text(), None);
    assert!(p.can_split());
    assert_eq!(p.clone_on_split().current_page(), ThemePreviewPage::Overview);
}

#[test]
fn overview_layout() {
    let p = ThemePreview::new();
    match p.view(ThemePreviewPage::Overview) {
        PageContent::Overview { layout, title, description, description_color, layers } => {
            assert_eq!(
                layout,
                PageLayout { id: "theme-preview-overview", overflow_scroll: true, size_full: true }
            );
            assert_eq!(title.text, OVERVIEW_TITLE);
            assert_eq!(title.text, "主题预览");
            assert_eq!(title.size, HeadlineSize::Large);
            assert_eq!(description, OVERVIEW_DESCRIPTION);
            assert_eq!(description_color, ThemeColor::TextMuted);
            assert_eq!(
                layers,
                vec![
                    ElevationLayer::Background,
                    ElevationLayer::Surface,
                    ElevationLayer::EditorSurface,
                    ElevationLayer::ElevatedSurface,
                ]
            );
        }
        PageContent::Typography { .. } => panic!("expected the overview page"),
    }
}

#[test]
fn typography_layout() {
    let p = ThemePreview::new();
    match p.view(ThemePreviewPage::Typography) {
        PageContent::Typography { layout, samples } => {
            assert_eq!(layout.id, "theme-preview-typography");
            assert!(layout.overflow_scroll && layout.size_full);
            assert_eq!(samples.len(), 6);
            assert_eq!(samples[0].heading, "标题 1");
            assert_eq!(samples[0].size, HeadlineSize::XLarge);
            assert_eq!(samples[0].body, LOREM_1);
            assert_eq!(samples[5].heading, "正文");
            assert_eq!(samples[5].size, HeadlineSize::Small);
            assert_eq!(samples[5].body, LOREM_6);
        }
        PageContent::Overview { .. } => panic!("expected the typography page"),
    }
}

#[test]
fn text_section_samples() {
    let headlines = ThemePreview::headline_samples();
    assert_eq!(headlines.len(), 5);
    assert_eq!(headlines[0], (HeadlineSize::XLarge, "超大标题"));
    assert_eq!(headlines[4], (HeadlineSize::XSmall, "超小标题"));
    let colors = ThemePreview::text_color_samples();
    assert_eq!(colors.len(), 17);
    assert_eq!(colors[0], (TextColor::Default, "默认文本"));
    assert_eq!(colors[12], (TextColor::Muted, "静音文本"));
    assert_eq!(colors[16], (TextColor::Warning, "警告文本"));
}

#[test]
fn text_section_layout() {
    let t = ThemePreview::text_section();
    let muted = |text| Headline { text, size: HeadlineSize::Small, color: TextColor::Muted };
    assert_eq!(t.title, muted("文本"));
    assert_eq!(t.headlines_title, muted("标题大小"));
    assert_eq!(t.headlines, ThemePreview::headline_samples());
    assert_eq!(t.colors_title, muted("文本颜色"));
    assert_eq!(t.colors, ThemePreview::text_color_samples());
    assert_eq!(t.wrap_title, muted("换行文本"));
    assert_eq!(t.wrap_text, WRAPPED_TEXT);
    assert!(t.wrap_text.starts_with("这是一段较长的文本"));
    assert_eq!(t.wrap_max_width, 200);
}

#[test]
fn whole_preview_layout() {
    let mut p = ThemePreview::new();
    p.select_page(ThemePreviewPage::Typography);
    let r = p.render();
    assert_eq!(r.id, "theme-preview");
    assert_eq!(r.key_context, "ThemePreview");
    assert_eq!(r.background, ThemeColor::EditorBackground);
    assert_eq!(r.nav.id, "theme-preview-nav");
    assert_eq!(r.nav.background, ThemeColor::EditorBackground);
    assert_eq!(r.nav.entries, p.nav_entries());
    assert!(matches!(r.content, PageContent::Typography { .. }));
    let nav = p.render_page_nav();
    assert_eq!(nav.id, "theme-preview-nav");
    assert_eq!(nav.entries.len(), 2);
}
