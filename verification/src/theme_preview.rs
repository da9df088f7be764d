//! The state and the content of the theme preview: which page is shown,
//! the navigation between pages, and what each page lays out.

use vstd::prelude::*;
use vstd::string::*;

verus! {

/// A page of the theme preview.
#[derive(Clone, Copy, PartialEq, Eq, Debug, Structural)]
pub enum ThemePreviewPage {
    Overview,
    Typography,
}

impl ThemePreviewPage {
    /// The page's title.
    pub open spec fn spec_name(self) -> Seq<char> {
        match self {
            ThemePreviewPage::Overview => "概述"@,
            ThemePreviewPage::Typography => "排版"@,
        }
    }

    /// The page's title.
    pub fn name(&self) -> (r: &'static str)
        ensures
            r@ == self.spec_name(),
    {
        match self {
            ThemePreviewPage::Overview => "概述",
            ThemePreviewPage::Typography => "排版",
        }
    }

    /// Every page, in the order the navigation shows them.
    pub fn all() -> (r: Vec<ThemePreviewPage>)
        ensures
            r@ == seq![ThemePreviewPage::Overview, ThemePreviewPage::Typography],
    {
        let mut v = Vec::new();
        v.push(ThemePreviewPage::Overview);
        v.push(ThemePreviewPage::Typography);
        assert(v@ =~= seq![ThemePreviewPage::Overview, ThemePreviewPage::Typography]);
        v
    }
}

/// The pages' titles are distinct, so the navigation buttons, which are
/// identified by their titles, are too; and exactly one page is selected.
pub proof fn lemma_nav_titles_distinct(current: ThemePreviewPage)
    ensures
        ThemePreviewPage::Overview.spec_name() != ThemePreviewPage::Typography.spec_name(),
        (current == ThemePreviewPage::Overview) != (current == ThemePreviewPage::Typography),
{
    reveal_strlit("概述");
    reveal_strlit("排版");
    assert(ThemePreviewPage::Overview.spec_name()[0] != ThemePreviewPage::Typography.spec_name()[0]);
}

/// The size of a headline.
#[derive(Clone, Copy, PartialEq, Eq, Debug, Structural)]
pub enum HeadlineSize {
    XSmall,
    Small,
    Medium,
    Large,
    XLarge,
}

/// A semantic text color of the theme.
#[derive(Clone, Copy, PartialEq, Eq, Debug, Structural)]
pub enum TextColor {
    Default,
    Accent,
    Conflict,
    Created,
    Deleted,
    Disabled,
    Error,
    Hidden,
    Hint,
    Ignored,
    Info,
    Modified,
    Muted,
    Placeholder,
    Selected,
    Success,
    Warning,
}

/// An elevation layer of the theme's surfaces.
#[derive(Clone, Copy, PartialEq, Eq, Debug, Structural)]
pub enum ElevationLayer {
    Background,
    Surface,
    EditorSurface,
    ElevatedSurface,
}

/// A headline: its text, its size and its color.
#[derive(Clone, Copy, PartialEq, Eq, Debug)]
pub struct Headline {
    pub text: &'static str,
    pub size: HeadlineSize,
    pub color: TextColor,
}

/// A color the theme gives a part of the interface.
#[derive(Clone, Copy, PartialEq, Eq, Debug, Structural)]
pub enum ThemeColor {
    /// The editor's background.
    EditorBackground,
    /// Muted text.
    TextMuted,
}

/// A tint of a button's style.
#[derive(Clone, Copy, PartialEq, Eq, Debug, Structural)]
pub enum TintColor {
    Accent,
}

/// The style of a button.
#[derive(Clone, Copy, PartialEq, Eq, Debug, Structural)]
pub enum ButtonStyle {
    Tinted(TintColor),
}

/// How a page's container is laid out: its element id, whether it scrolls
/// when its content overflows, and whether it fills the space it is given.
#[derive(Clone, Copy, PartialEq, Eq, Debug)]
pub struct PageLayout {
    pub id: &'static str,
    pub overflow_scroll: bool,
    pub size_full: bool,
}

/// A small, muted headline, as the text section's headings are.
pub open spec fn muted_small(text: &'static str) -> Headline {
    Headline { text, size: HeadlineSize::Small, color: TextColor::Muted }
}

/// A heading of the typography page and the paragraph under it.
#[derive(Clone, Copy, PartialEq, Eq, Debug)]
pub struct TypographySample {
    pub heading: &'static str,
    pub size: HeadlineSize,
    pub body: &'static str,
}

/// A layer's text section: a heading over three columns, the headline
/// sizes, the text colors, and a paragraph that wraps within a narrow box.
pub struct TextSection {
    /// The section's heading.
    pub title: Headline,
    /// The heading of the headline-size column.
    pub headlines_title: Headline,
    /// The headline sizes, largest first, each with its sample text.
    pub headlines: Vec<(HeadlineSize, &'static str)>,
    /// The heading of the text-color column.
    pub colors_title: Headline,
    /// The text colors, each with its label.
    pub colors: Vec<(TextColor, &'static str)>,
    /// The heading of the wrapped-text column.
    pub wrap_title: Headline,
    /// The paragraph that wraps.
    pub wrap_text: &'static str,
    /// The width, in pixels, the paragraph wraps within.
    pub wrap_max_width: u32,
}

/// A layer's text section, as contracts see it: each column as it is laid
/// out, heading first.
pub open spec fn text_section_matches(t: TextSection) -> bool {
    &&& t.title == muted_small("文本")
    &&& t.headlines_title == muted_small("标题大小")
    &&& t.headlines@ == spec_headline_samples()
    &&& t.colors_title == muted_small("文本颜色")
    &&& t.colors@ == spec_text_color_samples()
    &&& t.wrap_title == muted_small("换行文本")
    &&& t.wrap_text == WRAPPED_TEXT
    &&& t.wrap_max_width == 200
}

/// What a page of the preview lays out.
pub enum PageContent {
    /// A title, a description in the given color, and one section per
    /// elevation layer, in order.
    Overview {
        layout: PageLayout,
        title: Headline,
        description: &'static str,
        description_color: ThemeColor,
        layers: Vec<ElevationLayer>,
    },
    /// Headings of every size, each over a paragraph.
    Typography { layout: PageLayout, samples: Vec<TypographySample> },
}

/// The overview page's container.
pub open spec fn overview_layout() -> PageLayout {
    PageLayout { id: "theme-preview-overview", overflow_scroll: true, size_full: true }
}

/// The typography page's container.
pub open spec fn typography_layout() -> PageLayout {
    PageLayout { id: "theme-preview-typography", overflow_scroll: true, size_full: true }
}

/// What `page` lays out, as contracts see it.
pub open spec fn page_content_matches(page: ThemePreviewPage, c: PageContent) -> bool {
    match page {
        ThemePreviewPage::Overview => c matches PageContent::Overview {
            layout,
            title,
            description,
            description_color,
            layers,
        } && layout == overview_layout() && title == (Headline {
            text: OVERVIEW_TITLE,
            size: HeadlineSize::Large,
            color: TextColor::Default,
        }) && description == OVERVIEW_DESCRIPTION && description_color == ThemeColor::TextMuted
            && layers@ == overview_layers(),
        ThemePreviewPage::Typography => c matches PageContent::Typography { layout, samples }
            && layout == typography_layout() && samples@ == spec_typography_samples(),
    }
}

/// The overview page's elevation layers, in order.
pub open spec fn overview_layers() -> Seq<ElevationLayer> {
    seq![
        ElevationLayer::Background,
        ElevationLayer::Surface,
        ElevationLayer::EditorSurface,
        ElevationLayer::ElevatedSurface,
    ]
}

/// The headline sizes shown in a layer's text section, largest first.
pub open spec fn spec_headline_samples() -> Seq<(HeadlineSize, &'static str)> {
    seq![
        (HeadlineSize::XLarge, "超大标题"),
        (HeadlineSize::Large, "大标题"),
        (HeadlineSize::Medium, "中标题"),
        (HeadlineSize::Small, "小标题"),
        (HeadlineSize::XSmall, "超小标题"),
    ]
}

/// The text colors shown in a layer's text section, with their labels.
pub open spec fn spec_text_color_samples() -> Seq<(TextColor, &'static str)> {
    seq![
        (TextColor::Default, "默认文本"),
        (TextColor::Accent, "强调文本"),
        (TextColor::Conflict, "冲突文本"),
        (TextColor::Created, "创建文本"),
        (TextColor::Deleted, "删除文本"),
        (TextColor::Disabled, "禁用文本"),
        (TextColor::Error, "错误文本"),
        (TextColor::Hidden, "隐藏文本"),
        (TextColor::Hint, "提示文本"),
        (TextColor::Ignored, "忽略文本"),
        (TextColor::Info, "信息文本"),
        (TextColor::Modified, "修改文本"),
        (TextColor::Muted, "静音文本"),
        (TextColor::Placeholder, "占位符文本"),
        (TextColor::Selected, "选中文本"),
        (TextColor::Success, "成功文本"),
        (TextColor::Warning, "警告文本"),
    ]
}

/// The typography page's headings and paragraphs, in order.
pub open spec fn spec_typography_samples() -> Seq<TypographySample> {
    seq![
        TypographySample { heading: "标题 1", size: HeadlineSize::XLarge, body: LOREM_1 },
        TypographySample { heading: "标题 2", size: HeadlineSize::Large, body: LOREM_2 },
        TypographySample { heading: "标题 3", size: HeadlineSize::Medium, body: LOREM_3 },
        TypographySample { heading: "标题 4", size: HeadlineSize::Small, body: LOREM_4 },
        TypographySample { heading: "标题 5", size: HeadlineSize::XSmall, body: LOREM_5 },
        TypographySample { heading: "正文", size: HeadlineSize::Small, body: LOREM_6 },
    ]
}

/// The paragraph under the first heading of the typography page.
pub const LOREM_1: &'static str = "Lorem ipsum dolor sit amet, consectetur adipiscing elit. Sed do eiusmod tempor incididunt ut labore et dolore magna aliqua.";

/// The paragraph under the second heading of the typography page.
pub const LOREM_2: &'static str = "Ut enim ad minim veniam, quis nostrud exercitation ullamco laboris nisi ut aliquip ex ea commodo consequat.";

/// The paragraph under the third heading of the typography page.
pub const LOREM_3: &'static str = "Duis aute irure dolor in reprehenderit in voluptate velit esse cillum dolore eu fugiat nulla pariatur.";

/// The paragraph under the fourth heading of the typography page.
pub const LOREM_4: &'static str = "Excepteur sint occaecat cupidatat non proident, sunt in culpa qui officia deserunt mollit anim id est laborum.";

/// The paragraph under the fifth heading of the typography page.
pub const LOREM_5: &'static str = "Lorem ipsum dolor sit amet, consectetur adipiscing elit, sed do eiusmod tempor incididunt ut labore et dolore magna aliqua. Ut enim ad minim veniam, quis nostrud exercitation ullamco laboris nisi ut aliquip ex ea commodo consequat.";

/// The paragraph under the body-text heading of the typography page.
pub const LOREM_6: &'static str = "Lorem ipsum dolor sit amet, consectetur adipiscing elit, sed do eiusmod tempor incididunt ut labore et dolore magna aliqua. Ut enim ad minim veniam, quis nostrud exercitation ullamco laboris nisi ut aliquip ex ea commodo consequat. Duis aute irure dolor in reprehenderit in voluptate velit esse cillum dolore eu fugiat nulla pariatur. Excepteur sint occaecat cupidatat non proident, sunt in culpa qui officia deserunt mollit anim id est laborum.";

/// The overview page's title.
pub const OVERVIEW_TITLE: &'static str = "主题预览";

/// The overview page's description.
pub const OVERVIEW_DESCRIPTION: &'static str = "此视图允许您预览主题中的一系列 UI 元素。用于测试主题的更改。";

/// The paragraph that shows how long text wraps.
pub const WRAPPED_TEXT: &'static str = "这是一段较长的文本,应换行到多行。它展示了文本在超出其容器宽度时的行为。";

/// A button of the page navigation.
#[derive(Clone, Copy, PartialEq, Eq, Debug)]
pub struct NavEntry {
    pub page: ThemePreviewPage,
    /// The button's element id: the page's title.
    pub id: &'static str,
    pub label: &'static str,
    pub selected: bool,
    /// The style of the button when it is toggled on.
    pub selected_style: ButtonStyle,
}

/// The page navigation bar: its element id, its background, and its buttons.
pub struct PageNav {
    pub id: &'static str,
    pub background: ThemeColor,
    pub entries: Vec<NavEntry>,
}

/// The navigation buttons for the page `current`, as contracts see them:
/// one per page, in order, identified and labelled by the page's title,
/// toggled on for the page shown, tinted with the accent when toggled on.
pub open spec fn nav_entries_match(current: ThemePreviewPage, entries: Seq<NavEntry>) -> bool {
    &&& entries.len() == 2
    &&& forall|i: int|
        0 <= i < entries.len() ==> {
            &&& (#[trigger] entries[i]).page == seq![ThemePreviewPage::Overview, ThemePreviewPage::Typography][i]
            &&& entries[i].id@ == entries[i].page.spec_name()
            &&& entries[i].label@ == entries[i].page.spec_name()
            &&& entries[i].selected == (entries[i].page == current)
            &&& entries[i].selected_style == ButtonStyle::Tinted(TintColor::Accent)
        }
}

/// The whole preview: its element id, its key context, its background, the
/// navigation bar above the page shown.
pub struct PreviewLayout {
    pub id: &'static str,
    pub key_context: &'static str,
    pub background: ThemeColor,
    pub nav: PageNav,
    pub content: PageContent,
}

/// The state of a theme preview: the page it shows.
pub struct ThemePreview {
    current_page: ThemePreviewPage,
}

impl ThemePreview {
    /// The page shown.
    pub closed spec fn current(&self) -> ThemePreviewPage {
        self.current_page
    }

    /// A preview that shows the overview page.
    pub fn new() -> (p: ThemePreview)
        ensures
            p.current() == ThemePreviewPage::Overview,
    {
        ThemePreview { current_page: ThemePreviewPage::Overview }
    }

    /// The page shown.
    pub fn current_page(&self) -> (p: ThemePreviewPage)
        ensures
            p == self.current(),
    {
        self.current_page
    }

    /// Shows `page`, as a click on its navigation button does.
    pub fn select_page(&mut self, page: ThemePreviewPage)
        ensures
            final(self).current() == page,
    {
        self.current_page = page;
    }

    /// Whether the navigation button of `page` is toggled on.
    pub fn is_selected(&self, page: ThemePreviewPage) -> (b: bool)
        ensures
            b == (page == self.current()),
    {
        page == self.current_page
    }

    /// The navigation buttons: one per page, in order, identified and
    /// labelled by the page's title, toggled on for the page shown.
    pub fn nav_entries(&self) -> (r: Vec<NavEntry>)
        ensures
            nav_entries_match(self.current(), r@),
    {
        let pages = ThemePreviewPage::all();
        let mut r: Vec<NavEntry> = Vec::new();
        let mut i: usize = 0;
        while i < pages.len()
            invariant
                i <= pages@.len(),
                pages@ == seq![ThemePreviewPage::Overview, ThemePreviewPage::Typography],
                r@.len() == i,
                forall|j: int|
                    0 <= j < i ==> {
                        &&& (#[trigger] r@[j]).page == pages@[j]
                        &&& r@[j].id@ == r@[j].page.spec_name()
                        &&& r@[j].label@ == r@[j].page.spec_name()
                        &&& r@[j].selected == (r@[j].page == self.current())
                        &&& r@[j].selected_style == ButtonStyle::Tinted(TintColor::Accent)
                    },
            decreases pages@.len() - i,
        {
            let p = pages[i];
            r.push(NavEntry {
                page: p,
                id: p.name(),
                label: p.name(),
                selected: self.is_selected(p),
                selected_style: ButtonStyle::Tinted(TintColor::Accent),
            });
            i = i + 1;
        }
        r
    }

    /// The page navigation bar, on the editor's background.
    pub fn render_page_nav(&self) -> (n: PageNav)
        ensures
            n.id == "theme-preview-nav",
            n.background == ThemeColor::EditorBackground,
            nav_entries_match(self.current(), n.entries@),
    {
        PageNav { id: "theme-preview-nav", background: ThemeColor::EditorBackground, entries: self.nav_entries() }
    }

    /// The whole preview: the navigation bar, then the page shown, on the
    /// editor's background.
    pub fn render(&self) -> (r: PreviewLayout)
        ensures
            r.id == "theme-preview",
            r.key_context == "ThemePreview",
            r.background == ThemeColor::EditorBackground,
            r.nav.id == "theme-preview-nav",
            r.nav.background == ThemeColor::EditorBackground,
            nav_entries_match(self.current(), r.nav.entries@),
            page_content_matches(self.current(), r.content),
    {
        PreviewLayout {
            id: "theme-preview",
            key_context: "ThemePreview",
            background: ThemeColor::EditorBackground,
            nav: self.render_page_nav(),
            content: self.view(self.current_page),
        }
    }

    /// What `page` lays out.
    pub fn view(&self, page: ThemePreviewPage) -> (c: PageContent)
        ensures
            page_content_matches(page, c),
    {
        match page {
            ThemePreviewPage::Overview => {
                let mut layers = Vec::new();
                layers.push(ElevationLayer::Background);
                layers.push(ElevationLayer::Surface);
                layers.push(ElevationLayer::EditorSurface);
                layers.push(ElevationLayer::ElevatedSurface);
                assert(layers@ =~= overview_layers());
                PageContent::Overview {
                    layout: PageLayout { id: "theme-preview-overview", overflow_scroll: true, size_full: true },
                    title: Headline { text: OVERVIEW_TITLE, size: HeadlineSize::Large, color: TextColor::Default },
                    description: OVERVIEW_DESCRIPTION,
                    description_color: ThemeColor::TextMuted,
                    layers,
                }
            },
            ThemePreviewPage::Typography => PageContent::Typography {
                layout: PageLayout { id: "theme-preview-typography", overflow_scroll: true, size_full: true },
                samples: Self::typography_samples(),
            },
        }
    }

    /// The typography page's headings and paragraphs, in order.
    pub fn typography_samples() -> (r: Vec<TypographySample>)
        ensures
            r@ == spec_typography_samples(),
    {
        let mut r = Vec::new();
        r.push(TypographySample { heading: "标题 1", size: HeadlineSize::XLarge, body: LOREM_1 });
        r.push(TypographySample { heading: "标题 2", size: HeadlineSize::Large, body: LOREM_2 });
        r.push(TypographySample { heading: "标题 3", size: HeadlineSize::Medium, body: LOREM_3 });
        r.push(TypographySample { heading: "标题 4", size: HeadlineSize::Small, body: LOREM_4 });
        r.push(TypographySample { heading: "标题 5", size: HeadlineSize::XSmall, body: LOREM_5 });
        r.push(TypographySample { heading: "正文", size: HeadlineSize::Small, body: LOREM_6 });
        assert(r@ =~= spec_typography_samples());
        r
    }

    /// A layer's text section: its heading, then the headline sizes, the
    /// text colors and the wrapping paragraph, each column under its heading.
    pub fn text_section() -> (t: TextSection)
        ensures
            text_section_matches(t),
    {
        TextSection {
            title: Headline { text: "文本", size: HeadlineSize::Small, color: TextColor::Muted },
            headlines_title: Headline { text: "标题大小", size: HeadlineSize::Small, color: TextColor::Muted },
            headlines: Self::headline_samples(),
            colors_title: Headline { text: "文本颜色", size: HeadlineSize::Small, color: TextColor::Muted },
            colors: Self::text_color_samples(),
            wrap_title: Headline { text: "换行文本", size: HeadlineSize::Small, color: TextColor::Muted },
            wrap_text: WRAPPED_TEXT,
            wrap_max_width: 200,
        }
    }

    /// The headline sizes shown in a layer's text section, largest first,
    /// each with its sample text.
    pub fn headline_samples() -> (r: Vec<(HeadlineSize, &'static str)>)
        ensures
            r@ == spec_headline_samples(),
    {
        let mut r = Vec::new();
        r.push((HeadlineSize::XLarge, "超大标题"));
        r.push((HeadlineSize::Large, "大标题"));
        r.push((HeadlineSize::Medium, "中标题"));
        r.push((HeadlineSize::Small, "小标题"));
        r.push((HeadlineSize::XSmall, "超小标题"));
        assert(r@ =~= spec_headline_samples());
        r
    }

    /// The text colors shown in a layer's text section, each with its label.
    pub fn text_color_samples() -> (r: Vec<(TextColor, &'static str)>)
        ensures
            r@ == spec_text_color_samples(),
    {
        let mut r = Vec::new();
        r.push((TextColor::Default, "默认文本"));
        r.push((TextColor::Accent, "强调文本"));
        r.push((TextColor::Conflict, "冲突文本"));
        r.push((TextColor::Created, "创建文本"));
        r.push((TextColor::Deleted, "删除文本"));
        r.push((TextColor::Disabled, "禁用文本"));
        r.push((TextColor::Error, "错误文本"));
        r.push((TextColor::Hidden, "隐藏文本"));
        r.push((TextColor::Hint, "提示文本"));
        r.push((TextColor::Ignored, "忽略文本"));
        r.push((TextColor::Info, "信息文本"));
        r.push((TextColor::Modified, "修改文本"));
        r.push((TextColor::Muted, "静音文本"));
        r.push((TextColor::Placeholder, "占位符文本"));
        r.push((TextColor::Selected, "选中文本"));
        r.push((TextColor::Success, "成功文本"));
        r.push((TextColor::Warning, "警告文本"));
        assert(r@ =~= spec_text_color_samples());
        r
    }

    /// The title of the preview's tab for the theme named `theme_name`.
    pub fn tab_content_text(theme_name: &str) -> (r: String)
        ensures
            r@ == theme_name@ + " 预览"@,
    {
        let mut r = String::from_str(theme_name);
        r.append(" 预览");
        r
    }

    /// The preview reports no telemetry event.
    pub fn telemetry_event_text(&self) -> (r: Option<&'static str>)
        ensures
            r is None,
    {
        None
    }

    /// The preview can be split.
    pub fn can_split(&self) -> (b: bool)
        ensures
            b,
    {
        true
    }

    /// The preview opened by a split: a fresh one, on the overview page.
    pub fn clone_on_split(&self) -> (p: ThemePreview)
        ensures
            p.current() == ThemePreviewPage::Overview,
    {
        ThemePreview::new()
    }
}

/// A headline size's rank, from the smallest (0) to the largest (4).
pub open spec fn headline_rank(size: HeadlineSize) -> int {
    match size {
        HeadlineSize::XSmall => 0,
        HeadlineSize::Small => 1,
        HeadlineSize::Medium => 2,
        HeadlineSize::Large => 3,
        HeadlineSize::XLarge => 4,
    }
}

/// The typography page's first five headings show the five headline sizes,
/// each once, from the largest to the smallest, and the body-text heading
/// after them is small; the text section's headline column likewise shows
/// each size once, largest first.
pub proof fn lemma_headline_sizes_descend()
    ensures
        spec_typography_samples().len() == 6,
        forall|i: int, j: int|
            0 <= i < j < 5 ==> headline_rank((#[trigger] spec_typography_samples()[i]).size)
                > headline_rank((#[trigger] spec_typography_samples()[j]).size),
        spec_typography_samples()[5].size == HeadlineSize::Small,
        spec_headline_samples().len() == 5,
        forall|i: int, j: int|
            0 <= i < j < 5 ==> headline_rank((#[trigger] spec_headline_samples()[i]).0)
                > headline_rank((#[trigger] spec_headline_samples()[j]).0),
{
}

/// The label that names a text color.
pub open spec fn color_label(c: TextColor) -> &'static str {
    match c {
        TextColor::Default => "默认文本",
        TextColor::Accent => "强调文本",
        TextColor::Conflict => "冲突文本",
        TextColor::Created => "创建文本",
        TextColor::Deleted => "删除文本",
        TextColor::Disabled => "禁用文本",
        TextColor::Error => "错误文本",
        TextColor::Hidden => "隐藏文本",
        TextColor::Hint => "提示文本",
        TextColor::Ignored => "忽略文本",
        TextColor::Info => "信息文本",
        TextColor::Modified => "修改文本",
        TextColor::Muted => "静音文本",
        TextColor::Placeholder => "占位符文本",
        TextColor::Selected => "选中文本",
        TextColor::Success => "成功文本",
        TextColor::Warning => "警告文本",
    }
}

/// Whether some sample of `samples` shows the color `c`.
pub open spec fn shows_color(samples: Seq<(TextColor, &'static str)>, c: TextColor) -> bool {
    exists|i: int| 0 <= i < samples.len() && (#[trigger] samples[i]).0 == c
}

/// The text section shows every text color exactly once, each under the
/// label that names it.
pub proof fn lemma_text_colors_each_once()
    ensures
        forall|i: int, j: int|
            0 <= i < j < spec_text_color_samples().len()
                ==> (#[trigger] spec_text_color_samples()[i]).0 != (#[trigger] spec_text_color_samples()[j]).0,
        forall|c: TextColor| #[trigger] shows_color(spec_text_color_samples(), c),
        forall|i: int|
            0 <= i < spec_text_color_samples().len()
                ==> (#[trigger] spec_text_color_samples()[i]).1 == color_label(spec_text_color_samples()[i].0),
{
    let s = spec_text_color_samples();
    assert forall|c: TextColor| #[trigger] shows_color(s, c) by {
        match c {
            TextColor::Default => assert(s[0].0 == c),
            TextColor::Accent => assert(s[1].0 == c),
            TextColor::Conflict => assert(s[2].0 == c),
            TextColor::Created => assert(s[3].0 == c),
            TextColor::Deleted => assert(s[4].0 == c),
            TextColor::Disabled => assert(s[5].0 == c),
            TextColor::Error => assert(s[6].0 == c),
            TextColor::Hidden => assert(s[7].0 == c),
            TextColor::Hint => assert(s[8].0 == c),
            TextColor::Ignored => assert(s[9].0 == c),
            TextColor::Info => assert(s[10].0 == c),
            TextColor::Modified => assert(s[11].0 == c),
            TextColor::Muted => assert(s[12].0 == c),
            TextColor::Placeholder => assert(s[13].0 == c),
            TextColor::Selected => assert(s[14].0 == c),
            TextColor::Success => assert(s[15].0 == c),
            TextColor::Warning => assert(s[16].0 == c),
        }
    }
}

} // verus!
