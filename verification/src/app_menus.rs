//! The application's menu bar: its menus, their items, and the actions the
//! items dispatch, as they depend on the release channel and on the
//! operating system the application runs on.

use vstd::prelude::*;

verus! {

/// The release channel of the running application.
#[derive(Clone, Copy, PartialEq, Eq, Debug, Structural)]
pub enum ReleaseChannel {
    Dev,
    Nightly,
    Preview,
    Stable,
}

/// The operating system the application runs on.
#[derive(Clone, Copy, PartialEq, Eq, Debug, Structural)]
pub enum TargetOs {
    MacOs,
    Windows,
    Linux,
}

/// A standard edit command that the operating system's own menu handling
/// may route to the item.
#[derive(Clone, Copy, PartialEq, Eq, Debug, Structural)]
pub enum OsAction {
    Cut,
    Copy,
    Paste,
    SelectAll,
    Undo,
    Redo,
}

/// A menu that the operating system fills in.
#[derive(Clone, Copy, PartialEq, Eq, Debug, Structural)]
pub enum SystemMenuType {
    Services,
}

/// The action a menu item dispatches, with the arguments it is dispatched with.
#[derive(Clone, Copy, PartialEq, Eq, Debug)]
pub enum MenuAction {
    About,
    CheckForUpdates,
    OpenSettings,
    OpenSettingsFile,
    OpenProjectSettings,
    OpenProjectSettingsFile,
    OpenDefaultSettings,
    OpenKeymap,
    OpenKeymapFile,
    OpenDefaultKeymap,
    ThemeSelectorToggle,
    IconThemeSelectorToggle,
    Extensions,
    InstallCliBinary,
    Hide,
    HideOthers,
    ShowAll,
    Quit,
    NewFile,
    NewWindow,
    OpenFiles,
    Open,
    OpenRecent { create_new_window: bool },
    OpenRemote { create_new_window: bool, from_existing_connection: bool },
    AddFolderToProject,
    Save,
    SaveAs,
    SaveAll,
    CloseActiveItem { close_pinned: bool },
    CloseProject,
    CloseWindow,
    Undo,
    Redo,
    Cut,
    Copy,
    CopyAndTrim,
    Paste,
    BufferSearchDeployFind,
    DeploySearchFind,
    ToggleComments,
    SelectAll,
    SelectLargerSyntaxNode,
    SelectSmallerSyntaxNode,
    SelectNextSyntaxNode,
    SelectPreviousSyntaxNode,
    AddSelectionAbove { skip_soft_wrap: bool },
    AddSelectionBelow { skip_soft_wrap: bool },
    SelectNext { replace_newest: bool },
    SelectPrevious { replace_newest: bool },
    SelectAllMatches,
    MoveLineUp,
    MoveLineDown,
    DuplicateLineDown,
    IncreaseBufferFontSize { persist: bool },
    DecreaseBufferFontSize { persist: bool },
    ResetBufferFontSize { persist: bool },
    ResetAllZoom { persist: bool },
    ToggleLeftDock,
    ToggleRightDock,
    ToggleBottomDock,
    ToggleAllDocks,
    SplitUp,
    SplitDown,
    SplitLeft,
    SplitRight,
    ProjectPanelToggleFocus,
    OutlinePanelToggleFocus,
    CollabPanelToggleFocus,
    TerminalPanelToggleFocus,
    DebugPanelToggleFocus,
    DiagnosticsDeploy,
    ToggleInspector,
    GoBack,
    GoForward,
    CommandPaletteToggle,
    ToggleFileFinder,
    ToggleOutline,
    ToggleGoToLine,
    GoToDefinition,
    GoToDeclaration,
    GoToTypeDefinition,
    FindAllReferences,
    GoToDiagnostic,
    GoToPreviousDiagnostic,
    SpawnViaModal,
    Start,
    OpenProjectTasks,
    OpenProjectDebugTasks,
    Continue,
    StepOver,
    StepInto,
    StepOut,
    ToggleBreakpoint,
    EditLogBreakpoint,
    ClearAllBreakpoints,
    Minimize,
    Zoom,
    ViewReleaseNotesLocally,
    OpenTelemetryLog,
    OpenLicenses,
    ShowWelcome,
    FileBugReport,
    RequestFeature,
    EmailZed,
    OpenBrowser { url: &'static str },
    OpenZedRepo,
}

/// A menu: a named list of items.
pub struct Menu {
    pub name: &'static str,
    pub disabled: bool,
    pub items: Vec<MenuItem>,
}

/// An item of a menu.
pub enum MenuItem {
    Separator,
    Submenu(Menu),
    SystemMenu { name: &'static str, menu_type: SystemMenuType },
    Action { name: &'static str, action: MenuAction, os_action: Option<OsAction> },
}

/// An item of a submenu, as contracts see it; a submenu nested in a
/// submenu is seen by its name.
pub enum EntryView {
    Separator,
    Submenu { name: &'static str },
    SystemMenu { name: &'static str, menu_type: SystemMenuType },
    Action { name: &'static str, action: MenuAction, os_action: Option<OsAction> },
}

/// An item of a menu of the menu bar, as contracts see it.
pub enum ItemView {
    Separator,
    Submenu { name: &'static str, disabled: bool, items: Seq<EntryView> },
    SystemMenu { name: &'static str, menu_type: SystemMenuType },
    Action { name: &'static str, action: MenuAction, os_action: Option<OsAction> },
}

/// A menu of the menu bar, as contracts see it.
pub struct MenuView {
    pub name: &'static str,
    pub disabled: bool,
    pub items: Seq<ItemView>,
}

/// How a contract sees an item of a submenu.
pub open spec fn entry_view(item: MenuItem) -> EntryView {
    match item {
        MenuItem::Separator => EntryView::Separator,
        MenuItem::Submenu(m) => EntryView::Submenu { name: m.name },
        MenuItem::SystemMenu { name, menu_type } => EntryView::SystemMenu { name, menu_type },
        MenuItem::Action { name, action, os_action } => EntryView::Action { name, action, os_action },
    }
}

/// How a contract sees an item of a menu of the menu bar.
pub open spec fn item_view(item: MenuItem) -> ItemView {
    match item {
        MenuItem::Separator => ItemView::Separator,
        MenuItem::Submenu(m) => ItemView::Submenu {
            name: m.name,
            disabled: m.disabled,
            items: m.items@.map_values(|e: MenuItem| entry_view(e)),
        },
        MenuItem::SystemMenu { name, menu_type } => ItemView::SystemMenu { name, menu_type },
        MenuItem::Action { name, action, os_action } => ItemView::Action { name, action, os_action },
    }
}

impl View for Menu {
    type V = MenuView;

    open spec fn view(&self) -> MenuView {
        MenuView {
            name: self.name,
            disabled: self.disabled,
            items: self.items@.map_values(|i: MenuItem| item_view(i)),
        }
    }
}

/// The entries of the "设置" submenu.
pub open spec fn spec_settings_entries() -> Seq<EntryView> {
    seq![
        EntryView::Action { name: "打开设置", action: MenuAction::OpenSettings, os_action: None },
        EntryView::Action { name: "Open Settings File", action: MenuAction::OpenSettingsFile, os_action: None },
        EntryView::Action { name: "打开项目设置", action: MenuAction::OpenProjectSettings, os_action: None },
        EntryView::Action { name: "Open Project Settings File", action: MenuAction::OpenProjectSettingsFile, os_action: None },
        EntryView::Action { name: "打开默认设置", action: MenuAction::OpenDefaultSettings, os_action: None },
        EntryView::Separator,
        EntryView::Action { name: "打开快捷键映射", action: MenuAction::OpenKeymap, os_action: None },
        EntryView::Action { name: "打开快捷键映射文件", action: MenuAction::OpenKeymapFile, os_action: None },
        EntryView::Action { name: "打开默认按键绑定", action: MenuAction::OpenDefaultKeymap, os_action: None },
        EntryView::Separator,
        EntryView::Action { name: "选择主题...", action: MenuAction::ThemeSelectorToggle, os_action: None },
        EntryView::Action { name: "选择图标主题...", action: MenuAction::IconThemeSelectorToggle, os_action: None },
    ]
}

/// The "设置" submenu.
fn settings_submenu() -> (m: Menu)
    ensures
        m.name == "设置",
        !m.disabled,
        m.items@.map_values(|e: MenuItem| entry_view(e)) == spec_settings_entries(),
{
    let mut items: Vec<MenuItem> = Vec::new();
    items.push(MenuItem::Action { name: "打开设置", action: MenuAction::OpenSettings, os_action: None });
    items.push(MenuItem::Action { name: "Open Settings File", action: MenuAction::OpenSettingsFile, os_action: None });
    items.push(MenuItem::Action { name: "打开项目设置", action: MenuAction::OpenProjectSettings, os_action: None });
    items.push(MenuItem::Action { name: "Open Project Settings File", action: MenuAction::OpenProjectSettingsFile, os_action: None });
    items.push(MenuItem::Action { name: "打开默认设置", action: MenuAction::OpenDefaultSettings, os_action: None });
    items.push(MenuItem::Separator);
    items.push(MenuItem::Action { name: "打开快捷键映射", action: MenuAction::OpenKeymap, os_action: None });
    items.push(MenuItem::Action { name: "打开快捷键映射文件", action: MenuAction::OpenKeymapFile, os_action: None });
    items.push(MenuItem::Action { name: "打开默认按键绑定", action: MenuAction::OpenDefaultKeymap, os_action: None });
    items.push(MenuItem::Separator);
    items.push(MenuItem::Action { name: "选择主题...", action: MenuAction::ThemeSelectorToggle, os_action: None });
    items.push(MenuItem::Action { name: "选择图标主题...", action: MenuAction::IconThemeSelectorToggle, os_action: None });
    assert(items@.map_values(|e: MenuItem| entry_view(e)) =~= spec_settings_entries());
    Menu { name: "设置", disabled: false, items }
}

/// The entries of the "编辑器布局" submenu.
pub open spec fn spec_editor_layout_entries() -> Seq<EntryView> {
    seq![
        EntryView::Action { name: "向上拆分", action: MenuAction::SplitUp, os_action: None },
        EntryView::Action { name: "向下拆分", action: MenuAction::SplitDown, os_action: None },
        EntryView::Action { name: "向左拆分", action: MenuAction::SplitLeft, os_action: None },
        EntryView::Action { name: "向右拆分", action: MenuAction::SplitRight, os_action: None },
    ]
}

/// The "编辑器布局" submenu.
fn editor_layout_submenu() -> (m: Menu)
    ensures
        m.name == "编辑器布局",
        !m.disabled,
        m.items@.map_values(|e: MenuItem| entry_view(e)) == spec_editor_layout_entries(),
{
    let mut items: Vec<MenuItem> = Vec::new();
    items.push(MenuItem::Action { name: "向上拆分", action: MenuAction::SplitUp, os_action: None });
    items.push(MenuItem::Action { name: "向下拆分", action: MenuAction::SplitDown, os_action: None });
    items.push(MenuItem::Action { name: "向左拆分", action: MenuAction::SplitLeft, os_action: None });
    items.push(MenuItem::Action { name: "向右拆分", action: MenuAction::SplitRight, os_action: None });
    assert(items@.map_values(|e: MenuItem| entry_view(e)) =~= spec_editor_layout_entries());
    Menu { name: "编辑器布局", disabled: false, items }
}

/// The items of the "AIReach" menu.
pub open spec fn spec_app_items(os: TargetOs) -> Seq<ItemView> {
    seq![
        ItemView::Action { name: "关于 AIReach", action: MenuAction::About, os_action: None },
        ItemView::Action { name: "检查更新", action: MenuAction::CheckForUpdates, os_action: None },
        ItemView::Separator,
        ItemView::Submenu { name: "设置", disabled: false, items: spec_settings_entries() },
        ItemView::Separator,
    ]
    + (if os == TargetOs::MacOs {
        seq![
            ItemView::SystemMenu { name: "服务", menu_type: SystemMenuType::Services },
        ]
    } else {
        seq![]
    })
    + seq![
        ItemView::Separator,
        ItemView::Action { name: "插件", action: MenuAction::Extensions, os_action: None },
    ]
    + (if os != TargetOs::Windows {
        seq![
            ItemView::Action { name: "安装命令行工具", action: MenuAction::InstallCliBinary, os_action: None },
        ]
    } else {
        seq![]
    })
    + seq![
        ItemView::Separator,
    ]
    + (if os == TargetOs::MacOs {
        seq![
            ItemView::Action { name: "隐藏 AIReach", action: MenuAction::Hide, os_action: None },
            ItemView::Action { name: "隐藏其他", action: MenuAction::HideOthers, os_action: None },
            ItemView::Action { name: "全部显示", action: MenuAction::ShowAll, os_action: None },
        ]
    } else {
        seq![]
    })
    + seq![
        ItemView::Separator,
        ItemView::Action { name: "退出AIReach", action: MenuAction::Quit, os_action: None },
    ]
}

/// The "AIReach" menu.
pub open spec fn spec_app_menu(os: TargetOs) -> MenuView {
    MenuView { name: "AIReach", disabled: false, items: spec_app_items(os) }
}

/// The "AIReach" menu.
pub fn app_menu(os: TargetOs) -> (m: Menu)
    ensures
        m@ == spec_app_menu(os),
{
    let mut items: Vec<MenuItem> = Vec::new();
    items.push(MenuItem::Action { name: "关于 AIReach", action: MenuAction::About, os_action: None });
    items.push(MenuItem::Action { name: "检查更新", action: MenuAction::CheckForUpdates, os_action: None });
    items.push(MenuItem::Separator);
    items.push(MenuItem::Submenu(settings_submenu()));
    items.push(MenuItem::Separator);
    if os == TargetOs::MacOs {
        items.push(MenuItem::SystemMenu { name: "服务", menu_type: SystemMenuType::Services });
    }
    items.push(MenuItem::Separator);
    items.push(MenuItem::Action { name: "插件", action: MenuAction::Extensions, os_action: None });
    if os != TargetOs::Windows {
        items.push(MenuItem::Action { name: "安装命令行工具", action: MenuAction::InstallCliBinary, os_action: None });
    }
    items.push(MenuItem::Separator);
    if os == TargetOs::MacOs {
        items.push(MenuItem::Action { name: "隐藏 AIReach", action: MenuAction::Hide, os_action: None });
    }
    if os == TargetOs::MacOs {
        items.push(MenuItem::Action { name: "隐藏其他", action: MenuAction::HideOthers, os_action: None });
    }
    if os == TargetOs::MacOs {
        items.push(MenuItem::Action { name: "全部显示", action: MenuAction::ShowAll, os_action: None });
    }
    items.push(MenuItem::Separator);
    items.push(MenuItem::Action { name: "退出AIReach", action: MenuAction::Quit, os_action: None });
    assert(items@.map_values(|i: MenuItem| item_view(i)) =~= spec_app_items(os));
    Menu { name: "AIReach", disabled: false, items }
}

/// The items of the "文件" menu.
pub open spec fn spec_file_items(os: TargetOs) -> Seq<ItemView> {
    seq![
        ItemView::Action { name: "新建", action: MenuAction::NewFile, os_action: None },
        ItemView::Action { name: "新建窗口", action: MenuAction::NewWindow, os_action: None },
        ItemView::Separator,
    ]
    + (if os != TargetOs::MacOs {
        seq![
            ItemView::Action { name: "打开文件...", action: MenuAction::OpenFiles, os_action: None },
            ItemView::Action { name: "打开文件夹...", action: MenuAction::Open, os_action: None },
        ]
    } else {
        seq![]
    })
    + (if os == TargetOs::MacOs {
        seq![
            ItemView::Action { name: "打开…", action: MenuAction::Open, os_action: None },
        ]
    } else {
        seq![]
    })
    + seq![
        ItemView::Action { name: "打开最近...", action: MenuAction::OpenRecent { create_new_window: false }, os_action: None },
        ItemView::Action { name: "打开远程...", action: MenuAction::OpenRemote { create_new_window: false, from_existing_connection: false }, os_action: None },
        ItemView::Separator,
        ItemView::Action { name: "添加文件夹到项目...", action: MenuAction::AddFolderToProject, os_action: None },
        ItemView::Separator,
        ItemView::Action { name: "保存", action: MenuAction::Save, os_action: None },
        ItemView::Action { name: "另存为…", action: MenuAction::SaveAs, os_action: None },
        ItemView::Action { name: "保存全部", action: MenuAction::SaveAll, os_action: None },
        ItemView::Separator,
        ItemView::Action { name: "关闭编辑器", action: MenuAction::CloseActiveItem { close_pinned: true }, os_action: None },
        ItemView::Action { name: "Close Project", action: MenuAction::CloseProject, os_action: None },
        ItemView::Action { name: "关闭窗口", action: MenuAction::CloseWindow, os_action: None },
    ]
}

/// The "文件" menu.
pub open spec fn spec_file_menu(os: TargetOs) -> MenuView {
    MenuView { name: "文件", disabled: false, items: spec_file_items(os) }
}

/// The "文件" menu.
pub fn file_menu(os: TargetOs) -> (m: Menu)
    ensures
        m@ == spec_file_menu(os),
{
    let mut items: Vec<MenuItem> = Vec::new();
    items.push(MenuItem::Action { name: "新建", action: MenuAction::NewFile, os_action: None });
    items.push(MenuItem::Action { name: "新建窗口", action: MenuAction::NewWindow, os_action: None });
    items.push(MenuItem::Separator);
    if os != TargetOs::MacOs {
        items.push(MenuItem::Action { name: "打开文件...", action: MenuAction::OpenFiles, os_action: None });
    }
    if os != TargetOs::MacOs {
        items.push(MenuItem::Action { name: "打开文件夹...", action: MenuAction::Open, os_action: None });
    }
    if os == TargetOs::MacOs {
        items.push(MenuItem::Action { name: "打开…", action: MenuAction::Open, os_action: None });
    }
    items.push(MenuItem::Action { name: "打开最近...", action: MenuAction::OpenRecent { create_new_window: false }, os_action: None });
    items.push(MenuItem::Action { name: "打开远程...", action: MenuAction::OpenRemote { create_new_window: false, from_existing_connection: false }, os_action: None });
    items.push(MenuItem::Separator);
    items.push(MenuItem::Action { name: "添加文件夹到项目...", action: MenuAction::AddFolderToProject, os_action: None });
    items.push(MenuItem::Separator);
    items.push(MenuItem::Action { name: "保存", action: MenuAction::Save, os_action: None });
    items.push(MenuItem::Action { name: "另存为…", action: MenuAction::SaveAs, os_action: None });
    items.push(MenuItem::Action { name: "保存全部", action: MenuAction::SaveAll, os_action: None });
    items.push(MenuItem::Separator);
    items.push(MenuItem::Action { name: "关闭编辑器", action: MenuAction::CloseActiveItem { close_pinned: true }, os_action: None });
    items.push(MenuItem::Action { name: "Close Project", action: MenuAction::CloseProject, os_action: None });
    items.push(MenuItem::Action { name: "关闭窗口", action: MenuAction::CloseWindow, os_action: None });
    assert(items@.map_values(|i: MenuItem| item_view(i)) =~= spec_file_items(os));
    Menu { name: "文件", disabled: false, items }
}

/// The items of the "编辑" menu.
pub open spec fn spec_edit_items() -> Seq<ItemView> {
    seq![
        ItemView::Action { name: "撤回", action: MenuAction::Undo, os_action: Some(OsAction::Undo) },
        ItemView::Action { name: "重做", action: MenuAction::Redo, os_action: Some(OsAction::Redo) },
        ItemView::Separator,
        ItemView::Action { name: "剪切", action: MenuAction::Cut, os_action: Some(OsAction::Cut) },
        ItemView::Action { name: "复制", action: MenuAction::Copy, os_action: Some(OsAction::Copy) },
        ItemView::Action { name: "复制并修剪", action: MenuAction::CopyAndTrim, os_action: None },
        ItemView::Action { name: "粘贴", action: MenuAction::Paste, os_action: Some(OsAction::Paste) },
        ItemView::Separator,
        ItemView::Action { name: "查找", action: MenuAction::BufferSearchDeployFind, os_action: None },
        ItemView::Action { name: "Find in Project", action: MenuAction::DeploySearchFind, os_action: None },
        ItemView::Separator,
        ItemView::Action { name: "切换行注释", action: MenuAction::ToggleComments, os_action: None },
    ]
}

/// The "编辑" menu.
pub open spec fn spec_edit_menu() -> MenuView {
    MenuView { name: "编辑", disabled: false, items: spec_edit_items() }
}

/// The "编辑" menu.
pub fn edit_menu() -> (m: Menu)
    ensures
        m@ == spec_edit_menu(),
{
    let mut items: Vec<MenuItem> = Vec::new();
    items.push(MenuItem::Action { name: "撤回", action: MenuAction::Undo, os_action: Some(OsAction::Undo) });
    items.push(MenuItem::Action { name: "重做", action: MenuAction::Redo, os_action: Some(OsAction::Redo) });
    items.push(MenuItem::Separator);
    items.push(MenuItem::Action { name: "剪切", action: MenuAction::Cut, os_action: Some(OsAction::Cut) });
    items.push(MenuItem::Action { name: "复制", action: MenuAction::Copy, os_action: Some(OsAction::Copy) });
    items.push(MenuItem::Action { name: "复制并修剪", action: MenuAction::CopyAndTrim, os_action: None });
    items.push(MenuItem::Action { name: "粘贴", action: MenuAction::Paste, os_action: Some(OsAction::Paste) });
    items.push(MenuItem::Separator);
    items.push(MenuItem::Action { name: "查找", action: MenuAction::BufferSearchDeployFind, os_action: None });
    items.push(MenuItem::Action { name: "Find in Project", action: MenuAction::DeploySearchFind, os_action: None });
    items.push(MenuItem::Separator);
    items.push(MenuItem::Action { name: "切换行注释", action: MenuAction::ToggleComments, os_action: None });
    assert(items@.map_values(|i: MenuItem| item_view(i)) =~= spec_edit_items());
    Menu { name: "编辑", disabled: false, items }
}

/// The items of the "选择" menu.
pub open spec fn spec_selection_items() -> Seq<ItemView> {
    seq![
        ItemView::Action { name: "全选", action: MenuAction::SelectAll, os_action: Some(OsAction::SelectAll) },
        ItemView::Action { name: "扩展选择", action: MenuAction::SelectLargerSyntaxNode, os_action: None },
        ItemView::Action { name: "收缩选择", action: MenuAction::SelectSmallerSyntaxNode, os_action: None },
        ItemView::Action { name: "Select Next Sibling", action: MenuAction::SelectNextSyntaxNode, os_action: None },
        ItemView::Action { name: "Select Previous Sibling", action: MenuAction::SelectPreviousSyntaxNode, os_action: None },
        ItemView::Separator,
        ItemView::Action { name: "在上方添加光标", action: MenuAction::AddSelectionAbove { skip_soft_wrap: true }, os_action: None },
        ItemView::Action { name: "在下方添加光标", action: MenuAction::AddSelectionBelow { skip_soft_wrap: true }, os_action: None },
        ItemView::Action { name: "选择下一个出现", action: MenuAction::SelectNext { replace_newest: false }, os_action: None },
        ItemView::Action { name: "Select Previous Occurrence", action: MenuAction::SelectPrevious { replace_newest: false }, os_action: None },
        ItemView::Action { name: "Select All Occurrences", action: MenuAction::SelectAllMatches, os_action: None },
        ItemView::Separator,
        ItemView::Action { name: "向上移动行", action: MenuAction::MoveLineUp, os_action: None },
        ItemView::Action { name: "向下移动行", action: MenuAction::MoveLineDown, os_action: None },
        ItemView::Action { name: "复制选择", action: MenuAction::DuplicateLineDown, os_action: None },
    ]
}

/// The "选择" menu.
pub open spec fn spec_selection_menu() -> MenuView {
    MenuView { name: "选择", disabled: false, items: spec_selection_items() }
}

/// The "选择" menu.
pub fn selection_menu() -> (m: Menu)
    ensures
        m@ == spec_selection_menu(),
{
    let mut items: Vec<MenuItem> = Vec::new();
    items.push(MenuItem::Action { name: "全选", action: MenuAction::SelectAll, os_action: Some(OsAction::SelectAll) });
    items.push(MenuItem::Action { name: "扩展选择", action: MenuAction::SelectLargerSyntaxNode, os_action: None });
    items.push(MenuItem::Action { name: "收缩选择", action: MenuAction::SelectSmallerSyntaxNode, os_action: None });
    items.push(MenuItem::Action { name: "Select Next Sibling", action: MenuAction::SelectNextSyntaxNode, os_action: None });
    items.push(MenuItem::Action { name: "Select Previous Sibling", action: MenuAction::SelectPreviousSyntaxNode, os_action: None });
    items.push(MenuItem::Separator);
    items.push(MenuItem::Action { name: "在上方添加光标", action: MenuAction::AddSelectionAbove { skip_soft_wrap: true }, os_action: None });
    items.push(MenuItem::Action { name: "在下方添加光标", action: MenuAction::AddSelectionBelow { skip_soft_wrap: true }, os_action: None });
    items.push(MenuItem::Action { name: "选择下一个出现", action: MenuAction::SelectNext { replace_newest: false }, os_action: None });
    items.push(MenuItem::Action { name: "Select Previous Occurrence", action: MenuAction::SelectPrevious { replace_newest: false }, os_action: None });
    items.push(MenuItem::Action { name: "Select All Occurrences", action: MenuAction::SelectAllMatches, os_action: None });
    items.push(MenuItem::Separator);
    items.push(MenuItem::Action { name: "向上移动行", action: MenuAction::MoveLineUp, os_action: None });
    items.push(MenuItem::Action { name: "向下移动行", action: MenuAction::MoveLineDown, os_action: None });
    items.push(MenuItem::Action { name: "复制选择", action: MenuAction::DuplicateLineDown, os_action: None });
    assert(items@.map_values(|i: MenuItem| item_view(i)) =~= spec_selection_items());
    Menu { name: "选择", disabled: false, items }
}

/// The items of the "视图" menu.
pub open spec fn spec_view_items(dev: bool) -> Seq<ItemView> {
    seq![
        ItemView::Action { name: "放大", action: MenuAction::IncreaseBufferFontSize { persist: false }, os_action: None },
        ItemView::Action { name: "缩小", action: MenuAction::DecreaseBufferFontSize { persist: false }, os_action: None },
        ItemView::Action { name: "重置缩放", action: MenuAction::ResetBufferFontSize { persist: false }, os_action: None },
        ItemView::Action { name: "Reset All Zoom", action: MenuAction::ResetAllZoom { persist: false }, os_action: None },
        ItemView::Separator,
        ItemView::Action { name: "切换左侧面板", action: MenuAction::ToggleLeftDock, os_action: None },
        ItemView::Action { name: "切换右侧面板", action: MenuAction::ToggleRightDock, os_action: None },
        ItemView::Action { name: "切换底部面板", action: MenuAction::ToggleBottomDock, os_action: None },
        ItemView::Action { name: "Toggle All Docks", action: MenuAction::ToggleAllDocks, os_action: None },
        ItemView::Submenu { name: "编辑器布局", disabled: false, items: spec_editor_layout_entries() },
        ItemView::Separator,
        ItemView::Action { name: "项目面板", action: MenuAction::ProjectPanelToggleFocus, os_action: None },
        ItemView::Action { name: "大纲面板", action: MenuAction::OutlinePanelToggleFocus, os_action: None },
        ItemView::Action { name: "协作面板", action: MenuAction::CollabPanelToggleFocus, os_action: None },
        ItemView::Action { name: "终端面板", action: MenuAction::TerminalPanelToggleFocus, os_action: None },
        ItemView::Action { name: "Debugger Panel", action: MenuAction::DebugPanelToggleFocus, os_action: None },
        ItemView::Separator,
        ItemView::Action { name: "诊断", action: MenuAction::DiagnosticsDeploy, os_action: None },
        ItemView::Separator,
    ]
    + (if dev {
        seq![
            ItemView::Action { name: "Toggle GPUI Inspector", action: MenuAction::ToggleInspector, os_action: None },
            ItemView::Separator,
        ]
    } else {
        seq![]
    })
}

/// The "视图" menu.
pub open spec fn spec_view_menu(dev: bool) -> MenuView {
    MenuView { name: "视图", disabled: false, items: spec_view_items(dev) }
}

/// The "视图" menu.
pub fn view_menu(dev: bool) -> (m: Menu)
    ensures
        m@ == spec_view_menu(dev),
{
    let mut items: Vec<MenuItem> = Vec::new();
    items.push(MenuItem::Action { name: "放大", action: MenuAction::IncreaseBufferFontSize { persist: false }, os_action: None });
    items.push(MenuItem::Action { name: "缩小", action: MenuAction::DecreaseBufferFontSize { persist: false }, os_action: None });
    items.push(MenuItem::Action { name: "重置缩放", action: MenuAction::ResetBufferFontSize { persist: false }, os_action: None });
    items.push(MenuItem::Action { name: "Reset All Zoom", action: MenuAction::ResetAllZoom { persist: false }, os_action: None });
    items.push(MenuItem::Separator);
    items.push(MenuItem::Action { name: "切换左侧面板", action: MenuAction::ToggleLeftDock, os_action: None });
    items.push(MenuItem::Action { name: "切换右侧面板", action: MenuAction::ToggleRightDock, os_action: None });
    items.push(MenuItem::Action { name: "切换底部面板", action: MenuAction::ToggleBottomDock, os_action: None });
    items.push(MenuItem::Action { name: "Toggle All Docks", action: MenuAction::ToggleAllDocks, os_action: None });
    items.push(MenuItem::Submenu(editor_layout_submenu()));
    items.push(MenuItem::Separator);
    items.push(MenuItem::Action { name: "项目面板", action: MenuAction::ProjectPanelToggleFocus, os_action: None });
    items.push(MenuItem::Action { name: "大纲面板", action: MenuAction::OutlinePanelToggleFocus, os_action: None });
    items.push(MenuItem::Action { name: "协作面板", action: MenuAction::CollabPanelToggleFocus, os_action: None });
    items.push(MenuItem::Action { name: "终端面板", action: MenuAction::TerminalPanelToggleFocus, os_action: None });
    items.push(MenuItem::Action { name: "Debugger Panel", action: MenuAction::DebugPanelToggleFocus, os_action: None });
    items.push(MenuItem::Separator);
    items.push(MenuItem::Action { name: "诊断", action: MenuAction::DiagnosticsDeploy, os_action: None });
    items.push(MenuItem::Separator);
    if dev {
        items.push(MenuItem::Action { name: "Toggle GPUI Inspector", action: MenuAction::ToggleInspector, os_action: None });
    }
    if dev {
        items.push(MenuItem::Separator);
    }
    assert(items@.map_values(|i: MenuItem| item_view(i)) =~= spec_view_items(dev));
    Menu { name: "视图", disabled: false, items }
}

/// The items of the "继续" menu.
pub open spec fn spec_go_items() -> Seq<ItemView> {
    seq![
        ItemView::Action { name: "返回", action: MenuAction::GoBack, os_action: None },
        ItemView::Action { name: "前进", action: MenuAction::GoForward, os_action: None },
        ItemView::Separator,
        ItemView::Action { name: "命令面板...", action: MenuAction::CommandPaletteToggle, os_action: None },
        ItemView::Separator,
        ItemView::Action { name: "跳转到文件...", action: MenuAction::ToggleFileFinder, os_action: None },
        ItemView::Action { name: "在编辑器中跳转到符号...", action: MenuAction::ToggleOutline, os_action: None },
        ItemView::Action { name: "跳转到行/列...", action: MenuAction::ToggleGoToLine, os_action: None },
        ItemView::Separator,
        ItemView::Action { name: "转到定义", action: MenuAction::GoToDefinition, os_action: None },
        ItemView::Action { name: "转到声明", action: MenuAction::GoToDeclaration, os_action: None },
        ItemView::Action { name: "转到类型定义", action: MenuAction::GoToTypeDefinition, os_action: None },
        ItemView::Action { name: "查找所有引用", action: MenuAction::FindAllReferences, os_action: None },
        ItemView::Separator,
        ItemView::Action { name: "下个问题", action: MenuAction::GoToDiagnostic, os_action: None },
        ItemView::Action { name: "上个问题", action: MenuAction::GoToPreviousDiagnostic, os_action: None },
    ]
}

/// The "继续" menu.
pub open spec fn spec_go_menu() -> MenuView {
    MenuView { name: "继续", disabled: false, items: spec_go_items() }
}

/// The "继续" menu.
pub fn go_menu() -> (m: Menu)
    ensures
        m@ == spec_go_menu(),
{
    let mut items: Vec<MenuItem> = Vec::new();
    items.push(MenuItem::Action { name: "返回", action: MenuAction::GoBack, os_action: None });
    items.push(MenuItem::Action { name: "前进", action: MenuAction::GoForward, os_action: None });
    items.push(MenuItem::Separator);
    items.push(MenuItem::Action { name: "命令面板...", action: MenuAction::CommandPaletteToggle, os_action: None });
    items.push(MenuItem::Separator);
    items.push(MenuItem::Action { name: "跳转到文件...", action: MenuAction::ToggleFileFinder, os_action: None });
    items.push(MenuItem::Action { name: "在编辑器中跳转到符号...", action: MenuAction::ToggleOutline, os_action: None });
    items.push(MenuItem::Action { name: "跳转到行/列...", action: MenuAction::ToggleGoToLine, os_action: None });
    items.push(MenuItem::Separator);
    items.push(MenuItem::Action { name: "转到定义", action: MenuAction::GoToDefinition, os_action: None });
    items.push(MenuItem::Action { name: "转到声明", action: MenuAction::GoToDeclaration, os_action: None });
    items.push(MenuItem::Action { name: "转到类型定义", action: MenuAction::GoToTypeDefinition, os_action: None });
    items.push(MenuItem::Action { name: "查找所有引用", action: MenuAction::FindAllReferences, os_action: None });
    items.push(MenuItem::Separator);
    items.push(MenuItem::Action { name: "下个问题", action: MenuAction::GoToDiagnostic, os_action: None });
    items.push(MenuItem::Action { name: "上个问题", action: MenuAction::GoToPreviousDiagnostic, os_action: None });
    assert(items@.map_values(|i: MenuItem| item_view(i)) =~= spec_go_items());
    Menu { name: "继续", disabled: false, items }
}

/// The items of the "运行" menu.
pub open spec fn spec_run_items() -> Seq<ItemView> {
    seq![
        ItemView::Action { name: "生成任务", action: MenuAction::SpawnViaModal, os_action: None },
        ItemView::Action { name: "开始调试", action: MenuAction::Start, os_action: None },
        ItemView::Separator,
        ItemView::Action { name: "编辑 tasks.json...", action: MenuAction::OpenProjectTasks, os_action: None },
        ItemView::Action { name: "编辑 debug.json...", action: MenuAction::OpenProjectDebugTasks, os_action: None },
        ItemView::Separator,
        ItemView::Action { name: "继续", action: MenuAction::Continue, os_action: None },
        ItemView::Action { name: "单步跳过", action: MenuAction::StepOver, os_action: None },
        ItemView::Action { name: "单步进入", action: MenuAction::StepInto, os_action: None },
        ItemView::Action { name: "单步跳出", action: MenuAction::StepOut, os_action: None },
        ItemView::Separator,
        ItemView::Action { name: "切换断点", action: MenuAction::ToggleBreakpoint, os_action: None },
        ItemView::Action { name: "编辑断点", action: MenuAction::EditLogBreakpoint, os_action: None },
        ItemView::Action { name: "Clear All Breakpoints", action: MenuAction::ClearAllBreakpoints, os_action: None },
    ]
}

/// The "运行" menu.
pub open spec fn spec_run_menu() -> MenuView {
    MenuView { name: "运行", disabled: false, items: spec_run_items() }
}

/// The "运行" menu.
pub fn run_menu() -> (m: Menu)
    ensures
        m@ == spec_run_menu(),
{
    let mut items: Vec<MenuItem> = Vec::new();
    items.push(MenuItem::Action { name: "生成任务", action: MenuAction::SpawnViaModal, os_action: None });
    items.push(MenuItem::Action { name: "开始调试", action: MenuAction::Start, os_action: None });
    items.push(MenuItem::Separator);
    items.push(MenuItem::Action { name: "编辑 tasks.json...", action: MenuAction::OpenProjectTasks, os_action: None });
    items.push(MenuItem::Action { name: "编辑 debug.json...", action: MenuAction::OpenProjectDebugTasks, os_action: None });
    items.push(MenuItem::Separator);
    items.push(MenuItem::Action { name: "继续", action: MenuAction::Continue, os_action: None });
    items.push(MenuItem::Action { name: "单步跳过", action: MenuAction::StepOver, os_action: None });
    items.push(MenuItem::Action { name: "单步进入", action: MenuAction::StepInto, os_action: None });
    items.push(MenuItem::Action { name: "单步跳出", action: MenuAction::StepOut, os_action: None });
    items.push(MenuItem::Separator);
    items.push(MenuItem::Action { name: "切换断点", action: MenuAction::ToggleBreakpoint, os_action: None });
    items.push(MenuItem::Action { name: "编辑断点", action: MenuAction::EditLogBreakpoint, os_action: None });
    items.push(MenuItem::Action { name: "Clear All Breakpoints", action: MenuAction::ClearAllBreakpoints, os_action: None });
    assert(items@.map_values(|i: MenuItem| item_view(i)) =~= spec_run_items());
    Menu { name: "运行", disabled: false, items }
}

/// The items of the "窗口" menu.
pub open spec fn spec_window_items() -> Seq<ItemView> {
    seq![
        ItemView::Action { name: "最小化", action: MenuAction::Minimize, os_action: None },
        ItemView::Action { name: "缩放", action: MenuAction::Zoom, os_action: None },
        ItemView::Separator,
    ]
}

/// The "窗口" menu.
pub open spec fn spec_window_menu() -> MenuView {
    MenuView { name: "窗口", disabled: false, items: spec_window_items() }
}

/// The "窗口" menu.
pub fn window_menu() -> (m: Menu)
    ensures
        m@ == spec_window_menu(),
{
    let mut items: Vec<MenuItem> = Vec::new();
    items.push(MenuItem::Action { name: "最小化", action: MenuAction::Minimize, os_action: None });
    items.push(MenuItem::Action { name: "缩放", action: MenuAction::Zoom, os_action: None });
    items.push(MenuItem::Separator);
    assert(items@.map_values(|i: MenuItem| item_view(i)) =~= spec_window_items());
    Menu { name: "窗口", disabled: false, items }
}

/// The items of the "帮助" menu.
pub open spec fn spec_help_items() -> Seq<ItemView> {
    seq![
        ItemView::Action { name: "本地查看版本说明", action: MenuAction::ViewReleaseNotesLocally, os_action: None },
        ItemView::Action { name: "查看遥测", action: MenuAction::OpenTelemetryLog, os_action: None },
        ItemView::Action { name: "查看依赖项许可", action: MenuAction::OpenLicenses, os_action: None },
        ItemView::Action { name: "显示欢迎页", action: MenuAction::ShowWelcome, os_action: None },
        ItemView::Separator,
        ItemView::Action { name: "提交错误报告...", action: MenuAction::FileBugReport, os_action: None },
        ItemView::Action { name: "请求功能...", action: MenuAction::RequestFeature, os_action: None },
        ItemView::Action { name: "给我们发送电子邮件...", action: MenuAction::EmailZed, os_action: None },
        ItemView::Separator,
        ItemView::Action { name: "文档", action: MenuAction::OpenBrowser { url: "https://zed.dev/docs" }, os_action: None },
        ItemView::Action { name: "AIReach 代码仓库", action: MenuAction::OpenZedRepo, os_action: None },
        ItemView::Action { name: "Zed Twitter", action: MenuAction::OpenBrowser { url: "https://twitter.com/zeddotdev" }, os_action: None },
        ItemView::Action { name: "加入团队", action: MenuAction::OpenBrowser { url: "https://zed.dev/jobs" }, os_action: None },
    ]
}

/// The "帮助" menu.
pub open spec fn spec_help_menu() -> MenuView {
    MenuView { name: "帮助", disabled: false, items: spec_help_items() }
}

/// The "帮助" menu.
pub fn help_menu() -> (m: Menu)
    ensures
        m@ == spec_help_menu(),
{
    let mut items: Vec<MenuItem> = Vec::new();
    items.push(MenuItem::Action { name: "本地查看版本说明", action: MenuAction::ViewReleaseNotesLocally, os_action: None });
    items.push(MenuItem::Action { name: "查看遥测", action: MenuAction::OpenTelemetryLog, os_action: None });
    items.push(MenuItem::Action { name: "查看依赖项许可", action: MenuAction::OpenLicenses, os_action: None });
    items.push(MenuItem::Action { name: "显示欢迎页", action: MenuAction::ShowWelcome, os_action: None });
    items.push(MenuItem::Separator);
    items.push(MenuItem::Action { name: "提交错误报告...", action: MenuAction::FileBugReport, os_action: None });
    items.push(MenuItem::Action { name: "请求功能...", action: MenuAction::RequestFeature, os_action: None });
    items.push(MenuItem::Action { name: "给我们发送电子邮件...", action: MenuAction::EmailZed, os_action: None });
    items.push(MenuItem::Separator);
    items.push(MenuItem::Action { name: "文档", action: MenuAction::OpenBrowser { url: "https://zed.dev/docs" }, os_action: None });
    items.push(MenuItem::Action { name: "AIReach 代码仓库", action: MenuAction::OpenZedRepo, os_action: None });
    items.push(MenuItem::Action { name: "Zed Twitter", action: MenuAction::OpenBrowser { url: "https://twitter.com/zeddotdev" }, os_action: None });
    items.push(MenuItem::Action { name: "加入团队", action: MenuAction::OpenBrowser { url: "https://zed.dev/jobs" }, os_action: None });
    assert(items@.map_values(|i: MenuItem| item_view(i)) =~= spec_help_items());
    Menu { name: "帮助", disabled: false, items }
}

/// Whether the application runs on the development channel.
pub open spec fn is_dev(release_channel: Option<ReleaseChannel>) -> bool {
    release_channel == Some(ReleaseChannel::Dev)
}

/// The menu bar, menu by menu.
pub open spec fn spec_app_menus(release_channel: Option<ReleaseChannel>, os: TargetOs) -> Seq<MenuView> {
    seq![
        spec_app_menu(os),
        spec_file_menu(os),
        spec_edit_menu(),
        spec_selection_menu(),
        spec_view_menu(is_dev(release_channel)),
        spec_go_menu(),
        spec_run_menu(),
        spec_window_menu(),
        spec_help_menu(),
    ]
}

/// The menu bar of the application running on `release_channel` (none
/// when it is not known) and on `os`.
pub fn app_menus(release_channel: Option<ReleaseChannel>, os: TargetOs) -> (r: Vec<Menu>)
    ensures
        r@.map_values(|m: Menu| m@) == spec_app_menus(release_channel, os),
{
    let dev = match release_channel {
        Some(ReleaseChannel::Dev) => true,
        _ => false,
    };
    let mut r: Vec<Menu> = Vec::new();
    r.push(app_menu(os));
    r.push(file_menu(os));
    r.push(edit_menu());
    r.push(selection_menu());
    r.push(view_menu(dev));
    r.push(go_menu());
    r.push(run_menu());
    r.push(window_menu());
    r.push(help_menu());
    assert(r@.map_values(|m: Menu| m@) =~= spec_app_menus(release_channel, os));
    r
}

/// The menu bar always has the same nine menus, in the same order, none of
/// them disabled, whatever the channel and the operating system.
pub proof fn lemma_menu_bar_shape(release_channel: Option<ReleaseChannel>, os: TargetOs)
    ensures
        spec_app_menus(release_channel, os).len() == 9,
        spec_app_menus(release_channel, os).map_values(|m: MenuView| m.name)
            == seq!["AIReach", "文件", "编辑", "选择", "视图", "继续", "运行", "窗口", "帮助"],
        forall|i: int| 0 <= i < 9 ==> !(#[trigger] spec_app_menus(release_channel, os)[i]).disabled,
{
    assert(spec_app_menus(release_channel, os).map_values(|m: MenuView| m.name)
        =~= seq!["AIReach", "文件", "编辑", "选择", "视图", "继续", "运行", "窗口", "帮助"]);
}

/// On the development channel the view menu ends with the inspector toggle
/// and a separator; every other menu, and the rest of the view menu, is
/// what any other channel, or an unknown one, shows.
pub proof fn lemma_dev_channel_adds_inspector(release_channel: Option<ReleaseChannel>, os: TargetOs)
    requires
        !is_dev(release_channel),
    ensures
        spec_app_menus(release_channel, os) == spec_app_menus(None, os),
        spec_app_menus(Some(ReleaseChannel::Dev), os)[4].items == spec_app_menus(None, os)[4].items
            + seq![
                ItemView::Action { name: "Toggle GPUI Inspector", action: MenuAction::ToggleInspector, os_action: None },
                ItemView::Separator,
            ],
        forall|i: int| 0 <= i < 9 && i != 4 ==>
            #[trigger] spec_app_menus(Some(ReleaseChannel::Dev), os)[i] == spec_app_menus(None, os)[i],
{
    assert(spec_view_items(true) =~= spec_view_items(false) + seq![
        ItemView::Action { name: "Toggle GPUI Inspector", action: MenuAction::ToggleInspector, os_action: None },
        ItemView::Separator,
    ]);
}

/// The "服务" system menu and the hide and show-all actions are on the
/// application menu exactly on macOS; installing the command line tool is
/// offered everywhere but on Windows; opening files one by one is offered
/// everywhere but on macOS.
pub proof fn lemma_platform_items(os: TargetOs)
    ensures
        spec_app_items(os).contains(ItemView::SystemMenu { name: "服务", menu_type: SystemMenuType::Services })
            <==> os == TargetOs::MacOs,
        spec_app_items(os).contains(ItemView::Action { name: "隐藏其他", action: MenuAction::HideOthers, os_action: None })
            <==> os == TargetOs::MacOs,
        spec_app_items(os).contains(ItemView::Action { name: "安装命令行工具", action: MenuAction::InstallCliBinary, os_action: None })
            <==> os != TargetOs::Windows,
        spec_file_items(os).contains(ItemView::Action { name: "打开文件...", action: MenuAction::OpenFiles, os_action: None })
            <==> os != TargetOs::MacOs,
{
    let services = ItemView::SystemMenu { name: "服务", menu_type: SystemMenuType::Services };
    let hide_others = ItemView::Action { name: "隐藏其他", action: MenuAction::HideOthers, os_action: None };
    let install = ItemView::Action { name: "安装命令行工具", action: MenuAction::InstallCliBinary, os_action: None };
    let open_files = ItemView::Action { name: "打开文件...", action: MenuAction::OpenFiles, os_action: None };
    let app = spec_app_items(os);
    let file = spec_file_items(os);
    match os {
        TargetOs::MacOs => {
            assert(app[5] == services);
            assert(app[11] == hide_others);
            assert(app[8] == install);
            assert forall|i: int| 0 <= i < file.len() implies file[i] != open_files by {}
        },
        TargetOs::Windows => {
            assert forall|i: int| 0 <= i < app.len() implies app[i] != services && app[i] != hide_others && app[i] != install by {}
            assert(file[3] == open_files);
        },
        TargetOs::Linux => {
            assert forall|i: int| 0 <= i < app.len() implies app[i] != services && app[i] != hide_others by {}
            assert(app[7] == install);
            assert(file[3] == open_files);
        },
    }
}

/// The action an item dispatches, if it is an action item.
pub open spec fn item_action(item: ItemView) -> Option<MenuAction> {
    match item {
        ItemView::Action { action, .. } => Some(action),
        _ => None,
    }
}

/// The label of an action item.
pub open spec fn item_label(item: ItemView) -> Option<&'static str> {
    match item {
        ItemView::Action { name, .. } => Some(name),
        _ => None,
    }
}

/// Whether some item of `items` dispatches `action`.
pub open spec fn dispatches(items: Seq<ItemView>, action: MenuAction) -> bool {
    exists|i: int| 0 <= i < items.len() && item_action(#[trigger] items[i]) == Some(action)
}

/// No two action items of `items` dispatch the same action.
pub open spec fn actions_distinct(items: Seq<ItemView>) -> bool {
    forall|i: int, j: int|
        0 <= i < j < items.len() && item_action(#[trigger] items[i]) is Some
            ==> item_action(items[i]) != item_action(#[trigger] items[j])
}

/// The inspector toggle is on the view menu exactly on the development
/// channel, and on no other menu; on every other channel, and on an
/// unknown one, the menu bar is the same.
pub proof fn lemma_inspector_only_on_dev(release_channel: Option<ReleaseChannel>, os: TargetOs)
    ensures
        dispatches(spec_app_menus(release_channel, os)[4].items, MenuAction::ToggleInspector)
            <==> release_channel == Some(ReleaseChannel::Dev),
        release_channel != Some(ReleaseChannel::Dev)
            ==> spec_app_menus(release_channel, os) == spec_app_menus(None, os),
{
    let view = spec_app_menus(release_channel, os)[4].items;
    assert(view == spec_view_items(is_dev(release_channel)));
    if release_channel == Some(ReleaseChannel::Dev) {
        assert(item_action(view[19]) == Some(MenuAction::ToggleInspector));
    } else {
        assert forall|i: int| 0 <= i < view.len() implies item_action(#[trigger] view[i]) != Some(MenuAction::ToggleInspector) by {}
    }
}

/// The run menu's actions are distinct, and its debugger items are, in
/// order, continue, step over, step into and step out, each under its own
/// label.
pub proof fn lemma_run_menu_debugger_items()
    ensures
        actions_distinct(spec_run_items()),
        exists|k: int|
            0 <= k && k + 3 < spec_run_items().len()
            && item_action(#[trigger] spec_run_items()[k]) == Some(MenuAction::Continue)
            && item_label(spec_run_items()[k]) == Some("继续")
            && item_action(spec_run_items()[k + 1]) == Some(MenuAction::StepOver)
            && item_label(spec_run_items()[k + 1]) == Some("单步跳过")
            && item_action(spec_run_items()[k + 2]) == Some(MenuAction::StepInto)
            && item_label(spec_run_items()[k + 2]) == Some("单步进入")
            && item_action(spec_run_items()[k + 3]) == Some(MenuAction::StepOut)
            && item_label(spec_run_items()[k + 3]) == Some("单步跳出"),
{
    let items = spec_run_items();
    assert(item_action(items[6]) == Some(MenuAction::Continue));
    assert forall|i: int, j: int|
        0 <= i < j < items.len() && item_action(#[trigger] items[i]) is Some
        implies item_action(items[i]) != item_action(#[trigger] items[j]) by {}
}

/// The action an entry of a submenu dispatches, if it is an action entry.
pub open spec fn entry_action(entry: EntryView) -> Option<MenuAction> {
    match entry {
        EntryView::Action { action, .. } => Some(action),
        _ => None,
    }
}

/// No two action entries of a submenu dispatch the same action.
pub open spec fn entry_actions_distinct(entries: Seq<EntryView>) -> bool {
    forall|i: int, j: int|
        0 <= i < j < entries.len() && entry_action(#[trigger] entries[i]) is Some
            ==> entry_action(entries[i]) != entry_action(#[trigger] entries[j])
}

/// Within each menu of the menu bar, and within each submenu, no two items
/// dispatch the same action, whatever the channel and the operating system.
pub proof fn lemma_menu_actions_distinct(release_channel: Option<ReleaseChannel>, os: TargetOs)
    ensures
        forall|m: int| 0 <= m < 9 ==> actions_distinct(#[trigger] spec_app_menus(release_channel, os)[m].items),
        entry_actions_distinct(spec_settings_entries()),
        entry_actions_distinct(spec_editor_layout_entries()),
{
    let menus = spec_app_menus(release_channel, os);
    assert forall|i: int, j: int|
        0 <= i < j < spec_settings_entries().len() && entry_action(#[trigger] spec_settings_entries()[i]) is Some
        implies entry_action(spec_settings_entries()[i]) != entry_action(#[trigger] spec_settings_entries()[j]) by {}
    assert forall|i: int, j: int|
        0 <= i < j < spec_editor_layout_entries().len() && entry_action(#[trigger] spec_editor_layout_entries()[i]) is Some
        implies entry_action(spec_editor_layout_entries()[i]) != entry_action(#[trigger] spec_editor_layout_entries()[j]) by {}
    let a = spec_app_items(os);
    assert forall|i: int, j: int| 0 <= i < j < a.len() && item_action(#[trigger] a[i]) is Some
        implies item_action(a[i]) != item_action(#[trigger] a[j]) by {}
    let f = spec_file_items(os);
    assert forall|i: int, j: int| 0 <= i < j < f.len() && item_action(#[trigger] f[i]) is Some
        implies item_action(f[i]) != item_action(#[trigger] f[j]) by {}
    let e = spec_edit_items();
    assert forall|i: int, j: int| 0 <= i < j < e.len() && item_action(#[trigger] e[i]) is Some
        implies item_action(e[i]) != item_action(#[trigger] e[j]) by {}
    let sel = spec_selection_items();
    assert forall|i: int, j: int| 0 <= i < j < sel.len() && item_action(#[trigger] sel[i]) is Some
        implies item_action(sel[i]) != item_action(#[trigger] sel[j]) by {}
    let v = spec_view_items(is_dev(release_channel));
    assert forall|i: int, j: int| 0 <= i < j < v.len() && item_action(#[trigger] v[i]) is Some
        implies item_action(v[i]) != item_action(#[trigger] v[j]) by {}
    let g = spec_go_items();
    assert forall|i: int, j: int| 0 <= i < j < g.len() && item_action(#[trigger] g[i]) is Some
        implies item_action(g[i]) != item_action(#[trigger] g[j]) by {}
    let r = spec_run_items();
    assert forall|i: int, j: int| 0 <= i < j < r.len() && item_action(#[trigger] r[i]) is Some
        implies item_action(r[i]) != item_action(#[trigger] r[j]) by {}
    let w = spec_window_items();
    assert forall|i: int, j: int| 0 <= i < j < w.len() && item_action(#[trigger] w[i]) is Some
        implies item_action(w[i]) != item_action(#[trigger] w[j]) by {}
    let h = spec_help_items();
    assert forall|i: int, j: int| 0 <= i < j < h.len() && item_action(#[trigger] h[i]) is Some
        implies item_action(h[i]) != item_action(#[trigger] h[j]) by {}
    assert forall|m: int| 0 <= m < 9 implies actions_distinct(#[trigger] menus[m].items) by {
        if m == 0 { assert(menus[m].items == a); }
        else if m == 1 { assert(menus[m].items == f); }
        else if m == 2 { assert(menus[m].items == e); }
        else if m == 3 { assert(menus[m].items == sel); }
        else if m == 4 { assert(menus[m].items == v); }
        else if m == 5 { assert(menus[m].items == g); }
        else if m == 6 { assert(menus[m].items == r); }
        else if m == 7 { assert(menus[m].items == w); }
        else { assert(menus[m].items == h); }
    }
}

} // verus!
