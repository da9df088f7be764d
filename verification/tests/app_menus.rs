use zed_core::app_menus::{
    app_menus, Menu, MenuAction, MenuItem, OsAction, ReleaseChannel, SystemMenuType, TargetOs,
};

fn names(menus: &[Menu]) -> Vec<&'static str> {
    menus.iter().map(|m| m.name).collect()
}

fn labels(menu: &Menu) -> Vec<&'static str> {
    menu.items
        .iter()
        .map(|i| match i {
            MenuItem::Separator => "-",
            MenuItem::Submenu(m) => m.name,
            MenuItem::SystemMenu { name, .. } => name,
            MenuItem::Action { name, .. } => name,
        })
        .collect()
}

fn has_action(menu: &Menu, action: MenuAction) -> bool {
    menu.items.iter().any(|i| matches!(i, MenuItem::Action { action: a, .. } if *a == action))
}

#[test]
fn menu_bar_names() {
    for os in [TargetOs::MacOs, TargetOs::Windows, TargetOs::Linux] {
        for channel in [None, Some(ReleaseChannel::Dev), Some(ReleaseChannel::Stable)] {
            let menus = app_menus(channel, os);
            assert_eq!(
                names(&menus),
                vec!["AIReach", "文件", "编辑", "选择", "视图", "继续", "运行", "窗口", "帮助"]
            );
            assert!(menus.iter().all(|m| !m.disabled));
        }
    }
}

#[test]
fn dev_channel_adds_inspector() {
    let dev = app_menus(Some(ReleaseChannel::Dev), TargetOs::Linux);
    let stable = app_menus(Some(ReleaseChannel::Stable), TargetOs::Linux);
    let mut expected = labels(&stable[4]);
    expected.push("Toggle GPUI Inspector");
    expected.push("-");
    assert_eq!(labels(&dev[4]), expected);
    assert!(has_action(&dev[4], MenuAction::ToggleInspector));
    assert!(!has_action(&stable[4], MenuAction::ToggleInspector));
    assert!(!has_action(&app_menus(None, TargetOs::Linux)[4], MenuAction::ToggleInspector));
    for i in [0, 1, 2, 3, 5, 6, 7, 8] {
        assert_eq!(labels(&dev[i]), labels(&stable[i]));
    }
}

#[test]
fn application_menu_on_macos() {
    let menus = app_menus(None, TargetOs::MacOs);
    assert_eq!(
        labels(&menus[0]),
        vec![
            "关于 AIReach", "检查更新", "-", "设置", "-", "服务", "-", "插件", "安装命令行工具", "-",
            "隐藏 AIReach", "隐藏其他", "全部显示", "-", "退出AIReach",
        ]
    );
    assert!(matches!(
        menus[0].items[5],
        MenuItem::SystemMenu { name: "服务", menu_type: SystemMenuType::Services }
    ));
}

#[test]
fn application_menu_on_windows() {
    let menus = app_menus(None, TargetOs::Windows);
    assert_eq!(
        labels(&menus[0]),
        vec!["关于 AIReach", "检查更新", "-", "设置", "-", "-", "插件", "-", "-", "退出AIReach"]
    );
}

#[test]
fn settings_submenu() {
    let menus = app_menus(None, TargetOs::Linux);
    match &menus[0].items[3] {
        MenuItem::Submenu(m) => {
            assert_eq!(m.name, "设置");
            assert_eq!(m.items.len(), 12);
            assert!(has_action(m, MenuAction::OpenDefaultKeymap));
            assert!(has_action(m, MenuAction::IconThemeSelectorToggle));
        }
        _ => panic!("expected the settings submenu"),
    }
}

#[test]
fn file_menu_depends_on_os() {
    let mac = app_menus(None, TargetOs::MacOs);
    let linux = app_menus(None, TargetOs::Linux);
    assert_eq!(labels(&mac[1])[3], "打开…");
    assert!(!has_action(&mac[1], MenuAction::OpenFiles));
    assert_eq!(labels(&linux[1])[3], "打开文件...");
    assert_eq!(labels(&linux[1])[4], "打开文件夹...");
    assert!(has_action(
        &linux[1],
        MenuAction::OpenRemote { create_new_window: false, from_existing_connection: false }
    ));
    assert!(has_action(&linux[1], MenuAction::CloseActiveItem { close_pinned: true }));
}

#[test]
fn edit_menu_routes_os_actions() {
    let menus = app_menus(None, TargetOs::MacOs);
    let os_actions: Vec<OsAction> = menus[2]
        .items
        .iter()
        .filter_map(|i| match i {
            MenuItem::Action { os_action, .. } => *os_action,
            _ => None,
        })
        .collect();
    assert_eq!(
        os_actions,
        vec![OsAction::Undo, OsAction::Redo, OsAction::Cut, OsAction::Copy, OsAction::Paste]
    );
}

#[test]
fn help_menu_links() {
    let menus = app_menus(None, TargetOs::Linux);
    assert!(has_action(&menus[8], MenuAction::OpenBrowser { url: "https://zed.dev/docs" }));
    assert!(has_action(&menus[8], MenuAction::OpenBrowser { url: "https://twitter.com/zeddotdev" }));
    assert!(has_action(&menus[8], MenuAction::OpenBrowser { url: "https://zed.dev/jobs" }));
    assert_eq!(labels(&menus[7]), vec!["最小化", "缩放", "-"]);
}
