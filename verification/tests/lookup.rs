use editor_core::fs_tree::extension_of;
use editor_core::fs_tree::file_name_of;
use editor_core::fs_tree::node_le_exec;
use editor_core::fs_tree::sort_nodes;
use editor_core::fs_tree::FileNode;
use editor_core::icons::get_icon;
use editor_core::icons::FOLDER_ICON;
use editor_core::status_bar::detect_language;
use editor_core::status_bar::StatusBar;
use editor_core::status_bar::StatusBarInfo;
use editor_core::widgets::ActivityBar;
use editor_core::widgets::ActivityItem;
use editor_core::widgets::Minimap;
use editor_core::widgets::Tab;
use editor_core::widgets::TabBar;

#[test]
fn icons_for_common_files() {
    assert_eq!(get_icon("main.rs"), "\u{1F980}");
    assert_eq!(get_icon("Cargo.toml"), "⚙\u{FE0F}");
    assert_eq!(get_icon("Cargo.lock"), "\u{1F512}");
    assert_eq!(get_icon("README.md"), "\u{1F4DD}");
    assert_eq!(get_icon("index.html"), "\u{1F310}");
    assert_eq!(get_icon("app.jsx"), "⚛\u{FE0F}");
    assert_eq!(get_icon("Dockerfile"), "\u{1F433}");
    assert_eq!(get_icon("docker-compose"), "\u{1F433}");
    assert_eq!(get_icon(".gitignore"), "\u{1F500}");
    assert_eq!(get_icon("unknown.xyz"), "\u{1F4C4}");
    assert_eq!(get_icon(""), "\u{1F4C4}");
    assert_eq!(FOLDER_ICON, "\u{1F4C1}");
}

#[test]
fn icon_lookup_is_case_insensitive() {
    // Would fail if case folding handed its input back unchanged.
    assert_eq!(get_icon("MAIN.RS"), "\u{1F980}");
    assert_eq!(get_icon("Notes.TXT"), "\u{1F4C4}");
    assert_eq!(get_icon("PHOTO.JPG"), "\u{1F5BC}\u{FE0F}");
}

#[test]
fn language_for_common_extensions() {
    assert_eq!(detect_language("rs"), "Rust");
    assert_eq!(detect_language("js"), "JavaScript");
    assert_eq!(detect_language("tsx"), "TypeScript React");
    assert_eq!(detect_language("yml"), "YAML");
    assert_eq!(detect_language("cpp"), "C++");
    assert_eq!(detect_language("weird"), "Plain Text");
    assert_eq!(detect_language(""), "Plain Text");
}

#[test]
fn language_lookup_is_case_insensitive() {
    assert_eq!(detect_language("PY"), "Python");
    assert_eq!(detect_language("Rs"), "Rust");
}

#[test]
fn file_names_are_the_last_real_component() {
    assert_eq!(file_name_of("/home/user/project/main.rs"), "main.rs");
    assert_eq!(file_name_of("main.rs"), "main.rs");
    assert_eq!(file_name_of(""), "");
}

#[test]
fn file_names_ignore_trailing_separators() {
    // Trailing separators do not hide the final component.
    assert_eq!(file_name_of("/usr/bin/"), "bin");
    assert_eq!(file_name_of("a/b//"), "b");
    assert_eq!(file_name_of("/"), "");
    assert_eq!(file_name_of("//"), "");
}

#[test]
fn file_names_skip_dot_components_and_reject_parent_components() {
    // A lone-dot component is skipped; a final parent component has no name.
    assert_eq!(file_name_of("a/."), "a");
    assert_eq!(file_name_of("a/./"), "a");
    assert_eq!(file_name_of("."), "");
    assert_eq!(file_name_of("foo/.."), "");
    assert_eq!(file_name_of(".."), "");
    assert_eq!(file_name_of("a/../"), "");
    // Dotfiles and names that merely contain dots are ordinary components.
    assert_eq!(file_name_of("a/.hidden"), ".hidden");
    assert_eq!(file_name_of("a/..b"), "..b");
    assert_eq!(file_name_of("a/b.."), "b..");
    assert_eq!(file_name_of("..."), "...");
}

#[test]
fn file_names_agree_with_std_paths() {
    // The library's path model reads names as std::path does.
    for p in [
        "/home/user/project/main.rs",
        "main.rs",
        "/usr/bin/",
        "a/b//",
        "/",
        "a/.",
        "a/./",
        ".",
        "foo/..",
        "..",
        "a/../",
        "a/.hidden",
        "a/..b",
        "a/b..",
        "...",
        "",
    ] {
        let expected = std::path::Path::new(p)
            .file_name()
            .map(|n| n.to_string_lossy().into_owned())
            .unwrap_or_default();
        assert_eq!(file_name_of(p), expected, "path {:?}", p);
    }
}

#[test]
fn extensions_fall_back_to_plain_text() {
    assert_eq!(extension_of("main.rs"), "rs");
    assert_eq!(extension_of("archive.tar.gz"), "gz");
    assert_eq!(extension_of("Makefile"), "txt");
    assert_eq!(extension_of(".gitignore"), "txt");
    assert_eq!(extension_of(""), "txt");
}

#[test]
fn explorer_sort_puts_directories_first_then_names() {
    let nodes = vec![
        FileNode::new("r/z.txt".to_string(), false, vec![]),
        FileNode::new("r/src".to_string(), true, vec![]),
        FileNode::new("r/a.txt".to_string(), false, vec![]),
        FileNode::new("r/docs".to_string(), true, vec![]),
    ];
    let sorted = sort_nodes(nodes);
    let names: Vec<String> = sorted.iter().map(|n| n.name()).collect();
    assert_eq!(names, vec!["docs", "src", "a.txt", "z.txt"]);
    assert!(sorted[0].is_dir && sorted[1].is_dir);
    assert!(!sorted[2].is_dir && !sorted[3].is_dir);
}

#[test]
fn node_ordering_is_by_directory_flag_then_name() {
    let d = FileNode::new("x/beta".to_string(), true, vec![]);
    let f = FileNode::new("x/alpha".to_string(), false, vec![]);
    assert!(node_le_exec(&d, &f));
    assert!(!node_le_exec(&f, &d));
    let a = FileNode::new("x/a".to_string(), false, vec![]);
    let b = FileNode::new("x/b".to_string(), false, vec![]);
    assert!(node_le_exec(&a, &b));
    assert!(!node_le_exec(&b, &a));
}

#[test]
fn tab_builder_carries_name_icon_and_modified_flag() {
    let t = Tab::new("main.rs".to_string(), get_icon("main.rs").to_string());
    assert_eq!(t.name, "main.rs");
    assert!(!t.is_modified);
    let t = t.modified(true);
    assert!(t.is_modified);
    let bar = TabBar::new(vec![t], 0);
    assert_eq!(bar.tabs.len(), 1);
    assert_eq!(bar.active_index, 0);
}

#[test]
fn activity_bar_builder_and_item_labels() {
    let bar = ActivityBar::new(ActivityItem::Explorer).git_changes(3);
    assert_eq!(bar.active_item, ActivityItem::Explorer);
    assert_eq!(bar.git_changes, 3);
    assert_eq!(ActivityItem::Explorer.icon(), "E");
    assert_eq!(ActivityItem::Git.tooltip(), "Source Control (Ctrl+Shift+G)");
}

#[test]
fn minimap_builder_clamps_line_count_to_one() {
    let m = Minimap::new("", 0);
    assert_eq!(m.total_lines, 1);
    let m = Minimap::new("a\nb", 2).visible_lines((1, 10)).current_line(2);
    assert_eq!(m.total_lines, 2);
    assert_eq!(m.visible_lines, (1, 10));
    assert_eq!(m.current_line, 2);
}

#[test]
fn status_bar_defaults_and_builder() {
    let info = StatusBarInfo::default();
    assert_eq!(info.language, "Plain Text");
    assert_eq!(info.encoding, "UTF-8");
    assert_eq!(info.line_ending, "LF");
    assert_eq!(info.total_lines, 0);
    let bar = StatusBar::new(info).file_name(Some("main.rs".to_string()));
    assert_eq!(bar.file_name, Some("main.rs".to_string()));
}
