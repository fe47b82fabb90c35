//! Data for the chrome widgets: tabs, the activity bar and the minimap.
//! These carry what the host view paints; the painting itself lives with the
//! toolkit, outside this crate.

use vstd::prelude::*;

verus! {

/// Represents a single tab.
#[derive(Clone)]
pub struct Tab {
    pub name: String,
    pub icon: String,
    pub is_modified: bool,
}

impl Tab {
    pub fn new(name: String, icon: String) -> (r: Self)
        ensures
            r.name == name,
            r.icon == icon,
            r.is_modified == false,
    {
        Tab { name, icon, is_modified: false }
    }

    pub fn modified(self, is_modified: bool) -> (r: Self)
        ensures
            r.name == self.name,
            r.icon == self.icon,
            r.is_modified == is_modified,
    {
        Tab { name: self.name, icon: self.icon, is_modified }
    }
}

/// Response from the tab bar widget.
pub struct TabBarResponse {
    pub activated: Option<usize>,
    pub closed: Option<usize>,
}

/// The tab bar's data: the tabs and which one is active.
pub struct TabBar {
    pub tabs: Vec<Tab>,
    pub active_index: usize,
}

impl TabBar {
    pub fn new(tabs: Vec<Tab>, active_index: usize) -> (r: Self)
        ensures
            r.tabs == tabs,
            r.active_index == active_index,
    {
        TabBar { tabs, active_index }
    }
}

/// Activity items for the activity bar.
#[derive(Clone, Copy, PartialEq, Eq, Structural, Debug)]
pub enum ActivityItem {
    Explorer,
    Search,
    Git,
    Extensions,
}

impl ActivityItem {
    pub fn icon(&self) -> (r: &'static str)
        ensures
            r@ == match *self {
                ActivityItem::Explorer => "E"@,
                ActivityItem::Search => "S"@,
                ActivityItem::Git => "G"@,
                ActivityItem::Extensions => "X"@,
            },
    {
        match self {
            ActivityItem::Explorer => "E",
            ActivityItem::Search => "S",
            ActivityItem::Git => "G",
            ActivityItem::Extensions => "X",
        }
    }

    pub fn tooltip(&self) -> (r: &'static str)
        ensures
            r@ == match *self {
                ActivityItem::Explorer => "Explorer (Ctrl+Shift+E)"@,
                ActivityItem::Search => "Search (Ctrl+Shift+F)"@,
                ActivityItem::Git => "Source Control (Ctrl+Shift+G)"@,
                ActivityItem::Extensions => "Extensions (Ctrl+Shift+X)"@,
            },
    {
        match self {
            ActivityItem::Explorer => "Explorer (Ctrl+Shift+E)",
            ActivityItem::Search => "Search (Ctrl+Shift+F)",
            ActivityItem::Git => "Source Control (Ctrl+Shift+G)",
            ActivityItem::Extensions => "Extensions (Ctrl+Shift+X)",
        }
    }
}

/// The activity bar's data: the active item and the source-control badge
/// count.
pub struct ActivityBar {
    pub active_item: ActivityItem,
    pub git_changes: usize,
}

impl ActivityBar {
    pub fn new(active_item: ActivityItem) -> (r: Self)
        ensures
            r.active_item == active_item,
            r.git_changes == 0,
    {
        ActivityBar { active_item, git_changes: 0 }
    }

    pub fn git_changes(self, count: usize) -> (r: Self)
        ensures
            r.active_item == self.active_item,
            r.git_changes == count,
    {
        ActivityBar { active_item: self.active_item, git_changes: count }
    }
}

/// Response from the activity bar widget.
pub struct ActivityBarResponse {
    pub clicked_item: Option<ActivityItem>,
}

/// The minimap's data: a condensed overview of the text with a viewport
/// indicator.
pub struct Minimap<'a> {
    pub text: &'a str,
    pub total_lines: usize,
    pub visible_lines: (usize, usize),
    pub current_line: usize,
}

impl<'a> Minimap<'a> {
    /// A minimap over the text; the line count is kept at least one.
    pub fn new(text: &'a str, total_lines: usize) -> (r: Self)
        ensures
            r.text@ == text@,
            r.total_lines == if total_lines == 0 {
                1usize
            } else {
                total_lines
            },
            r.visible_lines == (1usize, 50usize),
            r.current_line == 1,
    {
        let lines = if total_lines == 0 {
            1
        } else {
            total_lines
        };
        Minimap { text, total_lines: lines, visible_lines: (1, 50), current_line: 1 }
    }

    pub fn visible_lines(self, range: (usize, usize)) -> (r: Self)
        ensures
            r.text@ == self.text@,
            r.total_lines == self.total_lines,
            r.visible_lines == range,
            r.current_line == self.current_line,
    {
        Minimap {
            text: self.text,
            total_lines: self.total_lines,
            visible_lines: range,
            current_line: self.current_line,
        }
    }

    pub fn current_line(self, line: usize) -> (r: Self)
        ensures
            r.text@ == self.text@,
            r.total_lines == self.total_lines,
            r.visible_lines == self.visible_lines,
            r.current_line == line,
    {
        Minimap {
            text: self.text,
            total_lines: self.total_lines,
            visible_lines: self.visible_lines,
            current_line: line,
        }
    }
}

/// Response from the minimap widget.
pub struct MinimapResponse {
    pub clicked_line: Option<usize>,
}

} // verus!
