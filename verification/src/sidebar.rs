//! The sidebar's tab strip: which tabs exist and which one is selected.
//!
//! Rendering belongs to the host; the library only keeps the tab data and
//! the selection.
use vstd::prelude::*;

verus! {

broadcast use vstd::string::group_string_axioms;

/// One sidebar tab: an icon codepoint, a caption, or both.
#[derive(Clone, Debug)]
pub struct Tab {
    pub icon: Option<char>,
    pub text: Option<String>,
}

/// The tab strip and the index of the selected tab.
#[derive(Clone, Debug)]
pub struct Sidebar {
    pub tabs: Vec<Tab>,
    pub selected: usize,
}

/// What the host reports back from the rendered sidebar.
#[derive(Clone, Copy, Debug, PartialEq, Eq, Structural)]
pub enum Message {
    TabSelected(usize),
}

impl Tab {
    pub fn new(icon: Option<char>, text: Option<&str>) -> (r: Self)
        ensures
            r.icon == icon,
            match text {
                Some(t) => r.text matches Some(s) && s@ == t@,
                None => r.text is None,
            },
    {
        let owned = match text {
            Some(t) => Some(t.to_string()),
            None => None,
        };
        Tab { icon, text: owned }
    }

    /// A tab showing only an icon.
    pub fn icon(char: char) -> (r: Tab)
        ensures
            r.icon == Some(char),
            r.text is None,
    {
        Tab::new(Some(char), None)
    }

    /// A tab showing only a caption.
    pub fn text(str: &str) -> (r: Tab)
        ensures
            r.icon is None,
            r.text matches Some(t) && t@ == str@,
    {
        Tab::new(None, Some(str))
    }

    /// A tab showing an icon and a caption.
    pub fn icon_text(char: char, str: &str) -> (r: Tab)
        ensures
            r.icon == Some(char),
            r.text matches Some(t) && t@ == str@,
    {
        Tab::new(Some(char), Some(str))
    }
}

impl Sidebar {
    pub fn new(tabs: Vec<Tab>, selected: usize) -> (r: Self)
        ensures
            r.tabs == tabs,
            r.selected == selected,
    {
        Sidebar { tabs, selected }
    }

    /// Applies a selection reported by the host; the tabs themselves never
    /// change.
    pub fn update(&mut self, message: Message)
        ensures
            final(self).tabs == old(self).tabs,
            final(self).selected == message->TabSelected_0,
    {
        match message {
            Message::TabSelected(id) => {
                self.selected = id;
            },
        }
    }
}

} // verus!
