use cambio_torrefaction::Screen;
use cambio_torrefaction::sidebar::{Message, Sidebar, Tab};

#[test]
fn screen_indexes_round_trip() {
    assert_eq!(Screen::Recipe.index(), 0);
    assert_eq!(Screen::Settings.index(), 1);
    assert_eq!(Screen::from_index(0), Some(Screen::Recipe));
    assert_eq!(Screen::from_index(1), Some(Screen::Settings));
    assert_eq!(Screen::from_index(2), None);
    assert_eq!(Screen::default(), Screen::Recipe);
}

#[test]
fn tab_constructors_fill_the_right_fields() {
    let icon_only = Tab::icon('\u{E801}');
    assert_eq!(icon_only.icon, Some('\u{E801}'));
    assert!(icon_only.text.is_none());

    let text_only = Tab::text("Roasting");
    assert!(text_only.icon.is_none());
    assert_eq!(text_only.text.as_deref(), Some("Roasting"));

    let both = Tab::icon_text('\u{E800}', "Settings");
    assert_eq!(both.icon, Some('\u{E800}'));
    assert_eq!(both.text.as_deref(), Some("Settings"));

    let bare = Tab::new(None, None);
    assert!(bare.icon.is_none() && bare.text.is_none());
}

#[test]
fn sidebar_tracks_the_selection() {
    let tabs = vec![Tab::icon('\u{E801}'), Tab::icon('\u{E800}')];
    let mut sidebar = Sidebar::new(tabs, 0);
    assert_eq!(sidebar.selected, 0);
    assert_eq!(sidebar.tabs.len(), 2);
    sidebar.update(Message::TabSelected(1));
    assert_eq!(sidebar.selected, 1);
    assert_eq!(sidebar.tabs.len(), 2);
}
