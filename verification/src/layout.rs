use vstd::prelude::*;
use crate::window::{GlobalMessage, Message, Page, ResizeDirection, ShowDownloads, WindowCommand};

verus! {

/// The icons of the application.
#[derive(Clone, Copy, Debug, PartialEq, Eq, Hash, Structural)]
pub enum Icon {
    Add,
    AppIcon,
    ArrowBack,
    Check,
    Close,
    DarkMode,
    Delete,
    Directory,
    Downloading,
    Error,
    Github,
    Info,
    LightMode,
    Minimize,
    Maximize,
    Menu,
    Pause,
    Play,
    Restore,
    Settings,
    Warning,
}

/// A button of the title bar.
#[derive(Clone, Copy, Debug, PartialEq, Eq, Structural)]
pub struct TitleButton {
    pub icon: Icon,
    pub on_press: Message,
}

/// The window buttons of the title bar, left to right: minimize,
/// maximize (restore when maximized) and close.
pub fn titlebar_buttons(maximized: bool) -> (b: [TitleButton; 3])
    ensures
        b@ == seq![
            TitleButton {
                icon: Icon::Minimize,
                on_press: Message::Global(GlobalMessage::Command(WindowCommand::Minimize)),
            },
            TitleButton {
                icon: if maximized { Icon::Restore } else { Icon::Maximize },
                on_press: Message::Global(GlobalMessage::Command(WindowCommand::ToggleMaximize(maximized))),
            },
            TitleButton {
                icon: Icon::Close,
                on_press: Message::Global(GlobalMessage::Command(WindowCommand::CloseRequest)),
            },
        ],
{
    let b = [
        TitleButton {
            icon: Icon::Minimize,
            on_press: Message::Global(GlobalMessage::Command(WindowCommand::Minimize)),
        },
        TitleButton {
            icon: if maximized { Icon::Restore } else { Icon::Maximize },
            on_press: Message::Global(GlobalMessage::Command(WindowCommand::ToggleMaximize(maximized))),
        },
        TitleButton {
            icon: Icon::Close,
            on_press: Message::Global(GlobalMessage::Command(WindowCommand::CloseRequest)),
        },
    ];
    assert(b@ =~= seq![b[0], b[1], b[2]]);
    b
}

/// What pressing the logo and title area of the title bar sends: start
/// dragging the window.
pub fn titlebar_drag_message() -> (m: Message)
    ensures
        m == Message::Global(GlobalMessage::Command(WindowCommand::DragStart)),
{
    Message::Global(GlobalMessage::Command(WindowCommand::DragStart))
}

/// The background shade of the title bar.
#[derive(Clone, Copy, Debug, PartialEq, Eq, Structural)]
pub enum TitleShade {
    /// The theme's base background.
    Base,
    /// The theme's weakest background.
    Weakest,
}

/// The title bar's shade: the base background while the window is focused,
/// the weakest one otherwise.
pub fn titlebar_shade(focused: bool) -> (s: TitleShade)
    ensures
        s == (if focused { TitleShade::Base } else { TitleShade::Weakest }),
{
    if focused {
        TitleShade::Base
    } else {
        TitleShade::Weakest
    }
}

/// Whether the application draws its own title bar and resize handles:
/// exactly when the system's window decorations are off.
pub fn shows_custom_chrome(decorations: bool) -> (r: bool)
    ensures
        r == !decorations,
{
    !decorations
}

/// A navigation entry of the sidebar.
#[derive(Clone, Copy, Debug)]
pub struct SidebarEntry {
    pub icon: Icon,
    /// Key of the entry's label in the translation files.
    pub label: &'static str,
    /// The page the entry navigates to.
    pub target: Page,
    /// Whether the entry is shown as the current page.
    pub selected: bool,
}

/// The navigation entries of the sidebar, top to bottom: all downloads,
/// downloading, paused, then (at the bottom) settings and about. An entry
/// is selected where its page is the current one; the about entry never is.
pub fn sidebar_entries(current: Page) -> (v: Vec<SidebarEntry>)
    ensures
        v@.len() == 5,
        v@[0].icon == Icon::Directory && v@[0].label@ == "sidebar-home"@
            && v@[0].target == Page::Home(ShowDownloads::All)
            && v@[0].selected == (current == Page::Home(ShowDownloads::All)),
        v@[1].icon == Icon::Downloading && v@[1].label@ == "sidebar-downloading"@
            && v@[1].target == Page::Home(ShowDownloads::Downloading)
            && v@[1].selected == (current == Page::Home(ShowDownloads::Downloading)),
        v@[2].icon == Icon::Pause && v@[2].label@ == "sidebar-paused"@
            && v@[2].target == Page::Home(ShowDownloads::Paused)
            && v@[2].selected == (current == Page::Home(ShowDownloads::Paused)),
        v@[3].icon == Icon::Settings && v@[3].label@ == "sidebar-settings"@
            && v@[3].target == Page::Settings && v@[3].selected == (current == Page::Settings),
        v@[4].icon == Icon::Info && v@[4].label@ == "sidebar-about"@ && v@[4].target == Page::About
            && !v@[4].selected,
{
    let mut v = Vec::new();
    v.push(SidebarEntry {
        icon: Icon::Directory,
        label: "sidebar-home",
        target: Page::Home(ShowDownloads::All),
        selected: current == Page::Home(ShowDownloads::All),
    });
    v.push(SidebarEntry {
        icon: Icon::Downloading,
        label: "sidebar-downloading",
        target: Page::Home(ShowDownloads::Downloading),
        selected: current == Page::Home(ShowDownloads::Downloading),
    });
    v.push(SidebarEntry {
        icon: Icon::Pause,
        label: "sidebar-paused",
        target: Page::Home(ShowDownloads::Paused),
        selected: current == Page::Home(ShowDownloads::Paused),
    });
    v.push(SidebarEntry {
        icon: Icon::Settings,
        label: "sidebar-settings",
        target: Page::Settings,
        selected: current == Page::Settings,
    });
    v.push(SidebarEntry { icon: Icon::Info, label: "sidebar-about", target: Page::About, selected: false });
    v
}

/// The two buttons at the top of the sidebar: the menu and the add
/// button; both toggle the sidebar.
pub fn sidebar_header_buttons() -> (b: [(Icon, GlobalMessage); 2])
    ensures
        b@ == seq![
            (Icon::Menu, GlobalMessage::Command(WindowCommand::ToggleSidebar)),
            (Icon::Add, GlobalMessage::Command(WindowCommand::ToggleSidebar)),
        ],
{
    let b = [
        (Icon::Menu, GlobalMessage::Command(WindowCommand::ToggleSidebar)),
        (Icon::Add, GlobalMessage::Command(WindowCommand::ToggleSidebar)),
    ];
    assert(b@ =~= seq![b[0], b[1]]);
    b
}

/// How far a resize handle extends along one axis.
#[derive(Clone, Copy, Debug, PartialEq, Eq, Structural)]
pub enum Extent {
    /// The size of a corner handle.
    Corner,
    /// The thickness of an edge handle.
    Edge,
    /// All the room there is.
    Fill,
}

/// The mouse cursor over a resize handle.
#[derive(Clone, Copy, Debug, PartialEq, Eq, Structural)]
pub enum ResizeCursor {
    DiagonallyDown,
    DiagonallyUp,
    Vertically,
    Horizontally,
}

/// The shape of the handle that resizes the window in one direction.
#[derive(Clone, Copy, Debug, PartialEq, Eq, Structural)]
pub struct ResizeHandle {
    pub width: Extent,
    pub height: Extent,
    pub cursor: ResizeCursor,
}

/// Whether a direction is a corner.
pub open spec fn is_corner(d: ResizeDirection) -> bool {
    d == ResizeDirection::NorthEast || d == ResizeDirection::NorthWest || d == ResizeDirection::SouthEast
        || d == ResizeDirection::SouthWest
}

/// The handle for a direction: corners are corner-sized squares; the north
/// and south edges fill the width, the east and west edges the height. The
/// cursor slants down for north-west and south-east, up for north-east and
/// south-west.
pub fn resize_handle(d: ResizeDirection) -> (h: ResizeHandle)
    ensures
        is_corner(d) ==> h.width == Extent::Corner && h.height == Extent::Corner,
        (d == ResizeDirection::North || d == ResizeDirection::South) ==> h.width == Extent::Fill
            && h.height == Extent::Edge && h.cursor == ResizeCursor::Vertically,
        (d == ResizeDirection::East || d == ResizeDirection::West) ==> h.width == Extent::Edge
            && h.height == Extent::Fill && h.cursor == ResizeCursor::Horizontally,
        (d == ResizeDirection::NorthWest || d == ResizeDirection::SouthEast) ==> h.cursor
            == ResizeCursor::DiagonallyDown,
        (d == ResizeDirection::NorthEast || d == ResizeDirection::SouthWest) ==> h.cursor
            == ResizeCursor::DiagonallyUp,
{
    match d {
        ResizeDirection::NorthWest | ResizeDirection::SouthEast => ResizeHandle {
            width: Extent::Corner,
            height: Extent::Corner,
            cursor: ResizeCursor::DiagonallyDown,
        },
        ResizeDirection::NorthEast | ResizeDirection::SouthWest => ResizeHandle {
            width: Extent::Corner,
            height: Extent::Corner,
            cursor: ResizeCursor::DiagonallyUp,
        },
        ResizeDirection::North | ResizeDirection::South => ResizeHandle {
            width: Extent::Fill,
            height: Extent::Edge,
            cursor: ResizeCursor::Vertically,
        },
        ResizeDirection::East | ResizeDirection::West => ResizeHandle {
            width: Extent::Edge,
            height: Extent::Fill,
            cursor: ResizeCursor::Horizontally,
        },
    }
}

/// The resize handles around the window, row by row; the middle of the
/// middle row is left free.
pub fn resize_grid() -> (g: [[Option<ResizeDirection>; 3]; 3])
    ensures
        g[0]@ == seq![Some(ResizeDirection::NorthWest), Some(ResizeDirection::North), Some(ResizeDirection::NorthEast)],
        g[1]@ == seq![Some(ResizeDirection::West), None, Some(ResizeDirection::East)],
        g[2]@ == seq![Some(ResizeDirection::SouthWest), Some(ResizeDirection::South), Some(ResizeDirection::SouthEast)],
{
    let top = [Some(ResizeDirection::NorthWest), Some(ResizeDirection::North), Some(ResizeDirection::NorthEast)];
    let middle = [Some(ResizeDirection::West), None, Some(ResizeDirection::East)];
    let bottom = [Some(ResizeDirection::SouthWest), Some(ResizeDirection::South), Some(ResizeDirection::SouthEast)];
    assert(top@ =~= seq![top[0], top[1], top[2]]);
    assert(middle@ =~= seq![middle[0], middle[1], middle[2]]);
    assert(bottom@ =~= seq![bottom[0], bottom[1], bottom[2]]);
    [top, middle, bottom]
}

} // verus!
