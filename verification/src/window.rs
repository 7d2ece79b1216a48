use vstd::prelude::*;
use crate::paths::{spec_join, AppDirs, GUI_CONFIG_FILENAME, GUI_STATE_FILENAME};

verus! {

/// Which downloads the home page lists.
#[derive(Clone, Copy, Debug, PartialEq, Eq, Structural)]
pub enum ShowDownloads {
    All,
    Downloading,
    Paused,
}

/// The page shown in the main area.
#[derive(Clone, Copy, Debug, PartialEq, Eq, Structural)]
pub enum Page {
    Home(ShowDownloads),
    Settings,
    About,
}

/// A window size in logical pixels; each dimension is the bit pattern of
/// an `f32` (`f32::to_bits`), carried without arithmetic.
#[derive(Clone, Copy, Debug, PartialEq, Eq, Structural)]
pub struct WindowSize {
    pub width: u32,
    pub height: u32,
}

/// A point on the screen; each coordinate is the bit pattern of an `f32`.
#[derive(Clone, Copy, Debug, PartialEq, Eq, Structural)]
pub struct ScreenPoint {
    pub x: u32,
    pub y: u32,
}

/// Where the window opens; the coordinates of `Specific` are `f32` bit
/// patterns.
#[derive(Clone, Copy, Debug, PartialEq, Eq, Structural)]
pub enum WindowPosition {
    Default,
    Centered,
    Specific(u32, u32),
}

/// Persisted state of the GUI window (position, size, layout); the
/// sidebar width is an `f32` bit pattern.
#[derive(Clone, Copy, Debug, PartialEq, Eq, Structural)]
pub struct GuiState {
    pub maximized: bool,
    pub size: WindowSize,
    pub position: WindowPosition,
    pub sidebar_collapsed: bool,
    pub sidebar_width: u32,
}

/// A keyboard shortcut on the interface scale.
#[derive(Clone, Copy, Debug, PartialEq, Eq, Structural)]
pub enum ScaleFactorShortcut {
    Increase,
    Decrease,
    Reset,
}

/// An edge or corner of the window, grabbed to resize it.
#[derive(Clone, Copy, Debug, PartialEq, Eq, Structural)]
pub enum ResizeDirection {
    North,
    South,
    East,
    West,
    NorthEast,
    NorthWest,
    SouthEast,
    SouthWest,
}

/// Something that happened to the window.
#[derive(Clone, Copy, Debug, PartialEq, Eq, Structural)]
pub enum WindowEvent {
    Moved(ScreenPoint),
    Resized(WindowSize),
    /// A resize, together with whether the window is now maximized.
    ResizedInner(WindowSize, bool),
    CloseRequested,
    Focused,
    Unfocused,
    ScaleFactorShortcut(ScaleFactorShortcut),
}

/// Something the user asks the window to do.
#[derive(Clone, Copy, Debug, PartialEq, Eq, Structural)]
pub enum WindowCommand {
    CloseRequest,
    Close,
    DragStart,
    Minimize,
    /// Toggle, given whether the window is maximized now.
    ToggleMaximize(bool),
    DragResize(ResizeDirection),
    Navigate(Page),
    ToggleSidebar,
}

/// A message about the window as a whole.
#[derive(Clone, Copy, Debug, PartialEq, Eq, Structural)]
pub enum GlobalMessage {
    Event(WindowEvent),
    Command(WindowCommand),
}

/// A message of the application.
#[derive(Clone, Copy, Debug, PartialEq, Eq, Structural)]
pub enum Message {
    /// An animation frame.
    Animate,
    Global(GlobalMessage),
}

/// What the application is to do after a message.
#[derive(Clone, Debug)]
pub enum Effect {
    Nothing,
    /// Ask the window whether it is maximized, then deliver
    /// `ResizedInner(size, answer)`.
    QueryMaximized(WindowSize),
    /// Write the window state and the configuration to these files
    /// (reporting, not stopping at, failures), then deliver `Close`.
    PersistAndClose { state_file: String, config_file: String },
    /// Deliver this message.
    Deliver(Message),
    /// Step the interface scale factor.
    Rescale(ScaleFactorShortcut),
    CloseWindow,
    DragWindow,
    DragResize(ResizeDirection),
    Minimize,
    SetMaximized(bool),
}

/// The part of the application state that window messages decide on.
#[derive(Clone, Debug)]
pub struct Shell {
    pub gui_state: GuiState,
    pub app_dirs: Option<AppDirs>,
    pub focused: bool,
    pub current_page: Page,
    /// Whether the sidebar is expanded (the target of its animation).
    pub sidebar_open: bool,
}

/// The state after a window message.
pub open spec fn spec_next(s: Shell, m: GlobalMessage) -> Shell {
    match m {
        GlobalMessage::Event(e) => match e {
            WindowEvent::Moved(p) => Shell {
                gui_state: GuiState { position: WindowPosition::Specific(p.x, p.y), ..s.gui_state },
                ..s
            },
            WindowEvent::ResizedInner(size, maximized) => Shell {
                gui_state: GuiState {
                    size: if maximized { s.gui_state.size } else { size },
                    maximized: maximized,
                    ..s.gui_state
                },
                ..s
            },
            WindowEvent::Focused => Shell { focused: true, ..s },
            WindowEvent::Unfocused => Shell { focused: false, ..s },
            _ => s,
        },
        GlobalMessage::Command(c) => match c {
            WindowCommand::Navigate(page) => Shell { current_page: page, ..s },
            WindowCommand::ToggleSidebar => Shell { sidebar_open: !s.sidebar_open, ..s },
            _ => s,
        },
    }
}

/// Whether `effect` is what follows a window message in state `s`.
pub open spec fn spec_effect_of(s: Shell, m: GlobalMessage, effect: Effect) -> bool {
    match m {
        GlobalMessage::Event(e) => match e {
            WindowEvent::Resized(size) => effect == Effect::QueryMaximized(size),
            WindowEvent::CloseRequested => match s.app_dirs {
                Some(dirs) => effect matches Effect::PersistAndClose { state_file, config_file }
                    && state_file@ == spec_join(dirs.state@, GUI_STATE_FILENAME@)
                    && config_file@ == spec_join(dirs.config@, GUI_CONFIG_FILENAME@),
                None => effect == Effect::Deliver(
                    Message::Global(GlobalMessage::Command(WindowCommand::Close)),
                ),
            },
            WindowEvent::ScaleFactorShortcut(k) => effect == Effect::Rescale(k),
            _ => effect == Effect::Nothing,
        },
        GlobalMessage::Command(c) => match c {
            WindowCommand::CloseRequest => effect == Effect::Deliver(
                Message::Global(GlobalMessage::Event(WindowEvent::CloseRequested)),
            ),
            WindowCommand::Close => effect == Effect::CloseWindow,
            WindowCommand::DragStart => effect == Effect::DragWindow,
            WindowCommand::DragResize(d) => effect == Effect::DragResize(d),
            WindowCommand::Minimize => effect == Effect::Minimize,
            WindowCommand::ToggleMaximize(maximized) => effect == Effect::SetMaximized(!maximized),
            _ => effect == Effect::Nothing,
        },
    }
}

impl Shell {
    /// The state at start-up: focused, on the home page listing all
    /// downloads, with the sidebar collapsed.
    pub fn new(gui_state: GuiState, app_dirs: Option<AppDirs>) -> (s: Shell)
        ensures
            s.gui_state == gui_state,
            s.app_dirs == app_dirs,
            s.focused,
            s.current_page == Page::Home(ShowDownloads::All),
            !s.sidebar_open,
    {
        Shell {
            gui_state,
            app_dirs,
            focused: true,
            current_page: Page::Home(ShowDownloads::All),
            sidebar_open: false,
        }
    }

    /// Applies a window message: records moves, sizes (not while
    /// maximized) and focus, navigates and toggles the sidebar, and says what
    /// the application is to do next.
    pub fn handle_global_messages(&mut self, message: GlobalMessage) -> (effect: Effect)
        ensures
            *final(self) == spec_next(*old(self), message),
            spec_effect_of(*old(self), message, effect),
    {
        match message {
            GlobalMessage::Event(event) => match event {
                WindowEvent::Moved(point) => {
                    self.gui_state.position = WindowPosition::Specific(point.x, point.y);
                    Effect::Nothing
                },
                WindowEvent::Resized(size) => Effect::QueryMaximized(size),
                WindowEvent::ResizedInner(size, maximized) => {
                    if !maximized {
                        self.gui_state.size = size;
                    }
                    self.gui_state.maximized = maximized;
                    Effect::Nothing
                },
                WindowEvent::CloseRequested => match &self.app_dirs {
                    Some(dirs) => Effect::PersistAndClose {
                        state_file: dirs.gui_state_file(),
                        config_file: dirs.gui_config_file(),
                    },
                    None => Effect::Deliver(
                        Message::Global(GlobalMessage::Command(WindowCommand::Close)),
                    ),
                },
                WindowEvent::Focused => {
                    self.focused = true;
                    Effect::Nothing
                },
                WindowEvent::Unfocused => {
                    self.focused = false;
                    Effect::Nothing
                },
                WindowEvent::ScaleFactorShortcut(step) => Effect::Rescale(step),
            },
            GlobalMessage::Command(command) => match command {
                WindowCommand::CloseRequest => Effect::Deliver(
                    Message::Global(GlobalMessage::Event(WindowEvent::CloseRequested)),
                ),
                WindowCommand::Close => Effect::CloseWindow,
                WindowCommand::DragStart => Effect::DragWindow,
                WindowCommand::DragResize(direction) => Effect::DragResize(direction),
                WindowCommand::Minimize => Effect::Minimize,
                WindowCommand::ToggleMaximize(maximized) => Effect::SetMaximized(!maximized),
                WindowCommand::Navigate(page) => {
                    self.current_page = page;
                    Effect::Nothing
                },
                WindowCommand::ToggleSidebar => {
                    self.sidebar_open = !self.sidebar_open;
                    Effect::Nothing
                },
            },
        }
    }

    /// Applies any message: an animation frame changes nothing.
    pub fn update(&mut self, message: Message) -> (effect: Effect)
        ensures
            match message {
                Message::Animate => *final(self) == *old(self) && effect == Effect::Nothing,
                Message::Global(g) => *final(self) == spec_next(*old(self), g) && spec_effect_of(
                    *old(self),
                    g,
                    effect,
                ),
            },
    {
        match message {
            Message::Animate => Effect::Nothing,
            Message::Global(g) => self.handle_global_messages(g),
        }
    }
}

/// No window message changes where the application keeps its files, or the
/// stored sidebar layout.
pub proof fn lemma_messages_keep_dirs_and_sidebar_layout(s: Shell, m: GlobalMessage)
    ensures
        spec_next(s, m).app_dirs == s.app_dirs,
        spec_next(s, m).gui_state.sidebar_collapsed == s.gui_state.sidebar_collapsed,
        spec_next(s, m).gui_state.sidebar_width == s.gui_state.sidebar_width,
{
}

/// Every move is recorded: after `Moved(p)` the stored position is
/// `Specific(p.x, p.y)`, whatever it was before, and nothing else changes.
pub proof fn lemma_move_records_position(s: Shell, p: ScreenPoint)
    ensures
        spec_next(s, GlobalMessage::Event(WindowEvent::Moved(p))).gui_state.position == WindowPosition::Specific(
            p.x,
            p.y,
        ),
        spec_next(s, GlobalMessage::Event(WindowEvent::Moved(p))).gui_state.size == s.gui_state.size,
        spec_next(s, GlobalMessage::Event(WindowEvent::Moved(p))).gui_state.maximized == s.gui_state.maximized,
        spec_next(s, GlobalMessage::Event(WindowEvent::Moved(p))).focused == s.focused,
        spec_next(s, GlobalMessage::Event(WindowEvent::Moved(p))).current_page == s.current_page,
        spec_next(s, GlobalMessage::Event(WindowEvent::Moved(p))).sidebar_open == s.sidebar_open,
{
}

/// A resize that leaves the window unmaximized stores the new size, and the
/// stored maximized flag always follows the report.
pub proof fn lemma_resize_records_size(s: Shell, size: WindowSize, maximized: bool)
    ensures
        !maximized ==> spec_next(s, GlobalMessage::Event(WindowEvent::ResizedInner(size, maximized))).gui_state.size
            == size,
        spec_next(s, GlobalMessage::Event(WindowEvent::ResizedInner(size, maximized))).gui_state.maximized
            == maximized,
        spec_next(s, GlobalMessage::Event(WindowEvent::ResizedInner(size, maximized))).gui_state.position
            == s.gui_state.position,
        spec_next(s, GlobalMessage::Event(WindowEvent::ResizedInner(size, maximized))).focused == s.focused,
{
}

/// Navigation shows the chosen page; toggling flips the sidebar once.
pub proof fn lemma_navigation_and_sidebar(s: Shell, page: Page)
    ensures
        spec_next(s, GlobalMessage::Command(WindowCommand::Navigate(page))).current_page == page,
        spec_next(s, GlobalMessage::Command(WindowCommand::Navigate(page))).gui_state == s.gui_state,
        spec_next(s, GlobalMessage::Command(WindowCommand::ToggleSidebar)).sidebar_open == !s.sidebar_open,
        spec_next(s, GlobalMessage::Command(WindowCommand::ToggleSidebar)).current_page == s.current_page,
{
}

/// Messages that only ask for something leave the state as it is.
pub proof fn lemma_requests_keep_state(s: Shell, m: GlobalMessage)
    requires
        m matches GlobalMessage::Event(e) ==> (e is Resized || e is CloseRequested || e is ScaleFactorShortcut),
        m matches GlobalMessage::Command(c) ==> !(c is Navigate || c is ToggleSidebar),
    ensures
        spec_next(s, m) == s,
{
}

/// What follows each message, whatever the state (the close request
/// depends on whether the application has directories to save into).
pub proof fn lemma_effect_of_each_message(s: Shell, m: GlobalMessage, e: Effect)
    requires
        spec_effect_of(s, m, e),
    ensures
        m matches GlobalMessage::Event(WindowEvent::Resized(size)) ==> e == Effect::QueryMaximized(size),
        m matches GlobalMessage::Event(WindowEvent::ScaleFactorShortcut(k)) ==> e == Effect::Rescale(k),
        m == GlobalMessage::Event(WindowEvent::CloseRequested) && s.app_dirs is None ==> e == Effect::Deliver(
            Message::Global(GlobalMessage::Command(WindowCommand::Close)),
        ),
        m == GlobalMessage::Event(WindowEvent::CloseRequested) && s.app_dirs is Some ==> e is PersistAndClose,
        m matches GlobalMessage::Event(WindowEvent::Moved(_)) ==> e == Effect::Nothing,
        m matches GlobalMessage::Event(WindowEvent::ResizedInner(_, _)) ==> e == Effect::Nothing,
        m == GlobalMessage::Event(WindowEvent::Focused) ==> e == Effect::Nothing,
        m == GlobalMessage::Event(WindowEvent::Unfocused) ==> e == Effect::Nothing,
        m == GlobalMessage::Command(WindowCommand::CloseRequest) ==> e == Effect::Deliver(
            Message::Global(GlobalMessage::Event(WindowEvent::CloseRequested)),
        ),
        m == GlobalMessage::Command(WindowCommand::Close) ==> e == Effect::CloseWindow,
        m == GlobalMessage::Command(WindowCommand::DragStart) ==> e == Effect::DragWindow,
        m == GlobalMessage::Command(WindowCommand::Minimize) ==> e == Effect::Minimize,
        m matches GlobalMessage::Command(WindowCommand::DragResize(d)) ==> e == Effect::DragResize(d),
        m matches GlobalMessage::Command(WindowCommand::ToggleMaximize(now)) ==> e == Effect::SetMaximized(!now),
        m matches GlobalMessage::Command(WindowCommand::Navigate(_)) ==> e == Effect::Nothing,
        m == GlobalMessage::Command(WindowCommand::ToggleSidebar) ==> e == Effect::Nothing,
{
}

/// Toggling the sidebar twice leaves the state as it was.
pub proof fn lemma_toggle_sidebar_twice(s: Shell)
    ensures
        spec_next(
            spec_next(s, GlobalMessage::Command(WindowCommand::ToggleSidebar)),
            GlobalMessage::Command(WindowCommand::ToggleSidebar),
        ) == s,
{
}

/// A resize that leaves the window maximized keeps the stored size, so the
/// size restored later is the last one the window had unmaximized.
pub proof fn lemma_maximized_resize_keeps_size(s: Shell, size: WindowSize)
    ensures
        spec_next(s, GlobalMessage::Event(WindowEvent::ResizedInner(size, true))).gui_state.size
            == s.gui_state.size,
        spec_next(s, GlobalMessage::Event(WindowEvent::ResizedInner(size, true))).gui_state.maximized,
{
}

/// The focus flag follows the last focus event.
pub proof fn lemma_focus_follows_last_event(s: Shell, m: GlobalMessage, focused: bool)
    requires
        m == GlobalMessage::Event(if focused { WindowEvent::Focused } else { WindowEvent::Unfocused }),
    ensures
        spec_next(s, m).focused == focused,
{
}

} // verus!
