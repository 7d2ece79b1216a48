//! Verified core of the Tivra desktop client: configuration values, paths,
//! telemetry planning, theme colours, localisation choices and the window
//! message reducer.

pub mod color;
pub mod config_file;
pub mod fonts;
pub mod input;
pub mod layout;
pub mod localize;
pub mod order;
pub mod paths;
pub mod telemetry;
pub mod text;
pub mod theme;
pub mod units;
pub mod window;

pub use color::CustomColor;
pub use config_file::{check_config_size, ConfigError, MAX_CONFIG_SIZE};
pub use fonts::{AppFont, BundledFont};
pub use input::{message_for_event, InputEvent};
pub use layout::{Icon, SidebarEntry, TitleButton};
pub use localize::{configured_language, languages_in_paths};
pub use paths::{AppDirs, FALLBACK_DIR, GUI_CONFIG_FILENAME, GUI_STATE_FILENAME, GUI_TELEMETRY_FILENAME};
pub use telemetry::{LogLevel, TelemetryConfig, TelemetryError, TelemetryPlan};
pub use theme::{BuiltinTheme, CustomPalette, StoredTheme};
pub use units::{ByteStandard, GuiLanguage};
pub use window::{
    Effect, GlobalMessage, GuiState, Message, Page, ResizeDirection, ScaleFactorShortcut,
    ScreenPoint, Shell, ShowDownloads, WindowCommand, WindowEvent, WindowPosition, WindowSize,
};
