//! Watches a single target application window, infers the user's AFK status
//! from the application's own append-only text log, and decides when to
//! minimize the window after a grace period.
//!
//! The library holds the monitoring and decision logic: the reverse log
//! scanner with its forged-message guard, the minimize decision engine, and
//! the session state machine that drives retries and shutdown. The
//! operating-system surface (window lookup, file reads, the message pump)
//! lives outside the library; it hands plain values in and takes the
//! decisions back out.

pub mod engine;
pub mod paths;
pub mod scanner;
pub mod session;
pub mod settings;
pub mod text;
pub mod util;

pub use engine::elapsed_secs;
pub use engine::spec_tick;
pub use engine::MonitorState;
pub use engine::WindowPhase;
pub use paths::construct_log_path;
pub use scanner::is_afk_activated_message;
pub use scanner::is_afk_deactivated_message;
pub use scanner::log_line_as_afk_status;
pub use scanner::scan_log_tail;
pub use scanner::AfkVerdict;
pub use scanner::SCAN_WINDOW;
pub use session::classify_message;
pub use session::event_requests_exit;
pub use session::tray_callback_requests_menu;
pub use session::Event;
pub use session::MessageDisposition;
pub use session::Session;
pub use session::SessionAction;
pub use session::SessionError;
pub use session::SessionEvent;
pub use session::SessionPhase;
pub use session::MENU_COMMAND_MESSAGE;
pub use session::SHOW_TRAY_POPUP_MESSAGE;
pub use session::TRAY_MENU_EXIT_ID;
pub use session::TRAY_MENU_STARTUP_ID;
pub use session::TRAY_MENU_VERSION_ID;
pub use settings::Settings;
pub use util::nul_terminated_len;
pub use util::OptionAsResult;
