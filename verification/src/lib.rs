//! A structured client layer over the tmux terminal multiplexer.
//!
//! The crate turns typed, optional, version-gated parameters into correctly
//! ordered command-line argument vectors, and decodes the delimited textual
//! responses of the tool back into typed records.  Process spawning itself is
//! left to the caller: every builder here returns a [`TmuxCommand`] (an
//! argument vector) to run, and every decoder takes the raw response text
//! back.
//!
//! The two central mechanisms are:
//! * the versioned command builders ([`TmuxCommand`], [`VersionGate`] and the
//!   per-command builder types), which assemble flag/value argument sequences
//!   while honouring per-feature availability windows, and
//! * the bitmask-driven format/decode tables ([`Pane`], [`Window`]), which
//!   drive both the composed query-format string and the positional decoding
//!   of the single-line, delimiter-separated answer.

pub mod buffers;
pub mod command;
pub mod common;
pub mod error;
pub mod get_pane_options;
pub mod get_server_option;
pub mod miscellaneous;
pub mod options;
pub mod pane;
pub mod pane_options;
pub mod panes;
pub mod server_options;
pub mod session_options;
pub mod session_options_ctl;
pub mod sessions;
pub mod split_window;
pub mod strutil;
pub mod tmux_interface;
pub mod version;
pub mod window;
pub mod window_options;

pub use buffers::DeleteBuffer;
pub use buffers::ListBuffers;
pub use buffers::SetBuffer;
pub use command::TmuxCommand;
pub use command::TmuxCommands;
pub use common::Options;
pub use common::PaneSize;
pub use common::StatusKeys;
pub use common::Switch;
pub use common::TargetPane;
pub use common::TargetSession;
pub use error::Error;
pub use get_pane_options::GetPaneOptions;
pub use get_server_option::GetGlobalServerOption;
pub use get_server_option::GetServerOption;
pub use get_server_option::Getter;
pub use get_server_option::SetServerOption;
pub use get_server_option::TmuxServerOptionOutput;
pub use miscellaneous::ClockMode;
pub use miscellaneous::IfShell;
pub use miscellaneous::LockServer;
pub use miscellaneous::RunShell;
pub use miscellaneous::WaitFor;
pub use miscellaneous::WaitForMode;
pub use options::OptionScope;
pub use options::SetOption;
pub use options::ShowOptions;
pub use pane::Pane;
pub use pane_options::PaneOptions;
pub use panes::Panes;
pub use server_options::ServerOptions;
pub use session_options::SessionOptions;
pub use session_options_ctl::LocalSessionOptionsCtl;
pub use sessions::AttachSession;
pub use sessions::AttachSessionBuilder;
pub use sessions::RefreshClient;
pub use split_window::SplitWindow;
pub use tmux_interface::TmuxInterface;
pub use version::Avail;
pub use version::Version;
pub use version::VersionGate;
pub use window::Window;
pub use window_options::WindowOptions;
