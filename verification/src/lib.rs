//! Engine for discovering and reasoning about macOS keyboard shortcuts
//! across system, application menus, and third-party launchers.

pub mod binding;
pub mod capture;
pub mod combo;
pub mod error;
pub mod hotkey_index;
pub mod order;
pub mod report;
pub mod sources;
pub mod text;

pub use binding::{Binding, BindingSource, Layer, Scope, SystemDispatch};
pub use combo::{ComboParseError, ComboToken, Key, KeyCombo, Modifiers, NamedKey};
pub use error::{ScanError, ScanWarning};
pub use hotkey_index::{Conflict, ConflictKind, HotkeyIndex, SourceFailure, Winner};
pub use sources::{Source, SourceScan};
