//! Decomposing a file or directory name into an optional leading timestamp, a
//! free-form filename, an optional trailing set of tags and an extension, and
//! rendering that decomposition back: either byte-identical to the input, or
//! normalised so the timestamp uses its group's canonical format.

pub mod cli;
pub mod structured_name;
pub mod structured_path;
pub mod tags;
pub mod text;
pub mod timestamp;
pub mod tray;

pub use cli::TaggerCli;
pub use cli::TaggerCommand;
pub use structured_name::StructuredName;
pub use structured_name::StructuredNameConfiguration;
pub use structured_path::StructuredPath;
pub use tags::Tag;
pub use tags::TagConfiguration;
pub use tags::Tags;
pub use timestamp::configuration;
pub use timestamp::Date;
pub use timestamp::DateTime;
pub use timestamp::Timestamp;
pub use timestamp::TimestampValue;
pub use tray::EventIterator;
pub use tray::TaggerTrayEvent;
pub use tray::TaggerTrayIcon;
pub use tray::TrayClick;

