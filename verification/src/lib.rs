//! A verified decoder for the SID chiptune container header: the fixed
//! big-endian header fields, the version-gated extended tail with its packed
//! flags word, the one little-endian real load address, and the program
//! payload. `SidFile::parse` is specified exactly by `decode::spec_parse`,
//! and the general laws of the format are proved in `laws`.

pub mod bytes;
pub mod decode;
pub mod laws;
pub mod types;

pub use decode::SidFile;
pub use decode::SidSpec;

pub use types::ChipModel;
pub use types::Clock;
pub use types::DecodeError;
pub use types::Flags;
pub use types::Format;
pub use types::PlaySID;
pub use types::Type;
pub use types::Version;
