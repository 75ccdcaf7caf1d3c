//! Firmware descriptor library: parsing and validation of firmware version
//! strings and edition tokens, assembly of a validated firmware descriptor,
//! an orderable recency record, and decoding of a JSON result envelope.

pub mod edition;
pub mod envelope;
pub mod firmware;
pub mod record;
pub mod text;
pub mod time;
pub mod version;

pub use edition::FirmwareEdition;
pub use edition::ParseFirmwareEditionError;
pub use envelope::FatalEnvelopeError;
pub use envelope::ResultResponse;
pub use firmware::Firmware;
pub use record::BinaryFirmware;
pub use version::FirmwareVersion;
pub use version::ParseFirmwareVersionError;
