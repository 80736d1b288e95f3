//! Portuguese tax identification numbers (NIF): an offline check-digit
//! validator, and a classifier that reads the HTML page of a public registry
//! lookup and tells what it says about a number.

pub mod checksum;
pub mod status;
pub mod lookup;
pub mod page;
pub mod text;

pub use checksum::is_nif_valid_local;
pub use status::NifStatus;
