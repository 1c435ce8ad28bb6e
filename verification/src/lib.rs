//! The storage layer of a server that hands out single tiles of a tar archive by byte-range
//! reads: which backend an archive location names, which credential is presented to it, what
//! the answers of the backend mean, and what every range read asks for and accepts.

pub mod error;
pub mod external;
pub mod laws;
pub mod storage;
pub mod text;
