//! The compression-mode core of a numeric codec: how a chunk of numbers is
//! decomposed into latent variables ([`Mode`]) and how its elements are laid
//! out in data pages ([`ChunkSpec`]).

pub mod chunk_metadata;
pub mod chunk_spec;
pub mod constants;
pub mod data_types;
pub mod decimal;
pub mod errors;
pub mod floats;
pub mod mode;

pub use chunk_metadata::{Paging, PagingSpec};
pub use chunk_spec::ChunkSpec;
pub use constants::Bitlen;
pub use data_types::Latent;
pub use errors::{ErrorKind, PcoError, PcoResult};
pub use floats::{Binary32, Binary64, FloatLike};
pub use mode::Mode;
