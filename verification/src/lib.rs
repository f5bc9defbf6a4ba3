//! A lazily loaded, directory-backed store of typed binary values.
//!
//! The crate holds the storage engine's rules: the byte format of a value,
//! the naming of containers and leaves, and the life cycle of a database
//! with its version stamp. It performs no input or output itself. Whatever
//! has to happen on a disk is handed to the caller as a request and the
//! caller's answer comes back as a reply.

pub mod version;
pub mod lazy_type;
pub mod number;
pub mod codec;
pub mod lazy_data;
pub mod lazy_container;
pub mod lazy_database;
pub mod error;
pub mod path;
pub mod disk;

pub use crate::codec::{decode_payload, decode_tag, encode, LazyValue};
pub use crate::disk::{Reply, Request};
pub use crate::error::{LDBErrContext, LDBError};
pub use crate::lazy_container::LazyContainer;
pub use crate::lazy_data::{FileWrapper, LazyData};
pub use crate::lazy_database::{Layout, LazyDB, Stage, Step, Task};
pub use crate::lazy_type::{CustomLazyType, LazyNumType, LazyType};
pub use crate::number::{F32Bits, F64Bits, LazyNumber};
pub use crate::path::{join_path, lie_apart, lies_above, lies_below, lies_outside, opens_with};
pub use crate::version::Version;
