//! A codec for the netlink wire format: values are serialized into owned
//! byte buffers with 4-byte alignment and parsed back, and raw protocol
//! constants are mapped to enumerated types with a fallback for values that
//! no name matches.
pub mod buffer;
pub mod codec;
pub mod consts;
pub mod drive;
pub mod err;
pub mod netfilter;
pub mod nl;
pub mod utils;
