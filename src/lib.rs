pub mod block;
pub mod fetch;
pub mod hex_bytes;
pub mod peers;
pub mod proxy;
pub mod router;
pub mod rpc;
pub mod util;
