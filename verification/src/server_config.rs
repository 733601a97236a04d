//! Settings of the processing server.
use vstd::prelude::*;

verus! {

/// Address the gRPC server listens on.
pub const LISTEN_ADDRESS: &'static str = "0.0.0.0:50051";

/// Streams the server accepts at once on one connection.
pub const MAX_CONCURRENT_STREAMS: u32 = 10000;

/// Responses that may wait in one stream's outbound queue.
pub const RESPONSE_QUEUE_CAPACITY: usize = 10;

/// Log filter used when the environment sets none.
pub const DEFAULT_LOG_FILTER: &'static str = "info,my_ext_proc_server=info";

} // verus!
