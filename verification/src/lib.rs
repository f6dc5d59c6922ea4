//! The memory page size and the allocation granularity of the host, each
//! asked of the operating system when it is first needed and remembered in a
//! write-once cell that every caller of one provider shares.

pub mod memo;
pub mod platform;
pub mod provider;

pub use platform::{Report, Target, DEFAULT_PAGE_SIZE, WASM_PAGE_SIZE};
pub use provider::{get, get_granularity, get_granularity_helper, get_helper, PageInfoProvider};
