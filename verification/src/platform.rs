//! The classes of execution target, what a host's configuration facility
//! reports, and how a report is read as a page size and as an allocation
//! granularity.

use vstd::prelude::*;

verus! {

/// The page size, in bytes, of a target that offers no way to ask, and the
/// value that stands in for a report with no meaning.
pub const DEFAULT_PAGE_SIZE: usize = 4096;

/// The page size, in bytes, that the WebAssembly execution model fixes for its
/// linear memory.
pub const WASM_PAGE_SIZE: usize = 65536;

/// The class of target that a provider serves. It decides where the two
/// constants come from.
#[derive(Clone, Copy, Debug, PartialEq, Eq, Structural)]
pub enum Target {
    /// POSIX-like: the page size is asked of the system configuration, and the
    /// allocation granularity is the page size.
    Unix,
    /// Windows: the system information record gives both, each in a field of
    /// its own.
    Windows,
    /// A sandboxed linear-memory target: both are `WASM_PAGE_SIZE`.
    Wasm,
    /// Any other target: both are `DEFAULT_PAGE_SIZE`.
    Other,
}

/// What the host's configuration facility reported, as the plain numbers it
/// gave.
#[derive(Clone, Copy, Debug, PartialEq, Eq, Structural)]
pub enum Report {
    /// The system configuration's value for the page-size parameter; negative
    /// where the host could not tell.
    Configured(isize),
    /// The two fields of the system information record.
    SystemInfo { page_size: u32, allocation_granularity: u32 },
}

/// A reported number read as a size in bytes: itself where it is positive and
/// fits a machine word, `DEFAULT_PAGE_SIZE` where it is not.
pub open spec fn or_default(raw: int) -> usize {
    if 0 < raw <= usize::MAX {
        raw as usize
    } else {
        DEFAULT_PAGE_SIZE
    }
}

/// Replaces a size of zero, which no host has, by `DEFAULT_PAGE_SIZE`, and
/// keeps every other size.
pub fn positive_or_default(size: usize) -> (kept: usize)
    ensures
        kept == or_default(size as int),
        kept > 0,
        size > 0 ==> kept == size,
        size == 0 ==> kept == DEFAULT_PAGE_SIZE,
{
    if size > 0 {
        size
    } else {
        DEFAULT_PAGE_SIZE
    }
}

impl Report {
    /// The number that the report gives for the page size, as the host gave it.
    pub open spec fn raw_page_size(self) -> int {
        match self {
            Report::Configured(raw) => raw as int,
            Report::SystemInfo { page_size, .. } => page_size as int,
        }
    }

    /// The number that the report gives for the allocation granularity. The
    /// system configuration knows no granularity apart from the page size.
    pub open spec fn raw_granularity(self) -> int {
        match self {
            Report::Configured(raw) => raw as int,
            Report::SystemInfo { allocation_granularity, .. } => allocation_granularity as int,
        }
    }

    /// The page size in bytes that the report stands for.
    pub fn page_size(&self) -> (size: usize)
        ensures
            size == or_default(self.raw_page_size()),
            size > 0,
    {
        match *self {
            Report::Configured(raw) => {
                if raw > 0 {
                    raw as usize
                } else {
                    DEFAULT_PAGE_SIZE
                }
            },
            Report::SystemInfo { page_size, .. } => {
                if page_size > 0 {
                    page_size as usize
                } else {
                    DEFAULT_PAGE_SIZE
                }
            },
        }
    }

    /// The allocation granularity in bytes that the report stands for.
    pub fn granularity(&self) -> (size: usize)
        ensures
            size == or_default(self.raw_granularity()),
            size > 0,
    {
        match *self {
            Report::Configured(raw) => {
                if raw > 0 {
                    raw as usize
                } else {
                    DEFAULT_PAGE_SIZE
                }
            },
            Report::SystemInfo { allocation_granularity, .. } => {
                if allocation_granularity > 0 {
                    allocation_granularity as usize
                } else {
                    DEFAULT_PAGE_SIZE
                }
            },
        }
    }
}

/// A report of the system configuration gives one number for both constants.
pub proof fn lemma_configured_granularity_is_page_size(raw: isize)
    ensures
        or_default(Report::Configured(raw).raw_granularity()) == or_default(
            Report::Configured(raw).raw_page_size(),
        ),
{
}

/// Where the host reported a positive page size, that number is the page size
/// read from the report; where it reported none, the default is.
pub proof fn lemma_page_size_is_reported(report: Report)
    ensures
        report.raw_page_size() > 0 ==> or_default(report.raw_page_size())
            == report.raw_page_size(),
        report.raw_page_size() <= 0 ==> or_default(report.raw_page_size()) == DEFAULT_PAGE_SIZE,
{
}

/// Where the host reported a positive allocation granularity, that number is
/// the granularity read from the report; where it reported none, the default
/// is.
pub proof fn lemma_granularity_is_reported(report: Report)
    ensures
        report.raw_granularity() > 0 ==> or_default(report.raw_granularity())
            == report.raw_granularity(),
        report.raw_granularity() <= 0 ==> or_default(report.raw_granularity())
            == DEFAULT_PAGE_SIZE,
{
}

} // verus!
