//! The provider of the two constants: a target class and one write-once cell
//! for each constant, with the accessors that fill and read them.

use crate::memo::{lookup, publish, settled, vacant};
use crate::platform::{
    or_default, positive_or_default, Report, Target, DEFAULT_PAGE_SIZE, WASM_PAGE_SIZE,
};
use spin::once::Once;
use spin::relax::Spin;
use vstd::prelude::*;

verus! {

/// The page size and the allocation granularity of one target, each
/// remembered from the first time it was asked for. The cells are private:
/// reading is the only thing a caller can do, and a value once given out is
/// given out for good.
pub struct PageInfoProvider {
    target: Target,
    page_size: Once<usize, Spin>,
    granularity: Once<usize, Spin>,
}

impl PageInfoProvider {
    /// The target class that the provider was made for.
    pub closed spec fn target(&self) -> Target {
        self.target
    }

    /// The page size that the provider gives out, now and ever: a fixed
    /// constant on a target that cannot be asked, else what settled in the
    /// page-size cell.
    pub closed spec fn page_size(&self) -> usize {
        match self.target {
            Target::Unix | Target::Windows => or_default(settled(self.page_size) as int),
            Target::Wasm => WASM_PAGE_SIZE,
            Target::Other => DEFAULT_PAGE_SIZE,
        }
    }

    /// The allocation granularity that the provider gives out, now and ever:
    /// on Windows what settled in the granularity cell, elsewhere the page
    /// size.
    pub closed spec fn granularity(&self) -> usize {
        match self.target {
            Target::Windows => or_default(settled(self.granularity) as int),
            _ => self.page_size(),
        }
    }

    /// A provider for `target` that has not asked the host anything yet.
    pub fn new(target: Target) -> (provider: Self)
        ensures
            provider.target() == target,
    {
        PageInfoProvider { target, page_size: vacant(), granularity: vacant() }
    }
}

/// The page size of the provider's target. A target without a configuration
/// facility has a fixed one. On the others the page-size cell is read; where
/// it is still empty the host is asked through `query` and the page size of
/// its report is offered to the cell. What the cell then holds is returned,
/// whoever put it there. The cell is opaque to the proof, so a zero in it is
/// read as the default on the way out. The first call asks the host; a call
/// that finds the cell filled asks nothing.
pub fn get_helper<Q: FnOnce() -> Report>(provider: &PageInfoProvider, query: Q) -> (size: usize)
    requires
        query.requires(()),
    ensures
        size == provider.page_size(),
        size > 0,
{
    match provider.target {
        Target::Unix | Target::Windows => {
            let kept = match lookup(&provider.page_size) {
                Some(value) => value,
                None => {
                    let report = query();
                    publish(&provider.page_size, report.page_size())
                },
            };
            positive_or_default(kept)
        },
        Target::Wasm => WASM_PAGE_SIZE,
        Target::Other => DEFAULT_PAGE_SIZE,
    }
}

/// The allocation granularity of the provider's target. Off Windows it is the
/// page size, from the page-size cell. On Windows it has a cell of its own,
/// read and filled as the page-size cell is, with the granularity of the
/// report.
pub fn get_granularity_helper<Q: FnOnce() -> Report>(
    provider: &PageInfoProvider,
    query: Q,
) -> (size: usize)
    requires
        query.requires(()),
    ensures
        size == provider.granularity(),
        size > 0,
{
    match provider.target {
        Target::Windows => {
            let kept = match lookup(&provider.granularity) {
                Some(value) => value,
                None => {
                    let report = query();
                    publish(&provider.granularity, report.granularity())
                },
            };
            positive_or_default(kept)
        },
        _ => get_helper(provider, query),
    }
}

/// The memory page size of the host, in bytes. Every call on one provider
/// returns the same positive number.
pub fn get<Q: FnOnce() -> Report>(provider: &PageInfoProvider, query: Q) -> (size: usize)
    requires
        query.requires(()),
    ensures
        size == provider.page_size(),
        size > 0,
        provider.target() == Target::Wasm ==> size == WASM_PAGE_SIZE,
        provider.target() == Target::Other ==> size == DEFAULT_PAGE_SIZE,
{
    get_helper(provider, query)
}

/// The memory allocation granularity of the host, in bytes. Every call on one
/// provider returns the same positive number, which off Windows is the page
/// size.
pub fn get_granularity<Q: FnOnce() -> Report>(provider: &PageInfoProvider, query: Q) -> (size: usize)
    requires
        query.requires(()),
    ensures
        size == provider.granularity(),
        size > 0,
        provider.target() != Target::Windows ==> size == provider.page_size(),
{
    get_granularity_helper(provider, query)
}

/// Two answers of `get` on one provider are the same number, whenever and on
/// whichever thread each call was made.
pub proof fn lemma_page_size_is_stable(provider: PageInfoProvider, first: usize, second: usize)
    requires
        first == provider.page_size(),
        second == provider.page_size(),
    ensures
        first == second,
{
}

/// The page size that a provider gives out is positive.
pub proof fn lemma_page_size_positive(provider: PageInfoProvider)
    ensures
        provider.page_size() > 0,
{
}

/// The allocation granularity that a provider gives out is positive.
pub proof fn lemma_granularity_positive(provider: PageInfoProvider)
    ensures
        provider.granularity() > 0,
{
}

/// Off Windows the allocation granularity is the page size.
pub proof fn lemma_granularity_is_page_size(provider: PageInfoProvider)
    requires
        provider.target() != Target::Windows,
    ensures
        provider.granularity() == provider.page_size(),
{
}

/// On a target that cannot be asked, the page size is the constant of its
/// class: the default on an unrecognized target, the execution model's own on
/// a sandboxed one.
pub proof fn lemma_fixed_page_size(provider: PageInfoProvider)
    ensures
        provider.target() == Target::Other ==> provider.page_size() == DEFAULT_PAGE_SIZE,
        provider.target() == Target::Wasm ==> provider.page_size() == WASM_PAGE_SIZE,
{
}

} // verus!
