//! Version 2 of the HTTP API.
use vstd::prelude::*;

mod packages;
pub use packages::{
    package_page_request_fields, NewPackage, NewPackageRequest, Package, PackagePage,
    PackagePageQuery, PackagePageView, PackageQuery, PackageQueryView,
};

mod projects;
pub use projects::{
    new_project_fields, project_page_request_fields, NewProjectRequest, NewProjectView,
    ProjectPage, ProjectPageQuery, ProjectPageView, ProjectQuery, ProjectQueryView,
};

mod versions;
pub use versions::{
    modify_project_fields, ModifyProjectRequest, ModifyProjectView, NewVersions, Versions,
    VersionQuery,
};

verus! {

/// The number of items a page that a query asks for unless told otherwise.
pub const DEFAULT_PER_PAGE: u32 = 25;

/// The least number of items a page that the service accepts.
pub const MIN_PER_PAGE: u32 = 1;

/// The greatest number of items a page that the service accepts.
pub const MAX_PER_PAGE: u32 = 250;

/// `items_per_page` brought into the range that the service accepts.
pub fn clamp_per_page(items_per_page: u32) -> (r: u32)
    ensures
        r == (if items_per_page < MIN_PER_PAGE {
            MIN_PER_PAGE
        } else if items_per_page > MAX_PER_PAGE {
            MAX_PER_PAGE
        } else {
            items_per_page
        }),
{
    if items_per_page < MIN_PER_PAGE {
        MIN_PER_PAGE
    } else if items_per_page > MAX_PER_PAGE {
        MAX_PER_PAGE
    } else {
        items_per_page
    }
}

/// The number of pages that `total_items` items fill at `items_per_page`
/// items a page: an empty collection is one empty page.
pub open spec fn page_count(total_items: nat, items_per_page: nat) -> nat {
    if total_items == 0 {
        1
    } else {
        ((total_items + items_per_page - 1) as nat) / items_per_page
    }
}

/// Number of result pages for `total_items` items at `items_per_page` a page.
pub fn num_pages(total_items: u32, items_per_page: u32) -> (r: u32)
    requires
        total_items == 0 || items_per_page > 0,
    ensures
        r == page_count(total_items as nat, items_per_page as nat),
{
    if total_items == 0 {
        return 1;
    }
    let div = total_items / items_per_page;
    let rem = total_items % items_per_page;
    proof {
        lemma_ceil_division(total_items as nat, items_per_page as nat);
    }
    if rem == 0 {
        div
    } else {
        div + 1
    }
}

proof fn lemma_ceil_division(n: nat, k: nat)
    requires
        n > 0,
        k > 0,
    ensures
        ((n + k - 1) as nat) / k == if n % k == 0 { n / k } else { n / k + 1 },
        n % k != 0 ==> n / k < n,
{
    let q = n / k;
    let r = n % k;
    assert(n == q * k + r) by (nonlinear_arith)
        requires q == n / k, r == n % k, k > 0;
    assert(0 <= r < k) by (nonlinear_arith)
        requires r == n % k, k > 0;
    if r == 0 {
        assert(((n + k - 1) as nat) / k == q) by (nonlinear_arith)
            requires n == q * k, k > 0, q >= 0;
    } else {
        assert(((n + k - 1) as nat) / k == q + 1) by (nonlinear_arith)
            requires n == q * k + r, 0 < r < k, q >= 0;
    }
    assert(r != 0 ==> q < n) by (nonlinear_arith)
        requires n == q * k + r, k > 0, r >= 0, q >= 0;
}

/// The page count is the least number of pages that holds every item: for
/// a non-empty collection `p` pages hold all items and `p - 1` do not, and
/// an empty collection is one page.
pub proof fn page_count_is_least_cover(total_items: nat, items_per_page: nat)
    requires
        items_per_page > 0,
    ensures
        total_items == 0 ==> page_count(total_items, items_per_page) == 1,
        total_items > 0 ==> page_count(total_items, items_per_page) * items_per_page >= total_items,
        total_items > 0 ==> (page_count(total_items, items_per_page) - 1) * items_per_page
            < total_items,
{
    if total_items > 0 {
        let n = total_items;
        let k = items_per_page;
        let p = page_count(n, k);
        assert(p == ((n + k - 1) as nat) / k);
        assert(p * k >= n && (p - 1) * k < n) by (nonlinear_arith)
            requires p == ((n + k - 1) as nat) / k, n > 0, k > 0;
    }
}


} // verus!
