//! The decision side of the paginated corpus fetcher: response shapes,
//! the page plan, the retry policy and the corpus assembly. The network
//! calls themselves live with the host; this module fixes everything the
//! host must decide.

use vstd::prelude::*;
use vstd::arithmetic::power2::pow2;

verus! {

/// The pagination header of a listing response.
#[derive(Clone, Copy, Debug, PartialEq, Eq, Structural)]
pub struct Pagination {
    /// Total number of pages.
    pub pages: u16,
    /// Total number of items over all pages.
    pub count: u16,
}

/// One devlog entry.
#[derive(Debug)]
pub struct Devlog {
    /// The entry's free text.
    pub text: String,
}

/// One project entry.
#[derive(Debug)]
pub struct Project {
    /// The project's free-text description.
    pub description: String,
}

/// A page of devlogs.
pub struct Devlogs {
    /// The page's entries.
    pub devlogs: Vec<Devlog>,
    /// The listing's pagination header.
    pub pagination: Pagination,
}

/// A page of projects.
pub struct Projects {
    /// The page's entries.
    pub projects: Vec<Project>,
    /// The listing's pagination header.
    pub pagination: Pagination,
}

/// A listing response: a pagination header and one page of items.
pub trait PagintatedResponse<T>: Sized {
    /// The header the response carries.
    spec fn spec_pagination(&self) -> Pagination;

    /// The items the response carries, in order.
    spec fn spec_items(&self) -> Seq<T>;

    /// The pagination header.
    fn pagintation(&self) -> (r: &Pagination)
        ensures
            *r == self.spec_pagination(),
    ;

    /// The page's items.
    fn page(self) -> (r: Vec<T>)
        ensures
            r@ == self.spec_items(),
    ;
}

impl PagintatedResponse<Devlog> for Devlogs {
    open spec fn spec_pagination(&self) -> Pagination {
        self.pagination
    }

    open spec fn spec_items(&self) -> Seq<Devlog> {
        self.devlogs@
    }

    fn pagintation(&self) -> (r: &Pagination) {
        &self.pagination
    }

    fn page(self) -> (r: Vec<Devlog>) {
        self.devlogs
    }
}

impl PagintatedResponse<Project> for Projects {
    open spec fn spec_pagination(&self) -> Pagination {
        self.pagination
    }

    open spec fn spec_items(&self) -> Seq<Project> {
        self.projects@
    }

    fn pagintation(&self) -> (r: &Pagination) {
        &self.pagination
    }

    fn page(self) -> (r: Vec<Project>) {
        self.projects
    }
}

/// The pages still to fetch after page 1 has been read: pages 2 through
/// `pages`, in order.
pub fn remaining_pages(p: &Pagination) -> (r: Vec<u16>)
    ensures
        r@.len() == if p.pages >= 2 {
            (p.pages - 1) as int
        } else {
            0
        },
        forall|i: int| 0 <= i < r@.len() ==> r@[i] == i + 2,
{
    let mut r: Vec<u16> = Vec::new();
    if p.pages < 2 {
        return r;
    }
    let last: u32 = p.pages as u32;
    let mut page: u32 = 2;
    while page <= last
        invariant
            2 <= page <= last + 1,
            last == p.pages,
            p.pages >= 2,
            r@.len() == page - 2,
            forall|i: int| 0 <= i < r@.len() ==> r@[i] == i + 2,
        decreases last + 1 - page,
    {
        r.push(page as u16);
        page = page + 1;
    }
    r
}

/// What to do after a failed page request.
#[derive(Clone, Copy, Debug, PartialEq, Eq, Structural)]
pub enum RetryStep {
    /// Try the same page again after this many milliseconds.
    Retry(u64),
    /// Stop retrying and report the failure.
    GiveUp,
}

/// Exponential backoff: half a second doubled for each prior failure,
/// capped at the word size.
pub open spec fn backoff_delay_ms(failures: nat) -> nat {
    if 500 * pow2((failures - 1) as nat) > u64::MAX {
        u64::MAX as nat
    } else {
        500 * pow2((failures - 1) as nat)
    }
}

/// Decides what a fetch loop does after its `failures`-th failure on one
/// page: give up once `max_retries` failures are reached, otherwise wait
/// out an exponential backoff and try again.
pub fn retry_decision(failures: usize, max_retries: usize) -> (r: RetryStep)
    requires
        failures >= 1,
    ensures
        failures >= max_retries ==> r == RetryStep::GiveUp,
        failures < max_retries ==> r == RetryStep::Retry(backoff_delay_ms(failures as nat) as u64),
{
    if failures >= max_retries {
        return RetryStep::GiveUp;
    }
    let exponent: usize = failures - 1;
    if exponent >= 56 {
        proof {
            vstd::arithmetic::power2::lemma2_to64_rest();
            if exponent > 56 {
                vstd::arithmetic::power2::lemma_pow2_strictly_increases(56, exponent as nat);
            }
            assert(pow2(exponent as nat) >= pow2(56));
            assert(500 * pow2(exponent as nat) >= 500 * pow2(56)) by (nonlinear_arith)
                requires
                    pow2(exponent as nat) >= pow2(56),
            ;
            assert(500 * pow2(56) > u64::MAX);
        }
        return RetryStep::Retry(u64::MAX);
    }
    let mut delay: u64 = 500;
    let mut doubled: usize = 0;
    proof {
        vstd::arithmetic::power2::lemma2_to64();
    }
    while doubled < exponent
        invariant
            doubled <= exponent,
            exponent <= 55,
            delay == 500 * pow2(doubled as nat),
        decreases exponent - doubled,
    {
        proof {
            assert(pow2((doubled + 1) as nat) == 2 * pow2(doubled as nat)) by {
                vstd::arithmetic::power2::lemma_pow2_unfold((doubled + 1) as nat);
            }
            vstd::arithmetic::power2::lemma2_to64_rest();
            if doubled < 54 {
                vstd::arithmetic::power2::lemma_pow2_strictly_increases(doubled as nat, 54);
            }
            assert(pow2(doubled as nat) <= pow2(54));
            assert(500 * pow2(doubled as nat) <= 500 * pow2(54)) by (nonlinear_arith)
                requires
                    pow2(doubled as nat) <= pow2(54),
            ;
        }
        delay = delay * 2;
        doubled = doubled + 1;
    }
    proof {
        vstd::arithmetic::power2::lemma2_to64_rest();
        if exponent < 55 {
            vstd::arithmetic::power2::lemma_pow2_strictly_increases(exponent as nat, 55);
        }
        assert(pow2(exponent as nat) <= pow2(55));
        assert(500 * pow2(exponent as nat) <= 500 * pow2(55)) by (nonlinear_arith)
            requires
                pow2(exponent as nat) <= pow2(55),
        ;
    }
    RetryStep::Retry(delay)
}

/// Assembles the training corpus: every devlog text, then every project
/// description, in their given orders.
pub fn combine_corpus(devlogs: &Vec<Devlog>, projects: &Vec<Project>) -> (r: Vec<String>)
    ensures
        r@.len() == devlogs@.len() + projects@.len(),
        forall|i: int| 0 <= i < devlogs@.len() ==> r@[i]@ == devlogs@[i].text@,
        forall|i: int|
            0 <= i < projects@.len() ==> r@[devlogs@.len() + i]@ == projects@[i].description@,
{
    let mut r: Vec<String> = Vec::new();
    let mut i: usize = 0;
    while i < devlogs.len()
        invariant
            i <= devlogs@.len(),
            r@.len() == i,
            forall|k: int| 0 <= k < i ==> r@[k]@ == devlogs@[k].text@,
        decreases devlogs@.len() - i,
    {
        r.push(devlogs[i].text.clone());
        i = i + 1;
    }
    let mut j: usize = 0;
    while j < projects.len()
        invariant
            j <= projects@.len(),
            r@.len() == devlogs@.len() + j,
            forall|k: int| 0 <= k < devlogs@.len() ==> r@[k]@ == devlogs@[k].text@,
            forall|k: int| 0 <= k < j ==> r@[devlogs@.len() + k]@ == projects@[k].description@,
        decreases projects@.len() - j,
    {
        r.push(projects[j].description.clone());
        j = j + 1;
    }
    r
}

} // verus!
