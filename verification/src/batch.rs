//! Decisions of a batch run: how many workers, which exit code.

use vstd::prelude::*;
use crate::category::{category_exit_code, Category};

verus! {

/// The exit code of a batch in which some, not all, inputs failed.
pub const PARTIAL_FAILURE_EXIT_CODE: u8 = 6;

/// num_cpus `get`: the number of logical CPUs of this machine, which
/// the crate documents as always at least 1.
#[verifier::external_body]
fn logical_cpus() -> (n: usize)
    ensures
        n >= 1,
{
    num_cpus::get()
}

/// The worker count for a given request and CPU count: the request (or
/// the CPU count), at least 1, at most the number of inputs (itself
/// counted as at least 1).
pub open spec fn spec_jobs(inputs: int, requested: int) -> int {
    let want = if requested < 1 { 1 } else { requested };
    let cap = if inputs < 1 { 1 } else { inputs };
    if want <= cap { want } else { cap }
}

/// Worker count for `inputs` inputs: `requested`, or the number of
/// logical CPUs when absent, clamped to `1..=max(inputs, 1)`.
pub fn resolve_jobs(inputs: usize, requested: Option<usize>) -> (n: usize)
    ensures
        1 <= n,
        n <= if inputs < 1 { 1 } else { inputs as int },
        requested matches Some(j) ==> n == spec_jobs(inputs as int, j as int),
        requested is None ==> exists|cpus: int| cpus >= 1 && n == spec_jobs(inputs as int, cpus),
{
    let want = match requested {
        Some(j) => j,
        None => logical_cpus(),
    };
    let ghost asked = want as int;
    let want = if want < 1 { 1 } else { want };
    let cap = if inputs < 1 { 1 } else { inputs };
    let n = if want <= cap { want } else { cap };
    assert(requested is None ==> asked >= 1 && n == spec_jobs(inputs as int, asked));
    n
}

/// The worker count is the asked-for count clamped to the inputs: never
/// below one, never above the asked count (taken as at least one) or the
/// number of inputs (taken as at least one), and equal to the smaller of
/// the two; so asking for more never yields fewer workers.
pub proof fn lemma_jobs_clamp(inputs: int, asked: int, more: int)
    requires
        asked <= more,
    ensures
        ({
            let n = spec_jobs(inputs, asked);
            let want = if asked < 1 { 1 } else { asked };
            let cap = if inputs < 1 { 1 } else { inputs };
            &&& 1 <= n
            &&& n <= want && n <= cap
            &&& (n == want || n == cap)
            &&& n <= spec_jobs(inputs, more)
        }),
{
}

/// The first category found walking an error's cause chain, outermost
/// first; `chain[i]` is the category of the `i`-th error, if it has one.
pub open spec fn spec_first_category(chain: Seq<Option<Category>>) -> Option<Category>
    decreases chain.len(),
{
    if chain.len() == 0 {
        None
    } else {
        match chain[0] {
            Some(c) => Some(c),
            None => spec_first_category(chain.drop_first()),
        }
    }
}

/// The first categorised error of a cause chain.
pub fn first_error_category(chain: &Vec<Option<Category>>) -> (r: Option<Category>)
    ensures
        r == spec_first_category(chain@),
{
    let mut i: usize = 0;
    assert(chain@.skip(0) =~= chain@);
    while i < chain.len()
        invariant
            i <= chain@.len(),
            spec_first_category(chain@) == spec_first_category(chain@.skip(i as int)),
        decreases chain.len() - i,
    {
        assert(chain@.skip(i as int).drop_first() =~= chain@.skip(i as int + 1));
        if let Some(c) = chain[i] {
            return Some(c);
        }
        i = i + 1;
    }
    assert(chain@.skip(i as int) =~= Seq::<Option<Category>>::empty());
    None
}

/// The exit code for a failed run: that of the first categorised error
/// of the cause chain, else that of an internal error.
pub fn exit_code_for(chain: &Vec<Option<Category>>) -> (code: u8)
    ensures
        code == match spec_first_category(chain@) {
            Some(c) => category_exit_code(c),
            None => category_exit_code(Category::Internal),
        },
{
    match first_error_category(chain) {
        Some(c) => c.exit_code(),
        None => Category::Internal.exit_code(),
    }
}

/// The exit code of a batch that went on past failures: 0 when every
/// input succeeded, else the partial-failure code.
pub fn batch_exit_code(succeeded: &Vec<bool>) -> (code: u8)
    ensures
        (forall|i: int| 0 <= i < succeeded@.len() ==> succeeded@[i]) ==> code == 0,
        (exists|i: int| 0 <= i < succeeded@.len() && !succeeded@[i]) ==> code == PARTIAL_FAILURE_EXIT_CODE,
{
    let mut i: usize = 0;
    while i < succeeded.len()
        invariant
            i <= succeeded@.len(),
            forall|j: int| 0 <= j < i ==> succeeded@[j],
        decreases succeeded.len() - i,
    {
        if !succeeded[i] {
            return PARTIAL_FAILURE_EXIT_CODE;
        }
        i = i + 1;
    }
    0
}

/// An error chain with no categorised error exits as internal; one
/// whose outermost error is categorised exits with that category's
/// code, whatever follows.
pub proof fn lemma_exit_code_outermost_wins(c: Category, rest: Seq<Option<Category>>)
    ensures
        spec_first_category(seq![Some(c)] + rest) == Some(c),
        spec_first_category(Seq::<Option<Category>>::empty()) is None,
{
    assert((seq![Some(c)] + rest)[0] == Some(c));
}

} // verus!
