//! Account-number drawing for the interactive boundary.

use rand::Rng;
use vstd::prelude::*;

verus! {

/// Relies on `rand::thread_rng` and `Rng::gen_range` over the
/// half-open range starting at 100000000 and ending before 999999999:
/// the draw lies in that range, and nothing more is promised of it —
/// it is random.
#[verifier::external_body]
pub fn generate_random_account_number() -> (r: u32)
    ensures
        100000000 <= r < 999999999,
{
    let mut rng = rand::thread_rng();
    rng.gen_range(100000000..999999999)
}

} // verus!
