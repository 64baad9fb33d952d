//! Generation of collision-resistant identifiers for anonymous functions,
//! drawn from the process-wide random number generator.

use vstd::prelude::*;
use rand::Rng;

verus! {

/// Relies on rand's `thread_rng` sampling the `Alphanumeric`
/// distribution: the result is exactly 20 characters, each drawn from
/// a-z, A-Z and 0-9. Which characters come back is random; nothing more
/// is assumed of them.
#[verifier::external_body]
pub(crate) fn random_fn_name() -> (r: String)
    ensures
        r@.len() == 20,
        forall|i: int|
            0 <= i < r@.len() ==> (('a' <= #[trigger] r@[i] && r@[i] <= 'z') || ('A' <= r@[i]
                && r@[i] <= 'Z') || ('0' <= r@[i] && r@[i] <= '9')),
{
    rand::thread_rng().sample_iter(&rand::distributions::Alphanumeric).take(20).map(
        char::from,
    ).collect()
}

} // verus!
