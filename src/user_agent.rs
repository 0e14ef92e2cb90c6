use vstd::prelude::*;

verus! {

/// How many User-Agent strings the pool holds.
pub const USER_AGENT_COUNT: usize = 3;

/// The fixed pool of User-Agent strings, in order.
pub open spec fn user_agent_pool() -> Seq<Seq<char>> {
    seq![
        "Mozilla/5.0 (Windows NT 10.0; Win64; x64) AppleWebKit/537.36 Chrome/120"@,
        "Mozilla/5.0 (X11; Linux x86_64) Gecko/20100101 Firefox/115"@,
        "Mozilla/5.0 (Macintosh; Intel Mac OS X 13_2_1) Safari/605.1.15"@,
    ]
}

/// Relies on rand's `Rng::gen_range` over the thread-local generator: a value
/// below `n` (it panics on an empty range, which `requires` leaves out).
#[verifier::external_body]
fn random_below(n: usize) -> (r: usize)
    requires
        n > 0,
    ensures
        r < n,
{
    rand::Rng::gen_range(&mut rand::thread_rng(), 0..n)
}

/// The pool entry at `i`.
pub fn user_agent_at(i: usize) -> (r: String)
    requires
        i < USER_AGENT_COUNT,
    ensures
        r@ == user_agent_pool()[i as int],
{
    if i == 0 {
        String::from_str("Mozilla/5.0 (Windows NT 10.0; Win64; x64) AppleWebKit/537.36 Chrome/120")
    } else if i == 1 {
        String::from_str("Mozilla/5.0 (X11; Linux x86_64) Gecko/20100101 Firefox/115")
    } else {
        String::from_str("Mozilla/5.0 (Macintosh; Intel Mac OS X 13_2_1) Safari/605.1.15")
    }
}

/// A User-Agent drawn at random from the pool, one per request.
pub fn choose_user_agent() -> (r: String)
    ensures
        user_agent_pool().contains(r@),
{
    let i = random_below(USER_AGENT_COUNT);
    let r = user_agent_at(i);
    assert(user_agent_pool()[i as int] == r@);
    r
}

} // verus!
