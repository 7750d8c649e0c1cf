use vstd::prelude::*;

verus! {

/// Body of the reply to `GET /ping`.
pub open spec fn pong_body() -> Seq<char> {
    seq!['p', 'o', 'n', 'g']
}

/// GET /ping: the reply body, `pong`.
pub fn ping_handler() -> (body: &'static str)
    ensures
        body@ == pong_body(),
{
    let body = "pong";
    proof {
        reveal_strlit("pong");
    }
    body
}

} // verus!
