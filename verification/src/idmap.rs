//! The identity mapping applied to the sandboxed process: the caller's real
//! id becomes in-sandbox id 0, and the caller's delegated sub-id range
//! becomes in-sandbox ids 1 onward. Computed once per launch from the
//! delegation registry; handed to a privileged mapping helper as
//! `helper <pid> <ns-id> <host-id> <count> <ns-id> <host-id> <count>`.

use vstd::prelude::*;

use crate::decimal::dec_rep;
use crate::decimal::u32_to_dec;
use crate::decimal::u64_to_dec;
use crate::strs::views;

verus! {

/// One identity class's mapping for one launch: the caller's real id and the
/// delegated sub-id range resolved from the registry.
#[derive(Clone, Copy, PartialEq, Eq, Structural, Debug)]
pub struct IdMapping {
    pub real_id: u32,
    pub sub_base: u32,
    pub sub_count: u32,
}

/// The argument list for one privileged mapping helper: the target PID, then
/// the range `0 <- real_id` of length 1, then the range `1.. <- sub_base..`
/// of the delegated length.
pub open spec fn helper_argv(pid: u64, m: IdMapping) -> Seq<Seq<char>> {
    seq![
        dec_rep(pid as nat),
        dec_rep(0),
        dec_rep(m.real_id as nat),
        dec_rep(1),
        dec_rep(1),
        dec_rep(m.sub_base as nat),
        dec_rep(m.sub_count as nat),
    ]
}

/// Render the argument list for one privileged mapping helper, exactly as
/// [`helper_argv`] lays it out.
pub fn helper_args(pid: u64, m: &IdMapping) -> (r: Vec<String>)
    ensures
        views(r@) == helper_argv(pid, *m),
{
    let mut v: Vec<String> = Vec::new();
    v.push(u64_to_dec(pid));
    v.push(u32_to_dec(0));
    v.push(u32_to_dec(m.real_id));
    v.push(u32_to_dec(1));
    v.push(u32_to_dec(1));
    v.push(u32_to_dec(m.sub_base));
    v.push(u32_to_dec(m.sub_count));
    proof {
        assert(views(v@) =~~= helper_argv(pid, *m));
    }
    v
}

} // verus!
