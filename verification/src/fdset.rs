//! Descriptor plumbing: spawning a child with an explicit, caller-chosen
//! renumbering of inherited file descriptors.
//!
//! The child applies the renumbering sequentially — source `i` is duplicated
//! onto slot `i` for `i = 0, 1, 2, …` — and then closes every descriptor at
//! or above the mapped range. Sequential duplication is only correct when no
//! source still to be moved sits on a slot that an earlier step has already
//! overwritten; [`renumber_safe`] captures the ordering guarantee that rules
//! that out, and [`lemma_child_descriptor_table`] proves that under it the
//! child's table holds exactly the chosen sources on slots `0..n` and
//! nothing else.

use vstd::prelude::*;

use crate::errors::LaunchError;

verus! {

/// A descriptor table: each open descriptor number maps to the identity of
/// the underlying open resource.
pub type FdTable = Map<int, int>;

/// One `dup2(src, dst)` step: slot `dst` now refers to `src`'s resource.
pub open spec fn dup2_spec(t: FdTable, src: int, dst: int) -> FdTable {
    t.insert(dst, t[src])
}

/// The table after the first `k` renumbering steps: step `j` duplicates
/// source `fds[j]` onto slot `j`.
pub open spec fn apply_prefix(t: FdTable, fds: Seq<i32>, k: int) -> FdTable
    decreases k,
{
    if k <= 0 {
        t
    } else {
        dup2_spec(apply_prefix(t, fds, k - 1), fds[k - 1] as int, k - 1)
    }
}

/// Closing every descriptor at or above `n`.
pub open spec fn close_from(t: FdTable, n: int) -> FdTable {
    Map::new(|f: int| t.dom().contains(f) && 0 <= f < n, |f: int| t[f])
}

/// The child's descriptor table after the whole renumbering and the final
/// close of everything above the mapped range.
pub open spec fn child_table(t: FdTable, fds: Seq<i32>) -> FdTable {
    close_from(apply_prefix(t, fds, fds.len() as int), fds.len() as int)
}

/// The ordering guarantee that makes sequential duplication race-free: no
/// source may sit below its own target slot, so no step ever reads a slot
/// that an earlier step overwrote.
pub open spec fn renumber_safe(fds: Seq<i32>) -> bool {
    forall|i: int| 0 <= i < fds.len() ==> fds[i] as int >= i
}

/// Every listed source is an open descriptor of the parent's table.
pub open spec fn sources_open(t: FdTable, fds: Seq<i32>) -> bool {
    forall|i: int| 0 <= i < fds.len() ==> t.dom().contains(fds[i] as int)
}

proof fn lemma_apply_prefix(t: FdTable, fds: Seq<i32>, k: int)
    requires
        0 <= k <= fds.len(),
        renumber_safe(fds),
        sources_open(t, fds),
    ensures
        apply_prefix(t, fds, k).dom() == t.dom().union(Set::new(|f: int| 0 <= f < k)),
        forall|i: int| 0 <= i < k ==> apply_prefix(t, fds, k)[i] == t[fds[i] as int],
        forall|f: int|
            f >= k && t.dom().contains(f) ==> apply_prefix(t, fds, k)[f] == t[f],
    decreases k,
{
    if k > 0 {
        lemma_apply_prefix(t, fds, k - 1);
        let prev = apply_prefix(t, fds, k - 1);
        let cur = apply_prefix(t, fds, k);
        // the source of step k - 1 lies at or above slot k - 1, so the steps
        // before it left that source's entry untouched
        assert(fds[k - 1] as int >= k - 1);
        assert(prev[fds[k - 1] as int] == t[fds[k - 1] as int]);
        assert(cur == prev.insert(k - 1, prev[fds[k - 1] as int]));
        assert(cur.dom() =~= t.dom().union(Set::new(|f: int| 0 <= f < k)));
        assert forall|i: int| 0 <= i < k implies cur[i] == t[fds[i] as int] by {
            if i < k - 1 {
                assert(cur[i] == prev[i]);
            }
        }
        assert forall|f: int| f >= k && t.dom().contains(f) implies cur[f] == t[f] by {
            assert(cur[f] == prev[f]);
        }
    }
}

/// Correctness of the renumbering: under the ordering guarantee, the child's
/// table holds slots `0..n` exactly — slot `i` refers to source `fds[i]`'s
/// resource — and no descriptor at or above `n` is left open. The latter is
/// the leak-freedom property: probing any descriptor outside the intended
/// range in the child finds it closed.
pub proof fn lemma_child_descriptor_table(t: FdTable, fds: Seq<i32>)
    requires
        renumber_safe(fds),
        sources_open(t, fds),
    ensures
        forall|f: int| f >= fds.len() ==> !child_table(t, fds).dom().contains(f),
        forall|f: int| f < 0 ==> !child_table(t, fds).dom().contains(f),
        forall|i: int|
            0 <= i < fds.len() ==> child_table(t, fds).dom().contains(i) && child_table(t, fds)[i]
                == t[fds[i] as int],
{
    lemma_apply_prefix(t, fds, fds.len() as int);
    let n = fds.len() as int;
    let full = apply_prefix(t, fds, n);
    let child = child_table(t, fds);
    assert forall|i: int| 0 <= i < n implies child.dom().contains(i) && child[i] == t[(
    fds[i] as int)] by {
        assert(Set::new(|f: int| 0 <= f < n).contains(i));
        assert(full.dom().contains(i));
        assert(child.dom().contains(i) && child[i] == full[i]);
    }
}

/// An ordered choice of parent descriptors to surface, in order, as the
/// child's descriptors `0, 1, 2, …`, with everything else closed.
pub struct DescriptorSet {
    pub sources: Vec<i32>,
}

impl DescriptorSet {
    /// The set can be applied by sequential duplication without clobbering a
    /// source before it is moved.
    pub open spec fn well_formed(self) -> bool {
        renumber_safe(self.sources@)
    }

    /// Accept an ordered source list only when sequential duplication is
    /// race-free; a list that would clobber one of its own sources is
    /// refused outright, so no partially configured child can escape.
    pub fn new(sources: Vec<i32>) -> (r: Result<DescriptorSet, LaunchError>)
        ensures
            r matches Ok(ds) ==> ds.sources == sources && ds.well_formed(),
            r is Ok <==> renumber_safe(sources@),
            r matches Err(e) ==> e == LaunchError::ProcessSpawn,
    {
        let mut i: usize = 0;
        while i < sources.len()
            invariant
                0 <= i <= sources.len(),
                forall|j: int| 0 <= j < i ==> sources@[j] as int >= j,
            decreases sources.len() - i,
        {
            let s = sources[i];
            if s < 0 || (s as usize) < i {
                assert((sources@[i as int] as int) < (i as int));
                return Err(LaunchError::ProcessSpawn);
            }
            i += 1;
        }
        Ok(DescriptorSet { sources })
    }
}

/// The source list the sandbox process inherits: the three terminal
/// descriptors first when the terminal is inherited, then the barrier
/// channel's read end and the info channel's write end.
pub open spec fn sandbox_sources(inherit_tty: bool, block_fd: i32, info_fd: i32) -> Seq<i32> {
    if inherit_tty {
        seq![0i32, 1i32, 2i32, block_fd, info_fd]
    } else {
        seq![block_fd, info_fd]
    }
}

/// The child-side slot the barrier channel's read end lands on.
pub open spec fn spec_block_slot(inherit_tty: bool) -> int {
    if inherit_tty {
        3
    } else {
        0
    }
}

/// The child-side slot the info channel's write end lands on.
pub open spec fn spec_info_slot(inherit_tty: bool) -> int {
    if inherit_tty {
        4
    } else {
        1
    }
}

/// Build the sandbox process's descriptor set. The requirement that the two
/// channel descriptors lie above their target slots always holds in
/// practice: freshly created pipe ends are numbered past the three standard
/// descriptors.
pub fn sandbox_descriptor_set(inherit_tty: bool, block_fd: i32, info_fd: i32) -> (r: DescriptorSet)
    requires
        block_fd >= 3,
        info_fd >= 4,
        block_fd != info_fd,
    ensures
        r.sources@ == sandbox_sources(inherit_tty, block_fd, info_fd),
        r.well_formed(),
        r.sources@[spec_block_slot(inherit_tty)] == block_fd,
        r.sources@[spec_info_slot(inherit_tty)] == info_fd,
{
    let mut sources: Vec<i32> = Vec::new();
    if inherit_tty {
        sources.push(0);
        sources.push(1);
        sources.push(2);
    }
    sources.push(block_fd);
    sources.push(info_fd);
    assert(sources@ =~= sandbox_sources(inherit_tty, block_fd, info_fd));
    DescriptorSet { sources }
}

/// The descriptor number the sandbox executable must be told for its barrier
/// (identity-namespace block) channel: exactly the slot the barrier read end
/// lands on in [`sandbox_descriptor_set`]'s layout.
pub fn userns_block_slot(inherit_tty: bool) -> (r: u32)
    ensures
        r as int == spec_block_slot(inherit_tty),
{
    if inherit_tty {
        3
    } else {
        0
    }
}

/// The descriptor number the sandbox executable must be told for its info
/// channel: exactly the slot the info write end lands on in
/// [`sandbox_descriptor_set`]'s layout.
pub fn info_slot(inherit_tty: bool) -> (r: u32)
    ensures
        r as int == spec_info_slot(inherit_tty),
{
    if inherit_tty {
        4
    } else {
        1
    }
}

} // verus!
