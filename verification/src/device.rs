//! The decisions the device-sync and framebuffer code rests on.  The SSH
//! transport, the filesystem walk and the raw-memory reads happen outside
//! the library; what to do with each file, and which blocks of the
//! device's memory hold one frame, is decided here.

use vstd::prelude::*;

verus! {

/// Bytes of one full framebuffer frame: width times height times two
/// bytes per pixel.
pub const FRAME_BYTES: usize = 1872 * 1404 * 2;

/// The block size the frame is read with.
pub const FRAME_BLOCK_SIZE: usize = 4096;

/// What the sync does with one remote file.
#[derive(Clone, Copy, Debug, PartialEq, Eq, Structural)]
pub enum SyncAction {
    /// No local copy exists: create it.
    Create,
    /// The remote copy is newer than the local one: overwrite it.
    Update,
    /// The local copy is current: leave it.
    Skip,
}

/// One remote file beside what is known of its local copy: both sides as
/// seconds since the epoch, the local side absent when the file is not on
/// disk.
#[derive(Clone, Copy, Debug, PartialEq, Eq, Structural)]
pub struct SyncEntry {
    pub remote_mtime: u64,
    pub local_mtime: Option<u64>,
}

/// The sync rule: a missing local file is created; an older local file is
/// updated; anything else is left alone.
pub open spec fn spec_sync_action(remote_mtime: u64, local_mtime: Option<u64>) -> SyncAction {
    match local_mtime {
        None => SyncAction::Create,
        Some(local) => if remote_mtime > local {
            SyncAction::Update
        } else {
            SyncAction::Skip
        },
    }
}

/// Decide one file's fate under the sync rule.
pub fn sync_action(remote_mtime: u64, local_mtime: Option<u64>) -> (a: SyncAction)
    ensures
        a == spec_sync_action(remote_mtime, local_mtime),
{
    match local_mtime {
        None => SyncAction::Create,
        Some(local) => {
            if remote_mtime > local {
                SyncAction::Update
            } else {
                SyncAction::Skip
            }
        },
    }
}

/// How many of the actions equal `a`.
pub open spec fn spec_count_action(s: Seq<SyncAction>, a: SyncAction) -> nat
    decreases s.len(),
{
    if s.len() == 0 {
        0
    } else {
        spec_count_action(s.drop_last(), a) + if s.last() == a {
            1nat
        } else {
            0nat
        }
    }
}

/// A directory sync plan: one action per entry, in order, and the three
/// tallies the sync reports.
pub struct SyncPlan {
    pub actions: Vec<SyncAction>,
    pub created: usize,
    pub updated: usize,
    pub skipped: usize,
}

/// Plan the sync of the device's storage into a local directory: one
/// action per listed file under the sync rule, with the tallies of files
/// created, updated and skipped.
pub fn sync_remarkable_to_dir(entries: &Vec<SyncEntry>) -> (plan: SyncPlan)
    ensures
        plan.actions@.len() == entries@.len(),
        forall|k: int|
            0 <= k < entries@.len() ==> plan.actions@[k] == spec_sync_action(
                (#[trigger] entries@[k]).remote_mtime,
                entries@[k].local_mtime,
            ),
        plan.created == spec_count_action(plan.actions@, SyncAction::Create),
        plan.updated == spec_count_action(plan.actions@, SyncAction::Update),
        plan.skipped == spec_count_action(plan.actions@, SyncAction::Skip),
        plan.created + plan.updated + plan.skipped == entries@.len(),
{
    let mut actions: Vec<SyncAction> = Vec::new();
    let mut created: usize = 0;
    let mut updated: usize = 0;
    let mut skipped: usize = 0;
    let mut k: usize = 0;
    while k < entries.len()
        invariant
            k <= entries@.len(),
            actions@.len() == k,
            forall|q: int|
                0 <= q < k ==> actions@[q] == spec_sync_action(
                    (#[trigger] entries@[q]).remote_mtime,
                    entries@[q].local_mtime,
                ),
            created == spec_count_action(actions@, SyncAction::Create),
            updated == spec_count_action(actions@, SyncAction::Update),
            skipped == spec_count_action(actions@, SyncAction::Skip),
            created + updated + skipped == k,
        decreases entries@.len() - k,
    {
        let e = entries[k];
        let a = sync_action(e.remote_mtime, e.local_mtime);
        let ghost prefix = actions@;
        actions.push(a);
        match a {
            SyncAction::Create => {
                created = created + 1;
            },
            SyncAction::Update => {
                updated = updated + 1;
            },
            SyncAction::Skip => {
                skipped = skipped + 1;
            },
        }
        proof {
            assert(actions@.drop_last() =~= prefix);
        }
        k = k + 1;
    }
    SyncPlan { actions, created, updated, skipped }
}

/// Which window of the device's memory holds one frame, in blocks: the
/// number of whole blocks before the framebuffer offset, and the number of
/// blocks that cover one frame starting inside the first kept block.
pub fn frame_window(frame_buffer_offset: usize) -> (r: (usize, usize))
    ensures
        r.0 as int == frame_buffer_offset as int / FRAME_BLOCK_SIZE as int,
        r.1 as int == ((FRAME_BYTES as int - frame_buffer_offset as int % FRAME_BLOCK_SIZE as int)
            + (FRAME_BLOCK_SIZE as int - 1)) / FRAME_BLOCK_SIZE as int,
{
    let skip_count = frame_buffer_offset / FRAME_BLOCK_SIZE;
    let in_block = frame_buffer_offset % FRAME_BLOCK_SIZE;
    let covered = FRAME_BYTES - in_block;
    let block_count = (covered + (FRAME_BLOCK_SIZE - 1)) / FRAME_BLOCK_SIZE;
    (skip_count, block_count)
}

} // verus!
