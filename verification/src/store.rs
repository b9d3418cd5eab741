//! The durable-store protocol: write the snapshot to a temporary file,
//! then atomically rename it over the canonical file; at startup, move
//! a leftover canonical file into the archive under a timestamp name.
//!
//! The file system is modelled as plain state — canonical and
//! temporary content, and the append-only archive — and each outside
//! operation's success or failure enters as an argument, so the
//! protocol's guarantees (the canonical content is never touched by a
//! failed attempt; rotation archives exactly one file) are proved for
//! every outcome. The caller performs the real file operations and
//! mirrors this model.

use vstd::prelude::*;
use crate::numeral::dec_rep;
use crate::numeral::u64_to_dec;

verus! {

/// Why a snapshot attempt failed: creating the temporary file, writing
/// the lines, or publishing (renaming) it.
#[derive(Copy, Clone, PartialEq, Eq, Structural, Debug)]
pub enum SnapshotError {
    CreateFailed,
    WriteFailed,
    PublishFailed,
}

/// The modelled persistent state: the canonical file's lines, the
/// temporary file's lines, and the archived files (name and lines).
pub struct DiskModel {
    pub canonical: Option<Vec<String>>,
    pub temp: Option<Vec<String>>,
    pub archive: Vec<(String, Vec<String>)>,
}

impl DiskModel {
    /// A store with no files at all.
    pub fn new() -> (r: DiskModel)
        ensures
            r.canonical is None,
            r.temp is None,
            r.archive@ == Seq::<(String, Vec<String>)>::empty(),
    {
        let r = DiskModel { canonical: None, temp: None, archive: Vec::new() };
        proof {
            assert(r.archive@ =~= Seq::<(String, Vec<String>)>::empty());
        }
        r
    }
}

/// Relies on time::OffsetDateTime::now_utc and unix_timestamp: the
/// current wall-clock time in whole seconds since the Unix epoch.
/// Nothing holds of the value; the machine's clock decides it.
#[verifier::external_body]
fn now_unix_seconds() -> i64 {
    time::OffsetDateTime::now_utc().unix_timestamp()
}

/// The current Unix time in seconds, clamped to zero for a pre-epoch
/// clock: the number whose decimal numeral names the next archive
/// entry. The clock decides the value, so nothing more is promised;
/// `rotate_previous` is proved for every value handed in.
pub fn unix_seconds_now() -> (r: u64) {
    let now = now_unix_seconds();
    if now >= 0 {
        now as u64
    } else {
        0
    }
}

/// One snapshot attempt: truncate the temporary file, write the lines,
/// rename it over the canonical file. Success is owed exactly when all
/// three steps succeed; each failure reports its stage. Whatever
/// fails, the canonical content is exactly what it was before — a
/// reader never observes a partial write — and the archive is never
/// touched.
pub fn publish_snapshot(
    disk: &mut DiskModel,
    lines: Vec<String>,
    create_ok: bool,
    write_ok: bool,
    rename_ok: bool,
) -> (r: Result<(), SnapshotError>)
    ensures
        final(disk).archive == old(disk).archive,
        r is Ok <==> (create_ok && write_ok && rename_ok),
        r is Ok ==> final(disk).canonical == Some(lines) && final(disk).temp is None,
        !create_ok ==> r == Err::<(), SnapshotError>(SnapshotError::CreateFailed) && *final(disk)
            == *old(disk),
        create_ok && !write_ok ==> r == Err::<(), SnapshotError>(SnapshotError::WriteFailed) && (
        final(disk).temp matches Some(v) && v@ == Seq::<String>::empty()),
        create_ok && write_ok && !rename_ok ==> r == Err::<(), SnapshotError>(
            SnapshotError::PublishFailed,
        ) && final(disk).temp == Some(lines),
        !(create_ok && write_ok && rename_ok) ==> final(disk).canonical == old(disk).canonical,
{
    if !create_ok {
        return Err(SnapshotError::CreateFailed);
    }
    if !write_ok {
        disk.temp = Some(Vec::new());
        return Err(SnapshotError::WriteFailed);
    }
    if !rename_ok {
        disk.temp = Some(lines);
        return Err(SnapshotError::PublishFailed);
    }
    disk.temp = None;
    disk.canonical = Some(lines);
    Ok(())
}

/// Startup rotation: when a canonical file is left over from an
/// earlier run, move it into the archive under the decimal timestamp
/// name. On success the canonical file is gone and exactly one new
/// archive entry exists, named `dec_rep(now_sec)`, holding the old
/// content. A failure to make the archive directory or to move the
/// file is non-fatal: the store is left exactly as it was. Returns
/// whether a file was archived.
pub fn rotate_previous(disk: &mut DiskModel, now_sec: u64, dir_ok: bool, rename_ok: bool) -> (r:
    bool)
    ensures
        final(disk).temp == old(disk).temp,
        old(disk).canonical is None ==> *final(disk) == *old(disk) && r == false,
        old(disk).canonical is Some && dir_ok && rename_ok ==> {
            &&& r == true
            &&& final(disk).canonical is None
            &&& final(disk).archive@.len() == old(disk).archive@.len() + 1
            &&& final(disk).archive@.last().0@ == dec_rep(now_sec as int)
            &&& Some(final(disk).archive@.last().1) == old(disk).canonical
            &&& final(disk).archive@.drop_last() == old(disk).archive@
        },
        old(disk).canonical is Some && !(dir_ok && rename_ok) ==> *final(disk) == *old(disk) && r
            == false,
{
    if disk.canonical.is_some() {
        if dir_ok && rename_ok {
            let name = u64_to_dec(now_sec);
            let mut content: Option<Vec<String>> = None;
            core::mem::swap(&mut content, &mut disk.canonical);
            match content {
                Some(lines) => {
                    disk.archive.push((name, lines));
                    proof {
                        assert(disk.archive@.drop_last() =~= old(disk).archive@);
                    }
                    true
                },
                None => false,
            }
        } else {
            false
        }
    } else {
        false
    }
}

} // verus!
