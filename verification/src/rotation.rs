//! Size-based log rotation, as a transition on the set of files it
//! touches. The filesystem work — renames, copies, truncation — happens
//! outside the library and mirrors this model; the model fixes which
//! contents end up under which numbered backup.

use vstd::prelude::*;
use crate::text::dec_chars;
use crate::text::u64_dec_string;

verus! {

/// The files one rotation touches, by content: the active log, and the
/// numbered backups — `backups[i]` models the `.{i+1}` file, `None`
/// standing for an absent file.
pub struct LogFileSet {
    pub active: Option<Vec<u8>>,
    pub backups: Vec<Option<Vec<u8>>>,
}

/// An optional file's content.
pub open spec fn file_view(f: Option<Vec<u8>>) -> Option<Seq<u8>> {
    match f {
        Some(v) => Some(v@),
        None => None,
    }
}

/// Whether a rotation happens: only with a positive ceiling and backup
/// count, and an active file at or above the ceiling.
pub open spec fn rotation_applies(files: LogFileSet, max_bytes: u64, backup_count: usize) -> bool {
    &&& max_bytes > 0
    &&& backup_count > 0
    &&& files.active matches Some(c) && c@.len() >= max_bytes
}

impl LogFileSet {
    /// Rotates when the active file has reached the ceiling: the oldest
    /// backup is dropped, every backup shifts up one number, the active
    /// content becomes backup one, and the active file is either renamed
    /// away or — `copy_and_truncate`, for a writer that keeps its handle
    /// open — left in place and emptied. Below the ceiling, with a zero
    /// ceiling or a zero backup count, nothing changes.
    pub fn rotate_log_if_needed(
        &mut self,
        max_bytes: u64,
        backup_count: usize,
        copy_and_truncate: bool,
    )
        requires
            old(self).backups@.len() == backup_count,
        ensures
            final(self).backups@.len() == backup_count,
            !rotation_applies(*old(self), max_bytes, backup_count) ==> *final(self) == *old(self),
            rotation_applies(*old(self), max_bytes, backup_count) ==> {
                &&& file_view(final(self).backups@[0]) == file_view(old(self).active)
                &&& forall|k: int|
                    1 <= k < backup_count ==> file_view(#[trigger] final(self).backups@[k])
                        == file_view(old(self).backups@[k - 1])
                &&& (copy_and_truncate ==> file_view(final(self).active) == Some(
                    Seq::<u8>::empty(),
                ))
                &&& (!copy_and_truncate ==> final(self).active is None)
            },
    {
        if max_bytes == 0 || backup_count == 0 {
            return ;
        }
        let active_content = match &self.active {
            Some(c) => c.clone(),
            None => {
                return ;
            },
        };
        if (active_content.len() as u64) < max_bytes {
            return ;
        }
        self.backups.insert(0, Some(active_content));
        let _oldest = self.backups.pop();
        self.active = if copy_and_truncate {
            Some(Vec::new())
        } else {
            None
        };
    }
}

/// The path of numbered backup `index`: the active file's path with
/// `.index` appended.
pub open spec fn rotated_log_path_spec(path: Seq<char>, index: nat) -> Seq<char> {
    path + seq!['.'] + dec_chars(index)
}

/// Builds the path of numbered backup `index`.
pub fn rotated_log_path(path: &str, index: u64) -> (r: String)
    ensures
        r@ == rotated_log_path_spec(path@, index as nat),
{
    proof {
        reveal_strlit(".");
    }
    let mut out = path.to_owned();
    out.append(".");
    let digits = u64_dec_string(index);
    out.append(digits.as_str());
    proof {
        assert(out@ =~= rotated_log_path_spec(path@, index as nat));
    }
    out
}

} // verus!
