//! Size accounting for the archive interfaces, reporting failures in their
//! error taxonomy.

use vstd::prelude::*;

use crate::_error::Error;
use crate::_error::IsIOError;
use crate::utils::entry_is_file;
use crate::utils::entry_len;
use crate::utils::path_file_len;
use crate::utils::path_is_dir;
use crate::utils::path_is_file;
use crate::utils::total_of_lens;
use crate::utils::walk_entries;

verus! {

/// Total size in bytes of the given path: the file's own length for a
/// regular file, and the sum of the lengths of all regular files found by
/// a full recursive traversal for a directory; anything else is rejected.
/// Single-file failures are input/output errors, failures during the walk
/// are walk errors, and any other path state is a plain input error.
pub(crate) fn calculate_size(path: &String) -> (r: Result<u64, Error>)
    ensures
        r matches Err(e) ==> e is IOError,
{
    if path_is_file(path) {
        match path_file_len(path) {
            Ok(n) => Ok(n),
            Err(m) => Err(Error::IOError(IsIOError::StdIoError(m))),
        }
    } else if path_is_dir(path) {
        let entries = walk_entries(path);
        let mut lens: Vec<u64> = Vec::new();
        let mut i: usize = 0;
        while i < entries.len()
            decreases entries@.len() - i,
        {
            match &entries[i] {
                Ok(entry) => {
                    if entry_is_file(entry) {
                        match entry_len(entry) {
                            Ok(l) => lens.push(l),
                            Err(m) => {
                                return Err(Error::IOError(IsIOError::WalkError(m)));
                            },
                        }
                    }
                },
                Err(m) => {
                    return Err(Error::IOError(IsIOError::WalkError(m.clone())));
                },
            }
            i = i + 1;
        }
        match total_of_lens(&lens) {
            Some(total) => Ok(total),
            None => Err(
                Error::IOError(
                    IsIOError::OnError("Total size exceeds the largest byte count.".to_owned()),
                ),
            ),
        }
    } else {
        Err(Error::IOError(IsIOError::OnError("Path is not a file".to_owned())))
    }
}

} // verus!
