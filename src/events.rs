//! The events a scan task reports to the scheduler.
use vstd::prelude::*;

use std::path::PathBuf;

verus! {

/// A filesystem path, carried through the scheduler without being read.
#[verifier::external_type_specification]
#[verifier::external_body]
pub struct ExPathBuf(PathBuf);

/// Relies on `PathBuf::new`, which makes an empty path; the event builders
/// use it to fill the path of events that carry none.
pub assume_specification[ PathBuf::new ]() -> PathBuf;

/// The kind of a scan event.
#[derive(PartialEq, Eq, Structural, Clone, Copy, Debug)]
pub enum ResponseType {
    /// A regular file was found; its size is in `len`.
    File,
    /// A subdirectory was found; its path is in `path`.
    Dir,
    /// The task that sent it has listed its whole directory and sends no more.
    DoneDir,
}

/// One event of a scan task.
pub struct ChanResponse {
    pub t: ResponseType,
    pub path: PathBuf,
    pub len: u64,
}

/// A subdirectory found at `path`.
pub fn build_dir_chan(path: PathBuf) -> (r: ChanResponse)
    ensures
        r.t == ResponseType::Dir,
        r.path == path,
        r.len == 0,
{
    ChanResponse { t: ResponseType::Dir, path, len: 0 }
}

/// The end of one scan task.
pub fn build_dir_chan_done() -> (r: ChanResponse)
    ensures
        r.t == ResponseType::DoneDir,
        r.len == 0,
{
    ChanResponse { t: ResponseType::DoneDir, path: PathBuf::new(), len: 0 }
}

/// A regular file of `size` bytes.
pub fn build_file_chan(size: u64) -> (r: ChanResponse)
    ensures
        r.t == ResponseType::File,
        r.len == size,
{
    ChanResponse { t: ResponseType::File, path: PathBuf::new(), len: size }
}

/// The event for one listed directory entry, given what its metadata says:
/// a directory gives `Dir`, a regular file gives `File` with its length, and
/// anything else (a symbolic link, a socket, ...) gives nothing.
pub fn entry_event(is_dir: bool, is_file: bool, path: PathBuf, len: u64) -> (r: Option<
    ChanResponse,
>)
    ensures
        is_dir ==> r.is_some() && r->Some_0.t == ResponseType::Dir && r->Some_0.path == path,
        !is_dir && is_file ==> r.is_some() && r->Some_0.t == ResponseType::File
            && r->Some_0.len == len,
        !is_dir && !is_file ==> r.is_none(),
{
    if is_dir {
        Some(build_dir_chan(path))
    } else if is_file {
        Some(build_file_chan(len))
    } else {
        None
    }
}

} // verus!
