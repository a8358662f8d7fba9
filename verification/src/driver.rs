//! The abstract driver contract the handle layer consumes, and the plain
//! records exchanged with it.
//!
//! The driver is an external, stateful component doing block I/O and
//! on-disk structure parsing. This layer sees it only through the `Driver`
//! trait: a capability interface over plain records, whose state is modeled
//! by the two sets of driver-level tokens currently open — one for
//! directories, one for files. Every token handed out by an open operation
//! must be consumed by the matching release operation exactly once.

use vstd::prelude::*;

verus! {

/// Metadata of one mounted logical volume, as the driver reports it.
#[derive(Clone, Copy, Debug)]
pub struct Volume {
    /// Number of blocks on the volume.
    pub num_blocks: u32,
    /// Blocks per allocation cluster.
    pub blocks_per_cluster: u8,
    /// Number of clusters on the volume.
    pub cluster_count: u32,
    /// Free clusters, when the driver tracks the value.
    pub free_clusters: Option<u32>,
}

/// Opaque driver-level token for an open directory traversal context.
/// Single-use: it must reach the driver's release operation exactly once.
#[derive(Debug)]
pub struct Directory {
    /// The driver's identifier for the open context.
    pub token: u64,
}

/// Opaque driver-level token for an open file, with the read/write cursor
/// and the cached length the driver maintains through it.
#[derive(Debug)]
pub struct File {
    /// The driver's identifier for the open file.
    pub token: u64,
    /// Current read/write offset.
    pub offset: u32,
    /// Length of the file as last reported by the driver.
    pub length: u32,
}

/// How a file is opened. The create/truncate/append/read-only semantics
/// are owned by the driver; this layer passes the mode through unchanged.
#[derive(Clone, Copy, Debug)]
pub enum Mode {
    /// Open an existing file for reading only.
    ReadOnly,
    /// Open an existing file and position the cursor at its end.
    ReadWriteAppend,
    /// Create a new file; fail if one of that name exists.
    ReadWriteCreate,
    /// Create the file, or truncate an existing one to empty.
    ReadWriteCreateOrTruncate,
}

/// An error of the handle layer: contention on an exclusivity guard, or
/// the driver's own error passed through unchanged, never reinterpreted.
#[derive(Debug)]
pub enum Error<E> {
    /// The controller's exclusivity guard is already held.
    ControllerInUse,
    /// The volume's exclusivity guard is already held.
    VolumeInUse,
    /// A failure surfaced by the driver itself.
    Driver(E),
}

/// The driver interface. Implementations own the raw filesystem state;
/// the contracts below constrain only the lifecycle of the open-directory
/// and open-file tokens and the bookkeeping fields of `File`, leaving
/// every success/failure decision to the driver.
pub trait Driver: Sized {
    /// The driver's own error type, surfaced unchanged through this layer.
    type DriverError;

    /// The set of directory tokens currently open with the driver.
    spec fn dirs(&self) -> Set<u64>;

    /// The set of file tokens currently open with the driver.
    spec fn files(&self) -> Set<u64>;

    /// The volume record the driver reports at the given ordinal, where it
    /// reports one: every success of `get_volume` comes from here.
    spec fn volume_at(&self, index: int) -> Option<Volume>;

    /// Resolves the volume at the given ordinal. Opens no token; on
    /// success the record is exactly the one the driver holds there.
    fn get_volume(&mut self, index: usize) -> (r: Result<Volume, Self::DriverError>)
        ensures
            final(self).dirs() == old(self).dirs(),
            final(self).files() == old(self).files(),
            (match r {
                Ok(v) => old(self).volume_at(index as int) == Some(v),
                Err(_) => true,
            }),
    ;

    /// Opens the volume's root directory, yielding a fresh directory token.
    fn open_root_dir(&mut self, volume: &Volume) -> (r: Result<Directory, Self::DriverError>)
        ensures
            final(self).files() == old(self).files(),
            (match r {
                Ok(d) => !old(self).dirs().contains(d.token)
                    && final(self).dirs() == old(self).dirs().insert(d.token),
                Err(_) => final(self).dirs() == old(self).dirs(),
            }),
    ;

    /// Releases a directory token. The token is consumed whether or not the
    /// driver reports a failure: it can never be released twice.
    fn close_dir(&mut self, volume: &Volume, directory: Directory) -> (r: Result<(), Self::DriverError>)
        requires
            old(self).dirs().contains(directory.token),
        ensures
            final(self).dirs() == old(self).dirs().remove(directory.token),
            final(self).files() == old(self).files(),
    ;

    /// Opens or creates a file by name within an open directory, per the
    /// mode; yields a fresh file token on success, with the cursor and
    /// cached length placed as the mode prescribes. May rewrite the volume
    /// record (for instance its free-cluster count).
    fn open_file_in_dir(
        &mut self,
        volume: &mut Volume,
        directory: &Directory,
        name: &str,
        mode: Mode,
    ) -> (r: Result<File, Self::DriverError>)
        requires
            old(self).dirs().contains(directory.token),
        ensures
            final(self).dirs() == old(self).dirs(),
            (match r {
                Ok(f) => !old(self).files().contains(f.token)
                    && final(self).files() == old(self).files().insert(f.token)
                    && f.offset <= f.length
                    && ((mode is ReadWriteCreate || mode is ReadWriteCreateOrTruncate)
                        ==> f.offset == 0 && f.length == 0)
                    && (mode is ReadWriteAppend ==> f.offset == f.length)
                    && (mode is ReadOnly ==> f.offset == 0),
                Err(_) => final(self).files() == old(self).files(),
            }),
    ;

    /// Releases a file token. As with directories, the token is consumed
    /// whether or not the driver reports a failure.
    fn close_file(&mut self, volume: &Volume, file: File) -> (r: Result<(), Self::DriverError>)
        requires
            old(self).files().contains(file.token),
        ensures
            final(self).files() == old(self).files().remove(file.token),
            final(self).dirs() == old(self).dirs(),
    ;

    /// Fills the buffer (up to its current length) from the file's cursor,
    /// advancing the cursor by the count returned. Reading never changes
    /// the file's length, and may return fewer bytes than asked for.
    fn read(
        &mut self,
        volume: &mut Volume,
        file: &mut File,
        buffer: &mut Vec<u8>,
    ) -> (r: Result<usize, Self::DriverError>)
        requires
            old(self).files().contains(old(file).token),
        ensures
            final(self).dirs() == old(self).dirs(),
            final(self).files() == old(self).files(),
            final(buffer).len() == old(buffer).len(),
            (match r {
                Ok(n) => n <= old(buffer).len()
                    && final(file).token == old(file).token
                    && old(file).offset as int + n as int <= u32::MAX as int
                    && final(file).offset as int == old(file).offset as int + n as int
                    && final(file).length == old(file).length,
                Err(_) => *final(file) == *old(file),
            }),
    ;

    /// Writes the data at the file's cursor, advancing the cursor past what
    /// was written; the cached length becomes the larger of its old value
    /// and the new cursor.
    fn write(
        &mut self,
        volume: &mut Volume,
        file: &mut File,
        data: &[u8],
    ) -> (r: Result<usize, Self::DriverError>)
        requires
            old(self).files().contains(old(file).token),
        ensures
            final(self).dirs() == old(self).dirs(),
            final(self).files() == old(self).files(),
            (match r {
                Ok(n) => n <= data.len()
                    && final(file).token == old(file).token
                    && old(file).offset as int + n as int <= u32::MAX as int
                    && final(file).offset as int == old(file).offset as int + n as int
                    && final(file).length == (if old(file).length >= final(file).offset {
                        old(file).length
                    } else {
                        final(file).offset
                    }),
                Err(_) => *final(file) == *old(file),
            }),
    ;
}

} // verus!
