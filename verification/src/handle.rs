//! The scoped handle hierarchy over one shared driver.
//!
//! A `ControllerHandle` wraps the driver once and is the sole access point
//! to it; every access runs under a non-blocking exclusivity guard, so an
//! attempt to enter the controller (or a volume) while another access is
//! outstanding fails fast with an in-use error instead of blocking or
//! corrupting state. `VolumeHandle`, `DirectoryHandle` and `FileHandle` are
//! scoped children: directory and file handles each hold one driver-level
//! token, which their consuming `release` hands to the driver exactly once;
//! a failure reported there is routed to the controller's diagnostic
//! counter, never raised to the caller whose scope is ending.

use core::marker::PhantomData;
use vstd::prelude::*;

use crate::driver::{Directory, Driver, Error, File, Mode, Volume};
use crate::guard::AccessGuard;

verus! {

/// The capability contract all scoped handles work through. A controller
/// serializes access to the driver, tracks which directory and file tokens
/// are open, and counts release failures swallowed during teardown.
///
/// The contract is a trait rather than a concrete type so the handles can
/// be used over anything that satisfies it, such as a test double.
pub trait ControllerTrait: Sized {
    /// The underlying driver's error type, passed through unchanged.
    type Error;

    /// The set of directory tokens currently open.
    spec fn dirs(&self) -> Set<u64>;

    /// The set of file tokens currently open.
    spec fn files(&self) -> Set<u64>;

    /// Whether the controller's exclusivity guard is currently held.
    spec fn in_use(&self) -> bool;

    /// How many teardown release failures have been swallowed so far.
    spec fn release_failures(&self) -> u64;

    /// The volume record the underlying driver reports at the given
    /// ordinal, where it reports one.
    spec fn volume_at(&self, index: int) -> Option<Volume>;

    /// Resolves the volume at the given ordinal and wraps it in a fresh
    /// volume handle holding exactly the record the driver reports there.
    /// Opens no directory or file token.
    fn volume(&mut self, index: usize) -> (r: Result<VolumeHandle<Self>, Error<Self::Error>>)
        ensures
            final(self).dirs() == old(self).dirs(),
            final(self).files() == old(self).files(),
            final(self).in_use() == old(self).in_use(),
            final(self).release_failures() == old(self).release_failures(),
            old(self).in_use() ==> (r matches Err(Error::ControllerInUse)),
            !old(self).in_use() ==> (match r {
                Ok(v) => !v.in_use(),
                Err(e) => e is Driver,
            }),
            (match r {
                Ok(v) => old(self).volume_at(index as int) == Some(v.volume()),
                Err(_) => true,
            }),
    ;

    /// Opens the volume's root directory, yielding a directory handle over
    /// a fresh token. Requires the controller's and the volume's guards
    /// simultaneously, for the duration of the call only.
    fn root(&mut self, volume: &mut VolumeHandle<Self>) -> (r: Result<DirectoryHandle<Self>, Error<Self::Error>>)
        ensures
            final(self).files() == old(self).files(),
            final(self).in_use() == old(self).in_use(),
            final(self).release_failures() == old(self).release_failures(),
            final(volume).in_use() == old(volume).in_use(),
            final(volume).volume() == old(volume).volume(),
            old(self).in_use() ==> (r matches Err(Error::ControllerInUse)),
            !old(self).in_use() && old(volume).in_use() ==> (r matches Err(Error::VolumeInUse)),
            !old(self).in_use() && !old(volume).in_use() ==> (match r {
                Ok(_) => true,
                Err(e) => e is Driver,
            }),
            (match r {
                Ok(d) => !old(self).dirs().contains(d.token())
                    && final(self).dirs() == old(self).dirs().insert(d.token()),
                Err(_) => final(self).dirs() == old(self).dirs(),
            }),
    ;

    /// Releases a directory token with the driver. The token is consumed by
    /// the call; once both guards are free the release reaches the driver,
    /// after which the token is no longer open and can never be released
    /// again.
    fn close_directory(&mut self, volume: &mut VolumeHandle<Self>, directory: Directory) -> (r: Result<(), Error<Self::Error>>)
        requires
            old(self).dirs().contains(directory.token),
        ensures
            final(self).files() == old(self).files(),
            final(self).in_use() == old(self).in_use(),
            final(self).release_failures() == old(self).release_failures(),
            final(volume).in_use() == old(volume).in_use(),
            final(volume).volume() == old(volume).volume(),
            old(self).in_use() ==> (r matches Err(Error::ControllerInUse))
                && final(self).dirs() == old(self).dirs(),
            !old(self).in_use() && old(volume).in_use() ==> (r matches Err(Error::VolumeInUse))
                && final(self).dirs() == old(self).dirs(),
            !old(self).in_use() && !old(volume).in_use() ==> {
                &&& final(self).dirs() == old(self).dirs().remove(directory.token)
                &&& (match r {
                    Ok(_) => true,
                    Err(e) => e is Driver,
                })
            },
    ;

    /// Opens or creates a file by name within an open directory, per the
    /// mode, yielding a file handle over a fresh token with the cursor and
    /// cached length placed as the mode prescribes.
    fn file(
        &mut self,
        volume: &mut VolumeHandle<Self>,
        directory: &Directory,
        name: &str,
        mode: Mode,
    ) -> (r: Result<FileHandle<Self>, Error<Self::Error>>)
        requires
            old(self).dirs().contains(directory.token),
        ensures
            final(self).dirs() == old(self).dirs(),
            final(self).in_use() == old(self).in_use(),
            final(self).release_failures() == old(self).release_failures(),
            final(volume).in_use() == old(volume).in_use(),
            old(self).in_use() ==> (r matches Err(Error::ControllerInUse))
                && final(volume).volume() == old(volume).volume(),
            !old(self).in_use() && old(volume).in_use() ==> (r matches Err(Error::VolumeInUse))
                && final(volume).volume() == old(volume).volume(),
            !old(self).in_use() && !old(volume).in_use() ==> (match r {
                Ok(_) => true,
                Err(e) => e is Driver,
            }),
            (match r {
                Ok(f) => !old(self).files().contains(f.token())
                    && final(self).files() == old(self).files().insert(f.token())
                    && f.offset() <= f.length()
                    && ((mode is ReadWriteCreate || mode is ReadWriteCreateOrTruncate)
                        ==> f.offset() == 0 && f.length() == 0)
                    && (mode is ReadWriteAppend ==> f.offset() == f.length())
                    && (mode is ReadOnly ==> f.offset() == 0),
                Err(_) => final(self).files() == old(self).files(),
            }),
    ;

    /// Releases a file token with the driver. As with directories the token
    /// is consumed; once both guards are free it is no longer open
    /// afterwards, whether or not the driver reported a failure.
    fn close_file(&mut self, volume: &mut VolumeHandle<Self>, file: File) -> (r: Result<(), Error<Self::Error>>)
        requires
            old(self).files().contains(file.token),
        ensures
            final(self).dirs() == old(self).dirs(),
            final(self).in_use() == old(self).in_use(),
            final(self).release_failures() == old(self).release_failures(),
            final(volume).in_use() == old(volume).in_use(),
            final(volume).volume() == old(volume).volume(),
            old(self).in_use() ==> (r matches Err(Error::ControllerInUse))
                && final(self).files() == old(self).files(),
            !old(self).in_use() && old(volume).in_use() ==> (r matches Err(Error::VolumeInUse))
                && final(self).files() == old(self).files(),
            !old(self).in_use() && !old(volume).in_use() ==> {
                &&& final(self).files() == old(self).files().remove(file.token)
                &&& (match r {
                    Ok(_) => true,
                    Err(e) => e is Driver,
                })
            },
    ;

    /// Fills the buffer (up to its current length) from the file's cursor,
    /// advancing the cursor by the count returned; never changes the file's
    /// length.
    fn read(
        &mut self,
        volume: &mut VolumeHandle<Self>,
        file: &mut File,
        buffer: &mut Vec<u8>,
    ) -> (r: Result<usize, Error<Self::Error>>)
        requires
            old(self).files().contains(old(file).token),
        ensures
            final(self).dirs() == old(self).dirs(),
            final(self).files() == old(self).files(),
            final(self).in_use() == old(self).in_use(),
            final(self).release_failures() == old(self).release_failures(),
            final(volume).in_use() == old(volume).in_use(),
            final(buffer).len() == old(buffer).len(),
            old(self).in_use() ==> (r matches Err(Error::ControllerInUse))
                && final(buffer)@ == old(buffer)@
                && final(volume).volume() == old(volume).volume(),
            !old(self).in_use() && old(volume).in_use() ==> (r matches Err(Error::VolumeInUse))
                && final(buffer)@ == old(buffer)@
                && final(volume).volume() == old(volume).volume(),
            !old(self).in_use() && !old(volume).in_use() ==> (match r {
                Ok(_) => true,
                Err(e) => e is Driver,
            }),
            (match r {
                Ok(n) => n <= old(buffer).len()
                    && final(file).token == old(file).token
                    && old(file).offset as int + n as int <= u32::MAX as int
                    && final(file).offset as int == old(file).offset as int + n as int
                    && final(file).length == old(file).length,
                Err(_) => *final(file) == *old(file),
            }),
    ;

    /// Writes the data at the file's cursor, advancing the cursor past what
    /// was written and growing the file's length to cover it.
    fn write(
        &mut self,
        volume: &mut VolumeHandle<Self>,
        file: &mut File,
        data: &[u8],
    ) -> (r: Result<usize, Error<Self::Error>>)
        requires
            old(self).files().contains(old(file).token),
        ensures
            final(self).dirs() == old(self).dirs(),
            final(self).files() == old(self).files(),
            final(self).in_use() == old(self).in_use(),
            final(self).release_failures() == old(self).release_failures(),
            final(volume).in_use() == old(volume).in_use(),
            old(self).in_use() ==> (r matches Err(Error::ControllerInUse))
                && final(volume).volume() == old(volume).volume(),
            !old(self).in_use() && old(volume).in_use() ==> (r matches Err(Error::VolumeInUse))
                && final(volume).volume() == old(volume).volume(),
            !old(self).in_use() && !old(volume).in_use() ==> (match r {
                Ok(_) => true,
                Err(e) => e is Driver,
            }),
            (match r {
                Ok(n) => n <= data.len()
                    && final(file).token == old(file).token
                    && old(file).offset as int + n as int <= u32::MAX as int
                    && final(file).offset as int == old(file).offset as int + n as int
                    && final(file).length == (if old(file).length >= final(file).offset {
                        old(file).length
                    } else {
                        final(file).offset
                    }),
                Err(_) => *final(file) == *old(file),
            }),
    ;

    /// The diagnostic sink for teardown: counts one release failure that
    /// was swallowed instead of being raised. Saturates rather than wrap.
    fn log_release_failure(&mut self)
        ensures
            final(self).dirs() == old(self).dirs(),
            final(self).files() == old(self).files(),
            final(self).in_use() == old(self).in_use(),
            old(self).release_failures() < u64::MAX
                ==> final(self).release_failures() as int == old(self).release_failures() as int + 1,
            old(self).release_failures() == u64::MAX
                ==> final(self).release_failures() == old(self).release_failures(),
    ;

    /// Composite convenience: opens the volume, its root directory and a
    /// file there, writes the data once, and releases every intermediate
    /// directory and file token before returning — on the success path and
    /// on every error path alike, as the unchanged open-token sets state.
    fn write_root_file(&mut self, volume: usize, name: &str, mode: Mode, data: &[u8]) -> (r: Result<usize, Error<Self::Error>>)
        ensures
            final(self).dirs() == old(self).dirs(),
            final(self).files() == old(self).files(),
            final(self).in_use() == old(self).in_use(),
            old(self).release_failures() <= final(self).release_failures(),
            final(self).release_failures() as int <= old(self).release_failures() as int + 2,
            old(self).in_use() ==> (r matches Err(Error::ControllerInUse)),
            !old(self).in_use() ==> (match r {
                Ok(_) => true,
                Err(e) => e is Driver,
            }),
            (match r {
                Ok(n) => n <= data.len(),
                Err(_) => true,
            }),
    {
        let mut vol = match self.volume(volume) {
            Ok(v) => v,
            Err(e) => {
                return Err(e);
            },
        };
        let dir = match self.root(&mut vol) {
            Ok(d) => d,
            Err(e) => {
                return Err(e);
            },
        };
        let directory = dir.directory;
        let ghost dir_token = directory.token;
        let fh = match self.file(&mut vol, &directory, name, mode) {
            Ok(f) => f,
            Err(e) => {
                match self.close_directory(&mut vol, directory) {
                    Ok(_) => {},
                    Err(_) => {
                        self.log_release_failure();
                    },
                }
                proof {
                    assert(old(self).dirs().insert(dir_token).remove(dir_token) =~= old(self).dirs());
                }
                return Err(e);
            },
        };
        let mut file = fh.file;
        let ghost file_token = file.token;
        let res = self.write(&mut vol, &mut file, data);
        match self.close_file(&mut vol, file) {
            Ok(_) => {},
            Err(_) => {
                self.log_release_failure();
            },
        }
        match self.close_directory(&mut vol, directory) {
            Ok(_) => {},
            Err(_) => {
                self.log_release_failure();
            },
        }
        proof {
            assert(old(self).dirs().insert(dir_token).remove(dir_token) =~= old(self).dirs());
            assert(old(self).files().insert(file_token).remove(file_token) =~= old(self).files());
        }
        res
    }
}

/// The top-level handle: wraps the driver once and guards every access to
/// it with a non-blocking exclusivity guard held for a single call's
/// duration only.
pub struct ControllerHandle<D: Driver> {
    driver: D,
    guard: AccessGuard,
    failures: u64,
}

impl<D: Driver> ControllerHandle<D> {
    /// Wraps a driver. The new controller is not in use, has no failures
    /// counted, and leaves the driver's open-token sets as they were.
    pub fn new(driver: D) -> (r: Self)
        ensures
            !r.in_use(),
            r.release_failures() == 0,
            r.dirs() == driver.dirs(),
            r.files() == driver.files(),
            forall|i: int| #[trigger] r.volume_at(i) == driver.volume_at(i),
    {
        ControllerHandle { driver, guard: AccessGuard::new(), failures: 0 }
    }

    /// The number of teardown release failures swallowed so far: the
    /// diagnostic side channel for failures that were never raised.
    pub fn release_failure_count(&self) -> (r: u64)
        ensures
            r == self.release_failures(),
    {
        self.failures
    }
}

impl<D: Driver> ControllerTrait for ControllerHandle<D> {
    type Error = D::DriverError;

    closed spec fn dirs(&self) -> Set<u64> {
        self.driver.dirs()
    }

    closed spec fn files(&self) -> Set<u64> {
        self.driver.files()
    }

    closed spec fn in_use(&self) -> bool {
        self.guard.is_held()
    }

    closed spec fn release_failures(&self) -> u64 {
        self.failures
    }

    closed spec fn volume_at(&self, index: int) -> Option<Volume> {
        self.driver.volume_at(index)
    }

    fn volume(&mut self, index: usize) -> (r: Result<VolumeHandle<Self>, Error<Self::Error>>) {
        if !self.guard.try_acquire() {
            return Err(Error::ControllerInUse);
        }
        let res = self.driver.get_volume(index);
        self.guard.release();
        match res {
            Ok(v) => {
                let vh = VolumeHandle { vol: v, guard: AccessGuard::new(), marker: PhantomData };
                proof {
                    assert(old(self).volume_at(index as int) == Some(v));
                }
                Ok(vh)
            },
            Err(e) => Err(Error::Driver(e)),
        }
    }

    fn root(&mut self, volume: &mut VolumeHandle<Self>) -> (r: Result<DirectoryHandle<Self>, Error<Self::Error>>) {
        if !self.guard.try_acquire() {
            return Err(Error::ControllerInUse);
        }
        if !volume.guard.try_acquire() {
            self.guard.release();
            return Err(Error::VolumeInUse);
        }
        let res = self.driver.open_root_dir(&volume.vol);
        volume.guard.release();
        self.guard.release();
        match res {
            Ok(d) => Ok(DirectoryHandle { directory: d, marker: PhantomData }),
            Err(e) => Err(Error::Driver(e)),
        }
    }

    fn close_directory(&mut self, volume: &mut VolumeHandle<Self>, directory: Directory) -> (r: Result<(), Error<Self::Error>>) {
        if !self.guard.try_acquire() {
            return Err(Error::ControllerInUse);
        }
        if !volume.guard.try_acquire() {
            self.guard.release();
            return Err(Error::VolumeInUse);
        }
        let res = self.driver.close_dir(&volume.vol, directory);
        volume.guard.release();
        self.guard.release();
        match res {
            Ok(_) => Ok(()),
            Err(e) => Err(Error::Driver(e)),
        }
    }

    fn file(
        &mut self,
        volume: &mut VolumeHandle<Self>,
        directory: &Directory,
        name: &str,
        mode: Mode,
    ) -> (r: Result<FileHandle<Self>, Error<Self::Error>>) {
        if !self.guard.try_acquire() {
            return Err(Error::ControllerInUse);
        }
        if !volume.guard.try_acquire() {
            self.guard.release();
            return Err(Error::VolumeInUse);
        }
        let res = self.driver.open_file_in_dir(&mut volume.vol, directory, name, mode);
        volume.guard.release();
        self.guard.release();
        match res {
            Ok(f) => Ok(FileHandle { file: f, marker: PhantomData }),
            Err(e) => Err(Error::Driver(e)),
        }
    }

    fn close_file(&mut self, volume: &mut VolumeHandle<Self>, file: File) -> (r: Result<(), Error<Self::Error>>) {
        if !self.guard.try_acquire() {
            return Err(Error::ControllerInUse);
        }
        if !volume.guard.try_acquire() {
            self.guard.release();
            return Err(Error::VolumeInUse);
        }
        let res = self.driver.close_file(&volume.vol, file);
        volume.guard.release();
        self.guard.release();
        match res {
            Ok(_) => Ok(()),
            Err(e) => Err(Error::Driver(e)),
        }
    }

    fn read(
        &mut self,
        volume: &mut VolumeHandle<Self>,
        file: &mut File,
        buffer: &mut Vec<u8>,
    ) -> (r: Result<usize, Error<Self::Error>>) {
        if !self.guard.try_acquire() {
            return Err(Error::ControllerInUse);
        }
        if !volume.guard.try_acquire() {
            self.guard.release();
            return Err(Error::VolumeInUse);
        }
        let res = self.driver.read(&mut volume.vol, file, buffer);
        volume.guard.release();
        self.guard.release();
        match res {
            Ok(n) => Ok(n),
            Err(e) => Err(Error::Driver(e)),
        }
    }

    fn write(
        &mut self,
        volume: &mut VolumeHandle<Self>,
        file: &mut File,
        data: &[u8],
    ) -> (r: Result<usize, Error<Self::Error>>) {
        if !self.guard.try_acquire() {
            return Err(Error::ControllerInUse);
        }
        if !volume.guard.try_acquire() {
            self.guard.release();
            return Err(Error::VolumeInUse);
        }
        let res = self.driver.write(&mut volume.vol, file, data);
        volume.guard.release();
        self.guard.release();
        match res {
            Ok(n) => Ok(n),
            Err(e) => Err(Error::Driver(e)),
        }
    }

    fn log_release_failure(&mut self) {
        if self.failures < u64::MAX {
            self.failures = self.failures + 1;
        }
    }
}

/// A scoped, exclusively-borrowable reference to one mounted volume's
/// metadata. Holds no driver-level token, so it needs no release.
pub struct VolumeHandle<C> {
    vol: Volume,
    guard: AccessGuard,
    marker: PhantomData<C>,
}

impl<C> VolumeHandle<C> {
    /// The volume record this handle currently carries.
    pub closed spec fn volume(&self) -> Volume {
        self.vol
    }

    /// Whether the volume's exclusivity guard is currently held.
    pub closed spec fn in_use(&self) -> bool {
        self.guard.is_held()
    }
}

impl<C: ControllerTrait> VolumeHandle<C> {
    /// Opens this volume's root directory through the given controller.
    pub fn root(&mut self, controller: &mut C) -> (r: Result<DirectoryHandle<C>, Error<C::Error>>)
        ensures
            final(controller).files() == old(controller).files(),
            final(controller).in_use() == old(controller).in_use(),
            final(controller).release_failures() == old(controller).release_failures(),
            final(self).in_use() == old(self).in_use(),
            final(self).volume() == old(self).volume(),
            old(controller).in_use() ==> (r matches Err(Error::ControllerInUse)),
            !old(controller).in_use() && old(self).in_use() ==> (r matches Err(Error::VolumeInUse)),
            !old(controller).in_use() && !old(self).in_use() ==> (match r {
                Ok(_) => true,
                Err(e) => e is Driver,
            }),
            (match r {
                Ok(d) => !old(controller).dirs().contains(d.token())
                    && final(controller).dirs() == old(controller).dirs().insert(d.token()),
                Err(_) => final(controller).dirs() == old(controller).dirs(),
            }),
    {
        controller.root(self)
    }

    /// The volume's block count; fails fast when the volume is in use.
    pub fn num_blocks(&self) -> (r: Result<u32, Error<C::Error>>)
        ensures
            self.in_use() ==> (r matches Err(Error::VolumeInUse)),
            !self.in_use() ==> r == Ok::<u32, Error<C::Error>>(self.volume().num_blocks),
    {
        if self.guard.held() {
            Err(Error::VolumeInUse)
        } else {
            Ok(self.vol.num_blocks)
        }
    }

    /// The volume's blocks-per-cluster; fails fast when the volume is in use.
    pub fn blocks_per_cluster(&self) -> (r: Result<u8, Error<C::Error>>)
        ensures
            self.in_use() ==> (r matches Err(Error::VolumeInUse)),
            !self.in_use() ==> r == Ok::<u8, Error<C::Error>>(self.volume().blocks_per_cluster),
    {
        if self.guard.held() {
            Err(Error::VolumeInUse)
        } else {
            Ok(self.vol.blocks_per_cluster)
        }
    }

    /// The volume's cluster count; fails fast when the volume is in use.
    pub fn cluster_count(&self) -> (r: Result<u32, Error<C::Error>>)
        ensures
            self.in_use() ==> (r matches Err(Error::VolumeInUse)),
            !self.in_use() ==> r == Ok::<u32, Error<C::Error>>(self.volume().cluster_count),
    {
        if self.guard.held() {
            Err(Error::VolumeInUse)
        } else {
            Ok(self.vol.cluster_count)
        }
    }

    /// The volume's free-cluster count, or 0 when the driver does not track
    /// the value — that alone is never a failure.
    pub fn free_clusters_count(&self) -> (r: Result<u32, Error<C::Error>>)
        ensures
            self.in_use() ==> (r matches Err(Error::VolumeInUse)),
            !self.in_use() ==> r == Ok::<u32, Error<C::Error>>(match self.volume().free_clusters {
                Some(n) => n,
                None => 0,
            }),
    {
        if self.guard.held() {
            Err(Error::VolumeInUse)
        } else {
            match self.vol.free_clusters {
                Some(n) => Ok(n),
                None => Ok(0),
            }
        }
    }
}

/// One open-directory context. Its single token is consumed exactly once,
/// by `release`, which swallows any failure into the controller's
/// diagnostic counter instead of raising it.
pub struct DirectoryHandle<C> {
    directory: Directory,
    marker: PhantomData<C>,
}

impl<C> DirectoryHandle<C> {
    /// The driver-level token this handle holds.
    pub closed spec fn token(&self) -> u64 {
        self.directory.token
    }
}

impl<C: ControllerTrait> DirectoryHandle<C> {
    /// Opens or creates a file by name within this directory, per the
    /// mode, with the cursor and cached length placed as the mode
    /// prescribes.
    pub fn file(
        &self,
        controller: &mut C,
        volume: &mut VolumeHandle<C>,
        name: &str,
        mode: Mode,
    ) -> (r: Result<FileHandle<C>, Error<C::Error>>)
        requires
            old(controller).dirs().contains(self.token()),
        ensures
            final(controller).dirs() == old(controller).dirs(),
            final(controller).in_use() == old(controller).in_use(),
            final(controller).release_failures() == old(controller).release_failures(),
            final(volume).in_use() == old(volume).in_use(),
            old(controller).in_use() ==> (r matches Err(Error::ControllerInUse))
                && final(volume).volume() == old(volume).volume(),
            !old(controller).in_use() && old(volume).in_use() ==> (r matches Err(Error::VolumeInUse))
                && final(volume).volume() == old(volume).volume(),
            !old(controller).in_use() && !old(volume).in_use() ==> (match r {
                Ok(_) => true,
                Err(e) => e is Driver,
            }),
            (match r {
                Ok(f) => !old(controller).files().contains(f.token())
                    && final(controller).files() == old(controller).files().insert(f.token())
                    && f.offset() <= f.length()
                    && ((mode is ReadWriteCreate || mode is ReadWriteCreateOrTruncate)
                        ==> f.offset() == 0 && f.length() == 0)
                    && (mode is ReadWriteAppend ==> f.offset() == f.length())
                    && (mode is ReadOnly ==> f.offset() == 0),
                Err(_) => final(controller).files() == old(controller).files(),
            }),
    {
        controller.file(volume, &self.directory, name, mode)
    }

    /// Ends this handle's scope: hands the token to the driver's release
    /// operation, exactly once. A failure reported there is only counted on
    /// the controller's diagnostic channel, never raised — this teardown
    /// path has no error channel at all.
    pub fn release(self, controller: &mut C, volume: &mut VolumeHandle<C>)
        requires
            !old(controller).in_use(),
            !old(volume).in_use(),
            old(controller).dirs().contains(self.token()),
        ensures
            final(controller).dirs() == old(controller).dirs().remove(self.token()),
            final(controller).files() == old(controller).files(),
            final(controller).in_use() == old(controller).in_use(),
            old(controller).release_failures() <= final(controller).release_failures(),
            final(controller).release_failures() as int <= old(controller).release_failures() as int + 1,
            final(volume).in_use() == old(volume).in_use(),
            final(volume).volume() == old(volume).volume(),
    {
        let directory = self.directory;
        match controller.close_directory(volume, directory) {
            Ok(_) => {},
            Err(_) => {
                controller.log_release_failure();
            },
        }
    }
}

/// One open-file context with the driver-side cursor and cached length.
/// Its single token is consumed exactly once, by `release`, which swallows
/// any failure into the controller's diagnostic counter.
pub struct FileHandle<C> {
    file: File,
    marker: PhantomData<C>,
}

impl<C> FileHandle<C> {
    /// The driver-level token this handle holds.
    pub closed spec fn token(&self) -> u64 {
        self.file.token
    }

    /// The file's cursor as of the most recent open, read or write.
    pub closed spec fn offset(&self) -> u32 {
        self.file.offset
    }

    /// The file's length as of the most recent open, read or write.
    pub closed spec fn length(&self) -> u32 {
        self.file.length
    }
}

impl<C: ControllerTrait> FileHandle<C> {
    /// Reads from the cursor into the buffer (up to its current length),
    /// advancing the cursor by the count returned.
    pub fn read(
        &mut self,
        controller: &mut C,
        volume: &mut VolumeHandle<C>,
        buffer: &mut Vec<u8>,
    ) -> (r: Result<usize, Error<C::Error>>)
        requires
            old(controller).files().contains(old(self).token()),
        ensures
            final(controller).dirs() == old(controller).dirs(),
            final(controller).files() == old(controller).files(),
            final(controller).in_use() == old(controller).in_use(),
            final(controller).release_failures() == old(controller).release_failures(),
            final(volume).in_use() == old(volume).in_use(),
            final(buffer).len() == old(buffer).len(),
            final(self).token() == old(self).token(),
            old(controller).in_use() ==> (r matches Err(Error::ControllerInUse))
                && final(buffer)@ == old(buffer)@
                && final(volume).volume() == old(volume).volume(),
            !old(controller).in_use() && old(volume).in_use() ==> (r matches Err(Error::VolumeInUse))
                && final(buffer)@ == old(buffer)@
                && final(volume).volume() == old(volume).volume(),
            !old(controller).in_use() && !old(volume).in_use() ==> (match r {
                Ok(_) => true,
                Err(e) => e is Driver,
            }),
            (match r {
                Ok(n) => n <= old(buffer).len()
                    && old(self).offset() as int + n as int <= u32::MAX as int
                    && final(self).offset() as int == old(self).offset() as int + n as int
                    && final(self).length() == old(self).length(),
                Err(_) => *final(self) == *old(self),
            }),
    {
        controller.read(volume, &mut self.file, buffer)
    }

    /// Writes the data at the cursor, advancing it; the file's length
    /// becomes the larger of its old value and the new cursor.
    pub fn write(
        &mut self,
        controller: &mut C,
        volume: &mut VolumeHandle<C>,
        data: &[u8],
    ) -> (r: Result<usize, Error<C::Error>>)
        requires
            old(controller).files().contains(old(self).token()),
        ensures
            final(controller).dirs() == old(controller).dirs(),
            final(controller).files() == old(controller).files(),
            final(controller).in_use() == old(controller).in_use(),
            final(controller).release_failures() == old(controller).release_failures(),
            final(volume).in_use() == old(volume).in_use(),
            final(self).token() == old(self).token(),
            old(controller).in_use() ==> (r matches Err(Error::ControllerInUse))
                && final(volume).volume() == old(volume).volume(),
            !old(controller).in_use() && old(volume).in_use() ==> (r matches Err(Error::VolumeInUse))
                && final(volume).volume() == old(volume).volume(),
            !old(controller).in_use() && !old(volume).in_use() ==> (match r {
                Ok(_) => true,
                Err(e) => e is Driver,
            }),
            (match r {
                Ok(n) => n <= data.len()
                    && old(self).offset() as int + n as int <= u32::MAX as int
                    && final(self).offset() as int == old(self).offset() as int + n as int
                    && final(self).length() == (if old(self).length() >= final(self).offset() {
                        old(self).length()
                    } else {
                        final(self).offset()
                    }),
                Err(_) => *final(self) == *old(self),
            }),
    {
        controller.write(volume, &mut self.file, data)
    }

    /// The last-known length of the file: the value cached by the most
    /// recent open, read or write on this handle, not a fresh driver query.
    pub fn size(&self) -> (r: u32)
        ensures
            r == self.length(),
    {
        self.file.length
    }

    /// Ends this handle's scope: hands the token to the driver's release
    /// operation, exactly once. A failure reported there is only counted on
    /// the controller's diagnostic channel, never raised.
    pub fn release(self, controller: &mut C, volume: &mut VolumeHandle<C>)
        requires
            !old(controller).in_use(),
            !old(volume).in_use(),
            old(controller).files().contains(self.token()),
        ensures
            final(controller).files() == old(controller).files().remove(self.token()),
            final(controller).dirs() == old(controller).dirs(),
            final(controller).in_use() == old(controller).in_use(),
            old(controller).release_failures() <= final(controller).release_failures(),
            final(controller).release_failures() as int <= old(controller).release_failures() as int + 1,
            final(volume).in_use() == old(volume).in_use(),
            final(volume).volume() == old(volume).volume(),
    {
        let file = self.file;
        match controller.close_file(volume, file) {
            Ok(_) => {},
            Err(_) => {
                controller.log_release_failure();
            },
        }
    }
}

/// Once a token has been released it is no longer open, so the release
/// operation — which demands an open token — can never consume the same
/// token a second time: every token reaches the driver's release at most
/// once.
pub proof fn lemma_release_single_use(open_tokens: Set<u64>, token: u64)
    requires
        open_tokens.contains(token),
    ensures
        !open_tokens.remove(token).contains(token),
{
}

} // verus!
