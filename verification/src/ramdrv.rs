//! An in-memory driver: a verified implementation of the abstract driver
//! contract, usable as a test double under the handle layer.
//!
//! It serves one volume (ordinal 0) whose files live in RAM. Directory and
//! file tokens are drawn from a counter, so every open yields a token that
//! was never open before. Release failures can be provoked on purpose, to
//! exercise the teardown paths that swallow them.

use vstd::prelude::*;

use crate::driver::{Directory, Driver, File, Mode, Volume};

verus! {

/// The in-memory driver's own failure kinds.
#[derive(Clone, Copy, Debug, PartialEq, Eq, Structural)]
pub enum RamError {
    /// Only volume ordinal 0 exists.
    BadVolumeIndex,
    /// No file of that name exists.
    NotFound,
    /// A file of that name already exists.
    AlreadyExists,
    /// The file was opened read-only.
    NotWritable,
    /// The file token does not match any open file.
    StaleToken,
    /// The cursor lies outside the file's data.
    BadCursor,
    /// The operation would push the file past the representable length.
    TooLarge,
    /// The token counter is spent.
    TokensExhausted,
    /// A provoked release failure.
    CloseRefused,
}

struct StoredFile {
    name: String,
    data: Vec<u8>,
}

struct OpenFile {
    token: u64,
    slot: usize,
    writable: bool,
}

/// The in-memory driver.
pub struct RamDriver {
    volume: Volume,
    store: Vec<StoredFile>,
    open_files: Vec<OpenFile>,
    next_token: u64,
    fail_dir_close: bool,
    fail_file_close: bool,
    open_dir_tokens: Ghost<Set<u64>>,
    open_file_tokens: Ghost<Set<u64>>,
}

impl RamDriver {
    /// Every token ever handed out lies below the counter, so the counter's
    /// next value is never an open token.
    #[verifier::type_invariant]
    spec fn wf(&self) -> bool {
        &&& (forall|t: u64| #[trigger] self.open_dir_tokens@.contains(t) ==> t < self.next_token)
        &&& (forall|t: u64| #[trigger] self.open_file_tokens@.contains(t) ==> t < self.next_token)
    }

    /// A driver over one empty volume (ordinal 0) with the given geometry.
    pub fn new(
        num_blocks: u32,
        blocks_per_cluster: u8,
        cluster_count: u32,
        free_clusters: Option<u32>,
    ) -> (r: Self)
        ensures
            r.dirs() == Set::<u64>::empty(),
            r.files() == Set::<u64>::empty(),
    {
        RamDriver {
            volume: Volume { num_blocks, blocks_per_cluster, cluster_count, free_clusters },
            store: Vec::new(),
            open_files: Vec::new(),
            next_token: 0,
            fail_dir_close: false,
            fail_file_close: false,
            open_dir_tokens: Ghost(Set::empty()),
            open_file_tokens: Ghost(Set::empty()),
        }
    }

    /// Makes every later directory release report a failure, so the
    /// swallow-and-count teardown path can be observed.
    pub fn fail_directory_releases(&mut self)
        ensures
            final(self).dirs() == old(self).dirs(),
            final(self).files() == old(self).files(),
    {
        proof {
            use_type_invariant(&*self);
        }
        self.fail_dir_close = true;
    }

    /// Makes every later file release report a failure.
    pub fn fail_file_releases(&mut self)
        ensures
            final(self).dirs() == old(self).dirs(),
            final(self).files() == old(self).files(),
    {
        proof {
            use_type_invariant(&*self);
        }
        self.fail_file_close = true;
    }

    /// The index of the stored file of that name, if any.
    fn find_slot(&self, name: &String) -> (r: Option<usize>)
        ensures
            (match r {
                Some(i) => i < self.store@.len(),
                None => true,
            }),
    {
        let mut i: usize = 0;
        while i < self.store.len()
            invariant
                i <= self.store@.len(),
            decreases self.store@.len() - i,
        {
            if self.store[i].name == *name {
                return Some(i);
            }
            i = i + 1;
        }
        None
    }

    /// The index of the open-file entry carrying that token, if any.
    fn find_open(&self, token: u64) -> (r: Option<usize>)
        ensures
            (match r {
                Some(i) => i < self.open_files@.len(),
                None => true,
            }),
    {
        let mut i: usize = 0;
        while i < self.open_files.len()
            invariant
                i <= self.open_files@.len(),
            decreases self.open_files@.len() - i,
        {
            if self.open_files[i].token == token {
                return Some(i);
            }
            i = i + 1;
        }
        None
    }
}

impl Driver for RamDriver {
    type DriverError = RamError;

    closed spec fn dirs(&self) -> Set<u64> {
        self.open_dir_tokens@
    }

    closed spec fn files(&self) -> Set<u64> {
        self.open_file_tokens@
    }

    closed spec fn volume_at(&self, index: int) -> Option<Volume> {
        if index == 0 {
            Some(self.volume)
        } else {
            None
        }
    }

    fn get_volume(&mut self, index: usize) -> (r: Result<Volume, RamError>) {
        if index == 0 {
            Ok(self.volume)
        } else {
            Err(RamError::BadVolumeIndex)
        }
    }

    fn open_root_dir(&mut self, volume: &Volume) -> (r: Result<Directory, RamError>) {
        proof {
            use_type_invariant(&*self);
        }
        if self.next_token == u64::MAX {
            return Err(RamError::TokensExhausted);
        }
        let token = self.next_token;
        self.next_token = self.next_token + 1;
        self.open_dir_tokens = Ghost(self.open_dir_tokens@.insert(token));
        Ok(Directory { token })
    }

    fn close_dir(&mut self, volume: &Volume, directory: Directory) -> (r: Result<(), RamError>) {
        proof {
            use_type_invariant(&*self);
        }
        self.open_dir_tokens = Ghost(self.open_dir_tokens@.remove(directory.token));
        if self.fail_dir_close {
            Err(RamError::CloseRefused)
        } else {
            Ok(())
        }
    }

    fn open_file_in_dir(
        &mut self,
        volume: &mut Volume,
        directory: &Directory,
        name: &str,
        mode: Mode,
    ) -> (r: Result<File, RamError>) {
        proof {
            use_type_invariant(&*self);
        }
        if self.next_token == u64::MAX {
            return Err(RamError::TokensExhausted);
        }
        let owned: String = name.to_owned();
        let slot_found = self.find_slot(&owned);
        let mut store: Vec<StoredFile> = Vec::new();
        core::mem::swap(&mut store, &mut self.store);
        let slot: usize;
        let writable: bool;
        let offset: u32;
        match mode {
            Mode::ReadOnly => {
                match slot_found {
                    Some(i) => {
                        slot = i;
                        writable = false;
                        offset = 0;
                    },
                    None => {
                        self.store = store;
                        return Err(RamError::NotFound);
                    },
                }
            },
            Mode::ReadWriteAppend => {
                match slot_found {
                    Some(i) => {
                        if store[i].data.len() > u32::MAX as usize {
                            self.store = store;
                            return Err(RamError::TooLarge);
                        }
                        slot = i;
                        writable = true;
                        offset = store[i].data.len() as u32;
                    },
                    None => {
                        self.store = store;
                        return Err(RamError::NotFound);
                    },
                }
            },
            Mode::ReadWriteCreate => {
                match slot_found {
                    Some(_) => {
                        self.store = store;
                        return Err(RamError::AlreadyExists);
                    },
                    None => {
                        store.push(StoredFile { name: owned, data: Vec::new() });
                        slot = store.len() - 1;
                        writable = true;
                        offset = 0;
                    },
                }
            },
            Mode::ReadWriteCreateOrTruncate => {
                match slot_found {
                    Some(i) => {
                        let name_copy = store[i].name.clone();
                        store.set(i, StoredFile { name: name_copy, data: Vec::new() });
                        slot = i;
                        writable = true;
                        offset = 0;
                    },
                    None => {
                        store.push(StoredFile { name: owned, data: Vec::new() });
                        slot = store.len() - 1;
                        writable = true;
                        offset = 0;
                    },
                }
            },
        }
        if store[slot].data.len() > u32::MAX as usize {
            self.store = store;
            return Err(RamError::TooLarge);
        }
        let length = store[slot].data.len() as u32;
        self.store = store;
        let token = self.next_token;
        self.next_token = self.next_token + 1;
        let mut opens: Vec<OpenFile> = Vec::new();
        core::mem::swap(&mut opens, &mut self.open_files);
        opens.push(OpenFile { token, slot, writable });
        self.open_files = opens;
        self.open_file_tokens = Ghost(self.open_file_tokens@.insert(token));
        Ok(File { token, offset, length })
    }

    fn close_file(&mut self, volume: &Volume, file: File) -> (r: Result<(), RamError>) {
        proof {
            use_type_invariant(&*self);
        }
        self.open_file_tokens = Ghost(self.open_file_tokens@.remove(file.token));
        match self.find_open(file.token) {
            Some(i) => {
                let mut opens: Vec<OpenFile> = Vec::new();
                core::mem::swap(&mut opens, &mut self.open_files);
                opens.swap_remove(i);
                self.open_files = opens;
            },
            None => {},
        }
        if self.fail_file_close {
            Err(RamError::CloseRefused)
        } else {
            Ok(())
        }
    }

    fn read(
        &mut self,
        volume: &mut Volume,
        file: &mut File,
        buffer: &mut Vec<u8>,
    ) -> (r: Result<usize, RamError>) {
        let idx = match self.find_open(file.token) {
            Some(i) => i,
            None => {
                return Err(RamError::StaleToken);
            },
        };
        let slot = self.open_files[idx].slot;
        if slot >= self.store.len() {
            return Err(RamError::StaleToken);
        }
        if file.offset > file.length {
            return Err(RamError::BadCursor);
        }
        let off = file.offset as usize;
        let dlen = self.store[slot].data.len();
        let avail_file = (file.length - file.offset) as usize;
        let avail_data = if off <= dlen {
            dlen - off
        } else {
            0
        };
        let mut n = buffer.len();
        if n > avail_file {
            n = avail_file;
        }
        if n > avail_data {
            n = avail_data;
        }
        let mut i: usize = 0;
        while i < n
            invariant
                i <= n,
                n <= buffer@.len(),
                buffer@.len() == old(buffer)@.len(),
                slot < self.store@.len(),
                n == 0 || off + n <= self.store@[slot as int].data@.len(),
                off as int + n as int <= usize::MAX as int,
            decreases n - i,
        {
            let b = self.store[slot].data[off + i];
            buffer.set(i, b);
            i = i + 1;
        }
        file.offset = file.offset + n as u32;
        Ok(n)
    }

    fn write(
        &mut self,
        volume: &mut Volume,
        file: &mut File,
        data: &[u8],
    ) -> (r: Result<usize, RamError>) {
        let idx = match self.find_open(file.token) {
            Some(i) => i,
            None => {
                return Err(RamError::StaleToken);
            },
        };
        let slot = self.open_files[idx].slot;
        let writable = self.open_files[idx].writable;
        if !writable {
            return Err(RamError::NotWritable);
        }
        if slot >= self.store.len() {
            return Err(RamError::StaleToken);
        }
        if file.offset > file.length {
            return Err(RamError::BadCursor);
        }
        let n = data.len();
        if n > u32::MAX as usize {
            return Err(RamError::TooLarge);
        }
        if file.offset as u64 + n as u64 > u32::MAX as u64 {
            return Err(RamError::TooLarge);
        }
        let off = file.offset as usize;
        let dlen = self.store[slot].data.len();
        if off > dlen {
            return Err(RamError::BadCursor);
        }
        let name_copy = self.store[slot].name.clone();
        let mut new_data: Vec<u8> = Vec::new();
        let mut i: usize = 0;
        while i < off
            invariant
                i <= off,
                off <= dlen,
                slot < self.store@.len(),
                dlen == self.store@[slot as int].data@.len(),
            decreases off - i,
        {
            let b = self.store[slot].data[i];
            new_data.push(b);
            i = i + 1;
        }
        let mut j: usize = 0;
        while j < n
            invariant
                j <= n,
                n == data@.len(),
            decreases n - j,
        {
            let b = data[j];
            new_data.push(b);
            j = j + 1;
        }
        let mut k: usize = off + n;
        while k < dlen
            invariant
                off + n <= k,
                k <= dlen || dlen <= off + n,
                slot < self.store@.len(),
                dlen == self.store@[slot as int].data@.len(),
            decreases dlen - k,
        {
            let b = self.store[slot].data[k];
            new_data.push(b);
            k = k + 1;
        }
        proof {
            use_type_invariant(&*self);
        }
        let mut store: Vec<StoredFile> = Vec::new();
        core::mem::swap(&mut store, &mut self.store);
        store.set(slot, StoredFile { name: name_copy, data: new_data });
        self.store = store;
        file.offset = file.offset + n as u32;
        if file.offset > file.length {
            file.length = file.offset;
        }
        Ok(n)
    }
}

} // verus!
