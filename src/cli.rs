use vstd::prelude::*;

verus! {

/// Read-buffer size, in KiB, when none is given.
pub const DEFAULT_BUFFERS: isize = 64;

/// How much of the first file to read before the viewer starts.
#[derive(Clone, Copy, Debug, PartialEq, Eq, Structural)]
pub enum ReadLimit {
    /// The whole file.
    Whole,
    /// At most this many bytes.
    Bytes(usize),
}

#[derive(Clone, Copy, Debug, PartialEq, Eq, Structural)]
pub enum ConfigError {
    /// No file was named.
    NoFiles,
    /// A buffer size below -1, the one negative value that has a meaning.
    BufferTooSmall(isize),
    /// A buffer size whose byte count does not fit in a `usize`.
    BufferTooLarge(isize),
}

/// The settings the pager is started with.
pub struct CommandLineInterface {
    /// The files to show, in the order given.
    pub filenames: Vec<String>,
    /// Read-buffer size in KiB; -1 reads the whole first file.
    pub buffers: Option<isize>,
    /// Quit once every file has been viewed to its end.
    pub quit_on_eof: bool,
    /// Search incrementally.
    pub incsearch: bool,
}

/// The buffer size in effect, in KiB.
pub open spec fn buffer_kib(buffers: Option<isize>) -> int {
    match buffers {
        Some(b) => b as int,
        None => DEFAULT_BUFFERS as int,
    }
}

pub open spec fn read_limit_spec(buffers: Option<isize>) -> Result<ReadLimit, ConfigError> {
    let b = buffer_kib(buffers);
    if b == -1 {
        Ok(ReadLimit::Whole)
    } else if b < -1 {
        Err(ConfigError::BufferTooSmall(b as isize))
    } else if b * 1024 > usize::MAX {
        Err(ConfigError::BufferTooLarge(b as isize))
    } else {
        Ok(ReadLimit::Bytes((b * 1024) as usize))
    }
}

impl CommandLineInterface {
    /// The read limit that the buffer size asks for: -1 is the whole file,
    /// a size of zero or more is that many KiB.
    pub fn read_limit(&self) -> (r: Result<ReadLimit, ConfigError>)
        ensures
            r == read_limit_spec(self.buffers),
    {
        let b: isize = match self.buffers {
            Some(b) => b,
            None => DEFAULT_BUFFERS,
        };
        if b == -1 {
            Ok(ReadLimit::Whole)
        } else if b < -1 {
            Err(ConfigError::BufferTooSmall(b))
        } else {
            match (b as usize).checked_mul(1024) {
                Some(n) => Ok(ReadLimit::Bytes(n)),
                None => Err(ConfigError::BufferTooLarge(b)),
            }
        }
    }

    /// Validates the settings before a session starts: at least one file, and a
    /// usable buffer size.
    pub fn validate(&self) -> (r: Result<ReadLimit, ConfigError>)
        ensures
            self.filenames@.len() == 0 ==> r == Err::<ReadLimit, ConfigError>(ConfigError::NoFiles),
            self.filenames@.len() > 0 ==> r == read_limit_spec(self.buffers),
    {
        if self.filenames.len() == 0 {
            Err(ConfigError::NoFiles)
        } else {
            self.read_limit()
        }
    }
}

} // verus!
