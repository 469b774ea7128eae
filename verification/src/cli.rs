//! The configuration of one transfer, and how it is resolved from what the
//! command line and the file system gave.

use vstd::prelude::*;
use vstd::string::*;
use crate::error::{StartupError, StartupErrorView};
use crate::utils::{get_file_path_or_stdin, human2bytes, literal_bytes, stdin_path};

verus! {

/// The largest buffer that is chosen by default: 512 KB.
pub const MAX_DEFAULT_BUFFER: u64 = 512 * 1024;

/// The buffer used where the block size of the file system is unknown:
/// 400 KB.
pub const FALLBACK_BUFFER: u64 = 400 * 1024;

/// Blocks of the file system in a default buffer.
pub const BLOCKS_PER_BUFFER: u64 = 32;

/// The resolved settings of one transfer.
#[derive(Debug, Clone)]
pub struct Config {
    /// The file to read, or the path that stands for standard input.
    pub file_path: String,
    /// The expected total in bytes, where known.
    pub size: Option<u64>,
    /// The cap in bytes per second, where one is set.
    pub rate_limit: Option<u64>,
    /// The bytes read and written at a time.
    pub buffer_size: u64,
}

/// A [`Config`] with its path as a sequence of characters.
pub struct ConfigView {
    pub file_path: Seq<char>,
    pub size: Option<u64>,
    pub rate_limit: Option<u64>,
    pub buffer_size: u64,
}

impl View for Config {
    type V = ConfigView;

    open spec fn view(&self) -> ConfigView {
        ConfigView {
            file_path: self.file_path@,
            size: self.size,
            rate_limit: self.rate_limit,
            buffer_size: self.buffer_size,
        }
    }
}

impl Default for Config {
    /// An empty path, no size, no cap and a buffer of zero bytes.
    fn default() -> (c: Config)
        ensures
            c@ == (ConfigView {
                file_path: Seq::<char>::empty(),
                size: None,
                rate_limit: None,
                buffer_size: 0,
            }),
    {
        Config { file_path: String::new(), size: None, rate_limit: None, buffer_size: 0 }
    }
}

/// What the command line gave: the first free argument, the arguments of
/// the size, rate and buffer options, and whether the data is to be
/// discarded instead of written.
#[derive(Debug, Clone)]
pub struct CommandLine {
    /// The first argument that belongs to no option.
    pub file: Option<String>,
    /// The literal given for the size.
    pub size: Option<String>,
    /// The literal given for the rate cap.
    pub rate_limit: Option<String>,
    /// The literal given for the buffer size.
    pub buffer_size: Option<String>,
    /// Whether the discard flag was given.
    pub discard: bool,
}

/// A [`CommandLine`] with its texts as sequences of characters.
pub struct CommandLineView {
    pub file: Option<Seq<char>>,
    pub size: Option<Seq<char>>,
    pub rate_limit: Option<Seq<char>>,
    pub buffer_size: Option<Seq<char>>,
    pub discard: bool,
}

impl View for CommandLine {
    type V = CommandLineView;

    open spec fn view(&self) -> CommandLineView {
        CommandLineView {
            file: text_of(self.file),
            size: text_of(self.size),
            rate_limit: text_of(self.rate_limit),
            buffer_size: text_of(self.buffer_size),
            discard: self.discard,
        }
    }
}

/// What the file system said of the input path.
#[derive(Debug, Clone, Copy)]
pub struct Probe {
    /// Whether the named file exists; not read where no file is named.
    pub exists: bool,
    /// The length of the named file in bytes, where it exists.
    pub length: u64,
    /// The block size of the file system that holds the input, where it
    /// could be determined.
    pub block_size: Option<u64>,
}

/// The view of an optional text.
pub open spec fn text_of(t: Option<String>) -> Option<Seq<char>> {
    match t {
        Some(s) => Some(s@),
        None => None,
    }
}

/// The default buffer: 32 blocks but at most 512 KB, or 400 KB where the
/// block size is unknown.
pub open spec fn default_buffer(block_size: Option<u64>) -> u64 {
    match block_size {
        Some(b) => if b * BLOCKS_PER_BUFFER >= MAX_DEFAULT_BUFFER {
            MAX_DEFAULT_BUFFER
        } else {
            (b * BLOCKS_PER_BUFFER) as u64
        },
        None => FALLBACK_BUFFER,
    }
}

/// The first text that makes the resolution fail, with the kind of the
/// failure: the missing file, then the size, the rate and the buffer literal.
pub open spec fn first_failure(line: CommandLineView, exists: bool) -> Option<StartupErrorView> {
    if line.file is Some && !exists {
        Some(StartupErrorView::NotFound(line.file->0))
    } else if line.size is Some && literal_bytes(line.size->0) is None {
        Some(StartupErrorView::Config(line.size->0))
    } else if line.rate_limit is Some && literal_bytes(line.rate_limit->0) is None {
        Some(StartupErrorView::Config(line.rate_limit->0))
    } else if line.buffer_size is Some && literal_bytes(line.buffer_size->0) is None {
        Some(StartupErrorView::Config(line.buffer_size->0))
    } else {
        None
    }
}

/// The configuration that the texts and the probe resolve to, where nothing
/// fails: a given size before the file's length, a given buffer before the
/// default.
pub open spec fn resolved(line: CommandLineView, probe: Probe) -> ConfigView {
    ConfigView {
        file_path: match line.file {
            Some(name) => name,
            None => stdin_path(),
        },
        size: match line.size {
            Some(literal) => literal_bytes(literal),
            None => if line.file is Some {
                Some(probe.length)
            } else {
                None
            },
        },
        rate_limit: match line.rate_limit {
            Some(literal) => literal_bytes(literal),
            None => None,
        },
        buffer_size: match line.buffer_size {
            Some(literal) => literal_bytes(literal)->0,
            None => default_buffer(probe.block_size),
        },
    }
}

/// Computes [`default_buffer`].
pub fn default_buffer_size(block_size: Option<u64>) -> (r: u64)
    ensures
        r == default_buffer(block_size),
{
    match block_size {
        Some(b) => if b >= MAX_DEFAULT_BUFFER / BLOCKS_PER_BUFFER {
            MAX_DEFAULT_BUFFER
        } else {
            b * BLOCKS_PER_BUFFER
        },
        None => FALLBACK_BUFFER,
    }
}

/// Reads an optional literal.
fn optional_bytes(literal: &Option<String>) -> (r: Result<Option<u64>, StartupError>)
    ensures
        match *literal {
            None => r matches Ok(v) && v.is_none(),
            Some(text) => match literal_bytes(text@) {
                Some(bytes) => r matches Ok(v) && v == Some(bytes),
                None => r matches Err(e) && e@ == StartupErrorView::Config(text@),
            },
        },
{
    match literal {
        None => Ok(None),
        Some(text) => match human2bytes(text.as_str()) {
            Ok(v) => Ok(Some(v)),
            Err(e) => Err(e),
        },
    }
}

/// Resolves the configuration from the texts of the command line and the
/// probe of the input path.
///
/// Fails with the first of: a named file that does not exist, a malformed
/// size, rate or buffer literal. Otherwise the size is the given one, or
/// the length of the named file, or unknown for standard input; the buffer
/// is the given one, or the default for the block size.
pub fn getopts(command_line: &CommandLine, probe: &Probe) -> (r: Result<Config, StartupError>)
    ensures
        match first_failure(command_line@, probe.exists) {
            Some(failure) => r matches Err(e) && e@ == failure,
            None => r matches Ok(config) && config@ == resolved(command_line@, *probe),
        },
{
    let candidate: Option<&str> = match &command_line.file {
        Some(name) => Some(name.as_str()),
        None => None,
    };
    let file_path = match get_file_path_or_stdin(candidate, probe.exists) {
        Ok(path) => path,
        Err(e) => {
            return Err(e);
        },
    };
    let given_size = match optional_bytes(&command_line.size) {
        Ok(v) => v,
        Err(e) => {
            return Err(e);
        },
    };
    let size = match given_size {
        Some(bytes) => Some(bytes),
        None => if command_line.file.is_some() {
            Some(probe.length)
        } else {
            None
        },
    };
    let rate_limit = match optional_bytes(&command_line.rate_limit) {
        Ok(v) => v,
        Err(e) => {
            return Err(e);
        },
    };
    let given_buffer = match optional_bytes(&command_line.buffer_size) {
        Ok(v) => v,
        Err(e) => {
            return Err(e);
        },
    };
    let buffer_size = match given_buffer {
        Some(bytes) => bytes,
        None => default_buffer_size(probe.block_size),
    };
    Ok(Config { file_path, size, rate_limit, buffer_size })
}

} // verus!
