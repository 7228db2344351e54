//! The agent's configuration and the checks on its values.

use vstd::prelude::*;
use vstd::string::*;
use crate::text::decimal;
use crate::text::failure_text;
use crate::text::parse_u64;
use crate::text::parsed;
use crate::text::push_decimal;

verus! {

/// Part size in MB where none is given.
pub const DEFAULT_UPLOAD_SIZE: u64 = 100;

/// Largest part size in MB.
pub const MAX_UPLOAD_SIZE: u64 = 1000;

/// Smallest part size in MB.
pub const MIN_UPLOAD_SIZE: u64 = 10;

/// Number of upload workers where none is given.
pub const DEFAULT_NUM_UPLOADERS: u64 = 2;

/// Seconds over which a watcher gathers notifications, where none are given.
pub const DEFAULT_WATCHER_INTERVAL: u64 = 2;

/// Smallest number of seconds over which a watcher gathers notifications.
pub const MIN_WATCHER_INTERVAL: u64 = 1;

/// Bytes in one MB of part size.
pub const BYTES_PER_MB: u64 = 1024 * 1024;

/// The agent's configuration.
#[derive(Debug)]
pub struct Config {
    /// The directories to watch, as requested.
    pub watched_dirs: Vec<String>,
    /// The bucket that files are uploaded to.
    pub bucket_name: String,
    /// The number of upload workers.
    pub num_uploaders: u64,
    /// The size of an upload part, in MB.
    pub upload_part_size: u64,
    /// The seconds over which a watcher gathers notifications.
    pub watcher_delay: u64,
}

/// The value of a configuration that is out of bounds.
#[derive(Clone, Copy, Debug, PartialEq, Eq, Structural)]
pub enum ConfigError {
    /// No directory to watch is given.
    NoWatchedDir,
    /// The number of upload workers is below 1.
    NumUploaders,
    /// The part size is not between the smallest and the largest.
    UploadPartSize,
    /// The watcher's interval is below the smallest.
    WatcherDelay,
}

/// The first value that is out of bounds, in the order directories, workers,
/// part size, interval; `None` where all are within bounds.
pub open spec fn first_fault(
    watched_dirs: Seq<String>,
    num_uploaders: u64,
    upload_part_size: u64,
    watcher_delay: u64,
) -> Option<ConfigError> {
    if watched_dirs.len() == 0 {
        Some(ConfigError::NoWatchedDir)
    } else if num_uploaders < 1 {
        Some(ConfigError::NumUploaders)
    } else if upload_part_size < MIN_UPLOAD_SIZE || upload_part_size > MAX_UPLOAD_SIZE {
        Some(ConfigError::UploadPartSize)
    } else if watcher_delay < MIN_WATCHER_INTERVAL {
        Some(ConfigError::WatcherDelay)
    } else {
        None
    }
}

/// The lines that list the watched directories, from the one at `from` on.
pub open spec fn directory_lines(dirs: Seq<String>, from: int) -> Seq<char>
    decreases dirs.len() - from,
{
    if from < 0 || from >= dirs.len() {
        Seq::empty()
    } else {
        "\t\t\t- "@ + dirs[from]@ + "\n"@ + directory_lines(dirs, from + 1)
    }
}

/// The text that [`Config::pretty_string`] gives for a configuration.
pub open spec fn pretty(config: Config) -> Seq<char> {
    "Supplied configuration:\n"@ + "\tUploader:\n"@ + "\t\tBucket name:\t"@ + config.bucket_name@
        + "\n"@ + "\t\tThreads:\t"@ + decimal(config.num_uploaders as nat) + "\n"@
        + "\t\tPart size:\t"@ + decimal(config.upload_part_size as nat) + " MB\n"@
        + "\tWatcher:\n"@ + "\t\tDelay:\t\t"@ + decimal(config.watcher_delay as nat) + "s\n"@
        + "\t\tDirectories:\n"@ + directory_lines(config.watched_dirs@, 0)
}

impl Config {
    /// All values are within their bounds.
    pub open spec fn wf(self) -> bool {
        first_fault(
            self.watched_dirs@,
            self.num_uploaders,
            self.upload_part_size,
            self.watcher_delay,
        ) is None
    }

    /// Builds a configuration from its values, or names the first value that
    /// is out of bounds.
    pub fn new(
        watched_dirs: Vec<String>,
        bucket_name: String,
        num_uploaders: u64,
        upload_part_size: u64,
        watcher_delay: u64,
    ) -> (config: Result<Config, ConfigError>)
        ensures
            match first_fault(watched_dirs@, num_uploaders, upload_part_size, watcher_delay) {
                Some(fault) => config == Err::<Config, ConfigError>(fault),
                None => config == Ok::<Config, ConfigError>(
                    Config {
                        watched_dirs,
                        bucket_name,
                        num_uploaders,
                        upload_part_size,
                        watcher_delay,
                    },
                ),
            },
            config matches Ok(built) ==> built.wf(),
    {
        let config = Config {
            watched_dirs,
            bucket_name,
            num_uploaders,
            upload_part_size,
            watcher_delay,
        };
        match config.check() {
            Some(fault) => Err(fault),
            None => Ok(config),
        }
    }

    /// Names the first value of the configuration that is out of bounds, if
    /// one is.
    pub fn check(&self) -> (fault: Option<ConfigError>)
        ensures
            fault == first_fault(
                self.watched_dirs@,
                self.num_uploaders,
                self.upload_part_size,
                self.watcher_delay,
            ),
            fault is None <==> self.wf(),
    {
        if self.watched_dirs.len() == 0 {
            Some(ConfigError::NoWatchedDir)
        } else if self.num_uploaders < 1 {
            Some(ConfigError::NumUploaders)
        } else if self.upload_part_size < MIN_UPLOAD_SIZE || self.upload_part_size
            > MAX_UPLOAD_SIZE {
            Some(ConfigError::UploadPartSize)
        } else if self.watcher_delay < MIN_WATCHER_INTERVAL {
            Some(ConfigError::WatcherDelay)
        } else {
            None
        }
    }

    /// The size of an upload part in bytes.
    pub fn part_size_bytes(&self) -> (bytes: u64)
        requires
            self.wf(),
        ensures
            bytes == self.upload_part_size * BYTES_PER_MB,
            10 * BYTES_PER_MB <= bytes <= 1000 * BYTES_PER_MB,
    {
        self.upload_part_size * BYTES_PER_MB
    }

    /// The configuration written out for a reader, one value per line.
    pub fn pretty_string(&self) -> (result: String)
        ensures
            result@ == pretty(*self),
    {
        let mut result = String::from_str("Supplied configuration:\n");
        result.append("\tUploader:\n");
        result.append("\t\tBucket name:\t");
        result.append(self.bucket_name.as_str());
        result.append("\n");
        result.append("\t\tThreads:\t");
        push_decimal(&mut result, self.num_uploaders);
        result.append("\n");
        result.append("\t\tPart size:\t");
        push_decimal(&mut result, self.upload_part_size);
        result.append(" MB\n");
        result.append("\tWatcher:\n");
        result.append("\t\tDelay:\t\t");
        push_decimal(&mut result, self.watcher_delay);
        result.append("s\n");
        result.append("\t\tDirectories:\n");
        let ghost head = result@;
        let mut i: usize = 0;
        assert(directory_lines(self.watched_dirs@, self.watched_dirs@.len() as int)
            =~= Seq::<char>::empty());
        while i < self.watched_dirs.len()
            invariant
                i <= self.watched_dirs@.len(),
                head + directory_lines(self.watched_dirs@, 0) == result@ + directory_lines(
                    self.watched_dirs@,
                    i as int,
                ),
            decreases self.watched_dirs@.len() - i,
        {
            let ghost before = result@;
            result.append("\t\t\t- ");
            result.append(self.watched_dirs[i].as_str());
            result.append("\n");
            assert(result@ + directory_lines(self.watched_dirs@, i + 1) =~= before
                + directory_lines(self.watched_dirs@, i as int));
            i += 1;
        }
        assert(result@ + Seq::<char>::empty() =~= result@);
        result
    }
}

/// The text of the failure for a number below 1.
pub open spec fn below_one() -> Seq<char> {
    "Must be greater than or equal to 1."@
}

/// The text of the failure for a part size out of bounds.
pub open spec fn size_out_of_bounds() -> Seq<char> {
    "Upload size must be between "@ + decimal(MIN_UPLOAD_SIZE as nat) + " and "@ + decimal(
        MAX_UPLOAD_SIZE as nat,
    ) + " MB"@
}

/// Checks that `num` is a number of at least 1, as a worker count and a
/// watcher interval must be. A text that is no number is refused with the
/// reason it is none.
pub fn int_gte_1(num: String) -> (checked: Result<(), String>)
    ensures
        match parsed(num@) {
            Ok(x) => if x < 1 {
                checked matches Err(reason) && reason@ == below_one()
            } else {
                checked is Ok
            },
            Err(failure) => checked matches Err(reason) && reason@ == failure_text(failure),
        },
{
    match parse_u64(num.as_str()) {
        Ok(x) => if x < 1 {
            Err(String::from_str("Must be greater than or equal to 1."))
        } else {
            Ok(())
        },
        Err(failure) => Err(failure.message()),
    }
}

/// Checks that `num` is a part size in MB within the bounds. A text that is
/// no number is refused with the reason it is none.
pub fn upload_size_between_bounds(num: String) -> (checked: Result<(), String>)
    ensures
        match parsed(num@) {
            Ok(x) => if MIN_UPLOAD_SIZE <= x <= MAX_UPLOAD_SIZE {
                checked is Ok
            } else {
                checked matches Err(reason) && reason@ == size_out_of_bounds()
            },
            Err(failure) => checked matches Err(reason) && reason@ == failure_text(failure),
        },
{
    match parse_u64(num.as_str()) {
        Ok(x) => if x >= MIN_UPLOAD_SIZE && x <= MAX_UPLOAD_SIZE {
            Ok(())
        } else {
            let mut reason = String::from_str("Upload size must be between ");
            push_decimal(&mut reason, MIN_UPLOAD_SIZE);
            reason.append(" and ");
            push_decimal(&mut reason, MAX_UPLOAD_SIZE);
            reason.append(" MB");
            Err(reason)
        },
        Err(failure) => Err(failure.message()),
    }
}

} // verus!
