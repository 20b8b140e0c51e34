use vstd::prelude::*;
use vstd::string::StringExecFns;
use crate::duration::Duration;

verus! {

/// One watched location: a label, where to look, what to match, where to
/// deliver, and an optional recency window as an unparsed duration string.
#[derive(Debug, Clone)]
pub struct BackupConfig {
    pub name: String,
    pub source_directory: String,
    pub file_pattern: String,
    pub webhook_url: String,
    pub check_period: Option<String>,
}

/// The whole configuration: a list of backup entries. Reading and decoding
/// the configuration file is the driver's job; the core only consumes the
/// decoded entries.
#[derive(Debug, Clone)]
pub struct Config {
    pub backups: Vec<BackupConfig>,
}

/// A fatal configuration fault.
#[derive(Debug)]
pub enum ConfigError {
    /// The duration grammar did not accept the string.
    InvalidDuration { input: String, detail: String },
    /// The string denotes a span beyond `i64::MAX` milliseconds.
    DurationTooLarge,
}

impl ConfigError {
    /// A human-readable rendering of the error.
    pub fn message(&self) -> (m: String)
        ensures
            self matches ConfigError::InvalidDuration { input, detail }
                ==> m@ == "Invalid duration format '"@ + input@ + "': "@ + detail@,
            self matches ConfigError::DurationTooLarge ==> m@ == "Duration too large"@,
    {
        match self {
            ConfigError::InvalidDuration { input, detail } => {
                let mut m = "Invalid duration format '".to_owned();
                m.append(input.as_str());
                m.append("': ");
                m.append(detail.as_str());
                m
            }
            ConfigError::DurationTooLarge => "Duration too large".to_owned(),
        }
    }
}

/// What humantime's duration parser yields for a given string: the denoted
/// span as whole seconds and sub-second nanoseconds, or nothing where the
/// parser does not accept the string or cannot represent the span (see the
/// wrapper below for the one boundary where the parser itself gives no
/// answer). The outcome depends on the characters alone.
pub uninterp spec fn parsed_duration(s: Seq<char>) -> Option<(u64, u32)>;

/// The recency window, in whole milliseconds, that a parsed duration
/// denotes; the sub-millisecond remainder is discarded.
pub open spec fn duration_millis(d: (u64, u32)) -> int {
    d.0 * 1000 + d.1 / 1000000
}

/// Relies on humantime::parse_duration to parse the human-readable duration
/// grammar ("1d", "24h", "30m", "2d 3h", ...). The parser's final carry
/// panics on one boundary input — nanoseconds landing exactly on one
/// billion while the parsed seconds already saturate u64 — so the call runs
/// on a blocking task, which contains that panic and hands it back as a
/// rejection; every outcome is still a function of the characters alone.
/// On a rejected string a description of the fault comes back; its text is
/// not specified.
#[verifier::external_body]
fn parse_duration_external(s: &str) -> (r: Result<(u64, u32), String>)
    ensures
        (r is Ok) == (parsed_duration(s@) is Some),
        r matches Ok(d) ==> parsed_duration(s@) == Some(d),
{
    let owned = s.to_string();
    let rt = match tokio::runtime::Builder::new_current_thread().build() {
        Ok(rt) => rt,
        Err(e) => return Err(format!("{e}")),
    };
    let task = {
        let _guard = rt.enter();
        tokio::task::spawn_blocking(move || humantime::parse_duration(&owned))
    };
    match rt.block_on(task) {
        Ok(Ok(d)) => Ok((d.as_secs(), d.subsec_nanos())),
        Ok(Err(e)) => Err(format!("{e}")),
        Err(_) => Err("duration value too large".to_string()),
    }
}

/// Parses a duration string of the human-readable grammar into a
/// `Duration`. Succeeds exactly when the grammar accepts the string and the
/// denoted span fits in `i64::MAX` milliseconds; the error tells the two
/// failures apart.
pub fn parse_duration_string(duration_str: &str) -> (r: Result<Duration, ConfigError>)
    ensures
        parsed_duration(duration_str@) is None
            ==> (r matches Err(e) && e matches ConfigError::InvalidDuration { input, .. } && input@ == duration_str@),
        parsed_duration(duration_str@) matches Some(p) ==> {
            if duration_millis(p) <= i64::MAX {
                r matches Ok(d) && d.millis == duration_millis(p)
            } else {
                r matches Err(e) && e matches ConfigError::DurationTooLarge
            }
        },
{
    match parse_duration_external(duration_str) {
        Err(detail) => Err(ConfigError::InvalidDuration { input: duration_str.to_owned(), detail }),
        Ok((secs, nanos)) => {
            let total: u128 = (secs as u128) * 1000 + (nanos / 1000000) as u128;
            if total <= i64::MAX as u128 {
                Ok(Duration { millis: total as i64 })
            } else {
                Err(ConfigError::DurationTooLarge)
            }
        }
    }
}

impl BackupConfig {
    /// The entry's recency window, if one is configured: `Ok(None)` where no
    /// period string is present, otherwise the parse of that string.
    pub fn parse_check_period(&self) -> (r: Result<Option<Duration>, ConfigError>)
        ensures
            self.check_period is None ==> r == Ok::<Option<Duration>, ConfigError>(None),
            self.check_period matches Some(p) ==> {
                &&& parsed_duration(p@) is None ==> (r matches Err(e) && e matches ConfigError::InvalidDuration { .. })
                &&& parsed_duration(p@) matches Some(q) ==> {
                    if duration_millis(q) <= i64::MAX {
                        r matches Ok(w) && w matches Some(d) && d.millis == duration_millis(q)
                    } else {
                        r matches Err(e) && e matches ConfigError::DurationTooLarge
                    }
                }
            },
    {
        match &self.check_period {
            None => Ok(None),
            Some(period_str) => {
                match parse_duration_string(period_str.as_str()) {
                    Ok(period) => Ok(Some(period)),
                    Err(e) => Err(e),
                }
            }
        }
    }
}

} // verus!
