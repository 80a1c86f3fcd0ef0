//! Where the notes of a run go.

use crate::facts::{Facts, Knowledge, Query};
use crate::journal::{glue, settled, Journal, Level, NoteView, Outcome};
use crate::os_access::Os;
use crate::paths::{parent, path_parent};
use crate::property_from_files_resolver::{
    bool_from_properties, logtarget, try_log_to_file_from_properties,
    try_log_to_streams_from_properties, try_log_to_system_from_properties,
    try_logtarget_from_properties,
};
use crate::text::{decimal, decimal_of};
use vstd::prelude::*;
use vstd::string::*;

verus! {

/// The sinks that are switched on, and the file that notes are written to.
#[derive(Debug)]
pub struct AdvancedLogging {
    pub log_to_file: bool,
    pub log_target_file: String,
    pub log_to_stdstreams: bool,
    pub log_to_system: bool,
}

/// The logging set-up as contracts speak of it.
pub struct LoggingView {
    pub log_to_file: bool,
    pub log_target_file: Seq<char>,
    pub log_to_stdstreams: bool,
    pub log_to_system: bool,
}

impl View for AdvancedLogging {
    type V = LoggingView;

    open spec fn view(&self) -> LoggingView {
        LoggingView {
            log_to_file: self.log_to_file,
            log_target_file: self.log_target_file@,
            log_to_stdstreams: self.log_to_stdstreams,
            log_to_system: self.log_to_system,
        }
    }
}

impl DeepView for AdvancedLogging {
    type V = LoggingView;

    open spec fn deep_view(&self) -> LoggingView {
        self@
    }
}

/// The set-up before any configuration is read: the standard streams and the system log,
/// no file.
pub open spec fn default_logging() -> LoggingView {
    LoggingView {
        log_to_file: false,
        log_target_file: "undefined"@,
        log_to_stdstreams: true,
        log_to_system: true,
    }
}

impl Default for AdvancedLogging {
    fn default() -> (r: AdvancedLogging)
        ensures
            r@ == default_logging(),
    {
        AdvancedLogging {
            log_to_file: false,
            log_target_file: String::from_str("undefined"),
            log_to_stdstreams: true,
            log_to_system: true,
        }
    }
}

impl Clone for AdvancedLogging {
    fn clone(&self) -> (r: AdvancedLogging)
        ensures
            r@ == self@,
    {
        AdvancedLogging {
            log_to_file: self.log_to_file,
            log_target_file: self.log_target_file.clone(),
            log_to_stdstreams: self.log_to_stdstreams,
            log_to_system: self.log_to_system,
        }
    }
}

/// The logging set-up that the configuration asks for, for a run that starts `secs`
/// seconds after the epoch.
pub open spec fn loaded_logging<O: Os>(
    os: &O,
    secs: nat,
    k: Knowledge,
    log: Seq<NoteView>,
) -> Outcome<LoggingView> {
    match bool_from_properties(os, "deployment.log.file"@, false, k, log) {
        Err(q) => Err(q),
        Ok((to_file, l1)) => match bool_from_properties(
            os,
            "deployment.log.stdstreams"@,
            true,
            k,
            l1,
        ) {
            Err(q) => Err(q),
            Ok((to_streams, l2)) => match bool_from_properties(
                os,
                "deployment.log.system"@,
                true,
                k,
                l2,
            ) {
                Err(q) => Err(q),
                Ok((to_system, l3)) => match logtarget(os, secs, k, l3) {
                    Err(q) => Err(q),
                    Ok((target, l4)) => Ok(
                        (
                            LoggingView {
                                log_to_file: to_file,
                                log_target_file: target,
                                log_to_stdstreams: to_streams,
                                log_to_system: to_system,
                            },
                            l4,
                        ),
                    ),
                },
            },
        },
    }
}

impl AdvancedLogging {
    /// Reads the logging set-up from the configuration.
    pub fn load<O: Os>(os: &O, secs: u64, facts: &Facts, journal: &mut Journal) -> (r: Result<
        AdvancedLogging,
        Query,
    >)
        ensures
            settled(
                r,
                old(journal)@,
                final(journal)@,
                loaded_logging(os, secs as nat, facts@, old(journal)@),
            ),
    {
        let log_to_file = try_log_to_file_from_properties(os, facts, journal)?;
        let log_to_stdstreams = try_log_to_streams_from_properties(os, facts, journal)?;
        let log_to_system = try_log_to_system_from_properties(os, facts, journal)?;
        let log_target_file = try_logtarget_from_properties(os, secs, facts, journal)?;
        Ok(AdvancedLogging { log_to_file, log_target_file, log_to_stdstreams, log_to_system })
    }
}

impl Level {
    /// The number of the level: 0 for what is important, 1 for information, 2 for what
    /// serves debugging.
    pub fn number(&self) -> (r: i32)
        ensures
            r == level_number(*self),
    {
        match self {
            Level::Important => 0,
            Level::Info => 1,
            Level::Debug => 2,
        }
    }
}

/// The number of a level.
pub open spec fn level_number(level: Level) -> int {
    match level {
        Level::Important => 0,
        Level::Info => 1,
        Level::Debug => 2,
    }
}

/// What is written to the log file for one note.
#[derive(Debug)]
pub struct FileEntry {
    /// The log file.
    pub path: String,
    /// The directory to make before the file is made; set for the first note only, and
    /// only where the path has a directory.
    pub create_dir: Option<String>,
    /// The line that opens a new log file; set for the first note only.
    pub header: Option<String>,
    /// The line to add at the end of the file.
    pub line: String,
}

/// Where one note goes.
#[derive(Debug)]
pub struct LogPlan {
    /// Whether the note is printed to the standard output.
    pub to_streams: bool,
    /// What is handed to the system log, if anything.
    pub to_system: Option<String>,
    /// What is written to the log file, if anything.
    pub to_file: Option<FileEntry>,
}

/// Whether a note of the level with number `level` is printed: what is important and
/// information always, what serves debugging in a verbose run, provided that printing is
/// switched on at all.
pub open spec fn printed(level: int, verbose: bool, logging: LoggingView) -> bool {
    if level == 0 || level == 1 {
        logging.log_to_stdstreams
    } else if level == 2 {
        verbose && logging.log_to_stdstreams
    } else {
        false
    }
}

/// What goes to the system log: what is important, behind a line that says where help is.
pub open spec fn system_text(level: int, logging: LoggingView, s: Seq<char>) -> Option<Seq<char>> {
    if level == 0 && logging.log_to_system {
        Some(
            "IcedTea-Web nativerustlauncher error. Consult - https://icedtea.classpath.org/wiki/IcedTea-Web\n"@
                + s,
        )
    } else {
        None
    }
}

/// The line that opens a log file begun `secs` seconds after the epoch: hours, minutes
/// and seconds, the hours counted on from the epoch.
pub open spec fn file_header(secs: nat) -> Seq<char> {
    "itw-rust-debug: file log started: "@ + decimal_of(secs / 3600) + ":"@ + decimal_of(
        (secs / 60) % 60,
    ) + ":"@ + decimal_of(secs % 60) + "\n"@
}

/// The line that opens a log file.
pub fn log_file_header(secs: u64) -> (r: String)
    ensures
        r@ == file_header(secs as nat),
{
    let sec: u64 = secs % 60;
    let min: u64 = (secs / 60) % 60;
    let h: u64 = secs / (60 * 60);
    let mut r = String::from_str("itw-rust-debug: file log started: ");
    r.append(decimal(h).as_str());
    r.append(":");
    r.append(decimal(min).as_str());
    r.append(":");
    r.append(decimal(sec).as_str());
    r.append("\n");
    r
}

/// Decides where a note goes. `first` says whether this is the first note of the run;
/// `secs` is the time in seconds since the epoch.
pub fn log_impl<O: Os>(level: i32, os: &O, s: &str, first: bool, secs: u64) -> (r: LogPlan)
    ensures
        r.to_streams == printed(level as int, os.verbose(), os.logging()),
        r.to_system.deep_view() == system_text(level as int, os.logging(), s@),
        r.to_file.is_some() == os.logging().log_to_file,
        r.to_file matches Some(entry) ==> {
            &&& entry.path@ == os.logging().log_target_file
            &&& entry.line@ == s@
            &&& entry.create_dir.deep_view() == if first {
                path_parent(os.logging().log_target_file)
            } else {
                None
            }
            &&& entry.header.deep_view() == if first {
                Some(file_header(secs as nat))
            } else {
                None
            }
        },
{
    let al = os.advanced_logging();
    let verbose = os.is_verbose();
    let to_streams = if level == 0 || level == 1 {
        al.log_to_stdstreams
    } else if level == 2 {
        verbose && al.log_to_stdstreams
    } else {
        false
    };
    let to_system = if level == 0 && al.log_to_system {
        Some(
            glue(
                "IcedTea-Web nativerustlauncher error. Consult - https://icedtea.classpath.org/wiki/IcedTea-Web\n",
                s,
            ),
        )
    } else {
        None
    };
    let to_file = if al.log_to_file {
        let path = al.log_target_file.clone();
        if first {
            Some(
                FileEntry {
                    create_dir: parent(path.as_str()),
                    header: Some(log_file_header(secs)),
                    path,
                    line: String::from_str(s),
                },
            )
        } else {
            Some(FileEntry { path, create_dir: None, header: None, line: String::from_str(s) })
        }
    } else {
        None
    };
    LogPlan { to_streams, to_system, to_file }
}

} // verus!
