//! Locating a Toolbox installation.
//!
//! The filesystem and desktop-entry scanning happens in the unverified
//! shell, which records what it observed in an [`InstallationProbe`]; the
//! decisions — which layout counts as a valid installation, which error each
//! defect maps to, and how a binary is chosen from desktop entries — are
//! made here.

use vstd::prelude::*;
use vstd::string::StringExecFns;

use crate::errors::FindError;

verus! {

/// A located installation: where the binary, the per-channel configuration
/// files and the application's current log live.
#[derive(Debug, Clone)]
pub struct JetBrainsToolboxInstallation {
    /// The application binary.
    pub binary: String,
    /// The directory holding one configuration file per product channel.
    pub channels: String,
    /// The application's current log file; it may not exist yet.
    pub log: String,
}

/// What the unverified shell observed on disk while probing for an
/// installation.
#[derive(Debug)]
pub struct InstallationProbe {
    /// The user's home directory, if one could be determined.
    pub home_dir: Option<String>,
    /// The Toolbox directory exists, as a directory or otherwise.
    pub toolbox_dir_exists: bool,
    /// The Toolbox directory is a directory.
    pub toolbox_dir_is_dir: bool,
    /// The binary sits at its default place under the Toolbox directory.
    pub default_binary_exists: bool,
    /// The `Exec` values of desktop files named
    /// `jetbrains-toolbox.desktop`, in discovery order, `None` where a file
    /// carries no `Exec` entry. Consulted only when the default binary is
    /// absent.
    pub desktop_execs: Vec<Option<String>>,
    /// The channels directory is a directory.
    pub channels_is_dir: bool,
    /// The logs directory is a directory.
    pub logs_is_dir: bool,
}

/// The Toolbox directory under a home directory.
pub open spec fn toolbox_dir_path(home: Seq<char>) -> Seq<char> {
    home + "/.local/share/JetBrains/Toolbox"@
}

/// The default binary location under a home directory.
pub open spec fn default_binary_path(home: Seq<char>) -> Seq<char> {
    toolbox_dir_path(home) + "/bin/jetbrains-toolbox"@
}

/// The channels directory under a home directory.
pub open spec fn channels_dir_path(home: Seq<char>) -> Seq<char> {
    toolbox_dir_path(home) + "/channels"@
}

/// The log file under a home directory.
pub open spec fn log_file_path(home: Seq<char>) -> Seq<char> {
    toolbox_dir_path(home) + "/logs/toolbox.latest.log"@
}

/// The length of `s` once every trailing ` %u` before `end` is dropped.
pub open spec fn stripped_len(s: Seq<char>, end: int) -> int
    decreases end,
{
    if end >= 3 && s.subrange(end - 3, end) == " %u"@ {
        stripped_len(s, end - 3)
    } else {
        end
    }
}

/// An `Exec` value with every trailing ` %u` field-code dropped.
pub open spec fn strip_exec_suffix(s: Seq<char>) -> Seq<char> {
    s.subrange(0, stripped_len(s, s.len() as int))
}

/// Drops every trailing ` %u` field-code from an `Exec` value.
pub fn strip_exec_placeholder(exec: &str) -> (r: String)
    ensures
        r@ == strip_exec_suffix(exec@),
{
    let mut end: usize = exec.unicode_len();
    loop
        invariant
            end <= exec@.len(),
            stripped_len(exec@, exec@.len() as int) == stripped_len(exec@, end as int),
        decreases end,
    {
        if end >= 3 && exec.get_char(end - 3) == ' ' && exec.get_char(end - 2) == '%'
            && exec.get_char(end - 1) == 'u' {
            proof {
                reveal_strlit(" %u");
                assert(exec@.subrange(end - 3, end as int) =~= " %u"@);
            }
            end = end - 3;
        } else {
            proof {
                reveal_strlit(" %u");
                if end >= 3 {
                    if exec@.subrange(end - 3, end as int) == " %u"@ {
                        assert(exec@.subrange(end - 3, end as int)[0] == exec@[end - 3]);
                        assert(exec@.subrange(end - 3, end as int)[1] == exec@[end - 2]);
                        assert(exec@.subrange(end - 3, end as int)[2] == exec@[end - 1]);
                    }
                }
                assert(stripped_len(exec@, end as int) == end);
            }
            let stripped = exec.substring_char(0, end);
            return String::from_str(stripped);
        }
    }
}

/// No desktop entry carries an `Exec` value.
pub open spec fn some_exec_missing(execs: Seq<Option<String>>) -> bool {
    exists|i: int| 0 <= i < execs.len() && (#[trigger] execs[i]) is None
}

/// Every desktop entry names the same `Exec` value as the first.
pub open spec fn execs_all_match(execs: Seq<Option<String>>) -> bool {
    forall|i: int|
        0 <= i < execs.len() ==> ((#[trigger] execs[i]) matches Some(s) && s@ == execs[0]->0@)
}

/// The desktop entries determine a binary: none lacks `Exec`, at least one
/// exists, and all agree.
pub open spec fn desktop_binary_ok(execs: Seq<Option<String>>) -> bool {
    &&& !some_exec_missing(execs)
    &&& execs.len() > 0
    &&& execs_all_match(execs)
}

/// The explanation given when the binary is nowhere to be found.
pub open spec fn no_desktop_file_message(orig_binary: Seq<char>) -> Seq<char> {
    "No binary was found at "@ + orig_binary
        + ", and no desktop file named `jetbrains-toolbox.desktop` was found"@
}

/// Chooses the application binary from the `Exec` values of the matching
/// desktop files, when the binary is not at its default place
/// `orig_binary`: every file must carry `Exec`, at least one file must
/// exist, all must agree, and trailing ` %u` field-codes are dropped.
pub fn binary_from_desktop_entries(execs: &Vec<Option<String>>, orig_binary: &str) -> (r: Result<
    String,
    FindError,
>)
    ensures
        r is Ok <==> desktop_binary_ok(execs@),
        (r matches Ok(b) ==> b@ == strip_exec_suffix(execs@[0]->0@)),
        (r matches Err(e) ==> match e {
            FindError::DesktopFileMissingExec => some_exec_missing(execs@),
            FindError::NoDesktopFile(m) => !some_exec_missing(execs@) && execs@.len() == 0 && m@
                == no_desktop_file_message(orig_binary@),
            FindError::MultipleMismatchingDesktopFiles(_) => !some_exec_missing(execs@)
                && execs@.len() > 0 && !execs_all_match(execs@),
            _ => false,
        }),
{
    let mut i: usize = 0;
    while i < execs.len()
        invariant
            i <= execs@.len(),
            forall|j: int| 0 <= j < i ==> (#[trigger] execs@[j]) is Some,
        decreases execs@.len() - i,
    {
        if execs[i].is_none() {
            return Err(FindError::DesktopFileMissingExec);
        }
        i = i + 1;
    }
    if execs.len() == 0 {
        let mut msg = String::from_str("No binary was found at ");
        msg.append(orig_binary);
        msg.append(", and no desktop file named `jetbrains-toolbox.desktop` was found");
        return Err(FindError::NoDesktopFile(msg));
    }
    let first: &String = match &execs[0] {
        Some(s) => s,
        None => {
            return Err(FindError::DesktopFileMissingExec);
        },
    };
    let mut k: usize = 1;
    while k < execs.len()
        invariant
            1 <= k <= execs@.len(),
            execs@[0] matches Some(f) && f@ == first@,
            forall|j: int| 0 <= j < execs@.len() ==> (#[trigger] execs@[j]) is Some,
            forall|j: int| 0 <= j < k ==> (#[trigger] execs@[j])->0@ == execs@[0]->0@,
        decreases execs@.len() - k,
    {
        match &execs[k] {
            Some(s) => {
                if !first.eq(s) {
                    return Err(
                        FindError::MultipleMismatchingDesktopFiles(
                            String::from_str(
                                "Multiple desktop files called `jetbrains-toolbox.desktop` were found, and they have different values for Exec",
                            ),
                        ),
                    );
                }
            },
            None => {
                return Err(FindError::DesktopFileMissingExec);
            },
        }
        k = k + 1;
    }
    Ok(strip_exec_placeholder(first.as_str()))
}

/// Decides whether the probed layout is a usable installation and, if so,
/// where its parts live: the home directory must be known, the Toolbox
/// directory must be a directory, the binary must sit at its default place
/// or be named consistently by desktop files, and the channels and logs
/// directories must both exist.
pub fn find_jetbrains_toolbox(probe: &InstallationProbe) -> (r: Result<
    JetBrainsToolboxInstallation,
    FindError,
>)
    ensures
        (r matches Err(FindError::NoHomeDir) <==> probe.home_dir is None),
        (r matches Err(FindError::NotFound) <==> probe.home_dir is Some
            && !probe.toolbox_dir_exists),
        (r matches Err(FindError::InvalidInstallation) <==> probe.home_dir is Some
            && probe.toolbox_dir_exists && (!probe.toolbox_dir_is_dir || (
        (probe.default_binary_exists || desktop_binary_ok(probe.desktop_execs@))
            && (!probe.channels_is_dir || !probe.logs_is_dir)))),
        (r matches Err(FindError::DesktopFileMissingExec) ==> !probe.default_binary_exists
            && some_exec_missing(probe.desktop_execs@)),
        (r matches Err(FindError::NoDesktopFile(m)) ==> !probe.default_binary_exists
            && probe.desktop_execs@.len() == 0 && m@ == no_desktop_file_message(
            default_binary_path(probe.home_dir->0@),
        )),
        (r matches Err(FindError::MultipleMismatchingDesktopFiles(_))
            ==> !probe.default_binary_exists && !some_exec_missing(probe.desktop_execs@)
            && probe.desktop_execs@.len() > 0 && !execs_all_match(probe.desktop_execs@)),
        !(r matches Err(FindError::UnsupportedOS(_))),
        (r is Ok <==> probe.home_dir is Some && probe.toolbox_dir_exists
            && probe.toolbox_dir_is_dir && (probe.default_binary_exists || desktop_binary_ok(
            probe.desktop_execs@,
        )) && probe.channels_is_dir && probe.logs_is_dir),
        (r matches Ok(inst) ==> {
            let home = probe.home_dir->0@;
            &&& inst.channels@ == channels_dir_path(home)
            &&& inst.log@ == log_file_path(home)
            &&& (probe.default_binary_exists ==> inst.binary@ == default_binary_path(home))
            &&& (!probe.default_binary_exists ==> inst.binary@ == strip_exec_suffix(
                probe.desktop_execs@[0]->0@,
            ))
        }),
{
    let home: &String = match &probe.home_dir {
        None => {
            return Err(FindError::NoHomeDir);
        },
        Some(h) => h,
    };
    if !probe.toolbox_dir_exists {
        return Err(FindError::NotFound);
    }
    if !probe.toolbox_dir_is_dir {
        return Err(FindError::InvalidInstallation);
    }
    let mut dir = home.clone();
    dir.append("/.local/share/JetBrains/Toolbox");
    let mut default_binary = dir.clone();
    default_binary.append("/bin/jetbrains-toolbox");
    let binary = if probe.default_binary_exists {
        default_binary
    } else {
        match binary_from_desktop_entries(&probe.desktop_execs, default_binary.as_str()) {
            Err(e) => {
                return Err(e);
            },
            Ok(b) => b,
        }
    };
    if !probe.channels_is_dir {
        return Err(FindError::InvalidInstallation);
    }
    if !probe.logs_is_dir {
        return Err(FindError::InvalidInstallation);
    }
    let mut channels = dir.clone();
    channels.append("/channels");
    let mut log = dir;
    log.append("/logs/toolbox.latest.log");
    Ok(JetBrainsToolboxInstallation { binary, channels, log })
}

} // verus!
