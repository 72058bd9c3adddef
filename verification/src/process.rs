//! Identifying the application's processes.
//!
//! The operating system reports several related entries for one running
//! Toolbox — the main process and helpers, with names truncated to a few
//! characters — so a process is matched heuristically: its executable's
//! file name must equal the binary name and its reported process name must
//! start with a short prefix. Enumerating and terminating processes is the
//! unverified shell's business; it records what the system reported for
//! each process and the selection is decided here.

use vstd::prelude::*;
use vstd::string::StringExecFns;

use crate::errors::UpdateError;
use crate::textscan::{starts_with_seq, str_equal, str_starts_with};

verus! {

/// What the system reported about one running process.
#[derive(Debug)]
pub struct ProcessRecord {
    /// The process's executable path was readable at all; a process
    /// without one is silently skipped, not an error.
    pub has_exe: bool,
    /// The file name of that path, `None` when the path has none;
    /// meaningful only when `has_exe`.
    pub exe_file_name: Option<String>,
    /// The process name, `None` when it is not valid text; such a process
    /// is skipped.
    pub name: Option<String>,
}

/// The record matches the Toolbox: the executable is named
/// `jetbrains-toolbox` and the reported process name starts with
/// `jetbrains`.
pub open spec fn record_matches(rec: ProcessRecord) -> bool {
    &&& rec.has_exe
    &&& rec.exe_file_name matches Some(f) && f@ == "jetbrains-toolbox"@
    &&& rec.name matches Some(n) && starts_with_seq(n@, "jetbrains"@)
}

/// The record defeats termination: the executable path was readable but
/// carries no file name to compare.
pub open spec fn record_defective(rec: ProcessRecord) -> bool {
    rec.has_exe && rec.exe_file_name is None
}

/// Selects the processes to terminate: the indices, in order, of every
/// record that matches the Toolbox. A record whose executable path has no
/// file name fails the whole selection with `CouldNotTerminate`; a record
/// without a readable executable path, or with an unreadable name, is
/// skipped.
pub fn select_toolbox_processes(records: &Vec<ProcessRecord>) -> (r: Result<
    Vec<usize>,
    UpdateError,
>)
    ensures
        r is Ok <==> (forall|i: int|
            0 <= i < records@.len() ==> !record_defective(#[trigger] records@[i])),
        (r matches Err(e) ==> e matches UpdateError::CouldNotTerminate(m) && m@
            == "Error getting file_name"@),
        (r matches Ok(sel) ==> {
            &&& forall|k: int|
                0 <= k < sel@.len() ==> 0 <= #[trigger] sel@[k] < records@.len()
                    && record_matches(records@[sel@[k] as int])
            &&& forall|i: int|
                0 <= i < records@.len() && record_matches(#[trigger] records@[i])
                    ==> sel@.contains(i as usize)
            &&& forall|k: int, l: int| 0 <= k < l < sel@.len() ==> sel@[k] < sel@[l]
        }),
{
    let mut sel: Vec<usize> = Vec::new();
    let mut i: usize = 0;
    while i < records.len()
        invariant
            i <= records@.len(),
            forall|j: int| 0 <= j < i ==> !record_defective(#[trigger] records@[j]),
            forall|k: int|
                0 <= k < sel@.len() ==> 0 <= #[trigger] sel@[k] < i && record_matches(
                    records@[sel@[k] as int],
                ),
            forall|j: int|
                0 <= j < i && record_matches(#[trigger] records@[j]) ==> sel@.contains(j as usize),
            forall|k: int, l: int| 0 <= k < l < sel@.len() ==> sel@[k] < sel@[l],
        decreases records@.len() - i,
    {
        let rec = &records[i];
        if rec.has_exe {
            match &rec.exe_file_name {
                None => {
                    return Err(
                        UpdateError::CouldNotTerminate(String::from_str("Error getting file_name")),
                    );
                },
                Some(fname) => {
                    if str_equal(fname.as_str(), "jetbrains-toolbox") {
                        match &rec.name {
                            Some(n) => {
                                if str_starts_with(n.as_str(), "jetbrains") {
                                    let ghost old_sel = sel@;
                                    sel.push(i);
                                    proof {
                                        assert(sel@[old_sel.len() as int] == i);
                                        assert forall|j: int|
                                            0 <= j < i + 1 && record_matches(
                                                #[trigger] records@[j],
                                            ) implies sel@.contains(j as usize) by {
                                            if j < i {
                                                assert(old_sel.contains(j as usize));
                                                let k = choose|k: int|
                                                    0 <= k < old_sel.len() && old_sel[k] == (
                                                    j as usize);
                                                assert(sel@[k] == j as usize);
                                            }
                                        }
                                    }
                                }
                            },
                            None => {},
                        }
                    }
                },
            }
        }
        i = i + 1;
    }
    Ok(sel)
}

} // verus!
