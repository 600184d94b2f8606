//! Marking and stopping what is in flight when the process ends.

use vstd::prelude::*;

use crate::boot_recovery_scanner::InFlightPhaseRowSummary;
use crate::numerals::decimal_u64;
#[allow(unused_imports)]
use crate::numerals::decimal;
use crate::problem::PersistenceError;
#[allow(unused_imports)]
use crate::text::views;

verus! {

/// How long the processes get to end, in seconds.
pub const DEFAULT_KILL_GRACE_SECS: u64 = 2;

/// What a shutdown did.
#[derive(Clone, Debug, Eq, PartialEq)]
pub struct ShutdownReport {
    pub rows_marked_interrupted: usize,
    pub pids_signalled: Vec<u32>,
}

impl Default for ShutdownReport {
    fn default() -> (report: ShutdownReport)
        ensures
            report.rows_marked_interrupted == 0,
            report.pids_signalled@ == Seq::<u32>::empty(),
    {
        ShutdownReport { rows_marked_interrupted: 0, pids_signalled: Vec::new() }
    }
}

/// The processes of the rows, in order. A row whose process is not known has none.
pub open spec fn processes(rows: Seq<InFlightPhaseRowSummary>) -> Seq<u32>
    decreases rows.len(),
{
    if rows.len() == 0 {
        seq![]
    } else {
        match rows.last().process_id {
            Some(pid) => processes(rows.drop_last()).push(pid),
            None => processes(rows.drop_last()),
        }
    }
}

/// The report on the rows that were marked, and the processes to signal. Where the
/// rows could not be marked nothing is signalled.
pub fn sweep_in_flight(marked: &Result<Vec<InFlightPhaseRowSummary>, PersistenceError>) -> (report:
    ShutdownReport)
    ensures
        match marked {
            Ok(rows) => report.rows_marked_interrupted == rows.len() && report.pids_signalled@
                == processes(rows@),
            Err(_) => report.rows_marked_interrupted == 0 && report.pids_signalled@ == Seq::<
                u32,
            >::empty(),
        },
{
    match marked {
        Ok(rows) => {
            let mut pids: Vec<u32> = Vec::new();
            let mut i: usize = 0;
            while i < rows.len()
                invariant
                    i <= rows.len(),
                    pids@ == processes(rows@.take(i as int)),
                decreases rows.len() - i,
            {
                assert(rows@.take(i + 1).drop_last() =~= rows@.take(i as int));
                match rows[i].process_id {
                    Some(pid) => pids.push(pid),
                    None => {},
                }
                i += 1;
            }
            assert(rows@.take(i as int) =~= rows@);
            ShutdownReport { rows_marked_interrupted: rows.len(), pids_signalled: pids }
        },
        Err(_) => <ShutdownReport as Default>::default(),
    }
}

/// Whether the shutdown waits: only where a process was signalled.
pub fn waits(report: &ShutdownReport) -> (yes: bool)
    ensures
        yes == (report.pids_signalled@.len() > 0),
{
    report.pids_signalled.len() > 0
}

/// The arguments of `kill` that ask a process to end.
pub fn send_sigterm(pid: u32) -> (args: Vec<String>)
    ensures
        views(args@) == seq!["-TERM"@, decimal(pid as nat)],
{
    let mut args: Vec<String> = Vec::new();
    args.push("-TERM".to_owned());
    args.push(decimal_u64(pid as u64));
    assert(views(args@) =~= seq!["-TERM"@, decimal(pid as nat)]);
    args
}

/// A process is signalled if and only if it is that of a row.
pub proof fn law_signals_known_processes(rows: Seq<InFlightPhaseRowSummary>, pid: u32)
    ensures
        processes(rows).contains(pid) <==> exists|i: int|
            0 <= i < rows.len() && (#[trigger] rows[i]).process_id == Some(pid),
        processes(rows).len() <= rows.len(),
    decreases rows.len(),
{
    if rows.len() > 0 {
        let front = rows.drop_last();
        law_signals_known_processes(front, pid);
        let all = processes(rows);
        let before = processes(front);
        if all.contains(pid) {
            if rows.last().process_id == Some(pid) {
                assert(rows[rows.len() - 1].process_id == Some(pid));
            } else {
                let k = choose|k: int| 0 <= k < all.len() && all[k] == pid;
                assert(before[k] == pid);
                let i = choose|i: int|
                    0 <= i < front.len() && (#[trigger] front[i]).process_id == Some(pid);
                assert(rows[i].process_id == Some(pid));
            }
        }
        if exists|i: int| 0 <= i < rows.len() && (#[trigger] rows[i]).process_id == Some(pid) {
            let i = choose|i: int|
                0 <= i < rows.len() && (#[trigger] rows[i]).process_id == Some(pid);
            if i == rows.len() - 1 {
                assert(all.last() == pid);
                assert(all[all.len() - 1] == pid);
            } else {
                assert(front[i].process_id == Some(pid));
                let k = choose|k: int| 0 <= k < before.len() && before[k] == pid;
                assert(all[k] == pid);
            }
        }
    }
}

} // verus!
