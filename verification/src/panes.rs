//! Listing panes: composing the full query command, and decoding the
//! response, one line per pane.

use vstd::prelude::*;

use crate::command::TmuxCommand;
use crate::error::Error;
use crate::pane::PANE_ALL;
use crate::pane::PANE_VARS_SEPARATOR;
use crate::pane::Pane;
use crate::pane::pane_query;
use crate::pane::spec_pane_decode;
use crate::pane::spec_pane_query;
use crate::strutil::lines_of;
use crate::strutil::seq_strs;
use crate::strutil::spec_lines;
use crate::strutil::spec_split;
use crate::tmux_interface::TmuxInterface;

verus! {

/// The panes of a window, fetched by one `list-panes` round trip.
pub struct Panes {}

impl Panes {
    /// The command asking for every pane field of the target window: a
    /// `list-panes` invocation whose format string requests the whole
    /// descriptor table.  The caller runs it and hands the output to
    /// [`Panes::parse`].
    pub fn get(target_window: &str) -> (r: TmuxCommand)
        ensures
            r.cmd matches Some(c) && c@ == "list-panes"@,
            seq_strs(r.args@) == seq!["-F"@, spec_pane_query(PANE_ALL), "-t"@, target_window@],
            r.bin@ == "tmux"@,
            r.bin_args@.len() == 0,
    {
        let tmux = TmuxInterface::new();
        let lsp_format = pane_query(PANE_ALL);
        let r = tmux.list_panes(Some(false), Some(false), Some(lsp_format.as_str()), Some(
            target_window,
        ));
        proof {
            assert(seq_strs(r.args@) =~= seq![
                "-F"@,
                spec_pane_query(PANE_ALL),
                "-t"@,
                target_window@,
            ]);
        }
        r
    }

    /// Decodes a `list-panes` response: one pane per line, each line decoded
    /// under the full mask.  Decoding is best-effort and never fails.
    pub fn parse(panes_str: &str) -> (r: Result<Vec<Pane>, Error>)
        ensures
            r matches Ok(v) && v@.len() == spec_lines(panes_str@).len() && (forall|i: int|
                0 <= i < v@.len() ==> (#[trigger] v@[i])@ == spec_pane_decode(
                    spec_split(spec_lines(panes_str@)[i], PANE_VARS_SEPARATOR),
                    PANE_ALL,
                )),
    {
        let lines = lines_of(panes_str);
        let mut panes: Vec<Pane> = Vec::new();
        let mut i: usize = 0;
        while i < lines.len()
            invariant
                0 <= i <= lines@.len(),
                seq_strs(lines@) == spec_lines(panes_str@),
                panes@.len() == i,
                forall|k: int|
                    0 <= k < i ==> (#[trigger] panes@[k])@ == spec_pane_decode(
                        spec_split(spec_lines(panes_str@)[k], PANE_VARS_SEPARATOR),
                        PANE_ALL,
                    ),
            decreases lines@.len() - i,
        {
            match Pane::from_str(lines[i].as_str(), PANE_ALL) {
                Ok(p) => {
                    panes.push(p);
                },
                Err(e) => {
                    return Err(e);
                },
            }
            i = i + 1;
        }
        Ok(panes)
    }
}

} // verus!
