//! Getting pane options: one `show-options -p` command per requested
//! option, composed into a single command list.
//!
//! Each convenience method requests one known pane option together with its
//! availability window; `build` keeps the requested order and silently
//! drops options outside the declared version.

use vstd::prelude::*;

use crate::command::TmuxCommands;
use crate::command::spec_tokens;
use crate::options::ShowOptions;
use crate::options::user_option_name;
use crate::version::Avail;
use crate::version::Version;
use crate::version::VersionGate;
use crate::version::spec_available;
use crate::version::spec_subcmd;

verus! {

// The pane option names, each with its availability in the manual.
pub const ALLOW_RENAME: &'static str = "allow-rename";

pub const ALTERNATE_SCREEN: &'static str = "alternate-screen";

pub const REMAIN_ON_EXIT: &'static str = "remain-on-exit";

pub const WINDOW_ACTIVE_STYLE: &'static str = "window-active-style";

pub const WINDOW_STYLE: &'static str = "window-style";

pub const SYNCHRONIZE_PANES: &'static str = "synchronize-panes";

/// The names among the requested entries whose window is open at this gate,
/// in requested order.
pub open spec fn spec_avail_names(entries: Seq<(String, Avail)>, g: VersionGate) -> Seq<Seq<char>>
    decreases entries.len(),
{
    if entries.len() == 0 {
        Seq::<Seq<char>>::empty()
    } else {
        spec_avail_names(entries.drop_last(), g) + if spec_available(
            entries.last().1,
            g.version,
        ) {
            seq![entries.last().0@]
        } else {
            Seq::<Seq<char>>::empty()
        }
    }
}

/// Composes the `show-options -p` queries for a chosen set of pane options.
#[derive(Debug)]
pub struct GetPaneOptions {
    /// The requested options, in order, each with its availability window.
    pub entries: Vec<(String, Avail)>,
}

impl GetPaneOptions {
    pub fn new() -> (r: GetPaneOptions)
        ensures
            r.entries@.len() == 0,
    {
        GetPaneOptions { entries: Vec::new() }
    }

    /// Requests one option under the given availability window.
    pub fn option(self, name: &str, avail: Avail) -> (r: GetPaneOptions)
        ensures
            r.entries@.len() == self.entries@.len() + 1,
            r.entries@.drop_last() == self.entries@,
            r.entries@.last().0@ == name@,
            r.entries@.last().1 == avail,
    {
        let mut entries = self.entries;
        entries.push((String::from_str(name), avail));
        proof {
            assert(entries@.drop_last() =~= self.entries@);
        }
        GetPaneOptions { entries }
    }

    /// tmux ^3.0: `allow-rename [on | off]`
    pub fn allow_rename(self) -> (r: GetPaneOptions)
        ensures
            r.entries@.len() == self.entries@.len() + 1,
            r.entries@.drop_last() == self.entries@,
            r.entries@.last().0@ == "allow-rename"@,
            r.entries@.last().1 == Avail::Since(Version { major: 3, minor: 0 }),
    {
        self.option(ALLOW_RENAME, Avail::Since(Version::new(3, 0)))
    }

    /// tmux ^3.0: `alternate-screen [on | off]`
    pub fn alternate_screen(self) -> (r: GetPaneOptions)
        ensures
            r.entries@.len() == self.entries@.len() + 1,
            r.entries@.drop_last() == self.entries@,
            r.entries@.last().0@ == "alternate-screen"@,
            r.entries@.last().1 == Avail::Since(Version { major: 3, minor: 0 }),
    {
        self.option(ALTERNATE_SCREEN, Avail::Since(Version::new(3, 0)))
    }

    /// tmux ^3.0: `remain-on-exit [on | off | failed]`
    pub fn remain_on_exit(self) -> (r: GetPaneOptions)
        ensures
            r.entries@.len() == self.entries@.len() + 1,
            r.entries@.drop_last() == self.entries@,
            r.entries@.last().0@ == "remain-on-exit"@,
            r.entries@.last().1 == Avail::Since(Version { major: 3, minor: 0 }),
    {
        self.option(REMAIN_ON_EXIT, Avail::Since(Version::new(3, 0)))
    }

    /// tmux ^3.0: `window-active-style style`
    pub fn window_active_style(self) -> (r: GetPaneOptions)
        ensures
            r.entries@.len() == self.entries@.len() + 1,
            r.entries@.drop_last() == self.entries@,
            r.entries@.last().0@ == "window-active-style"@,
            r.entries@.last().1 == Avail::Since(Version { major: 3, minor: 0 }),
    {
        self.option(WINDOW_ACTIVE_STYLE, Avail::Since(Version::new(3, 0)))
    }

    /// tmux ^3.0: `window-style style`
    pub fn window_style(self) -> (r: GetPaneOptions)
        ensures
            r.entries@.len() == self.entries@.len() + 1,
            r.entries@.drop_last() == self.entries@,
            r.entries@.last().0@ == "window-style"@,
            r.entries@.last().1 == Avail::Since(Version { major: 3, minor: 0 }),
    {
        self.option(WINDOW_STYLE, Avail::Since(Version::new(3, 0)))
    }

    /// tmux ^3.2: `synchronize-panes [on | off]`
    pub fn synchronize_panes(self) -> (r: GetPaneOptions)
        ensures
            r.entries@.len() == self.entries@.len() + 1,
            r.entries@.drop_last() == self.entries@,
            r.entries@.last().0@ == "synchronize-panes"@,
            r.entries@.last().1 == Avail::Since(Version { major: 3, minor: 2 }),
    {
        self.option(SYNCHRONIZE_PANES, Avail::Since(Version::new(3, 2)))
    }

    /// A user-defined option, its name behind the `@` marker.
    pub fn user_option(self, name: &str) -> (r: GetPaneOptions)
        ensures
            r.entries@.len() == self.entries@.len() + 1,
            r.entries@.drop_last() == self.entries@,
            r.entries@.last().0@ == "@"@ + name@,
            r.entries@.last().1 == Avail::Since(Version { major: 0, minor: 8 }),
    {
        let full = user_option_name(name);
        self.option(full.as_str(), Avail::Since(Version::new(0, 8)))
    }

    /// Builds one `show-options -p <name>` command per requested option
    /// whose availability window is open at the declared version, in
    /// requested order.
    pub fn build(&self, gate: &VersionGate) -> (r: TmuxCommands)
        ensures
            r.cmds@.len() == spec_avail_names(self.entries@, *gate).len(),
            forall|i: int|
                0 <= i < r.cmds@.len() ==> spec_tokens(#[trigger] r.cmds@[i]) == seq![
                    spec_subcmd(*gate, "show-options"@, "show"@),
                    "-p"@,
                    spec_avail_names(self.entries@, *gate)[i],
                ],
    {
        let mut cmds = TmuxCommands::new();
        let mut i: usize = 0;
        proof {
            assert(self.entries@.subrange(0, 0) =~= Seq::<(String, Avail)>::empty());
        }
        while i < self.entries.len()
            invariant
                0 <= i <= self.entries@.len(),
                cmds.cmds@.len() == spec_avail_names(
                    self.entries@.subrange(0, i as int),
                    *gate,
                ).len(),
                forall|k: int|
                    0 <= k < cmds.cmds@.len() ==> spec_tokens(#[trigger] cmds.cmds@[k]) == seq![
                        spec_subcmd(*gate, "show-options"@, "show"@),
                        "-p"@,
                        spec_avail_names(self.entries@.subrange(0, i as int), *gate)[k],
                    ],
            decreases self.entries@.len() - i,
        {
            let ghost pre = self.entries@.subrange(0, i as int);
            let ghost now = self.entries@.subrange(0, (i + 1) as int);
            proof {
                assert(now.drop_last() =~= pre);
                assert(now.last() == self.entries@[i as int]);
            }
            let entry = &self.entries[i];
            if gate.available(&entry.1) {
                let cmd = ShowOptions::new().pane().option(entry.0.as_str()).build(gate);
                proof {
                    assert(spec_tokens(cmd) =~= seq![
                        spec_subcmd(*gate, "show-options"@, "show"@),
                        "-p"@,
                        self.entries@[i as int].0@,
                    ]);
                    assert(spec_avail_names(now, *gate) == spec_avail_names(pre, *gate) + seq![
                        self.entries@[i as int].0@,
                    ]);
                }
                cmds.push(cmd);
            } else {
                proof {
                    assert(spec_avail_names(now, *gate) =~= spec_avail_names(pre, *gate));
                }
            }
            i = i + 1;
        }
        proof {
            assert(self.entries@.subrange(0, self.entries@.len() as int) =~= self.entries@);
        }
        cmds
    }
}

} // verus!
