//! The session option scope: composing get and set commands for the local
//! session options, and decoding the raw answers the caller feeds back.
//!
//! Get operations return the command to run, never the value: the caller
//! invokes the tool itself and hands the output text to the decoders here.

use vstd::prelude::*;

use crate::command::TmuxCommand;
use crate::command::spec_tokens;
use crate::options::SetOption;
use crate::options::ShowOptions;
use crate::strutil::lines_of;
use crate::strutil::seq_strs;
use crate::strutil::spec_lines;
use crate::strutil::spec_trim;
use crate::strutil::trim_str;
use crate::strutil::view_opt_str;
use crate::version::VersionGate;

verus! {

/// Composes get and set commands over the local session options of one
/// optional target session, and decodes their raw answers.
#[derive(Debug, Clone)]
pub struct LocalSessionOptionsCtl {
    /// The target session, if any.
    pub target: Option<String>,
}

/// The tokens of the command showing one local session option of this
/// target.
pub open spec fn spec_session_get(target: Option<Seq<char>>, name: Seq<char>) -> Seq<Seq<char>> {
    seq!["show-options"@] + (match target {
        Some(t) => seq!["-t"@, t],
        None => Seq::<Seq<char>>::empty(),
    }) + seq![name]
}

/// The tokens of the command setting one local session option of this
/// target.
pub open spec fn spec_session_set(
    target: Option<Seq<char>>,
    name: Seq<char>,
    value: Seq<char>,
) -> Seq<Seq<char>> {
    seq!["set-option"@] + (match target {
        Some(t) => seq!["-t"@, t],
        None => Seq::<Seq<char>>::empty(),
    }) + seq![name, value]
}

/// The view of the held target.
pub open spec fn spec_target(c: LocalSessionOptionsCtl) -> Option<Seq<char>> {
    match c.target {
        Some(t) => Some(t@),
        None => None,
    }
}

impl Default for LocalSessionOptionsCtl {
    /// A controller over the current session, with no explicit target.
    fn default() -> (r: LocalSessionOptionsCtl)
        ensures
            spec_target(r) is None,
    {
        LocalSessionOptionsCtl { target: None }
    }
}

impl LocalSessionOptionsCtl {
    /// A controller over the local session options of the given target, or
    /// of the current session when none is given.
    pub fn new(target: Option<&str>) -> (r: LocalSessionOptionsCtl)
        ensures
            spec_target(r) == view_opt_str(target),
    {
        match target {
            Some(t) => LocalSessionOptionsCtl { target: Some(String::from_str(t)) },
            None => LocalSessionOptionsCtl { target: None },
        }
    }

    /// The command showing every global session option:
    /// `show-options -g`.  The caller runs it and feeds the output back to
    /// a decoder.
    pub fn get_global_all(&self) -> (r: TmuxCommand)
        ensures
            spec_tokens(r) == seq!["show-options"@, "-g"@],
            r.bin@ == "tmux"@,
            r.bin_args@.len() == 0,
    {
        // only the alias preference matters here, and the canonical long
        // name is wanted
        let gate = VersionGate::new(3, 3);
        let r = ShowOptions::new().global().build(&gate);
        proof {
            assert(spec_tokens(r) =~= seq!["show-options"@, "-g"@]);
        }
        r
    }

    /// The command showing every local session option: `show-options`.
    pub fn get_local_all(&self) -> (r: TmuxCommand)
        ensures
            spec_tokens(r) == seq!["show-options"@],
            r.bin@ == "tmux"@,
            r.bin_args@.len() == 0,
    {
        // only the alias preference matters here, and the canonical long
        // name is wanted
        let gate = VersionGate::new(3, 3);
        let r = ShowOptions::new().build(&gate);
        proof {
            assert(spec_tokens(r) =~= seq!["show-options"@]);
        }
        r
    }

    /// The command showing one option: `show-options [-t target] name`.
    /// The caller runs it and feeds the output to a decoder such as
    /// [`LocalSessionOptionsCtl::get_array`].
    pub fn get(&self, name: &str) -> (r: TmuxCommand)
        ensures
            spec_tokens(r) == spec_session_get(spec_target(*self), name@),
            r.bin@ == "tmux"@,
            r.bin_args@.len() == 0,
    {
        // only the alias preference matters here, and the canonical long
        // name is wanted
        let gate = VersionGate::new(3, 3);
        let mut b = ShowOptions::new().option(name);
        if let Some(t) = &self.target {
            b = b.target(t.as_str());
        }
        let r = b.build(&gate);
        proof {
            assert(spec_tokens(r) =~= spec_session_get(spec_target(*self), name@));
        }
        r
    }

    /// The command setting one option: `set-option [-t target] name value`.
    pub fn set(&self, name: &str, value: &str) -> (r: TmuxCommand)
        ensures
            spec_tokens(r) == spec_session_set(spec_target(*self), name@, value@),
            r.bin@ == "tmux"@,
            r.bin_args@.len() == 0,
    {
        // only the alias preference matters here, and the canonical long
        // name is wanted
        let gate = VersionGate::new(3, 3);
        let mut b = SetOption::new().option(name).value(value);
        if let Some(t) = &self.target {
            b = b.target(t.as_str());
        }
        let r = b.build(&gate);
        proof {
            assert(spec_tokens(r) =~= spec_session_set(spec_target(*self), name@, value@));
        }
        r
    }

    /// Decodes the raw answer of an array-option query: one element per
    /// line, each trimmed of surrounding blanks; nothing when the output has
    /// no lines at all.
    pub fn get_array(&self, output: &str) -> (r: Option<Vec<String>>)
        ensures
            spec_lines(output@).len() == 0 ==> r is None,
            spec_lines(output@).len() > 0 ==> (r matches Some(v) && v@.len() == spec_lines(
                output@,
            ).len() && (forall|i: int|
                0 <= i < v@.len() ==> (#[trigger] v@[i])@ == spec_trim(spec_lines(output@)[i]))),
    {
        let lines = lines_of(output);
        if lines.len() == 0 {
            return None;
        }
        let mut v: Vec<String> = Vec::new();
        let mut i: usize = 0;
        while i < lines.len()
            invariant
                0 <= i <= lines@.len(),
                seq_strs(lines@) == spec_lines(output@),
                v@.len() == i,
                forall|k: int|
                    0 <= k < i ==> (#[trigger] v@[k])@ == spec_trim(spec_lines(output@)[k]),
            decreases lines@.len() - i,
        {
            let t = trim_str(lines[i].as_str());
            v.push(t);
            i = i + 1;
        }
        Some(v)
    }
}

} // verus!
