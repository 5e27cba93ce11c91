//! The command model: an ordered argument vector for one tmux subcommand,
//! and a list of such commands run in one go.
//!
//! A command is data only; nothing here spawns a process.  The caller takes
//! the tokens of [`TmuxCommand::to_vec`] and hands them to the binary named
//! by `bin`.  Token order is part of the contract: flags that take a value
//! are always emitted as adjacent `flag, value` pairs, in the order the
//! builders pushed them.

use vstd::prelude::*;

use crate::strutil::join;
use crate::strutil::seq_strs;
use crate::strutil::spec_join;
use crate::strutil::lemma_seq_strs_push;

verus! {

/// One tmux subcommand invocation: the binary name, arguments to the binary
/// itself, the subcommand token, and the subcommand's arguments in order.
#[derive(Debug, Clone)]
pub struct TmuxCommand {
    /// The target binary.
    pub bin: String,
    /// Arguments passed to the binary before the subcommand.
    pub bin_args: Vec<String>,
    /// The subcommand token, alias or canonical, if chosen yet.
    pub cmd: Option<String>,
    /// The subcommand's arguments, in emission order.
    pub args: Vec<String>,
}

/// The token views of a command: the subcommand token, if any, followed by
/// the argument tokens.
pub open spec fn spec_tokens(c: TmuxCommand) -> Seq<Seq<char>> {
    match c.cmd {
        Some(name) => seq![name@] + seq_strs(c.args@),
        None => seq_strs(c.args@),
    }
}

/// The display text of a command: its tokens joined by single spaces.
pub open spec fn spec_cmd_text(c: TmuxCommand) -> Seq<char> {
    spec_join(spec_tokens(c), seq![' '])
}

impl TmuxCommand {
    /// An empty command for the `tmux` binary.
    pub fn new() -> (r: TmuxCommand)
        ensures
            r.bin@ == "tmux"@,
            r.bin_args@.len() == 0,
            r.cmd is None,
            r.args@.len() == 0,
    {
        TmuxCommand {
            bin: String::from_str("tmux"),
            bin_args: Vec::new(),
            cmd: None,
            args: Vec::new(),
        }
    }

    /// Sets the subcommand token.
    pub fn name(&mut self, name: &str)
        ensures
            final(self).cmd matches Some(c) && c@ == name@,
            final(self).bin == old(self).bin,
            final(self).bin_args == old(self).bin_args,
            final(self).args == old(self).args,
    {
        self.cmd = Some(String::from_str(name));
    }

    /// Appends one boolean flag token.
    pub fn push_flag(&mut self, flag: &str)
        ensures
            seq_strs(final(self).args@) == seq_strs(old(self).args@).push(flag@),
            final(self).bin == old(self).bin,
            final(self).bin_args == old(self).bin_args,
            final(self).cmd == old(self).cmd,
    {
        let s = String::from_str(flag);
        proof {
            lemma_seq_strs_push(self.args@, s);
        }
        self.args.push(s);
    }

    /// Appends a value-flag as an adjacent `flag, value` pair.
    pub fn push_option(&mut self, key: &str, value: &str)
        ensures
            seq_strs(final(self).args@) == seq_strs(old(self).args@) + seq![key@, value@],
            final(self).bin == old(self).bin,
            final(self).bin_args == old(self).bin_args,
            final(self).cmd == old(self).cmd,
    {
        let k = String::from_str(key);
        proof {
            lemma_seq_strs_push(self.args@, k);
        }
        self.args.push(k);
        let v = String::from_str(value);
        proof {
            lemma_seq_strs_push(self.args@, v);
            assert(seq_strs(old(self).args@).push(key@).push(value@) =~= seq_strs(
                old(self).args@,
            ) + seq![key@, value@]);
        }
        self.args.push(v);
    }

    /// Appends one positional parameter token.
    pub fn push_param(&mut self, param: &str)
        ensures
            seq_strs(final(self).args@) == seq_strs(old(self).args@).push(param@),
            final(self).bin == old(self).bin,
            final(self).bin_args == old(self).bin_args,
            final(self).cmd == old(self).cmd,
    {
        let s = String::from_str(param);
        proof {
            lemma_seq_strs_push(self.args@, s);
        }
        self.args.push(s);
    }

    /// The full token vector: the subcommand token, then the arguments.
    pub fn to_vec(&self) -> (r: Vec<String>)
        ensures
            seq_strs(r@) == spec_tokens(*self),
    {
        let mut out: Vec<String> = Vec::new();
        let ghost head = match &self.cmd {
            Some(name) => seq![name@],
            None => Seq::<Seq<char>>::empty(),
        };
        match &self.cmd {
            Some(name) => {
                let n = name.clone();
                proof {
                    lemma_seq_strs_push(out@, n);
                    assert(seq_strs(out@).push(n@) =~= head);
                }
                out.push(n);
            },
            None => {
                proof {
                    assert(seq_strs(out@) =~= head);
                }
            },
        }
        let mut i: usize = 0;
        while i < self.args.len()
            invariant
                0 <= i <= self.args@.len(),
                seq_strs(out@) == head + seq_strs(self.args@).subrange(0, i as int),
            decreases self.args@.len() - i,
        {
            let a = (&self.args[i]).clone();
            proof {
                lemma_seq_strs_push(out@, a);
                assert((head + seq_strs(self.args@).subrange(0, i as int)).push(a@) =~= head
                    + seq_strs(self.args@).subrange(0, (i + 1) as int));
            }
            out.push(a);
            i = i + 1;
        }
        proof {
            assert(head + seq_strs(self.args@).subrange(0, self.args@.len() as int) =~= spec_tokens(
                *self,
            ));
        }
        out
    }

    /// The display text: the tokens joined by single spaces.
    pub fn to_text(&self) -> (r: String)
        ensures
            r@ == spec_cmd_text(*self),
    {
        let toks = self.to_vec();
        proof {
            reveal_strlit(" ");
            assert(" "@ =~= seq![' ']);
        }
        join(&toks, " ")
    }
}

/// The display texts of a command list.
pub open spec fn spec_cmd_texts(cs: Seq<TmuxCommand>) -> Seq<Seq<char>> {
    Seq::new(cs.len(), |i: int| spec_cmd_text(cs[i]))
}

/// An ordered list of commands, displayed joined by `" ; "` as the tmux
/// command line accepts them.
#[derive(Debug)]
pub struct TmuxCommands {
    pub cmds: Vec<TmuxCommand>,
}

impl TmuxCommands {
    pub fn new() -> (r: TmuxCommands)
        ensures
            r.cmds@.len() == 0,
    {
        TmuxCommands { cmds: Vec::new() }
    }

    pub fn push(&mut self, cmd: TmuxCommand)
        ensures
            final(self).cmds@ == old(self).cmds@.push(cmd),
    {
        self.cmds.push(cmd);
    }

    /// The display text of the list: each command's text, joined by `" ; "`.
    pub fn to_text(&self) -> (r: String)
        ensures
            r@ == spec_join(spec_cmd_texts(self.cmds@), seq![' ', ';', ' ']),
    {
        let mut texts: Vec<String> = Vec::new();
        let mut i: usize = 0;
        while i < self.cmds.len()
            invariant
                0 <= i <= self.cmds@.len(),
                seq_strs(texts@) == spec_cmd_texts(self.cmds@).subrange(0, i as int),
            decreases self.cmds@.len() - i,
        {
            let t = (&self.cmds[i]).to_text();
            proof {
                lemma_seq_strs_push(texts@, t);
                assert(spec_cmd_texts(self.cmds@).subrange(0, i as int).push(t@)
                    =~= spec_cmd_texts(self.cmds@).subrange(0, (i + 1) as int));
            }
            texts.push(t);
            i = i + 1;
        }
        proof {
            assert(spec_cmd_texts(self.cmds@).subrange(0, self.cmds@.len() as int)
                =~= spec_cmd_texts(self.cmds@));
            reveal_strlit(" ; ");
            assert(" ; "@ =~= seq![' ', ';', ' ']);
        }
        join(&texts, " ; ")
    }
}

} // verus!
