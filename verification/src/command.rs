//! The worked example: a record with one required field, two accumulating
//! fields and one optional field, together with the builder companion the
//! pipeline emits for it, written out and verified against the slot
//! semantics. It shows, on a concrete record, the behaviour every generated
//! builder has: a fluent zero-state builder, per-field setters, and a
//! validating constructor that fails exactly on a required field never set.

use vstd::prelude::*;
use crate::emit::spec_missing_msg;
use crate::slots::{push_value, read_accumulated, set_value, take_optional, take_required};

verus! {

/// The example record: `executable` is required, `args` and `env` accumulate
/// one element per call of `arg` and `env`, and `current_dir` may stay
/// absent.
#[derive(Debug, PartialEq)]
pub struct Command {
    pub executable: String,
    pub args: Vec<String>,
    pub env: Vec<String>,
    pub current_dir: Option<String>,
}

/// The builder companion, laid out as the generated artifact declares it: a
/// wrapped slot for each non-accumulating field, the container itself for
/// each accumulating one.
#[derive(Debug, PartialEq)]
pub struct CommandBuilder {
    pub executable: Option<String>,
    pub args: Vec<String>,
    pub env: Vec<String>,
    pub current_dir: Option<String>,
}

impl Command {
    /// The factory: a zero-state builder. Required and optional slots start
    /// absent, accumulating slots start empty.
    pub fn builder() -> (r: CommandBuilder)
        ensures
            r.executable is None,
            r.args@.len() == 0,
            r.env@.len() == 0,
            r.current_dir is None,
    {
        CommandBuilder { executable: None, args: Vec::new(), env: Vec::new(), current_dir: None }
    }
}

impl CommandBuilder {
    /// Setter for the required `executable` field: replaces the slot.
    pub fn executable(&mut self, x: String)
        ensures
            final(self).executable == Some(x),
            final(self).args == old(self).args,
            final(self).env == old(self).env,
            final(self).current_dir == old(self).current_dir,
    {
        set_value(&mut self.executable, x);
    }

    /// Per-element setter for the accumulating `args` field.
    pub fn arg(&mut self, x: String)
        ensures
            final(self).args@ == old(self).args@.push(x),
            final(self).executable == old(self).executable,
            final(self).env == old(self).env,
            final(self).current_dir == old(self).current_dir,
    {
        push_value(&mut self.args, x);
    }

    /// Per-element setter for the accumulating `env` field.
    pub fn env(&mut self, x: String)
        ensures
            final(self).env@ == old(self).env@.push(x),
            final(self).executable == old(self).executable,
            final(self).args == old(self).args,
            final(self).current_dir == old(self).current_dir,
    {
        push_value(&mut self.env, x);
    }

    /// Setter for the optional `current_dir` field: replaces the slot with
    /// the unwrapped value.
    pub fn current_dir(&mut self, x: String)
        ensures
            final(self).current_dir == Some(x),
            final(self).executable == old(self).executable,
            final(self).args == old(self).args,
            final(self).env == old(self).env,
    {
        set_value(&mut self.current_dir, x);
    }

    /// The validating constructor. When `executable` was never set, it fails
    /// with exactly `Field 'executable' not initialized.` and leaves the
    /// builder as it was, re-callable after filling the missing field. When
    /// it was set, it yields the record: the required value drained out of
    /// its slot, each accumulated container copied as is (empty is valid),
    /// and the optional slot's state passed through — absent stays silently
    /// absent.
    pub fn build(&mut self) -> (r: Result<Command, String>)
        ensures
            old(self).executable is None ==> (r matches Err(m) && m@ == spec_missing_msg(
                "executable"@,
            ) && *final(self) == *old(self)),
            old(self).executable matches Some(v) ==> (r matches Ok(c) && c.executable == v
                && c.args@ == old(self).args@ && c.env@ == old(self).env@ && c.current_dir == old(
                self,
            ).current_dir && final(self).executable is None && final(self).args == old(self).args
                && final(self).env == old(self).env && final(self).current_dir is None),
    {
        let executable = match take_required(&mut self.executable, "executable") {
            Ok(v) => v,
            Err(m) => {
                return Err(m);
            },
        };
        let args = read_accumulated(&self.args);
        let env = read_accumulated(&self.env);
        let current_dir = take_optional(&mut self.current_dir);
        Ok(Command { executable, args, env, current_dir })
    }
}

} // verus!
