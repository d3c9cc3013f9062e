//! A worked instance of the derivation: the record type `Command` and the
//! companion builder a derivation for it describes, written out and verified.
//!
//! `Command` has three mandatory fields (`executable`, `args`, `env`) and one
//! optional field (`current_dir`, declared with the optional wrapper). Its
//! builder holds one optionally-typed slot per field, overwrites a slot on
//! every setter call, and validates the three mandatory slots at build time,
//! reporting the first missing one in declaration order.

use vstd::prelude::*;
use vstd::string::StringExecFns;
use crate::runtime::BuildError;
use crate::type_expr::clone_strings;

verus! {

/// A record type with three mandatory fields and one optional field.
#[derive(Debug)]
pub struct Command {
    pub executable: String,
    pub args: Vec<String>,
    pub env: Vec<String>,
    pub current_dir: Option<String>,
}

/// The builder companion of `Command`: one optionally-typed slot per field,
/// irrespective of the field's own classification.
#[derive(Debug)]
pub struct CommandBuilder {
    pub executable: Option<String>,
    pub args: Option<Vec<String>>,
    pub env: Option<Vec<String>>,
    pub current_dir: Option<Option<String>>,
}

impl Command {
    /// A fresh, empty builder: every slot unpopulated.
    pub fn builder() -> (b: CommandBuilder)
        ensures
            b.executable is None,
            b.args is None,
            b.env is None,
            b.current_dir is None,
    {
        CommandBuilder {
            executable: Option::None,
            args: Option::None,
            env: Option::None,
            current_dir: Option::None,
        }
    }
}

impl CommandBuilder {
    /// Every mandatory slot is populated: the condition under which `build`
    /// succeeds.
    pub open spec fn complete(self) -> bool {
        &&& self.executable is Some
        &&& self.args is Some
        &&& self.env is Some
    }

    /// Stores the executable and returns the builder for chaining.
    pub fn executable(self, val: String) -> (r: Self)
        ensures
            r == (CommandBuilder { executable: Option::Some(val), ..self }),
    {
        CommandBuilder { executable: Option::Some(val), ..self }
    }

    /// Stores the argument list and returns the builder for chaining.
    pub fn args(self, val: Vec<String>) -> (r: Self)
        ensures
            r == (CommandBuilder { args: Option::Some(val), ..self }),
    {
        CommandBuilder { args: Option::Some(val), ..self }
    }

    /// Stores the environment list and returns the builder for chaining.
    pub fn env(self, val: Vec<String>) -> (r: Self)
        ensures
            r == (CommandBuilder { env: Option::Some(val), ..self }),
    {
        CommandBuilder { env: Option::Some(val), ..self }
    }

    /// Stores the working directory (the one optional field; the setter takes
    /// the wrapped payload type) and returns the builder for chaining.
    pub fn current_dir(self, val: String) -> (r: Self)
        ensures
            r == (CommandBuilder { current_dir: Option::Some(Option::Some(val)), ..self }),
    {
        CommandBuilder { current_dir: Option::Some(Option::Some(val)), ..self }
    }

    /// Validates that every mandatory slot is populated and assembles the
    /// record, cloning the slots, so the builder stays usable whatever the
    /// outcome. Succeeds exactly when `executable`, `args` and `env` are all
    /// set; on failure the error names the first missing mandatory field in
    /// declaration order. The optional `current_dir` is taken as the slot
    /// stands: absent when never set.
    pub fn build(&self) -> (r: Result<Command, BuildError>)
        ensures
            r is Ok <==> self.complete(),
            match r {
                Ok(c) => {
                    &&& self.executable matches Option::Some(e) && c.executable == e
                    &&& self.args matches Option::Some(a) && c.args@ == a@
                    &&& self.env matches Option::Some(v) && c.env@ == v@
                    &&& c.current_dir == (match self.current_dir {
                        Option::Some(d) => d,
                        Option::None => Option::<String>::None,
                    })
                },
                Err(e) => {
                    &&& (self.executable is None ==> e.field@ == "executable"@)
                    &&& (self.executable is Some && self.args is None ==> e.field@ == "args"@)
                    &&& (self.executable is Some && self.args is Some && self.env is None
                        ==> e.field@ == "env"@)
                },
            },
    {
        let executable = match &self.executable {
            Option::Some(e) => e.clone(),
            Option::None => {
                return Err(BuildError { field: String::from_str("executable") });
            }
        };
        let args = match &self.args {
            Option::Some(a) => clone_strings(a),
            Option::None => {
                return Err(BuildError { field: String::from_str("args") });
            }
        };
        let env = match &self.env {
            Option::Some(v) => clone_strings(v),
            Option::None => {
                return Err(BuildError { field: String::from_str("env") });
            }
        };
        let current_dir = match &self.current_dir {
            Option::Some(Option::Some(d)) => Option::Some(d.clone()),
            Option::Some(Option::None) => Option::None,
            Option::None => Option::None,
        };
        Ok(Command { executable, args, env, current_dir })
    }
}

} // verus!
