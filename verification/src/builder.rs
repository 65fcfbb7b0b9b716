//! Putting a command description together, step by step.
use vstd::prelude::*;
use vstd::string::*;
use crate::command::{env_pairs, CommandModel, XCommand};
use crate::env_var::EnvVar;
use crate::error::XError;
use crate::text::{
    all_nul_free, is_nul_free, nul_free, pairs_nul_free, pairs_of, slice_texts, texts,
};

verus! {

/// A command description in the making.
#[derive(Debug)]
pub struct XCommandBuilder {
    command: String,
    args: Vec<String>,
    env: Vec<EnvVar>,
}

impl View for XCommandBuilder {
    type V = CommandModel;

    closed spec fn view(&self) -> CommandModel {
        CommandModel {
            executable: self.command@,
            args: texts(self.args@),
            env: env_pairs(self.env@),
        }
    }
}

/// Adds the given pairs to the variables, in their order, or refuses all of
/// them when one holds the terminator.
fn extend_env(env: Vec<EnvVar>, vars: &Vec<(String, String)>) -> (r: Result<Vec<EnvVar>, XError>)
    ensures
        r is Ok <==> pairs_nul_free(pairs_of(vars@)),
        r is Ok ==> env_pairs(r->Ok_0@) == env_pairs(env@) + pairs_of(vars@),
        r is Err ==> r->Err_0 == XError::InvalidString,
{
    let ghost before = env_pairs(env@);
    let mut env = env;
    let mut i: usize = 0;
    while i < vars.len()
        invariant
            i <= vars@.len(),
            env_pairs(env@) == before + pairs_of(vars@).subrange(0, i as int),
            forall|j: int|
                0 <= j < i ==> nul_free((#[trigger] pairs_of(vars@)[j]).0) && nul_free(
                    pairs_of(vars@)[j].1,
                ),
        decreases vars@.len() - i,
    {
        let ghost held = env_pairs(env@);
        match EnvVar::from_str_pair(vars[i].0.as_str(), vars[i].1.as_str()) {
            Ok(var) => {
                env.push(var);
                proof {
                    assert(pairs_of(vars@)[i as int] == var.pair());
                    assert(env_pairs(env@) =~= held.push(var.pair()));
                    assert(pairs_of(vars@).subrange(0, i + 1) =~= pairs_of(vars@).subrange(
                        0,
                        i as int,
                    ).push(var.pair()));
                    assert(env_pairs(env@) =~= before + pairs_of(vars@).subrange(0, i + 1));
                }
            },
            Err(_) => {
                proof {
                    let p = pairs_of(vars@)[i as int];
                    assert(!(nul_free(p.0) && nul_free(p.1)));
                }
                return Err(XError::InvalidString);
            },
        }
        i += 1;
    }
    proof {
        assert(pairs_of(vars@).subrange(0, i as int) =~= pairs_of(vars@));
    }
    Ok(env)
}

impl XCommandBuilder {
    /// Every text held so far is valid.
    pub open spec fn wf(&self) -> bool {
        self@.valid()
    }

    /// What starting from an inherited environment gives: a description with
    /// no arguments and one variable for each inherited pair, in their
    /// order, exactly when every inherited key and value is valid.
    pub open spec fn inherits(
        command: Seq<char>,
        inherited: Seq<(String, String)>,
        r: Result<XCommandBuilder, XError>,
    ) -> bool {
        &&& r is Ok <==> pairs_nul_free(pairs_of(inherited))
        &&& r is Ok ==> r->Ok_0.wf() && r->Ok_0@ == (CommandModel {
            executable: command,
            args: Seq::empty(),
            env: pairs_of(inherited),
        })
        &&& r is Err ==> r->Err_0 == XError::InvalidString
    }

    /// Starts a description of running `command` in a copy of the given
    /// environment, which the caller has read from the launching process.
    pub fn new(command: &str, inherited: &Vec<(String, String)>) -> (r: Result<Self, XError>)
        requires
            nul_free(command@),
        ensures
            Self::inherits(command@, inherited@, r),
    {
        Self::inherit_environment(command, inherited)
    }

    /// Starts a description of running `command` in a copy of the given
    /// environment, which the caller has read from the launching process.
    pub fn inherit_environment(command: &str, inherited: &Vec<(String, String)>) -> (r: Result<
        Self,
        XError,
    >)
        requires
            nul_free(command@),
        ensures
            Self::inherits(command@, inherited@, r),
    {
        match extend_env(Vec::new(), inherited) {
            Ok(env) => {
                let built = XCommandBuilder { command: command.to_owned(), args: Vec::new(), env };
                proof {
                    assert(built@.args =~= Seq::empty());
                    assert(built@.env =~= pairs_of(inherited@));
                }
                Ok(built)
            },
            Err(e) => Err(e),
        }
    }

    /// Starts a description of running `command` in an empty environment.
    pub fn clean_environment(command: &str) -> (r: Self)
        requires
            nul_free(command@),
        ensures
            r.wf(),
            r@ == (CommandModel { executable: command@, args: Seq::empty(), env: Seq::empty() }),
    {
        let built = XCommandBuilder {
            command: command.to_owned(),
            args: Vec::new(),
            env: Vec::new(),
        };
        proof {
            assert(built@.args =~= Seq::empty());
            assert(built@.env =~= Seq::empty());
        }
        built
    }

    /// Adds one argument after those already there, or refuses it when it
    /// holds the terminator.
    pub fn arg(self, arg: &str) -> (r: Result<Self, XError>)
        ensures
            r is Ok <==> nul_free(arg@),
            r is Ok ==> r->Ok_0@ == (CommandModel { args: self@.args.push(arg@), ..self@ }),
            r is Ok && self.wf() ==> r->Ok_0.wf(),
            r is Err ==> r->Err_0 == XError::InvalidString,
    {
        if !is_nul_free(arg) {
            return Err(XError::InvalidString);
        }
        let XCommandBuilder { command, mut args, env } = self;
        args.push(arg.to_owned());
        let built = XCommandBuilder { command, args, env };
        proof {
            assert(built@.args =~= self@.args.push(arg@));
        }
        Ok(built)
    }

    /// Puts the given arguments in the place of those already there, or
    /// refuses all of them when one holds the terminator.
    pub fn args(self, args: &[&str]) -> (r: Result<Self, XError>)
        ensures
            r is Ok <==> all_nul_free(slice_texts(args@)),
            r is Ok ==> r->Ok_0@ == (CommandModel { args: slice_texts(args@), ..self@ }),
            r is Ok && self.wf() ==> r->Ok_0.wf(),
            r is Err ==> r->Err_0 == XError::InvalidString,
    {
        let mut owned: Vec<String> = Vec::new();
        let mut i: usize = 0;
        while i < args.len()
            invariant
                i <= args@.len(),
                owned@.len() == i,
                forall|j: int| 0 <= j < i ==> (#[trigger] owned@[j])@ == args@[j]@,
                forall|j: int| 0 <= j < i ==> nul_free(#[trigger] slice_texts(args@)[j]),
            decreases args@.len() - i,
        {
            let a: &str = args[i];
            if !is_nul_free(a) {
                proof {
                    assert(!nul_free(slice_texts(args@)[i as int]));
                }
                return Err(XError::InvalidString);
            }
            owned.push(a.to_owned());
            i += 1;
        }
        let XCommandBuilder { command, args: _, env } = self;
        let built = XCommandBuilder { command, args: owned, env };
        proof {
            assert(built@.args =~= slice_texts(args@));
        }
        Ok(built)
    }

    /// Adds the given variables after those already there, in their order and
    /// without looking for keys that are there already, or refuses all of
    /// them when one holds the terminator.
    pub fn env(self, vars: &Vec<(String, String)>) -> (r: Result<Self, XError>)
        ensures
            r is Ok <==> pairs_nul_free(pairs_of(vars@)),
            r is Ok ==> r->Ok_0@ == (CommandModel { env: self@.env + pairs_of(vars@), ..self@ }),
            r is Ok && self.wf() ==> r->Ok_0.wf(),
            r is Err ==> r->Err_0 == XError::InvalidString,
    {
        let XCommandBuilder { command, args, env } = self;
        match extend_env(env, vars) {
            Ok(env) => Ok(XCommandBuilder { command, args, env }),
            Err(e) => Err(e),
        }
    }

    /// Adds one variable after those already there, or refuses it when its
    /// key or its value holds the terminator.
    pub fn var(self, key: &str, value: &str) -> (r: Result<Self, XError>)
        ensures
            r is Ok <==> nul_free(key@) && nul_free(value@),
            r is Ok ==> r->Ok_0@ == (CommandModel { env: self@.env.push((key@, value@)), ..self@ }),
            r is Ok && self.wf() ==> r->Ok_0.wf(),
            r is Err ==> r->Err_0 == XError::InvalidString,
    {
        match EnvVar::from_str_pair(key, value) {
            Ok(var) => {
                let XCommandBuilder { command, args, mut env } = self;
                env.push(var);
                let built = XCommandBuilder { command, args, env };
                proof {
                    assert(built@.env =~= self@.env.push((key@, value@)));
                }
                Ok(built)
            },
            Err(e) => Err(e),
        }
    }

    /// Closes the description.
    pub fn build(self) -> (r: XCommand)
        ensures
            r@ == self@,
            r.wf() == self.wf(),
    {
        let XCommandBuilder { command, args, env } = self;
        let built = XCommand::new(command, args, env);
        proof {
            assert(built@ =~= self@);
        }
        built
    }
}

} // verus!
