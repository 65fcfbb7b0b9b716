//! The description of what to run, and the order of the steps that launch it.
use vstd::prelude::*;
use vstd::string::*;
use crate::builder::XCommandBuilder;
use crate::env_var::{entry_text, EnvVar};
use crate::error::XError;
use crate::launch::{launch_action, launch_next, launch_step, LaunchAction, LaunchEvent, LaunchState};
use crate::text::{all_nul_free, nul_free, pairs_nul_free, texts};

verus! {

/// What a command description holds, as texts.
pub struct CommandModel {
    pub executable: Seq<char>,
    pub args: Seq<Seq<char>>,
    pub env: Seq<(Seq<char>, Seq<char>)>,
}

impl CommandModel {
    /// Every text of the description is valid.
    pub open spec fn valid(self) -> bool {
        &&& nul_free(self.executable)
        &&& all_nul_free(self.args)
        &&& pairs_nul_free(self.env)
    }

    /// The argument vector of the new process image: the executable first,
    /// then the arguments in their order.
    pub open spec fn argv(self) -> Seq<Seq<char>> {
        seq![self.executable] + self.args
    }

    /// The environment of the new process image: one `key=value` text for
    /// each variable, in their order, with nothing merged or left out.
    pub open spec fn envp(self) -> Seq<Seq<char>> {
        Seq::new(self.env.len(), |i: int| entry_text(self.env[i].0, self.env[i].1))
    }
}

/// The key and value texts of a sequence of variables.
pub open spec fn env_pairs(v: Seq<EnvVar>) -> Seq<(Seq<char>, Seq<char>)> {
    Seq::new(v.len(), |i: int| v[i].pair())
}

/// What a process-replacement call is handed.
#[derive(Debug)]
pub struct ExecImage {
    pub path: String,
    pub argv: Vec<String>,
    pub envp: Vec<String>,
}

/// One step of a launch: the state it leads to, what to do next, and, with
/// the order to fork, the process image that the child will put in its place.
#[derive(Debug)]
pub struct LaunchStep {
    pub next: LaunchState,
    pub action: LaunchAction,
    pub image: Option<ExecImage>,
}

/// A description of what to run: the executable, its arguments and its
/// environment. It does not change once made.
#[derive(Debug)]
pub struct XCommand {
    command: String,
    args: Vec<String>,
    env: Vec<EnvVar>,
}

impl View for XCommand {
    type V = CommandModel;

    closed spec fn view(&self) -> CommandModel {
        CommandModel {
            executable: self.command@,
            args: texts(self.args@),
            env: env_pairs(self.env@),
        }
    }
}

impl XCommand {
    /// Every text of the description is valid.
    pub open spec fn wf(&self) -> bool {
        self@.valid()
    }

    /// Makes a description of its three parts.
    pub fn new(command: String, args: Vec<String>, env: Vec<EnvVar>) -> (r: Self)
        ensures
            r@.executable == command@,
            r@.args == texts(args@),
            r@.env == env_pairs(env@),
    {
        XCommand { command, args, env }
    }

    /// Starts a description of running `command` in a copy of the given
    /// environment.
    pub fn builder(command: &str, inherited: &Vec<(String, String)>) -> (r: Result<
        XCommandBuilder,
        XError,
    >)
        requires
            nul_free(command@),
        ensures
            XCommandBuilder::inherits(command@, inherited@, r),
    {
        XCommandBuilder::new(command, inherited)
    }

    /// The executable.
    pub fn executable(&self) -> (r: &str)
        ensures
            r@ == self@.executable,
    {
        self.command.as_str()
    }

    /// The number of arguments.
    pub fn arg_count(&self) -> (r: usize)
        ensures
            r == self@.args.len(),
    {
        self.args.len()
    }

    /// The argument at an index.
    pub fn arg_at(&self, i: usize) -> (r: &str)
        requires
            i < self@.args.len(),
        ensures
            r@ == self@.args[i as int],
    {
        self.args[i].as_str()
    }

    /// The number of variables.
    pub fn env_count(&self) -> (r: usize)
        ensures
            r == self@.env.len(),
    {
        self.env.len()
    }

    /// The variable at an index.
    pub fn env_at(&self, i: usize) -> (r: &EnvVar)
        requires
            i < self@.env.len(),
        ensures
            r.pair() == self@.env[i as int],
    {
        &self.env[i]
    }

    /// One step of launching this command. The caller starts in
    /// [`LaunchState::Start`] with [`LaunchEvent::Begin`], performs each
    /// action and reports its outcome with the state that it was given.
    ///
    /// The launching process ends on [`LaunchAction::Adopt`], which holds
    /// what the child's handle is made of, or on [`LaunchAction::Abort`],
    /// after which no process exists. The child never comes back: it is told
    /// to replace its process image, and to exit where that fails.
    ///
    /// The new process image comes with the order to fork, so that it is
    /// made ready before the fork: between the fork and the replacement the
    /// child may only close and duplicate descriptors.
    pub fn spawn(&self, state: LaunchState, event: LaunchEvent) -> (r: LaunchStep)
        ensures
            r.next == launch_next(state, event),
            r.action == launch_action(state, event),
            r.image is Some <==> r.action is Fork,
            r.image is Some ==> {
                &&& r.image->Some_0.path@ == self@.executable
                &&& r.image->Some_0.argv@.len() == self@.args.len() + 1
                &&& r.image->Some_0.envp@.len() == self@.env.len()
                &&& texts(r.image->Some_0.argv@) == self@.argv()
                &&& texts(r.image->Some_0.envp@) == self@.envp()
                &&& self.wf() ==> nul_free(r.image->Some_0.path@) && all_nul_free(
                    texts(r.image->Some_0.argv@),
                ) && all_nul_free(texts(r.image->Some_0.envp@))
            },
    {
        let (next, action) = launch_step(state, event);
        let image: Option<ExecImage> = match action {
            LaunchAction::Fork => Some(self.exec()),
            _ => None,
        };
        LaunchStep { next, action, image }
    }

    /// What the child hands to the process-replacement call: the executable's
    /// path, the argument vector with the path in front, and each variable as
    /// `key=value`.
    pub fn exec(&self) -> (r: ExecImage)
        ensures
            r.path@ == self@.executable,
            r.argv@.len() == self@.args.len() + 1,
            r.envp@.len() == self@.env.len(),
            texts(r.argv@) == self@.argv(),
            texts(r.envp@) == self@.envp(),
            self.wf() ==> nul_free(r.path@) && all_nul_free(texts(r.argv@)) && all_nul_free(
                texts(r.envp@),
            ),
    {
        let mut argv: Vec<String> = Vec::new();
        argv.push(self.command.clone());
        let mut i: usize = 0;
        while i < self.args.len()
            invariant
                i <= self.args@.len(),
                argv@.len() == i + 1,
                argv@[0]@ == self.command@,
                forall|j: int| 0 <= j < i ==> (#[trigger] argv@[j + 1])@ == self.args@[j]@,
            decreases self.args@.len() - i,
        {
            argv.push(self.args[i].clone());
            i += 1;
        }
        let mut envp: Vec<String> = Vec::new();
        let mut k: usize = 0;
        while k < self.env.len()
            invariant
                k <= self.env@.len(),
                envp@.len() == k,
                forall|j: int|
                    0 <= j < k ==> (#[trigger] envp@[j])@ == entry_text(
                        self.env@[j].key_text(),
                        self.env@[j].value_text(),
                    ),
                forall|j: int| 0 <= j < k && self.env@[j].wf() ==> nul_free((#[trigger] envp@[j])@),
            decreases self.env@.len() - k,
        {
            envp.push(self.env[k].formatted());
            k += 1;
        }
        proof {
            assert(texts(argv@) =~= self@.argv()) by {
                assert forall|j: int| 0 <= j < argv@.len() implies texts(argv@)[j]
                    == self@.argv()[j] by {
                    if j > 0 {
                        assert(argv@[(j - 1) + 1]@ == self.args@[j - 1]@);
                    }
                }
            }
            assert(texts(envp@) =~= self@.envp());
            if self.wf() {
                assert forall|j: int| 0 <= j < envp@.len() implies nul_free(
                    #[trigger] texts(envp@)[j],
                ) by {
                    assert(nul_free(self@.env[j].0));
                    assert(self.env@[j].wf());
                }
                assert forall|j: int| 0 <= j < argv@.len() implies nul_free(
                    #[trigger] texts(argv@)[j],
                ) by {
                    if j > 0 {
                        assert(nul_free(self@.args[j - 1]));
                    }
                }
            }
        }
        ExecImage { path: self.command.clone(), argv, envp }
    }
}

/// A description with no variables gives the child an empty environment:
/// nothing of the launching process's environment reaches it.
pub proof fn lemma_clean_environment_is_empty(m: CommandModel)
    requires
        m.env.len() == 0,
    ensures
        m.envp() =~= Seq::empty(),
{
}

/// Every variable of a description reaches the child, as `key=value`, at
/// its own place: adding arguments or further variables takes none away and
/// moves none.
pub proof fn lemma_variables_survive(
    m: CommandModel,
    args: Seq<Seq<char>>,
    added: Seq<(Seq<char>, Seq<char>)>,
    i: int,
)
    requires
        0 <= i < m.env.len(),
    ensures
        (CommandModel { args, env: m.env + added, ..m }).envp().len() == m.env.len() + added.len(),
        (CommandModel { args, env: m.env + added, ..m }).envp()[i] == entry_text(
            m.env[i].0,
            m.env[i].1,
        ),
        (CommandModel { args, env: m.env + added, ..m }).envp()[i] == m.envp()[i],
{
}

/// The argument vector starts with the executable and goes on with the
/// arguments, one for one.
pub proof fn lemma_argv_shape(m: CommandModel, i: int)
    requires
        0 <= i < m.args.len(),
    ensures
        m.argv().len() == m.args.len() + 1,
        m.argv()[0] == m.executable,
        m.argv()[i + 1] == m.args[i],
{
}

} // verus!
