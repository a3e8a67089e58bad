//! From the arguments of an invocation to the first step of the work.

use crate::failure::{Failure, FailureView, Missing};
use crate::scaffold::{FilePhase, FilePhaseView, FileStage, Step, StepView};
use vstd::prelude::*;
use vstd::string::*;

verus! {

/// An invocation: a command and what was given after it.
#[derive(Clone, Debug, PartialEq, Eq)]
pub struct Config {
    pub cmd: String,
    pub params: Vec<String>,
}

/// A `Config` with its texts as sequences of characters.
pub struct ConfigView {
    pub cmd: Seq<char>,
    pub params: Seq<Seq<char>>,
}

impl View for Config {
    type V = ConfigView;

    open spec fn view(&self) -> ConfigView {
        ConfigView { cmd: self.cmd@, params: self.params.deep_view() }
    }
}

/// The invocation that `args` make: the first is the command, the others
/// follow it unchanged. Without a first there is none.
pub open spec fn parsed(args: Seq<Seq<char>>) -> Result<ConfigView, FailureView> {
    if args.len() == 0 {
        Err(FailureView::Usage(Missing::Command))
    } else {
        Ok(ConfigView { cmd: args[0], params: args.skip(1) })
    }
}

/// The first step of creating the project that `params` begin with. Without
/// a name there is nothing to do but to say so.
pub open spec fn started(params: Seq<Seq<char>>) -> StepView {
    if params.len() == 0 {
        StepView::Finished(Err(FailureView::Usage(Missing::ProjectName)))
    } else {
        StepView::Files(FilePhaseView { name: params[0], stage: FileStage::ProjectDir })
    }
}

/// The first step of what `config` asks for. `start` is the one command.
pub open spec fn executed(config: ConfigView) -> StepView {
    if config.cmd == "start"@ {
        started(config.params)
    } else {
        StepView::Finished(Err(FailureView::UnknownCommand(config.cmd)))
    }
}

/// The first step of the run that `args` ask for.
pub open spec fn dispatched(args: Seq<Seq<char>>) -> StepView {
    match parsed(args) {
        Ok(config) => executed(config),
        Err(failure) => StepView::Finished(Err(failure)),
    }
}

impl Config {
    /// The invocation without a command and without parameters.
    pub fn new() -> (out: Config)
        ensures
            out@ == (ConfigView { cmd: Seq::empty(), params: Seq::empty() }),
    {
        let out = Config { cmd: String::new(), params: Vec::new() };
        assert(out.params.deep_view() =~= Seq::<Seq<char>>::empty());
        out
    }
}

/// Reads an invocation from the arguments of the process, the program's name
/// left out.
pub fn parse_config(args: &Vec<String>) -> (out: Result<Config, Failure>)
    ensures
        match out {
            Ok(config) => parsed(args.deep_view()) == Ok::<ConfigView, FailureView>(config@),
            Err(failure) => parsed(args.deep_view()) == Err::<ConfigView, FailureView>(failure@),
        },
{
    let mut config = Config::new();
    if args.len() == 0 {
        return Err(Failure::Usage(Missing::Command));
    }
    config.cmd = args[0].clone();
    let mut i: usize = 1;
    while i < args.len()
        invariant
            1 <= i <= args.len(),
            config.cmd@ == args[0]@,
            config.params.deep_view() == args.deep_view().subrange(1, i as int),
        decreases args.len() - i,
    {
        let ghost before = config.params.deep_view();
        config.params.push(args[i].clone());
        assert(config.params.deep_view() =~= before.push(args[i as int]@));
        assert(before.push(args[i as int]@) =~= args.deep_view().subrange(1, i + 1));
        i += 1;
    }
    assert(args.deep_view().subrange(1, i as int) =~= args.deep_view().skip(1));
    Ok(config)
}

/// The first step of creating the project that `params` begin with.
pub fn start_project(params: &Vec<String>) -> (first: Step)
    ensures
        first@ == started(params.deep_view()),
{
    if params.len() == 0 {
        Step::Finished(Err(Failure::Usage(Missing::ProjectName)))
    } else {
        Step::Files(FilePhase { name: params[0].clone(), stage: FileStage::ProjectDir })
    }
}

/// The first step of what `config` asks for.
pub fn execute_cmd(config: &Config) -> (first: Step)
    ensures
        first@ == executed(config@),
{
    if config.cmd == String::from_str("start") {
        start_project(&config.params)
    } else {
        Step::Finished(Err(Failure::UnknownCommand(config.cmd.clone())))
    }
}

/// The first step of the run that `args`, the arguments of the process without
/// the program's name, ask for.
pub fn dispatch(args: &Vec<String>) -> (first: Step)
    ensures
        first@ == dispatched(args.deep_view()),
{
    match parse_config(args) {
        Ok(config) => execute_cmd(&config),
        Err(failure) => Step::Finished(Err(failure)),
    }
}

} // verus!
