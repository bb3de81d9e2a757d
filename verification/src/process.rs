//! What is asked of the operating system, and what it answers.

use vstd::prelude::*;
use vstd::string::*;

verus! {

/// A program to be run, with its arguments.
#[derive(Debug, PartialEq)]
pub struct Command {
    pub program: String,
    pub args: Vec<Vec<u8>>,
}

#[verifier::ext_equal]
pub struct Invocation {
    pub program: Seq<char>,
    pub args: Seq<Seq<u8>>,
}

impl View for Command {
    type V = Invocation;

    open spec fn view(&self) -> Invocation {
        Invocation {
            program: self.program@,
            args: self.args@.map_values(|arg: Vec<u8>| arg@),
        }
    }
}

impl Command {
    /// The program, without arguments.
    pub fn new(program: &str) -> (cmd: Command)
        ensures
            cmd@ == (Invocation { program: program@, args: Seq::empty() }),
    {
        let cmd = Command { program: program.to_string(), args: Vec::new() };
        assert(cmd@.args =~= Seq::empty());
        cmd
    }

    /// Adds an argument.
    pub fn arg(self, arg: &str) -> (cmd: Command)
        ensures
            cmd@ == (Invocation {
                program: self@.program,
                args: self@.args.push(vstd::utf8::encode_utf8(arg@)),
            }),
    {
        self.raw_arg(arg.as_bytes_vec())
    }

    /// Adds an argument given as bytes, such as a path.
    pub fn raw_arg(self, arg: Vec<u8>) -> (cmd: Command)
        ensures
            cmd@ == (Invocation { program: self@.program, args: self@.args.push(arg@) }),
    {
        let mut cmd = self;
        cmd.args.push(arg);
        assert(cmd@.args =~= self@.args.push(arg@));
        cmd
    }
}

/// What is to be done next.
#[derive(Debug, PartialEq)]
pub enum Action {
    /// Nothing more.
    Done,
    /// Kill the process (SIGKILL) and wait for its end.
    KillAndReap(u32),
    /// Ask the process to end (SIGTERM) and wait for its end.
    TerminateAndReap(u32),
    /// Find out which of the recorders is installed.
    FindTools,
    /// Run the program to its end and hand back what it printed.
    Run(Command),
    /// Run the program to its end, whatever comes of it.
    RunQuietly(Command),
    /// Start the program and leave it running.
    Spawn(Command),
    /// Remove the file, if it is there.
    RemoveFile(Vec<u8>),
    /// Tell the user.
    Report(String),
}

#[verifier::ext_equal]
pub enum Step {
    Done,
    KillAndReap(u32),
    TerminateAndReap(u32),
    FindTools,
    Run(Invocation),
    RunQuietly(Invocation),
    Spawn(Invocation),
    RemoveFile(Seq<u8>),
    Report(Seq<char>),
}

impl View for Action {
    type V = Step;

    open spec fn view(&self) -> Step {
        match self {
            Action::Done => Step::Done,
            Action::KillAndReap(pid) => Step::KillAndReap(*pid),
            Action::TerminateAndReap(pid) => Step::TerminateAndReap(*pid),
            Action::FindTools => Step::FindTools,
            Action::Run(command) => Step::Run(command@),
            Action::RunQuietly(command) => Step::RunQuietly(command@),
            Action::Spawn(command) => Step::Spawn(command@),
            Action::RemoveFile(path) => Step::RemoveFile(path@),
            Action::Report(message) => Step::Report(message@),
        }
    }
}

impl Step {
    /// The process that the step puts an end to.
    pub open spec fn ends(self) -> Set<u32> {
        match self {
            Step::KillAndReap(pid) => set![pid],
            Step::TerminateAndReap(pid) => set![pid],
            _ => Set::empty(),
        }
    }
}

/// What came of an action.
#[derive(Debug, PartialEq)]
pub enum Reply {
    /// It was done.
    Done,
    /// Which of the two recorders is installed.
    Tools { parecord: bool, pw_record: bool },
    /// The program ran to its end.
    Ran { success: bool, stdout: Vec<u8>, stderr: Vec<u8> },
    /// The program was started, as this process.
    Spawned(u32),
    /// The program could not be started; `not_found` if there is no such program.
    Failed { not_found: bool, message: String },
}

#[verifier::ext_equal]
pub enum Answer {
    Done,
    Tools { parecord: bool, pw_record: bool },
    Ran { success: bool, stdout: Seq<u8>, stderr: Seq<u8> },
    Spawned(u32),
    Failed { not_found: bool, message: Seq<char> },
}

impl View for Reply {
    type V = Answer;

    open spec fn view(&self) -> Answer {
        match self {
            Reply::Done => Answer::Done,
            Reply::Tools { parecord, pw_record } => Answer::Tools {
                parecord: *parecord,
                pw_record: *pw_record,
            },
            Reply::Ran { success, stdout, stderr } => Answer::Ran {
                success: *success,
                stdout: stdout@,
                stderr: stderr@,
            },
            Reply::Spawned(pid) => Answer::Spawned(*pid),
            Reply::Failed { not_found, message } => Answer::Failed {
                not_found: *not_found,
                message: message@,
            },
        }
    }
}

/// A recorder and the player that goes with it.
pub open spec fn recording_tools(parecord: bool, pw_record: bool) -> Option<
    (Seq<char>, Seq<char>),
> {
    if parecord {
        Some(("parecord"@, "paplay"@))
    } else if pw_record {
        Some(("pw-record"@, "pw-play"@))
    } else {
        None
    }
}

pub open spec fn tool_names(tools: Option<(&'static str, &'static str)>) -> Option<
    (Seq<char>, Seq<char>),
> {
    match tools {
        Some((recorder, player)) => Some((recorder@, player@)),
        None => None,
    }
}

/// The recorder and the player to use, by which recorders are installed. Those of
/// PulseAudio come first, as they do for the loopback.
pub fn record_tools(parecord: bool, pw_record: bool) -> (tools: Option<
    (&'static str, &'static str),
>)
    ensures
        tool_names(tools) == recording_tools(parecord, pw_record),
{
    if parecord {
        Some(("parecord", "paplay"))
    } else if pw_record {
        Some(("pw-record", "pw-play"))
    } else {
        None
    }
}

// ---------------------------------------------------------------------------
// What always holds
// ---------------------------------------------------------------------------

/// Recordings are made with the tools of PulseAudio where they are installed, else with
/// those of PipeWire, else not at all. The player is always that of the same kind as the
/// recorder.
pub proof fn law_recording_tools(parecord: bool, pw_record: bool)
    ensures
        recording_tools(parecord, pw_record) is Some <==> parecord || pw_record,
        recording_tools(parecord, pw_record) matches Some((recorder, player)) ==> {
            &&& parecord ==> recorder == "parecord"@ && player == "paplay"@
            &&& !parecord ==> recorder == "pw-record"@ && player == "pw-play"@
        },
{
}

/// What is asked for is what is stated of it: kind and contents are the same.
pub proof fn law_actions_are_what_they_say(action: Action)
    ensures
        action is Done <==> action@ == Step::Done,
        action matches Action::KillAndReap(pid) ==> action@ == Step::KillAndReap(pid),
        action matches Action::TerminateAndReap(pid) ==> action@ == Step::TerminateAndReap(pid),
        action is FindTools <==> action@ == Step::FindTools,
        action matches Action::Run(cmd) ==> action@ matches Step::Run(i) && i.program
            == cmd.program@ && i.args == cmd.args@.map_values(|arg: Vec<u8>| arg@),
        action matches Action::RunQuietly(cmd) ==> action@ matches Step::RunQuietly(i)
            && i.program == cmd.program@ && i.args == cmd.args@.map_values(|arg: Vec<u8>| arg@),
        action matches Action::Spawn(cmd) ==> action@ matches Step::Spawn(i) && i.program
            == cmd.program@ && i.args == cmd.args@.map_values(|arg: Vec<u8>| arg@),
        action matches Action::RemoveFile(path) ==> action@ == Step::RemoveFile(path@),
        action matches Action::Report(message) ==> action@ == Step::Report(message@),
{
}

/// What came of it is what is stated of it.
pub proof fn law_replies_are_what_they_say(reply: Reply)
    ensures
        reply is Done <==> reply@ == Answer::Done,
        reply matches Reply::Tools { parecord, pw_record } ==> reply@ == (Answer::Tools {
            parecord,
            pw_record,
        }),
        reply matches Reply::Ran { success, stdout, stderr } ==> reply@ == (Answer::Ran {
            success,
            stdout: stdout@,
            stderr: stderr@,
        }),
        reply matches Reply::Spawned(pid) ==> reply@ == Answer::Spawned(pid),
        reply matches Reply::Failed { not_found, message } ==> reply@ == (Answer::Failed {
            not_found,
            message: message@,
        }),
{
}

} // verus!
