//! One derivation, from the options to the secret, as a machine of stages.
//!
//! Reading the persisted record, warning, reading the passphrase and running
//! the memory-hard function are done by the caller. What to do next, with
//! which values, and when to give up is decided here: the caller starts at
//! [`Stage::Start`] with [`Event::Begin`], performs each [`Action`] that
//! [`Job::step`] returns and reports its outcome as the next [`Event`], until the
//! action is [`Action::Deliver`] or [`Action::Fail`].

use vstd::prelude::*;
use vstd::utf8::*;

use crate::argon2::{Parameters, ParametersView, MIN_SALT_LEN};
use crate::cli::{Cli, CliView};
use crate::config::{File, FileView};
use crate::failure::Failure;
use crate::passphrase::{accept_passphrase, accepted_passphrase, PassphraseSource};

verus! {

/// The length of a secret, in bytes, where none is asked for.
pub const DEFAULT_OUTPUT_LEN: u32 = 32;

/// What stays the same through one derivation.
#[derive(Clone, Debug, PartialEq, Eq)]
pub struct Job {
    /// The options of the invocation.
    pub cli: Cli,
    /// The name of the secret or key pair.
    pub name: String,
    /// The length of the secret, in bytes.
    pub output_len: u32,
    /// Whether the input channel is a terminal.
    pub interactive: bool,
}

/// The mathematical content of a [`Job`].
pub struct JobView {
    pub cli: CliView,
    pub name: Seq<char>,
    pub output_len: u32,
    pub interactive: bool,
}

impl View for Job {
    type V = JobView;

    open spec fn view(&self) -> JobView {
        JobView {
            cli: self.cli@,
            name: self.name@,
            output_len: self.output_len,
            interactive: self.interactive,
        }
    }
}

/// Everything that the memory-hard function is run with. The parameters
/// carry the effective salt; memory cost, time cost and parallelism are to be
/// passed on as they stand.
#[derive(Clone, Debug, PartialEq, Eq)]
pub struct Request {
    pub parameters: Parameters,
    /// The UTF-8 bytes of the passphrase.
    pub password: Vec<u8>,
    /// The number of bytes to derive.
    pub output_len: u32,
}

/// The mathematical content of a [`Request`].
pub struct RequestView {
    pub parameters: ParametersView,
    pub password: Seq<u8>,
    pub output_len: u32,
}

impl View for Request {
    type V = RequestView;

    open spec fn view(&self) -> RequestView {
        RequestView {
            parameters: self.parameters@,
            password: self.password@,
            output_len: self.output_len,
        }
    }
}

/// How far a derivation has come.
#[derive(Clone, Debug, PartialEq, Eq)]
pub enum Stage {
    /// Nothing has happened yet.
    Start,
    /// No parameter was given explicitly; the persisted record is awaited.
    AwaitingConfig,
    /// The parameters are resolved and their salt is empty; the warning
    /// about that is awaited.
    AwaitingWarning(Parameters),
    /// The salt holds the name; the passphrase is awaited.
    AwaitingPassphrase(Parameters),
    /// The memory-hard function runs; its output is awaited.
    AwaitingOutput,
    /// The derivation has delivered a secret or failed.
    Finished,
}

/// The mathematical content of a [`Stage`].
pub enum StageView {
    Start,
    AwaitingConfig,
    AwaitingWarning(ParametersView),
    AwaitingPassphrase(ParametersView),
    AwaitingOutput,
    Finished,
}

impl View for Stage {
    type V = StageView;

    open spec fn view(&self) -> StageView {
        match self {
            Stage::Start => StageView::Start,
            Stage::AwaitingConfig => StageView::AwaitingConfig,
            Stage::AwaitingWarning(parameters) => StageView::AwaitingWarning(parameters@),
            Stage::AwaitingPassphrase(parameters) => StageView::AwaitingPassphrase(parameters@),
            Stage::AwaitingOutput => StageView::AwaitingOutput,
            Stage::Finished => StageView::Finished,
        }
    }
}

/// What the caller reports.
#[derive(Clone, Debug, PartialEq, Eq)]
pub enum Event {
    /// The derivation is to begin.
    Begin,
    /// The persisted record was looked for: the record, or `None` where
    /// there is none.
    Config(Option<File>),
    /// The persisted record is there but could not be read or understood.
    ConfigUnreadable,
    /// The warning was given.
    Warned,
    /// A line of input was read for the passphrase.
    Passphrase(String),
    /// The memory-hard function has ended: with its output, or with `None`
    /// for a failure.
    Output(Option<Vec<u8>>),
}

/// The mathematical content of an [`Event`].
pub enum EventView {
    Begin,
    Config(Option<FileView>),
    ConfigUnreadable,
    Warned,
    Passphrase(Seq<char>),
    Output(Option<Seq<u8>>),
}

impl View for Event {
    type V = EventView;

    open spec fn view(&self) -> EventView {
        match self {
            Event::Begin => EventView::Begin,
            Event::Config(record) => EventView::Config(
                match record {
                    Some(record) => Some(record@),
                    None => None,
                },
            ),
            Event::ConfigUnreadable => EventView::ConfigUnreadable,
            Event::Warned => EventView::Warned,
            Event::Passphrase(line) => EventView::Passphrase(line@),
            Event::Output(output) => EventView::Output(
                match output {
                    Some(bytes) => Some(bytes@),
                    None => None,
                },
            ),
        }
    }
}

/// What the caller is to do next.
#[derive(Clone, Debug, PartialEq, Eq)]
pub enum Action {
    /// Look for the persisted record and report [`Event::Config`] or
    /// [`Event::ConfigUnreadable`].
    ReadConfig,
    /// Warn, on the diagnostic stream, that the salt is empty, and report
    /// [`Event::Warned`].
    WarnEmptySalt,
    /// Read one line from the given source and report
    /// [`Event::Passphrase`].
    ReadPassphrase(PassphraseSource),
    /// Run the memory-hard function on the request and report
    /// [`Event::Output`].
    Derive(Request),
    /// The derivation is done: this is the secret.
    Deliver(Vec<u8>),
    /// The derivation is over: it failed.
    Fail(Failure),
}

/// The mathematical content of an [`Action`].
pub enum ActionView {
    ReadConfig,
    WarnEmptySalt,
    ReadPassphrase(PassphraseSource),
    Derive(RequestView),
    Deliver(Seq<u8>),
    Fail(Failure),
}

impl View for Action {
    type V = ActionView;

    open spec fn view(&self) -> ActionView {
        match self {
            Action::ReadConfig => ActionView::ReadConfig,
            Action::WarnEmptySalt => ActionView::WarnEmptySalt,
            Action::ReadPassphrase(source) => ActionView::ReadPassphrase(*source),
            Action::Derive(request) => ActionView::Derive(request@),
            Action::Deliver(secret) => ActionView::Deliver(secret@),
            Action::Fail(e) => ActionView::Fail(*e),
        }
    }
}

impl StageView {
    /// A stage that awaits the passphrase holds a salt of at least
    /// [`MIN_SALT_LEN`] bytes.
    pub open spec fn sound(self) -> bool {
        self matches StageView::AwaitingPassphrase(parameters) ==> parameters.salt.len()
            >= MIN_SALT_LEN
    }
}

impl JobView {
    /// The source of the passphrase for this job.
    pub open spec fn source(self) -> PassphraseSource {
        PassphraseSource::of(self.interactive, self.cli.expose_passphrase)
    }

    /// The step that gives the salt its name: on to the passphrase, or a
    /// failure where the salt stays too short.
    pub open spec fn name_salt(self, parameters: ParametersView) -> (StageView, ActionView) {
        match parameters.with_name(self.name) {
            Ok(named) => (
                StageView::AwaitingPassphrase(named),
                ActionView::ReadPassphrase(self.source()),
            ),
            Err(e) => (StageView::Finished, ActionView::Fail(e)),
        }
    }

    /// The step that follows the resolution of the parameters: a warning
    /// where the salt is empty, else the naming of the salt.
    pub open spec fn proceed(self, resolved: Result<ParametersView, Failure>) -> (
        StageView,
        ActionView,
    ) {
        match resolved {
            Ok(parameters) => if parameters.salt.len() == 0 {
                (StageView::AwaitingWarning(parameters), ActionView::WarnEmptySalt)
            } else {
                self.name_salt(parameters)
            },
            Err(e) => (StageView::Finished, ActionView::Fail(e)),
        }
    }

    /// The request for the memory-hard function.
    pub open spec fn request(self, named: ParametersView, passphrase: Seq<char>) -> RequestView {
        RequestView {
            parameters: named,
            password: encode_utf8(passphrase),
            output_len: self.output_len,
        }
    }

    /// The next stage and the action to take, for a stage and the event
    /// reported in it.
    pub open spec fn step(self, stage: StageView, event: EventView) -> (StageView, ActionView) {
        match (stage, event) {
            (StageView::Start, EventView::Begin) => match self.cli.explicit() {
                Ok(None) => (StageView::AwaitingConfig, ActionView::ReadConfig),
                Ok(Some(parameters)) => self.proceed(Ok(parameters)),
                Err(e) => (StageView::Finished, ActionView::Fail(e)),
            },
            (StageView::AwaitingConfig, EventView::Config(persisted)) => self.proceed(
                match persisted {
                    Some(record) => record.parameters(),
                    None => Err(Failure::MissingConfig),
                },
            ),
            (StageView::AwaitingConfig, EventView::ConfigUnreadable) => (
                StageView::Finished,
                ActionView::Fail(Failure::UnreadableConfig),
            ),
            (StageView::AwaitingWarning(parameters), EventView::Warned) => self.name_salt(parameters),
            (StageView::AwaitingPassphrase(named), EventView::Passphrase(line)) => {
                match accepted_passphrase(line) {
                    Ok(passphrase) => (
                        StageView::AwaitingOutput,
                        ActionView::Derive(self.request(named, passphrase)),
                    ),
                    Err(e) => (StageView::Finished, ActionView::Fail(e)),
                }
            },
            (StageView::AwaitingOutput, EventView::Output(output)) => match output {
                Some(secret) if secret.len() == self.output_len => (
                    StageView::Finished,
                    ActionView::Deliver(secret),
                ),
                _ => (StageView::Finished, ActionView::Fail(Failure::DerivationFailed)),
            },
            _ => (StageView::Finished, ActionView::Fail(Failure::UnexpectedEvent)),
        }
    }
}

impl JobView {
    /// The request that a derivation arrives at, from the persisted record
    /// (`None` where there is none) and the line read for the passphrase:
    /// the parameters are resolved, the salt is given its name, the
    /// passphrase is accepted, in this order, and the first failure ends it.
    pub open spec fn plan(self, persisted: Option<FileView>, line: Seq<char>) -> Result<
        RequestView,
        Failure,
    > {
        match self.cli.resolve(persisted) {
            Ok(parameters) => match parameters.with_name(self.name) {
                Ok(named) => match accepted_passphrase(line) {
                    Ok(passphrase) => Ok(self.request(named, passphrase)),
                    Err(e) => Err(e),
                },
                Err(e) => Err(e),
            },
            Err(e) => Err(e),
        }
    }

    /// What a derivation ends with, where `output` is what the memory-hard
    /// function returns for the request: that output, if it has the length
    /// asked for.
    pub open spec fn outcome(
        self,
        persisted: Option<FileView>,
        line: Seq<char>,
        output: Option<Seq<u8>>,
    ) -> Result<Seq<u8>, Failure> {
        match self.plan(persisted, line) {
            Ok(_) => match output {
                Some(secret) if secret.len() == self.output_len => Ok(secret),
                _ => Err(Failure::DerivationFailed),
            },
            Err(e) => Err(e),
        }
    }

    /// The action that the machine has come to once the passphrase is
    /// reported, where the caller performs each action and reports its
    /// outcome.
    pub open spec fn asked(self, persisted: Option<FileView>, line: Seq<char>) -> (
        StageView,
        ActionView,
    ) {
        let begun = self.step(StageView::Start, EventView::Begin);
        let resolved = if begun.1 is ReadConfig {
            self.step(begun.0, EventView::Config(persisted))
        } else {
            begun
        };
        let warned = if resolved.1 is WarnEmptySalt {
            self.step(resolved.0, EventView::Warned)
        } else {
            resolved
        };
        if warned.1 is ReadPassphrase {
            self.step(warned.0, EventView::Passphrase(line))
        } else {
            warned
        }
    }

    /// The action that the machine ends with.
    pub open spec fn run(
        self,
        persisted: Option<FileView>,
        line: Seq<char>,
        output: Option<Seq<u8>>,
    ) -> ActionView {
        let asked = self.asked(persisted, line);
        if asked.1 is Derive {
            self.step(asked.0, EventView::Output(output)).1
        } else {
            asked.1
        }
    }
}

/// A text that is not empty has UTF-8 bytes.
pub proof fn lemma_text_has_bytes(text: Seq<char>)
    requires
        text.len() > 0,
    ensures
        encode_utf8(text).len() > 0,
{
    encode_utf8_decode_utf8(text);
}

/// No step leads to a derivation from a salt shorter than
/// [`MIN_SALT_LEN`] or from an empty passphrase, and no step delivers a
/// secret of another length than the one asked for.
pub proof fn lemma_step_is_sound(job: JobView, stage: StageView, event: EventView)
    requires
        stage.sound(),
    ensures
        job.step(stage, event).0.sound(),
        job.step(stage, event).1 matches ActionView::Derive(request) ==> {
            &&& request.parameters.salt.len() >= MIN_SALT_LEN
            &&& request.password.len() > 0
            &&& request.output_len == job.output_len
        },
        job.step(stage, event).1 matches ActionView::Deliver(secret) ==> secret.len()
            == job.output_len,
{
    match (stage, event) {
        (StageView::AwaitingPassphrase(named), EventView::Passphrase(line)) => {
            match accepted_passphrase(line) {
                Ok(passphrase) => {
                    lemma_text_has_bytes(passphrase);
                },
                Err(_) => {},
            }
        },
        _ => {},
    }
}

/// The machine does what the pipeline says: it asks for the derivation of
/// exactly the planned request, or fails with the plan's failure, and it
/// ends with the outcome.
pub proof fn lemma_machine_follows_plan(
    job: JobView,
    persisted: Option<FileView>,
    line: Seq<char>,
    output: Option<Seq<u8>>,
)
    ensures
        job.asked(persisted, line).1 == match job.plan(persisted, line) {
            Ok(request) => ActionView::Derive(request),
            Err(e) => ActionView::Fail(e),
        },
        job.run(persisted, line, output) == match job.outcome(persisted, line, output) {
            Ok(secret) => ActionView::Deliver(secret),
            Err(e) => ActionView::Fail(e),
        },
{
}

/// Two derivations with the same algorithm, memory cost, time cost,
/// parallelism, base salt, name, passphrase and output length hand the same
/// request to the memory-hard function, and end alike where that function
/// returns the same output.
pub proof fn lemma_derivation_is_determined(
    a: JobView,
    b: JobView,
    persisted_a: Option<FileView>,
    persisted_b: Option<FileView>,
    line_a: Seq<char>,
    line_b: Seq<char>,
    output: Option<Seq<u8>>,
)
    requires
        a.cli.resolve(persisted_a) == b.cli.resolve(persisted_b),
        a.name == b.name,
        a.output_len == b.output_len,
        crate::passphrase::without_line_ending(line_a) == crate::passphrase::without_line_ending(
            line_b,
        ),
    ensures
        a.plan(persisted_a, line_a) == b.plan(persisted_b, line_b),
        a.outcome(persisted_a, line_a, output) == b.outcome(persisted_b, line_b, output),
        a.run(persisted_a, line_a, output) == b.run(persisted_b, line_b, output),
{
    lemma_machine_follows_plan(a, persisted_a, line_a, output);
    lemma_machine_follows_plan(b, persisted_b, line_b, output);
}

impl Job {
    fn name_salt(&self, parameters: Parameters) -> (r: (Stage, Action))
        ensures
            (r.0@, r.1@) == self@.name_salt(parameters@),
    {
        match parameters.with_name(self.name.as_str()) {
            Ok(named) => (
                Stage::AwaitingPassphrase(named),
                Action::ReadPassphrase(
                    PassphraseSource::select(self.interactive, self.cli.expose_passphrase),
                ),
            ),
            Err(e) => (Stage::Finished, Action::Fail(e)),
        }
    }

    fn proceed(&self, resolved: Result<Parameters, Failure>) -> (r: (Stage, Action))
        ensures
            (r.0@, r.1@) == self@.proceed(
                match resolved {
                    Ok(parameters) => Ok(parameters@),
                    Err(e) => Err(e),
                },
            ),
    {
        match resolved {
            Ok(parameters) => if parameters.salt_is_empty() {
                (Stage::AwaitingWarning(parameters), Action::WarnEmptySalt)
            } else {
                self.name_salt(parameters)
            },
            Err(e) => (Stage::Finished, Action::Fail(e)),
        }
    }

    /// Decides the next stage and the next action of a derivation, from the
    /// stage it is in and the event that the caller reports.
    ///
    /// An event that the stage does not await ends the derivation with
    /// [`Failure::UnexpectedEvent`].
    pub fn step(&self, stage: Stage, event: Event) -> (r: (Stage, Action))
        ensures
            (r.0@, r.1@) == self@.step(stage@, event@),
    {
        match (stage, event) {
            (Stage::Start, Event::Begin) => match Parameters::from_cli(&self.cli) {
                Ok(None) => (Stage::AwaitingConfig, Action::ReadConfig),
                Ok(Some(parameters)) => self.proceed(Ok(parameters)),
                Err(e) => (Stage::Finished, Action::Fail(e)),
            },
            (Stage::AwaitingConfig, Event::Config(persisted)) => match persisted {
                Some(record) => self.proceed(Parameters::try_from(record)),
                None => self.proceed(Err(Failure::MissingConfig)),
            },
            (Stage::AwaitingConfig, Event::ConfigUnreadable) => (
                Stage::Finished,
                Action::Fail(Failure::UnreadableConfig),
            ),
            (Stage::AwaitingWarning(parameters), Event::Warned) => self.name_salt(parameters),
            (Stage::AwaitingPassphrase(named), Event::Passphrase(line)) => {
                match accept_passphrase(line.as_str()) {
                    Ok(passphrase) => (
                        Stage::AwaitingOutput,
                        Action::Derive(
                            Request {
                                parameters: named,
                                password: passphrase.as_str().as_bytes_vec(),
                                output_len: self.output_len,
                            },
                        ),
                    ),
                    Err(e) => (Stage::Finished, Action::Fail(e)),
                }
            },
            (Stage::AwaitingOutput, Event::Output(output)) => match output {
                Some(secret) => if secret.len() as u64 == self.output_len as u64 {
                    (Stage::Finished, Action::Deliver(secret))
                } else {
                    (Stage::Finished, Action::Fail(Failure::DerivationFailed))
                },
                None => (Stage::Finished, Action::Fail(Failure::DerivationFailed)),
            },
            _ => (Stage::Finished, Action::Fail(Failure::UnexpectedEvent)),
        }
    }
}

} // verus!
