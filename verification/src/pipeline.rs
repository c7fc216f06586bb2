//! The pipeline tab: the state machine that follows a job from the entry of
//! its inputs to the end of its run, and the sum of the progress events of
//! a run.

use crate::data_types::{ParMeta, RawMeta, TemplateMeta};
use crate::syncher::Request;
use crate::text::{decimal, decimal_text, opt_text, texts, trimmed};
use argos_arpa::conveniences;
use std::time::Duration;
use vstd::prelude::*;
use vstd::string::*;

verus! {

/// An event of a running pipeline.
#[derive(Debug, PartialEq, Eq)]
#[allow(inconsistent_fields)]
pub enum Status {
    /// The pipeline is not active.
    Idle,
    /// Something failed; the words say what.
    Error(String),
    /// The pipeline starts on these inputs.
    Starting { raw: String, pulsar: (String, i32), ephemeride: Option<(String, i32)>, template: i32 },
    /// A file is copied from the first path to the second.
    Copying(String, String),
    InstallingEphemeride,
    Manipulating,
    VerifyingTemplate,
    GeneratingTOAs,
    /// So many times of arrival were produced.
    GotTOAs(usize),
    LoggingProcess,
    ParsingTOAs,
    /// So many times of arrival were archived.
    ArchivedTOAs(usize),
    /// So many diagnostics are about to run.
    Diagnosing(usize),
    FinishedDiagnostic { diagnostic: String, passed: bool },
    /// So many plots were archived, or archiving them failed.
    ArchivedTOAPlots(Option<usize>),
    /// The pipeline is through, after so many microseconds.
    Finished(u64),
}

/// The number of stages that a run is shown in.
pub const STAGES: usize = 10;

impl Status {
    /// The stage of the run that the event belongs to, from 0 for preparing to
    /// 9 for finished.
    pub open spec fn stage(&self) -> usize {
        match self {
            Status::Idle | Status::Error(_) | Status::Starting { .. } => 0,
            Status::Copying(_, _) => 1,
            Status::InstallingEphemeride => 2,
            Status::Manipulating => 3,
            Status::VerifyingTemplate => 4,
            Status::GeneratingTOAs | Status::GotTOAs(_) => 5,
            Status::LoggingProcess => 6,
            Status::ParsingTOAs | Status::ArchivedTOAs(_) => 7,
            Status::Diagnosing(_)
            | Status::FinishedDiagnostic { .. }
            | Status::ArchivedTOAPlots(_) => 8,
            Status::Finished(_) => 9,
        }
    }

    pub fn stage_index(&self) -> (r: usize)
        ensures
            r == self.stage(),
            r < STAGES,
    {
        match self {
            Status::Idle | Status::Error(_) | Status::Starting { .. } => 0,
            Status::Copying(_, _) => 1,
            Status::InstallingEphemeride => 2,
            Status::Manipulating => 3,
            Status::VerifyingTemplate => 4,
            Status::GeneratingTOAs | Status::GotTOAs(_) => 5,
            Status::LoggingProcess => 6,
            Status::ParsingTOAs | Status::ArchivedTOAs(_) => 7,
            Status::Diagnosing(_)
            | Status::FinishedDiagnostic { .. }
            | Status::ArchivedTOAPlots(_) => 8,
            Status::Finished(_) => 9,
        }
    }
}

/// The heading of a stage.
pub open spec fn stage_heading(stage: usize) -> Seq<char> {
    if stage == 0 {
        "Preparing"@
    } else if stage == 1 {
        "Copying file"@
    } else if stage == 2 {
        "Installing ephemeride"@
    } else if stage == 3 {
        "Manipulating"@
    } else if stage == 4 {
        "Verifying template"@
    } else if stage == 5 {
        "Generating TOAs"@
    } else if stage == 6 {
        "Logging process"@
    } else if stage == 7 {
        "Parsing TOA info"@
    } else if stage == 8 {
        "Running diagnostics"@
    } else {
        "Finished!"@
    }
}

/// The heading of a stage.
pub fn message(stage: usize) -> (r: &'static str)
    requires
        stage < STAGES,
    ensures
        r@ == stage_heading(stage),
{
    match stage {
        0 => "Preparing",
        1 => "Copying file",
        2 => "Installing ephemeride",
        3 => "Manipulating",
        4 => "Verifying template",
        5 => "Generating TOAs",
        6 => "Logging process",
        7 => "Parsing TOA info",
        8 => "Running diagnostics",
        _ => "Finished!",
    }
}

/// What the progress events of one run add up to.
#[derive(Debug, PartialEq, Eq)]
pub struct RunInfo {
    /// The latest event that moved the run on.
    pub status: Status,
    /// An error was reported at some point of the run.
    pub errored: bool,
    pub generated_toas: Option<usize>,
    pub archived_toas: Option<usize>,
    /// The number of diagnostics announced, and the outcome of each one that
    /// has finished: its name and whether it passed.
    pub diagnosed: (usize, Vec<(String, bool)>),
    pub archived_plots: Option<usize>,
    /// The duration of the whole run in microseconds, once it is through.
    pub done: Option<u64>,
}

/// The mathematical content of a [`RunInfo`].
pub struct RunInfoView {
    pub status: Status,
    pub errored: bool,
    pub generated_toas: Option<usize>,
    pub archived_toas: Option<usize>,
    pub announced: usize,
    pub diagnostics: Seq<(String, bool)>,
    pub archived_plots: Option<usize>,
    pub done: Option<u64>,
}

impl View for RunInfo {
    type V = RunInfoView;

    open spec fn view(&self) -> RunInfoView {
        RunInfoView {
            status: self.status,
            errored: self.errored,
            generated_toas: self.generated_toas,
            archived_toas: self.archived_toas,
            announced: self.diagnosed.0,
            diagnostics: self.diagnosed.1@,
            archived_plots: self.archived_plots,
            done: self.done,
        }
    }
}

/// `first` where it is set, else `later`: a value that is taken once.
pub open spec fn taken_once<T>(first: Option<T>, later: T) -> Option<T> {
    if first.is_some() {
        first
    } else {
        Some(later)
    }
}

impl RunInfoView {
    /// A run of which nothing is known yet.
    pub open spec fn fresh() -> Self {
        RunInfoView {
            status: Status::Idle,
            errored: false,
            generated_toas: None,
            archived_toas: None,
            announced: 0,
            diagnostics: Seq::empty(),
            archived_plots: None,
            done: None,
        }
    }

    /// The stage that the run has reached.
    pub open spec fn stage(self) -> usize {
        self.status.stage()
    }

    /// The run after one more event. An error is remembered for good and
    /// leaves the stage alone. The counts of produced and archived times of
    /// arrival and the duration are taken from the first event that brings
    /// them. A finished diagnostic is added to the list. An event of an
    /// earlier stage than the one reached does not move the run back.
    pub open spec fn absorbed(self, status: Status) -> Self {
        RunInfoView {
            status: if !(status is Error) && status.stage() >= self.status.stage() {
                status
            } else {
                self.status
            },
            errored: self.errored || status is Error,
            generated_toas: match status {
                Status::GotTOAs(n) => taken_once(self.generated_toas, n),
                _ => self.generated_toas,
            },
            archived_toas: match status {
                Status::ArchivedTOAs(n) => taken_once(self.archived_toas, n),
                _ => self.archived_toas,
            },
            announced: match status {
                Status::Diagnosing(n) => n,
                _ => self.announced,
            },
            diagnostics: match status {
                Status::FinishedDiagnostic { diagnostic, passed } => self.diagnostics.push(
                    (diagnostic, passed),
                ),
                _ => self.diagnostics,
            },
            archived_plots: match status {
                Status::ArchivedTOAPlots(n) => n,
                _ => self.archived_plots,
            },
            done: match status {
                Status::Finished(elapsed) => taken_once(self.done, elapsed),
                _ => self.done,
            },
        }
    }

    /// The run after a stream of events, in their order.
    pub open spec fn absorbed_all(self, events: Seq<Status>) -> Self
        decreases events.len(),
    {
        if events.len() == 0 {
            self
        } else {
            self.absorbed(events[0]).absorbed_all(events.skip(1))
        }
    }

    /// The user may start over: the run is through or has failed.
    pub open spec fn is_over(self) -> bool {
        self.stage() == STAGES - 1 || self.errored
    }
}

impl Default for RunInfo {
    /// A run of which nothing is known yet.
    fn default() -> (r: Self)
        ensures
            r@ == RunInfoView::fresh(),
    {
        RunInfo {
            status: Status::Idle,
            errored: false,
            generated_toas: None,
            archived_toas: None,
            diagnosed: (0, Vec::new()),
            archived_plots: None,
            done: None,
        }
    }
}

impl RunInfo {
    /// Takes in one more progress event.
    pub fn absorb(&mut self, status: Status)
        ensures
            final(self)@ == old(self)@.absorbed(status),
    {
        match &status {
            Status::Error(_) => {
                self.errored = true;
            },
            Status::GotTOAs(n) => {
                if self.generated_toas.is_none() {
                    self.generated_toas = Some(*n);
                }
            },
            Status::ArchivedTOAs(n) => {
                if self.archived_toas.is_none() {
                    self.archived_toas = Some(*n);
                }
            },
            Status::Diagnosing(n) => {
                self.diagnosed.0 = *n;
            },
            Status::FinishedDiagnostic { diagnostic, passed } => {
                self.diagnosed.1.push((diagnostic.clone(), *passed));
            },
            Status::ArchivedTOAPlots(n) => {
                self.archived_plots = *n;
            },
            Status::Finished(elapsed) => {
                if self.done.is_none() {
                    self.done = Some(*elapsed);
                }
            },
            _ => {},
        }
        let moves_on = match &status {
            Status::Error(_) => false,
            _ => status.stage_index() >= self.status.stage_index(),
        };
        if moves_on {
            self.status = status;
        }
    }

    /// The user may start over: the run is through or has failed.
    pub fn is_over(&self) -> (r: bool)
        ensures
            r == self@.is_over(),
    {
        self.status.stage_index() == STAGES - 1 || self.errored
    }
}

/// How a duration of so many microseconds is written out: in the largest
/// of microseconds, milliseconds and seconds that gives less than a
/// thousand, or less than sixty for seconds, and in minutes and seconds
/// beyond that.
pub open spec fn elapsed_text(micros: u64) -> Seq<char> {
    let seconds = micros / 1_000_000;
    if micros < 1000 {
        decimal_text(micros as int) + " μs"@
    } else if micros / 1000 < 1000 {
        decimal_text((micros / 1000) as int) + " ms"@
    } else if seconds < 60 {
        decimal_text(seconds as int) + " s"@
    } else {
        decimal_text((seconds / 60) as int) + " m "@ + decimal_text((seconds % 60) as int) + " s"@
    }
}

/// Calls the archive's `display_elapsed_time` on a duration of so many
/// microseconds. Trusted: it writes the duration as `elapsed_text` says.
#[verifier::external_body]
fn display_elapsed_time(micros: u64) -> (r: String)
    ensures
        r@ == elapsed_text(micros),
{
    conveniences::display_elapsed_time(Duration::from_micros(micros))
}

/// How a run is shown to stand.
#[derive(Debug, PartialEq, Eq)]
pub enum Outcome {
    /// The run has failed.
    Failed,
    /// The run is through; the words say how long it took.
    Done(String),
    /// The run goes on.
    Working,
}

/// A stage that a run has behind it, as it is shown.
#[derive(Debug, PartialEq, Eq)]
pub struct StageLine {
    pub heading: String,
    /// What the stage brought, where there is something to say.
    pub note: Option<String>,
    /// More lines under the stage.
    pub details: Vec<String>,
}

/// A run as it is shown: the stages behind it, the stage it is in, how it
/// stands, and whether the user may start over.
#[derive(Debug, PartialEq, Eq)]
pub struct Report {
    pub passed: Vec<StageLine>,
    pub current: String,
    pub outcome: Outcome,
    pub restart: bool,
}

/// The line of one diagnostic: its name, and a mark for whether it passed.
pub open spec fn diagnostic_line(name: Seq<char>, passed: bool) -> Seq<char> {
    "\t"@ + name + " "@ + if passed {
        "✔"@
    } else {
        "❌"@
    }
}

/// The line for the archived plots.
pub open spec fn plots_line(count: usize) -> Seq<char> {
    if count > 0 {
        "\tArchived "@ + decimal_text(count as int) + " psrchive plots!"@
    } else {
        "\tFailed to archive psrchive plots!"@
    }
}

/// The lines of the first `count` diagnostics.
pub open spec fn diagnostic_lines(diagnostics: Seq<(String, bool)>, count: int) -> Seq<Seq<char>>
    decreases count,
{
    if count <= 0 {
        Seq::empty()
    } else {
        diagnostic_lines(diagnostics, count - 1).push(
            diagnostic_line(diagnostics[count - 1].0@, diagnostics[count - 1].1),
        )
    }
}

impl RunInfoView {
    /// What a stage that the run has behind it brought: the count of
    /// produced or archived times of arrival once it is known, the
    /// diagnostics announced and finished, and a mark for any other stage.
    pub open spec fn stage_note(self, stage: usize) -> Option<Seq<char>> {
        if stage == 5 {
            match self.generated_toas {
                Some(n) => Some("➡ Got "@ + decimal_text(n as int) + " TOA(s)!"@),
                None => None,
            }
        } else if stage == 7 {
            match self.archived_toas {
                Some(n) => Some("➡ Archived "@ + decimal_text(n as int) + " TOA(s)!"@),
                None => None,
            }
        } else if stage == 8 {
            Some(
                decimal_text(self.announced as int) + " / "@ + decimal_text(
                    self.diagnostics.len() as int,
                ),
            )
        } else {
            Some("✔"@)
        }
    }

    /// The lines under the stage of the diagnostics: one for each diagnostic
    /// that finished, and one for the plots once they are spoken of.
    pub open spec fn details(self) -> Seq<Seq<char>> {
        let lines = diagnostic_lines(self.diagnostics, self.diagnostics.len() as int);
        match self.archived_plots {
            Some(count) => lines.push(plots_line(count)),
            None => lines,
        }
    }

    /// `line` shows the stage `stage`, which the run has behind it.
    pub open spec fn shows(self, stage: usize, line: StageLine) -> bool {
        &&& line.heading@ == stage_heading(stage)
        &&& opt_text(line.note) == self.stage_note(stage)
        &&& texts(line.details@) == if stage == 8 {
            self.details()
        } else {
            Seq::empty()
        }
    }

    /// `report` shows the run: a line for each stage behind it, the heading
    /// of the stage it is in, and how it stands: failed once an error was
    /// reported, done with the time it took once it is through, and at work
    /// else.
    pub open spec fn reported(self, report: Report) -> bool {
        &&& report.passed@.len() == self.stage()
        &&& forall|k: int|
            0 <= k < report.passed@.len() ==> self.shows(k as usize, #[trigger] report.passed@[k])
        &&& report.current@ == stage_heading(self.stage())
        &&& report.restart == self.is_over()
        &&& if self.errored {
            report.outcome == Outcome::Failed
        } else {
            match self.done {
                Some(elapsed) => report.outcome matches Outcome::Done(words) && words@
                    == "Time elapsed "@ + elapsed_text(elapsed),
                None => report.outcome == Outcome::Working,
            }
        }
    }
}

impl RunInfo {
    /// What a stage that the run has behind it brought.
    fn stage_note(&self, stage: usize) -> (note: Option<String>)
        ensures
            opt_text(note) == self@.stage_note(stage),
    {
        if stage == 5 {
            match self.generated_toas {
                Some(n) => Some(
                    String::from_str("➡ Got ").concat(decimal(n as i128).as_str()).concat(
                        " TOA(s)!",
                    ),
                ),
                None => None,
            }
        } else if stage == 7 {
            match self.archived_toas {
                Some(n) => Some(
                    String::from_str("➡ Archived ").concat(decimal(n as i128).as_str()).concat(
                        " TOA(s)!",
                    ),
                ),
                None => None,
            }
        } else if stage == 8 {
            Some(
                decimal(self.diagnosed.0 as i128).concat(" / ").concat(
                    decimal(self.diagnosed.1.len() as i128).as_str(),
                ),
            )
        } else {
            Some("✔".to_owned())
        }
    }

    /// The lines under the stage of the diagnostics.
    fn details(&self) -> (lines: Vec<String>)
        ensures
            texts(lines@) == self@.details(),
    {
        let mut lines: Vec<String> = Vec::new();
        let mut i: usize = 0;
        assert(texts(lines@) =~= diagnostic_lines(self@.diagnostics, 0));
        while i < self.diagnosed.1.len()
            invariant
                i <= self.diagnosed.1@.len(),
                texts(lines@) == diagnostic_lines(self@.diagnostics, i as int),
            decreases self.diagnosed.1@.len() - i,
        {
            let ghost before = lines@;
            let entry = &self.diagnosed.1[i];
            let mark = if entry.1 {
                "✔"
            } else {
                "❌"
            };
            let line = String::from_str("\t").concat(entry.0.as_str()).concat(" ").concat(mark);
            lines.push(line);
            assert(texts(lines@) =~= texts(before).push(line@));
            i += 1;
        }
        if let Some(count) = self.archived_plots {
            let ghost before = lines@;
            let line = if count > 0 {
                String::from_str("\tArchived ").concat(decimal(count as i128).as_str()).concat(
                    " psrchive plots!",
                )
            } else {
                "\tFailed to archive psrchive plots!".to_owned()
            };
            lines.push(line);
            assert(texts(lines@) =~= texts(before).push(line@));
        }
        lines
    }

    /// Shows the run.
    pub fn report(&self) -> (report: Report)
        ensures
            self@.reported(report),
    {
        let stage = self.status.stage_index();
        let mut passed: Vec<StageLine> = Vec::new();
        let mut i: usize = 0;
        while i < stage
            invariant
                i <= stage < STAGES,
                passed@.len() == i,
                forall|k: int| 0 <= k < i ==> self@.shows(k as usize, #[trigger] passed@[k]),
            decreases stage - i,
        {
            let details = if i == 8 {
                self.details()
            } else {
                Vec::new()
            };
            assert(i != 8 ==> texts(details@) =~= Seq::<Seq<char>>::empty());
            let line = StageLine {
                heading: message(i).to_owned(),
                note: self.stage_note(i),
                details,
            };
            passed.push(line);
            i += 1;
        }
        let outcome = if self.errored {
            Outcome::Failed
        } else {
            match self.done {
                Some(elapsed) => Outcome::Done(
                    String::from_str("Time elapsed ").concat(
                        display_elapsed_time(elapsed).as_str(),
                    ),
                ),
                None => Outcome::Working,
            }
        };
        Report { passed, current: message(stage).to_owned(), outcome, restart: self.is_over() }
    }
}

/// The state of the pipeline tab.
#[derive(Debug, PartialEq, Eq)]
#[allow(inconsistent_fields)]
pub enum PipeStage {
    /// Stands in while the state is taken out to be transformed. It is
    /// never left behind by an operation.
    Invalid,
    /// The three inputs are being entered.
    Relaxed { raw: String, ephemeride: i32, template: i32 },
    /// The three inputs were handed in and are being resolved.
    SettingUp { raw: String, ephemeride: i32, template: i32 },
    /// The three inputs are resolved.
    SetUp { raw: RawMeta, ephemeride: Option<ParMeta>, template: TemplateMeta },
    /// The pipeline runs, or has run and waits for the user.
    Running(RunInfo),
}

/// The mathematical content of a [`PipeStage`].
#[allow(inconsistent_fields)]
pub enum PipeStageView {
    Invalid,
    Relaxed { raw: Seq<char>, ephemeride: i32, template: i32 },
    SettingUp { raw: Seq<char>, ephemeride: i32, template: i32 },
    SetUp { raw: RawMeta, ephemeride: Option<ParMeta>, template: TemplateMeta },
    Running(RunInfoView),
}

impl View for PipeStage {
    type V = PipeStageView;

    open spec fn view(&self) -> PipeStageView {
        match self {
            PipeStage::Invalid => PipeStageView::Invalid,
            PipeStage::Relaxed { raw, ephemeride, template } => PipeStageView::Relaxed {
                raw: raw@,
                ephemeride: *ephemeride,
                template: *template,
            },
            PipeStage::SettingUp { raw, ephemeride, template } => PipeStageView::SettingUp {
                raw: raw@,
                ephemeride: *ephemeride,
                template: *template,
            },
            PipeStage::SetUp { raw, ephemeride, template } => PipeStageView::SetUp {
                raw: *raw,
                ephemeride: *ephemeride,
                template: *template,
            },
            PipeStage::Running(info) => PipeStageView::Running(info@),
        }
    }
}

impl Default for PipeStage {
    /// Input entry with nothing entered.
    fn default() -> (r: Self)
        ensures
            r@ == PipeStageView::blank(),
    {
        PipeStage::Relaxed { raw: String::new(), ephemeride: 0, template: 0 }
    }
}

/// What the user did on the pipeline tab in one frame: the three input
/// fields as they stand after the frame's edits, and the buttons pressed.
#[derive(Debug, PartialEq, Eq)]
pub struct PipeInput {
    pub raw: String,
    pub ephemeride: i32,
    pub template: i32,
    /// Take the ephemeride that is selected on the ephemeride tab.
    pub grab: bool,
    pub clear: bool,
    /// Hand the inputs in to be resolved.
    pub write: bool,
    pub run: bool,
    /// Start over after a run.
    pub restart: bool,
}

impl PipeInput {
    /// The ephemeride field after the frame: the record selected on the
    /// ephemeride tab where the user grabbed it, else what was entered.
    pub open spec fn ephemeride_entered(self, selected: Option<i32>) -> i32 {
        match selected {
            Some(id) if self.grab => id,
            _ => self.ephemeride,
        }
    }

    /// The inputs are handed in: the button was pressed, and it is live only
    /// with a raw file named and a template chosen.
    pub open spec fn submits(self) -> bool {
        self.write && self.raw@.len() > 0 && self.template > 0
    }
}

/// How the ephemeride field goes out to the worker: as no text at all where
/// it is 0, which stands for no ephemeride, and else as its number.
pub open spec fn ephemeride_reference(ephemeride: i32) -> Seq<char> {
    if ephemeride == 0 {
        Seq::empty()
    } else {
        decimal_text(ephemeride as int)
    }
}

impl PipeStageView {
    /// Input entry with nothing entered: the state in which the tab starts.
    pub open spec fn blank() -> Self {
        PipeStageView::Relaxed { raw: Seq::empty(), ephemeride: 0, template: 0 }
    }

    /// The state after an interrupt: a run, or a state that was left taken
    /// out, falls back to input entry; entering and resolving inputs go on.
    pub open spec fn interrupted(self) -> Self {
        match self {
            PipeStageView::Running(_) | PipeStageView::Invalid => Self::blank(),
            _ => self,
        }
    }

    /// The state after a request has failed: a run is given up as by an
    /// interrupt, and inputs that were being resolved are given up too;
    /// entering inputs and resolved inputs stay.
    pub open spec fn failed(self) -> Self {
        match self {
            PipeStageView::SettingUp { .. } => Self::blank(),
            _ => self.interrupted(),
        }
    }

    /// The state after a progress event: a run takes the event in. Where no
    /// run is under way, the event belongs to a run that the user has left
    /// behind, and is ignored; a state that was left taken out falls back
    /// to input entry.
    pub open spec fn progressed(self, status: Status) -> Self {
        match self {
            PipeStageView::Running(info) => PipeStageView::Running(info.absorbed(status)),
            PipeStageView::Invalid => Self::blank(),
            _ => self,
        }
    }

    /// The state after one frame of the tab.
    pub open spec fn shown(self, input: PipeInput, selected: Option<i32>) -> Self {
        match self {
            PipeStageView::Invalid => Self::blank(),
            PipeStageView::Relaxed { .. } => {
                if input.submits() {
                    PipeStageView::SettingUp {
                        raw: input.raw@,
                        ephemeride: input.ephemeride_entered(selected),
                        template: input.template,
                    }
                } else if input.clear {
                    Self::blank()
                } else {
                    PipeStageView::Relaxed {
                        raw: input.raw@,
                        ephemeride: input.ephemeride_entered(selected),
                        template: input.template,
                    }
                }
            },
            PipeStageView::SettingUp { .. } => self,
            PipeStageView::SetUp { .. } => {
                if input.clear {
                    Self::blank()
                } else if input.run {
                    PipeStageView::Running(RunInfoView::fresh())
                } else {
                    self
                }
            },
            PipeStageView::Running(info) => {
                if input.restart && info.is_over() {
                    Self::blank()
                } else {
                    self
                }
            },
        }
    }

    /// `request` is what one frame of the tab asks of the worker: to resolve
    /// the inputs that were handed in, with no text for an ephemeride that
    /// was not chosen, to run the pipeline on the resolved ones, and nothing
    /// in any other case.
    pub open spec fn asks(self, input: PipeInput, selected: Option<i32>, request: Option<Request>) -> bool {
        match self {
            PipeStageView::Relaxed { .. } if input.submits() => {
                &&& request matches Some(Request::SetupPipes { raw, ephemeride, template })
                &&& raw@ == input.raw@
                &&& ephemeride@ == ephemeride_reference(input.ephemeride_entered(selected))
                &&& template@ == decimal_text(input.template as int)
            },
            PipeStageView::SetUp { raw, ephemeride, template } if !input.clear && input.run => {
                request == Some(Request::RunPipeline { raw, ephemeride, template })
            },
            _ => request.is_none(),
        }
    }
}

/// The pipeline tab: a projection of the job that the worker runs, driven by
/// the user's input and by the messages that arrive.
#[derive(Debug)]
pub struct PipelineApp {
    state: PipeStage,
}

impl View for PipelineApp {
    type V = PipeStageView;

    closed spec fn view(&self) -> PipeStageView {
        self.state@
    }
}

impl PipelineApp {
    pub fn new() -> (r: Self)
        ensures
            r@ == PipeStageView::blank(),
    {
        Self { state: PipeStage::default() }
    }

    /// The state of the tab.
    pub fn state(&self) -> (r: &PipeStage)
        ensures
            r@ == self@,
    {
        &self.state
    }

    /// The three inputs are being resolved.
    pub fn is_setting_up(&self) -> (r: bool)
        ensures
            r == (self@ is SettingUp),
    {
        match &self.state {
            PipeStage::SettingUp { .. } => true,
            _ => false,
        }
    }

    /// Takes the state out, leaving the placeholder behind.
    fn take(&mut self) -> (r: PipeStage)
        ensures
            r == old(self).state,
            final(self).state == PipeStage::Invalid,
    {
        let mut state = PipeStage::Invalid;
        std::mem::swap(&mut self.state, &mut state);
        state
    }

    /// One frame of the tab. `selected` is the ephemeride selected on the
    /// ephemeride tab. Returns what is to be asked of the worker.
    pub fn show(&mut self, input: PipeInput, selected: Option<i32>) -> (request: Option<Request>)
        ensures
            final(self)@ == old(self)@.shown(input, selected),
            old(self)@.asks(input, selected, request),
            !(final(self)@ is Invalid),
    {
        match self.take() {
            PipeStage::Invalid => {
                self.state = PipeStage::default();
                None
            },
            PipeStage::Relaxed { raw, ephemeride, template } => {
                let mut raw = raw;
                let mut ephemeride = ephemeride;
                let mut template = template;
                let PipeInput { raw: raw_entered, ephemeride: ephemeride_entered, template: template_entered, grab, clear, write, .. } = input;
                Self::argument_entry(
                    &mut raw,
                    &mut ephemeride,
                    &mut template,
                    true,
                    raw_entered,
                    ephemeride_entered,
                    template_entered,
                    grab,
                    selected,
                );
                self.relaxed_buttons(raw, ephemeride, template, clear, write)
            },
            PipeStage::SettingUp { raw, ephemeride, template } => {
                self.state = PipeStage::SettingUp { raw, ephemeride, template };
                None
            },
            PipeStage::SetUp { raw, ephemeride, template } => {
                self.running_buttons(raw, ephemeride, template, input.clear, input.run)
            },
            PipeStage::Running(info) => {
                let over = info.is_over();
                self.state = PipeStage::Running(info);
                self.running(over, input.restart);
                None
            },
        }
    }

    /// The pipeline's inputs were resolved.
    pub fn set_up(&mut self, raw: RawMeta, ephemeride: Option<ParMeta>, template: TemplateMeta)
        ensures
            final(self)@ == (PipeStageView::SetUp { raw, ephemeride, template }),
    {
        self.state = PipeStage::SetUp { raw, ephemeride, template };
    }

    /// The input fields take what the user entered, while they are active.
    fn argument_entry(
        raw: &mut String,
        ephemeride: &mut i32,
        template: &mut i32,
        active: bool,
        raw_entered: String,
        ephemeride_entered: i32,
        template_entered: i32,
        grab: bool,
        selected: Option<i32>,
    )
        ensures
            active ==> final(raw)@ == raw_entered@ && *final(template) == template_entered
                && *final(ephemeride) == match selected {
                Some(id) if grab => id,
                _ => ephemeride_entered,
            },
            !active ==> *final(raw) == *old(raw) && *final(template) == *old(template)
                && *final(ephemeride) == *old(ephemeride),
    {
        if active {
            *raw = raw_entered;
            *ephemeride = ephemeride_entered;
            *template = template_entered;
            if grab {
                if let Some(id) = selected {
                    *ephemeride = id;
                }
            }
        }
    }

    /// The buttons under the input fields: handing the inputs in wins over
    /// clearing them.
    fn relaxed_buttons(
        &mut self,
        raw: String,
        ephemeride: i32,
        template: i32,
        clear: bool,
        write: bool,
    ) -> (request: Option<Request>)
        ensures
            write && raw@.len() > 0 && template > 0 ==> {
                &&& final(self)@ == (PipeStageView::SettingUp { raw: raw@, ephemeride, template })
                &&& request matches Some(Request::SetupPipes { raw: r, ephemeride: e, template: t })
                &&& r@ == raw@
                &&& e@ == ephemeride_reference(ephemeride)
                &&& t@ == decimal_text(template as int)
            },
            !(write && raw@.len() > 0 && template > 0) ==> {
                &&& request.is_none()
                &&& clear ==> final(self)@ == PipeStageView::blank()
                &&& !clear ==> final(self)@ == (PipeStageView::Relaxed {
                    raw: raw@,
                    ephemeride,
                    template,
                })
            },
    {
        if write && !raw.as_str().is_empty() && template > 0 {
            let request = Request::SetupPipes {
                raw: raw.clone(),
                ephemeride: if ephemeride == 0 {
                    String::new()
                } else {
                    decimal(ephemeride as i128)
                },
                template: decimal(template as i128),
            };
            self.state = PipeStage::SettingUp { raw, ephemeride, template };
            Some(request)
        } else if clear {
            self.state = PipeStage::default();
            None
        } else {
            self.state = PipeStage::Relaxed { raw, ephemeride, template };
            None
        }
    }

    /// The buttons under the resolved inputs: clearing wins over running.
    fn running_buttons(
        &mut self,
        raw: RawMeta,
        ephemeride: Option<ParMeta>,
        template: TemplateMeta,
        clear: bool,
        run: bool,
    ) -> (request: Option<Request>)
        ensures
            clear ==> final(self)@ == PipeStageView::blank() && request.is_none(),
            !clear && run ==> final(self)@ == PipeStageView::Running(RunInfoView::fresh())
                && request == Some(Request::RunPipeline { raw, ephemeride, template }),
            !clear && !run ==> final(self)@ == (PipeStageView::SetUp { raw, ephemeride, template })
                && request.is_none(),
    {
        if clear {
            self.state = PipeStage::default();
            None
        } else if run {
            self.state = PipeStage::Running(RunInfo::default());
            Some(Request::RunPipeline { raw, ephemeride, template })
        } else {
            self.state = PipeStage::SetUp { raw, ephemeride, template };
            None
        }
    }

    /// Shows the run that is under way, if there is one.
    pub fn report(&self) -> (report: Option<Report>)
        ensures
            match self@ {
                PipeStageView::Running(info) => report matches Some(shown) && info.reported(shown),
                _ => report.is_none(),
            },
    {
        match &self.state {
            PipeStage::Running(info) => Some(info.report()),
            _ => None,
        }
    }

    /// The button under a run: it starts over once the run is over.
    fn running(&mut self, over: bool, restart: bool)
        ensures
            over && restart ==> final(self)@ == PipeStageView::blank(),
            !(over && restart) ==> final(self)@ == old(self)@,
    {
        if over && restart {
            self.state = PipeStage::default();
        }
    }

    /// Something failed that need not concern the pipeline: a run is given
    /// up, entering and resolving inputs go on.
    pub fn interrupt(&mut self)
        ensures
            final(self)@ == old(self)@.interrupted(),
            !(final(self)@ is Invalid),
    {
        let state = match self.take() {
            PipeStage::Running(_) | PipeStage::Invalid => PipeStage::default(),
            s => s,
        };
        self.state = state;
    }

    /// Takes in a progress event: a run adds it up, and without a run it is
    /// ignored.
    pub fn set_status(&mut self, status: Status)
        ensures
            final(self)@ == old(self)@.progressed(status),
            !(final(self)@ is Invalid),
    {
        let state = match self.take() {
            PipeStage::Running(info) => {
                let mut info = info;
                info.absorb(status);
                PipeStage::Running(info)
            },
            PipeStage::Invalid => PipeStage::default(),
            s => s,
        };
        self.state = state;
    }

    /// Back to input entry, whatever the state.
    pub fn reset(&mut self)
        ensures
            final(self)@ == PipeStageView::blank(),
    {
        self.state = PipeStage::default();
    }
}

/// An interrupt during a run, or on a state that was left taken out, leads to
/// input entry with nothing entered; during input entry, while the inputs are
/// resolved and once they are resolved it changes nothing.
pub proof fn lemma_interrupt(state: PipeStageView)
    ensures
        state is Running || state is Invalid ==> state.interrupted() == PipeStageView::blank(),
        state is Relaxed || state is SettingUp || state is SetUp ==> state.interrupted() == state,
{
}

/// No frame, interrupt or progress event leaves the placeholder behind.
pub proof fn lemma_never_invalid(
    state: PipeStageView,
    input: PipeInput,
    selected: Option<i32>,
    status: Status,
)
    ensures
        !(state.shown(input, selected) is Invalid),
        !(state.interrupted() is Invalid),
        !(state.progressed(status) is Invalid),
{
}

/// An error event marks the run as failed and takes nothing away: the stage
/// reached, the counts, the diagnostics and the duration are kept.
pub proof fn lemma_error_is_recorded(info: RunInfoView, status: Status)
    requires
        status is Error,
    ensures
        info.absorbed(status) == (RunInfoView { errored: true, ..info }),
{
}

/// A progress event that arrives while no run is under way is ignored:
/// input entry, inputs that are being resolved and resolved inputs stay as
/// they are. A run is entered by the run button alone.
pub proof fn lemma_orphaned_event_is_ignored(
    state: PipeStageView,
    status: Status,
    input: PipeInput,
    selected: Option<i32>,
)
    ensures
        state is Relaxed || state is SettingUp || state is SetUp ==> state.progressed(status)
            == state,
        !(state is Running) ==> !(state.progressed(status) is Running),
        !(state is Running) && state.shown(input, selected) is Running ==> state is SetUp
            && input.run && !input.clear,
{
}

/// No ephemeride is asked for where none was chosen: the field at 0 goes out
/// as an empty text, which is trimmed to nothing.
pub proof fn lemma_unset_ephemeride_is_empty(ephemeride: i32)
    ensures
        ephemeride == 0 ==> trimmed(ephemeride_reference(ephemeride)).len() == 0,
        ephemeride != 0 ==> ephemeride_reference(ephemeride).len() > 0,
{
}

/// Once a run has failed, it stays failed whatever events follow.
pub proof fn lemma_error_is_sticky(info: RunInfoView, events: Seq<Status>)
    requires
        info.errored,
    ensures
        info.absorbed_all(events).errored,
    decreases events.len(),
{
    if events.len() > 0 {
        lemma_error_is_sticky(info.absorbed(events[0]), events.skip(1));
    }
}

/// The stage of a run never falls, whatever events follow.
pub proof fn lemma_stage_never_falls(info: RunInfoView, events: Seq<Status>)
    ensures
        info.absorbed_all(events).stage() >= info.stage(),
    decreases events.len(),
{
    if events.len() > 0 {
        lemma_stage_never_falls(info.absorbed(events[0]), events.skip(1));
    }
}

/// The counts of produced and archived times of arrival and the duration
/// keep the value that they were first given, whatever events follow.
pub proof fn lemma_counts_are_taken_once(info: RunInfoView, events: Seq<Status>)
    ensures
        info.generated_toas.is_some() ==> info.absorbed_all(events).generated_toas
            == info.generated_toas,
        info.archived_toas.is_some() ==> info.absorbed_all(events).archived_toas
            == info.archived_toas,
        info.done.is_some() ==> info.absorbed_all(events).done == info.done,
    decreases events.len(),
{
    if events.len() > 0 {
        lemma_counts_are_taken_once(info.absorbed(events[0]), events.skip(1));
    }
}

/// The outcomes of the diagnostics are only ever added to: what was listed
/// stays listed, in its place, whatever events follow.
pub proof fn lemma_diagnostics_only_grow(info: RunInfoView, events: Seq<Status>)
    ensures
        info.diagnostics.is_prefix_of(info.absorbed_all(events).diagnostics),
    decreases events.len(),
{
    if events.len() > 0 {
        lemma_diagnostics_only_grow(info.absorbed(events[0]), events.skip(1));
    }
}

} // verus!
