//! The vocabulary of the bridge, and the handling of a request: the calls
//! on the archive that it takes, one after another, and the message that
//! closes it.

use crate::data_types::{ParMeta, PulsarMeta, RawMeta, TOAInfo, TemplateMeta};
use crate::ephemerides::ParData;
use crate::error::ArchiveError;
use crate::helpers::downloader::FetchType;
use crate::pipeline::Status;
use crate::text::{decimal, decimal_text, parse_i32, parsed_i32, trim, trimmed};
use crate::toas::TOAData;
use vstd::prelude::*;
use vstd::string::*;

verus! {

/// The kinds of record that the generic requests and messages speak of.
#[derive(Debug, Clone, Copy, PartialEq, Eq, Structural)]
pub enum DataType {
    Pulsar,
    Ephemeride,
    Toa,
}

impl DataType {
    /// The word for the kind in a notice.
    pub open spec fn name(&self) -> Seq<char> {
        match self {
            DataType::Pulsar => "pulsar"@,
            DataType::Ephemeride => "ephemeride"@,
            DataType::Toa => "TOA"@,
        }
    }

    pub fn to_string(&self) -> (r: String)
        ensures
            r@ == self.name(),
    {
        match self {
            DataType::Pulsar => "pulsar".to_owned(),
            DataType::Ephemeride => "ephemeride".to_owned(),
            DataType::Toa => "TOA".to_owned(),
        }
    }
}

/// What the worker tells the interface: the outcome of a request, or an
/// event of a running pipeline.
#[derive(Debug, PartialEq, Eq)]
pub enum Message {
    Error(ArchiveError),
    /// The connection to the archive stands.
    Connected,
    CommitSuccess,
    RollbackSuccess,
    ItemAdded(DataType, i32),
    ItemDeleted(DataType, i32),
    ItemUpdated(DataType, i32),
    Pulsars(Vec<PulsarMeta>),
    SinglePulsar(PulsarMeta),
    Ephemerides(Vec<ParData>),
    SingleEphemeride(ParData),
    TOAs(Vec<TOAData>),
    SingleTOA(TOAData),
    /// The three inputs of a pipeline job were resolved.
    PipesSetUp(RawMeta, Option<ParMeta>, TemplateMeta),
    PipelineFinished,
    PipelineStatus(Status),
}

/// What the interface asks of the worker.
#[derive(Debug, PartialEq, Eq)]
#[allow(inconsistent_fields)]
pub enum Request {
    /// Commit the live transaction.
    Commit,
    /// Roll the live transaction back.
    Rollback,
    Download(DataType, FetchType),
    DeleteItem(DataType, i32),
    AddPulsar(PulsarMeta),
    /// Overwrite the pulsar with the given id.
    UpdatePulsar(i32, PulsarMeta),
    /// Add an ephemeride; `pulsar` is an id or an alias.
    AddPar { path: String, pulsar: String, master: bool },
    /// Overwrite the ephemeride with the given id.
    UpdatePar { id: i32, path: String, pulsar: String, master: bool },
    /// Resolve the three inputs of a pipeline job, each a path or an id.
    SetupPipes { raw: String, ephemeride: String, template: String },
    /// Run the pipeline on resolved inputs.
    RunPipeline { raw: RawMeta, ephemeride: Option<ParMeta>, template: TemplateMeta },
}

impl Message {
    /// The message closes a request; the events of a running pipeline do not.
    pub open spec fn is_terminal(&self) -> bool {
        !(self is PipelineStatus) && !(self is Connected)
    }
}

/// One thing that the worker asks of the archive or of the pipeline.
#[derive(Debug, PartialEq, Eq)]
#[allow(inconsistent_fields)]
pub enum Call {
    Commit,
    Rollback,
    Delete(DataType, i32),
    GetAllPulsars,
    GetPulsar(i32),
    InsertPulsar(PulsarMeta),
    /// Overwrite the pulsar with the given id.
    UpdatePulsar(i32, PulsarMeta),
    GetAllPars,
    GetPar(i32),
    GetAllTOAs,
    GetTOA(i32),
    /// Make sure that a pulsar with this id is in the archive.
    AssertPulsar(i32),
    /// Look for a pulsar that meets the condition.
    FindPulsar(String),
    /// Take the file in as a new ephemeride of the pulsar.
    InsertPar { path: String, pulsar_id: i32 },
    /// Overwrite the ephemeride with the given id by the file.
    UpdatePar { id: i32, path: String, pulsar_id: i32 },
    /// Assign a column of the pulsar with the given id.
    UpdatePulsarField { id: i32, value: String },
    /// Resolve a path or an id into a raw file.
    ParseRaw(String),
    /// Resolve a path or an id into an ephemeride for the raw file.
    ParseEphemeride(RawMeta, String),
    /// Resolve a path or an id into a template for the raw file.
    ParseTemplate(RawMeta, String),
    /// Run the pipeline. Its progress events go to the interface as they
    /// occur, as `Message::PipelineStatus`.
    Cook { raw: RawMeta, ephemeride: Option<ParMeta>, template: TemplateMeta },
}

/// What came of a [`Call`].
#[derive(Debug, PartialEq, Eq)]
pub enum Answer {
    Failed(ArchiveError),
    /// The call succeeded and has nothing to hand back.
    Done,
    /// The id of what was inserted.
    Id(i32),
    Pulsars(Vec<PulsarMeta>),
    Pulsar(PulsarMeta),
    /// What a search for a pulsar found.
    MaybePulsar(Option<PulsarMeta>),
    Pars(Vec<ParMeta>),
    Par(ParMeta),
    TOAs(Vec<TOAInfo>),
    TOA(TOAInfo),
    Raw(RawMeta),
    Template(TemplateMeta),
}

/// Where the handling of a request stands: what it waits for, and what it
/// has to remember for the steps to come.
#[derive(Debug, PartialEq, Eq)]
#[allow(inconsistent_fields)]
pub enum Handler {
    Commit,
    Rollback,
    Delete(DataType, i32),
    Pulsars,
    Pulsar,
    AddPulsar,
    UpdatePulsar(i32),
    Pars,
    Par,
    /// The ephemerides `metas` get the alias of their pulsar one by one;
    /// `named` holds those that have it.
    NamingPars { metas: Vec<ParMeta>, named: Vec<ParData> },
    NamingPar { meta: ParMeta },
    TOAs,
    TOA,
    /// As `NamingPars`, for times of arrival.
    NamingTOAs { metas: Vec<TOAInfo>, named: Vec<TOAData> },
    NamingTOA { meta: TOAInfo },
    /// The pulsar of an ephemeride is looked up: by the id `asserted`, or by
    /// the alias `pulsar`, the trimmed text of the request, where that is no
    /// number. `overwrite` is the id of the ephemeride that is to be
    /// overwritten, if any.
    ResolvingPulsar {
        path: String,
        pulsar: String,
        master: bool,
        overwrite: Option<i32>,
        asserted: Option<i32>,
    },
    /// The ephemeride is written to the archive.
    StoringPar { pulsar_id: i32, master: bool, overwrite: Option<i32> },
    /// The ephemeride `id` is made the master of its pulsar.
    MarkingMaster { id: i32 },
    ParsingRaw { ephemeride: String, template: String },
    ParsingEphemeride { raw: RawMeta, template: String },
    ParsingTemplate { raw: RawMeta, ephemeride: Option<ParMeta> },
    Cooking,
}

/// What the handling of a request does next: one more call, or the one
/// message that closes the request.
#[derive(Debug, PartialEq, Eq)]
pub enum Step {
    Ask(Handler, Call),
    Reply(Message),
}

/// The ephemeride `meta` as the table shows it, with the alias of `pulsar`.
pub open spec fn named_par(meta: ParMeta, pulsar: PulsarMeta) -> ParData {
    ParData {
        id: meta.id,
        pulsar_id: meta.pulsar_id,
        pulsar_name: pulsar.alias,
        path: meta.file_path,
    }
}

/// The time of arrival `meta` as the table shows it, with the alias of
/// `pulsar`.
pub open spec fn named_toa(meta: TOAInfo, pulsar: PulsarMeta) -> TOAData {
    TOAData {
        id: meta.id,
        process: meta.process_id,
        pulsar: pulsar.alias,
        observer: meta.observer_id,
        template: meta.template_id,
        frequency: meta.frequency,
        time: meta.time,
        error: meta.toa_err,
    }
}

/// The condition by which a pulsar is looked up by its alias.
pub open spec fn alias_condition(alias: Seq<char>) -> Seq<char> {
    "alias='"@ + alias + "'"@
}

/// What is said to be missing when no pulsar has the alias.
pub open spec fn missing_alias(alias: Seq<char>) -> Seq<char> {
    "Pulsar with alias \""@ + alias + "\""@
}

/// The assignment that makes the ephemeride `id` the master of a pulsar.
pub open spec fn master_assignment(id: i32) -> Seq<char> {
    "master_parfile_id="@ + decimal_text(id as int)
}

/// The words of the error that an answer of the wrong kind is met with.
pub open spec fn unexpected_answer() -> Seq<char> {
    "Unexpected answer from the archive"@
}

impl Step {
    /// The step closes the request with the error that an answer of the
    /// wrong kind is met with.
    pub open spec fn is_unexpected(self) -> bool {
        self matches Step::Reply(Message::Error(ArchiveError::Other(words))) && words@
            == unexpected_answer()
    }

    /// The step writes an ephemeride of the pulsar `pulsar_id` to the
    /// archive: a new one, or over the one with the id `overwrite`.
    pub open spec fn stores_par(
        self,
        path: String,
        pulsar_id: i32,
        master: bool,
        overwrite: Option<i32>,
    ) -> bool {
        match overwrite {
            None => self == Step::Ask(
                Handler::StoringPar { pulsar_id, master, overwrite },
                Call::InsertPar { path, pulsar_id },
            ),
            Some(id) => self == Step::Ask(
                Handler::StoringPar { pulsar_id, master, overwrite },
                Call::UpdatePar { id, path, pulsar_id },
            ),
        }
    }

    /// The step follows the storing of the ephemeride `id`: it is made the
    /// master of its pulsar where that was asked for, and else reported as
    /// added.
    pub open spec fn marks_or_reports(self, id: i32, pulsar_id: i32, master: bool) -> bool {
        if master {
            &&& self matches Step::Ask(
                Handler::MarkingMaster { id: marked },
                Call::UpdatePulsarField { id: pulsar, value },
            )
            &&& marked == id
            &&& pulsar == pulsar_id
            &&& value@ == master_assignment(id)
        } else {
            self == Step::Reply(Message::ItemAdded(DataType::Ephemeride, id))
        }
    }

    /// The step asks for the template of a pipeline job.
    pub open spec fn parses_template(
        self,
        raw: RawMeta,
        ephemeride: Option<ParMeta>,
        template: Seq<char>,
    ) -> bool {
        &&& self matches Step::Ask(
            Handler::ParsingTemplate { raw: kept, ephemeride: resolved },
            Call::ParseTemplate(given, text),
        )
        &&& kept == raw
        &&& resolved == ephemeride
        &&& given == raw
        &&& text@ == trimmed(template)
    }
}

impl Request {
    /// `start` is how the handling of the request begins: where it stands and
    /// what it asks first.
    pub open spec fn begins(self, start: (Handler, Call)) -> bool {
        match self {
            Request::Commit => start == (Handler::Commit, Call::Commit),
            Request::Rollback => start == (Handler::Rollback, Call::Rollback),
            Request::DeleteItem(kind, id) => start == (
                Handler::Delete(kind, id),
                Call::Delete(kind, id),
            ),
            Request::Download(DataType::Pulsar, FetchType::All) => start == (
                Handler::Pulsars,
                Call::GetAllPulsars,
            ),
            Request::Download(DataType::Pulsar, FetchType::Id(id)) => start == (
                Handler::Pulsar,
                Call::GetPulsar(id),
            ),
            Request::Download(DataType::Ephemeride, FetchType::All) => start == (
                Handler::Pars,
                Call::GetAllPars,
            ),
            Request::Download(DataType::Ephemeride, FetchType::Id(id)) => start == (
                Handler::Par,
                Call::GetPar(id),
            ),
            Request::Download(DataType::Toa, FetchType::All) => start == (
                Handler::TOAs,
                Call::GetAllTOAs,
            ),
            Request::Download(DataType::Toa, FetchType::Id(id)) => start == (
                Handler::TOA,
                Call::GetTOA(id),
            ),
            Request::AddPulsar(meta) => start == (Handler::AddPulsar, Call::InsertPulsar(meta)),
            Request::UpdatePulsar(id, meta) => start == (
                Handler::UpdatePulsar(id),
                Call::UpdatePulsar(id, meta),
            ),
            Request::AddPar { path, pulsar, master } => resolves_pulsar(
                start,
                path,
                pulsar@,
                master,
                None,
            ),
            Request::UpdatePar { id, path, pulsar, master } => resolves_pulsar(
                start,
                path,
                pulsar@,
                master,
                Some(id),
            ),
            Request::SetupPipes { raw, ephemeride, template } => {
                &&& start.0 == Handler::ParsingRaw { ephemeride, template }
                &&& start.1 matches Call::ParseRaw(text)
                &&& text@ == trimmed(raw@)
            },
            Request::RunPipeline { raw, ephemeride, template } => start == (
                Handler::Cooking,
                Call::Cook { raw, ephemeride, template },
            ),
        }
    }

    /// Begins the handling of the request: returns where it stands and the
    /// first call to make. The answer to the call goes to
    /// [`Handler::resume`], which says what comes next.
    pub fn handle(self) -> (start: (Handler, Call))
        ensures
            self.begins(start),
    {
        match self {
            Request::Commit => (Handler::Commit, Call::Commit),
            Request::Rollback => (Handler::Rollback, Call::Rollback),
            Request::DeleteItem(kind, id) => (Handler::Delete(kind, id), Call::Delete(kind, id)),
            Request::Download(DataType::Pulsar, FetchType::All) => (
                Handler::Pulsars,
                Call::GetAllPulsars,
            ),
            Request::Download(DataType::Pulsar, FetchType::Id(id)) => (
                Handler::Pulsar,
                Call::GetPulsar(id),
            ),
            Request::Download(DataType::Ephemeride, FetchType::All) => (
                Handler::Pars,
                Call::GetAllPars,
            ),
            Request::Download(DataType::Ephemeride, FetchType::Id(id)) => (
                Handler::Par,
                Call::GetPar(id),
            ),
            Request::Download(DataType::Toa, FetchType::All) => (Handler::TOAs, Call::GetAllTOAs),
            Request::Download(DataType::Toa, FetchType::Id(id)) => (Handler::TOA, Call::GetTOA(id)),
            Request::AddPulsar(meta) => (Handler::AddPulsar, Call::InsertPulsar(meta)),
            Request::UpdatePulsar(id, meta) => (
                Handler::UpdatePulsar(id),
                Call::UpdatePulsar(id, meta),
            ),
            Request::AddPar { path, pulsar, master } => parse_pulsar(path, pulsar, master, None),
            Request::UpdatePar { id, path, pulsar, master } => parse_pulsar(
                path,
                pulsar,
                master,
                Some(id),
            ),
            Request::SetupPipes { raw, ephemeride, template } => {
                let text = trim(raw.as_str());
                (Handler::ParsingRaw { ephemeride, template }, Call::ParseRaw(text))
            },
            Request::RunPipeline { raw, ephemeride, template } => (
                Handler::Cooking,
                Call::Cook { raw, ephemeride, template },
            ),
        }
    }
}

/// `start` looks the pulsar of an ephemeride up. The text `pulsar` is
/// trimmed; where it reads as a number then, the number is an id, which must
/// be in the archive, and any other text is an alias to search for.
pub open spec fn resolves_pulsar(
    start: (Handler, Call),
    path: String,
    pulsar: Seq<char>,
    master: bool,
    overwrite: Option<i32>,
) -> bool {
    let text = trimmed(pulsar);
    &&& start.0 matches Handler::ResolvingPulsar {
        path: kept_path,
        pulsar: kept,
        master: kept_master,
        overwrite: kept_overwrite,
        asserted,
    }
    &&& kept_path == path
    &&& kept@ == text
    &&& kept_master == master
    &&& kept_overwrite == overwrite
    &&& asserted == parsed_i32(text)
    &&& match parsed_i32(text) {
        Some(id) => start.1 == Call::AssertPulsar(id),
        None => start.1 matches Call::FindPulsar(condition) && condition@ == alias_condition(text),
    }
}

/// Reads `pulsar` as an id or as an alias, and asks the archive for it.
fn parse_pulsar(path: String, pulsar: String, master: bool, overwrite: Option<i32>) -> (start: (
    Handler,
    Call,
))
    ensures
        resolves_pulsar(start, path, pulsar@, master, overwrite),
{
    let pulsar = trim(pulsar.as_str());
    match parse_i32(pulsar.as_str()) {
        Some(id) => (
            Handler::ResolvingPulsar { path, pulsar, master, overwrite, asserted: Some(id) },
            Call::AssertPulsar(id),
        ),
        None => {
            let condition = String::from_str("alias='").concat(pulsar.as_str()).concat("'");
            (
                Handler::ResolvingPulsar { path, pulsar, master, overwrite, asserted: None },
                Call::FindPulsar(condition),
            )
        },
    }
}

fn make_par_data(meta: &ParMeta, pulsar: PulsarMeta) -> (r: ParData)
    ensures
        r == named_par(*meta, pulsar),
{
    ParData {
        id: meta.id,
        pulsar_id: meta.pulsar_id,
        pulsar_name: pulsar.alias,
        path: meta.file_path.clone(),
    }
}

fn make_toa_data(meta: &TOAInfo, pulsar: PulsarMeta) -> (r: TOAData)
    ensures
        r == named_toa(*meta, pulsar),
{
    TOAData {
        id: meta.id,
        process: meta.process_id,
        pulsar: pulsar.alias,
        observer: meta.observer_id,
        template: meta.template_id,
        frequency: meta.frequency,
        time: meta.time,
        error: meta.toa_err,
    }
}

/// The step for an answer of the wrong kind.
fn unexpected() -> (step: Step)
    ensures
        step.is_unexpected(),
{
    Step::Reply(
        Message::Error(ArchiveError::Other("Unexpected answer from the archive".to_owned())),
    )
}

/// Writes the ephemeride, now that its pulsar is known.
fn store_par(path: String, pulsar_id: i32, master: bool, overwrite: Option<i32>) -> (step: Step)
    ensures
        step.stores_par(path, pulsar_id, master, overwrite),
{
    match overwrite {
        None => Step::Ask(
            Handler::StoringPar { pulsar_id, master, overwrite },
            Call::InsertPar { path, pulsar_id },
        ),
        Some(id) => Step::Ask(
            Handler::StoringPar { pulsar_id, master, overwrite },
            Call::UpdatePar { id, path, pulsar_id },
        ),
    }
}

/// Follows the storing of the ephemeride `id`.
fn mark_or_report(id: i32, pulsar_id: i32, master: bool) -> (step: Step)
    ensures
        step.marks_or_reports(id, pulsar_id, master),
{
    if master {
        let number = decimal(id as i128);
        let value = String::from_str("master_parfile_id=").concat(number.as_str());
        Step::Ask(Handler::MarkingMaster { id }, Call::UpdatePulsarField { id: pulsar_id, value })
    } else {
        Step::Reply(Message::ItemAdded(DataType::Ephemeride, id))
    }
}

/// Asks for the template of a pipeline job.
fn parse_template(raw: RawMeta, ephemeride: Option<ParMeta>, template: String) -> (step: Step)
    ensures
        step.parses_template(raw, ephemeride, template@),
{
    let text = trim(template.as_str());
    let given = raw.clone();
    Step::Ask(Handler::ParsingTemplate { raw, ephemeride }, Call::ParseTemplate(given, text))
}

/// `step` is what follows once the first `named` of the ephemerides
/// `metas` have the alias of their pulsar: the pulsar of the next one is
/// asked for, and with none left the download is reported.
pub open spec fn names_pars(metas: Vec<ParMeta>, named: Seq<ParData>, step: Step) -> bool {
    if named.len() < metas@.len() {
        &&& step matches Step::Ask(
            Handler::NamingPars { metas: kept, named: so_far },
            Call::GetPulsar(id),
        )
        &&& kept == metas
        &&& so_far@ == named
        &&& id == metas@[named.len() as int].pulsar_id
    } else {
        &&& step matches Step::Reply(Message::Ephemerides(all))
        &&& all@ == named
    }
}

/// As `names_pars`, for times of arrival.
pub open spec fn names_toas(metas: Vec<TOAInfo>, named: Seq<TOAData>, step: Step) -> bool {
    if named.len() < metas@.len() {
        &&& step matches Step::Ask(
            Handler::NamingTOAs { metas: kept, named: so_far },
            Call::GetPulsar(id),
        )
        &&& kept == metas
        &&& so_far@ == named
        &&& id == metas@[named.len() as int].pulsar_id
    } else {
        &&& step matches Step::Reply(Message::TOAs(all))
        &&& all@ == named
    }
}

impl Handler {
    /// `step` is what follows on `answer` where the handling stands at
    /// `self`. A failure closes the request with its error, wherever the
    /// handling stands. An answer of a kind that the call cannot give closes
    /// it with an error of its own.
    pub open spec fn leads(self, answer: Answer, step: Step) -> bool {
        match (self, answer) {
            (_, Answer::Failed(error)) => step == Step::Reply(Message::Error(error)),
            (Handler::Commit, Answer::Done) => step == Step::Reply(Message::CommitSuccess),
            (Handler::Rollback, Answer::Done) => step == Step::Reply(Message::RollbackSuccess),
            (Handler::Delete(kind, id), Answer::Done) => step == Step::Reply(
                Message::ItemDeleted(kind, id),
            ),
            (Handler::Pulsars, Answer::Pulsars(pulsars)) => step == Step::Reply(
                Message::Pulsars(pulsars),
            ),
            (Handler::Pulsar, Answer::Pulsar(pulsar)) => step == Step::Reply(
                Message::SinglePulsar(pulsar),
            ),
            (Handler::AddPulsar, Answer::Id(id)) => step == Step::Reply(
                Message::ItemAdded(DataType::Pulsar, id),
            ),
            (Handler::UpdatePulsar(id), Answer::Done) => step == Step::Reply(
                Message::ItemUpdated(DataType::Pulsar, id),
            ),
            (Handler::Pars, Answer::Pars(metas)) => names_pars(metas, Seq::empty(), step),
            (Handler::NamingPars { metas, named }, Answer::Pulsar(pulsar)) => {
                if named@.len() < metas@.len() {
                    names_pars(
                        metas,
                        named@.push(named_par(metas@[named@.len() as int], pulsar)),
                        step,
                    )
                } else {
                    names_pars(metas, named@, step)
                }
            },
            (Handler::Par, Answer::Par(meta)) => step == Step::Ask(
                Handler::NamingPar { meta },
                Call::GetPulsar(meta.pulsar_id),
            ),
            (Handler::NamingPar { meta }, Answer::Pulsar(pulsar)) => step == Step::Reply(
                Message::SingleEphemeride(named_par(meta, pulsar)),
            ),
            (Handler::TOAs, Answer::TOAs(metas)) => names_toas(metas, Seq::empty(), step),
            (Handler::NamingTOAs { metas, named }, Answer::Pulsar(pulsar)) => {
                if named@.len() < metas@.len() {
                    names_toas(
                        metas,
                        named@.push(named_toa(metas@[named@.len() as int], pulsar)),
                        step,
                    )
                } else {
                    names_toas(metas, named@, step)
                }
            },
            (Handler::TOA, Answer::TOA(meta)) => step == Step::Ask(
                Handler::NamingTOA { meta },
                Call::GetPulsar(meta.pulsar_id),
            ),
            (Handler::NamingTOA { meta }, Answer::Pulsar(pulsar)) => step == Step::Reply(
                Message::SingleTOA(named_toa(meta, pulsar)),
            ),
            (
                Handler::ResolvingPulsar { path, pulsar, master, overwrite, asserted: Some(id) },
                Answer::Done,
            ) => step.stores_par(path, id, master, overwrite),
            (
                Handler::ResolvingPulsar { path, pulsar, master, overwrite, asserted: None },
                Answer::MaybePulsar(Some(found)),
            ) => step.stores_par(path, found.id, master, overwrite),
            (
                Handler::ResolvingPulsar { path, pulsar, master, overwrite, asserted: None },
                Answer::MaybePulsar(None),
            ) => {
                &&& step matches Step::Reply(Message::Error(ArchiveError::CantFind(thing)))
                &&& thing@ == missing_alias(pulsar@)
            },
            (Handler::StoringPar { pulsar_id, master, overwrite: None }, Answer::Id(id)) => {
                step.marks_or_reports(id, pulsar_id, master)
            },
            (Handler::StoringPar { pulsar_id, master, overwrite: Some(id) }, Answer::Done) => {
                step.marks_or_reports(id, pulsar_id, master)
            },
            (Handler::MarkingMaster { id }, Answer::Done) => step == Step::Reply(
                Message::ItemAdded(DataType::Ephemeride, id),
            ),
            (Handler::ParsingRaw { ephemeride, template }, Answer::Raw(raw)) => {
                if trimmed(ephemeride@).len() == 0 {
                    step.parses_template(raw, None, template@)
                } else {
                    &&& step matches Step::Ask(
                        Handler::ParsingEphemeride { raw: kept, template: later },
                        Call::ParseEphemeride(given, text),
                    )
                    &&& kept == raw
                    &&& later == template
                    &&& given == raw
                    &&& text@ == trimmed(ephemeride@)
                }
            },
            (Handler::ParsingEphemeride { raw, template }, Answer::Par(par)) => {
                step.parses_template(raw, Some(par), template@)
            },
            (Handler::ParsingTemplate { raw, ephemeride }, Answer::Template(template)) => step
                == Step::Reply(Message::PipesSetUp(raw, ephemeride, template)),
            (Handler::Cooking, Answer::Done) => step == Step::Reply(Message::PipelineFinished),
            _ => step.is_unexpected(),
        }
    }

    /// Takes the answer to the call that was asked last, and says what comes
    /// next.
    pub fn resume(self, answer: Answer) -> (step: Step)
        ensures
            self.leads(answer, step),
    {
        match (self, answer) {
            (_, Answer::Failed(error)) => Step::Reply(Message::Error(error)),
            (Handler::Commit, Answer::Done) => Step::Reply(Message::CommitSuccess),
            (Handler::Rollback, Answer::Done) => Step::Reply(Message::RollbackSuccess),
            (Handler::Delete(kind, id), Answer::Done) => Step::Reply(
                Message::ItemDeleted(kind, id),
            ),
            (Handler::Pulsars, Answer::Pulsars(pulsars)) => Step::Reply(Message::Pulsars(pulsars)),
            (Handler::Pulsar, Answer::Pulsar(pulsar)) => Step::Reply(Message::SinglePulsar(pulsar)),
            (Handler::AddPulsar, Answer::Id(id)) => Step::Reply(
                Message::ItemAdded(DataType::Pulsar, id),
            ),
            (Handler::UpdatePulsar(id), Answer::Done) => Step::Reply(
                Message::ItemUpdated(DataType::Pulsar, id),
            ),
            (Handler::Pars, Answer::Pars(metas)) => get_pars(metas, Vec::new()),
            (Handler::NamingPars { metas, named }, Answer::Pulsar(pulsar)) => {
                let mut named = named;
                if named.len() < metas.len() {
                    let data = make_par_data(&metas[named.len()], pulsar);
                    named.push(data);
                }
                get_pars(metas, named)
            },
            (Handler::Par, Answer::Par(meta)) => {
                let id = meta.pulsar_id;
                Step::Ask(Handler::NamingPar { meta }, Call::GetPulsar(id))
            },
            (Handler::NamingPar { meta }, Answer::Pulsar(pulsar)) => Step::Reply(
                Message::SingleEphemeride(make_par_data(&meta, pulsar)),
            ),
            (Handler::TOAs, Answer::TOAs(metas)) => get_toas(metas, Vec::new()),
            (Handler::NamingTOAs { metas, named }, Answer::Pulsar(pulsar)) => {
                let mut named = named;
                if named.len() < metas.len() {
                    let data = make_toa_data(&metas[named.len()], pulsar);
                    named.push(data);
                }
                get_toas(metas, named)
            },
            (Handler::TOA, Answer::TOA(meta)) => {
                let id = meta.pulsar_id;
                Step::Ask(Handler::NamingTOA { meta }, Call::GetPulsar(id))
            },
            (Handler::NamingTOA { meta }, Answer::Pulsar(pulsar)) => Step::Reply(
                Message::SingleTOA(make_toa_data(&meta, pulsar)),
            ),
            (
                Handler::ResolvingPulsar { path, pulsar, master, overwrite, asserted: Some(id) },
                Answer::Done,
            ) => store_par(path, id, master, overwrite),
            (
                Handler::ResolvingPulsar { path, pulsar, master, overwrite, asserted: None },
                Answer::MaybePulsar(Some(found)),
            ) => store_par(path, found.id, master, overwrite),
            (
                Handler::ResolvingPulsar { path, pulsar, master, overwrite, asserted: None },
                Answer::MaybePulsar(None),
            ) => {
                let thing = String::from_str("Pulsar with alias \"").concat(
                    pulsar.as_str(),
                ).concat("\"");
                Step::Reply(Message::Error(ArchiveError::CantFind(thing)))
            },
            (Handler::StoringPar { pulsar_id, master, overwrite: None }, Answer::Id(id)) => {
                mark_or_report(id, pulsar_id, master)
            },
            (Handler::StoringPar { pulsar_id, master, overwrite: Some(id) }, Answer::Done) => {
                mark_or_report(id, pulsar_id, master)
            },
            (Handler::MarkingMaster { id }, Answer::Done) => Step::Reply(
                Message::ItemAdded(DataType::Ephemeride, id),
            ),
            (Handler::ParsingRaw { ephemeride, template }, Answer::Raw(raw)) => {
                let text = trim(ephemeride.as_str());
                if text.as_str().is_empty() {
                    parse_template(raw, None, template)
                } else {
                    let given = raw.clone();
                    Step::Ask(
                        Handler::ParsingEphemeride { raw, template },
                        Call::ParseEphemeride(given, text),
                    )
                }
            },
            (Handler::ParsingEphemeride { raw, template }, Answer::Par(par)) => {
                parse_template(raw, Some(par), template)
            },
            (Handler::ParsingTemplate { raw, ephemeride }, Answer::Template(template)) => {
                Step::Reply(Message::PipesSetUp(raw, ephemeride, template))
            },
            (Handler::Cooking, Answer::Done) => Step::Reply(Message::PipelineFinished),
            _ => unexpected(),
        }
    }
}

/// Goes on with the download of the ephemerides `metas`, of which `named`
/// have the alias of their pulsar.
fn get_pars(metas: Vec<ParMeta>, named: Vec<ParData>) -> (step: Step)
    ensures
        names_pars(metas, named@, step),
{
    if named.len() < metas.len() {
        let id = metas[named.len()].pulsar_id;
        Step::Ask(Handler::NamingPars { metas, named }, Call::GetPulsar(id))
    } else {
        Step::Reply(Message::Ephemerides(named))
    }
}

/// Goes on with the download of the times of arrival `metas`, of which
/// `named` have the alias of their pulsar.
fn get_toas(metas: Vec<TOAInfo>, named: Vec<TOAData>) -> (step: Step)
    ensures
        names_toas(metas, named@, step),
{
    if named.len() < metas.len() {
        let id = metas[named.len()].pulsar_id;
        Step::Ask(Handler::NamingTOAs { metas, named }, Call::GetPulsar(id))
    } else {
        Step::Reply(Message::TOAs(named))
    }
}

impl Handler {
    /// How many of the phases of its request the handling has before it.
    pub open spec fn phase(self) -> nat {
        match self {
            Handler::ParsingRaw { .. } | Handler::ResolvingPulsar { .. } => 3,
            Handler::ParsingEphemeride { .. }
            | Handler::StoringPar { .. }
            | Handler::Pars
            | Handler::Par
            | Handler::TOAs
            | Handler::TOA => 2,
            _ => 1,
        }
    }

    /// How many records still wait for the alias of their pulsar.
    pub open spec fn unnamed(self) -> nat {
        match self {
            Handler::NamingPars { metas, named } => if named@.len() < metas@.len() {
                (metas@.len() - named@.len()) as nat
            } else {
                0
            },
            Handler::NamingTOAs { metas, named } => if named@.len() < metas@.len() {
                (metas@.len() - named@.len()) as nat
            } else {
                0
            },
            _ => 0,
        }
    }
}

/// Every request is closed by one message, after finitely many calls: a step
/// either closes the request, with a message that is no progress event, or
/// asks a call that brings the handling nearer to its end.
pub proof fn lemma_handling_ends(handler: Handler, answer: Answer, step: Step)
    requires
        handler.leads(answer, step),
    ensures
        step matches Step::Reply(message) ==> message.is_terminal(),
        step matches Step::Ask(next, _) ==> next.phase() < handler.phase() || (next.phase()
            == handler.phase() && next.unnamed() < handler.unnamed()),
{
}

/// A failure closes the request with its error, wherever the handling stands:
/// no call follows it.
pub proof fn lemma_failure_closes(handler: Handler, error: ArchiveError, step: Step)
    requires
        handler.leads(Answer::Failed(error), step),
    ensures
        step == Step::Reply(Message::Error(error)),
{
}

/// With an ephemeride field that is empty once trimmed, a pipeline job is set
/// up without an ephemeride: the template is asked for next, and with it the
/// job is reported as set up on the raw file, no ephemeride and the template.
pub proof fn lemma_empty_ephemeride(
    ephemeride: String,
    template: String,
    raw: RawMeta,
    resolved: TemplateMeta,
    first: Step,
    second: Step,
)
    requires
        trimmed(ephemeride@).len() == 0,
        (Handler::ParsingRaw { ephemeride, template }).leads(Answer::Raw(raw), first),
        first matches Step::Ask(next, _) && next.leads(Answer::Template(resolved), second),
    ensures
        first matches Step::Ask(_, Call::ParseTemplate(_, _)),
        second == Step::Reply(Message::PipesSetUp(raw, None, resolved)),
{
}

/// A request to add or to overwrite an ephemeride names its pulsar by an
/// alias where the trimmed text is no number: the archive is then searched
/// for the alias and not asked for an id. Where the search finds nothing,
/// the request is closed with the error that the pulsar cannot be found:
/// nothing is written to the archive and nothing is reported as added.
pub proof fn lemma_unknown_alias_is_not_stored(
    path: String,
    pulsar: String,
    master: bool,
    overwrite: Option<i32>,
    start: (Handler, Call),
    step: Step,
)
    requires
        parsed_i32(trimmed(pulsar@)).is_none(),
        (match overwrite {
            None => Request::AddPar { path, pulsar, master },
            Some(id) => Request::UpdatePar { id, path, pulsar, master },
        }).begins(start),
        start.0.leads(Answer::MaybePulsar(None), step),
    ensures
        start.1 matches Call::FindPulsar(condition) && condition@ == alias_condition(
            trimmed(pulsar@),
        ),
        step matches Step::Reply(Message::Error(ArchiveError::CantFind(thing))) && thing@
            == missing_alias(trimmed(pulsar@)),
{
}

/// An ephemeride whose pulsar is named by an alias that the archive does not
/// know is not stored: the request is closed with the error that the pulsar
/// cannot be found.
pub proof fn lemma_unknown_alias(
    path: String,
    pulsar: String,
    master: bool,
    overwrite: Option<i32>,
    step: Step,
)
    requires
        (Handler::ResolvingPulsar { path, pulsar, master, overwrite, asserted: None }).leads(
            Answer::MaybePulsar(None),
            step,
        ),
    ensures
        step matches Step::Reply(Message::Error(ArchiveError::CantFind(thing))) && thing@
            == missing_alias(pulsar@),
{
}

} // verus!
