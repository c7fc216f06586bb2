//! The interface as a whole: what a message of the worker does to the tabs,
//! to the message bar and to the pipeline.

use crate::ephemerides::EphemerideApp;
use crate::error::ArchiveError;
use crate::helpers::downloader::{holds_id, position};
use crate::helpers::{noted, push_notice, StatusMessage, StatusMessageSeverity};
use crate::pipeline::{PipeStageView, PipelineApp, RunInfoView, Status};
use crate::pulsars::PulsarsApp;
use crate::syncher::{DataType, Message, Request};
use crate::text::{decimal, decimal_text};
use crate::toas::TOAsApp;
use vstd::prelude::*;
use vstd::string::*;

verus! {

/// The tabs of the window.
#[derive(Debug, Clone, Copy, PartialEq, Eq, Structural)]
pub enum Tab {
    Pulsars,
    Ephemerides,
    Templates,
    Observatories,
    TOAs,
    Pipeline,
}

/// What the interface holds between two frames: the tabs with their caches,
/// the pipeline's state, the message bar, and whether the archive has a live
/// transaction.
pub struct Application {
    pub tab: Tab,
    pub has_live_transaction: bool,
    pub messages: Vec<StatusMessage>,
    pub pulsars: PulsarsApp,
    pub ephemerides: EphemerideApp,
    pub toas: TOAsApp,
    pub pipeline: PipelineApp,
}

/// The words of the notice that a record of the kind `kind` was dealt with:
/// `deed` says how.
pub open spec fn success_words(deed: Seq<char>, kind: DataType, id: i32) -> Seq<char> {
    "Successfully "@ + deed + " "@ + kind.name() + " #"@ + decimal_text(id as int)
}

/// The notice that a record was dealt with.
fn success(deed: &str, kind: DataType, id: i32) -> (r: String)
    ensures
        r@ == success_words(deed@, kind, id),
{
    String::from_str("Successfully ").concat(deed).concat(" ").concat(
        kind.to_string().as_str(),
    ).concat(" #").concat(decimal(id as i128).as_str())
}

impl Application {
    pub fn new() -> (r: Self)
        ensures
            r.is_new(),
    {
        Self {
            tab: Tab::Pulsars,
            has_live_transaction: false,
            messages: Vec::new(),
            pulsars: PulsarsApp::new(),
            ephemerides: EphemerideApp::new(),
            toas: TOAsApp::new(),
            pipeline: PipelineApp::new(),
        }
    }

    /// The interface as it starts out: the pulsar tab is shown, the archive
    /// has no live transaction, the message bar is empty, each of the three
    /// tabs is new, and the pipeline waits for its inputs with nothing
    /// entered.
    pub open spec fn is_new(self) -> bool {
        &&& self.tab == Tab::Pulsars
        &&& !self.has_live_transaction
        &&& self.messages@.len() == 0
        &&& self.pulsars.is_new()
        &&& self.ephemerides.is_new()
        &&& self.toas.is_new()
        &&& self.pipeline@ == PipeStageView::blank()
    }

    /// Nothing but the message bar differs from `before`.
    pub open spec fn keeps_all_but_messages(self, before: Self) -> bool {
        &&& self.tab == before.tab
        &&& self.has_live_transaction == before.has_live_transaction
        &&& self.pulsars == before.pulsars
        &&& self.ephemerides == before.ephemerides
        &&& self.toas == before.toas
        &&& self.pipeline == before.pipeline
    }

    /// The tabs are as in `before`, but for their caches.
    pub open spec fn keeps_tabs(self, before: Self) -> bool {
        &&& self.tab == before.tab
        &&& self.pulsars.messages == before.pulsars.messages
        &&& self.pulsars.keeps_form(before.pulsars)
        &&& self.ephemerides.messages == before.ephemerides.messages
        &&& self.ephemerides.keeps_form(before.ephemerides)
        &&& self.toas.messages == before.toas.messages
    }

    /// The caches are as in `before`.
    pub open spec fn keeps_caches(self, before: Self) -> bool {
        &&& self.pulsars.downloader@ == before.pulsars.downloader@
        &&& self.ephemerides.downloader@ == before.ephemerides.downloader@
        &&& self.toas.downloader@ == before.toas.downloader@
    }

    /// The buttons for the transaction: committing and rolling back are live
    /// only while the archive has a live transaction, and committing wins.
    pub fn sql_buttons(&self, save: bool, rollback: bool) -> (request: Option<Request>)
        ensures
            request == if self.has_live_transaction && save {
                Some(Request::Commit)
            } else if self.has_live_transaction && rollback {
                Some(Request::Rollback)
            } else {
                None
            },
    {
        if self.has_live_transaction && save {
            Some(Request::Commit)
        } else if self.has_live_transaction && rollback {
            Some(Request::Rollback)
        } else {
            None
        }
    }

    /// The message bar: `clear` empties it.
    pub fn message_bar(&mut self, clear: bool)
        ensures
            final(self).keeps_all_but_messages(*old(self)),
            clear ==> final(self).messages@.len() == 0,
            !clear ==> final(self).messages == old(self).messages,
    {
        if clear {
            self.messages.clear();
        }
    }

    /// `after` is the interface once it has taken `message` in.
    pub open spec fn handles(self, message: Message, after: Self) -> bool {
        match message {
            Message::Error(error) => {
                &&& noted(
                    self.messages@,
                    after.messages@,
                    StatusMessageSeverity::Error,
                    "Error: "@ + error.text(),
                )
                &&& after.keeps_tabs(self)
                &&& after.has_live_transaction == self.has_live_transaction
                &&& after.pulsars.downloader@ == self.pulsars.downloader@.stopped()
                &&& after.ephemerides.downloader@ == self.ephemerides.downloader@.stopped()
                &&& after.toas.downloader@ == self.toas.downloader@.stopped()
                &&& after.pipeline@ == self.pipeline@.failed()
            },
            Message::Connected => self.informed(after, "Connected!"@, self.has_live_transaction),
            Message::CommitSuccess => self.informed(
                after,
                "Commit successful! (list not updated)"@,
                false,
            ),
            Message::RollbackSuccess => self.informed(after, "Rollback successful!"@, false),
            Message::ItemAdded(kind, id) => self.changed(after, "added"@, kind, id, true),
            Message::ItemDeleted(kind, id) => self.changed(after, "deleted"@, kind, id, true),
            Message::ItemUpdated(kind, id) => self.changed(after, "updated"@, kind, id, false),
            Message::Pulsars(pulsars) => {
                &&& self.warned_if_empty(after, pulsars@.len(), "No pulsars to download!"@)
                &&& after.pulsars.downloader@ == self.pulsars.downloader@.replaced(pulsars@)
                &&& after.ephemerides.downloader@ == self.ephemerides.downloader@
                &&& after.toas.downloader@ == self.toas.downloader@
            },
            Message::SinglePulsar(pulsar) => {
                &&& self.quiet(after)
                &&& after.pulsars.downloader@ == self.pulsars.downloader@.with_item(pulsar)
                &&& after.ephemerides.downloader@ == self.ephemerides.downloader@
                &&& after.toas.downloader@ == self.toas.downloader@
            },
            Message::Ephemerides(pars) => {
                &&& self.warned_if_empty(after, pars@.len(), "No ephemerides to download!"@)
                &&& after.pulsars.downloader@ == self.pulsars.downloader@
                &&& after.ephemerides.downloader@ == self.ephemerides.downloader@.replaced(pars@)
                &&& after.toas.downloader@ == self.toas.downloader@
            },
            Message::SingleEphemeride(par) => {
                &&& self.quiet(after)
                &&& after.pulsars.downloader@ == self.pulsars.downloader@
                &&& after.ephemerides.downloader@ == self.ephemerides.downloader@.with_item(par)
                &&& after.toas.downloader@ == self.toas.downloader@
            },
            Message::TOAs(toas) => {
                &&& self.quiet(after)
                &&& after.pulsars.downloader@ == self.pulsars.downloader@
                &&& after.ephemerides.downloader@ == self.ephemerides.downloader@
                &&& after.toas.downloader@ == self.toas.downloader@.replaced(toas@)
            },
            Message::SingleTOA(toa) => {
                &&& self.quiet(after)
                &&& after.pulsars.downloader@ == self.pulsars.downloader@
                &&& after.ephemerides.downloader@ == self.ephemerides.downloader@
                &&& after.toas.downloader@ == self.toas.downloader@.with_item(toa)
            },
            Message::PipesSetUp(raw, ephemeride, template) => {
                &&& after.messages@ == self.messages@
                &&& after.keeps_tabs(self)
                &&& after.keeps_caches(self)
                &&& after.has_live_transaction == self.has_live_transaction
                &&& after.pipeline@ == (PipeStageView::SetUp { raw, ephemeride, template })
            },
            Message::PipelineStatus(status) => {
                &&& after.keeps_tabs(self)
                &&& after.keeps_caches(self)
                &&& after.has_live_transaction == self.has_live_transaction
                &&& match status {
                    Status::Error(words) => noted(
                        self.messages@,
                        after.messages@,
                        StatusMessageSeverity::Error,
                        "Error: "@ + words@,
                    ),
                    _ => after.messages@ == self.messages@,
                }
                &&& after.pipeline@ == self.pipeline@.progressed(status)
            },
            Message::PipelineFinished => self.informed(
                after,
                "Pipeline finished!"@,
                self.has_live_transaction,
            ),
        }
    }

    /// `after` is `self` with one more notice of good news, and with the
    /// given knowledge of a live transaction.
    pub open spec fn informed(self, after: Self, words: Seq<char>, live: bool) -> bool {
        &&& noted(self.messages@, after.messages@, StatusMessageSeverity::Info, words)
        &&& after.has_live_transaction == live
        &&& after.keeps_tabs(self)
        &&& after.keeps_caches(self)
        &&& after.pipeline == self.pipeline
    }

    /// `after` is `self` once a record of the kind `kind` was added, deleted
    /// or updated: the news is noted and the transaction is live; `reset`
    /// says that the cache of that kind gives its selection up.
    pub open spec fn changed(
        self,
        after: Self,
        deed: Seq<char>,
        kind: DataType,
        id: i32,
        reset: bool,
    ) -> bool {
        &&& noted(
            self.messages@,
            after.messages@,
            StatusMessageSeverity::Info,
            success_words(deed, kind, id),
        )
        &&& after.has_live_transaction
        &&& after.keeps_tabs(self)
        &&& after.pipeline == self.pipeline
        &&& after.pulsars.downloader@ == if reset && kind == DataType::Pulsar {
            self.pulsars.downloader@.deselected()
        } else {
            self.pulsars.downloader@
        }
        &&& after.ephemerides.downloader@ == if reset && kind == DataType::Ephemeride {
            self.ephemerides.downloader@.deselected()
        } else {
            self.ephemerides.downloader@
        }
        &&& after.toas.downloader@ == if reset && kind == DataType::Toa {
            self.toas.downloader@.deselected()
        } else {
            self.toas.downloader@
        }
    }

    /// `after` says and knows what `self` does, the caches aside.
    pub open spec fn quiet(self, after: Self) -> bool {
        &&& after.messages@ == self.messages@
        &&& after.has_live_transaction == self.has_live_transaction
        &&& after.keeps_tabs(self)
        &&& after.pipeline == self.pipeline
    }

    /// `after` is `self` once a download of `count` records arrived: an empty
    /// one is warned of with `words`; the caches are spoken of elsewhere.
    pub open spec fn warned_if_empty(self, after: Self, count: nat, words: Seq<char>) -> bool {
        &&& if count == 0 {
            noted(self.messages@, after.messages@, StatusMessageSeverity::Warning, words)
        } else {
            after.messages@ == self.messages@
        }
        &&& after.has_live_transaction == self.has_live_transaction
        &&& after.keeps_tabs(self)
        &&& after.pipeline == self.pipeline
    }

    /// Takes in a message of the worker.
    pub fn handle_message(&mut self, message: Message)
        ensures
            old(self).handles(message, *final(self)),
    {
        match message {
            Message::Error(err) => {
                self.error(err.to_string());
                self.pulsars.reset_ui();
                self.ephemerides.reset_ui();
                self.toas.reset_ui();
                if self.pipeline.is_setting_up() {
                    self.pipeline.reset();
                }
            },
            Message::Connected => self.info("Connected!".to_owned()),
            Message::CommitSuccess => {
                self.info("Commit successful! (list not updated)".to_owned());
                self.has_live_transaction = false;
            },
            Message::RollbackSuccess => {
                self.info("Rollback successful!".to_owned());
                self.has_live_transaction = false;
            },
            Message::ItemAdded(dt, id) => {
                self.info(success("added", dt, id));
                self.reset_part(&dt);
                self.has_live_transaction = true;
            },
            Message::ItemDeleted(dt, id) => {
                self.info(success("deleted", dt, id));
                self.reset_part(&dt);
                self.has_live_transaction = true;
            },
            Message::ItemUpdated(dt, id) => {
                self.info(success("updated", dt, id));
                self.has_live_transaction = true;
            },
            Message::Pulsars(pulsars) => {
                if pulsars.len() == 0 {
                    self.warn("No pulsars to download!".to_owned());
                }
                self.pulsars.downloader.set(pulsars);
            },
            Message::SinglePulsar(pulsar) => {
                self.pulsars.downloader.add(pulsar);
            },
            Message::Ephemerides(pars) => {
                if pars.len() == 0 {
                    self.warn("No ephemerides to download!".to_owned());
                }
                self.ephemerides.downloader.set(pars);
            },
            Message::SingleEphemeride(par) => {
                self.ephemerides.downloader.add(par);
            },
            Message::TOAs(toas) => self.toas.downloader.set(toas),
            Message::SingleTOA(toa) => self.toas.downloader.add(toa),
            Message::PipesSetUp(raw_meta, par_meta, template_meta) => {
                self.pipeline.set_up(raw_meta, par_meta, template_meta);
            },
            Message::PipelineStatus(s) => {
                if let Status::Error(err) = &s {
                    let words = String::from_str("Error: ").concat(err.as_str());
                    push_notice(&mut self.messages, StatusMessageSeverity::Error, words);
                }
                self.pipeline.set_status(s);
            },
            Message::PipelineFinished => self.info("Pipeline finished!".to_owned()),
        }
    }

    /// The start of a frame: takes in the message that waits in the inbox, if
    /// there is one.
    pub fn update(&mut self, inbox: Option<Message>)
        ensures
            match inbox {
                Some(message) => old(self).handles(message, *final(self)),
                None => *final(self) == *old(self),
            },
    {
        if let Some(message) = inbox {
            self.handle_message(message);
        }
    }

    /// The end of a frame. On the ephemeride tab, a pulsar that was asked for
    /// is selected on the pulsar tab, which is shown next. Then the notices
    /// of the tabs move to the message bar: those of the pulsars first, then
    /// those of the ephemerides and of the times of arrival.
    pub fn collect(&mut self)
        ensures
            final(self).messages@ == old(self).messages@ + old(self).pulsars.messages@ + old(
                self,
            ).ephemerides.messages@ + old(self).toas.messages@,
            final(self).pulsars.messages@.len() == 0,
            final(self).ephemerides.messages@.len() == 0,
            final(self).toas.messages@.len() == 0,
            final(self).has_live_transaction == old(self).has_live_transaction,
            final(self).pipeline == old(self).pipeline,
            final(self).pulsars.keeps_form(old(self).pulsars),
            final(self).toas.downloader == old(self).toas.downloader,
            final(self).ephemerides.downloader == old(self).ephemerides.downloader,
            final(self).ephemerides.sort_by == old(self).ephemerides.sort_by,
            final(self).ephemerides.new_par == old(self).ephemerides.new_par,
            final(self).ephemerides.new_par_pid == old(self).ephemerides.new_par_pid,
            final(self).ephemerides.new_par_mastery == old(self).ephemerides.new_par_mastery,
            match old(self).ephemerides.move_to_pulsar_id {
                Some(id) if old(self).tab == Tab::Ephemerides => {
                    &&& final(self).tab == Tab::Pulsars
                    &&& final(self).ephemerides.move_to_pulsar_id.is_none()
                    &&& final(self).pulsars.downloader@ == (if holds_id(
                        old(self).pulsars.downloader@.items,
                        id,
                    ) {
                        old(self).pulsars.downloader@.toggled(
                            position(old(self).pulsars.downloader@.items, id) as usize,
                        )
                    } else {
                        old(self).pulsars.downloader@
                    })
                },
                _ => {
                    &&& final(self).tab == old(self).tab
                    &&& final(self).ephemerides.move_to_pulsar_id == old(
                        self,
                    ).ephemerides.move_to_pulsar_id
                    &&& final(self).pulsars.downloader@ == old(self).pulsars.downloader@
                },
            },
    {
        if self.tab == Tab::Ephemerides {
            if let Some(id) = self.ephemerides.select_pulsar() {
                self.tab = Tab::Pulsars;
                self.pulsars.select_with_id(id);
            }
        }
        self.messages.append(&mut self.pulsars.messages);
        self.messages.append(&mut self.ephemerides.messages);
        self.messages.append(&mut self.toas.messages);
    }

    /// Notes good news.
    pub fn info(&mut self, message: String)
        ensures
            noted(old(self).messages@, final(self).messages@, StatusMessageSeverity::Info, message@),
            final(self).keeps_all_but_messages(*old(self)),
    {
        push_notice(&mut self.messages, StatusMessageSeverity::Info, message);
    }

    /// Notes a warning.
    pub fn warn(&mut self, message: String)
        ensures
            noted(
                old(self).messages@,
                final(self).messages@,
                StatusMessageSeverity::Warning,
                message@,
            ),
            final(self).keeps_all_but_messages(*old(self)),
    {
        push_notice(&mut self.messages, StatusMessageSeverity::Warning, message);
    }

    /// Notes an error, and interrupts the pipeline.
    pub fn error(&mut self, error: String)
        ensures
            noted(
                old(self).messages@,
                final(self).messages@,
                StatusMessageSeverity::Error,
                "Error: "@ + error@,
            ),
            final(self).pipeline@ == old(self).pipeline@.interrupted(),
            final(self).tab == old(self).tab,
            final(self).has_live_transaction == old(self).has_live_transaction,
            final(self).pulsars == old(self).pulsars,
            final(self).ephemerides == old(self).ephemerides,
            final(self).toas == old(self).toas,
    {
        let words = String::from_str("Error: ").concat(error.as_str());
        push_notice(&mut self.messages, StatusMessageSeverity::Error, words);
        self.pipeline.interrupt();
    }

    /// The cache of the kind `dt` gives its selection up.
    pub fn reset_part(&mut self, dt: &DataType)
        ensures
            final(self).messages == old(self).messages,
            final(self).has_live_transaction == old(self).has_live_transaction,
            final(self).pipeline == old(self).pipeline,
            final(self).keeps_tabs(*old(self)),
            final(self).pulsars.downloader@ == if *dt == DataType::Pulsar {
                old(self).pulsars.downloader@.deselected()
            } else {
                old(self).pulsars.downloader@
            },
            final(self).ephemerides.downloader@ == if *dt == DataType::Ephemeride {
                old(self).ephemerides.downloader@.deselected()
            } else {
                old(self).ephemerides.downloader@
            },
            final(self).toas.downloader@ == if *dt == DataType::Toa {
                old(self).toas.downloader@.deselected()
            } else {
                old(self).toas.downloader@
            },
    {
        match dt {
            DataType::Pulsar => self.pulsars.deselect(),
            DataType::Ephemeride => self.ephemerides.deselect(),
            DataType::Toa => self.toas.deselect(),
        }
    }
}

/// An error among the progress events of a run is noted and marks the run
/// as failed; what the run has gathered is kept.
pub proof fn lemma_error_event_keeps_the_run(
    before: Application,
    words: String,
    after: Application,
)
    requires
        before.handles(Message::PipelineStatus(Status::Error(words)), after),
        before.pipeline@ is Running,
    ensures
        noted(
            before.messages@,
            after.messages@,
            StatusMessageSeverity::Error,
            "Error: "@ + words@,
        ),
        after.pipeline@ == PipeStageView::Running(
            RunInfoView { errored: true, ..before.pipeline@->Running_0 },
        ),
{
}

/// An error message stops the wait of every cache and ends a run of the
/// pipeline, all at once.
pub proof fn lemma_error_resets(before: Application, error: ArchiveError, after: Application)
    requires
        before.handles(Message::Error(error), after),
    ensures
        !after.pulsars.downloader@.fetching,
        !after.ephemerides.downloader@.fetching,
        !after.toas.downloader@.fetching,
        before.pipeline@ is Running ==> after.pipeline@ == PipeStageView::blank(),
        before.pipeline@ is Relaxed || before.pipeline@ is SetUp ==> after.pipeline@
            == before.pipeline@,
        after.pulsars.downloader@.items == before.pulsars.downloader@.items,
        after.ephemerides.downloader@.items == before.ephemerides.downloader@.items,
        after.toas.downloader@.items == before.toas.downloader@.items,
{
}

} // verus!
