//! The ephemeride tab: the ephemerides as its table shows and orders them,
//! and its entry form.

use crate::helpers::downloader::{orders_totally, Downloader, Item};
use crate::helpers::{
    cmp_i32, cmp_text, dispatch, dispatched, flipped, i32_order, lemma_text_order_flips,
    lemma_text_order_is_transitive, noted, text_order, StatusMessage, StatusMessageSeverity,
};
use crate::syncher::{DataType, Request};
use crate::text::{decimal, decimal_text};
use std::cmp::Ordering;
use vstd::prelude::*;

verus! {

/// An ephemeride as the table shows it: its metadata with the alias of the
/// pulsar that it belongs to.
#[derive(Debug, PartialEq, Eq)]
pub struct ParData {
    pub id: i32,
    pub pulsar_id: i32,
    pub pulsar_name: String,
    pub path: String,
}

impl Clone for ParData {
    fn clone(&self) -> (r: Self)
        ensures
            r == *self,
    {
        ParData {
            id: self.id,
            pulsar_id: self.pulsar_id,
            pulsar_name: self.pulsar_name.clone(),
            path: self.path.clone(),
        }
    }
}

impl Item for ParData {
    open spec fn key(&self) -> i32 {
        self.id
    }

    /// The columns are the id, the pulsar's alias, the pulsar's id and the
    /// path; any other index tells no two ephemerides apart.
    open spec fn order_by(&self, other: &Self, index: usize) -> Ordering {
        if index == 0 {
            i32_order(self.id, other.id)
        } else if index == 1 {
            text_order(self.pulsar_name@, other.pulsar_name@)
        } else if index == 2 {
            i32_order(self.pulsar_id, other.pulsar_id)
        } else if index == 3 {
            text_order(self.path@, other.path@)
        } else {
            Ordering::Equal
        }
    }

    fn id(&self) -> i32 {
        self.id
    }

    fn cmp_by(&self, other: &Self, index: usize) -> Ordering {
        match index {
            0 => cmp_i32(self.id, other.id),
            1 => cmp_text(self.pulsar_name.as_str(), other.pulsar_name.as_str()),
            2 => cmp_i32(self.pulsar_id, other.pulsar_id),
            3 => cmp_text(self.path.as_str(), other.path.as_str()),
            _ => Ordering::Equal,
        }
    }
}

/// The kind of record that this tab is about.
pub const DATA_TYPE: DataType = DataType::Ephemeride;

/// The number of columns that the table of ephemerides can be sorted by.
pub const COLUMNS: usize = 4;

/// What the user pressed beside the entry form.
#[derive(Debug, Clone, Copy, PartialEq, Eq, Structural)]
pub enum ParControl {
    Nothing,
    /// Add the file in the form to the archive.
    Insert,
    /// Overwrite the selected ephemeride by the file in the form.
    Overwrite,
}

/// The ephemeride tab: the cache of ephemerides, the entry form and the
/// notices that the tab has for the message bar.
pub struct EphemerideApp {
    pub messages: Vec<StatusMessage>,
    pub downloader: Downloader<ParData>,
    /// The column whose header was pressed last.
    pub sort_by: usize,
    /// The file in the entry form.
    pub new_par: Option<String>,
    /// The pulsar in the entry form: an id or an alias.
    pub new_par_pid: String,
    /// Whether the file is to become the master ephemeride of its pulsar.
    pub new_par_mastery: bool,
    /// The pulsar that the pulsar tab is to show next.
    pub move_to_pulsar_id: Option<i32>,
}

impl EphemerideApp {
    pub fn new() -> (r: Self)
        ensures
            r.is_new(),
    {
        Self {
            messages: Vec::new(),
            downloader: Downloader::new(),
            sort_by: 0,
            new_par: None,
            new_par_pid: String::new(),
            new_par_mastery: false,
            move_to_pulsar_id: None,
        }
    }

    /// The tab as it starts out: it has no notice, its cache is new, the first
    /// column counts as pressed last, the form names neither a file nor a
    /// pulsar and asks for no mastery, and the pulsar tab is asked for no
    /// pulsar.
    pub open spec fn is_new(self) -> bool {
        &&& self.messages@.len() == 0
        &&& self.downloader@.is_new()
        &&& self.sort_by == 0
        &&& self.new_par.is_none()
        &&& self.new_par_pid@.len() == 0
        &&& !self.new_par_mastery
        &&& self.move_to_pulsar_id.is_none()
    }

    /// The form is as it was before: only the cache and the notices may have
    /// changed.
    pub open spec fn keeps_form(self, before: Self) -> bool {
        &&& self.sort_by == before.sort_by
        &&& self.new_par == before.new_par
        &&& self.new_par_pid == before.new_par_pid
        &&& self.new_par_mastery == before.new_par_mastery
        &&& self.move_to_pulsar_id == before.move_to_pulsar_id
    }

    /// Turns the pending action of the cache into a request to the worker. A
    /// delete without a selection is answered by a warning instead.
    pub fn show(&mut self) -> (request: Option<Request>)
        ensures
            final(self).downloader@ == old(self).downloader@.cleared(),
            final(self).keeps_form(*old(self)),
            dispatched(
                old(self).downloader@.action,
                DataType::Ephemeride,
                old(self).messages@,
                final(self).messages@,
                request,
            ),
    {
        let action = self.downloader.action();
        dispatch(action, DATA_TYPE, &mut self.messages)
    }

    /// What the table does to the user's input of this frame: `sort` is the
    /// column whose header was pressed, `clicked` the row that was clicked,
    /// `secondary` says that the click asked for the row's pulsar. The
    /// pressed column is remembered, and the records are sorted by it where
    /// it is one of the table's. A row that becomes selected fills the form
    /// with its path and its id, and on a secondary click its id is what the
    /// pulsar tab is to show next.
    pub open spec fn tabled(
        self,
        sort: Option<usize>,
        clicked: Option<usize>,
        secondary: bool,
        after: Self,
    ) -> bool {
        if self.downloader@.items.len() == 0 {
            &&& after.downloader@ == self.downloader@
            &&& after.keeps_form(self)
        } else {
            let column = match sort {
                Some(index) if index < COLUMNS => sort,
                _ => None,
            };
            &&& self.downloader@.shows_table(column, clicked, after.downloader@)
            &&& after.sort_by == match sort {
                Some(index) => index,
                None => self.sort_by,
            }
            &&& after.new_par_mastery == self.new_par_mastery
            &&& match after.downloader@.picked(self.downloader@, clicked) {
                Some(row) => {
                    let item = after.downloader@.items[row as int];
                    &&& after.new_par matches Some(path)
                    &&& path == item.path
                    &&& after.new_par_pid@ == decimal_text(item.id as int)
                    &&& after.move_to_pulsar_id == if secondary {
                        Some(item.id)
                    } else {
                        self.move_to_pulsar_id
                    }
                },
                None => {
                    &&& after.new_par == self.new_par
                    &&& after.new_par_pid == self.new_par_pid
                    &&& after.move_to_pulsar_id == self.move_to_pulsar_id
                },
            }
        }
    }

    /// Shows the table to the user's input of this frame.
    pub fn par_table(&mut self, sort: Option<usize>, clicked: Option<usize>, secondary: bool)
        ensures
            old(self).tabled(sort, clicked, secondary, *final(self)),
            final(self).messages == old(self).messages,
    {
        if self.downloader.data().len() == 0 {
            return ;
        }
        let column = match sort {
            Some(index) => {
                self.sort_by = index;
                if index < COLUMNS {
                    sort
                } else {
                    None
                }
            },
            None => None,
        };
        let selected = self.downloader.table(column, clicked);
        if let Some(i) = selected {
            let item = &self.downloader.data()[i];
            let pid = item.id;
            self.new_par = Some(item.path.clone());
            self.new_par_pid = decimal(pid as i128);
            if secondary {
                self.move_to_pulsar_id = Some(pid);
            }
        }
    }

    /// Remembers the file that the user picked or dropped.
    pub fn par_file_button(&mut self, picked: Option<String>)
        ensures
            final(self).new_par == match picked {
                Some(path) => Some(path),
                None => old(self).new_par,
            },
            final(self).messages == old(self).messages,
            final(self).downloader == old(self).downloader,
            final(self).sort_by == old(self).sort_by,
            final(self).new_par_pid == old(self).new_par_pid,
            final(self).new_par_mastery == old(self).new_par_mastery,
            final(self).move_to_pulsar_id == old(self).move_to_pulsar_id,
    {
        if picked.is_some() {
            self.new_par = picked;
        }
    }

    /// `request` and `after` are what `control` leads to from `self`. An
    /// ephemeride is sent only with a file and a pulsar in the form, and
    /// overwrites only a selected one; else a warning is all that happens.
    pub open spec fn controls(self, control: ParControl, after: Seq<StatusMessage>, request: Option<Request>) -> bool {
        let ready = self.new_par.is_some() && self.new_par_pid@.len() > 0;
        let wrong = request.is_none() && noted(
            self.messages@,
            after,
            StatusMessageSeverity::Warning,
            "Something went wrong."@,
        );
        match control {
            ParControl::Nothing => request.is_none() && after == self.messages@,
            ParControl::Insert => if ready {
                &&& after == self.messages@
                &&& request == Some(
                    Request::AddPar {
                        path: self.new_par.unwrap(),
                        pulsar: self.new_par_pid,
                        master: self.new_par_mastery,
                    },
                )
            } else {
                wrong
            },
            ParControl::Overwrite => match self.downloader@.selected_key() {
                Some(id) if ready => {
                    &&& after == self.messages@
                    &&& request == Some(
                        Request::UpdatePar {
                            id,
                            path: self.new_par.unwrap(),
                            pulsar: self.new_par_pid,
                            master: self.new_par_mastery,
                        },
                    )
                },
                _ => wrong,
            },
        }
    }

    /// Carries out what the user pressed beside the form.
    pub fn par_data_controls(&mut self, control: ParControl) -> (request: Option<Request>)
        ensures
            old(self).controls(control, final(self).messages@, request),
            final(self).downloader == old(self).downloader,
            final(self).keeps_form(*old(self)),
    {
        match control {
            ParControl::Nothing => None,
            ParControl::Insert => {
                if self.new_par_pid.as_str().is_empty() {
                    self.messages.push(StatusMessage::wrong());
                    assert(self.messages@.drop_last() =~= old(self).messages@);
                    return None;
                }
                match &self.new_par {
                    Some(path) => Some(
                        Request::AddPar {
                            path: path.clone(),
                            pulsar: self.new_par_pid.clone(),
                            master: self.new_par_mastery,
                        },
                    ),
                    None => {
                        self.messages.push(StatusMessage::wrong());
                        assert(self.messages@.drop_last() =~= old(self).messages@);
                        None
                    },
                }
            },
            ParControl::Overwrite => {
                let selected = self.downloader.selected_id();
                if self.new_par_pid.as_str().is_empty() {
                    self.messages.push(StatusMessage::wrong());
                    assert(self.messages@.drop_last() =~= old(self).messages@);
                    return None;
                }
                match (&self.new_par, selected) {
                    (Some(path), Some(id)) => Some(
                        Request::UpdatePar {
                            id,
                            path: path.clone(),
                            pulsar: self.new_par_pid.clone(),
                            master: self.new_par_mastery,
                        },
                    ),
                    _ => {
                        self.messages.push(StatusMessage::wrong());
                        assert(self.messages@.drop_last() =~= old(self).messages@);
                        None
                    },
                }
            },
        }
    }

    /// Ends the wait for a download.
    pub fn reset_ui(&mut self)
        ensures
            final(self).downloader@ == old(self).downloader@.stopped(),
            final(self).messages == old(self).messages,
            final(self).keeps_form(*old(self)),
    {
        self.downloader.stop_fetching();
    }

    pub fn deselect(&mut self)
        ensures
            final(self).downloader@ == old(self).downloader@.deselected(),
            final(self).messages == old(self).messages,
            final(self).keeps_form(*old(self)),
    {
        self.downloader.deselect();
    }

    /// Sorts the records by the column that was pressed last, where it is
    /// one of the table's.
    pub fn sort_table(&mut self)
        ensures
            final(self).messages == old(self).messages,
            final(self).keeps_form(*old(self)),
            old(self).sort_by >= COLUMNS ==> final(self).downloader@ == old(self).downloader@,
            old(self).sort_by < COLUMNS ==> old(self).downloader@.sorts(
                old(self).sort_by,
                final(self).downloader@,
            ),
    {
        if self.sort_by < COLUMNS {
            self.downloader.sort_table(self.sort_by);
        }
    }

    /// Hands out the pulsar that the pulsar tab is to show next.
    pub fn select_pulsar(&mut self) -> (id: Option<i32>)
        ensures
            id == old(self).move_to_pulsar_id,
            final(self).move_to_pulsar_id.is_none(),
            final(self).messages == old(self).messages,
            final(self).downloader == old(self).downloader,
            final(self).sort_by == old(self).sort_by,
            final(self).new_par == old(self).new_par,
            final(self).new_par_pid == old(self).new_par_pid,
            final(self).new_par_mastery == old(self).new_par_mastery,
    {
        let id = self.move_to_pulsar_id;
        self.move_to_pulsar_id = None;
        id
    }

    /// The identity of the selected ephemeride.
    pub fn selected(&self) -> (id: Option<i32>)
        ensures
            id == self.downloader@.selected_key(),
    {
        self.downloader.selected_id()
    }
}

/// Every column orders any two ephemerides the other way round when they
/// are turned round, and transitively.
pub proof fn lemma_par_order_is_total(a: ParData, b: ParData, c: ParData, index: usize)
    ensures
        b.order_by(&a, index) == flipped(a.order_by(&b, index)),
        a.order_by(&b, index) != Ordering::Greater && b.order_by(&c, index) != Ordering::Greater
            ==> a.order_by(&c, index) != Ordering::Greater,
{
    lemma_text_order_flips(a.pulsar_name@, b.pulsar_name@);
    lemma_text_order_flips(a.path@, b.path@);
    if text_order(a.pulsar_name@, b.pulsar_name@) != Ordering::Greater && text_order(
        b.pulsar_name@,
        c.pulsar_name@,
    ) != Ordering::Greater {
        lemma_text_order_is_transitive(a.pulsar_name@, b.pulsar_name@, c.pulsar_name@);
    }
    if text_order(a.path@, b.path@) != Ordering::Greater && text_order(b.path@, c.path@)
        != Ordering::Greater {
        lemma_text_order_is_transitive(a.path@, b.path@, c.path@);
    }
}

/// Every column orders any ephemerides totally, so that sorting by it puts
/// them in its order.
pub proof fn lemma_pars_are_ordered_totally(items: Seq<ParData>, index: usize)
    ensures
        orders_totally(items, index),
{
    assert forall|i: int, j: int| 0 <= i < items.len() && 0 <= j < items.len() implies (
    #[trigger] items[i].order_by(&items[j], index) == Ordering::Less <==> items[j].order_by(
        &items[i],
        index,
    ) == Ordering::Greater) by {
        lemma_par_order_is_total(items[i], items[j], items[i], index);
    }
    assert forall|i: int, j: int, k: int|
        0 <= i < items.len() && 0 <= j < items.len() && 0 <= k < items.len()
            && #[trigger] items[i].order_by(&items[j], index) != Ordering::Greater
            && #[trigger] items[j].order_by(&items[k], index)
            != Ordering::Greater implies items[i].order_by(&items[k], index)
        != Ordering::Greater by {
        lemma_par_order_is_total(items[i], items[j], items[k], index);
    }
}

} // verus!
