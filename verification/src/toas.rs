//! The tab of the times of arrival, and how they are ordered in its table.

use crate::helpers::downloader::{orders_totally, Downloader, Item};
use crate::helpers::{
    cmp_i32, cmp_text, dispatch, dispatched, flipped, i32_order, int_order,
    lemma_text_order_flips, lemma_text_order_is_transitive, text_order, StatusMessage,
};
use crate::syncher::{DataType, Request};
use std::cmp::Ordering;
use vstd::prelude::*;

verus! {

/// A time of arrival as the table shows it. The three measured values are
/// kept as the bit patterns of their IEEE 754 numbers, which is all that
/// ordering and showing them takes.
#[derive(Debug, PartialEq, Eq)]
pub struct TOAData {
    pub id: i32,
    pub process: i32,
    pub pulsar: String,
    pub observer: i32,
    pub template: i32,
    /// The observing frequency, a single precision number.
    pub frequency: u32,
    /// The arrival time, a double precision number.
    pub time: u64,
    /// The error in the arrival time, a single precision number.
    pub error: u32,
}

/// Where a double precision number with the bit pattern `bits` stands in the
/// total order of IEEE 754: the patterns without the sign bit in rising
/// order, and before them those with it in falling order.
pub open spec fn f64_key(bits: u64) -> int {
    if bits < 0x8000_0000_0000_0000 {
        bits as int
    } else {
        0x8000_0000_0000_0000 - 1 - bits
    }
}

/// Where a single precision number with the bit pattern `bits` stands in the
/// total order of IEEE 754.
pub open spec fn f32_key(bits: u32) -> int {
    if bits < 0x8000_0000 {
        bits as int
    } else {
        0x8000_0000 - 1 - bits
    }
}

pub fn total_key_f64(bits: u64) -> (k: i64)
    ensures
        k == f64_key(bits),
{
    if bits < 0x8000_0000_0000_0000 {
        bits as i64
    } else {
        -((bits - 0x8000_0000_0000_0000) as i64) - 1
    }
}

pub fn total_key_f32(bits: u32) -> (k: i64)
    ensures
        k == f32_key(bits),
{
    if bits < 0x8000_0000 {
        bits as i64
    } else {
        -((bits - 0x8000_0000) as i64) - 1
    }
}

impl Clone for TOAData {
    fn clone(&self) -> (r: Self)
        ensures
            r == *self,
    {
        TOAData {
            id: self.id,
            process: self.process,
            pulsar: self.pulsar.clone(),
            observer: self.observer,
            template: self.template,
            frequency: self.frequency,
            time: self.time,
            error: self.error,
        }
    }
}

/// The order of two places in a total order.
pub open spec fn key_order(a: i64, b: i64) -> Ordering {
    if a < b {
        Ordering::Less
    } else if a == b {
        Ordering::Equal
    } else {
        Ordering::Greater
    }
}

/// Compares two places in a total order.
fn cmp_key(a: i64, b: i64) -> (o: Ordering)
    ensures
        o == key_order(a, b),
{
    if a < b {
        Ordering::Less
    } else if a == b {
        Ordering::Equal
    } else {
        Ordering::Greater
    }
}

impl Item for TOAData {
    open spec fn key(&self) -> i32 {
        self.id
    }

    /// The columns are the process, the pulsar, the arrival time, its error,
    /// the template, the observer and the frequency; any other index tells
    /// no two records apart.
    open spec fn order_by(&self, other: &Self, index: usize) -> Ordering {
        if index == 0 {
            i32_order(self.process, other.process)
        } else if index == 1 {
            text_order(self.pulsar@, other.pulsar@)
        } else if index == 2 {
            int_order(f64_key(self.time), f64_key(other.time))
        } else if index == 3 {
            int_order(f32_key(self.error), f32_key(other.error))
        } else if index == 4 {
            i32_order(self.template, other.template)
        } else if index == 5 {
            i32_order(self.observer, other.observer)
        } else if index == 6 {
            int_order(f32_key(self.frequency), f32_key(other.frequency))
        } else {
            Ordering::Equal
        }
    }

    fn id(&self) -> i32 {
        self.id
    }

    fn cmp_by(&self, other: &Self, index: usize) -> Ordering {
        match index {
            0 => cmp_i32(self.process, other.process),
            1 => cmp_text(self.pulsar.as_str(), other.pulsar.as_str()),
            2 => cmp_key(total_key_f64(self.time), total_key_f64(other.time)),
            3 => cmp_key(total_key_f32(self.error), total_key_f32(other.error)),
            4 => cmp_i32(self.template, other.template),
            5 => cmp_i32(self.observer, other.observer),
            6 => cmp_key(total_key_f32(self.frequency), total_key_f32(other.frequency)),
            _ => Ordering::Equal,
        }
    }
}

/// The kind of record that this tab is about.
pub const DATA_TYPE: DataType = DataType::Toa;

/// The tab of the times of arrival: their cache and the notices that the tab
/// has for the message bar.
pub struct TOAsApp {
    pub downloader: Downloader<TOAData>,
    pub messages: Vec<StatusMessage>,
}

impl TOAsApp {
    pub fn new() -> (r: Self)
        ensures
            r.is_new(),
    {
        Self { downloader: Downloader::new(), messages: Vec::new() }
    }

    /// The tab as it starts out: its cache is new and it has no notice.
    pub open spec fn is_new(self) -> bool {
        self.downloader@.is_new() && self.messages@.len() == 0
    }

    /// Turns the pending action of the cache into a request to the worker. A
    /// delete without a selection is answered by a warning instead.
    pub fn show(&mut self) -> (request: Option<Request>)
        ensures
            final(self).downloader@ == old(self).downloader@.cleared(),
            dispatched(
                old(self).downloader@.action,
                DataType::Toa,
                old(self).messages@,
                final(self).messages@,
                request,
            ),
    {
        let action = self.downloader.action();
        dispatch(action, DATA_TYPE, &mut self.messages)
    }

    pub fn deselect(&mut self)
        ensures
            final(self).downloader@ == old(self).downloader@.deselected(),
            final(self).messages == old(self).messages,
    {
        self.downloader.deselect();
    }

    /// Ends the wait for a download.
    pub fn reset_ui(&mut self)
        ensures
            final(self).downloader@ == old(self).downloader@.stopped(),
            final(self).messages == old(self).messages,
    {
        self.downloader.stop_fetching();
    }

    /// Shows the table to the user's input of this frame, as the cache's
    /// `table` does.
    pub fn body(&mut self, sort: Option<usize>, clicked: Option<usize>)
        ensures
            old(self).downloader@.shows_table(sort, clicked, final(self).downloader@),
            final(self).messages == old(self).messages,
    {
        self.downloader.table(sort, clicked);
    }
}

/// Every column orders any two times of arrival the other way round when
/// they are turned round, and transitively.
pub proof fn lemma_toa_order_is_total(a: TOAData, b: TOAData, c: TOAData, index: usize)
    ensures
        b.order_by(&a, index) == flipped(a.order_by(&b, index)),
        a.order_by(&b, index) != Ordering::Greater && b.order_by(&c, index) != Ordering::Greater
            ==> a.order_by(&c, index) != Ordering::Greater,
{
    lemma_text_order_flips(a.pulsar@, b.pulsar@);
    if text_order(a.pulsar@, b.pulsar@) != Ordering::Greater && text_order(b.pulsar@, c.pulsar@)
        != Ordering::Greater {
        lemma_text_order_is_transitive(a.pulsar@, b.pulsar@, c.pulsar@);
    }
}

/// Every column orders any times of arrival totally, so that sorting by it
/// puts them in its order.
pub proof fn lemma_toas_are_ordered_totally(items: Seq<TOAData>, index: usize)
    ensures
        orders_totally(items, index),
{
    assert forall|i: int, j: int| 0 <= i < items.len() && 0 <= j < items.len() implies (
    #[trigger] items[i].order_by(&items[j], index) == Ordering::Less <==> items[j].order_by(
        &items[i],
        index,
    ) == Ordering::Greater) by {
        lemma_toa_order_is_total(items[i], items[j], items[i], index);
    }
    assert forall|i: int, j: int, k: int|
        0 <= i < items.len() && 0 <= j < items.len() && 0 <= k < items.len()
            && #[trigger] items[i].order_by(&items[j], index) != Ordering::Greater
            && #[trigger] items[j].order_by(&items[k], index)
            != Ordering::Greater implies items[i].order_by(&items[k], index)
        != Ordering::Greater by {
        lemma_toa_order_is_total(items[i], items[j], items[k], index);
    }
}

} // verus!
