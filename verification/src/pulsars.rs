//! The pulsar tab: how pulsars are ordered in its table, its entry form,
//! and the reading of files of pulsars.

use crate::data_types::PulsarMeta;
use crate::error::ArchiveError;
use crate::helpers::downloader::{
    first_with_id, holds_id, orders_totally, position, Downloader, Item,
};
use crate::helpers::{
    cmp_i32, cmp_text, dispatch, dispatched, flipped, i32_order, lemma_opt_text_order_is_total,
    lemma_text_order_flips, lemma_text_order_is_transitive, noted, opt_cmp, opt_cmp_i32,
    opt_int_order, opt_text_order, push_notice, text_order, StatusMessage, StatusMessageSeverity,
};
use crate::syncher::{DataType, Request};
use crate::text::{opt_text, split_words, texts, words_of};
use argos_arpa::data_types::Pulsar;
use std::cmp::Ordering;
use vstd::prelude::*;
use vstd::string::*;

verus! {

impl Item for PulsarMeta {
    open spec fn key(&self) -> i32 {
        self.id
    }

    /// The columns are the id, the alias, the J name, the B name, the right
    /// ascension, the declination and the master ephemeride; any other index
    /// tells no two pulsars apart.
    open spec fn order_by(&self, other: &Self, index: usize) -> Ordering {
        if index == 0 {
            i32_order(self.id, other.id)
        } else if index == 1 {
            text_order(self.alias@, other.alias@)
        } else if index == 2 {
            opt_text_order(self.j_name, other.j_name)
        } else if index == 3 {
            opt_text_order(self.b_name, other.b_name)
        } else if index == 4 {
            opt_text_order(self.j2000_ra, other.j2000_ra)
        } else if index == 5 {
            opt_text_order(self.j2000_dec, other.j2000_dec)
        } else if index == 6 {
            opt_int_order(self.master_parfile_id, other.master_parfile_id)
        } else {
            Ordering::Equal
        }
    }

    fn id(&self) -> i32 {
        self.id
    }

    fn cmp_by(&self, other: &Self, index: usize) -> Ordering {
        match index {
            0 => cmp_i32(self.id, other.id),
            1 => cmp_text(self.alias.as_str(), other.alias.as_str()),
            2 => opt_cmp(&self.j_name, &other.j_name),
            3 => opt_cmp(&self.b_name, &other.b_name),
            4 => opt_cmp(&self.j2000_ra, &other.j2000_ra),
            5 => opt_cmp(&self.j2000_dec, &other.j2000_dec),
            6 => opt_cmp_i32(self.master_parfile_id, other.master_parfile_id),
            _ => Ordering::Equal,
        }
    }
}

/// The kind of record that this tab is about.
pub const DATA_TYPE: DataType = DataType::Pulsar;

/// The five texts of a pulsar: alias, J name, B name, right ascension and
/// declination.
pub type PulsarTexts = (
    Seq<char>,
    Option<Seq<char>>,
    Option<Seq<char>>,
    Option<Seq<char>>,
    Option<Seq<char>>,
);

impl PulsarMeta {
    /// The five texts of the pulsar.
    pub open spec fn texts(&self) -> PulsarTexts {
        (
            self.alias@,
            opt_text(self.j_name),
            opt_text(self.b_name),
            opt_text(self.j2000_ra),
            opt_text(self.j2000_dec),
        )
    }
}

/// What the archive's `Pulsar::from_strs` makes of the words of a line: the
/// texts of a pulsar, or the words of its refusal.
pub uninterp spec fn pulsar_from_words(words: Seq<Seq<char>>) -> Result<
    (Seq<char>, Option<Seq<char>>, Option<Seq<char>>, Option<Seq<char>>, Option<Seq<char>>),
    Seq<char>,
>;

/// What the archive's `Pulsar::verify` makes of the texts of a pulsar: the
/// texts as it leaves them, or the words of its refusal.
pub uninterp spec fn pulsar_verified(
    alias: Seq<char>,
    j_name: Option<Seq<char>>,
    b_name: Option<Seq<char>>,
    j2000_ra: Option<Seq<char>>,
    j2000_dec: Option<Seq<char>>,
) -> Result<
    (Seq<char>, Option<Seq<char>>, Option<Seq<char>>, Option<Seq<char>>, Option<Seq<char>>),
    Seq<char>,
>;

/// `result` holds what the archive made of the words of a line.
pub open spec fn reads_as(
    result: Result<PulsarMeta, ArchiveError>,
    outcome: Result<PulsarTexts, Seq<char>>,
) -> bool {
    match outcome {
        Ok(fields) => {
            &&& result matches Ok(meta)
            &&& meta.texts() == fields
            &&& meta.id == 0
            &&& meta.master_parfile_id.is_none()
        },
        Err(refusal) => result matches Err(ArchiveError::Other(said)) && said@ == refusal,
    }
}

/// Calls the archive's `Pulsar::from_strs` on the words of a line. Trusted:
/// the result is named; a pulsar that is read has the id 0 and no master
/// ephemeride, and a refusal comes with the archive's words.
#[verifier::external_body]
fn pulsar_from_strs(parts: &Vec<String>) -> (r: Result<PulsarMeta, ArchiveError>)
    ensures
        reads_as(r, pulsar_from_words(texts(parts@))),
{
    let parts: Vec<&str> = parts.iter().map(String::as_str).collect();
    match Pulsar::from_strs(&parts) {
        Ok(p) => Ok(PulsarMeta { id: p.id, alias: p.alias, j_name: p.j_name, b_name: p.b_name, j2000_ra: p.j2000_ra, j2000_dec: p.j2000_dec, master_parfile_id: p.master_parfile_id }),
        Err(e) => Err(ArchiveError::Other(e.to_string())),
    }
}

/// A name of a pulsar as the archive keeps it: not at all where it only
/// repeats the alias.
pub open spec fn unless_alias(name: Option<Seq<char>>, alias: Seq<char>) -> Option<Seq<char>> {
    if name == Some(alias) {
        None
    } else {
        name
    }
}

/// The five texts of a pulsar as the archive leaves them when it accepts
/// them: a J name or a B name that only repeats the alias is dropped, and
/// nothing else is changed.
pub open spec fn accepted_texts(texts: PulsarTexts) -> PulsarTexts {
    (texts.0, unless_alias(texts.1, texts.0), unless_alias(texts.2, texts.0), texts.3, texts.4)
}

/// Calls the archive's `Pulsar::verify`. Trusted: whether the archive accepts
/// the texts is named. Where it does, it drops a J name or a B name that
/// only repeats the alias, sets the id to 0 and leaves the rest as it is;
/// on a refusal, which comes with the archive's words, nothing is changed.
#[verifier::external_body]
fn verify(meta: &mut PulsarMeta) -> (r: Result<(), ArchiveError>)
    ensures
        match pulsar_verified(
            old(meta).alias@,
            opt_text(old(meta).j_name),
            opt_text(old(meta).b_name),
            opt_text(old(meta).j2000_ra),
            opt_text(old(meta).j2000_dec),
        ) {
            Ok(fields) => {
                &&& r.is_ok()
                &&& fields == accepted_texts(old(meta).texts())
                &&& final(meta).texts() == fields
                &&& final(meta).id == 0
                &&& final(meta).master_parfile_id == old(meta).master_parfile_id
            },
            Err(refusal) => {
                &&& r matches Err(ArchiveError::Other(said))
                &&& said@ == refusal
                &&& *final(meta) == *old(meta)
            },
        },
{
    let m = meta.clone();
    let mut p = Pulsar { id: m.id, alias: m.alias, j_name: m.j_name, b_name: m.b_name, j2000_ra: m.j2000_ra, j2000_dec: m.j2000_dec, master_parfile_id: m.master_parfile_id };
    let r = p.verify().map_err(|e| ArchiveError::Other(e.to_string()));
    *meta = PulsarMeta { id: p.id, alias: p.alias, j_name: p.j_name, b_name: p.b_name, j2000_ra: p.j2000_ra, j2000_dec: p.j2000_dec, master_parfile_id: p.master_parfile_id };
    r
}

/// The words of a line make an entry: there is a first word, and it does not
/// begin with `#`.
pub open spec fn is_entry(words: Seq<Seq<char>>) -> bool {
    words.len() > 0 && !(words[0].len() > 0 && words[0][0] == '#')
}

/// The words of each of the lines that make an entry, in the order of the
/// lines.
pub open spec fn entries(lines: Seq<String>) -> Seq<Seq<Seq<char>>>
    decreases lines.len(),
{
    if lines.len() == 0 {
        Seq::empty()
    } else if is_entry(words_of(lines.last()@)) {
        entries(lines.drop_last()).push(words_of(lines.last()@))
    } else {
        entries(lines.drop_last())
    }
}

/// The requests to add each pulsar that was read, in the order of `results`.
pub open spec fn uploads(results: Seq<Result<PulsarMeta, ArchiveError>>) -> Seq<Request>
    decreases results.len(),
{
    if results.len() == 0 {
        Seq::empty()
    } else {
        match results.last() {
            Ok(meta) => uploads(results.drop_last()).push(Request::AddPulsar(meta)),
            Err(_) => uploads(results.drop_last()),
        }
    }
}

/// The words of each refusal, in the order of `results`.
pub open spec fn refusals(results: Seq<Result<PulsarMeta, ArchiveError>>) -> Seq<Seq<char>>
    decreases results.len(),
{
    if results.len() == 0 {
        Seq::empty()
    } else {
        match results.last() {
            Ok(_) => refusals(results.drop_last()),
            Err(error) => refusals(results.drop_last()).push(error.text()),
        }
    }
}

/// `after` is `before` with one error notice more for each of `words`, in
/// their order.
pub open spec fn complained(
    before: Seq<StatusMessage>,
    after: Seq<StatusMessage>,
    words: Seq<Seq<char>>,
) -> bool {
    &&& after.len() == before.len() + words.len()
    &&& after.take(before.len() as int) == before
    &&& forall|k: int|
        0 <= k < words.len() ==> (#[trigger] after[before.len() + k]).says(
            StatusMessageSeverity::Error,
            words[k],
        )
}

/// What the user pressed beside the entry form.
#[derive(Debug, Clone, Copy, PartialEq, Eq, Structural)]
pub enum PulsarControl {
    Nothing,
    /// Empty the form.
    Clear,
    /// Add the pulsar in the form to the archive.
    Insert,
    /// Overwrite the selected pulsar by the one in the form.
    Overwrite,
}

/// The pulsar tab: the cache of pulsars, the entry form and the notices that
/// the tab has for the message bar.
pub struct PulsarsApp {
    pub messages: Vec<StatusMessage>,
    pub downloader: Downloader<PulsarMeta>,
    /// The pulsar in the entry form.
    pub new_pulsar: PulsarMeta,
    /// The file that was picked or dropped, until it is read.
    pub pulsar_file: Option<String>,
}

impl PulsarsApp {
    /// The form is as it was before: only the cache and the notices may have
    /// changed.
    pub open spec fn keeps_form(self, before: Self) -> bool {
        self.new_pulsar == before.new_pulsar && self.pulsar_file == before.pulsar_file
    }

    pub fn new() -> (r: Self)
        ensures
            r.is_new(),
    {
        Self {
            messages: Vec::new(),
            downloader: Downloader::new(),
            new_pulsar: PulsarMeta::null(),
            pulsar_file: None,
        }
    }

    /// The tab as it starts out: it has no notice, its cache is new, every
    /// field of its form is empty and no file waits to be read.
    pub open spec fn is_new(self) -> bool {
        &&& self.messages@.len() == 0
        &&& self.downloader@.is_new()
        &&& self.new_pulsar.is_null()
        &&& self.pulsar_file.is_none()
    }

    /// Turns the pending action of the cache into a request to the worker. A
    /// delete without a selection is answered by a warning instead.
    pub fn show(&mut self) -> (request: Option<Request>)
        ensures
            final(self).downloader@ == old(self).downloader@.cleared(),
            final(self).new_pulsar == old(self).new_pulsar,
            final(self).pulsar_file == old(self).pulsar_file,
            dispatched(
                old(self).downloader@.action,
                DataType::Pulsar,
                old(self).messages@,
                final(self).messages@,
                request,
            ),
    {
        let action = self.downloader.action();
        dispatch(action, DATA_TYPE, &mut self.messages)
    }

    /// Ends the wait for a download.
    pub fn reset_ui(&mut self)
        ensures
            final(self).downloader@ == old(self).downloader@.stopped(),
            final(self).messages == old(self).messages,
            final(self).new_pulsar == old(self).new_pulsar,
            final(self).pulsar_file == old(self).pulsar_file,
    {
        self.downloader.stop_fetching();
    }

    /// The notices of the tab, for the owner to take away.
    pub fn messages(&mut self) -> (r: &mut Vec<StatusMessage>)
        ensures
            *r == old(self).messages,
            final(self).messages == *final(r),
            final(self).downloader == old(self).downloader,
            final(self).new_pulsar == old(self).new_pulsar,
            final(self).pulsar_file == old(self).pulsar_file,
    {
        &mut self.messages
    }

    pub fn deselect(&mut self)
        ensures
            final(self).downloader@ == old(self).downloader@.deselected(),
            final(self).messages == old(self).messages,
            final(self).new_pulsar == old(self).new_pulsar,
            final(self).pulsar_file == old(self).pulsar_file,
    {
        self.downloader.deselect();
    }

    /// Shows the table to the user's input of this frame, as the cache's
    /// `table` does; a pulsar that becomes selected is copied to the form.
    pub fn body(&mut self, sort: Option<usize>, clicked: Option<usize>)
        ensures
            old(self).downloader@.shows_table(sort, clicked, final(self).downloader@),
            final(self).new_pulsar == match final(self).downloader@.picked(
                old(self).downloader@,
                clicked,
            ) {
                Some(row) => final(self).downloader@.items[row as int],
                None => old(self).new_pulsar,
            },
            final(self).messages == old(self).messages,
            final(self).pulsar_file == old(self).pulsar_file,
    {
        let selected = self.downloader.table(sort, clicked);
        if let Some(i) = selected {
            self.new_pulsar = self.downloader.data()[i].clone();
        }
    }

    /// Carries out what the user pressed beside the form. A pulsar is
    /// verified before it is sent, which drops a J name or a B name that
    /// only repeats the alias and sets the id to 0; one that the archive
    /// refuses gives an error notice and no request.
    pub fn pulsar_data_controls(&mut self, control: PulsarControl) -> (request: Option<Request>)
        ensures
            final(self).downloader == old(self).downloader,
            final(self).pulsar_file == old(self).pulsar_file,
            old(self).controls(control, *final(self), request),
    {
        match control {
            PulsarControl::Nothing => None,
            PulsarControl::Clear => {
                self.new_pulsar = PulsarMeta::null();
                None
            },
            PulsarControl::Insert => {
                match verify(&mut self.new_pulsar) {
                    Err(err) => {
                        let words = String::from_str("Cannot add pulsar! ").concat(
                            err.to_string().as_str(),
                        );
                        push_notice(&mut self.messages, StatusMessageSeverity::Error, words);
                        None
                    },
                    Ok(()) => Some(Request::AddPulsar(self.new_pulsar.clone())),
                }
            },
            PulsarControl::Overwrite => {
                match verify(&mut self.new_pulsar) {
                    Err(err) => {
                        let words = String::from_str("Cannot overwrite pulsar! ").concat(
                            err.to_string().as_str(),
                        );
                        push_notice(&mut self.messages, StatusMessageSeverity::Error, words);
                        None
                    },
                    Ok(()) => {
                        match self.downloader.selected_id() {
                            Some(id) => Some(Request::UpdatePulsar(id, self.new_pulsar.clone())),
                            None => None,
                        }
                    },
                }
            },
        }
    }

    /// `after` and `request` are what `control` leads to from `self`.
    pub open spec fn controls(self, control: PulsarControl, after: Self, request: Option<Request>) -> bool {
        let verdict = pulsar_verified(
            self.new_pulsar.alias@,
            opt_text(self.new_pulsar.j_name),
            opt_text(self.new_pulsar.b_name),
            opt_text(self.new_pulsar.j2000_ra),
            opt_text(self.new_pulsar.j2000_dec),
        );
        match control {
            PulsarControl::Nothing => {
                &&& request.is_none()
                &&& after.new_pulsar == self.new_pulsar
                &&& after.messages@ == self.messages@
            },
            PulsarControl::Clear => {
                &&& request.is_none()
                &&& after.new_pulsar.is_null()
                &&& after.messages@ == self.messages@
            },
            PulsarControl::Insert | PulsarControl::Overwrite => match verdict {
                Err(refusal) => {
                    &&& request.is_none()
                    &&& after.new_pulsar == self.new_pulsar
                    &&& noted(
                        self.messages@,
                        after.messages@,
                        StatusMessageSeverity::Error,
                        (if control == PulsarControl::Insert {
                            "Cannot add pulsar! "@
                        } else {
                            "Cannot overwrite pulsar! "@
                        }) + refusal,
                    )
                },
                Ok(_) => {
                    &&& after.new_pulsar.texts() == accepted_texts(self.new_pulsar.texts())
                    &&& after.new_pulsar.id == 0
                    &&& after.new_pulsar.master_parfile_id == self.new_pulsar.master_parfile_id
                    &&& after.messages@ == self.messages@
                    &&& if control == PulsarControl::Insert {
                        request == Some(Request::AddPulsar(after.new_pulsar))
                    } else {
                        request == match self.downloader@.selected_key() {
                            Some(id) => Some(Request::UpdatePulsar(id, after.new_pulsar)),
                            None => None,
                        }
                    }
                },
            },
        }
    }

    /// Remembers the file that the user picked or dropped.
    pub fn pulsar_file_button(&mut self, picked: Option<String>)
        ensures
            final(self).pulsar_file == match picked {
                Some(path) => Some(path),
                None => old(self).pulsar_file,
            },
            final(self).messages == old(self).messages,
            final(self).downloader == old(self).downloader,
            final(self).new_pulsar == old(self).new_pulsar,
    {
        if picked.is_some() {
            self.pulsar_file = picked;
        }
    }

    /// Hands out the file that waits to be read.
    pub fn take_file(&mut self) -> (path: Option<String>)
        ensures
            path == old(self).pulsar_file,
            final(self).pulsar_file.is_none(),
            final(self).messages == old(self).messages,
            final(self).downloader == old(self).downloader,
            final(self).new_pulsar == old(self).new_pulsar,
    {
        let mut path = None;
        std::mem::swap(&mut self.pulsar_file, &mut path);
        path
    }

    /// Takes in what came of reading a file of pulsars: a request to add each
    /// pulsar that was read, and an error notice for each line that was
    /// refused, or for the file where it could not be read at all.
    pub fn upload(
        &mut self,
        file: Result<Vec<Result<PulsarMeta, ArchiveError>>, ArchiveError>,
    ) -> (requests: Vec<Request>)
        ensures
            final(self).downloader == old(self).downloader,
            final(self).new_pulsar == old(self).new_pulsar,
            final(self).pulsar_file == old(self).pulsar_file,
            match file {
                Ok(results) => requests@ == uploads(results@) && complained(
                    old(self).messages@,
                    final(self).messages@,
                    refusals(results@),
                ),
                Err(error) => requests@.len() == 0 && noted(
                    old(self).messages@,
                    final(self).messages@,
                    StatusMessageSeverity::Error,
                    error.text(),
                ),
            },
    {
        let mut requests: Vec<Request> = Vec::new();
        match file {
            Err(error) => {
                push_notice(&mut self.messages, StatusMessageSeverity::Error, error.to_string());
            },
            Ok(results) => {
                let ghost before = self.messages@;
                assert(self.messages@.take(before.len() as int) =~= before);
                let mut i: usize = 0;
                while i < results.len()
                    invariant
                        *self == (PulsarsApp { messages: self.messages, ..*old(self) }),
                        i <= results@.len(),
                        requests@ == uploads(results@.take(i as int)),
                        complained(before, self.messages@, refusals(results@.take(i as int))),
                    decreases results@.len() - i,
                {
                    let ghost seen = results@.take(i as int);
                    let ghost now = results@.take(i + 1);
                    let ghost notices = self.messages@;
                    assert(now.drop_last() =~= seen);
                    assert(now.last() == results@[i as int]);
                    match &results[i] {
                        Ok(meta) => {
                            requests.push(Request::AddPulsar(meta.clone()));
                        },
                        Err(error) => {
                            push_notice(
                                &mut self.messages,
                                StatusMessageSeverity::Error,
                                error.to_string(),
                            );
                            assert(self.messages@.drop_last() == notices);
                            assert(self.messages@.take(before.len() as int) =~= notices.take(
                                before.len() as int,
                            ));
                            assert forall|k: int| 0 <= k < refusals(now).len() implies (
                            #[trigger] self.messages@[before.len() + k]).says(
                                StatusMessageSeverity::Error,
                                refusals(now)[k],
                            ) by {
                                if k < refusals(seen).len() {
                                    assert(self.messages@[before.len() + k] == notices[before.len()
                                        + k]);
                                }
                            }
                        },
                    }
                    i += 1;
                }
                assert(results@.take(i as int) =~= results@);
            },
        }
        requests
    }

    /// Reads the lines of a file of pulsars: each line is cut into words, and
    /// every line with a first word that does not begin with `#` is handed
    /// to the archive to be read as a pulsar.
    pub fn read_pulsars_from_file(lines: &Vec<String>) -> (results: Vec<
        Result<PulsarMeta, ArchiveError>,
    >)
        ensures
            results@.len() == entries(lines@).len(),
            forall|k: int|
                0 <= k < results@.len() ==> reads_as(
                    #[trigger] results@[k],
                    pulsar_from_words(entries(lines@)[k]),
                ),
    {
        let mut results: Vec<Result<PulsarMeta, ArchiveError>> = Vec::new();
        let mut i: usize = 0;
        while i < lines.len()
            invariant
                i <= lines@.len(),
                results@.len() == entries(lines@.take(i as int)).len(),
                forall|k: int|
                    0 <= k < results@.len() ==> reads_as(
                        #[trigger] results@[k],
                        pulsar_from_words(entries(lines@.take(i as int))[k]),
                    ),
            decreases lines@.len() - i,
        {
            let ghost seen = lines@.take(i as int);
            let ghost now = lines@.take(i + 1);
            assert(now.drop_last() =~= seen);
            assert(now.last() == lines@[i as int]);
            let words = split_words(lines[i].as_str());
            if words.len() > 0 && !begins_with_hash(words[0].as_str()) {
                assert(texts(words@)[0] == words@[0]@);
                let result = pulsar_from_strs(&words);
                results.push(result);
            } else {
                assert(words@.len() > 0 ==> texts(words@)[0] == words@[0]@);
            }
            i += 1;
        }
        assert(lines@.take(i as int) =~= lines@);
        results
    }

    /// Selects the pulsar with the identity `id`, as a click on its row
    /// would; with no such pulsar held, nothing happens.
    pub fn select_with_id(&mut self, id: i32)
        ensures
            final(self).downloader@ == (if holds_id(old(self).downloader@.items, id) {
                old(self).downloader@.toggled(position(old(self).downloader@.items, id) as usize)
            } else {
                old(self).downloader@
            }),
            final(self).messages == old(self).messages,
            final(self).new_pulsar == old(self).new_pulsar,
            final(self).pulsar_file == old(self).pulsar_file,
    {
        let mut index: usize = 0;
        let n = self.downloader.data().len();
        while index < n
            invariant
                n == self.downloader@.items.len(),
                index <= n,
                *self == *old(self),
                forall|j: int| 0 <= j < index ==> #[trigger] self.downloader@.items[j].key() != id,
            decreases n - index,
        {
            if self.downloader.data()[index].id == id {
                assert(first_with_id(self.downloader@.items, id, index as int));
                self.downloader.select(index);
                return ;
            }
            index += 1;
        }
    }
}

/// The word begins with `#`.
fn begins_with_hash(word: &str) -> (r: bool)
    ensures
        r == (word@.len() > 0 && word@[0] == '#'),
{
    word.unicode_len() > 0 && word.get_char(0) == '#'
}

/// Every column orders any two pulsars the other way round when they are
/// turned round, and transitively.
pub proof fn lemma_pulsar_order_is_total(a: PulsarMeta, b: PulsarMeta, c: PulsarMeta, index: usize)
    ensures
        b.order_by(&a, index) == flipped(a.order_by(&b, index)),
        a.order_by(&b, index) != Ordering::Greater && b.order_by(&c, index) != Ordering::Greater
            ==> a.order_by(&c, index) != Ordering::Greater,
{
    lemma_text_order_flips(a.alias@, b.alias@);
    if text_order(a.alias@, b.alias@) != Ordering::Greater && text_order(b.alias@, c.alias@)
        != Ordering::Greater {
        lemma_text_order_is_transitive(a.alias@, b.alias@, c.alias@);
    }
    lemma_opt_text_order_is_total(a.j_name, b.j_name, c.j_name);
    lemma_opt_text_order_is_total(a.b_name, b.b_name, c.b_name);
    lemma_opt_text_order_is_total(a.j2000_ra, b.j2000_ra, c.j2000_ra);
    lemma_opt_text_order_is_total(a.j2000_dec, b.j2000_dec, c.j2000_dec);
}

/// Every column orders any pulsars totally, so that sorting by it puts them
/// in its order.
pub proof fn lemma_pulsars_are_ordered_totally(items: Seq<PulsarMeta>, index: usize)
    ensures
        orders_totally(items, index),
{
    assert forall|i: int, j: int| 0 <= i < items.len() && 0 <= j < items.len() implies (
    #[trigger] items[i].order_by(&items[j], index) == Ordering::Less <==> items[j].order_by(
        &items[i],
        index,
    ) == Ordering::Greater) by {
        lemma_pulsar_order_is_total(items[i], items[j], items[i], index);
    }
    assert forall|i: int, j: int, k: int|
        0 <= i < items.len() && 0 <= j < items.len() && 0 <= k < items.len()
            && #[trigger] items[i].order_by(&items[j], index) != Ordering::Greater
            && #[trigger] items[j].order_by(&items[k], index)
            != Ordering::Greater implies items[i].order_by(&items[k], index)
        != Ordering::Greater by {
        lemma_pulsar_order_is_total(items[i], items[j], items[k], index);
    }
}

} // verus!
