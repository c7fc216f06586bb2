//! The cache of the records of one kind that a tab shows: sortable,
//! with one record selected at most, a guard against a second download
//! while one is under way, and a latch for the action that its owner is to
//! carry out.

use rayon::slice::ParallelSliceMut;
use std::cmp::Ordering;
use vstd::prelude::*;

verus! {

/// What a resource cache asks of the records it holds: a stable identity and
/// a three-way comparison for each table column.
pub trait Item: Sized + Send {
    /// The identity of the record.
    spec fn key(&self) -> i32;

    /// How `self` stands to `other` in the column `index`.
    spec fn order_by(&self, other: &Self, index: usize) -> Ordering;

    fn id(&self) -> (id: i32)
        ensures
            id == self.key(),
    ;

    fn cmp_by(&self, other: &Self, index: usize) -> (o: Ordering)
        ensures
            o == self.order_by(other, index),
    ;
}

/// Which records a download asks for.
#[derive(Debug, PartialEq, Eq, Clone, Copy, Structural)]
pub enum FetchType {
    All,
    Id(i32),
}

/// What the owner of a cache is asked to do next.
#[derive(Debug, PartialEq, Eq, Clone, Copy)]
pub enum DownloaderAction {
    Nothing,
    Delete(Option<i32>),
    Download(FetchType),
}

/// The mathematical content of a [`Downloader`].
pub struct DownloaderView<T> {
    pub items: Seq<T>,
    pub selected: Option<usize>,
    pub sort_by: usize,
    pub fetch_type: FetchType,
    pub fetching: bool,
    pub action: DownloaderAction,
}

/// Some record of `items` has the identity `id`.
pub open spec fn holds_id<T: Item>(items: Seq<T>, id: i32) -> bool {
    exists|i: int| 0 <= i < items.len() && #[trigger] items[i].key() == id
}

/// `i` is the first place of `items` whose record has the identity `id`.
pub open spec fn first_with_id<T: Item>(items: Seq<T>, id: i32, i: int) -> bool {
    &&& 0 <= i < items.len()
    &&& items[i].key() == id
    &&& forall|j: int| 0 <= j < i ==> #[trigger] items[j].key() != id
}

/// The first place of `items` whose record has the identity `id`, where
/// there is one.
pub open spec fn position<T: Item>(items: Seq<T>, id: i32) -> int {
    choose|i: int| first_with_id(items, id, i)
}

/// No record of `items` stands after one that the column `index` puts
/// behind it.
pub open spec fn in_order<T: Item>(items: Seq<T>, index: usize) -> bool {
    forall|i: int, j: int|
        0 <= i < j < items.len() ==> #[trigger] items[i].order_by(&items[j], index)
            != Ordering::Greater
}

/// The column `index` orders the records of `items` totally: turning a
/// comparison round turns its answer round, and "not behind" is transitive.
pub open spec fn orders_totally<T: Item>(items: Seq<T>, index: usize) -> bool {
    &&& forall|i: int, j: int|
        0 <= i < items.len() && 0 <= j < items.len() ==> (#[trigger] items[i].order_by(
            &items[j],
            index,
        ) == Ordering::Less <==> items[j].order_by(&items[i], index) == Ordering::Greater)
    &&& forall|i: int, j: int, k: int|
        0 <= i < items.len() && 0 <= j < items.len() && 0 <= k < items.len()
            && #[trigger] items[i].order_by(&items[j], index) != Ordering::Greater
            && #[trigger] items[j].order_by(&items[k], index) != Ordering::Greater
            ==> items[i].order_by(&items[k], index) != Ordering::Greater
}

/// The records of `items` that the column `index` does not tell apart from
/// `of`, in their order.
pub open spec fn peers<T: Item>(items: Seq<T>, of: T, index: usize) -> Seq<T> {
    items.filter(|other: T| of.order_by(&other, index) == Ordering::Equal)
}

/// The records that the column `index` does not tell apart stand in `after`
/// in the order in which they stood in `before`.
pub open spec fn keeps_ties<T: Item>(before: Seq<T>, after: Seq<T>, index: usize) -> bool {
    forall|k: int|
        0 <= k < before.len() ==> #[trigger] peers(after, before[k], index) == peers(
            before,
            before[k],
            index,
        )
}

impl<T> DownloaderView<T> {
    /// A selection, when there is one, points at a record that is held.
    pub open spec fn wf(self) -> bool {
        self.selected matches Some(i) ==> i < self.items.len()
    }

    /// The cache after `select(index)`: the selected index is given up, any
    /// other index that is held becomes the selection, and an index beyond the
    /// records leaves nothing selected.
    pub open spec fn toggled(self, index: usize) -> Self {
        DownloaderView {
            selected: if index >= self.items.len() || self.selected == Some(index) {
                None
            } else {
                Some(index)
            },
            ..self
        }
    }

    /// The cache after a bulk download: `items` replace what was held, nothing
    /// is selected and no download is under way.
    pub open spec fn replaced(self, items: Seq<T>) -> Self {
        DownloaderView { items, selected: None, fetching: false, ..self }
    }

    /// The cache as it starts out: it holds no record, nothing is selected,
    /// the records count as sorted by the first column, a download would
    /// ask for all records, none is under way and no action is pending.
    pub open spec fn is_new(self) -> bool {
        &&& self.items.len() == 0
        &&& self.selected.is_none()
        &&& self.sort_by == 0
        &&& self.fetch_type == FetchType::All
        &&& !self.fetching
        &&& self.action == DownloaderAction::Nothing
    }

    /// The cache with nothing selected.
    pub open spec fn deselected(self) -> Self {
        DownloaderView { selected: None, ..self }
    }

    /// The cache with no download under way.
    pub open spec fn stopped(self) -> Self {
        DownloaderView { fetching: false, ..self }
    }

    /// The cache once its pending action was handed out.
    pub open spec fn cleared(self) -> Self {
        DownloaderView { action: DownloaderAction::Nothing, ..self }
    }

    /// The cache after the download controls were shown: `picked` is the scope
    /// that the user chose, if any, and `download` says that the
    /// download button was pressed. A press while a download is under way
    /// changes nothing.
    pub open spec fn after_download_menu(self, picked: Option<FetchType>, download: bool) -> Self {
        let fetch_type = match picked {
            Some(scope) => scope,
            None => self.fetch_type,
        };
        if download && !self.fetching {
            DownloaderView {
                fetch_type,
                fetching: true,
                action: DownloaderAction::Download(fetch_type),
                ..self
            }
        } else {
            DownloaderView { fetch_type, ..self }
        }
    }
}

impl<T: Item> DownloaderView<T> {
    /// `after` is the cache once its table was shown: `sort` is the column
    /// whose header was pressed, `clicked` the row that was clicked. An empty
    /// cache shows no table and stays as it is. Else the records are sorted
    /// by the column, where one was pressed, as `sorts` says. Then the click
    /// selects as `select` does.
    pub open spec fn shows_table(self, sort: Option<usize>, clicked: Option<usize>, after: Self) -> bool {
        if self.items.len() == 0 {
            after == self
        } else {
            &&& after.items.to_multiset() == self.items.to_multiset()
            &&& after.items.len() == self.items.len()
            &&& match sort {
                Some(column) => after.sort_by == column && (orders_totally(self.items, column)
                    ==> in_order(after.items, column) && keeps_ties(
                    self.items,
                    after.items,
                    column,
                )),
                None => after.items == self.items && after.sort_by == self.sort_by,
            }
            &&& after.selected == match clicked {
                Some(row) => self.toggled(row).selected,
                None => self.selected,
            }
            &&& after.fetch_type == self.fetch_type
            &&& after.fetching == self.fetching
            &&& after.action == self.action
        }
    }

    /// `after` is the cache once its records were sorted by the column
    /// `index`: they are rearranged, and where the column orders them
    /// totally they stand in its order, those that it does not tell apart in
    /// the order they had; the column is remembered, and the selection
    /// keeps its index.
    pub open spec fn sorts(self, index: usize, after: Self) -> bool {
        &&& after.items.to_multiset() == self.items.to_multiset()
        &&& after.items.len() == self.items.len()
        &&& orders_totally(self.items, index) ==> in_order(after.items, index) && keeps_ties(
            self.items,
            after.items,
            index,
        )
        &&& after == DownloaderView { items: after.items, sort_by: index, ..self }
    }

    /// The row that a click made the selection, where `self` is the cache
    /// after its table was shown and `before` the cache as it was.
    pub open spec fn picked(self, before: Self, clicked: Option<usize>) -> Option<usize> {
        if before.items.len() == 0 || clicked.is_none() {
            None
        } else {
            self.selected
        }
    }

    /// The identity of the selected record.
    pub open spec fn selected_key(self) -> Option<i32> {
        match self.selected {
            Some(i) => Some(self.items[i as int].key()),
            None => None,
        }
    }

    /// The cache after a single record arrived: it takes the place of the first
    /// record with its identity, or goes to the end where there is none, and
    /// is selected; no download is under way.
    pub open spec fn with_item(self, item: T) -> Self {
        if holds_id(self.items, item.key()) {
            let i = position(self.items, item.key());
            DownloaderView {
                items: self.items.update(i, item),
                selected: Some(i as usize),
                fetching: false,
                ..self
            }
        } else {
            DownloaderView {
                items: self.items.push(item),
                selected: Some(self.items.len() as usize),
                fetching: false,
                ..self
            }
        }
    }

    /// The cache after the action bar was shown: the download controls first,
    /// then a confirmed delete asks for the selected record to be deleted.
    pub open spec fn after_action_bar(
        self,
        picked: Option<FetchType>,
        download: bool,
        delete: bool,
    ) -> Self {
        let shown = self.after_download_menu(picked, download);
        if delete {
            DownloaderView { action: DownloaderAction::Delete(shown.selected_key()), ..shown }
        } else {
            shown
        }
    }
}

/// An in-memory collection of the records of one kind, with at most one of
/// them selected, a guard against a second download while one is under way,
/// and a latch for the action that the owner is to carry out.
pub struct Downloader<T> {
    data: Vec<T>,
    selected: Option<usize>,
    sort_by: usize,
    fetch_type: FetchType,
    fetching: bool,
    action: DownloaderAction,
}

impl<T> View for Downloader<T> {
    type V = DownloaderView<T>;

    closed spec fn view(&self) -> DownloaderView<T> {
        DownloaderView {
            items: self.data@,
            selected: self.selected,
            sort_by: self.sort_by,
            fetch_type: self.fetch_type,
            fetching: self.fetching,
            action: self.action,
        }
    }
}

impl<T> Downloader<T> {
    #[verifier::type_invariant]
    spec fn inv(self) -> bool {
        self@.wf()
    }
}

impl<T: Item> Downloader<T> {
    pub fn new() -> (d: Self)
        ensures
            d@.is_new(),
    {
        Self {
            data: Vec::new(),
            selected: None,
            sort_by: 0,
            fetch_type: FetchType::All,
            fetching: false,
            action: DownloaderAction::Nothing,
        }
    }

    /// Shows the action bar to the user's input of this frame: `picked` is the
    /// download scope that was chosen, `download` and `delete` say which button
    /// was pressed.
    pub fn action_bar(&mut self, picked: Option<FetchType>, download: bool, delete: bool)
        ensures
            final(self)@ == old(self)@.after_action_bar(picked, download, delete),
            final(self)@.wf(),
    {
        self.download_menu(picked, download);
        if delete {
            self.action = DownloaderAction::Delete(self.selected_id());
        }
    }

    fn download_menu(&mut self, picked: Option<FetchType>, download: bool)
        ensures
            final(self)@ == old(self)@.after_download_menu(picked, download),
            final(self)@.wf(),
    {
        proof {
            use_type_invariant(&*self);
        }
        if let Some(scope) = picked {
            self.fetch_type = scope;
        }
        if download && !self.fetching {
            self.fetching = true;
            self.action = DownloaderAction::Download(self.fetch_type);
        }
    }

    /// Shows the table to the user's input of this frame: `sort` is the column
    /// whose header was pressed, `clicked` the row that was clicked. An empty
    /// cache shows no table, so nothing happens. Returns the row that became
    /// selected by the click.
    pub fn table(&mut self, sort: Option<usize>, clicked: Option<usize>) -> (r: Option<usize>)
        ensures
            old(self)@.shows_table(sort, clicked, final(self)@),
            r == final(self)@.picked(old(self)@, clicked),
            final(self)@.wf(),
    {
        proof {
            use_type_invariant(&*self);
        }
        if self.data.len() == 0 {
            return None;
        }
        if let Some(column) = sort {
            self.sort_table(column);
        }
        match clicked {
            Some(row) => self.select(row),
            None => None,
        }
    }

    /// Sorts the records by the column `index` and remembers the column. The
    /// selection keeps its index.
    pub fn sort_table(&mut self, index: usize)
        ensures
            old(self)@.sorts(index, final(self)@),
            final(self)@.wf(),
    {
        proof {
            use_type_invariant(&*self);
        }
        let selected = self.selected;
        let mut data = self.take_data();
        let ghost before = data@;
        par_sort_items(&mut data, index);
        proof {
            before.to_multiset_ensures();
            data@.to_multiset_ensures();
        }
        self.data = data;
        self.selected = selected;
        self.sort_by = index;
    }

    /// Takes in a single record: it replaces the record with its identity, or
    /// is appended where there is none, and becomes the selection.
    pub fn add(&mut self, item: T)
        ensures
            final(self)@ == old(self)@.with_item(item),
            final(self)@.wf(),
    {
        let id = item.id();
        let mut i: usize = 0;
        while i < self.data.len() && self.data[i].id() != id
            invariant
                i <= self.data.len(),
                *self == *old(self),
                forall|j: int| 0 <= j < i ==> #[trigger] self.data@[j].key() != id,
            decreases self.data.len() - i,
        {
            i += 1;
        }
        let mut data = self.take_data();
        if i < data.len() {
            assert(first_with_id(data@, id, i as int));
            assert(holds_id(data@, id));
            data.set(i, item);
        } else {
            assert(!holds_id(data@, id));
            data.push(item);
        }
        self.data = data;
        self.selected = Some(i);
        self.fetching = false;
    }

    /// Moves the records out, to be edited and put back. Nothing is selected
    /// meanwhile.
    fn take_data(&mut self) -> (data: Vec<T>)
        ensures
            data@ == old(self)@.items,
            final(self)@ == (DownloaderView {
                items: Seq::empty(),
                selected: None,
                ..old(self)@
            }),
    {
        self.selected = None;
        let mut data: Vec<T> = Vec::new();
        std::mem::swap(&mut self.data, &mut data);
        data
    }

    /// Takes in a bulk download: `items` replace every record held. Nothing
    /// stays selected.
    pub fn set(&mut self, items: Vec<T>)
        ensures
            final(self)@ == old(self)@.replaced(items@),
            final(self)@.wf(),
    {
        self.selected = None;
        self.data = items;
        self.fetching = false;
    }

    /// Hands out the pending action and clears it.
    pub fn action(&mut self) -> (a: DownloaderAction)
        ensures
            a == old(self)@.action,
            final(self)@ == old(self)@.cleared(),
            final(self)@.wf(),
    {
        proof {
            use_type_invariant(&*self);
        }
        let a = self.action;
        self.action = DownloaderAction::Nothing;
        a
    }

    /// Selects `index`, or gives the selection up where `index` is selected
    /// already or beyond the records. Returns the resulting selection.
    pub fn select(&mut self, index: usize) -> (r: Option<usize>)
        ensures
            final(self)@ == old(self)@.toggled(index),
            r == final(self)@.selected,
            final(self)@.wf(),
    {
        if index >= self.data.len() {
            self.selected = None;
        } else {
            match self.selected {
                Some(i) if i == index => self.selected = None,
                _ => self.selected = Some(index),
            }
        }
        self.selected
    }

    pub fn selected(&self) -> (r: Option<usize>)
        ensures
            r == self@.selected,
            self@.wf(),
    {
        proof {
            use_type_invariant(self);
        }
        self.selected
    }

    /// The identity of the selected record.
    pub fn selected_id(&self) -> (r: Option<i32>)
        ensures
            r == self@.selected_key(),
            self@.wf(),
    {
        proof {
            use_type_invariant(self);
        }
        match self.selected {
            Some(i) => Some(self.data[i].id()),
            None => None,
        }
    }

    pub fn deselect(&mut self)
        ensures
            final(self)@ == old(self)@.deselected(),
            final(self)@.wf(),
    {
        self.selected = None;
    }

    pub fn data(&self) -> (r: &[T])
        ensures
            r@ == self@.items,
    {
        self.data.as_slice()
    }

    /// Ends the wait for a download, so that the next one can be asked for.
    pub fn stop_fetching(&mut self)
        ensures
            final(self)@ == old(self)@.stopped(),
            final(self)@.wf(),
    {
        proof {
            use_type_invariant(&*self);
        }
        self.fetching = false;
    }

    /// Whether a download is under way.
    pub fn is_fetching(&self) -> (r: bool)
        ensures
            r == self@.fetching,
    {
        self.fetching
    }

    /// The scope that the next download will ask for.
    pub fn fetch_type(&self) -> (r: FetchType)
        ensures
            r == self@.fetch_type,
    {
        self.fetch_type
    }

    /// The column that the records were last sorted by.
    pub fn sorted_by(&self) -> (r: usize)
        ensures
            r == self@.sort_by,
    {
        self.sort_by
    }
}

/// Calls rayon's `par_sort_by` on the records, comparing by the column
/// `index`. Trusted: the records come back as a rearrangement of themselves;
/// where the column orders them totally they come back in its order, and the
/// sort is stable: records that the column does not tell apart keep their
/// order. Where the column does not order them totally, rayon leaves their
/// order unspecified.
#[verifier::external_body]
fn par_sort_items<T: Item>(data: &mut Vec<T>, index: usize)
    ensures
        final(data)@.to_multiset() == old(data)@.to_multiset(),
        orders_totally(old(data)@, index) ==> in_order(final(data)@, index),
        orders_totally(old(data)@, index) ==> keeps_ties(old(data)@, final(data)@, index),
{
    data.par_sort_by(|a, b| a.cmp_by(b, index));
}

/// Selecting a record that is held and not selected selects it, and
/// selecting it once more gives the selection up.
pub proof fn lemma_select_twice<T>(cache: DownloaderView<T>, index: usize)
    requires
        cache.wf(),
        index < cache.items.len(),
        cache.selected != Some(index),
    ensures
        cache.toggled(index).selected == Some(index),
        cache.toggled(index).toggled(index).selected.is_none(),
{
}

/// Selecting the selected record gives the selection up, and selecting it
/// once more brings it back; the records are never touched.
pub proof fn lemma_select_selected<T>(cache: DownloaderView<T>, index: usize)
    requires
        cache.wf(),
        cache.selected == Some(index),
    ensures
        cache.toggled(index).selected.is_none(),
        cache.toggled(index).toggled(index) == cache,
        cache.toggled(index).items == cache.items,
{
}

/// A selection is given up by an index beyond the records.
pub proof fn lemma_select_beyond<T>(cache: DownloaderView<T>, index: usize)
    requires
        index >= cache.items.len(),
    ensures
        cache.toggled(index).selected.is_none(),
{
}

/// Whatever is done to a cache, its selection points at a record held.
pub proof fn lemma_selection_stays_valid<T: Item>(
    cache: DownloaderView<T>,
    index: usize,
    item: T,
    items: Seq<T>,
    picked: Option<FetchType>,
    download: bool,
    delete: bool,
)
    requires
        cache.wf(),
        cache.items.len() < usize::MAX,
    ensures
        cache.toggled(index).wf(),
        cache.with_item(item).wf(),
        cache.replaced(items).wf(),
        cache.deselected().wf(),
        cache.stopped().wf(),
        cache.cleared().wf(),
        cache.after_action_bar(picked, download, delete).wf(),
{
    if holds_id(cache.items, item.key()) {
        lemma_position(cache.items, item.key());
    }
}

/// Where some record has the identity `id`, `position` is the first place of
/// one.
pub proof fn lemma_position<T: Item>(items: Seq<T>, id: i32)
    requires
        holds_id(items, id),
    ensures
        first_with_id(items, id, position(items, id)),
{
    let k = choose|k: int| 0 <= k < items.len() && #[trigger] items[k].key() == id;
    lemma_first_exists(items, id, k);
}

proof fn lemma_first_exists<T: Item>(items: Seq<T>, id: i32, k: int)
    requires
        0 <= k < items.len(),
        items[k].key() == id,
    ensures
        exists|i: int| first_with_id(items, id, i),
    decreases k,
{
    if exists|j: int| 0 <= j < k && #[trigger] items[j].key() == id {
        let j = choose|j: int| 0 <= j < k && #[trigger] items[j].key() == id;
        lemma_first_exists(items, id, j);
    } else {
        assert(first_with_id(items, id, k));
    }
}

/// A record with an identity that is held takes the place of the first
/// record with that identity: the number of records stays, every other
/// record stays where it was, and the new record is selected.
pub proof fn lemma_add_known<T: Item>(cache: DownloaderView<T>, item: T)
    requires
        cache.wf(),
        holds_id(cache.items, item.key()),
    ensures
        ({
            let after = cache.with_item(item);
            let place = position(cache.items, item.key());
            &&& first_with_id(cache.items, item.key(), place)
            &&& after.items.len() == cache.items.len()
            &&& after.items[place] == item
            &&& forall|j: int|
                0 <= j < cache.items.len() && j != place ==> after.items[j] == cache.items[j]
            &&& after.selected == Some(place as usize)
            &&& !after.fetching
        }),
{
    lemma_position(cache.items, item.key());
}

/// A record with an identity that is not held goes to the end: there is one
/// record more, the records held stay where they were, and the new record is
/// selected.
pub proof fn lemma_add_new<T: Item>(cache: DownloaderView<T>, item: T)
    requires
        cache.wf(),
        cache.items.len() < usize::MAX,
        !holds_id(cache.items, item.key()),
    ensures
        ({
            let after = cache.with_item(item);
            &&& after.items.len() == cache.items.len() + 1
            &&& after.items.last() == item
            &&& forall|j: int| 0 <= j < cache.items.len() ==> after.items[j] == cache.items[j]
            &&& after.selected == Some((after.items.len() - 1) as usize)
            &&& !after.fetching
        }),
{
}

/// A download is asked for once: while one is under way, the download button
/// changes neither the pending action nor the guard, until a bulk download, a
/// single record or a stop lifts the guard.
pub proof fn lemma_download_is_gated<T: Item>(
    cache: DownloaderView<T>,
    picked: Option<FetchType>,
    item: T,
    items: Seq<T>,
)
    requires
        cache.fetching,
    ensures
        cache.after_download_menu(picked, true).action == cache.action,
        cache.after_download_menu(picked, true).fetching,
        !cache.replaced(items).fetching,
        !cache.with_item(item).fetching,
        !cache.stopped().fetching,
{
}

} // verus!
