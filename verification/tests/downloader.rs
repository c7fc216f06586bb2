use argos_gui::data_types::PulsarMeta;
use argos_gui::helpers::downloader::{Downloader, DownloaderAction, FetchType};

fn pulsar(id: i32, alias: &str) -> PulsarMeta {
    PulsarMeta {
        id,
        alias: alias.to_string(),
        j_name: None,
        b_name: None,
        j2000_ra: None,
        j2000_dec: None,
        master_parfile_id: None,
    }
}

fn three() -> Downloader<PulsarMeta> {
    let mut cache = Downloader::new();
    cache.set(vec![pulsar(7, "c"), pulsar(3, "a"), pulsar(5, "b")]);
    cache
}

fn ids(cache: &Downloader<PulsarMeta>) -> Vec<i32> {
    cache.data().iter().map(|p| p.id).collect()
}

#[test]
fn new_cache_is_empty_and_idle() {
    let mut cache: Downloader<PulsarMeta> = Downloader::new();
    assert!(cache.data().is_empty());
    assert_eq!(cache.selected(), None);
    assert_eq!(cache.selected_id(), None);
    assert!(!cache.is_fetching());
    assert_eq!(cache.fetch_type(), FetchType::All);
    assert_eq!(cache.sorted_by(), 0);
    assert_eq!(cache.action(), DownloaderAction::Nothing);
}

#[test]
fn select_twice_selects_then_deselects() {
    let mut cache = three();
    assert_eq!(cache.select(1), Some(1));
    assert_eq!(cache.selected_id(), Some(3));
    assert_eq!(cache.select(1), None);
    assert_eq!(cache.selected(), None);
}

#[test]
fn select_another_row_drops_the_previous_selection() {
    let mut cache = three();
    assert_eq!(cache.select(0), Some(0));
    assert_eq!(cache.select(2), Some(2));
    assert_eq!(cache.selected_id(), Some(5));
}

#[test]
fn select_beyond_the_records_deselects() {
    let mut cache = three();
    assert_eq!(cache.select(3), None);
    cache.select(1);
    assert_eq!(cache.select(3), None);
    assert_eq!(cache.selected(), None);
    assert_eq!(cache.select(usize::MAX), None);
}

#[test]
fn deselect_gives_the_selection_up() {
    let mut cache = three();
    cache.select(2);
    cache.deselect();
    assert_eq!(cache.selected(), None);
}

#[test]
fn add_with_a_known_id_replaces_in_place() {
    let mut cache = three();
    cache.add(pulsar(3, "renamed"));
    assert_eq!(cache.data().len(), 3);
    assert_eq!(ids(&cache), vec![7, 3, 5]);
    assert_eq!(cache.data()[1].alias, "renamed");
    assert_eq!(cache.selected(), Some(1));
    assert_eq!(cache.selected_id(), Some(3));
}

#[test]
fn add_with_a_known_id_selects_it_even_when_it_was_selected() {
    let mut cache = three();
    cache.select(1);
    cache.add(pulsar(3, "again"));
    assert_eq!(cache.selected(), Some(1));
}

#[test]
fn add_with_a_new_id_appends_and_selects() {
    let mut cache = three();
    cache.add(pulsar(9, "d"));
    assert_eq!(cache.data().len(), 4);
    assert_eq!(ids(&cache), vec![7, 3, 5, 9]);
    assert_eq!(cache.selected(), Some(3));
    assert_eq!(cache.selected_id(), Some(9));
}

#[test]
fn add_to_an_empty_cache() {
    let mut cache: Downloader<PulsarMeta> = Downloader::new();
    cache.add(pulsar(1, "only"));
    assert_eq!(ids(&cache), vec![1]);
    assert_eq!(cache.selected(), Some(0));
}

#[test]
fn add_replaces_the_first_of_two_records_with_one_id() {
    let mut cache = Downloader::new();
    cache.set(vec![pulsar(2, "x"), pulsar(4, "first"), pulsar(4, "second")]);
    cache.add(pulsar(4, "new"));
    assert_eq!(cache.data()[1].alias, "new");
    assert_eq!(cache.data()[2].alias, "second");
    assert_eq!(cache.selected(), Some(1));
}

#[test]
fn set_replaces_everything_and_clears_selection() {
    let mut cache = three();
    cache.select(2);
    cache.set(vec![pulsar(1, "z")]);
    assert_eq!(ids(&cache), vec![1]);
    assert_eq!(cache.selected(), None);
    assert_eq!(cache.selected_id(), None);
}

#[test]
fn download_sets_the_guard_and_the_latch() {
    let mut cache = three();
    cache.action_bar(None, true, false);
    assert!(cache.is_fetching());
    assert_eq!(cache.action(), DownloaderAction::Download(FetchType::All));
    assert_eq!(cache.action(), DownloaderAction::Nothing);
    assert!(cache.is_fetching());
}

#[test]
fn download_takes_the_scope_that_was_picked() {
    let mut cache = three();
    cache.action_bar(Some(FetchType::Id(12)), true, false);
    assert_eq!(cache.fetch_type(), FetchType::Id(12));
    assert_eq!(cache.action(), DownloaderAction::Download(FetchType::Id(12)));
}

#[test]
fn picking_a_scope_alone_asks_for_nothing() {
    let mut cache = three();
    cache.action_bar(Some(FetchType::Id(4)), false, false);
    assert_eq!(cache.fetch_type(), FetchType::Id(4));
    assert!(!cache.is_fetching());
    assert_eq!(cache.action(), DownloaderAction::Nothing);
}

#[test]
fn download_is_gated_while_one_is_under_way() {
    let mut cache = three();
    cache.action_bar(None, true, false);
    assert_eq!(cache.action(), DownloaderAction::Download(FetchType::All));
    cache.action_bar(None, true, false);
    assert_eq!(cache.action(), DownloaderAction::Nothing);
    cache.stop_fetching();
    assert!(!cache.is_fetching());
    cache.action_bar(None, true, false);
    assert_eq!(cache.action(), DownloaderAction::Download(FetchType::All));
}

#[test]
fn set_and_add_lift_the_guard() {
    let mut cache = three();
    cache.action_bar(None, true, false);
    cache.set(vec![]);
    assert!(!cache.is_fetching());
    cache.action_bar(None, true, false);
    assert!(cache.is_fetching());
    cache.add(pulsar(1, "a"));
    assert!(!cache.is_fetching());
}

#[test]
fn delete_asks_for_the_selected_id() {
    let mut cache = three();
    cache.select(0);
    cache.action_bar(None, false, true);
    assert_eq!(cache.action(), DownloaderAction::Delete(Some(7)));
    assert_eq!(cache.action(), DownloaderAction::Nothing);
}

#[test]
fn delete_without_a_selection_carries_no_id() {
    let mut cache = three();
    cache.action_bar(None, false, true);
    assert_eq!(cache.action(), DownloaderAction::Delete(None));
}

#[test]
fn delete_wins_over_download_in_the_latch() {
    let mut cache = three();
    cache.select(2);
    cache.action_bar(None, true, true);
    assert!(cache.is_fetching());
    assert_eq!(cache.action(), DownloaderAction::Delete(Some(5)));
}

#[test]
fn sort_by_id_and_by_alias() {
    let mut cache = three();
    cache.sort_table(0);
    assert_eq!(ids(&cache), vec![3, 5, 7]);
    assert_eq!(cache.sorted_by(), 0);
    cache.set(vec![pulsar(1, "m"), pulsar(2, "b"), pulsar(3, "z"), pulsar(4, "a")]);
    cache.sort_table(1);
    assert_eq!(ids(&cache), vec![4, 2, 1, 3]);
    assert_eq!(cache.sorted_by(), 1);
}

#[test]
fn sort_keeps_the_selected_index() {
    let mut cache = three();
    cache.select(0);
    cache.sort_table(0);
    assert_eq!(cache.selected(), Some(0));
    assert_eq!(cache.selected_id(), Some(3));
}

#[test]
fn sort_by_an_unknown_column_keeps_the_records() {
    let mut cache = three();
    cache.sort_table(42);
    let mut held = ids(&cache);
    held.sort();
    assert_eq!(held, vec![3, 5, 7]);
    assert_eq!(cache.sorted_by(), 42);
}

#[test]
fn sort_many_records() {
    let mut cache = Downloader::new();
    let mut items = Vec::new();
    for i in 0..500 {
        items.push(pulsar((i * 7919) % 1009, "p"));
    }
    cache.set(items);
    cache.sort_table(0);
    let held = ids(&cache);
    assert_eq!(held.len(), 500);
    assert!(held.windows(2).all(|w| w[0] <= w[1]));
}

#[test]
fn table_on_an_empty_cache_does_nothing() {
    let mut cache: Downloader<PulsarMeta> = Downloader::new();
    assert_eq!(cache.table(Some(1), Some(0)), None);
    assert_eq!(cache.selected(), None);
    assert_eq!(cache.sorted_by(), 0);
}

#[test]
fn table_sorts_then_selects() {
    let mut cache = three();
    assert_eq!(cache.table(Some(0), Some(0)), Some(0));
    assert_eq!(ids(&cache), vec![3, 5, 7]);
    assert_eq!(cache.selected_id(), Some(3));
    assert_eq!(cache.table(None, Some(0)), None);
    assert_eq!(cache.selected(), None);
}

#[test]
fn table_without_a_click_returns_nothing_and_keeps_the_selection() {
    let mut cache = three();
    cache.select(1);
    assert_eq!(cache.table(None, None), None);
    assert_eq!(cache.selected(), Some(1));
}
