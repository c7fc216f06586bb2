use argos_gui::data_types::{clone_text, ParMeta, PulsarMeta, RawMeta, TemplateMeta};
use argos_gui::ephemerides::ParData;
use argos_gui::error::ArchiveError;
use argos_gui::helpers::downloader::Item;
use argos_gui::helpers::iconic_button::SIZES;
use argos_gui::helpers::{
    cmp_i32, enter_data_option, format_data_option, format_unique_data_option, opt_cmp,
    opt_cmp_i32, DataEdit, Emphasis, IconicButton, StatusMessage, StatusMessageSeverity,
    MISSING_DATA,
};
use argos_gui::toas::{total_key_f32, total_key_f64, TOAData};
use std::cmp::Ordering;

fn pulsar(id: i32, alias: &str) -> PulsarMeta {
    PulsarMeta {
        id,
        alias: alias.to_string(),
        j_name: None,
        b_name: None,
        j2000_ra: None,
        j2000_dec: None,
        master_parfile_id: None,
    }
}

fn some(text: &str) -> Option<String> {
    Some(text.to_string())
}

fn toa(time: f64, error: f32, frequency: f32) -> TOAData {
    TOAData {
        id: 1,
        process: 2,
        pulsar: "a".to_string(),
        observer: 3,
        template: 4,
        frequency: frequency.to_bits(),
        time: time.to_bits(),
        error: error.to_bits(),
    }
}

#[test]
fn null_pulsar_is_empty() {
    assert_eq!(PulsarMeta::null(), pulsar(0, ""));
}

#[test]
fn clones_are_equal() {
    let mut p = pulsar(3, "J1");
    p.j_name = some("J1234+56");
    p.master_parfile_id = Some(9);
    assert_eq!(p.clone(), p);
    let par = ParMeta { id: 1, pulsar_id: 2, checksum: u128::MAX, file_path: "/a".to_string() };
    assert_eq!(par.clone(), par);
    let raw = RawMeta { id: 1, file_path: "/r".to_string(), pulsar_id: 2, observer_id: 3 };
    assert_eq!(raw.clone(), raw);
    let template = TemplateMeta { id: 1, pulsar_id: 2, file_path: "/t".to_string(), checksum: 5 };
    assert_eq!(template.clone(), template);
    let data = ParData { id: 1, pulsar_id: 2, pulsar_name: "n".to_string(), path: "/p".to_string() };
    assert_eq!(data.clone(), data);
    let t = toa(1.5, 0.5, 1400.0);
    assert_eq!(t.clone(), t);
    assert_eq!(clone_text(&some("x")), some("x"));
    assert_eq!(clone_text(&None), None);
    let error = ArchiveError::CantFind("it".to_string());
    assert_eq!(error.clone(), error);
}

#[test]
fn errors_have_their_words() {
    assert_eq!(ArchiveError::CantFind("the thing".to_string()).to_string(), "Could not find the thing.");
    assert_eq!(ArchiveError::CantFind(String::new()).to_string(), "Could not find .");
    assert_eq!(ArchiveError::Other("as it is".to_string()).to_string(), "as it is");
}

#[test]
fn integers_compare_as_integers() {
    assert_eq!(cmp_i32(1, 2), Ordering::Less);
    assert_eq!(cmp_i32(2, 2), Ordering::Equal);
    assert_eq!(cmp_i32(3, 2), Ordering::Greater);
    assert_eq!(cmp_i32(i32::MIN, i32::MAX), Ordering::Less);
}

#[test]
fn missing_values_come_last() {
    assert_eq!(opt_cmp(&None, &None), Ordering::Equal);
    assert_eq!(opt_cmp(&None, &some("a")), Ordering::Greater);
    assert_eq!(opt_cmp(&some("a"), &None), Ordering::Less);
    assert_eq!(opt_cmp(&some("a"), &some("b")), Ordering::Less);
    assert_eq!(opt_cmp(&some("b"), &some("a")), Ordering::Greater);
    assert_eq!(opt_cmp(&some("a"), &some("a")), Ordering::Equal);
    assert_eq!(opt_cmp_i32(None, None), Ordering::Equal);
    assert_eq!(opt_cmp_i32(None, Some(1)), Ordering::Greater);
    assert_eq!(opt_cmp_i32(Some(1), None), Ordering::Less);
    assert_eq!(opt_cmp_i32(Some(1), Some(2)), Ordering::Less);
    assert_eq!(opt_cmp_i32(Some(2), Some(2)), Ordering::Equal);
}

#[test]
fn texts_compare_by_their_first_difference() {
    assert_eq!(opt_cmp(&some(""), &some("")), Ordering::Equal);
    assert_eq!(opt_cmp(&some(""), &some("a")), Ordering::Less);
    assert_eq!(opt_cmp(&some("ab"), &some("abc")), Ordering::Less);
    assert_eq!(opt_cmp(&some("abd"), &some("abc")), Ordering::Greater);
    assert_eq!(opt_cmp(&some("Z"), &some("a")), Ordering::Less);
    assert_eq!(opt_cmp(&some("é"), &some("z")), Ordering::Greater);
    assert_eq!(opt_cmp(&some("\u{10000}"), &some("\u{ffff}")), Ordering::Greater);
}

#[test]
fn pulsars_compare_by_column() {
    let mut a = pulsar(1, "b");
    let mut b = pulsar(2, "a");
    a.j_name = some("J1");
    b.b_name = some("B1");
    a.j2000_ra = some("01:00:00");
    b.j2000_ra = some("02:00:00");
    b.j2000_dec = some("+10:00:00");
    a.master_parfile_id = Some(5);
    b.master_parfile_id = Some(4);
    assert_eq!(a.id(), 1);
    assert_eq!(a.cmp_by(&b, 0), Ordering::Less);
    assert_eq!(a.cmp_by(&b, 1), Ordering::Greater);
    assert_eq!(a.cmp_by(&b, 2), Ordering::Less);
    assert_eq!(a.cmp_by(&b, 3), Ordering::Greater);
    assert_eq!(a.cmp_by(&b, 4), Ordering::Less);
    assert_eq!(a.cmp_by(&b, 5), Ordering::Greater);
    assert_eq!(a.cmp_by(&b, 6), Ordering::Greater);
    assert_eq!(a.cmp_by(&b, 7), Ordering::Equal);
    assert_eq!(a.cmp_by(&a, 1), Ordering::Equal);
}

#[test]
fn ephemerides_compare_by_column() {
    let a = ParData { id: 1, pulsar_id: 9, pulsar_name: "x".to_string(), path: "/b".to_string() };
    let b = ParData { id: 2, pulsar_id: 8, pulsar_name: "y".to_string(), path: "/a".to_string() };
    assert_eq!(a.id(), 1);
    assert_eq!(a.cmp_by(&b, 0), Ordering::Less);
    assert_eq!(a.cmp_by(&b, 1), Ordering::Less);
    assert_eq!(a.cmp_by(&b, 2), Ordering::Greater);
    assert_eq!(a.cmp_by(&b, 3), Ordering::Greater);
    assert_eq!(a.cmp_by(&b, 4), Ordering::Equal);
}

#[test]
fn total_order_keys_follow_the_numbers() {
    let values = [
        f64::NEG_INFINITY,
        -1.0e300,
        -1.0,
        -f64::MIN_POSITIVE,
        -0.0,
        0.0,
        f64::MIN_POSITIVE,
        1.0,
        55000.5,
        f64::INFINITY,
        f64::NAN,
    ];
    for pair in values.windows(2) {
        assert!(total_key_f64(pair[0].to_bits()) < total_key_f64(pair[1].to_bits()));
        assert_eq!(pair[0].total_cmp(&pair[1]), Ordering::Less);
    }
    assert_eq!(total_key_f64(0), 0);
    assert_eq!(total_key_f64(0x7fff_ffff_ffff_ffff), i64::MAX);
    assert_eq!(total_key_f64(0x8000_0000_0000_0000), -1);
    assert_eq!(total_key_f64(u64::MAX), i64::MIN);
    assert_eq!(total_key_f32(0), 0);
    assert_eq!(total_key_f32(0x7fff_ffff), 0x7fff_ffff);
    assert_eq!(total_key_f32(0x8000_0000), -1);
    assert_eq!(total_key_f32(u32::MAX), -0x8000_0000);
    assert!(total_key_f32((-2.5f32).to_bits()) < total_key_f32((-0.0f32).to_bits()));
    assert!(total_key_f32((-0.0f32).to_bits()) < total_key_f32(0.0f32.to_bits()));
}

#[test]
fn times_of_arrival_compare_by_column() {
    let mut a = toa(55000.5, 0.5, 1400.0);
    let mut b = toa(-3.0, 0.25, 1400.0);
    a.process = 1;
    b.process = 2;
    b.pulsar = "b".to_string();
    a.template = 9;
    a.observer = 1;
    b.observer = 1;
    assert_eq!(a.id(), 1);
    assert_eq!(a.cmp_by(&b, 0), Ordering::Less);
    assert_eq!(a.cmp_by(&b, 1), Ordering::Less);
    assert_eq!(a.cmp_by(&b, 2), Ordering::Greater);
    assert_eq!(a.cmp_by(&b, 3), Ordering::Greater);
    assert_eq!(a.cmp_by(&b, 4), Ordering::Greater);
    assert_eq!(a.cmp_by(&b, 5), Ordering::Equal);
    assert_eq!(a.cmp_by(&b, 6), Ordering::Equal);
    assert_eq!(a.cmp_by(&b, 7), Ordering::Equal);
    let nan = toa(f64::NAN, 0.0, 0.0);
    assert_eq!(nan.cmp_by(&a, 2), Ordering::Greater);
    assert_eq!(nan.cmp_by(&nan, 2), Ordering::Equal);
}

#[test]
fn something_went_wrong() {
    assert_eq!(
        StatusMessage::wrong(),
        StatusMessage {
            severity: StatusMessageSeverity::Warning,
            message: "Something went wrong.".to_string()
        }
    );
}

#[test]
fn optional_values_are_shown_with_emphasis() {
    assert_eq!(MISSING_DATA, "N/A");
    assert_eq!(format_data_option(&some("x")), ("x".to_string(), Emphasis::Strong));
    assert_eq!(format_data_option(&None), ("N/A".to_string(), Emphasis::Plain));
    let alias = "J1".to_string();
    assert_eq!(format_unique_data_option(&some("J1"), &alias), ("J1".to_string(), Emphasis::Italics));
    assert_eq!(format_unique_data_option(&some("J2"), &alias), ("J2".to_string(), Emphasis::Strong));
    assert_eq!(format_unique_data_option(&None, &alias), ("N/A".to_string(), Emphasis::Plain));
}

#[test]
fn optional_fields_are_edited() {
    let mut field = some("old");
    assert!(!enter_data_option(&mut field, DataEdit::Nothing));
    assert_eq!(field, some("old"));
    assert!(enter_data_option(&mut field, DataEdit::Typed("new".to_string())));
    assert_eq!(field, some("new"));
    assert!(!enter_data_option(&mut field, DataEdit::Add));
    assert_eq!(field, some("new"));
    assert!(!enter_data_option(&mut field, DataEdit::Delete));
    assert_eq!(field, None);
    assert!(!enter_data_option(&mut field, DataEdit::Typed("lost".to_string())));
    assert_eq!(field, None);
    assert!(!enter_data_option(&mut field, DataEdit::Delete));
    assert!(enter_data_option(&mut field, DataEdit::Add));
    assert_eq!(field, some(""));
}

#[test]
fn a_new_button_is_of_middle_size_with_no_hints() {
    let button = IconicButton::new("X");
    assert_eq!(button.text(), "X");
    assert_eq!(button.size(), 1);
    assert_eq!(button.is_enabled(), None);
    assert_eq!(button.hover_text(), None);
    assert_eq!(button.disabled_hover_text(), None);
    assert_eq!(SIZES, 3);
}

#[test]
fn a_button_is_built_step_by_step() {
    let button = IconicButton::new("X").large().enabled(false).on_hover_text("Press me");
    assert_eq!(button.size(), 2);
    assert_eq!(button.is_enabled(), Some(false));
    assert_eq!(button.hover_text(), Some("Press me"));
    assert_eq!(button.disabled_hover_text(), Some("Press me"));
    let button = button.on_disabled_hover_text("Not now").small().enabled(true);
    assert_eq!(button.size(), 0);
    assert_eq!(button.is_enabled(), Some(true));
    assert_eq!(button.hover_text(), Some("Press me"));
    assert_eq!(button.disabled_hover_text(), Some("Not now"));
    assert_eq!(button.text(), "X");
    let button = IconicButton::new("Y").on_disabled_hover_text("Off");
    assert_eq!(button.hover_text(), None);
    assert_eq!(button.disabled_hover_text(), Some("Off"));
}
