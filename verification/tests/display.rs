use fiff::enums::DataTagKind;
use fiff::tag::{decode_unix_date, display_vec, Data, LabelledData};

#[test]
fn can_decode_date() {
    let data = Data::Int32(vec![1646226731, 138511]);

    if let Data::Int32(ivec) = data {
        assert_eq!(ivec.len(), 2);

        decode_unix_date(&ivec);
    }
}

#[test]
fn a_date_is_written_as_day_and_time() {
    assert_eq!(
        decode_unix_date(&vec![1646226731, 138511]),
        Some("2022-03-02 13:12:11.000138511".to_string())
    );
    assert_eq!(decode_unix_date(&vec![0, 0]), Some("1970-01-01 00:00:00".to_string()));
    assert_eq!(decode_unix_date(&vec![-1, 0, 99]), Some("1969-12-31 23:59:59".to_string()));
    assert_eq!(
        decode_unix_date(&vec![86400, 500_000_000]),
        Some("1970-01-02 00:00:00.500".to_string())
    );
}

#[test]
fn a_date_needs_two_numbers_and_a_count_that_is_not_negative() {
    assert_eq!(decode_unix_date(&vec![]), None);
    assert_eq!(decode_unix_date(&vec![1646226731]), None);
    assert_eq!(decode_unix_date(&vec![1646226731, -1]), None);
    assert_eq!(decode_unix_date(&vec![0, 2_000_000_000]), None);
}

#[test]
fn the_measurement_date_is_shown_as_a_date() {
    let date = LabelledData::new(DataTagKind::MeasDate, Data::Int32(vec![1646226731, 138511]));
    assert_eq!(date.date_text(), Some("2022-03-02 13:12:11.000138511".to_string()));
    let other = LabelledData::new(DataTagKind::Nchan, Data::Int32(vec![1646226731, 138511]));
    assert_eq!(other.date_text(), None);
    let julian = LabelledData::new(DataTagKind::MeasDate, Data::JulianDate(vec![1646226731, 0]));
    assert_eq!(julian.date_text(), None);
    let short = LabelledData::new(DataTagKind::MeasDate, Data::Int32(vec![1]));
    assert_eq!(short.date_text(), None);
    assert_eq!(other.0, DataTagKind::Nchan);
    assert_eq!(other.1, Data::Int32(vec![1646226731, 138511]));
}

#[test]
fn values_are_shown_with_spaces_between() {
    assert_eq!(display_vec(&[]), "None");
    assert_eq!(display_vec(&["200".to_string()]), "200");
    assert_eq!(display_vec(&["3".to_string(), "4".to_string(), "5".to_string()]), "3 4 5");
    assert_eq!(display_vec(&["1.5".to_string(), "-0.5".to_string()]), "1.5 -0.5");
    assert_eq!(display_vec(&["".to_string(), "".to_string()]), " ");
}
