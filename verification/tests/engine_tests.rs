use flowy_grid::cell::{decode_cell, split_option_ids, AnyCellData, DecodedCellValue};
use flowy_grid::checkbox_filter::{CheckboxFilterCondition, GridCheckboxFilter};
use flowy_grid::date_filter::{DateFilterCondition, GridDateFilter};
use flowy_grid::evaluator::{is_cell_data_visible, is_cell_visible, is_row_visible, GridFilter};
use flowy_grid::field::FieldType;
use flowy_grid::number_filter::{GridNumberFilter, NumberFilterCondition};
use flowy_grid::parse::parse_i64;
use flowy_grid::select_filter::{GridSelectOptionFilter, SelectOptionCondition};
use flowy_grid::text_filter::{str_contains, GridTextFilter, TextFilterCondition};

#[test]
fn parse_i64_reads_plain_decimals() {
    assert_eq!(parse_i64("123"), Some(123));
    assert_eq!(parse_i64("0"), Some(0));
    assert_eq!(parse_i64("-45"), Some(-45));
    assert_eq!(parse_i64("007"), Some(7));
    assert_eq!(parse_i64("-0"), Some(0));
    assert_eq!(parse_i64("00"), Some(0));
}

#[test]
fn parse_i64_rejects_malformed_input() {
    assert_eq!(parse_i64(""), None);
    assert_eq!(parse_i64("-"), None);
    assert_eq!(parse_i64("12a"), None);
    assert_eq!(parse_i64("a12"), None);
    assert_eq!(parse_i64("1 2"), None);
    assert_eq!(parse_i64("+7"), None);
    assert_eq!(parse_i64("--7"), None);
}

#[test]
fn parse_i64_respects_the_i64_range() {
    assert_eq!(parse_i64("9223372036854775807"), Some(i64::MAX));
    assert_eq!(parse_i64("-9223372036854775808"), Some(i64::MIN));
    assert_eq!(parse_i64("9223372036854775808"), None);
    assert_eq!(parse_i64("-9223372036854775809"), None);
    assert_eq!(parse_i64("0009223372036854775807"), Some(i64::MAX));
    assert_eq!(parse_i64("12345678901234567890123"), None);
}

#[test]
fn split_option_ids_keeps_order_and_empty_segments() {
    assert_eq!(split_option_ids("a,b,c"), vec!["a", "b", "c"]);
    assert_eq!(split_option_ids("a"), vec!["a"]);
    assert_eq!(split_option_ids(""), Vec::<String>::new());
    assert_eq!(split_option_ids("a,,b"), vec!["a", "", "b"]);
    assert_eq!(split_option_ids("a,b,a"), vec!["a", "b", "a"]);
    assert_eq!(split_option_ids(","), vec!["", ""]);
}

#[test]
fn decode_is_directed_by_the_field_type() {
    let date = AnyCellData { data: "123".to_string(), field_type: FieldType::DateTime };
    match decode_cell(&date) {
        DecodedCellValue::Timestamp(ts) => assert_eq!(ts, 123),
        other => panic!("decoded {:?}", other),
    }

    let bad_date = AnyCellData { data: "junk".to_string(), field_type: FieldType::DateTime };
    match decode_cell(&bad_date) {
        DecodedCellValue::Timestamp(ts) => assert_eq!(ts, 0),
        other => panic!("decoded {:?}", other),
    }

    let number = AnyCellData { data: "-9".to_string(), field_type: FieldType::Number };
    match decode_cell(&number) {
        DecodedCellValue::Number(n) => assert_eq!(n, Some(-9)),
        other => panic!("decoded {:?}", other),
    }

    let bad_number = AnyCellData { data: "nine".to_string(), field_type: FieldType::Number };
    match decode_cell(&bad_number) {
        DecodedCellValue::Number(n) => assert_eq!(n, None),
        other => panic!("decoded {:?}", other),
    }

    let options = AnyCellData { data: "x,y".to_string(), field_type: FieldType::MultiSelect };
    match decode_cell(&options) {
        DecodedCellValue::Options(ids) => assert_eq!(ids, vec!["x", "y"]),
        other => panic!("decoded {:?}", other),
    }

    let checked = AnyCellData { data: "1".to_string(), field_type: FieldType::Checkbox };
    match decode_cell(&checked) {
        DecodedCellValue::Checkbox(b) => assert!(b),
        other => panic!("decoded {:?}", other),
    }

    let also_checked = AnyCellData { data: "true".to_string(), field_type: FieldType::Checkbox };
    match decode_cell(&also_checked) {
        DecodedCellValue::Checkbox(b) => assert!(b),
        other => panic!("decoded {:?}", other),
    }

    let unchecked = AnyCellData { data: "yes".to_string(), field_type: FieldType::Checkbox };
    match decode_cell(&unchecked) {
        DecodedCellValue::Checkbox(b) => assert!(!b),
        other => panic!("decoded {:?}", other),
    }

    let text = AnyCellData { data: "hello".to_string(), field_type: FieldType::RichText };
    match decode_cell(&text) {
        DecodedCellValue::Text(s) => assert_eq!(s, "hello"),
        other => panic!("decoded {:?}", other),
    }

    let url = AnyCellData { data: "https://example.test".to_string(), field_type: FieldType::URL };
    match decode_cell(&url) {
        DecodedCellValue::Text(s) => assert_eq!(s, "https://example.test"),
        other => panic!("decoded {:?}", other),
    }
}

#[test]
fn str_contains_finds_substrings() {
    assert!(str_contains("hello", "ell"));
    assert!(str_contains("hello", "hello"));
    assert!(str_contains("hello", ""));
    assert!(str_contains("", ""));
    assert!(!str_contains("hello", "hero"));
    assert!(!str_contains("ell", "hello"));
}

#[test]
fn text_filter_conditions() {
    let is = GridTextFilter {
        condition: TextFilterCondition::TextIs,
        content: Some("abc".to_string()),
    };
    assert!(is.is_visible(&"abc".to_string()));
    assert!(!is.is_visible(&"abcd".to_string()));

    let contains = GridTextFilter {
        condition: TextFilterCondition::TextContains,
        content: Some("bc".to_string()),
    };
    assert!(contains.is_visible(&"abcd".to_string()));
    assert!(!contains.is_visible(&"acbd".to_string()));

    let empty = GridTextFilter { condition: TextFilterCondition::TextIsEmpty, content: None };
    assert!(empty.is_visible(&"".to_string()));
    assert!(!empty.is_visible(&"x".to_string()));
}

#[test]
fn text_filter_missing_content_fails_closed() {
    for condition in [TextFilterCondition::TextIs, TextFilterCondition::TextContains] {
        let filter = GridTextFilter { condition, content: None };
        assert!(!filter.is_visible(&"anything".to_string()));
        assert!(!filter.is_visible(&"".to_string()));
    }
}

#[test]
fn number_filter_conditions() {
    let cases: Vec<(NumberFilterCondition, i64, Vec<(Option<i64>, bool)>)> = vec![
        (NumberFilterCondition::Equal, 7, vec![(Some(7), true), (Some(8), false), (None, false)]),
        (NumberFilterCondition::GreaterThan, 7, vec![(Some(8), true), (Some(7), false)]),
        (NumberFilterCondition::LessThan, 7, vec![(Some(6), true), (Some(7), false)]),
        (
            NumberFilterCondition::GreaterThanOrEqualTo,
            7,
            vec![(Some(7), true), (Some(6), false)],
        ),
        (NumberFilterCondition::LessThanOrEqualTo, 7, vec![(Some(7), true), (Some(8), false)]),
    ];
    for (condition, content, expectations) in cases {
        let filter = GridNumberFilter { condition, content: Some(content) };
        for (value, visible) in expectations {
            assert_eq!(filter.is_visible(value), visible);
        }
    }

    let empty = GridNumberFilter { condition: NumberFilterCondition::NumberIsEmpty, content: None };
    assert!(empty.is_visible(None));
    assert!(!empty.is_visible(Some(0)));
}

#[test]
fn number_filter_missing_content_fails_closed() {
    let filter = GridNumberFilter { condition: NumberFilterCondition::Equal, content: None };
    assert!(!filter.is_visible(Some(7)));
    assert!(!filter.is_visible(None));
}

#[test]
fn checkbox_filter_conditions() {
    let checked = GridCheckboxFilter { condition: CheckboxFilterCondition::IsChecked };
    assert!(checked.is_visible(true));
    assert!(!checked.is_visible(false));

    let unchecked = GridCheckboxFilter { condition: CheckboxFilterCondition::IsUnChecked };
    assert!(unchecked.is_visible(false));
    assert!(!unchecked.is_visible(true));
}

fn ids(items: &[&str]) -> Vec<String> {
    items.iter().map(|s| s.to_string()).collect()
}

#[test]
fn select_filter_conditions() {
    let any_of = GridSelectOptionFilter {
        condition: SelectOptionCondition::OptionAnyOf,
        option_ids: ids(&["a", "b"]),
    };
    assert!(any_of.is_visible(&ids(&["b", "c"])));
    assert!(!any_of.is_visible(&ids(&["c", "d"])));
    assert!(!any_of.is_visible(&ids(&[])));

    let all_of = GridSelectOptionFilter {
        condition: SelectOptionCondition::OptionAllOf,
        option_ids: ids(&["a", "b"]),
    };
    assert!(all_of.is_visible(&ids(&["b", "a", "c"])));
    assert!(!all_of.is_visible(&ids(&["a", "c"])));

    let is_empty = GridSelectOptionFilter {
        condition: SelectOptionCondition::OptionIsEmpty,
        option_ids: ids(&[]),
    };
    assert!(is_empty.is_visible(&ids(&[])));
    assert!(!is_empty.is_visible(&ids(&["a"])));
}

#[test]
fn select_filter_without_ids_fails_closed() {
    for condition in [SelectOptionCondition::OptionAnyOf, SelectOptionCondition::OptionAllOf] {
        let filter = GridSelectOptionFilter { condition, option_ids: ids(&[]) };
        assert!(!filter.is_visible(&ids(&["a"])));
        assert!(!filter.is_visible(&ids(&[])));
    }
}

#[test]
fn stale_filters_pass_cells_through() {
    let date_filter = GridFilter::Date(GridDateFilter {
        condition: DateFilterCondition::DateIs,
        start: Some(123),
        end: None,
    });
    // the cell decoded as text, so the date filter is stale and must not hide it
    let text_value = DecodedCellValue::Text("2022-03-01".to_string());
    assert!(is_cell_visible(&text_value, &date_filter));

    let number_filter = GridFilter::Number(GridNumberFilter {
        condition: NumberFilterCondition::Equal,
        content: Some(1),
    });
    let checkbox_value = DecodedCellValue::Checkbox(false);
    assert!(is_cell_visible(&checkbox_value, &number_filter));
}

#[test]
fn cell_evaluation_is_idempotent() {
    let filter = GridFilter::Text(GridTextFilter {
        condition: TextFilterCondition::TextContains,
        content: Some("gri".to_string()),
    });
    let value = DecodedCellValue::Text("grid".to_string());
    let first = is_cell_visible(&value, &filter);
    let second = is_cell_visible(&value, &filter);
    assert_eq!(first, second);
    assert!(first);
}

#[test]
fn stored_cells_are_decoded_then_judged() {
    let filter = GridFilter::Date(GridDateFilter {
        condition: DateFilterCondition::DateIs,
        start: Some(123),
        end: None,
    });

    let date_cell = AnyCellData { data: "123".to_string(), field_type: FieldType::DateTime };
    assert!(is_cell_data_visible(&date_cell, &filter));

    let other_day = AnyCellData { data: "122".to_string(), field_type: FieldType::DateTime };
    assert!(!is_cell_data_visible(&other_day, &filter));

    // the field switched to text after the filter was made: pass through
    let stale = AnyCellData { data: "123".to_string(), field_type: FieldType::RichText };
    assert!(is_cell_data_visible(&stale, &filter));
}

#[test]
fn row_with_no_filters_is_visible() {
    let cells: Vec<(DecodedCellValue, GridFilter)> = Vec::new();
    assert!(is_row_visible(&cells));
}

#[test]
fn row_visibility_is_the_conjunction_of_its_filters() {
    let date_filter = GridFilter::Date(GridDateFilter {
        condition: DateFilterCondition::DateOnOrAfter,
        start: Some(100),
        end: None,
    });
    let checkbox_filter = GridFilter::Checkbox(GridCheckboxFilter {
        condition: CheckboxFilterCondition::IsChecked,
    });

    let all_pass = vec![
        (DecodedCellValue::Timestamp(150), date_filter.clone()),
        (DecodedCellValue::Checkbox(true), checkbox_filter.clone()),
    ];
    assert!(is_row_visible(&all_pass));

    let one_fails = vec![
        (DecodedCellValue::Timestamp(150), date_filter),
        (DecodedCellValue::Checkbox(false), checkbox_filter),
    ];
    assert!(!is_row_visible(&one_fails));
}
