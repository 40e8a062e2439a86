use flowy_grid::date_filter::{DateFilterCondition, DateTypeOption, GridDateFilter};
use flowy_grid::cell::AnyCellData;
use flowy_grid::field::FieldType;

#[test]
fn date_filter_is_test() {
    let filter = GridDateFilter {
        condition: DateFilterCondition::DateIs,
        start: Some(123),
        end: None,
    };

    for (val, visible) in vec![(123, true), (12, false)] {
        assert_eq!(filter.is_visible(val as i64), visible);
    }
}

#[test]
fn date_filter_before_test() {
    let filter = GridDateFilter {
        condition: DateFilterCondition::DateBefore,
        start: Some(123),
        end: None,
    };

    for (val, visible) in vec![(123, false), (122, true)] {
        assert_eq!(filter.is_visible(val as i64), visible);
    }
}

#[test]
fn date_filter_before_or_on_test() {
    let filter = GridDateFilter {
        condition: DateFilterCondition::DateOnOrBefore,
        start: Some(123),
        end: None,
    };

    for (val, visible) in vec![(123, true), (122, true)] {
        assert_eq!(filter.is_visible(val as i64), visible);
    }
}

#[test]
fn date_filter_after_test() {
    let filter = GridDateFilter {
        condition: DateFilterCondition::DateAfter,
        start: Some(123),
        end: None,
    };

    for (val, visible) in vec![(1234, true), (122, false), (0, false)] {
        assert_eq!(filter.is_visible(val as i64), visible);
    }
}

#[test]
fn date_filter_within_test() {
    let filter = GridDateFilter {
        condition: DateFilterCondition::DateWithin,
        start: Some(123),
        end: Some(130),
    };

    for (val, visible) in vec![(123, true), (130, true), (132, false)] {
        assert_eq!(filter.is_visible(val as i64), visible);
    }
}

#[test]
fn date_filter_on_or_before_rejects_later_days() {
    let filter = GridDateFilter {
        condition: DateFilterCondition::DateOnOrBefore,
        start: Some(123),
        end: None,
    };

    for (val, visible) in vec![(123, true), (122, true), (124, false)] {
        assert_eq!(filter.is_visible(val as i64), visible);
    }
}

#[test]
fn date_filter_on_or_after_test() {
    let filter = GridDateFilter {
        condition: DateFilterCondition::DateOnOrAfter,
        start: Some(123),
        end: None,
    };

    for (val, visible) in vec![(123, true), (124, true), (122, false)] {
        assert_eq!(filter.is_visible(val as i64), visible);
    }
}

#[test]
fn date_filter_within_without_end_hides_everything() {
    let filter = GridDateFilter {
        condition: DateFilterCondition::DateWithin,
        start: Some(123),
        end: None,
    };

    for val in vec![0, 122, 123, 130, 132] {
        assert_eq!(filter.is_visible(val as i64), false);
    }
}

#[test]
fn date_filter_is_empty_matches_only_the_zero_sentinel() {
    let with_operands = GridDateFilter {
        condition: DateFilterCondition::DateIsEmpty,
        start: Some(123),
        end: Some(130),
    };
    let without_operands = GridDateFilter {
        condition: DateFilterCondition::DateIsEmpty,
        start: None,
        end: None,
    };

    for filter in [with_operands, without_operands] {
        assert_eq!(filter.is_visible(0), true);
        assert_eq!(filter.is_visible(123), false);
        assert_eq!(filter.is_visible(-1), false);
    }
}

#[test]
fn date_filter_missing_start_fails_closed() {
    let conditions = [
        DateFilterCondition::DateIs,
        DateFilterCondition::DateBefore,
        DateFilterCondition::DateAfter,
        DateFilterCondition::DateOnOrBefore,
        DateFilterCondition::DateOnOrAfter,
        DateFilterCondition::DateWithin,
    ];
    for condition in conditions {
        let filter = GridDateFilter { condition, start: None, end: Some(130) };
        for val in vec![0, 123, -5] {
            assert_eq!(filter.is_visible(val as i64), false);
        }
    }
}

#[test]
fn date_filter_evaluation_is_idempotent() {
    let filter = GridDateFilter {
        condition: DateFilterCondition::DateWithin,
        start: Some(123),
        end: Some(130),
    };
    for val in vec![0, 122, 123, 127, 130, 131] {
        let first = filter.is_visible(val as i64);
        let second = filter.is_visible(val as i64);
        assert_eq!(first, second);
    }
}

#[test]
fn apply_filter_passes_non_date_cells_through() {
    let type_option = DateTypeOption::default();
    let filter = GridDateFilter {
        condition: DateFilterCondition::DateIs,
        start: Some(123),
        end: None,
    };
    let cell = AnyCellData {
        data: "whatever".to_string(),
        field_type: FieldType::RichText,
    };
    assert_eq!(type_option.apply_filter(cell, &filter), Ok(true));
}

#[test]
fn apply_filter_decodes_date_cells() {
    let type_option = DateTypeOption::default();
    let filter = GridDateFilter {
        condition: DateFilterCondition::DateIs,
        start: Some(123),
        end: None,
    };
    let matching = AnyCellData {
        data: "123".to_string(),
        field_type: FieldType::DateTime,
    };
    let other = AnyCellData {
        data: "12".to_string(),
        field_type: FieldType::DateTime,
    };
    assert_eq!(type_option.apply_filter(matching, &filter), Ok(true));
    assert_eq!(type_option.apply_filter(other, &filter), Ok(false));
}

#[test]
fn apply_filter_treats_unreadable_dates_as_empty() {
    let type_option = DateTypeOption::default();
    let is_empty = GridDateFilter {
        condition: DateFilterCondition::DateIsEmpty,
        start: None,
        end: None,
    };
    let unreadable = AnyCellData {
        data: "not a date".to_string(),
        field_type: FieldType::DateTime,
    };
    assert_eq!(type_option.apply_filter(unreadable, &is_empty), Ok(true));
}
