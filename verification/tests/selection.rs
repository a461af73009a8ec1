use wayscriber::undo::UndoAction;
use wayscriber::selection::{
    decimal_string, report_selection_apply_result, selection_bool_target,
    plan_selection_change, selection_primary_color, tally_selection_change, EditedShape,
    SelectedValue,
    SelectionApplyResult, UiToastKind,
};

fn entry<V>(value: Option<V>, locked: bool) -> SelectedValue<V> {
    SelectedValue { value, locked }
}

#[test]
fn selection_bool_target_returns_true_for_mixed_or_locked_only_values() {
    // An unfilled and a filled rectangle: mixed.
    assert_eq!(selection_bool_target(&vec![entry(Some(false), false), entry(Some(true), false)]), Some(true));
    // Only a locked rectangle.
    assert_eq!(selection_bool_target(&vec![entry(Some(false), true)]), Some(true));
}

#[test]
fn selection_bool_target_flips_uniform_unlocked_value() {
    assert_eq!(selection_bool_target(&vec![entry(Some(false), false), entry(Some(false), false)]), Some(true));
    assert_eq!(selection_bool_target(&vec![entry(Some(true), false), entry(Some(true), false)]), Some(false));
}

#[test]
fn selection_bool_target_ignores_shapes_without_the_property() {
    assert_eq!(selection_bool_target(&vec![entry(None, false), entry(None, true)]), None);
    assert_eq!(selection_bool_target(&Vec::<SelectedValue<bool>>::new()), None);
    assert_eq!(
        selection_bool_target(&vec![entry(None, false), entry(Some(true), true), entry(Some(true), false)]),
        Some(false)
    );
}

#[test]
fn selection_primary_color_skips_locked_shapes() {
    let blue = (0u8, 0u8, 255u8);
    let red = (255u8, 0u8, 0u8);
    assert_eq!(selection_primary_color(&vec![entry(Some(blue), true), entry(Some(red), false)]), Some(red));
    assert_eq!(selection_primary_color(&vec![entry(None, false), entry(Some(blue), true)]), None);
}

#[test]
fn apply_selection_change_reports_applicable_locked_and_changed_counts() {
    let shapes = vec![
        EditedShape { id: 1, applicable: true, locked: false, changed: true },
        EditedShape { id: 2, applicable: true, locked: true, changed: false },
    ];
    let result = tally_selection_change(&shapes);
    assert_eq!(result.applicable, 2);
    assert_eq!(result.locked, 1);
    assert_eq!(result.changed, 1);
    let plan = plan_selection_change(&shapes);
    assert_eq!(plan.result, result);
    assert!(plan.redraw);
    assert!(plan.session_dirty);
    assert_eq!(plan.changed_ids, vec![1]);
    assert!(matches!(plan.undo, Some(UndoAction::Modify { shape_id: 1 })));
}

#[test]
fn a_change_to_several_shapes_is_one_compound_undo_entry() {
    let shapes = vec![
        EditedShape { id: 4, applicable: true, locked: false, changed: true },
        EditedShape { id: 5, applicable: false, locked: false, changed: true },
        EditedShape { id: 6, applicable: true, locked: false, changed: true },
    ];
    let plan = plan_selection_change(&shapes);
    assert_eq!(plan.changed_ids, vec![4, 6]);
    match plan.undo {
        Some(UndoAction::Compound(parts)) => {
            assert_eq!(parts.len(), 2);
            assert!(matches!(parts[0], UndoAction::Modify { shape_id: 4 }));
            assert!(matches!(parts[1], UndoAction::Modify { shape_id: 6 }));
        }
        _ => panic!("expected a compound entry"),
    }
    let unchanged = plan_selection_change(&vec![EditedShape { id: 7, applicable: true, locked: true, changed: true }]);
    assert!(unchanged.undo.is_none() && !unchanged.redraw && !unchanged.session_dirty);
    assert!(unchanged.changed_ids.is_empty());
}

#[test]
fn tally_skips_inapplicable_and_unchanged_shapes() {
    let shapes = vec![
        EditedShape { id: 1, applicable: false, locked: true, changed: true },
        EditedShape { id: 2, applicable: true, locked: false, changed: false },
        EditedShape { id: 3, applicable: true, locked: false, changed: true },
    ];
    assert_eq!(
        tally_selection_change(&shapes),
        SelectionApplyResult { changed: 1, locked: 0, applicable: 2 }
    );
}

#[test]
fn report_selection_apply_result_emits_expected_toasts() {
    let report = report_selection_apply_result(
        SelectionApplyResult { changed: 0, locked: 0, applicable: 0 },
        "fill",
    );
    assert!(!report.applied);
    assert_eq!(report.toast.as_ref().map(|t| t.message.as_str()), Some("No fill to edit in selection."));
    assert_eq!(report.toast.as_ref().map(|t| t.kind), Some(UiToastKind::Warning));

    let report = report_selection_apply_result(
        SelectionApplyResult { changed: 0, locked: 2, applicable: 2 },
        "color",
    );
    assert!(!report.applied);
    assert_eq!(report.toast.as_ref().map(|t| t.message.as_str()), Some("All color shapes are locked."));

    let report = report_selection_apply_result(
        SelectionApplyResult { changed: 0, locked: 1, applicable: 2 },
        "fill",
    );
    assert!(!report.applied);
    assert_eq!(report.toast.as_ref().map(|t| t.message.as_str()), Some("No changes applied."));
    assert_eq!(report.toast.as_ref().map(|t| t.kind), Some(UiToastKind::Info));

    let report = report_selection_apply_result(
        SelectionApplyResult { changed: 1, locked: 2, applicable: 3 },
        "fill",
    );
    assert!(report.applied);
    assert_eq!(report.toast.as_ref().map(|t| t.message.as_str()), Some("2 locked shape(s) unchanged."));

    let report = report_selection_apply_result(
        SelectionApplyResult { changed: 3, locked: 0, applicable: 3 },
        "fill",
    );
    assert!(report.applied);
    assert!(report.toast.is_none());
}

#[test]
fn decimal_string_writes_counts() {
    assert_eq!(decimal_string(0), "0");
    assert_eq!(decimal_string(7), "7");
    assert_eq!(decimal_string(10), "10");
    assert_eq!(decimal_string(1234567890), "1234567890");
    assert_eq!(decimal_string(usize::MAX), usize::MAX.to_string());
}
