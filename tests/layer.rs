use gcode_viewer::command::{CommandGroup, CommandRecord};
use gcode_viewer::layer::{classify, is_visible, ColorTag, LAYER_TOLERANCE};

#[test]
fn layer_tolerance_is_inclusive() {
    assert!(is_visible(2_100, 2_000, true));
    assert!(is_visible(1_900, 2_000, true));
    assert!(!is_visible(2_101, 2_000, true));
    assert!(!is_visible(1_899, 2_000, true));
    assert!(!is_visible(2_000, 2_000, false));
    assert_eq!(LAYER_TOLERANCE, 100);
}

#[test]
fn layer_test_does_not_overflow() {
    assert!(!is_visible(i64::MAX, i64::MIN, true));
    assert!(is_visible(i64::MIN, i64::MIN, true));
}

#[test]
fn extrusion_sign_decides_color() {
    assert_eq!(classify(Some(-1), false), (ColorTag::Retract, true));
    assert_eq!(classify(Some(0), false), (ColorTag::Extrude, true));
    assert_eq!(classify(Some(7), true), (ColorTag::Extrude, true));
    assert_eq!(classify(None, false), (ColorTag::Travel, false));
    assert_eq!(classify(None, true), (ColorTag::Travel, true));
}

#[test]
fn values_are_read_by_letter_in_either_case() {
    let c = CommandRecord::new(CommandGroup::General, 1)
        .with_value('X', 1)
        .with_value('y', 2)
        .with_value('Z', 3)
        .with_value('e', 4)
        .with_value('I', 5)
        .with_value('j', 6)
        .with_value('R', 7)
        .with_value('f', 8);
    assert_eq!(c.value_for('x'), Some(1));
    assert_eq!(c.value_for('Y'), Some(2));
    assert_eq!(c.value_for('z'), Some(3));
    assert_eq!(c.value_for('E'), Some(4));
    assert_eq!(c.value_for('i'), Some(5));
    assert_eq!(c.value_for('J'), Some(6));
    assert_eq!(c.value_for('r'), Some(7));
    assert_eq!(c.value_for('f'), None);
    assert_eq!(c.group, CommandGroup::General);
    assert_eq!(c.major, 1);
    assert_eq!(CommandRecord::new(CommandGroup::ToolChange, 3).value_for('x'), None);
}
