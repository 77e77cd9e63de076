use intes::access::{
    all_descriptors, is_interactive, keyboard_tab_rows, mouse_tab_rows, role_of, tab_descriptors,
    LabeledComponent, Role, WidgetKind, WidgetSpec,
};
use intes::canvas::{DrawCommand, MouseTestArea};
use intes::tab::MouseTab;

#[test]
fn mouse_tab_descriptors_match_its_interactive_widgets() {
    let rows = mouse_tab_rows(500);
    let descriptors = tab_descriptors(&rows);
    // The pairing invariant, checked concretely: one descriptor per widget
    // marked interactive, in construction order.
    let mut interactive = 0;
    for row in &rows {
        for w in &row.widgets {
            if is_interactive(w.kind) {
                interactive += 1;
            }
        }
    }
    assert_eq!(descriptors.len(), interactive);
    assert_eq!(descriptors.len(), 5);
    assert_eq!(descriptors[0].role, Role::Button);
    assert_eq!(descriptors[0].name, "Button A".to_string());
    assert_eq!(descriptors[1].role, Role::Button);
    assert_eq!(descriptors[1].name, "Button B".to_string());
    assert_eq!(descriptors[2].role, Role::TrackingSurface);
    assert_eq!(descriptors[2].name, "Mouse Test Canvas".to_string());
    assert_eq!(descriptors[2].width, 460);
    assert_eq!(descriptors[2].height, 100);
    assert_eq!(descriptors[3].role, Role::ReadOnlyText);
    assert_eq!(descriptors[3].name, "Mouse action:".to_string());
    assert_eq!(descriptors[4].role, Role::ReadOnlyText);
    assert_eq!(descriptors[4].name, "Mouse information:".to_string());
}

#[test]
fn keyboard_tab_descriptors_match_its_interactive_widgets() {
    let rows = keyboard_tab_rows();
    let descriptors = tab_descriptors(&rows);
    let mut interactive = 0;
    for row in &rows {
        for w in &row.widgets {
            if is_interactive(w.kind) {
                interactive += 1;
            }
        }
    }
    assert_eq!(descriptors.len(), interactive);
    assert_eq!(descriptors.len(), 2);
    assert_eq!(descriptors[0].role, Role::TextInput);
    assert_eq!(descriptors[0].name, "Textbox 1:".to_string());
    assert_eq!(descriptors[1].role, Role::MultilineText);
    assert_eq!(descriptors[1].name, "Text Editor:".to_string());
}

#[test]
fn the_aggregate_list_concatenates_both_tabs() {
    let descriptors = all_descriptors(500);
    assert_eq!(descriptors.len(), 7);
    assert_eq!(descriptors[0].name, "Button A".to_string());
    assert_eq!(descriptors[4].name, "Mouse information:".to_string());
    assert_eq!(descriptors[5].name, "Textbox 1:".to_string());
    assert_eq!(descriptors[6].name, "Text Editor:".to_string());
}

#[test]
fn static_labels_are_not_exposed() {
    assert!(!is_interactive(WidgetKind::StaticLabel));
    assert!(is_interactive(WidgetKind::PushButton));
    assert!(is_interactive(WidgetKind::ReadOnlyField));
    assert!(is_interactive(WidgetKind::TextInput));
    assert!(is_interactive(WidgetKind::TextEditor));
    assert!(is_interactive(WidgetKind::Canvas));
    assert_eq!(role_of(WidgetKind::PushButton), Role::Button);
    assert_eq!(role_of(WidgetKind::Canvas), Role::TrackingSurface);
}

#[test]
fn a_labeled_component_pairs_a_decorative_label_with_its_widget() {
    let pair = LabeledComponent::new(
        "Mouse action:",
        WidgetSpec {
            kind: WidgetKind::ReadOnlyField,
            id: None,
            label: "Mouse action:".to_string(),
            width: 200,
            height: 0,
        },
        90,
        0,
    );
    assert_eq!(pair.label_widget.kind, WidgetKind::StaticLabel);
    assert_eq!(pair.label_widget.label, "Mouse action:".to_string());
    assert_eq!(pair.label_widget.width, 90);
    let widgets = pair.into_widgets();
    assert_eq!(widgets.len(), 2);
    assert_eq!(widgets[0].kind, WidgetKind::StaticLabel);
    assert_eq!(widgets[1].kind, WidgetKind::ReadOnlyField);
}

#[test]
fn the_canvas_draw_plan_is_a_box_then_the_label() {
    let mut area = MouseTestArea::new("Mouse Test Canvas", 500, 100);
    area.set_color_code(63);
    area.set_position(20, 40);
    let plan = area.draw_plan();
    assert_eq!(plan.len(), 2);
    match &plan[0] {
        DrawCommand::FilledBox { x, y, width, height, color_code } => {
            assert_eq!(*x, 20);
            assert_eq!(*y, 40);
            assert_eq!(*width, 460);
            assert_eq!(*height, 100);
            assert_eq!(*color_code, 63);
        }
        other => panic!("expected a filled box first, got {:?}", other),
    }
    match &plan[1] {
        DrawCommand::LabelText { text, x, y, width, height } => {
            assert_eq!(text, &"Mouse Test Canvas".to_string());
            assert_eq!(*x, 20);
            assert_eq!(*y, 40);
            assert_eq!(*width, 460);
            assert_eq!(*height, 100);
        }
        other => panic!("expected the label second, got {:?}", other),
    }
}

#[test]
fn the_tab_sizes_its_canvas_from_the_available_room() {
    let tab = MouseTab::new(500);
    assert_eq!(tab.canvas().inner().width(), 460);
    assert_eq!(tab.canvas().inner().height(), 100);
    assert_eq!(tab.canvas().inner().label(), "Mouse Test Canvas".to_string());
}
