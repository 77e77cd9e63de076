//! The accessibility shadow tree: a side list of descriptors, built in
//! lock-step with widget construction and handed to the accessibility host
//! once at startup.
//!
//! Each row of the layout is a declarative table of widget specifications;
//! a generic routine walks the rows in construction order and returns one
//! descriptor for exactly each interactive widget, in that same order.
//! Decorative elements (static labels, plain container packs) are omitted.
//! The list is built once and never mutated afterward: no widget is created
//! dynamically after the initial layout.

use vstd::prelude::*;
use vstd::string::StringExecFns;

use crate::canvas::CANVAS_RIGHT_MARGIN;

verus! {

/// What kind of UI element a widget specification describes. Rows
/// themselves (container packs) are no widgets here; they are decorative
/// and never exposed.
#[derive(Clone, Copy, Debug, PartialEq, Eq, Structural)]
pub enum WidgetKind {
    PushButton,
    /// A read-only report field.
    ReadOnlyField,
    /// A single-line text input.
    TextInput,
    /// A multi-line text editor.
    TextEditor,
    /// A static text label; decorative, not exposed.
    StaticLabel,
    /// The custom-drawn mouse tracking surface.
    Canvas,
}

/// The role a descriptor reports to the accessibility host.
#[derive(Clone, Copy, Debug, PartialEq, Eq, Structural)]
pub enum Role {
    Button,
    ReadOnlyText,
    TextInput,
    MultilineText,
    TrackingSurface,
}

/// Whether a widget of this kind is exposed to assistive technology.
pub open spec fn spec_interactive(k: WidgetKind) -> bool {
    k != WidgetKind::StaticLabel
}

/// The role under which an interactive widget of this kind is exposed.
pub open spec fn spec_role(k: WidgetKind) -> Role
    recommends
        spec_interactive(k),
{
    match k {
        WidgetKind::PushButton => Role::Button,
        WidgetKind::ReadOnlyField => Role::ReadOnlyText,
        WidgetKind::TextInput => Role::TextInput,
        WidgetKind::TextEditor => Role::MultilineText,
        WidgetKind::StaticLabel => Role::ReadOnlyText,
        WidgetKind::Canvas => Role::TrackingSurface,
    }
}

/// Whether a widget of this kind is exposed to assistive technology.
pub fn is_interactive(k: WidgetKind) -> (r: bool)
    ensures
        r == spec_interactive(k),
{
    match k {
        WidgetKind::StaticLabel => false,
        _ => true,
    }
}

/// The role under which an interactive widget of this kind is exposed.
pub fn role_of(k: WidgetKind) -> (r: Role)
    ensures
        r == spec_role(k),
{
    match k {
        WidgetKind::PushButton => Role::Button,
        WidgetKind::ReadOnlyField => Role::ReadOnlyText,
        WidgetKind::TextInput => Role::TextInput,
        WidgetKind::TextEditor => Role::MultilineText,
        WidgetKind::StaticLabel => Role::ReadOnlyText,
        WidgetKind::Canvas => Role::TrackingSurface,
    }
}

/// Mathematical model of a widget specification.
#[verifier::ext_equal]
pub struct WidgetModel {
    pub kind: WidgetKind,
    pub id: Option<Seq<char>>,
    pub label: Seq<char>,
    pub width: int,
    pub height: int,
}

/// One widget of a row: its kind, an optional stable string id (for lookup
/// and accessibility pairing), its human-readable label, and its size.
#[derive(Debug)]
pub struct WidgetSpec {
    pub kind: WidgetKind,
    pub id: Option<String>,
    pub label: String,
    pub width: i32,
    pub height: i32,
}

impl View for WidgetSpec {
    type V = WidgetModel;

    open spec fn view(&self) -> WidgetModel {
        WidgetModel {
            kind: self.kind,
            id: match self.id {
                Some(s) => Some(s@),
                None => None,
            },
            label: self.label@,
            width: self.width as int,
            height: self.height as int,
        }
    }
}

/// Mathematical model of an accessibility descriptor.
#[verifier::ext_equal]
pub struct DescriptorModel {
    pub role: Role,
    pub name: Seq<char>,
    pub width: int,
    pub height: int,
}

/// What the accessibility host is told about one interactive widget: its
/// role, its human-readable name, and its bounds (the size as laid out; the
/// host assigns positions).
#[derive(Debug)]
pub struct AccessibleDescriptor {
    pub role: Role,
    pub name: String,
    pub width: i32,
    pub height: i32,
}

impl View for AccessibleDescriptor {
    type V = DescriptorModel;

    open spec fn view(&self) -> DescriptorModel {
        DescriptorModel {
            role: self.role,
            name: self.name@,
            width: self.width as int,
            height: self.height as int,
        }
    }
}

/// The descriptor of one interactive widget: its role by kind, its label as
/// name, its size as bounds.
pub open spec fn spec_descriptor_of(w: WidgetModel) -> DescriptorModel
    recommends
        spec_interactive(w.kind),
{
    DescriptorModel { role: spec_role(w.kind), name: w.label, width: w.width, height: w.height }
}

/// The descriptors of a row of widgets: one per interactive widget, in the
/// widgets' order; decorative widgets are omitted.
pub open spec fn spec_descriptors(ws: Seq<WidgetModel>) -> Seq<DescriptorModel>
    decreases ws.len(),
{
    if ws.len() == 0 {
        Seq::empty()
    } else {
        spec_descriptors(ws.drop_last()) + if spec_interactive(ws.last().kind) {
            seq![spec_descriptor_of(ws.last())]
        } else {
            Seq::empty()
        }
    }
}

/// How many widgets of a row are interactive.
pub open spec fn spec_interactive_count(ws: Seq<WidgetModel>) -> nat
    decreases ws.len(),
{
    if ws.len() == 0 {
        0
    } else {
        spec_interactive_count(ws.drop_last()) + if spec_interactive(ws.last().kind) {
            1nat
        } else {
            0nat
        }
    }
}

/// Pairing invariant, per row: the descriptor list has exactly one entry
/// per interactive widget — none orphaned, none missing.
pub proof fn lemma_descriptor_count(ws: Seq<WidgetModel>)
    ensures
        spec_descriptors(ws).len() == spec_interactive_count(ws),
    decreases ws.len(),
{
    if ws.len() > 0 {
        lemma_descriptor_count(ws.drop_last());
    }
}

/// One row of the layout: its height and its widgets in tab order.
#[derive(Debug)]
pub struct RowSpec {
    pub height: i32,
    pub widgets: Vec<WidgetSpec>,
}

/// Mathematical model of a row.
#[verifier::ext_equal]
pub struct RowModel {
    pub height: int,
    pub widgets: Seq<WidgetModel>,
}

impl View for RowSpec {
    type V = RowModel;

    open spec fn view(&self) -> RowModel {
        RowModel {
            height: self.height as int,
            widgets: self.widgets@.map_values(|w: WidgetSpec| w@),
        }
    }
}

/// The descriptors of a whole tab: each row's descriptors, concatenated in
/// construction order.
pub open spec fn spec_tab_descriptors(rows: Seq<RowModel>) -> Seq<DescriptorModel>
    decreases rows.len(),
{
    if rows.len() == 0 {
        Seq::empty()
    } else {
        spec_tab_descriptors(rows.drop_last()) + spec_descriptors(rows.last().widgets)
    }
}

/// How many widgets of a whole tab are interactive.
pub open spec fn spec_tab_interactive_count(rows: Seq<RowModel>) -> nat
    decreases rows.len(),
{
    if rows.len() == 0 {
        0
    } else {
        spec_tab_interactive_count(rows.drop_last()) + spec_interactive_count(
            rows.last().widgets,
        )
    }
}

/// Pairing invariant, per tab: the count of descriptors returned from a tab
/// equals the count of interactive widgets constructed in that tab.
pub proof fn lemma_tab_descriptor_count(rows: Seq<RowModel>)
    ensures
        spec_tab_descriptors(rows).len() == spec_tab_interactive_count(rows),
    decreases rows.len(),
{
    if rows.len() > 0 {
        lemma_tab_descriptor_count(rows.drop_last());
        lemma_descriptor_count(rows.last().widgets);
    }
}

/// Builds the descriptors for one row of interactive widgets: exactly the
/// widgets of the row that should be exposed, in order.
pub fn row_descriptors(row: &RowSpec) -> (r: Vec<AccessibleDescriptor>)
    ensures
        r@.map_values(|d: AccessibleDescriptor| d@) == spec_descriptors(row@.widgets),
{
    let mut r: Vec<AccessibleDescriptor> = Vec::new();
    let n = row.widgets.len();
    let mut i: usize = 0;
    proof {
        assert(r@.map_values(|d: AccessibleDescriptor| d@) =~= spec_descriptors(
            row@.widgets.take(0),
        ));
    }
    while i < n
        invariant
            0 <= i <= n,
            n == row.widgets@.len(),
            row@.widgets.len() == n,
            r@.map_values(|d: AccessibleDescriptor| d@) == spec_descriptors(
                row@.widgets.take(i as int),
            ),
        decreases n - i,
    {
        let w = &row.widgets[i];
        let ghost prefix = row@.widgets.take(i as int);
        if is_interactive(w.kind) {
            let d = AccessibleDescriptor {
                role: role_of(w.kind),
                name: w.label.clone(),
                width: w.width,
                height: w.height,
            };
            r.push(d);
        }
        proof {
            let next = row@.widgets.take(i + 1);
            assert(next.drop_last() =~= prefix);
            assert(next.last() == row@.widgets[i as int]);
            assert(row@.widgets[i as int] == row.widgets@[i as int]@);
            assert(r@.map_values(|d: AccessibleDescriptor| d@) =~= spec_descriptors(next));
        }
        i = i + 1;
    }
    proof {
        assert(row@.widgets.take(n as int) =~= row@.widgets);
    }
    r
}

/// Builds the descriptors for a whole tab: the rows' descriptor lists
/// concatenated in construction order.
pub fn tab_descriptors(rows: &Vec<RowSpec>) -> (r: Vec<AccessibleDescriptor>)
    ensures
        r@.map_values(|d: AccessibleDescriptor| d@) == spec_tab_descriptors(
            rows@.map_values(|row: RowSpec| row@),
        ),
{
    let mut r: Vec<AccessibleDescriptor> = Vec::new();
    let n = rows.len();
    let mut i: usize = 0;
    proof {
        assert(r@.map_values(|d: AccessibleDescriptor| d@) =~= spec_tab_descriptors(
            rows@.map_values(|row: RowSpec| row@).take(0),
        ));
    }
    while i < n
        invariant
            0 <= i <= n,
            n == rows@.len(),
            r@.map_values(|d: AccessibleDescriptor| d@) == spec_tab_descriptors(
                rows@.map_values(|row: RowSpec| row@).take(i as int),
            ),
        decreases n - i,
    {
        let ghost all = rows@.map_values(|row: RowSpec| row@);
        let mut row_ds = row_descriptors(&rows[i]);
        r.append(&mut row_ds);
        proof {
            let next = all.take(i + 1);
            assert(next.drop_last() =~= all.take(i as int));
            assert(next.last() == rows@[i as int]@);
            assert(r@.map_values(|d: AccessibleDescriptor| d@) =~= spec_tab_descriptors(next));
        }
        i = i + 1;
    }
    proof {
        let all = rows@.map_values(|row: RowSpec| row@);
        assert(all.take(n as int) =~= all);
    }
    r
}

/// A labeled component: a static text label placed beside another widget,
/// forming one row pair. The label is decorative; only the component itself
/// is exposed.
#[derive(Debug)]
pub struct LabeledComponent {
    pub label_widget: WidgetSpec,
    pub component: WidgetSpec,
}

impl LabeledComponent {
    /// Pairs a static label of the given size with a component.
    pub fn new(label: &str, component: WidgetSpec, width: i32, height: i32) -> (r:
        LabeledComponent)
        ensures
            r.label_widget@ == (WidgetModel {
                kind: WidgetKind::StaticLabel,
                id: None,
                label: label@,
                width: width as int,
                height: height as int,
            }),
            r.component@ == component@,
    {
        LabeledComponent {
            label_widget: WidgetSpec {
                kind: WidgetKind::StaticLabel,
                id: None,
                label: String::from_str(label),
                width,
                height,
            },
            component,
        }
    }

    /// The pair as a row's widget list: the label first, the component
    /// beside it.
    pub fn into_widgets(self) -> (r: Vec<WidgetSpec>)
        ensures
            r@.map_values(|w: WidgetSpec| w@) == seq![self.label_widget@, self.component@],
    {
        let mut r: Vec<WidgetSpec> = Vec::new();
        r.push(self.label_widget);
        r.push(self.component);
        proof {
            assert(r@.map_values(|w: WidgetSpec| w@) =~= seq![
                self.label_widget@,
                self.component@,
            ]);
        }
        r
    }
}

/// The declarative layout table of the mouse test tab: one row of two
/// action buttons, one row holding the tracking surface, and the two
/// labeled report rows (action, then information).
pub open spec fn spec_mouse_tab_rows(width: int) -> Seq<RowModel> {
    seq![
        RowModel {
            height: 30,
            widgets: seq![
                WidgetModel {
                    kind: WidgetKind::PushButton,
                    id: Some("buttonA"@),
                    label: "Button A"@,
                    width: 70,
                    height: 0,
                },
                WidgetModel {
                    kind: WidgetKind::PushButton,
                    id: Some("buttonB"@),
                    label: "Button B"@,
                    width: 70,
                    height: 0,
                },
            ],
        },
        RowModel {
            height: 100,
            widgets: seq![
                WidgetModel {
                    kind: WidgetKind::Canvas,
                    id: Some("mouse_test_canvas"@),
                    label: "Mouse Test Canvas"@,
                    width: width - CANVAS_RIGHT_MARGIN,
                    height: 100,
                },
            ],
        },
        RowModel {
            height: 30,
            widgets: seq![
                WidgetModel {
                    kind: WidgetKind::StaticLabel,
                    id: None,
                    label: "Mouse action:"@,
                    width: 90,
                    height: 0,
                },
                WidgetModel {
                    kind: WidgetKind::ReadOnlyField,
                    id: None,
                    label: "Mouse action:"@,
                    width: 200,
                    height: 0,
                },
            ],
        },
        RowModel {
            height: 30,
            widgets: seq![
                WidgetModel {
                    kind: WidgetKind::StaticLabel,
                    id: None,
                    label: "Mouse information:"@,
                    width: 120,
                    height: 0,
                },
                WidgetModel {
                    kind: WidgetKind::ReadOnlyField,
                    id: None,
                    label: "Mouse information:"@,
                    width: 200,
                    height: 0,
                },
            ],
        },
    ]
}

/// The declarative layout table of the keyboard test tab: a labeled text
/// input row, a heading row, and the multi-line text editor.
pub open spec fn spec_keyboard_tab_rows() -> Seq<RowModel> {
    seq![
        RowModel {
            height: 30,
            widgets: seq![
                WidgetModel {
                    kind: WidgetKind::StaticLabel,
                    id: None,
                    label: "Textbox 1:"@,
                    width: 50,
                    height: 30,
                },
                WidgetModel {
                    kind: WidgetKind::TextInput,
                    id: None,
                    label: "Textbox 1:"@,
                    width: 180,
                    height: 30,
                },
            ],
        },
        RowModel {
            height: 10,
            widgets: seq![
                WidgetModel {
                    kind: WidgetKind::StaticLabel,
                    id: None,
                    label: "Text Editor:"@,
                    width: 60,
                    height: 10,
                },
            ],
        },
        RowModel {
            height: 100,
            widgets: seq![
                WidgetModel {
                    kind: WidgetKind::TextEditor,
                    id: Some("main_text_input"@),
                    label: "Text Editor:"@,
                    width: 0,
                    height: 100,
                },
            ],
        },
    ]
}

/// Builds the mouse test tab's layout table in the given horizontal room.
pub fn mouse_tab_rows(width: i32) -> (r: Vec<RowSpec>)
    requires
        i32::MIN + CANVAS_RIGHT_MARGIN <= width,
    ensures
        r@.map_values(|row: RowSpec| row@) == spec_mouse_tab_rows(width as int),
{
    let mut buttons: Vec<WidgetSpec> = Vec::new();
    buttons.push(
        WidgetSpec {
            kind: WidgetKind::PushButton,
            id: Some(String::from_str("buttonA")),
            label: String::from_str("Button A"),
            width: 70,
            height: 0,
        },
    );
    buttons.push(
        WidgetSpec {
            kind: WidgetKind::PushButton,
            id: Some(String::from_str("buttonB")),
            label: String::from_str("Button B"),
            width: 70,
            height: 0,
        },
    );
    let mut surface: Vec<WidgetSpec> = Vec::new();
    surface.push(
        WidgetSpec {
            kind: WidgetKind::Canvas,
            id: Some(String::from_str("mouse_test_canvas")),
            label: String::from_str("Mouse Test Canvas"),
            width: width - CANVAS_RIGHT_MARGIN,
            height: 100,
        },
    );
    let action_row = LabeledComponent::new(
        "Mouse action:",
        WidgetSpec {
            kind: WidgetKind::ReadOnlyField,
            id: None,
            label: String::from_str("Mouse action:"),
            width: 200,
            height: 0,
        },
        90,
        0,
    );
    let info_row = LabeledComponent::new(
        "Mouse information:",
        WidgetSpec {
            kind: WidgetKind::ReadOnlyField,
            id: None,
            label: String::from_str("Mouse information:"),
            width: 200,
            height: 0,
        },
        120,
        0,
    );
    let mut rows: Vec<RowSpec> = Vec::new();
    rows.push(RowSpec { height: 30, widgets: buttons });
    rows.push(RowSpec { height: 100, widgets: surface });
    rows.push(RowSpec { height: 30, widgets: action_row.into_widgets() });
    rows.push(RowSpec { height: 30, widgets: info_row.into_widgets() });
    proof {
        assert(rows@.map_values(|row: RowSpec| row@) =~~= spec_mouse_tab_rows(width as int));
    }
    rows
}

/// Builds the keyboard test tab's layout table.
pub fn keyboard_tab_rows() -> (r: Vec<RowSpec>)
    ensures
        r@.map_values(|row: RowSpec| row@) == spec_keyboard_tab_rows(),
{
    let textbox_row = LabeledComponent::new(
        "Textbox 1:",
        WidgetSpec {
            kind: WidgetKind::TextInput,
            id: None,
            label: String::from_str("Textbox 1:"),
            width: 180,
            height: 30,
        },
        50,
        30,
    );
    let mut heading: Vec<WidgetSpec> = Vec::new();
    heading.push(
        WidgetSpec {
            kind: WidgetKind::StaticLabel,
            id: None,
            label: String::from_str("Text Editor:"),
            width: 60,
            height: 10,
        },
    );
    let mut editor: Vec<WidgetSpec> = Vec::new();
    editor.push(
        WidgetSpec {
            kind: WidgetKind::TextEditor,
            id: Some(String::from_str("main_text_input")),
            label: String::from_str("Text Editor:"),
            width: 0,
            height: 100,
        },
    );
    let mut rows: Vec<RowSpec> = Vec::new();
    rows.push(RowSpec { height: 30, widgets: textbox_row.into_widgets() });
    rows.push(RowSpec { height: 10, widgets: heading });
    rows.push(RowSpec { height: 100, widgets: editor });
    proof {
        assert(rows@.map_values(|row: RowSpec| row@) =~~= spec_keyboard_tab_rows());
    }
    rows
}

/// Builds the aggregate descriptor list of the whole window: the mouse
/// tab's descriptors followed by the keyboard tab's, in construction order.
/// This is the list handed to the accessibility host, once, at startup.
pub fn all_descriptors(width: i32) -> (r: Vec<AccessibleDescriptor>)
    requires
        i32::MIN + CANVAS_RIGHT_MARGIN <= width,
    ensures
        r@.map_values(|d: AccessibleDescriptor| d@) == spec_tab_descriptors(
            spec_mouse_tab_rows(width as int),
        ) + spec_tab_descriptors(spec_keyboard_tab_rows()),
{
    let mouse = mouse_tab_rows(width);
    let keyboard = keyboard_tab_rows();
    let mut r = tab_descriptors(&mouse);
    let mut from_keyboard = tab_descriptors(&keyboard);
    r.append(&mut from_keyboard);
    proof {
        assert(r@.map_values(|d: AccessibleDescriptor| d@) =~= spec_tab_descriptors(
            spec_mouse_tab_rows(width as int),
        ) + spec_tab_descriptors(spec_keyboard_tab_rows()));
    }
    r
}

} // verus!
