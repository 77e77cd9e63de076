//! The shared mutable context: one record per test tab holding the latest
//! pointer position, the last pressed button, and the transient action
//! label.
//!
//! Exactly one instance exists per tab. Reads are open to every widget;
//! writes go through `pub(crate)` methods, so that outside the crate only
//! the tab's own event handling (the canvas adapter and the subscribed
//! report widgets) can mutate it. All access is single-threaded and
//! synchronous.

use vstd::prelude::*;
use vstd::string::StringExecFns;

use crate::decimal::dec_int;
use crate::events::PhysicalButton;

verus! {

/// The name of the last physical button pressed on the tracking surface;
/// `NoButton` both initially and after a press of an unrecognized button.
#[derive(Clone, Copy, Debug, PartialEq, Eq, Structural)]
pub enum ButtonName {
    NoButton,
    Left,
    Middle,
    Right,
}

/// The label under which a button name is displayed: the bare name for the
/// three recognized buttons, the empty string otherwise.
pub open spec fn spec_button_label(b: ButtonName) -> Seq<char> {
    match b {
        ButtonName::NoButton => Seq::empty(),
        ButtonName::Left => "Left"@,
        ButtonName::Middle => "Middle"@,
        ButtonName::Right => "Right"@,
    }
}

/// The button name recorded for a physical press: the matching name for the
/// three recognized buttons, `NoButton` for any other.
pub open spec fn spec_button_name(b: PhysicalButton) -> ButtonName {
    match b {
        PhysicalButton::Left => ButtonName::Left,
        PhysicalButton::Middle => ButtonName::Middle,
        PhysicalButton::Right => ButtonName::Right,
        PhysicalButton::Other => ButtonName::NoButton,
    }
}

impl ButtonName {
    /// The display label of this button name.
    pub fn label(self) -> (r: &'static str)
        ensures
            r@ == spec_button_label(self),
    {
        let r = match self {
            ButtonName::NoButton => "",
            ButtonName::Left => "Left",
            ButtonName::Middle => "Middle",
            ButtonName::Right => "Right",
        };
        proof {
            reveal_strlit("");
            assert(""@ =~= Seq::<char>::empty());
        }
        r
    }
}

/// Pressing a recognized physical button records its name; any other button
/// records `NoButton`, whose label is the empty string.
pub proof fn lemma_button_press_labels(b: PhysicalButton)
    ensures
        b == PhysicalButton::Left ==> spec_button_label(spec_button_name(b)) == "Left"@,
        b == PhysicalButton::Middle ==> spec_button_label(spec_button_name(b)) == "Middle"@,
        b == PhysicalButton::Right ==> spec_button_label(spec_button_name(b)) == "Right"@,
        b == PhysicalButton::Other ==> spec_button_label(spec_button_name(b)) == Seq::<
            char,
        >::empty(),
{
}

/// Mathematical model of the shared context.
#[verifier::ext_equal]
pub struct CtxModel {
    pub mouse_x: int,
    pub mouse_y: int,
    pub last_button: ButtonName,
    pub last_action_label: Seq<char>,
}

/// The shared mutable record: latest pointer coordinates, last pressed
/// button, and the transient action label shown by the action report field.
#[derive(Debug)]
pub struct ActionContext {
    mouse_x: i32,
    mouse_y: i32,
    last_button: ButtonName,
    last_action_label: String,
}

impl View for ActionContext {
    type V = CtxModel;

    closed spec fn view(&self) -> CtxModel {
        CtxModel {
            mouse_x: self.mouse_x as int,
            mouse_y: self.mouse_y as int,
            last_button: self.last_button,
            last_action_label: self.last_action_label@,
        }
    }
}

impl ActionContext {
    /// A fresh context: origin coordinates, no button, empty action label.
    pub fn new() -> (r: ActionContext)
        ensures
            r@.mouse_x == 0,
            r@.mouse_y == 0,
            r@.last_button == ButtonName::NoButton,
            r@.last_action_label == Seq::<char>::empty(),
    {
        ActionContext {
            mouse_x: 0,
            mouse_y: 0,
            last_button: ButtonName::NoButton,
            last_action_label: String::new(),
        }
    }

    /// The latest pointer x coordinate.
    pub fn mouse_x(&self) -> (r: i32)
        ensures
            r == self@.mouse_x,
    {
        self.mouse_x
    }

    /// The latest pointer y coordinate.
    pub fn mouse_y(&self) -> (r: i32)
        ensures
            r == self@.mouse_y,
    {
        self.mouse_y
    }

    /// The name of the last pressed button.
    pub fn last_button(&self) -> (r: ButtonName)
        ensures
            r == self@.last_button,
    {
        self.last_button
    }

    /// The transient action label.
    pub fn last_action_label(&self) -> (r: String)
        ensures
            r@ == self@.last_action_label,
    {
        self.last_action_label.clone()
    }

    /// Records the pointer position reported by a native move or press.
    pub(crate) fn record_position(&mut self, x: i32, y: i32)
        ensures
            final(self)@ == (CtxModel { mouse_x: x as int, mouse_y: y as int, ..old(self)@ }),
    {
        self.mouse_x = x;
        self.mouse_y = y;
    }

    /// Records which physical button a native press resolved to.
    pub(crate) fn record_button(&mut self, b: PhysicalButton)
        ensures
            final(self)@ == (CtxModel { last_button: spec_button_name(b), ..old(self)@ }),
    {
        self.last_button = match b {
            PhysicalButton::Left => ButtonName::Left,
            PhysicalButton::Middle => ButtonName::Middle,
            PhysicalButton::Right => ButtonName::Right,
            PhysicalButton::Other => ButtonName::NoButton,
        };
    }

    /// Replaces the transient action label.
    pub(crate) fn set_action_label(&mut self, label: String)
        ensures
            final(self)@ == (CtxModel { last_action_label: label@, ..old(self)@ }),
    {
        self.last_action_label = label;
    }

    /// Clears the transient action label, as entering or leaving the
    /// tracking surface does.
    pub(crate) fn clear_action_label(&mut self)
        ensures
            final(self)@ == (CtxModel { last_action_label: Seq::empty(), ..old(self)@ }),
    {
        self.last_action_label = String::new();
    }
}

/// What the mouse-information field shows after a press or release:
/// both coordinates and the last button's label.
pub open spec fn spec_full_info(x: int, y: int, b: ButtonName) -> Seq<char> {
    "X: "@ + dec_int(x) + ", y: "@ + dec_int(y) + ", button: "@ + spec_button_label(b)
}

/// What the mouse-information field shows after a move: the coordinates
/// alone.
pub open spec fn spec_coords_info(x: int, y: int) -> Seq<char> {
    "X: "@ + dec_int(x) + ", y: "@ + dec_int(y)
}

/// Renders position and button of a context, as the information field shows
/// them after a press or release.
pub fn full_info_text(ctx: &ActionContext) -> (r: String)
    ensures
        r@ == spec_full_info(ctx@.mouse_x, ctx@.mouse_y, ctx@.last_button),
{
    let mut s = String::from_str("X: ");
    let x_text = crate::decimal::i32_to_decimal_string(ctx.mouse_x());
    s.append(x_text.as_str());
    s.append(", y: ");
    let y_text = crate::decimal::i32_to_decimal_string(ctx.mouse_y());
    s.append(y_text.as_str());
    s.append(", button: ");
    s.append(ctx.last_button().label());
    proof {
        assert(s@ =~= spec_full_info(ctx@.mouse_x, ctx@.mouse_y, ctx@.last_button));
    }
    s
}

/// Renders the position of a context, as the information field shows it
/// after a move.
pub fn coords_info_text(ctx: &ActionContext) -> (r: String)
    ensures
        r@ == spec_coords_info(ctx@.mouse_x, ctx@.mouse_y),
{
    let mut s = String::from_str("X: ");
    let x_text = crate::decimal::i32_to_decimal_string(ctx.mouse_x());
    s.append(x_text.as_str());
    s.append(", y: ");
    let y_text = crate::decimal::i32_to_decimal_string(ctx.mouse_y());
    s.append(y_text.as_str());
    proof {
        assert(s@ =~= spec_coords_info(ctx@.mouse_x, ctx@.mouse_y));
    }
    s
}

} // verus!
