//! The composite widget adapter: the custom-drawn mouse tracking surface.
//!
//! The adapter owns a generic base widget and forwards all ordinary widget
//! operations (geometry, label, color) to it; it specializes exactly two
//! extension points. Its draw plan renders the surface with the host's
//! default box drawing plus a centered label, and its raw-event translation
//! turns native pointer events into context updates and synthetic event
//! emissions. For every native event the adapter does not react to, it
//! reports "not consumed", so default widget behavior stays intact.

use vstd::prelude::*;
use vstd::string::StringExecFns;

use crate::context::{ActionContext, CtxModel, spec_button_name};
use crate::events::{NativeEvent, SyntheticEvent};

verus! {

/// The generic widget the adapter wraps: the geometry, label and color
/// state that the host's own machinery (hit testing, redraw scheduling)
/// works with.
#[derive(Debug)]
pub struct BaseWidget {
    x: i32,
    y: i32,
    width: i32,
    height: i32,
    label: String,
    color_code: u32,
}

/// Mathematical model of a base widget.
#[verifier::ext_equal]
pub struct BaseWidgetModel {
    pub x: int,
    pub y: int,
    pub width: int,
    pub height: int,
    pub label: Seq<char>,
    pub color_code: int,
}

impl View for BaseWidget {
    type V = BaseWidgetModel;

    closed spec fn view(&self) -> BaseWidgetModel {
        BaseWidgetModel {
            x: self.x as int,
            y: self.y as int,
            width: self.width as int,
            height: self.height as int,
            label: self.label@,
            color_code: self.color_code as int,
        }
    }
}

/// The host's default background color code.
pub const DEFAULT_COLOR_CODE: u32 = 49;

impl BaseWidget {
    /// A base widget at the origin with the given size and label, in the
    /// host's default color.
    pub fn new(label: &str, width: i32, height: i32) -> (r: BaseWidget)
        ensures
            r@ == (BaseWidgetModel {
                x: 0,
                y: 0,
                width: width as int,
                height: height as int,
                label: label@,
                color_code: DEFAULT_COLOR_CODE as int,
            }),
    {
        BaseWidget { x: 0, y: 0, width, height, label: String::from_str(label), color_code: DEFAULT_COLOR_CODE }
    }

    /// The widget's x position.
    pub fn x(&self) -> (r: i32)
        ensures
            r == self@.x,
    {
        self.x
    }

    /// The widget's y position.
    pub fn y(&self) -> (r: i32)
        ensures
            r == self@.y,
    {
        self.y
    }

    /// The widget's width.
    pub fn width(&self) -> (r: i32)
        ensures
            r == self@.width,
    {
        self.width
    }

    /// The widget's height.
    pub fn height(&self) -> (r: i32)
        ensures
            r == self@.height,
    {
        self.height
    }

    /// The widget's label.
    pub fn label(&self) -> (r: String)
        ensures
            r@ == self@.label,
    {
        self.label.clone()
    }

    /// The widget's color code.
    pub fn color_code(&self) -> (r: u32)
        ensures
            r == self@.color_code,
    {
        self.color_code
    }

    /// Moves the widget.
    pub fn set_position(&mut self, x: i32, y: i32)
        ensures
            final(self)@ == (BaseWidgetModel { x: x as int, y: y as int, ..old(self)@ }),
    {
        self.x = x;
        self.y = y;
    }

    /// Recolors the widget.
    pub fn set_color_code(&mut self, color_code: u32)
        ensures
            final(self)@ == (BaseWidgetModel { color_code: color_code as int, ..old(self)@ }),
    {
        self.color_code = color_code;
    }
}

/// One drawing primitive of the host toolkit, as the adapter's draw plan
/// orders it.
#[derive(Debug)]
pub enum DrawCommand {
    /// The widget's default box, filled with its color.
    FilledBox { x: i32, y: i32, width: i32, height: i32, color_code: u32 },
    /// The widget's label, drawn in the host's standard text style inside
    /// the widget's rectangle.
    LabelText { text: String, x: i32, y: i32, width: i32, height: i32 },
}

/// How wide the tracking surface is left of the horizontal room it is given:
/// a fixed margin stays free at the right.
pub const CANVAS_RIGHT_MARGIN: i32 = 40;

/// The mouse tracking surface: a base widget plus custom draw and custom
/// raw-event handling.
#[derive(Debug)]
pub struct MouseTestArea {
    inner: BaseWidget,
}

impl View for MouseTestArea {
    type V = BaseWidgetModel;

    closed spec fn view(&self) -> BaseWidgetModel {
        self.inner@
    }
}

impl MouseTestArea {
    /// A ready-to-place tracking surface with the given label, occupying
    /// the given room less the fixed right margin.
    pub fn new(label: &str, width: i32, height: i32) -> (r: MouseTestArea)
        requires
            i32::MIN + CANVAS_RIGHT_MARGIN <= width,
        ensures
            r@ == (BaseWidgetModel {
                x: 0,
                y: 0,
                width: width - CANVAS_RIGHT_MARGIN,
                height: height as int,
                label: label@,
                color_code: DEFAULT_COLOR_CODE as int,
            }),
    {
        MouseTestArea { inner: BaseWidget::new(label, width - CANVAS_RIGHT_MARGIN, height) }
    }

    /// The wrapped base widget, for the generic operations the adapter
    /// forwards unmodified.
    pub fn inner(&self) -> (r: &BaseWidget)
        ensures
            r@ == self@,
    {
        &self.inner
    }

    /// Recolors the surface; forwarded to the base widget.
    pub fn set_color_code(&mut self, color_code: u32)
        ensures
            final(self)@ == (BaseWidgetModel { color_code: color_code as int, ..old(self)@ }),
    {
        self.inner.set_color_code(color_code);
    }

    /// Places the surface; forwarded to the base widget.
    pub fn set_position(&mut self, x: i32, y: i32)
        ensures
            final(self)@ == (BaseWidgetModel { x: x as int, y: y as int, ..old(self)@ }),
    {
        self.inner.set_position(x, y);
    }

    /// The draw plan of the surface: the host draws its default box in the
    /// widget's color, then the label in the standard text style, both in
    /// the widget's rectangle.
    pub fn draw_plan(&self) -> (r: Vec<DrawCommand>)
        ensures
            r@.len() == 2,
            r@[0] matches DrawCommand::FilledBox { x, y, width, height, color_code } && x == self@.x
                && y == self@.y && width == self@.width && height == self@.height && color_code
                == self@.color_code,
            r@[1] matches DrawCommand::LabelText { text, x, y, width, height } && text@
                == self@.label && x == self@.x && y == self@.y && width == self@.width && height
                == self@.height,
    {
        let mut plan: Vec<DrawCommand> = Vec::new();
        plan.push(
            DrawCommand::FilledBox {
                x: self.inner.x(),
                y: self.inner.y(),
                width: self.inner.width(),
                height: self.inner.height(),
                color_code: self.inner.color_code(),
            },
        );
        plan.push(
            DrawCommand::LabelText {
                text: self.inner.label(),
                x: self.inner.x(),
                y: self.inner.y(),
                width: self.inner.width(),
                height: self.inner.height(),
            },
        );
        plan
    }
}

/// Which synthetic event a native event on the tracking surface emits;
/// `None` for events the adapter does not react to.
pub open spec fn spec_emitted(ev: NativeEvent) -> Option<SyntheticEvent> {
    match ev {
        NativeEvent::Push { .. } => Some(SyntheticEvent::MouseDown),
        NativeEvent::Released => Some(SyntheticEvent::MouseUp),
        NativeEvent::Enter => Some(SyntheticEvent::MouseIn),
        NativeEvent::Leave => Some(SyntheticEvent::MouseOut),
        NativeEvent::Move { .. } => Some(SyntheticEvent::MouseMove),
        NativeEvent::Other => None,
    }
}

/// How a native event on the tracking surface changes the shared context:
/// a press records position and button, a move records the position, and
/// entering or leaving the surface clears the transient action label;
/// nothing else changes.
pub open spec fn spec_ctx_after_native(c: CtxModel, ev: NativeEvent) -> CtxModel {
    match ev {
        NativeEvent::Push { button, x, y } => CtxModel {
            mouse_x: x as int,
            mouse_y: y as int,
            last_button: spec_button_name(button),
            ..c
        },
        NativeEvent::Released => c,
        NativeEvent::Enter => CtxModel { last_action_label: Seq::empty(), ..c },
        NativeEvent::Leave => CtxModel { last_action_label: Seq::empty(), ..c },
        NativeEvent::Move { x, y } => CtxModel { mouse_x: x as int, mouse_y: y as int, ..c },
        NativeEvent::Other => c,
    }
}

/// The synthetic event a native event on the tracking surface emits,
/// exactly as `spec_emitted` states it; for the host shell to replay the
/// same code on its own event path.
pub fn emitted_for(ev: &NativeEvent) -> (r: Option<SyntheticEvent>)
    ensures
        r == spec_emitted(*ev),
{
    match ev {
        NativeEvent::Push { .. } => Some(SyntheticEvent::MouseDown),
        NativeEvent::Released => Some(SyntheticEvent::MouseUp),
        NativeEvent::Enter => Some(SyntheticEvent::MouseIn),
        NativeEvent::Leave => Some(SyntheticEvent::MouseOut),
        NativeEvent::Move { .. } => Some(SyntheticEvent::MouseMove),
        NativeEvent::Other => None,
    }
}

impl MouseTestArea {
    /// The adapter's raw-event extension point: updates the shared context
    /// as `spec_ctx_after_native` states and names the synthetic event to
    /// emit. The event is consumed exactly when one is emitted; everything
    /// else passes through to default widget behavior.
    pub fn translate_native(&self, ctx: &mut ActionContext, ev: &NativeEvent) -> (r: (
        Option<SyntheticEvent>,
        bool,
    ))
        ensures
            final(ctx)@ == spec_ctx_after_native(old(ctx)@, *ev),
            r.0 == spec_emitted(*ev),
            r.1 == (spec_emitted(*ev) is Some),
    {
        match ev {
            NativeEvent::Push { button, x, y } => {
                ctx.record_position(*x, *y);
                ctx.record_button(*button);
                (Some(SyntheticEvent::MouseDown), true)
            },
            NativeEvent::Released => (Some(SyntheticEvent::MouseUp), true),
            NativeEvent::Enter => {
                ctx.clear_action_label();
                (Some(SyntheticEvent::MouseIn), true)
            },
            NativeEvent::Leave => {
                ctx.clear_action_label();
                (Some(SyntheticEvent::MouseOut), true)
            },
            NativeEvent::Move { x, y } => {
                ctx.record_position(*x, *y);
                (Some(SyntheticEvent::MouseMove), true)
            },
            NativeEvent::Other => (None, false),
        }
    }
}

} // verus!
