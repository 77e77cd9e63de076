//! The mouse test tab: the tracking surface, the shared context, and the
//! dispatcher with its two subscribed report fields, wired together.
//!
//! A native event on the surface first updates the shared context, then the
//! synthetic event it stands for is posted and fully delivered to every
//! subscriber before the handler returns — synchronous, depth-first
//! delivery, with no queueing. The action buttons post their click codes
//! through the same dispatcher.

use vstd::prelude::*;

use crate::bus::{
    Bus, FieldKind, FieldModel, PostError, ReportField, has_action_field, spec_label_after_post,
    spec_observe, spec_post_consumed,
};
use crate::canvas::{
    BaseWidgetModel, MouseTestArea, spec_ctx_after_native, spec_emitted, CANVAS_RIGHT_MARGIN,
};
use crate::context::{ActionContext, ButtonName, CtxModel, spec_button_name};
use crate::events::{NativeEvent, PhysicalButton, SyntheticEvent};

verus! {

/// The abstract action buttons of the mouse tab; each posts its own click
/// code when pressed.
#[derive(Clone, Copy, Debug, PartialEq, Eq, Structural)]
pub enum ActionButton {
    ButtonA,
    ButtonB,
}

/// The synthetic event an action button posts when clicked.
pub open spec fn spec_click_event(which: ActionButton) -> SyntheticEvent {
    match which {
        ActionButton::ButtonA => SyntheticEvent::Button1Click,
        ActionButton::ButtonB => SyntheticEvent::Button2Click,
    }
}

/// Mathematical model of a mouse test tab: the shared context, the
/// subscribed report fields in registration order, and whether the host
/// event loop is running.
#[verifier::ext_equal]
pub struct TabModel {
    pub ctx: CtxModel,
    pub fields: Seq<FieldModel>,
    pub ready: bool,
}

impl TabModel {
    /// The tab as constructed: the action field subscribed first, the
    /// information field second.
    pub open spec fn wf(self) -> bool {
        &&& self.fields.len() == 2
        &&& self.fields[0].kind == FieldKind::MouseAction
        &&& self.fields[1].kind == FieldKind::MouseInfo
    }
}

/// How one posted synthetic event changes a tab: every field observes the
/// code (reading the pointer state as of the post), the action field writes
/// the code's action label back into the context, and the pointer state
/// stays as it was.
pub open spec fn post_model(m: TabModel, code: SyntheticEvent) -> TabModel {
    TabModel {
        ctx: CtxModel {
            last_action_label: spec_label_after_post(m.fields, code, m.ctx.last_action_label),
            ..m.ctx
        },
        fields: Seq::new(
            m.fields.len(),
            |k: int|
                spec_observe(
                    m.fields[k],
                    code,
                    m.ctx.mouse_x,
                    m.ctx.mouse_y,
                    m.ctx.last_button,
                ),
        ),
        ready: m.ready,
    }
}

/// How one native event on the tracking surface changes a tab: the adapter
/// updates the context, and if the event stands for a synthetic code, that
/// code is posted and fully delivered.
pub open spec fn tab_native_model(m: TabModel, ev: NativeEvent) -> TabModel {
    let stepped = TabModel { ctx: spec_ctx_after_native(m.ctx, ev), ..m };
    match spec_emitted(ev) {
        Some(code) => post_model(stepped, code),
        None => stepped,
    }
}

/// A whole sequence of native events on the tracking surface, delivered one
/// after the other.
pub open spec fn tab_run(m: TabModel, evs: Seq<NativeEvent>) -> TabModel
    decreases evs.len(),
{
    if evs.len() == 0 {
        m
    } else {
        tab_native_model(tab_run(m, evs.drop_last()), evs.last())
    }
}

/// One mouse test tab: the canvas adapter, the single shared context, and
/// the dispatcher with the two report fields subscribed in registration
/// order (action first, information second).
#[derive(Debug)]
pub struct MouseTab {
    canvas: MouseTestArea,
    context: ActionContext,
    bus: Bus,
}

impl View for MouseTab {
    type V = TabModel;

    closed spec fn view(&self) -> TabModel {
        TabModel { ctx: self.context@, fields: self.bus@.fields, ready: self.bus@.ready }
    }
}

impl MouseTab {
    /// The geometry, label and color of the tab's tracking surface.
    pub closed spec fn spec_canvas(self) -> BaseWidgetModel {
        self.canvas@
    }

    /// Lays out a fresh tab in the given horizontal room: origin context,
    /// both report fields empty, the event loop not yet running.
    pub fn new(width: i32) -> (r: MouseTab)
        requires
            i32::MIN + CANVAS_RIGHT_MARGIN <= width,
        ensures
            r@ == (TabModel {
                ctx: CtxModel {
                    mouse_x: 0,
                    mouse_y: 0,
                    last_button: ButtonName::NoButton,
                    last_action_label: Seq::empty(),
                },
                fields: seq![
                    FieldModel { kind: FieldKind::MouseAction, value: Seq::empty() },
                    FieldModel { kind: FieldKind::MouseInfo, value: Seq::empty() },
                ],
                ready: false,
            }),
            r@.wf(),
            r.spec_canvas().width == width - CANVAS_RIGHT_MARGIN,
            r.spec_canvas().height == 100,
    {
        let canvas = MouseTestArea::new("Mouse Test Canvas", width, 100);
        let context = ActionContext::new();
        let mut bus = Bus::new();
        bus.subscribe(ReportField::action_row());
        bus.subscribe(ReportField::info_row());
        let r = MouseTab { canvas, context, bus };
        proof {
            assert(r@.fields =~= seq![
                FieldModel { kind: FieldKind::MouseAction, value: Seq::<char>::empty() },
                FieldModel { kind: FieldKind::MouseInfo, value: Seq::<char>::empty() },
            ]);
            assert(r@ =~~= (TabModel {
                ctx: CtxModel {
                    mouse_x: 0,
                    mouse_y: 0,
                    last_button: ButtonName::NoButton,
                    last_action_label: Seq::empty(),
                },
                fields: seq![
                    FieldModel { kind: FieldKind::MouseAction, value: Seq::empty() },
                    FieldModel { kind: FieldKind::MouseInfo, value: Seq::empty() },
                ],
                ready: false,
            }));
        }
        r
    }

    /// The tracking surface, for the host to place and draw.
    pub fn canvas(&self) -> (r: &MouseTestArea)
        ensures
            r@ == self.spec_canvas(),
    {
        &self.canvas
    }

    /// The shared context, readable by every widget.
    pub fn context(&self) -> (r: &ActionContext)
        ensures
            r@ == self@.ctx,
    {
        &self.context
    }

    /// Places the tracking surface where the host's layout put the real
    /// widget; forwarded to the base widget, the tab state is untouched.
    pub fn place_canvas(&mut self, x: i32, y: i32)
        ensures
            final(self)@ == old(self)@,
            final(self).spec_canvas() == (BaseWidgetModel {
                x: x as int,
                y: y as int,
                ..old(self).spec_canvas()
            }),
    {
        self.canvas.set_position(x, y);
    }

    /// Recolors the tracking surface; forwarded to the base widget, the tab
    /// state is untouched.
    pub fn set_canvas_color(&mut self, color_code: u32)
        ensures
            final(self)@ == old(self)@,
            final(self).spec_canvas() == (BaseWidgetModel {
                color_code: color_code as int,
                ..old(self).spec_canvas()
            }),
    {
        self.canvas.set_color_code(color_code);
    }

    /// Marks the host event loop as running; the tab is ready and posting
    /// is allowed from here on.
    pub fn activate(&mut self)
        ensures
            final(self)@ == (TabModel { ready: true, ..old(self)@ }),
    {
        self.bus.activate();
    }

    /// Whether the host event loop is running.
    pub fn is_ready(&self) -> (r: bool)
        ensures
            r == self@.ready,
    {
        self.bus.ready()
    }

    /// The text the mouse-action report field displays.
    pub fn action_field_text(&self) -> (r: String)
        requires
            self@.wf(),
        ensures
            r@ == self@.fields[0].value,
    {
        self.bus.subscriber(0).value()
    }

    /// The text the mouse-information report field displays.
    pub fn info_field_text(&self) -> (r: String)
        requires
            self@.wf(),
        ensures
            r@ == self@.fields[1].value,
    {
        self.bus.subscriber(1).value()
    }

    /// Posts a synthetic event to the whole tab, exactly as `post_model`
    /// states; fails, changing nothing, exactly when the event loop is not
    /// running.
    pub fn post(&mut self, code: SyntheticEvent) -> (r: Result<bool, PostError>)
        ensures
            r is Ok <==> old(self)@.ready,
            r matches Err(e) ==> e == PostError::LoopNotRunning && *final(self) == *old(self),
            r matches Ok(consumed) ==> final(self)@ == post_model(old(self)@, code) && consumed
                == spec_post_consumed(old(self)@.fields, code),
    {
        let r = self.bus.post(code, &mut self.context);
        proof {
            if r is Ok {
                assert(self@.fields =~= post_model(old(self)@, code).fields);
                assert(self@ =~~= post_model(old(self)@, code));
            }
        }
        r
    }

    /// Handles one native event on the tracking surface: updates the
    /// context and broadcasts the synthetic event it stands for, fully,
    /// before returning. Reports whether the adapter consumed the event.
    /// Emitting before the event loop runs fails loudly, changing nothing.
    pub fn handle_native(&mut self, ev: &NativeEvent) -> (r: Result<bool, PostError>)
        ensures
            r is Ok <==> (old(self)@.ready || spec_emitted(*ev) is None),
            r matches Err(e) ==> e == PostError::LoopNotRunning && *final(self) == *old(self),
            r matches Ok(consumed) ==> final(self)@ == tab_native_model(old(self)@, *ev)
                && consumed == (spec_emitted(*ev) is Some),
    {
        let emits = match ev {
            NativeEvent::Other => false,
            _ => true,
        };
        if emits && !self.bus.ready() {
            return Err(PostError::LoopNotRunning);
        }
        let (emitted, consumed) = self.canvas.translate_native(&mut self.context, ev);
        match emitted {
            Some(code) => {
                let posted = self.bus.post(code, &mut self.context);
                proof {
                    let stepped = TabModel {
                        ctx: spec_ctx_after_native(old(self)@.ctx, *ev),
                        ..old(self)@
                    };
                    assert(self@.fields =~= post_model(stepped, code).fields);
                    assert(self@ =~~= post_model(stepped, code));
                }
                match posted {
                    Ok(_) => Ok(consumed),
                    Err(e) => Err(e),
                }
            },
            None => {
                proof {
                    assert(self@ =~~= tab_native_model(old(self)@, *ev));
                }
                Ok(consumed)
            },
        }
    }

    /// An action button's callback: posts the button's click code through
    /// the dispatcher. Fails, changing nothing, exactly when the event loop
    /// is not running.
    pub fn click_action_button(&mut self, which: ActionButton) -> (r: Result<bool, PostError>)
        ensures
            r is Ok <==> old(self)@.ready,
            r matches Err(e) ==> e == PostError::LoopNotRunning && *final(self) == *old(self),
            r matches Ok(consumed) ==> final(self)@ == post_model(
                old(self)@,
                spec_click_event(which),
            ) && consumed == spec_post_consumed(old(self)@.fields, spec_click_event(which)),
    {
        let code = match which {
            ActionButton::ButtonA => SyntheticEvent::Button1Click,
            ActionButton::ButtonB => SyntheticEvent::Button2Click,
        };
        self.post(code)
    }
}

/// Posting preserves the pointer state: the coordinates and the last
/// button are unchanged by any synthetic event, related or not.
pub proof fn lemma_post_preserves_pointer(m: TabModel, code: SyntheticEvent)
    ensures
        post_model(m, code).ctx.mouse_x == m.ctx.mouse_x,
        post_model(m, code).ctx.mouse_y == m.ctx.mouse_y,
        post_model(m, code).ctx.last_button == m.ctx.last_button,
{
}

/// Posting preserves each subscriber's kind and the number of subscribers.
pub proof fn lemma_post_preserves_shape(m: TabModel, code: SyntheticEvent)
    ensures
        post_model(m, code).fields.len() == m.fields.len(),
        forall|k: int|
            0 <= k < m.fields.len() ==> post_model(m, code).fields[k].kind == m.fields[k].kind,
        m.wf() ==> post_model(m, code).wf(),
{
}

/// After any sequence of native events on the tracking surface, the shared
/// context's coordinates equal the coordinates of the latest move (here:
/// right after the move at position `i`, they are that move's coordinates);
/// the synthetic deliveries in between never change them.
pub proof fn lemma_coords_track_moves(m: TabModel, evs: Seq<NativeEvent>, i: int)
    requires
        0 <= i < evs.len(),
        evs[i] is Move,
    ensures
        tab_run(m, evs.take(i + 1)).ctx.mouse_x == evs[i]->Move_x as int,
        tab_run(m, evs.take(i + 1)).ctx.mouse_y == evs[i]->Move_y as int,
{
    let p = evs.take(i + 1);
    assert(p.drop_last() =~= evs.take(i));
    assert(p.last() == evs[i]);
    let before = tab_run(m, evs.take(i));
    assert(tab_run(m, p) == tab_native_model(before, evs[i]));
    lemma_post_preserves_pointer(
        TabModel { ctx: spec_ctx_after_native(before.ctx, evs[i]), ..before },
        SyntheticEvent::MouseMove,
    );
}

/// Entering or leaving the tracking surface resets the transient action
/// label to empty — in the shared context and in every subscribed action
/// field — independent of any prior state.
pub proof fn lemma_enter_leave_reset_action(m: TabModel, ev: NativeEvent)
    requires
        ev == NativeEvent::Enter || ev == NativeEvent::Leave,
    ensures
        tab_native_model(m, ev).ctx.last_action_label == Seq::<char>::empty(),
        forall|k: int|
            0 <= k < m.fields.len() && m.fields[k].kind == FieldKind::MouseAction ==> tab_native_model(
                m,
                ev,
            ).fields[k].value == Seq::<char>::empty(),
{
}

/// Pressing a recognized physical button records its name in the shared
/// context; any other physical button records `NoButton` (displayed as the
/// empty string).
pub proof fn lemma_press_records_button(m: TabModel, b: PhysicalButton, x: i32, y: i32)
    ensures
        tab_native_model(m, NativeEvent::Push { button: b, x, y }).ctx.last_button
            == spec_button_name(b),
{
    lemma_post_preserves_pointer(
        TabModel {
            ctx: spec_ctx_after_native(m.ctx, NativeEvent::Push { button: b, x, y }),
            ..m
        },
        SyntheticEvent::MouseDown,
    );
}

/// Posting the same synthetic event twice in immediate succession leaves
/// the tab exactly as posting it once does: every handler recomputes its
/// displayed value from the context instead of accumulating.
pub proof fn lemma_post_idempotent(m: TabModel, code: SyntheticEvent)
    ensures
        post_model(post_model(m, code), code) == post_model(m, code),
{
    let m1 = post_model(m, code);
    let m2 = post_model(m1, code);
    lemma_post_preserves_pointer(m, code);
    lemma_post_preserves_shape(m, code);
    assert forall|k: int| 0 <= k < m1.fields.len() implies m2.fields[k] == m1.fields[k] by {
        crate::bus::lemma_observe_idempotent(
            m.fields[k],
            code,
            m.ctx.mouse_x,
            m.ctx.mouse_y,
            m.ctx.last_button,
        );
    }
    assert(m2.fields =~= m1.fields);
    if has_action_field(m.fields) {
        let k = choose|k: int|
            0 <= k < m.fields.len() && m.fields[k].kind == FieldKind::MouseAction;
        assert(m1.fields[k].kind == FieldKind::MouseAction);
        assert(has_action_field(m1.fields));
    }
    if has_action_field(m1.fields) {
        let k = choose|k: int|
            0 <= k < m1.fields.len() && m1.fields[k].kind == FieldKind::MouseAction;
        assert(m.fields[k].kind == FieldKind::MouseAction);
        assert(has_action_field(m.fields));
    }
    assert(m2.ctx =~= m1.ctx);
    assert(m2 =~~= m1);
}

} // verus!
