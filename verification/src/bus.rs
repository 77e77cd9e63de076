//! The broadcast dispatcher: an in-process publish/subscribe bus.
//!
//! Report widgets subscribe at construction time; posting a synthetic event
//! delivers it to every subscriber in registration order, synchronously,
//! before `post` returns. Each subscriber decides on its own whether the
//! code matters to it and recomputes its displayed value from the shared
//! context; unmatched codes leave it untouched. Posting while the event
//! loop is not yet running is a programming error and fails loudly at the
//! point of call.
//!
//! No handler on this bus posts another event while handling one, so
//! re-entrant delivery, though permitted by the design, never happens here.

use vstd::prelude::*;
use vstd::string::StringExecFns;

use crate::context::{
    ActionContext, ButtonName, coords_info_text, full_info_text, spec_coords_info, spec_full_info,
};
use crate::events::SyntheticEvent;

verus! {

/// Which report field a subscriber is.
#[derive(Clone, Copy, Debug, PartialEq, Eq, Structural)]
pub enum FieldKind {
    /// Shows the transient action label ("Button A clicked", "Mouse down",
    /// ...).
    MouseAction,
    /// Shows the pointer position and, after a press or release, the last
    /// button.
    MouseInfo,
}

/// Mathematical model of a report field.
#[verifier::ext_equal]
pub struct FieldModel {
    pub kind: FieldKind,
    pub value: Seq<char>,
}

/// A read-only report field subscribed to the bus; it displays `value`.
#[derive(Debug)]
pub struct ReportField {
    kind: FieldKind,
    value: String,
}

impl View for ReportField {
    type V = FieldModel;

    closed spec fn view(&self) -> FieldModel {
        FieldModel { kind: self.kind, value: self.value@ }
    }
}

/// The transient action label a synthetic event stands for. Entering or
/// leaving the surface resets it to empty; every other code names the
/// action that caused it.
pub open spec fn spec_action_label(code: SyntheticEvent) -> Seq<char> {
    match code {
        SyntheticEvent::MouseMove => "Mouse move"@,
        SyntheticEvent::MouseDown => "Mouse down"@,
        SyntheticEvent::MouseUp => "Mouse up"@,
        SyntheticEvent::MouseOut => Seq::empty(),
        SyntheticEvent::MouseIn => Seq::empty(),
        SyntheticEvent::Button1Click => "Button A clicked"@,
        SyntheticEvent::Button2Click => "Button B clicked"@,
    }
}

/// How one subscriber reacts to one delivered code, given the pointer state
/// of the shared context. The action field recomputes the action label from
/// the code alone; the information field recomputes its text from the
/// pointer state on press, release and move, and ignores every other code.
pub open spec fn spec_observe(
    f: FieldModel,
    code: SyntheticEvent,
    x: int,
    y: int,
    b: ButtonName,
) -> FieldModel {
    match f.kind {
        FieldKind::MouseAction => FieldModel { kind: f.kind, value: spec_action_label(code) },
        FieldKind::MouseInfo => FieldModel {
            kind: f.kind,
            value: match code {
                SyntheticEvent::MouseDown | SyntheticEvent::MouseUp => spec_full_info(x, y, b),
                SyntheticEvent::MouseMove => spec_coords_info(x, y),
                _ => f.value,
            },
        },
    }
}

/// Whether a subscriber consumes a delivered code. The action field claims
/// the two button clicks; the information field claims press, release and
/// move.
pub open spec fn spec_observe_consumes(kind: FieldKind, code: SyntheticEvent) -> bool {
    match kind {
        FieldKind::MouseAction => code == SyntheticEvent::Button1Click || code
            == SyntheticEvent::Button2Click,
        FieldKind::MouseInfo => code == SyntheticEvent::MouseDown || code
            == SyntheticEvent::MouseUp || code == SyntheticEvent::MouseMove,
    }
}

/// Whether some subscriber is the action field (and so writes the transient
/// action label back into the shared context during delivery).
pub open spec fn has_action_field(fs: Seq<FieldModel>) -> bool {
    exists|k: int| 0 <= k < fs.len() && fs[k].kind == FieldKind::MouseAction
}

/// The transient action label after a post: the posted code's label if any
/// action field is subscribed, the prior label otherwise.
pub open spec fn spec_label_after_post(
    fs: Seq<FieldModel>,
    code: SyntheticEvent,
    prior: Seq<char>,
) -> Seq<char> {
    if has_action_field(fs) {
        spec_action_label(code)
    } else {
        prior
    }
}

/// Whether any subscriber consumes the posted code.
pub open spec fn spec_post_consumed(fs: Seq<FieldModel>, code: SyntheticEvent) -> bool {
    exists|k: int| 0 <= k < fs.len() && spec_observe_consumes(fs[k].kind, code)
}

/// Whether a subscriber of the given kind consumes a delivered code,
/// exactly as `spec_observe_consumes` states it.
pub fn observe_consumes(kind: FieldKind, code: SyntheticEvent) -> (r: bool)
    ensures
        r == spec_observe_consumes(kind, code),
{
    match kind {
        FieldKind::MouseAction => match code {
            SyntheticEvent::Button1Click | SyntheticEvent::Button2Click => true,
            _ => false,
        },
        FieldKind::MouseInfo => match code {
            SyntheticEvent::MouseDown | SyntheticEvent::MouseUp | SyntheticEvent::MouseMove => true,
            _ => false,
        },
    }
}

/// The action label string of a synthetic event.
pub fn action_label_text(code: SyntheticEvent) -> (r: String)
    ensures
        r@ == spec_action_label(code),
{
    let s = match code {
        SyntheticEvent::MouseMove => "Mouse move",
        SyntheticEvent::MouseDown => "Mouse down",
        SyntheticEvent::MouseUp => "Mouse up",
        SyntheticEvent::MouseOut => "",
        SyntheticEvent::MouseIn => "",
        SyntheticEvent::Button1Click => "Button A clicked",
        SyntheticEvent::Button2Click => "Button B clicked",
    };
    proof {
        reveal_strlit("");
        assert(""@ =~= Seq::<char>::empty());
    }
    String::from_str(s)
}

impl ReportField {
    /// A fresh mouse-action report field, displaying nothing yet.
    pub fn action_row() -> (r: ReportField)
        ensures
            r@ == (FieldModel { kind: FieldKind::MouseAction, value: Seq::empty() }),
    {
        ReportField { kind: FieldKind::MouseAction, value: String::new() }
    }

    /// A fresh mouse-information report field, displaying nothing yet.
    pub fn info_row() -> (r: ReportField)
        ensures
            r@ == (FieldModel { kind: FieldKind::MouseInfo, value: Seq::empty() }),
    {
        ReportField { kind: FieldKind::MouseInfo, value: String::new() }
    }

    /// Which report field this is.
    pub fn kind(&self) -> (r: FieldKind)
        ensures
            r == self@.kind,
    {
        self.kind
    }

    /// The text the field currently displays.
    pub fn value(&self) -> (r: String)
        ensures
            r@ == self@.value,
    {
        self.value.clone()
    }

    /// One subscriber's handler: reacts to a delivered code as
    /// `spec_observe` states, writes the action label back into the shared
    /// context if this is the action field, and reports whether it consumed
    /// the code. The pointer state of the context is never changed here.
    pub fn observe(&mut self, code: SyntheticEvent, ctx: &mut ActionContext) -> (consumed: bool)
        ensures
            final(self)@ == spec_observe(
                old(self)@,
                code,
                old(ctx)@.mouse_x,
                old(ctx)@.mouse_y,
                old(ctx)@.last_button,
            ),
            final(ctx)@.mouse_x == old(ctx)@.mouse_x,
            final(ctx)@.mouse_y == old(ctx)@.mouse_y,
            final(ctx)@.last_button == old(ctx)@.last_button,
            final(ctx)@.last_action_label == if old(self)@.kind == FieldKind::MouseAction {
                spec_action_label(code)
            } else {
                old(ctx)@.last_action_label
            },
            consumed == spec_observe_consumes(old(self)@.kind, code),
    {
        match self.kind {
            FieldKind::MouseAction => {
                let text = action_label_text(code);
                ctx.set_action_label(text.clone());
                self.value = text;
                match code {
                    SyntheticEvent::Button1Click | SyntheticEvent::Button2Click => true,
                    _ => false,
                }
            },
            FieldKind::MouseInfo => {
                match code {
                    SyntheticEvent::MouseDown | SyntheticEvent::MouseUp => {
                        self.value = full_info_text(ctx);
                        true
                    },
                    SyntheticEvent::MouseMove => {
                        self.value = coords_info_text(ctx);
                        true
                    },
                    _ => false,
                }
            },
        }
    }
}

/// The error of posting a synthetic event before the event loop runs:
/// a programming error, reported loudly at the point of call.
#[derive(Clone, Copy, Debug, PartialEq, Eq, Structural)]
pub enum PostError {
    LoopNotRunning,
}

/// Mathematical model of the bus.
#[verifier::ext_equal]
pub struct BusModel {
    pub fields: Seq<FieldModel>,
    pub ready: bool,
}

/// The publish/subscribe bus: the subscribed report fields in registration
/// order, and whether the host event loop is running yet.
#[derive(Debug)]
pub struct Bus {
    subscribers: Vec<ReportField>,
    ready: bool,
}

impl View for Bus {
    type V = BusModel;

    closed spec fn view(&self) -> BusModel {
        BusModel {
            fields: self.subscribers@.map_values(|f: ReportField| f@),
            ready: self.ready,
        }
    }
}

impl Bus {
    /// A bus with no subscribers and no running event loop.
    pub fn new() -> (r: Bus)
        ensures
            r@ == (BusModel { fields: Seq::empty(), ready: false }),
    {
        let r = Bus { subscribers: Vec::new(), ready: false };
        proof {
            assert(r@.fields =~= Seq::<FieldModel>::empty());
        }
        r
    }

    /// Registers one more subscriber; it is delivered to after all earlier
    /// ones.
    pub fn subscribe(&mut self, field: ReportField)
        ensures
            final(self)@ == (BusModel {
                fields: old(self)@.fields.push(field@),
                ready: old(self)@.ready,
            }),
    {
        let ghost before = self.subscribers@;
        self.subscribers.push(field);
        proof {
            assert(self.subscribers@ == before.push(field));
            assert(self.subscribers@.map_values(|f: ReportField| f@) =~= before.map_values(
                |f: ReportField| f@,
            ).push(field@));
        }
    }

    /// Marks the host event loop as running; from here on posting succeeds.
    pub fn activate(&mut self)
        ensures
            final(self)@ == (BusModel { fields: old(self)@.fields, ready: true }),
    {
        self.ready = true;
    }

    /// Whether the host event loop is running.
    pub fn ready(&self) -> (r: bool)
        ensures
            r == self@.ready,
    {
        self.ready
    }

    /// How many subscribers are registered.
    pub fn subscriber_count(&self) -> (r: usize)
        ensures
            r == self@.fields.len(),
    {
        self.subscribers.len()
    }

    /// A reference to the subscriber at `index`, in registration order.
    pub fn subscriber(&self, index: usize) -> (r: &ReportField)
        requires
            index < self@.fields.len(),
        ensures
            r@ == self@.fields[index as int],
    {
        &self.subscribers[index]
    }

    /// Posts a synthetic event: delivers it to every subscriber in
    /// registration order, synchronously, and reports whether any consumed
    /// it. Fails, changing nothing, exactly when the event loop is not
    /// running.
    pub fn post(&mut self, code: SyntheticEvent, ctx: &mut ActionContext) -> (r: Result<
        bool,
        PostError,
    >)
        ensures
            r is Ok <==> old(self)@.ready,
            r matches Err(e) ==> e == PostError::LoopNotRunning && *final(self) == *old(self)
                && *final(ctx) == *old(ctx),
            r matches Ok(consumed) ==> {
                &&& consumed == spec_post_consumed(old(self)@.fields, code)
                &&& final(self)@.ready == old(self)@.ready
                &&& final(self)@.fields.len() == old(self)@.fields.len()
                &&& forall|k: int|
                    0 <= k < old(self)@.fields.len() ==> final(self)@.fields[k] == spec_observe(
                        old(self)@.fields[k],
                        code,
                        old(ctx)@.mouse_x,
                        old(ctx)@.mouse_y,
                        old(ctx)@.last_button,
                    )
                &&& final(ctx)@.mouse_x == old(ctx)@.mouse_x
                &&& final(ctx)@.mouse_y == old(ctx)@.mouse_y
                &&& final(ctx)@.last_button == old(ctx)@.last_button
                &&& final(ctx)@.last_action_label == spec_label_after_post(
                    old(self)@.fields,
                    code,
                    old(ctx)@.last_action_label,
                )
            },
    {
        if !self.ready {
            return Err(PostError::LoopNotRunning);
        }
        let ghost subs0 = self.subscribers@;
        let ghost fields0 = self@.fields;
        let ghost x0 = ctx@.mouse_x;
        let ghost y0 = ctx@.mouse_y;
        let ghost b0 = ctx@.last_button;
        let ghost l0 = ctx@.last_action_label;
        let mut consumed = false;
        let mut i: usize = 0;
        let n = self.subscribers.len();
        while i < n
            invariant
                0 <= i <= n,
                n == subs0.len(),
                self.subscribers@.len() == subs0.len(),
                fields0 == subs0.map_values(|f: ReportField| f@),
                self.ready,
                forall|k: int| i <= k < n ==> self.subscribers@[k] == subs0[k],
                forall|k: int|
                    0 <= k < i ==> (#[trigger] self.subscribers@[k])@ == spec_observe(
                        fields0[k],
                        code,
                        x0,
                        y0,
                        b0,
                    ),
                ctx@.mouse_x == x0,
                ctx@.mouse_y == y0,
                ctx@.last_button == b0,
                ctx@.last_action_label == spec_label_after_post(
                    fields0.take(i as int),
                    code,
                    l0,
                ),
                consumed == spec_post_consumed(fields0.take(i as int), code),
            decreases n - i,
        {
            let c = self.subscribers[i].observe(code, ctx);
            consumed = consumed || c;
            proof {
                lemma_post_prefix_extend(fields0, code, l0, i as int);
            }
            i = i + 1;
        }
        proof {
            assert(fields0.take(n as int) =~= fields0);
            assert(self@.fields.len() == fields0.len());
            assert forall|k: int| 0 <= k < fields0.len() implies self@.fields[k] == spec_observe(
                fields0[k],
                code,
                x0,
                y0,
                b0,
            ) by {
                assert(self@.fields[k] == self.subscribers@[k]@);
            }
        }
        Ok(consumed)
    }
}

/// Extending a delivery prefix by one subscriber extends the label and
/// consumption summaries in the expected way.
proof fn lemma_post_prefix_extend(
    fs: Seq<FieldModel>,
    code: SyntheticEvent,
    prior: Seq<char>,
    i: int,
)
    requires
        0 <= i < fs.len(),
    ensures
        spec_label_after_post(fs.take(i + 1), code, prior) == if fs[i].kind
            == FieldKind::MouseAction {
            spec_action_label(code)
        } else {
            spec_label_after_post(fs.take(i), code, prior)
        },
        spec_post_consumed(fs.take(i + 1), code) == (spec_post_consumed(fs.take(i), code)
            || spec_observe_consumes(fs[i].kind, code)),
{
    let a = fs.take(i + 1);
    let b = fs.take(i);
    assert(a[i] == fs[i]);
    assert(forall|k: int| 0 <= k < i ==> a[k] == b[k] && b[k] == fs[k]);
    if fs[i].kind == FieldKind::MouseAction {
        assert(has_action_field(a));
    } else {
        if has_action_field(b) {
            let k = choose|k: int| 0 <= k < b.len() && b[k].kind == FieldKind::MouseAction;
            assert(a[k].kind == FieldKind::MouseAction);
            assert(has_action_field(a));
        }
        if has_action_field(a) {
            let k = choose|k: int| 0 <= k < a.len() && a[k].kind == FieldKind::MouseAction;
            assert(k < i);
            assert(b[k].kind == FieldKind::MouseAction);
            assert(has_action_field(b));
        }
    }
    if spec_post_consumed(b, code) {
        let k = choose|k: int| 0 <= k < b.len() && spec_observe_consumes(b[k].kind, code);
        assert(spec_observe_consumes(a[k].kind, code));
    }
    if spec_observe_consumes(fs[i].kind, code) {
        assert(spec_observe_consumes(a[i].kind, code));
    }
    if spec_post_consumed(a, code) && !spec_observe_consumes(fs[i].kind, code) {
        let k = choose|k: int| 0 <= k < a.len() && spec_observe_consumes(a[k].kind, code);
        assert(k < i);
        assert(spec_observe_consumes(b[k].kind, code));
    }
}

/// Observing the same code twice in immediate succession leaves a field as
/// observing it once does: each handler recomputes its value instead of
/// accumulating.
pub proof fn lemma_observe_idempotent(
    f: FieldModel,
    code: SyntheticEvent,
    x: int,
    y: int,
    b: ButtonName,
)
    ensures
        spec_observe(spec_observe(f, code, x, y, b), code, x, y, b) == spec_observe(
            f,
            code,
            x,
            y,
            b,
        ),
{
}

} // verus!
