//! The overlay controller: the state machine of the single full-screen,
//! input-transparent, always-on-top darkening surface.
//!
//! The controller owns the surface's opacity and show/hide state as plain
//! values; the opaque surface handle, and the platform calls that realise a
//! mutation, live with the platform layer, which performs the
//! [`OverlayAction`] each mutation returns. Alpha and visibility change
//! independently of each other: alpha changes while hidden are legal and
//! take effect silently, so showing the overlay later reflects the current
//! slider value without a visible ramp-up.

use vstd::prelude::*;

verus! {

/// An action the platform layer must perform on the overlay surface.
#[derive(Clone, Copy, Debug, PartialEq, Eq, Structural)]
pub enum OverlayAction {
    /// Set the surface's opacity to the given alpha.
    SetOpacity(u8),
    /// Show the surface.
    Show,
    /// Hide the surface.
    Hide,
}

/// One request made of the overlay controller. Sequences of these describe
/// every interleaving of alpha changes and visibility toggles.
#[derive(Clone, Copy, Debug, PartialEq, Eq, Structural)]
pub enum OverlayOp {
    /// Set the overlay's alpha to the given value.
    SetAlpha(u8),
    /// Flip the overlay's visibility.
    Toggle,
}

/// The controller's view of the overlay surface: its current opacity and
/// whether it is shown.
#[derive(Clone, Copy, Debug, PartialEq, Eq, Structural)]
pub struct OverlayState {
    pub alpha: u8,
    pub visible: bool,
}

/// The state after one request.
pub open spec fn spec_apply_op(s: OverlayState, op: OverlayOp) -> OverlayState {
    match op {
        OverlayOp::SetAlpha(a) => OverlayState { alpha: a, ..s },
        OverlayOp::Toggle => OverlayState { visible: !s.visible, ..s },
    }
}

/// The platform action one request produces in a given state: an alpha
/// change always sets the opacity; a toggle shows a hidden surface and
/// hides a visible one.
pub open spec fn spec_action_of(s: OverlayState, op: OverlayOp) -> OverlayAction {
    match op {
        OverlayOp::SetAlpha(a) => OverlayAction::SetOpacity(a),
        OverlayOp::Toggle => if s.visible {
            OverlayAction::Hide
        } else {
            OverlayAction::Show
        },
    }
}

/// The state after a sequence of requests, applied in order.
pub open spec fn spec_apply_ops(s: OverlayState, ops: Seq<OverlayOp>) -> OverlayState
    decreases ops.len(),
{
    if ops.len() == 0 {
        s
    } else {
        spec_apply_ops(spec_apply_op(s, ops[0]), ops.drop_first())
    }
}

proof fn lemma_apply_ops_snoc(s: OverlayState, ops: Seq<OverlayOp>, op: OverlayOp)
    ensures
        spec_apply_ops(s, ops.push(op)) == spec_apply_op(spec_apply_ops(s, ops), op),
    decreases ops.len(),
{
    if ops.len() == 0 {
        assert(ops.push(op)[0] == op);
        assert(ops.push(op).drop_first() =~= Seq::<OverlayOp>::empty());
        assert(spec_apply_ops(s, ops.push(op)) == spec_apply_ops(
            spec_apply_op(s, op),
            Seq::<OverlayOp>::empty(),
        ));
        assert(spec_apply_ops(s, ops) == s);
    } else {
        lemma_apply_ops_snoc(spec_apply_op(s, ops[0]), ops.drop_first(), op);
        assert(ops.push(op)[0] == ops[0]);
        assert(ops.push(op).drop_first() =~= ops.drop_first().push(op));
        assert(spec_apply_ops(s, ops.push(op)) == spec_apply_ops(
            spec_apply_op(s, ops[0]),
            ops.drop_first().push(op),
        ));
        assert(spec_apply_ops(s, ops) == spec_apply_ops(spec_apply_op(s, ops[0]), ops.drop_first()));
    }
}

/// The alpha value after a sequence of requests: the value of the last
/// `SetAlpha` among them, or the starting alpha if there is none.
pub open spec fn spec_last_alpha(a0: u8, ops: Seq<OverlayOp>) -> u8
    decreases ops.len(),
{
    if ops.len() == 0 {
        a0
    } else {
        spec_last_alpha(
            match ops[0] {
                OverlayOp::SetAlpha(a) => a,
                OverlayOp::Toggle => a0,
            },
            ops.drop_first(),
        )
    }
}

/// How many visibility toggles a sequence of requests holds.
pub open spec fn spec_toggle_count(ops: Seq<OverlayOp>) -> nat
    decreases ops.len(),
{
    if ops.len() == 0 {
        0
    } else {
        (match ops[0] {
            OverlayOp::SetAlpha(_) => 0nat,
            OverlayOp::Toggle => 1nat,
        }) + spec_toggle_count(ops.drop_first())
    }
}

/// The outcome of any sequence of requests is determined by the last alpha
/// set and the parity of the toggle count alone — not by how alpha changes
/// and toggles interleave.
pub proof fn lemma_overlay_outcome(s: OverlayState, ops: Seq<OverlayOp>)
    ensures
        spec_apply_ops(s, ops).alpha == spec_last_alpha(s.alpha, ops),
        spec_apply_ops(s, ops).visible == (s.visible != (spec_toggle_count(ops) % 2 == 1)),
    decreases ops.len(),
{
    if ops.len() > 0 {
        lemma_overlay_outcome(spec_apply_op(s, ops[0]), ops.drop_first());
    }
}

/// Alpha/visibility independence: two request sequences that agree on the
/// last alpha set and on the parity of their toggle counts leave the overlay
/// in the same state, whatever their interleaving order.
pub proof fn lemma_overlay_order_independent(
    s: OverlayState,
    ops1: Seq<OverlayOp>,
    ops2: Seq<OverlayOp>,
)
    requires
        spec_last_alpha(s.alpha, ops1) == spec_last_alpha(s.alpha, ops2),
        spec_toggle_count(ops1) % 2 == spec_toggle_count(ops2) % 2,
    ensures
        spec_apply_ops(s, ops1) == spec_apply_ops(s, ops2),
{
    lemma_overlay_outcome(s, ops1);
    lemma_overlay_outcome(s, ops2);
}

/// Setting alpha and toggling visibility commute: applied in either order,
/// the final {alpha, visible} pair is the same.
pub proof fn lemma_set_alpha_toggle_commute(s: OverlayState, a: u8)
    ensures
        spec_apply_ops(s, seq![OverlayOp::SetAlpha(a), OverlayOp::Toggle]) == spec_apply_ops(
            s,
            seq![OverlayOp::Toggle, OverlayOp::SetAlpha(a)],
        ),
{
    reveal_with_fuel(spec_apply_ops, 3);
    let fwd = seq![OverlayOp::SetAlpha(a), OverlayOp::Toggle];
    let rev = seq![OverlayOp::Toggle, OverlayOp::SetAlpha(a)];
    assert(fwd.drop_first() =~= seq![OverlayOp::Toggle]);
    assert(rev.drop_first() =~= seq![OverlayOp::SetAlpha(a)]);
    assert(seq![OverlayOp::Toggle].drop_first() =~= Seq::<OverlayOp>::empty());
    assert(seq![OverlayOp::SetAlpha(a)].drop_first() =~= Seq::<OverlayOp>::empty());
}

impl OverlayState {
    /// A freshly initialised overlay: fully transparent and not shown.
    pub fn new() -> (s: Self)
        ensures
            s.alpha == 0,
            !s.visible,
    {
        OverlayState { alpha: 0, visible: false }
    }

    /// Sets the overlay's opacity. Legal whether the overlay is hidden or
    /// visible; visibility is untouched.
    pub fn set_alpha(&mut self, a: u8) -> (act: OverlayAction)
        ensures
            *final(self) == spec_apply_op(*old(self), OverlayOp::SetAlpha(a)),
            final(self).alpha == a,
            final(self).visible == old(self).visible,
            act == OverlayAction::SetOpacity(a),
    {
        self.alpha = a;
        OverlayAction::SetOpacity(a)
    }

    /// Flips the overlay's visibility. Alpha is untouched; the returned
    /// action tells the platform layer to show or hide the surface.
    pub fn toggle_visibility(&mut self) -> (act: OverlayAction)
        ensures
            *final(self) == spec_apply_op(*old(self), OverlayOp::Toggle),
            final(self).visible == !old(self).visible,
            final(self).alpha == old(self).alpha,
            act == (if old(self).visible {
                OverlayAction::Hide
            } else {
                OverlayAction::Show
            }),
    {
        self.visible = !self.visible;
        if self.visible {
            OverlayAction::Show
        } else {
            OverlayAction::Hide
        }
    }

    /// Applies a sequence of requests in order, returning the platform
    /// actions they produce: one per request, each fixed by the request and
    /// the state it found.
    pub fn apply_ops(&mut self, ops: &Vec<OverlayOp>) -> (acts: Vec<OverlayAction>)
        ensures
            *final(self) == spec_apply_ops(*old(self), ops@),
            acts@.len() == ops@.len(),
            forall|j: int|
                0 <= j < ops@.len() ==> acts@[j] == spec_action_of(
                    spec_apply_ops(*old(self), ops@.take(j)),
                    ops@[j],
                ),
    {
        let mut acts: Vec<OverlayAction> = Vec::new();
        let mut i: usize = 0;
        proof {
            assert(ops@.take(0) =~= Seq::<OverlayOp>::empty());
        }
        while i < ops.len()
            invariant
                i <= ops@.len(),
                acts@.len() == i,
                *self == spec_apply_ops(*old(self), ops@.take(i as int)),
                forall|j: int|
                    0 <= j < i ==> acts@[j] == spec_action_of(
                        spec_apply_ops(*old(self), ops@.take(j)),
                        ops@[j],
                    ),
            decreases ops@.len() - i,
        {
            let act = match ops[i] {
                OverlayOp::SetAlpha(a) => self.set_alpha(a),
                OverlayOp::Toggle => self.toggle_visibility(),
            };
            acts.push(act);
            proof {
                assert(ops@.take(i as int + 1) =~= ops@.take(i as int).push(ops@[i as int]));
                lemma_apply_ops_snoc(*old(self), ops@.take(i as int), ops@[i as int]);
            }
            i = i + 1;
        }
        proof {
            assert(ops@.take(ops@.len() as int) =~= ops@);
        }
        acts
    }
}

} // verus!
