//! The control-surface bridge: a one-directional, multi-producer
//! single-consumer channel carries show/hide and quit requests from the
//! independently running control-surface (tray icon) thread into the UI's
//! event loop.
//!
//! The channel itself comes from `crossbeam_channel`; the bridge's own
//! logic — which action each received event demands, and in what order a
//! stream of events is consumed — is plain code over plain values. Events
//! are delivered in send order (FIFO per producer); the first quit request
//! terminates consumption, and nothing is observed after it. A channel
//! whose producers have all gone away simply stops yielding events: the UI
//! keeps running from the slider alone.

use vstd::prelude::*;

verus! {

/// A request produced by the control-surface thread.
#[derive(Clone, Copy, Debug, PartialEq, Eq, Structural)]
pub enum ControlEvent {
    /// Toggle the overlay's visibility.
    ShowHide,
    /// Terminate the process immediately.
    Quit,
}

/// What the application controller must do for one receive on the bridge.
#[derive(Clone, Copy, Debug, PartialEq, Eq, Structural)]
pub enum BridgeAction {
    /// Flip the overlay's visibility.
    ToggleVisibility,
    /// Terminate the process: unconditional and immediate, with no
    /// guaranteed cleanup.
    Terminate,
    /// The channel is closed; stop producing further events and leave the
    /// UI in its last state.
    Stop,
}

/// The action owed for one receive: an event maps to its action, a closed
/// channel (no event) to `Stop`.
pub open spec fn spec_bridge_action(e: Option<ControlEvent>) -> BridgeAction {
    match e {
        Some(ControlEvent::ShowHide) => BridgeAction::ToggleVisibility,
        Some(ControlEvent::Quit) => BridgeAction::Terminate,
        None => BridgeAction::Stop,
    }
}

/// The actions a stream of events produces when consumed in arrival order:
/// one visibility toggle per `ShowHide` before the first `Quit`, then a
/// single `Terminate` for the first `Quit`; events after it are never
/// observed.
pub open spec fn spec_bridge_log(events: Seq<ControlEvent>) -> Seq<BridgeAction>
    decreases events.len(),
{
    if events.len() == 0 {
        Seq::empty()
    } else {
        match events[0] {
            ControlEvent::Quit => seq![BridgeAction::Terminate],
            ControlEvent::ShowHide => seq![BridgeAction::ToggleVisibility]
                + spec_bridge_log(events.drop_first()),
        }
    }
}

/// A `Terminate` only ever stands last in an action log.
pub open spec fn spec_terminate_only_last(log: Seq<BridgeAction>) -> bool {
    forall|i: int| 0 <= i < log.len() && log[i] is Terminate ==> i == log.len() - 1
}

/// Bridge ordering: in the actions produced by any event stream, every
/// visibility toggle is observed before the terminate, never after it — a
/// `Terminate` can only be the log's last action.
pub proof fn lemma_bridge_ordering(events: Seq<ControlEvent>)
    ensures
        spec_terminate_only_last(spec_bridge_log(events)),
    decreases events.len(),
{
    if events.len() > 0 {
        match events[0] {
            ControlEvent::Quit => {
            }
            ControlEvent::ShowHide => {
                lemma_bridge_ordering(events.drop_first());
                let rec = spec_bridge_log(events.drop_first());
                let log = spec_bridge_log(events);
                assert forall|i: int|
                    0 <= i < log.len() && log[i] is Terminate implies i == log.len() - 1 by {
                    if i > 0 {
                        assert(log[i] == rec[i - 1]);
                    }
                }
            }
        }
    }
}

/// The decision for one received event (or for a closed channel).
pub fn on_control_event(e: Option<ControlEvent>) -> (a: BridgeAction)
    ensures
        a == spec_bridge_action(e),
{
    match e {
        Some(ControlEvent::ShowHide) => BridgeAction::ToggleVisibility,
        Some(ControlEvent::Quit) => BridgeAction::Terminate,
        None => BridgeAction::Stop,
    }
}

/// Consumes a stream of control events in arrival order and returns the
/// actions taken, in the order they were taken: exactly the bridge log of
/// the stream. Consumption stops at the first `Quit`.
pub fn consume_events(events: &Vec<ControlEvent>) -> (log: Vec<BridgeAction>)
    ensures
        log@ == spec_bridge_log(events@),
{
    let mut log: Vec<BridgeAction> = Vec::new();
    let mut i: usize = 0;
    proof {
        assert(events@.skip(0) =~= events@);
        assert(log@ + spec_bridge_log(events@) =~= spec_bridge_log(events@));
    }
    while i < events.len()
        invariant
            i <= events@.len(),
            log@ + spec_bridge_log(events@.skip(i as int)) == spec_bridge_log(events@),
        decreases events@.len() - i,
    {
        match events[i] {
            ControlEvent::Quit => {
                log.push(BridgeAction::Terminate);
                proof {
                    assert(log@ =~= spec_bridge_log(events@));
                }
                return log;
            }
            ControlEvent::ShowHide => {
                log.push(BridgeAction::ToggleVisibility);
                proof {
                    assert(events@.skip(i as int).drop_first() =~= events@.skip(i as int + 1));
                    assert(log@ + spec_bridge_log(events@.skip(i as int + 1)) =~= spec_bridge_log(
                        events@,
                    ));
                }
            }
        }
        i = i + 1;
    }
    proof {
        assert(events@.skip(events@.len() as int) =~= Seq::<ControlEvent>::empty());
        assert(log@ =~= spec_bridge_log(events@));
    }
    log
}

/// The channel's producer half, `crossbeam_channel::Sender`, declared so
/// that it can stand in signatures; the value itself is opaque here.
#[verifier::external_type_specification]
#[verifier::external_body]
#[verifier::reject_recursive_types(T)]
pub struct ExSender<T>(crossbeam_channel::Sender<T>);

/// The channel's consumer half, `crossbeam_channel::Receiver`, declared so
/// that it can stand in signatures; the value itself is opaque here.
#[verifier::external_type_specification]
#[verifier::external_body]
#[verifier::reject_recursive_types(T)]
pub struct ExReceiver<T>(crossbeam_channel::Receiver<T>);

/// Relies on `crossbeam_channel::Sender::send`: places the message into the
/// channel, failing only once every receiver has been dropped. Nothing of
/// the channel's hidden state can be promised here; delivery order is the
/// channel's own FIFO guarantee.
#[verifier::external_body]
fn send_event(tx: &crossbeam_channel::Sender<ControlEvent>, e: ControlEvent) -> (delivered: bool) {
    tx.send(e).is_ok()
}

/// Relies on `crossbeam_channel::Receiver::recv`: blocks until a message
/// arrives and returns it, or returns no message once the channel is empty
/// and every sender has been dropped. Which event arrives depends on the
/// other thread, so nothing is promised of the result.
#[verifier::external_body]
fn recv_event(rx: &crossbeam_channel::Receiver<ControlEvent>) -> (e: Option<ControlEvent>) {
    match rx.recv() {
        Ok(ev) => Some(ev),
        Err(_) => None,
    }
}

/// A control-surface menu handler's side of the bridge: requests a
/// visibility toggle. Returns the event pushed onto the channel — always
/// `ShowHide` — and whether the consumer side still existed to receive it.
pub fn request_show_hide(tx: &crossbeam_channel::Sender<ControlEvent>) -> (r: (ControlEvent, bool))
    ensures
        r.0 == ControlEvent::ShowHide,
{
    let e = ControlEvent::ShowHide;
    let delivered = send_event(tx, e);
    (e, delivered)
}

/// A control-surface menu handler's side of the bridge: requests immediate
/// termination. Returns the event pushed onto the channel — always `Quit` —
/// and whether the consumer side still existed to receive it.
pub fn request_quit(tx: &crossbeam_channel::Sender<ControlEvent>) -> (r: (ControlEvent, bool))
    ensures
        r.0 == ControlEvent::Quit,
{
    let e = ControlEvent::Quit;
    let delivered = send_event(tx, e);
    (e, delivered)
}

/// One receive on the bridge: waits for the next bridged event and returns
/// it with the action it demands. Whatever arrived — or did not, on a
/// closed channel — the action is exactly the one owed for it.
pub fn poll_bridge(rx: &crossbeam_channel::Receiver<ControlEvent>) -> (r: (
    Option<ControlEvent>,
    BridgeAction,
))
    ensures
        r.1 == spec_bridge_action(r.0),
{
    let e = recv_event(rx);
    let a = on_control_event(e);
    (e, a)
}

} // verus!
