//! Device presence: which USB devices are the tracker, and when a device
//! session is started or stopped as devices arrive and leave.

use std::sync::mpsc::Sender;
use vstd::prelude::*;

verus! {

/// `std::sync::mpsc::Sender`, held opaque: the hotplug handler only passes it
/// to `VitureHotPlugHandler::send_event`.
#[verifier::external_type_specification]
#[verifier::external_body]
#[verifier::reject_recursive_types(T)]
pub struct ExSender<T>(Sender<T>);

/// Vendor identifier of the tracked device.
pub const VITURE_ID_VENDOR: u16 = 0x35ca;

/// Whether `product` is one of the tracked device's product identifiers.
pub open spec fn is_viture_product(product: u16) -> bool {
    product == 0x1011 || product == 0x1013 || product == 0x1017 || product == 0x1015
        || product == 0x101b || product == 0x1019 || product == 0x101d
}

/// Whether a device with these (vendor, product) identifiers is the tracked
/// device; `None` stands for a device whose descriptor could not be read.
pub open spec fn is_viture(ids: Option<(u16, u16)>) -> bool {
    match ids {
        Some((vendor, product)) => vendor == VITURE_ID_VENDOR && is_viture_product(product),
        None => false,
    }
}

/// A hotplug notification about the tracked device.
#[derive(Clone, Copy, Debug, PartialEq, Eq, Structural)]
pub enum HotPlugEvent {
    Arrived,
    Left,
}

/// What to do with the device session in answer to an event.
#[derive(Clone, Copy, Debug, PartialEq, Eq, Structural)]
pub enum SessionAction {
    /// Create a session; none is alive.
    Start,
    /// Release the live session.
    Stop,
    /// Leave things as they are.
    Keep,
}

/// The action that an event calls for, given whether a session is alive.
pub open spec fn action_for(active: bool, event: HotPlugEvent) -> SessionAction {
    match event {
        HotPlugEvent::Arrived => if active {
            SessionAction::Keep
        } else {
            SessionAction::Start
        },
        HotPlugEvent::Left => if active {
            SessionAction::Stop
        } else {
            SessionAction::Keep
        },
    }
}

/// Whether a session is alive once `action` has been carried out; `started`
/// says whether starting one succeeded.
pub open spec fn active_after(active: bool, action: SessionAction, started: bool) -> bool {
    match action {
        SessionAction::Start => started,
        SessionAction::Stop => false,
        SessionAction::Keep => active,
    }
}

/// Whether `ids` identify the tracked device.
pub fn check_ids(ids: Option<(u16, u16)>) -> (r: bool)
    ensures
        r == is_viture(ids),
{
    match ids {
        Some((vendor, product)) => {
            vendor == VITURE_ID_VENDOR && (product == 0x1011 || product == 0x1013 || product
                == 0x1017 || product == 0x1015 || product == 0x101b || product == 0x1019
                || product == 0x101d)
        },
        None => false,
    }
}

/// Filters raw hotplug notifications down to those about the tracked device
/// and forwards them over a channel. `sent` records, in order, every event
/// handed to the channel.
pub struct VitureHotPlugHandler {
    pub debug: bool,
    pub sender: Sender<HotPlugEvent>,
    pub sent: Ghost<Seq<HotPlugEvent>>,
}

/// The events a notification about a device with identifiers `ids` forwards:
/// one `event` for the tracked device, none for any other.
pub open spec fn forwarded(ids: Option<(u16, u16)>, event: HotPlugEvent) -> Seq<HotPlugEvent> {
    if is_viture(ids) {
        seq![event]
    } else {
        Seq::<HotPlugEvent>::empty()
    }
}

impl VitureHotPlugHandler {
    /// A handler that has sent nothing yet.
    pub fn new(sender: Sender<HotPlugEvent>, debug: bool) -> (r: Self)
        ensures
            r.debug == debug,
            r.sender == sender,
            r.sent@ == Seq::<HotPlugEvent>::empty(),
    {
        VitureHotPlugHandler { debug, sender, sent: Ghost(Seq::empty()) }
    }

    /// Relies on `std::sync::mpsc::Sender::send`: hands `event` to the
    /// channel, which never blocks. It fails only when the receiver is gone,
    /// and the event is then dropped; either way the event was handed over,
    /// which is what `sent` records.
    #[verifier::external_body]
    fn send_event(&mut self, event: HotPlugEvent)
        ensures
            final(self).sent@ == old(self).sent@.push(event),
            final(self).sender == old(self).sender,
            final(self).debug == old(self).debug,
    {
        let _ = self.sender.send(event);
    }

    /// A device with identifiers `ids` arrived: sends one `Arrived` for the
    /// tracked device and nothing for any other; returns the event sent.
    pub fn device_arrived(&mut self, ids: Option<(u16, u16)>) -> (r: Option<HotPlugEvent>)
        ensures
            final(self).sent@ == old(self).sent@ + forwarded(ids, HotPlugEvent::Arrived),
            final(self).sender == old(self).sender,
            final(self).debug == old(self).debug,
            r == if is_viture(ids) {
                Some(HotPlugEvent::Arrived)
            } else {
                None
            },
    {
        if check_ids(ids) {
            let ghost before = self.sent@;
            self.send_event(HotPlugEvent::Arrived);
            assert(before.push(HotPlugEvent::Arrived) == before + seq![HotPlugEvent::Arrived]);
            Some(HotPlugEvent::Arrived)
        } else {
            assert(self.sent@ + Seq::<HotPlugEvent>::empty() == self.sent@);
            None
        }
    }

    /// A device with identifiers `ids` left: sends one `Left` for the tracked
    /// device and nothing for any other; returns the event sent.
    pub fn device_left(&mut self, ids: Option<(u16, u16)>) -> (r: Option<HotPlugEvent>)
        ensures
            final(self).sent@ == old(self).sent@ + forwarded(ids, HotPlugEvent::Left),
            final(self).sender == old(self).sender,
            final(self).debug == old(self).debug,
            r == if is_viture(ids) {
                Some(HotPlugEvent::Left)
            } else {
                None
            },
    {
        if check_ids(ids) {
            let ghost before = self.sent@;
            self.send_event(HotPlugEvent::Left);
            assert(before.push(HotPlugEvent::Left) == before + seq![HotPlugEvent::Left]);
            Some(HotPlugEvent::Left)
        } else {
            assert(self.sent@ + Seq::<HotPlugEvent>::empty() == self.sent@);
            None
        }
    }
}

/// The presence controller's decisions: whether a device session is alive,
/// and what each event does to it. At most one session is alive at a time.
pub struct PresenceController {
    pub active: bool,
}

impl PresenceController {
    /// No session alive.
    pub fn new() -> (r: Self)
        ensures
            !r.active,
    {
        PresenceController { active: false }
    }

    /// The action that `event` calls for: start a session when the device
    /// arrives and none is alive, stop it when the device leaves, else keep.
    pub fn on_event(&self, event: HotPlugEvent) -> (r: SessionAction)
        ensures
            r == action_for(self.active, event),
    {
        match event {
            HotPlugEvent::Arrived => if self.active {
                SessionAction::Keep
            } else {
                SessionAction::Start
            },
            HotPlugEvent::Left => if self.active {
                SessionAction::Stop
            } else {
                SessionAction::Keep
            },
        }
    }

    /// Records that `action` was carried out; `started` says whether a start
    /// succeeded (it is not read for other actions). A failed start leaves no
    /// session, and the next arrival tries again.
    pub fn complete(&mut self, action: SessionAction, started: bool)
        ensures
            final(self).active == active_after(old(self).active, action, started),
    {
        match action {
            SessionAction::Start => {
                self.active = started;
            },
            SessionAction::Stop => {
                self.active = false;
            },
            SessionAction::Keep => {},
        }
    }
}

/// A session is only ever started when none is alive, so two sessions never
/// live at once.
pub proof fn lemma_start_only_when_idle(active: bool, event: HotPlugEvent)
    ensures
        action_for(active, event) == SessionAction::Start ==> !active,
        action_for(active, event) == SessionAction::Stop ==> active,
{
}

/// The device leaving and at once arriving again, both events being about the
/// tracked device: the first event starts nothing and releases a live session,
/// the second starts the new one, so the old session is released before the
/// new one is acquired; once the start succeeds exactly one session is alive.
pub proof fn lemma_leave_then_arrive(active: bool, started: bool)
    ensures
        ({
            let first = action_for(active, HotPlugEvent::Left);
            let between = active_after(active, first, true);
            let second = action_for(between, HotPlugEvent::Arrived);
            &&& first != SessionAction::Start
            &&& (active ==> first == SessionAction::Stop)
            &&& !between
            &&& second == SessionAction::Start
            &&& active_after(between, second, started) == started
        }),
{
}

/// Two arrivals with no departure between them never start two sessions:
/// once the first has left a session alive, the second keeps it.
pub proof fn lemma_arrivals_idempotent(active: bool, started: bool)
    ensures
        ({
            let first = action_for(active, HotPlugEvent::Arrived);
            let between = active_after(active, first, started);
            let second = action_for(between, HotPlugEvent::Arrived);
            &&& between ==> second == SessionAction::Keep
            &&& (first == SessionAction::Start && second == SessionAction::Start) ==> !between
        }),
{
}

} // verus!
