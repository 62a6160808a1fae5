//! The hotplug bridge and the monitoring lifecycle.
//!
//! A [`MonitoringSession`] is the owned state of one monitoring registration.
//! Its phases follow the lifecycle `Idle -> Registering -> Running ->
//! Unregistering -> Idle`, with one extra resting phase, `NoOp`, for a
//! platform that cannot observe hotplug events at all: starting there
//! succeeds, creates no subscription, and delivers nothing until stopped.
//!
//! The unverified shell drives the session: it asks the session what to do
//! ([`MonitoringSession::start_requested`]), performs the driver call, and
//! reports the outcome back ([`MonitoringSession::registration_finished`]).
//! While the subscription exists, each raw driver notification is translated
//! into a [`HotplugEvent`] by [`MonitoringSession::handle_notification`]; the
//! watchdog poll ([`MonitoringSession::watchdog_poll`]) tells the shell when
//! to unregister the subscription, and says so exactly once per session.

use vstd::prelude::*;

use crate::device::read_device;
use crate::device::read_device_spec;
use crate::device::identity_of;
use crate::device::DeviceError;
use crate::device::DeviceIdentity;
use crate::device::DeviceRecord;
use crate::device::DeviceRecordView;
use crate::device::RawDevice;
use crate::device::RawDeviceView;

verus! {

/// A raw driver notification, as handed over by the driver's event-pump
/// thread: the device either arrived or left, together with what the driver
/// reports about it. For a departed device only the descriptor fields cached
/// before detachment are still meaningful.
pub enum Notification {
    Arrived(RawDevice),
    Left(RawDevice),
}

/// Mathematical image of a [`Notification`].
pub ghost enum NotificationView {
    Arrived(RawDeviceView),
    Left(RawDeviceView),
}

impl View for Notification {
    type V = NotificationView;

    open spec fn view(&self) -> NotificationView {
        match self {
            Notification::Arrived(raw) => NotificationView::Arrived(raw@),
            Notification::Left(raw) => NotificationView::Left(raw@),
        }
    }
}

/// A structured event for the consumer callback: a full record on arrival,
/// and only the identifying fields on removal, since a departed device's
/// strings can no longer be read.
#[derive(Debug, PartialEq, Eq)]
pub enum HotplugEvent {
    Arrived(DeviceRecord),
    Left(DeviceIdentity),
}

/// Mathematical image of a [`HotplugEvent`].
pub ghost enum HotplugEventView {
    Arrived(DeviceRecordView),
    Left(DeviceIdentity),
}

impl View for HotplugEvent {
    type V = HotplugEventView;

    open spec fn view(&self) -> HotplugEventView {
        match self {
            HotplugEvent::Arrived(d) => HotplugEventView::Arrived(d@),
            HotplugEvent::Left(id) => HotplugEventView::Left(*id),
        }
    }
}

/// Where a monitoring session stands in its lifecycle.
#[derive(Clone, Copy, Debug, PartialEq, Eq, Structural)]
pub enum Phase {
    /// No session: nothing registered, nothing running.
    Idle,
    /// A start was accepted and the shell is registering the driver callback.
    Registering,
    /// The subscription is live and events flow.
    Running,
    /// A stop flipped the running flag; the subscription still exists until
    /// the watchdog takes it, exactly once.
    Unregistering,
    /// The platform cannot observe hotplug events: the session exists but
    /// holds no subscription and delivers nothing, until stopped.
    NoOp,
}

/// What a start request tells the shell to do next.
#[derive(Clone, Copy, Debug, PartialEq, Eq, Structural)]
pub enum StartStep {
    /// Hotplug is available: register the driver callback now and report the
    /// outcome through [`MonitoringSession::registration_finished`].
    Register,
    /// Hotplug is unavailable: the start succeeded as a permanent no-op for
    /// this session. Log the `DriverUnsupported` condition; do not register.
    NoOpStarted,
}

/// Whether a subscription currently exists, so that driver notifications can
/// still reach the consumer.
pub open spec fn subscribed(p: Phase) -> bool {
    p is Running || p is Unregistering
}

/// Whether a session is active: a second start must be refused until the
/// session has returned to `Idle`.
pub open spec fn session_active(p: Phase) -> bool {
    !(p is Idle)
}

/// The phase transition and result of a start request: refused while a
/// session is active, a no-op start on a hotplug-incapable platform, and the
/// registering phase otherwise.
pub open spec fn start_requested_spec(p: Phase, hotplug_supported: bool) -> (Phase, Result<
    StartStep,
    DeviceError,
>) {
    if session_active(p) {
        (p, Err(DeviceError::AlreadyMonitoring))
    } else if !hotplug_supported {
        (Phase::NoOp, Ok(StartStep::NoOpStarted))
    } else {
        (Phase::Registering, Ok(StartStep::Register))
    }
}

/// The phase transition and result of the shell's registration report: a
/// successful registration starts the running phase, a failed one returns
/// the session to idle and rejects the start.
pub open spec fn registration_finished_spec(p: Phase, registered: bool) -> (Phase, Result<
    (),
    DeviceError,
>) {
    if registered {
        (Phase::Running, Ok(()))
    } else {
        (Phase::Idle, Err(DeviceError::RegistrationFailed))
    }
}

/// The phase transition of a stop: a running session begins its asynchronous
/// teardown, a no-op session ends at once, and anything else is left as it
/// is, so that stopping is idempotent and never an error.
pub open spec fn stop_spec(p: Phase) -> Phase {
    match p {
        Phase::Running => Phase::Unregistering,
        Phase::NoOp => Phase::Idle,
        _ => p,
    }
}

/// The watchdog's decision on one poll of the running flag: exactly when the
/// session is tearing down does the poll take the subscription, finish the
/// lifecycle, and tell the shell to unregister.
pub open spec fn watchdog_spec(p: Phase) -> (Phase, bool) {
    if p is Unregistering {
        (Phase::Idle, true)
    } else {
        (p, false)
    }
}

/// What translating one notification yields: a full record for an arrival,
/// read from what the driver reported; the cached identifying fields alone
/// for a removal. An arrival whose device cannot be read fails with that
/// read's error.
pub open spec fn translate_spec(n: NotificationView) -> Result<HotplugEventView, DeviceError> {
    match n {
        NotificationView::Arrived(raw) => match read_device_spec(raw) {
            Ok(d) => Ok(HotplugEventView::Arrived(d)),
            Err(e) => Err(e),
        },
        NotificationView::Left(raw) => Ok(
            HotplugEventView::Left(
                DeviceIdentity { vendor_id: raw.vendor_id, product_id: raw.product_id },
            ),
        ),
    }
}

/// The events a subscribed consumer observes from a sequence of driver
/// notifications, in the driver's order; a notification whose translation
/// fails is logged by the shell and skipped, and the bridge stays alive.
pub open spec fn translated_events(ns: Seq<NotificationView>) -> Seq<HotplugEventView>
    decreases ns.len(),
{
    if ns.len() == 0 {
        Seq::empty()
    } else {
        let pre = translated_events(ns.drop_last());
        match translate_spec(ns.last()) {
            Ok(ev) => pre.push(ev),
            Err(_) => pre,
        }
    }
}

/// The events the consumer observes from a session in phase `p`: nothing at
/// all without a subscription, and the translated sequence otherwise.
pub open spec fn observed_events(p: Phase, ns: Seq<NotificationView>) -> Seq<HotplugEventView> {
    if subscribed(p) {
        translated_events(ns)
    } else {
        Seq::empty()
    }
}

/// The view of a notification list, for stating contracts.
pub open spec fn notifications_view(s: Seq<Notification>) -> Seq<NotificationView> {
    s.map_values(|n: Notification| n@)
}

/// The view of an event list, for stating contracts.
pub open spec fn events_view(s: Seq<HotplugEvent>) -> Seq<HotplugEventView> {
    s.map_values(|ev: HotplugEvent| ev@)
}

/// The view of a translation result, for stating contracts.
pub open spec fn translate_result_view(r: Result<HotplugEvent, DeviceError>) -> Result<
    HotplugEventView,
    DeviceError,
> {
    match r {
        Ok(ev) => Ok(ev@),
        Err(e) => Err(e),
    }
}

/// The owned state of one monitoring registration, from start to full
/// teardown. At most one session is active at a time: a start while the
/// phase is anything but `Idle` is refused.
pub struct MonitoringSession {
    phase: Phase,
}

impl View for MonitoringSession {
    type V = Phase;

    closed spec fn view(&self) -> Phase {
        self.phase
    }
}

impl MonitoringSession {
    /// A fresh session: idle, nothing registered.
    pub fn new() -> (s: Self)
        ensures
            s@ is Idle,
    {
        MonitoringSession { phase: Phase::Idle }
    }

    /// The current lifecycle phase.
    pub fn phase(&self) -> (p: Phase)
        ensures
            p == self@,
    {
        self.phase
    }

    /// Requests a start. Refused with `AlreadyMonitoring` while a session is
    /// active. On a platform without hotplug capability the start succeeds
    /// as a permanent no-op for this session; otherwise the shell must now
    /// register the driver callback and report back through
    /// [`Self::registration_finished`].
    pub fn start_requested(&mut self, hotplug_supported: bool) -> (r: Result<
        StartStep,
        DeviceError,
    >)
        ensures
            (final(self)@, r) == start_requested_spec(old(self)@, hotplug_supported),
    {
        if self.phase != Phase::Idle {
            return Err(DeviceError::AlreadyMonitoring);
        }
        if !hotplug_supported {
            self.phase = Phase::NoOp;
            return Ok(StartStep::NoOpStarted);
        }
        self.phase = Phase::Registering;
        Ok(StartStep::Register)
    }

    /// Reports whether registering the driver callback succeeded. On success
    /// the session runs and the flag is up; on failure the start is rejected
    /// with `RegistrationFailed` and the session is idle again.
    pub fn registration_finished(&mut self, registered: bool) -> (r: Result<(), DeviceError>)
        requires
            old(self)@ is Registering,
        ensures
            (final(self)@, r) == registration_finished_spec(old(self)@, registered),
    {
        if registered {
            self.phase = Phase::Running;
            Ok(())
        } else {
            self.phase = Phase::Idle;
            Err(DeviceError::RegistrationFailed)
        }
    }

    /// Stops monitoring: flips the running flag and returns at once; the
    /// teardown of the subscription is finished asynchronously by the
    /// watchdog. Idempotent, and never an error.
    pub fn stop_monitoring(&mut self) -> (r: Result<(), DeviceError>)
        ensures
            final(self)@ == stop_spec(old(self)@),
            r == Ok::<(), DeviceError>(()),
    {
        match self.phase {
            Phase::Running => {
                self.phase = Phase::Unregistering;
            },
            Phase::NoOp => {
                self.phase = Phase::Idle;
            },
            _ => {},
        }
        Ok(())
    }

    /// One watchdog poll of the running flag. Returns true exactly when the
    /// shell must unregister the driver callback now; the subscription is
    /// taken in the same step, so the answer is true at most once per
    /// session and a second unregister can never be requested.
    pub fn watchdog_poll(&mut self) -> (unregister: bool)
        ensures
            (final(self)@, unregister) == watchdog_spec(old(self)@),
    {
        if self.phase == Phase::Unregistering {
            self.phase = Phase::Idle;
            true
        } else {
            false
        }
    }

    /// Translates one raw driver notification for the consumer, provided the
    /// subscription still exists: `None` without a subscription, and
    /// otherwise the translated event or the error the shell should log
    /// before carrying on.
    pub fn handle_notification(&self, n: &Notification) -> (r: Option<
        Result<HotplugEvent, DeviceError>,
    >)
        ensures
            match r {
                Some(tr) => subscribed(self@) && translate_result_view(tr) == translate_spec(n@),
                None => !subscribed(self@),
            },
    {
        match self.phase {
            Phase::Running | Phase::Unregistering => Some(translate_notification(n)),
            _ => None,
        }
    }

    /// Feeds a whole scripted sequence of driver notifications through the
    /// bridge and collects what the consumer observes, in order: nothing
    /// without a subscription, and otherwise every successfully translated
    /// event, with failed translations skipped.
    pub fn pump_notifications(&self, ns: &Vec<Notification>) -> (out: Vec<HotplugEvent>)
        ensures
            events_view(out@) == observed_events(self@, notifications_view(ns@)),
    {
        let ghost ns_v = notifications_view(ns@);
        let mut out: Vec<HotplugEvent> = Vec::new();
        if !(match self.phase {
            Phase::Running | Phase::Unregistering => true,
            _ => false,
        }) {
            proof {
                assert(events_view(out@) =~= Seq::<HotplugEventView>::empty());
            }
            return out;
        }
        proof {
            assert(ns_v.take(0) =~= Seq::<NotificationView>::empty());
            assert(events_view(out@) =~= Seq::<HotplugEventView>::empty());
        }
        let mut i: usize = 0;
        while i < ns.len()
            invariant
                i <= ns.len(),
                subscribed(self@),
                ns_v == notifications_view(ns@),
                ns_v.len() == ns@.len(),
                events_view(out@) == translated_events(ns_v.take(i as int)),
            decreases ns.len() - i,
        {
            proof {
                assert(ns_v[i as int] == ns@[i as int]@);
                assert(ns_v.take(i + 1).drop_last() =~= ns_v.take(i as int));
                assert(ns_v.take(i + 1).last() == ns_v[i as int]);
            }
            match self.handle_notification(&ns[i]) {
                Some(Ok(ev)) => {
                    let ghost pre = events_view(out@);
                    let ghost ev_v = ev@;
                    out.push(ev);
                    proof {
                        assert(events_view(out@) =~= pre.push(ev_v));
                    }
                },
                _ => {},
            }
            i = i + 1;
        }
        proof {
            assert(ns_v.take(ns_v.len() as int) =~= ns_v);
        }
        out
    }
}

/// Stopping is idempotent: a second stop changes the phase no further and,
/// like the first, is never an error; and after a stop, one watchdog poll
/// finishes the teardown, so a second poll can never request a duplicate
/// unregister.
pub proof fn lemma_stop_idempotent(p: Phase)
    ensures
        stop_spec(stop_spec(p)) == stop_spec(p),
        !watchdog_spec(watchdog_spec(stop_spec(p)).0).1,
{
}

/// Ordering: a subscribed session shows the consumer, for a script of
/// translatable notifications, exactly one event per notification, in the
/// driver's order; an arrival carries the full record read from the driver's
/// report, a removal only the cached identifying fields.
pub proof fn lemma_ordering(p: Phase, ns: Seq<NotificationView>)
    requires
        subscribed(p),
        forall|i: int| 0 <= i < ns.len() ==> #[trigger] translate_spec(ns[i]) is Ok,
    ensures
        observed_events(p, ns).len() == ns.len(),
        forall|i: int|
            0 <= i < ns.len() ==> #[trigger] observed_events(p, ns)[i] == translate_spec(
                ns[i],
            )->Ok_0,
        forall|i: int|
            0 <= i < ns.len() && ns[i] is Arrived ==> #[trigger] observed_events(p, ns)[i]
                == HotplugEventView::Arrived(read_device_spec(ns[i]->Arrived_0)->Ok_0),
        forall|i: int|
            0 <= i < ns.len() && ns[i] is Left ==> #[trigger] observed_events(p, ns)[i]
                == HotplugEventView::Left(
                DeviceIdentity {
                    vendor_id: ns[i]->Left_0.vendor_id,
                    product_id: ns[i]->Left_0.product_id,
                },
            ),
    decreases ns.len(),
{
    if ns.len() == 0 {
    } else {
        assert forall|i: int| 0 <= i < ns.drop_last().len() implies #[trigger] translate_spec(
            ns.drop_last()[i],
        ) is Ok by {
            assert(ns.drop_last()[i] == ns[i]);
        }
        lemma_ordering(p, ns.drop_last());
        assert forall|i: int| 0 <= i < ns.len() implies #[trigger] observed_events(p, ns)[i]
            == translate_spec(ns[i])->Ok_0 by {
            if i < ns.len() - 1 {
                assert(observed_events(p, ns.drop_last())[i] == translate_spec(
                    ns.drop_last()[i],
                )->Ok_0);
                assert(ns.drop_last()[i] == ns[i]);
            }
        }
    }
}

/// Degrade gracefully: on a platform that cannot observe hotplug events, a
/// start is accepted as a no-op session, and that session shows the consumer
/// zero events, whatever notifications the driver would have produced.
pub proof fn lemma_degrade_gracefully(p: Phase, ns: Seq<NotificationView>)
    requires
        !session_active(p),
    ensures
        start_requested_spec(p, false).1 == Ok::<StartStep, DeviceError>(StartStep::NoOpStarted),
        observed_events(start_requested_spec(p, false).0, ns) == Seq::<HotplugEventView>::empty(),
{
}

/// Translates one raw driver notification: a full record for an arrival, the
/// cached identifying fields alone for a removal, and the read error for an
/// arrival whose device cannot be read.
pub fn translate_notification(n: &Notification) -> (r: Result<HotplugEvent, DeviceError>)
    ensures
        translate_result_view(r) == translate_spec(n@),
{
    match n {
        Notification::Arrived(raw) => match read_device(raw) {
            Ok(d) => Ok(HotplugEvent::Arrived(d)),
            Err(e) => Err(e),
        },
        Notification::Left(raw) => Ok(HotplugEvent::Left(identity_of(raw))),
    }
}

} // verus!
