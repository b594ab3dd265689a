//! Device detection and hotplug diffing.
//!
//! A scan classifies raw USB enumeration records: keep Focusrite devices
//! with a known product id, skip the rest. The detector keeps the previous
//! snapshot and diffs each new scan against it by path token, emitting one
//! Connected event per newly seen token and one Disconnected event per
//! vanished token — all connects first, then all disconnects. A failed scan
//! skips the tick and keeps the previous snapshot, so a transient
//! enumeration failure never spuriously emits disconnect events.

use vstd::prelude::*;
use vstd::string::StringExecFns;

use crate::FOCUSRITE_VENDOR_ID;
use crate::device::{DeviceInfo, DeviceModel};
use crate::error::Error;

verus! {

/// Hotplug event.
#[derive(Debug, PartialEq, Eq)]
pub enum HotplugEvent {
    /// A device appeared, with its classification.
    Connected(DeviceInfo),
    /// The device with this USB path vanished.
    Disconnected(String),
}

/// One raw USB enumeration record, as the platform USB stack reports it:
/// vendor and product id, the serial number if readable, and a stable
/// bus/address-derived path.
#[derive(Debug)]
pub struct RawUsbDevice {
    pub vendor_id: u16,
    pub product_id: u16,
    pub serial_number: Option<String>,
    pub usb_path: String,
}

/// Whether a scan keeps a raw record: the Focusrite vendor id and a
/// product id the identity table knows.
pub open spec fn spec_keeps(raw: RawUsbDevice) -> bool {
    raw.vendor_id == FOCUSRITE_VENDOR_ID && DeviceModel::spec_from_product_id(
        raw.product_id,
    ) is Some
}

/// How a kept raw record classifies into a device record: the model from
/// the identity table, the serial number or "Unknown" when unreadable, no
/// firmware version, and the USB path carried over.
pub open spec fn spec_classified(raw: RawUsbDevice, d: DeviceInfo) -> bool {
    &&& Some(d.model) == DeviceModel::spec_from_product_id(raw.product_id)
    &&& d.serial_number@ == (match raw.serial_number {
        Some(s) => s@,
        None => "Unknown"@,
    })
    &&& d.firmware_version is None
    &&& d.usb_path == raw.usb_path
}

/// The scan relation: the output lists exactly the classifications of the
/// kept raw records, in enumeration order.
pub open spec fn spec_scan(raw: Seq<RawUsbDevice>, out: Seq<DeviceInfo>) -> bool
    decreases raw.len(),
{
    if raw.len() == 0 {
        out.len() == 0
    } else if spec_keeps(raw.last()) {
        &&& out.len() > 0
        &&& spec_classified(raw.last(), out.last())
        &&& spec_scan(raw.drop_last(), out.drop_last())
    } else {
        spec_scan(raw.drop_last(), out)
    }
}

/// Whether a snapshot holds a device with the given path token.
pub open spec fn spec_has_token(s: Seq<DeviceInfo>, tok: Seq<char>) -> bool {
    exists|i: int| 0 <= i < s.len() && s[i].usb_path@ == tok
}

/// Connect events of a snapshot diff: one per device of the new snapshot
/// whose token the old snapshot does not hold, in snapshot order.
pub open spec fn spec_connect_events(prev: Seq<DeviceInfo>, next: Seq<DeviceInfo>) -> Seq<
    HotplugEvent,
>
    decreases next.len(),
{
    if next.len() == 0 {
        Seq::empty()
    } else {
        spec_connect_events(prev, next.drop_last()) + (if !spec_has_token(
            prev,
            next.last().usb_path@,
        ) {
            seq![HotplugEvent::Connected(next.last())]
        } else {
            Seq::empty()
        })
    }
}

/// Disconnect events of a snapshot diff: one per token of the old snapshot
/// that the new snapshot does not hold, in snapshot order.
pub open spec fn spec_disconnect_events(prev: Seq<DeviceInfo>, next: Seq<DeviceInfo>) -> Seq<
    HotplugEvent,
>
    decreases prev.len(),
{
    if prev.len() == 0 {
        Seq::empty()
    } else {
        spec_disconnect_events(prev.drop_last(), next) + (if !spec_has_token(
            next,
            prev.last().usb_path@,
        ) {
            seq![HotplugEvent::Disconnected(prev.last().usb_path)]
        } else {
            Seq::empty()
        })
    }
}

/// Whether a snapshot holds a device with the given path token.
fn contains_token(list: &Vec<DeviceInfo>, tok: &String) -> (r: bool)
    ensures
        r == spec_has_token(list@, tok@),
{
    let mut i: usize = 0;
    while i < list.len()
        invariant
            0 <= i <= list@.len(),
            forall|j: int| 0 <= j < i ==> list@[j].usb_path@ != tok@,
        decreases list@.len() - i,
    {
        if list[i].usb_path == *tok {
            return true;
        }
        i = i + 1;
    }
    false
}

/// Diff two snapshots by path token: first one Connected event per device
/// of the new snapshot whose token is newly seen, then one Disconnected
/// event per token that vanished.
pub fn diff_snapshots(prev: &Vec<DeviceInfo>, next: &Vec<DeviceInfo>) -> (events: Vec<HotplugEvent>)
    ensures
        events@ == spec_connect_events(prev@, next@) + spec_disconnect_events(prev@, next@),
{
    let mut events: Vec<HotplugEvent> = Vec::new();

    let mut i: usize = 0;
    while i < next.len()
        invariant
            0 <= i <= next@.len(),
            events@ == spec_connect_events(prev@, next@.subrange(0, i as int)),
        decreases next@.len() - i,
    {
        proof {
            assert(next@.subrange(0, i + 1 as int).drop_last() =~= next@.subrange(0, i as int));
            assert(next@.subrange(0, i + 1 as int).last() == next@[i as int]);
        }
        if !contains_token(prev, &next[i].usb_path) {
            events.push(HotplugEvent::Connected(next[i].clone()));
        }
        i = i + 1;
        proof {
            assert(events@ =~= spec_connect_events(prev@, next@.subrange(0, i as int)));
        }
    }
    proof {
        assert(next@.subrange(0, next@.len() as int) =~= next@);
    }

    let mut k: usize = 0;
    while k < prev.len()
        invariant
            0 <= k <= prev@.len(),
            events@ == spec_connect_events(prev@, next@) + spec_disconnect_events(
                prev@.subrange(0, k as int),
                next@,
            ),
        decreases prev@.len() - k,
    {
        proof {
            assert(prev@.subrange(0, k + 1 as int).drop_last() =~= prev@.subrange(0, k as int));
            assert(prev@.subrange(0, k + 1 as int).last() == prev@[k as int]);
        }
        if !contains_token(next, &prev[k].usb_path) {
            events.push(HotplugEvent::Disconnected(prev[k].usb_path.clone()));
        }
        k = k + 1;
        proof {
            assert(events@ =~= spec_connect_events(prev@, next@) + spec_disconnect_events(
                prev@.subrange(0, k as int),
                next@,
            ));
        }
    }
    proof {
        assert(prev@.subrange(0, prev@.len() as int) =~= prev@);
    }

    events
}

/// An element is in a concatenation exactly when it is in one of the parts.
proof fn lemma_contains_concat<A>(a: Seq<A>, b: Seq<A>, e: A)
    ensures
        (a + b).contains(e) <==> a.contains(e) || b.contains(e),
{
    if (a + b).contains(e) {
        let i = choose|i: int| 0 <= i < (a + b).len() && (a + b)[i] == e;
        if i < a.len() {
            assert(a[i] == e);
        } else {
            assert(b[i - a.len()] == e);
        }
    }
    if a.contains(e) {
        let i = choose|i: int| 0 <= i < a.len() && a[i] == e;
        assert((a + b)[i] == e);
    }
    if b.contains(e) {
        let i = choose|i: int| 0 <= i < b.len() && b[i] == e;
        assert((a + b)[a.len() + i] == e);
    }
}

/// The connect-event list holds exactly the Connected events of the
/// new-snapshot devices whose token the old snapshot does not hold.
proof fn lemma_connect_events_membership(
    prev: Seq<DeviceInfo>,
    next: Seq<DeviceInfo>,
    e: HotplugEvent,
)
    ensures
        spec_connect_events(prev, next).contains(e) <==> exists|i: int|
            0 <= i < next.len() && e == HotplugEvent::Connected(next[i]) && !spec_has_token(
                prev,
                next[i].usb_path@,
            ),
    decreases next.len(),
{
    if next.len() == 0 {
    } else {
        lemma_connect_events_membership(prev, next.drop_last(), e);
        let head = spec_connect_events(prev, next.drop_last());
        let tail: Seq<HotplugEvent> = if !spec_has_token(prev, next.last().usb_path@) {
            seq![HotplugEvent::Connected(next.last())]
        } else {
            Seq::empty()
        };
        lemma_contains_concat(head, tail, e);
        assert(forall|i: int| 0 <= i < next.len() - 1 ==> next.drop_last()[i] == next[i]);
        if tail.contains(e) {
            assert(e == HotplugEvent::Connected(next[next.len() - 1]) && !spec_has_token(
                prev,
                next[next.len() - 1].usb_path@,
            ));
        }
        if exists|i: int|
            0 <= i < next.len() && e == HotplugEvent::Connected(next[i]) && !spec_has_token(
                prev,
                next[i].usb_path@,
            ) {
            let i = choose|i: int|
                0 <= i < next.len() && e == HotplugEvent::Connected(next[i]) && !spec_has_token(
                    prev,
                    next[i].usb_path@,
                );
            if i < next.len() - 1 {
                assert(e == HotplugEvent::Connected(next.drop_last()[i]) && !spec_has_token(
                    prev,
                    next.drop_last()[i].usb_path@,
                ));
            } else {
                assert(tail[0] == e);
            }
        }
    }
}

/// The disconnect-event list holds exactly the Disconnected events of the
/// old-snapshot tokens that the new snapshot does not hold.
proof fn lemma_disconnect_events_membership(
    prev: Seq<DeviceInfo>,
    next: Seq<DeviceInfo>,
    e: HotplugEvent,
)
    ensures
        spec_disconnect_events(prev, next).contains(e) <==> exists|k: int|
            0 <= k < prev.len() && e == HotplugEvent::Disconnected(prev[k].usb_path)
                && !spec_has_token(next, prev[k].usb_path@),
    decreases prev.len(),
{
    if prev.len() == 0 {
    } else {
        lemma_disconnect_events_membership(prev.drop_last(), next, e);
        let head = spec_disconnect_events(prev.drop_last(), next);
        let tail: Seq<HotplugEvent> = if !spec_has_token(next, prev.last().usb_path@) {
            seq![HotplugEvent::Disconnected(prev.last().usb_path)]
        } else {
            Seq::empty()
        };
        lemma_contains_concat(head, tail, e);
        assert(forall|k: int| 0 <= k < prev.len() - 1 ==> prev.drop_last()[k] == prev[k]);
        if tail.contains(e) {
            assert(e == HotplugEvent::Disconnected(prev[prev.len() - 1].usb_path)
                && !spec_has_token(next, prev[prev.len() - 1].usb_path@));
        }
        if exists|k: int|
            0 <= k < prev.len() && e == HotplugEvent::Disconnected(prev[k].usb_path)
                && !spec_has_token(next, prev[k].usb_path@) {
            let k = choose|k: int|
                0 <= k < prev.len() && e == HotplugEvent::Disconnected(prev[k].usb_path)
                    && !spec_has_token(next, prev[k].usb_path@);
            if k < prev.len() - 1 {
                assert(e == HotplugEvent::Disconnected(prev.drop_last()[k].usb_path)
                    && !spec_has_token(next, prev.drop_last()[k].usb_path@));
            } else {
                assert(tail[0] == e);
            }
        }
    }
}

/// No Connected event repeats when the new snapshot's tokens are distinct.
proof fn lemma_connect_events_distinct(prev: Seq<DeviceInfo>, next: Seq<DeviceInfo>)
    requires
        forall|i: int, j: int|
            0 <= i < j < next.len() ==> next[i].usb_path@ != next[j].usb_path@,
    ensures
        forall|i: int, j: int|
            0 <= i < j < spec_connect_events(prev, next).len() ==> spec_connect_events(prev, next)[i]
                != spec_connect_events(prev, next)[j],
    decreases next.len(),
{
    if next.len() == 0 {
    } else {
        lemma_connect_events_distinct(prev, next.drop_last());
        let head = spec_connect_events(prev, next.drop_last());
        let tail: Seq<HotplugEvent> = if !spec_has_token(prev, next.last().usb_path@) {
            seq![HotplugEvent::Connected(next.last())]
        } else {
            Seq::empty()
        };
        let events = spec_connect_events(prev, next);
        assert(events == head + tail);
        assert(forall|i: int| 0 <= i < next.len() - 1 ==> next.drop_last()[i] == next[i]);
        if tail.len() > 0 {
            // The last device's event cannot already stand in the head: its
            // token differs from every earlier device's token.
            assert(!head.contains(tail[0])) by {
                lemma_connect_events_membership(prev, next.drop_last(), tail[0]);
                if head.contains(tail[0]) {
                    let i = choose|i: int|
                        0 <= i < next.drop_last().len() && tail[0] == HotplugEvent::Connected(
                            next.drop_last()[i],
                        ) && !spec_has_token(prev, next.drop_last()[i].usb_path@);
                    assert(next[i] == next.last());
                    assert(next[i].usb_path@ != next[next.len() - 1].usb_path@);
                }
            }
        }
        assert forall|i: int, j: int| 0 <= i < j < events.len() implies events[i] != events[j] by {
            if j < head.len() {
                assert(head[i] != head[j]);
            } else {
                assert(events[j] == tail[0]);
                assert(events[i] == head[i]);
                assert(head.contains(head[i]));
            }
        }
    }
}

/// No Disconnected event repeats when the old snapshot's tokens are distinct.
proof fn lemma_disconnect_events_distinct(prev: Seq<DeviceInfo>, next: Seq<DeviceInfo>)
    requires
        forall|i: int, j: int|
            0 <= i < j < prev.len() ==> prev[i].usb_path@ != prev[j].usb_path@,
    ensures
        forall|i: int, j: int|
            0 <= i < j < spec_disconnect_events(prev, next).len() ==> spec_disconnect_events(
                prev,
                next,
            )[i] != spec_disconnect_events(prev, next)[j],
    decreases prev.len(),
{
    if prev.len() == 0 {
    } else {
        lemma_disconnect_events_distinct(prev.drop_last(), next);
        let head = spec_disconnect_events(prev.drop_last(), next);
        let tail: Seq<HotplugEvent> = if !spec_has_token(next, prev.last().usb_path@) {
            seq![HotplugEvent::Disconnected(prev.last().usb_path)]
        } else {
            Seq::empty()
        };
        let events = spec_disconnect_events(prev, next);
        assert(events == head + tail);
        assert(forall|k: int| 0 <= k < prev.len() - 1 ==> prev.drop_last()[k] == prev[k]);
        if tail.len() > 0 {
            assert(!head.contains(tail[0])) by {
                lemma_disconnect_events_membership(prev.drop_last(), next, tail[0]);
                if head.contains(tail[0]) {
                    let k = choose|k: int|
                        0 <= k < prev.drop_last().len() && tail[0] == HotplugEvent::Disconnected(
                            prev.drop_last()[k].usb_path,
                        ) && !spec_has_token(next, prev.drop_last()[k].usb_path@);
                    assert(prev[k].usb_path == prev.last().usb_path);
                    assert(prev[k].usb_path@ != prev[prev.len() - 1].usb_path@);
                }
            }
        }
        assert forall|i: int, j: int| 0 <= i < j < events.len() implies events[i] != events[j] by {
            if j < head.len() {
                assert(head[i] != head[j]);
            } else {
                assert(events[j] == tail[0]);
                assert(events[i] == head[i]);
                assert(head.contains(head[i]));
            }
        }
    }
}

/// Law: a snapshot diff emits exactly the right events, with none missing
/// and none repeated. For any two snapshots keyed by path token (tokens
/// distinct within each), the emitted event list contains Connected(d)
/// exactly for the devices d of the new snapshot whose token the old
/// snapshot does not hold, contains Disconnected(p) exactly for the paths p
/// of the old snapshot whose token the new snapshot does not hold, and no
/// event occurs twice.
pub proof fn lemma_diff_events_exact(prev: Seq<DeviceInfo>, next: Seq<DeviceInfo>)
    requires
        forall|i: int, j: int|
            0 <= i < j < prev.len() ==> prev[i].usb_path@ != prev[j].usb_path@,
        forall|i: int, j: int|
            0 <= i < j < next.len() ==> next[i].usb_path@ != next[j].usb_path@,
    ensures
        ({
            let events = spec_connect_events(prev, next) + spec_disconnect_events(prev, next);
            &&& (forall|e: HotplugEvent| #[trigger]
                events.contains(e) <==> ((exists|i: int|
                    0 <= i < next.len() && e == HotplugEvent::Connected(next[i])
                        && !spec_has_token(prev, next[i].usb_path@)) || (exists|k: int|
                    0 <= k < prev.len() && e == HotplugEvent::Disconnected(prev[k].usb_path)
                        && !spec_has_token(next, prev[k].usb_path@))))
            &&& (forall|i: int, j: int| 0 <= i < j < events.len() ==> events[i] != events[j])
        }),
{
    let connects = spec_connect_events(prev, next);
    let disconnects = spec_disconnect_events(prev, next);
    let events = connects + disconnects;

    assert forall|e: HotplugEvent| #[trigger]
        events.contains(e) <==> ((exists|i: int|
            0 <= i < next.len() && e == HotplugEvent::Connected(next[i]) && !spec_has_token(
                prev,
                next[i].usb_path@,
            )) || (exists|k: int|
            0 <= k < prev.len() && e == HotplugEvent::Disconnected(prev[k].usb_path)
                && !spec_has_token(next, prev[k].usb_path@))) by {
        lemma_contains_concat(connects, disconnects, e);
        lemma_connect_events_membership(prev, next, e);
        lemma_disconnect_events_membership(prev, next, e);
    }

    lemma_connect_events_distinct(prev, next);
    lemma_disconnect_events_distinct(prev, next);

    assert forall|i: int, j: int| 0 <= i < j < events.len() implies events[i] != events[j] by {
        if j < connects.len() {
            assert(connects[i] != connects[j]);
        } else if i >= connects.len() {
            assert(disconnects[i - connects.len()] != disconnects[j - connects.len()]);
        } else {
            // A Connected event never equals a Disconnected event.
            assert(connects.contains(connects[i]));
            assert(disconnects.contains(disconnects[j - connects.len()]));
            lemma_connect_events_membership(prev, next, connects[i]);
            lemma_disconnect_events_membership(prev, next, disconnects[j - connects.len()]);
        }
    }
}

/// Device detector: owns the snapshot of the last successful scan.
pub struct DeviceDetector {
    /// Devices seen by the last successful scan.
    pub current_devices: Vec<DeviceInfo>,
}

impl DeviceDetector {
    /// Create a detector with an empty snapshot.
    pub fn new() -> (r: Self)
        ensures
            r.current_devices@.len() == 0,
    {
        DeviceDetector { current_devices: Vec::new() }
    }

    /// Classify the raw records of one enumeration pass: keep devices with
    /// the Focusrite vendor id whose product id the identity table knows,
    /// resolve each to its model, and skip the rest (an unrecognized
    /// Focusrite device is skipped, not an error).
    pub fn scan_devices(&self, raw: &Vec<RawUsbDevice>) -> (r: Vec<DeviceInfo>)
        ensures
            spec_scan(raw@, r@),
    {
        let mut devices: Vec<DeviceInfo> = Vec::new();
        let mut i: usize = 0;
        while i < raw.len()
            invariant
                0 <= i <= raw@.len(),
                spec_scan(raw@.subrange(0, i as int), devices@),
            decreases raw@.len() - i,
        {
            proof {
                assert(raw@.subrange(0, i + 1 as int).drop_last() =~= raw@.subrange(0, i as int));
                assert(raw@.subrange(0, i + 1 as int).last() == raw@[i as int]);
            }
            let ghost devices_before = devices@;
            if raw[i].vendor_id == FOCUSRITE_VENDOR_ID {
                match DeviceModel::from_product_id(raw[i].product_id) {
                    Some(model) => {
                        let serial: String = match &raw[i].serial_number {
                            Some(s) => s.clone(),
                            None => String::from_str("Unknown"),
                        };
                        let usb_path = raw[i].usb_path.clone();
                        devices.push(DeviceInfo::new(model, serial, usb_path));
                        proof {
                            assert(spec_keeps(raw@[i as int]));
                            assert(devices@.drop_last() =~= devices_before);
                            assert(spec_classified(raw@[i as int], devices@.last()));
                        }
                    },
                    None => {
                        // An unrecognized Focusrite product id: skip it.
                        proof {
                            assert(!spec_keeps(raw@[i as int]));
                        }
                    },
                }
            } else {
                proof {
                    assert(!spec_keeps(raw@[i as int]));
                }
            }
            i = i + 1;
        }
        proof {
            assert(raw@.subrange(0, raw@.len() as int) =~= raw@);
        }
        devices
    }

    /// One tick of the monitor loop, fed the outcome of a scan.
    ///
    /// On a successful scan, the new snapshot replaces the old one and the
    /// diff events are returned: all connects, then all disconnects. On a
    /// failed scan the tick is skipped: no events, and the previous
    /// snapshot is retained, never cleared.
    pub fn tick(&mut self, scan: Result<Vec<DeviceInfo>, Error>) -> (events: Vec<HotplugEvent>)
        ensures
            scan matches Ok(devs) ==> events@ == spec_connect_events(
                old(self).current_devices@,
                devs@,
            ) + spec_disconnect_events(old(self).current_devices@, devs@)
                && final(self).current_devices == devs,
            scan is Err ==> events@.len() == 0 && *final(self) == *old(self),
    {
        match scan {
            Ok(devs) => {
                let events = diff_snapshots(&self.current_devices, &devs);
                self.current_devices = devs;
                events
            },
            Err(_) => Vec::new(),
        }
    }
}

} // verus!
