//! The device locator's decisions. The BLE stack reports devices
//! asynchronously and connections are flaky, so discovery is a bounded-retry
//! poll followed by a first-match-wins walk over the observed devices; an
//! outer driver performs the scanning, sleeping and connecting and feeds each
//! observation back here.
use vstd::prelude::*;

verus! {

/// How many times the driver polls the adapter's device list, one second
/// apart, before giving up on an empty neighbourhood.
pub const MAX_POLL_ATTEMPTS: u64 = 5;

/// What the session is looking for: the advertised service, the writable
/// characteristic, and the device's display name, all fixed at startup.
pub struct TargetDescriptor {
    pub service_uuid: Vec<u8>,
    pub characteristic_uuid: Vec<u8>,
    pub device_name: Vec<u8>,
}

/// The discovery-phase failures.
#[derive(Clone, Copy, Debug, PartialEq, Eq, Structural)]
pub enum DiscoveryError {
    /// The scan produced nothing within the retry budget.
    NoDeviceFound,
    /// A matching advertiser existed, but no connection with a successful
    /// service enumeration was reached.
    NoConnectableDeviceFound,
    /// The connected device offers no characteristic with the target UUID.
    CharacteristicNotFound,
}

/// What the driver does after one poll of the device list.
#[derive(Clone, Copy, Debug, PartialEq, Eq, Structural)]
pub enum PollDecision {
    /// Devices are visible: stop polling and examine them.
    DevicesSeen,
    /// Nothing yet and budget remains: sleep one interval, poll again.
    RetryAfterSleep,
    /// Nothing seen over the whole budget: stop polling.
    Exhausted,
}

/// Compares two byte strings.
pub fn bytes_eq(a: &Vec<u8>, b: &Vec<u8>) -> (r: bool)
    ensures
        r == (a@ == b@),
{
    if a.len() != b.len() {
        proof {
            assert(a@ != b@);
        }
        return false;
    }
    let mut i: usize = 0;
    while i < a.len()
        invariant
            i <= a@.len(),
            a@.len() == b@.len(),
            forall|j: int| 0 <= j < i ==> a@[j] == b@[j],
        decreases a@.len() - i,
    {
        if a[i] != b[i] {
            proof {
                assert(a@ != b@);
            }
            return false;
        }
        i = i + 1;
    }
    proof {
        assert(a@ =~= b@);
    }
    true
}

/// Decides the bounded-retry poll: stop as soon as any device is visible,
/// retry after a sleep while attempts remain, and give up after the budget of
/// `MAX_POLL_ATTEMPTS` polls so an empty neighbourhood never blocks for more
/// than about five seconds. `polls_done` counts completed polls, this one
/// included.
pub fn poll_decision(polls_done: u64, device_count: usize) -> (r: PollDecision)
    ensures
        r == (if device_count > 0 {
            PollDecision::DevicesSeen
        } else if polls_done < MAX_POLL_ATTEMPTS {
            PollDecision::RetryAfterSleep
        } else {
            PollDecision::Exhausted
        }),
{
    if device_count > 0 {
        PollDecision::DevicesSeen
    } else if polls_done < MAX_POLL_ATTEMPTS {
        PollDecision::RetryAfterSleep
    } else {
        PollDecision::Exhausted
    }
}

/// Whether one advertised UUID of one device warrants a connection attempt:
/// only when it is the target service and the display name is exactly the
/// target name. A device whose name differs is never connected to, whatever
/// it advertises.
pub fn should_attempt_connect(target: &TargetDescriptor, name: &Vec<u8>, uuid: &Vec<u8>) -> (r:
    bool)
    ensures
        r == (uuid@ == target.service_uuid@ && name@ == target.device_name@),
{
    bytes_eq(uuid, &target.service_uuid) && bytes_eq(name, &target.device_name)
}

/// Whether a discovered device matches the target at all: right name, and the
/// target service among its advertised UUIDs.
pub open spec fn spec_device_matches(
    target_service: Seq<u8>,
    target_name: Seq<u8>,
    name: Seq<u8>,
    uuids: Seq<Seq<u8>>,
) -> bool {
    name == target_name && exists|i: int| 0 <= i < uuids.len() && uuids[i] == target_service
}

/// Whether a discovered device, with its display name and advertised UUIDs,
/// matches the target.
pub fn device_matches(target: &TargetDescriptor, name: &Vec<u8>, uuids: &Vec<Vec<u8>>) -> (r: bool)
    ensures
        r == spec_device_matches(
            target.service_uuid@,
            target.device_name@,
            name@,
            crate::chunk::views_of(uuids@),
        ),
{
    let mut i: usize = 0;
    let mut found: bool = false;
    while i < uuids.len()
        invariant
            i <= uuids@.len(),
            found == exists|j: int|
                0 <= j < i && crate::chunk::views_of(uuids@)[j] == target.service_uuid@,
        decreases uuids@.len() - i,
    {
        proof {
            assert(crate::chunk::views_of(uuids@)[i as int] == uuids@[i as int]@);
        }
        if bytes_eq(&uuids[i], &target.service_uuid) {
            found = true;
        }
        i = i + 1;
    }
    found && bytes_eq(name, &target.device_name)
}

/// What one connection attempt came to. A failed connect, or a service
/// enumeration the stack was not ready to answer, is tolerated: the search
/// simply moves on to the next candidate.
#[derive(Clone, Copy, Debug, PartialEq, Eq, Structural)]
pub enum AttemptOutcome {
    /// Connected and the GATT services could be enumerated: stop searching.
    Connected,
    /// The attempt failed at some step: keep scanning other candidates.
    ContinueSearch,
}

/// Judges one connection attempt: the search ends only when the link came up
/// and the service table answered; anything less keeps the search going.
pub fn attempt_outcome(connected: bool, gatt_ok: bool) -> (r: AttemptOutcome)
    ensures
        r == (if connected && gatt_ok {
            AttemptOutcome::Connected
        } else {
            AttemptOutcome::ContinueSearch
        }),
{
    if connected && gatt_ok {
        AttemptOutcome::Connected
    } else {
        AttemptOutcome::ContinueSearch
    }
}

/// The verdict over the whole discovery phase: success exactly when some
/// candidate was connected; otherwise the error says whether nothing was ever
/// seen or nothing seen could be connected to.
pub fn locate_verdict(saw_any_device: bool, connected: bool) -> (r: Result<(), DiscoveryError>)
    ensures
        r == (if connected {
            Result::<(), DiscoveryError>::Ok(())
        } else if !saw_any_device {
            Result::<(), DiscoveryError>::Err(DiscoveryError::NoDeviceFound)
        } else {
            Result::<(), DiscoveryError>::Err(DiscoveryError::NoConnectableDeviceFound)
        }),
{
    if connected {
        Ok(())
    } else if !saw_any_device {
        Err(DiscoveryError::NoDeviceFound)
    } else {
        Err(DiscoveryError::NoConnectableDeviceFound)
    }
}

/// Finds the first characteristic whose UUID is the target's, over the
/// characteristics of all services in enumeration order. Returns its index;
/// first match wins. A missing characteristic is surfaced here, eagerly,
/// rather than left to fail on the first write.
pub fn find_characteristic(uuids: &Vec<Vec<u8>>, target: &Vec<u8>) -> (r: Option<usize>)
    ensures
        match r {
            Some(i) => {
                &&& i < uuids@.len()
                &&& uuids@[i as int]@ == target@
                &&& forall|j: int| 0 <= j < i ==> (#[trigger] uuids@[j])@ != target@
            },
            None => forall|j: int| 0 <= j < uuids@.len() ==> (#[trigger] uuids@[j])@ != target@,
        },
{
    let mut i: usize = 0;
    while i < uuids.len()
        invariant
            i <= uuids@.len(),
            forall|j: int| 0 <= j < i ==> (#[trigger] uuids@[j])@ != target@,
        decreases uuids@.len() - i,
    {
        if bytes_eq(&uuids[i], target) {
            return Some(i);
        }
        i = i + 1;
    }
    None
}

/// Turns the characteristic search's outcome into the session's terms: a
/// device that lacks the target characteristic is an error of its own, not a
/// write that fails later.
pub fn characteristic_verdict(found: Option<usize>) -> (r: Result<usize, DiscoveryError>)
    ensures
        r == (match found {
            Some(i) => Result::<usize, DiscoveryError>::Ok(i),
            None => Result::<usize, DiscoveryError>::Err(DiscoveryError::CharacteristicNotFound),
        }),
{
    match found {
        Some(i) => Ok(i),
        None => Err(DiscoveryError::CharacteristicNotFound),
    }
}

} // verus!
