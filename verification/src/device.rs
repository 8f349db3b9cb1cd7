//! Choosing the device to connect to among those that usbmuxd lists.
use vstd::prelude::*;

verus! {

/// Why no device could be chosen.
#[derive(Clone, Copy, Debug, PartialEq, Eq)]
pub enum DeviceSelectError {
    /// usbmuxd lists no device at all.
    NoDevices,
    /// No listed device has the requested UDID.
    UdidNotFound,
}

impl DeviceSelectError {
    /// The message shown to the user for this error.
    pub fn message(&self) -> (r: &'static str)
        ensures
            r@ == (match self {
                DeviceSelectError::NoDevices => "No devices connected!"@,
                DeviceSelectError::UdidNotFound => "Device with specified UDID not found"@,
            }),
    {
        match self {
            DeviceSelectError::NoDevices => "No devices connected!",
            DeviceSelectError::UdidNotFound => "Device with specified UDID not found",
        }
    }
}

/// How to reach the device.
#[derive(Clone, Copy, Debug, PartialEq, Eq)]
pub enum DeviceRoute {
    /// Through usbmuxd, choosing among its devices with `select_device`.
    Usbmuxd,
    /// Over the network, at the given host address, with the given pairing file.
    Network,
}

/// The route to the device for the given command-line choices: a UDID names
/// a usbmuxd device and takes precedence; otherwise a host (the device's IP
/// address) together with a pairing file is reached over the network; in
/// every other case (a host alone included) the first usbmuxd device is used.
pub open spec fn device_route(udid_given: bool, host_given: bool, pairing_file_given: bool) -> DeviceRoute {
    if !udid_given && host_given && pairing_file_given {
        DeviceRoute::Network
    } else {
        DeviceRoute::Usbmuxd
    }
}

/// Law: the network is used only when no UDID is given and both a host and a
/// pairing file are; a given UDID, a missing host or a missing pairing file
/// always means usbmuxd.
pub proof fn lemma_device_route_cases(udid_given: bool, host_given: bool, pairing_file_given: bool)
    ensures
        device_route(udid_given, host_given, pairing_file_given) == DeviceRoute::Network <==> (!udid_given
            && host_given && pairing_file_given),
        udid_given ==> device_route(udid_given, host_given, pairing_file_given) == DeviceRoute::Usbmuxd,
        !host_given ==> device_route(udid_given, host_given, pairing_file_given) == DeviceRoute::Usbmuxd,
        !pairing_file_given ==> device_route(udid_given, host_given, pairing_file_given)
            == DeviceRoute::Usbmuxd,
{
}

/// Chooses how to reach the device from the command-line choices.
pub fn choose_route(udid: Option<&String>, host: Option<&String>, pairing_file: Option<&String>) -> (r:
    DeviceRoute)
    ensures
        r == device_route(udid is Some, host is Some, pairing_file is Some),
        r == DeviceRoute::Network <==> (udid is None && host is Some && pairing_file is Some),
        r == DeviceRoute::Usbmuxd <==> (udid is Some || host is None || pairing_file is None),
{
    if udid.is_none() && host.is_some() && pairing_file.is_some() {
        DeviceRoute::Network
    } else {
        DeviceRoute::Usbmuxd
    }
}

/// Whether some listed UDID equals `wanted`.
pub open spec fn udid_listed(udids: Seq<String>, wanted: Seq<char>) -> bool {
    exists|i: int| 0 <= i < udids.len() && (#[trigger] udids[i])@ == wanted
}

/// Picks the device to use among those with the listed UDIDs, returning its
/// index: the first device whose UDID is `wanted` when one is requested,
/// else the first device.
pub fn select_device(udids: &Vec<String>, wanted: Option<&String>) -> (r: Result<usize, DeviceSelectError>)
    ensures
        udids@.len() == 0 ==> r == Err::<usize, DeviceSelectError>(DeviceSelectError::NoDevices),
        udids@.len() > 0 && wanted is None ==> r == Ok::<usize, DeviceSelectError>(0),
        udids@.len() > 0 && wanted is Some ==> {
            let w = wanted->0@;
            &&& r is Err <==> !udid_listed(udids@, w)
            &&& r is Err ==> r == Err::<usize, DeviceSelectError>(DeviceSelectError::UdidNotFound)
            &&& r matches Ok(i) ==> i < udids@.len() && udids@[i as int]@ == w && forall|j: int|
                0 <= j < i ==> (#[trigger] udids@[j])@ != w
        },
{
    if udids.len() == 0 {
        return Err(DeviceSelectError::NoDevices);
    }
    match wanted {
        None => Ok(0),
        Some(target) => {
            let n = udids.len();
            let mut i: usize = 0;
            while i < n
                invariant
                    n == udids@.len(),
                    n > 0,
                    wanted == Some(target),
                    i <= n,
                    forall|j: int| 0 <= j < i ==> (#[trigger] udids@[j])@ != target@,
                decreases n - i,
            {
                if udids[i] == *target {
                    assert(udids@[i as int]@ == target@);
                    assert(udid_listed(udids@, target@));
                    return Ok(i);
                }
                i = i + 1;
            }
            assert(!udid_listed(udids@, target@));
            Err(DeviceSelectError::UdidNotFound)
        },
    }
}

} // verus!
