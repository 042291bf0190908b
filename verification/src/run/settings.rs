//! What is set for the devices of every machine, whatever its configuration says.

use vstd::prelude::*;

use crate::virtio::vsock::Vsock;

verus! {

/// The kinds of serial ports.
#[derive(Clone, Copy, Debug, PartialEq, Eq, Structural)]
pub enum SerialHardware {
    /// A port as a machine has it.
    Serial,
    /// Anything else that serves as one.
    Other,
}

/// A serial port of the machine.
#[derive(Clone, Copy, Debug, PartialEq, Eq, Structural)]
pub struct SerialPort {
    pub hardware: SerialHardware,
    /// Its number among those of its kind.
    pub num: u8,
    /// Whether the guest prints to it before its drivers run.
    pub earlycon: bool,
}

/// The number of the port that the guest prints to before its drivers run.
pub const EARLYCON_PORT: u8 = 1;

/// A port with early output turned on if it is the first one of a machine.
pub open spec fn with_earlycon(port: SerialPort) -> SerialPort {
    if port.hardware is Serial && port.num == EARLYCON_PORT {
        SerialPort { earlycon: true, ..port }
    } else {
        port
    }
}

/// Turns on early output on the first port, if there is one. The other ports stay
/// as they are.
pub fn enable_earlycon(ports: &mut Vec<SerialPort>)
    ensures
        final(ports)@ == old(ports)@.map_values(|port: SerialPort| with_earlycon(port)),
{
    let ghost all = ports@;
    let mut i: usize = 0;
    while i < ports.len()
        invariant
            i <= ports@.len(),
            ports@.len() == all.len(),
            forall|j: int| 0 <= j < i ==> #[trigger] ports@[j] == with_earlycon(all[j]),
            forall|j: int| i <= j < all.len() ==> #[trigger] ports@[j] == all[j],
        decreases ports.len() - i,
    {
        let port: SerialPort = ports[i];
        if port.hardware == SerialHardware::Serial && port.num == EARLYCON_PORT {
            ports.set(
                i,
                SerialPort { hardware: port.hardware, num: port.num, earlycon: true },
            );
        }
        i += 1;
    }
    assert(ports@ =~= all.map_values(|port: SerialPort| with_earlycon(port)));
}

/// The address of the guest on the socket device: the first one that is neither
/// reserved nor the host's.
pub const GUEST_CID: u64 = 3;

/// The socket device of a machine.
pub open spec fn guest_device(base_features: u64) -> Vsock {
    Vsock { guest_cid: GUEST_CID, features: base_features, acked_features: 0 }
}

/// The socket device of a machine.
pub fn guest_vsock(base_features: u64) -> (device: Vsock)
    ensures
        device == guest_device(base_features),
{
    Vsock::new(GUEST_CID, base_features)
}

/// How long the guest may trust what it remembers of a file.
#[derive(Clone, Copy, Debug, PartialEq, Eq, Structural)]
pub enum CachePolicy {
    Never,
    Auto,
    Always,
}

/// The settings of the device that shares a directory with the guest.
#[derive(Debug, PartialEq, Eq)]
pub struct ShareSettings {
    /// The name by which the guest mounts it.
    pub tag: String,
    pub cache_policy: CachePolicy,
    /// The number of its threads.
    pub num_workers: usize,
}

/// The name, the cache policy and the number of threads of the device that shares a
/// directory with the guest.
pub open spec fn share_settings_of() -> (Seq<char>, CachePolicy, usize) {
    ("host_share"@, CachePolicy::Always, 1)
}

/// The settings of the device that shares a directory with the guest.
pub fn share_settings() -> (settings: ShareSettings)
    ensures
        (settings.tag@, settings.cache_policy, settings.num_workers) == share_settings_of(),
{
    ShareSettings {
        tag: "host_share".to_owned(),
        cache_policy: CachePolicy::Always,
        num_workers: 1,
    }
}

/// Early output is turned on for port one of the ports that a machine has itself, for no
/// other port, and off for none; nothing else of a port changes.
pub proof fn law_first_port_has_early_output(port: SerialPort)
    ensures
        with_earlycon(port).earlycon <==> port.earlycon || (port.hardware is Serial && port.num == 1),
        with_earlycon(port).hardware == port.hardware,
        with_earlycon(port).num == port.num,
{
}

/// The guest's address on the socket device is the first one that is not reserved and
/// not the host's; the device offers the base features and the guest took none yet.
pub proof fn law_guest_address(base_features: u64)
    ensures
        guest_device(base_features).guest_cid == crate::virtio::vsock::HOST_CID + 1,
        guest_device(base_features).guest_cid == 3,
        guest_device(base_features) == crate::virtio::vsock::new_vsock(3, base_features),
{
}

} // verus!
