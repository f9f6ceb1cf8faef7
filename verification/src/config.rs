//! The runtime's configuration: where it listens, the sandbox root, the heap, and the
//! devices to pass through.
use vstd::prelude::*;

verus! {

/// The whole configuration.
#[derive(Clone, Debug)]
pub struct Config {
    pub hutch: HutchConfig,
    pub sandbox: SandboxConfig,
    pub resources: ResourceConfig,
    pub vfio: VfioConfig,
}

/// Where the runtime listens for clients.
#[derive(Clone, Debug)]
pub struct HutchConfig {
    pub socket_path: String,
}

/// The host directory that hosted programs see as their root.
#[derive(Clone, Debug)]
pub struct SandboxConfig {
    pub root_path: String,
}

/// The heap that `sbrk` hands out.
#[derive(Clone, Copy, Debug)]
pub struct ResourceConfig {
    pub heap_start: usize,
    pub heap_size: usize,
}

/// The devices to pass through.
#[derive(Clone, Debug)]
pub struct VfioConfig {
    pub devices: Vec<VfioDeviceConfig>,
}

/// One device to pass through: its name, its compatible strings, its VFIO group and
/// the device's name in that group.
#[derive(Clone, Debug)]
pub struct VfioDeviceConfig {
    pub name: String,
    pub compatible: Vec<String>,
    pub group_id: u32,
    pub vfio_name: String,
}

impl Default for VfioConfig {
    /// No devices.
    fn default() -> (c: Self)
        ensures
            c.devices@.len() == 0,
    {
        VfioConfig { devices: Vec::new() }
    }
}

/// The default socket path.
pub open spec fn default_socket_path() -> Seq<char> {
    seq!['/', 't', 'm', 'p', '/', 'g', 'l', 'e', 'n', 'd', 'a', '_', 'h', 'u', 't', 'c', 'h', '.', 's', 'o', 'c', 'k']
}

/// The default sandbox root.
pub open spec fn default_root_path() -> Seq<char> {
    seq!['/', 't', 'm', 'p', '/', 'g', 'l', 'e', 'n', 'd', 'a', '_', 'r', 'o', 'o', 't']
}

impl Config {
    /// The configuration used when no file is given: the socket and sandbox under
    /// `/tmp`, a 256 MiB heap at 256 MiB, and no devices.
    pub fn default() -> (c: Self)
        ensures
            c.hutch.socket_path@ == default_socket_path(),
            c.sandbox.root_path@ == default_root_path(),
            c.resources.heap_start == 0x10000000,
            c.resources.heap_size == 0x10000000,
            c.vfio.devices@.len() == 0,
    {
        broadcast use vstd::string::group_string_axioms;

        let socket_path = "/tmp/glenda_hutch.sock".to_string();
        let root_path = "/tmp/glenda_root".to_string();
        proof {
            reveal_strlit("/tmp/glenda_hutch.sock");
            reveal_strlit("/tmp/glenda_root");
            assert(socket_path@ =~= default_socket_path());
            assert(root_path@ =~= default_root_path());
        }
        Config {
            hutch: HutchConfig { socket_path },
            sandbox: SandboxConfig { root_path },
            resources: ResourceConfig { heap_start: 0x10000000, heap_size: 0x10000000 },
            vfio: VfioConfig::default(),
        }
    }
}

} // verus!
