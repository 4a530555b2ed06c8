//! The unified snapshot schema.
use vstd::prelude::*;

verus! {

/// One network interface as the snapshot reports it.
pub struct NetworkAdapterInfo {
    pub name: String,
    pub description: String,
    pub mac_address: String,
    pub status: String,
}

/// The four texts of an adapter: name, description, MAC address, status.
pub type AdapterView = (Seq<char>, Seq<char>, Seq<char>, Seq<char>);

impl View for NetworkAdapterInfo {
    type V = AdapterView;

    open spec fn view(&self) -> AdapterView {
        (self.name@, self.description@, self.mac_address@, self.status@)
    }
}

pub open spec fn adapter_views(v: Seq<NetworkAdapterInfo>) -> Seq<AdapterView> {
    v.map_values(|a: NetworkAdapterInfo| a@)
}

/// A point-in-time snapshot of the host. Every field always holds a value:
/// what could not be collected holds its default.
pub struct DetailedSystemInfo {
    pub os_name: String,
    pub os_version: String,
    pub os_build: String,
    pub os_manufacturer: String,
    pub os_architecture: String,
    pub system_manufacturer: String,
    pub system_model: String,
    pub bios_manufacturer: String,
    pub bios_version: String,
    pub total_memory: u64,
    pub time_zone: String,
    pub hotfixes: Vec<String>,
    pub network_adapters: Vec<NetworkAdapterInfo>,
}

pub open spec fn string_views(v: Seq<String>) -> Seq<Seq<char>> {
    v.map_values(|s: String| s@)
}

/// A payload stamped with the time it was taken.
pub struct ApiResponse<T> {
    pub data: T,
    pub timestamp: u64,
}

/// What a finished external command handed back.
pub struct CommandOutput {
    pub success: bool,
    pub stdout: String,
    pub stderr: String,
}

/// The text of an optional value; nothing reads as empty.
pub open spec fn opt_text(o: Option<String>) -> Seq<char> {
    match o {
        Some(s) => s@,
        None => Seq::empty(),
    }
}

} // verus!
