//! The profiling-utility adapter: one nested JSON document and a zone query.
use vstd::prelude::*;
use crate::json::{decode_json, field, first_item, get_field, get_first, json_decoded, Json};
use crate::linux::{zone_field, zone_value};
use crate::memory::{memory_bytes, parse_memory_string};
use crate::text::join;
use crate::types::{adapter_views, AdapterView, CommandOutput, DetailedSystemInfo, NetworkAdapterInfo};
use crate::windows::ran_ok;

verus! {

/// The string under `key` in the first entry of category `cat`, where there is one.
pub open spec fn leaf(j: Json, cat: Seq<char>, key: Seq<char>) -> Option<Seq<char>> {
    match field(j, cat) {
        Some(c) => match first_item(c) {
            Some(e) => match field(e, key) {
                Some(Json::Str(s)) => Some(s@),
                _ => None,
            },
            None => None,
        },
        None => None,
    }
}

/// Such a leaf, or `"Unknown"` where any step of the way is missing.
pub open spec fn leaf_or_unknown(j: Json, cat: Seq<char>, key: Seq<char>) -> Seq<char> {
    match leaf(j, cat, key) {
        Some(s) => s,
        None => "Unknown"@,
    }
}

fn get_leaf(j: &Json, cat: &str, key: &str) -> (r: Option<String>)
    ensures
        match r {
            Some(s) => leaf(*j, cat@, key@) == Some(s@),
            None => leaf(*j, cat@, key@) is None,
        },
{
    let c = match get_field(j, cat) {
        Some(c) => c,
        None => return None,
    };
    let e = match get_first(c) {
        Some(e) => e,
        None => return None,
    };
    match get_field(e, key) {
        Some(Json::Str(s)) => Some(s.clone()),
        _ => None,
    }
}

fn leaf_text(j: &Json, cat: &str, key: &str) -> (r: String)
    ensures
        r@ == leaf_or_unknown(*j, cat@, key@),
{
    match get_leaf(j, cat, key) {
        Some(s) => s,
        None => "Unknown".to_owned(),
    }
}

/// A string field of an entry, or empty.
pub open spec fn str_or_empty(e: Json, key: Seq<char>) -> Seq<char> {
    match field(e, key) {
        Some(Json::Str(s)) => s@,
        _ => Seq::empty(),
    }
}

fn str_field(e: &Json, key: &str) -> (r: String)
    ensures
        r@ == str_or_empty(*e, key@),
{
    match get_field(e, key) {
        Some(Json::Str(s)) => s.clone(),
        _ => String::new(),
    }
}

/// The adapters of the network category: each entry with a `_name` string,
/// in order. The source reports no link state, so the status is `"Unknown"`.
pub open spec fn profiled_adapters(items: Seq<Json>) -> Seq<AdapterView>
    decreases items.len(),
{
    if items.len() == 0 {
        Seq::empty()
    } else {
        let rest = profiled_adapters(items.drop_last());
        let e = items.last();
        match field(e, "_name"@) {
            Some(Json::Str(name)) => rest.push(
                (name@, str_or_empty(e, "interface"@), str_or_empty(e, "MAC Address"@), "Unknown"@),
            ),
            _ => rest,
        }
    }
}

pub open spec fn network_category(j: Json) -> Seq<AdapterView> {
    match field(j, "SPNetworkDataType"@) {
        Some(Json::Array(a)) => profiled_adapters(a@),
        _ => Seq::empty(),
    }
}

fn profiled_network(j: &Json) -> (r: Vec<NetworkAdapterInfo>)
    ensures
        adapter_views(r@) == network_category(*j),
{
    let mut out: Vec<NetworkAdapterInfo> = Vec::new();
    assert(adapter_views(out@) =~= Seq::<AdapterView>::empty());
    let a = match get_field(j, "SPNetworkDataType") {
        Some(Json::Array(a)) => a,
        _ => return out,
    };
    let mut i: usize = 0;
    while i < a.len()
        invariant
            i <= a@.len(),
            adapter_views(out@) == profiled_adapters(a@.subrange(0, i as int)),
        decreases a@.len() - i,
    {
        assert(a@.subrange(0, i + 1).drop_last() =~= a@.subrange(0, i as int));
        let e = &a[i];
        match get_field(e, "_name") {
            Some(Json::Str(name)) => {
                let ghost before = out@;
                let x = NetworkAdapterInfo {
                    name: name.clone(),
                    description: str_field(e, "interface"),
                    mac_address: str_field(e, "MAC Address"),
                    status: "Unknown".to_owned(),
                };
                out.push(x);
                assert(adapter_views(out@) =~= adapter_views(before).push(x@));
            },
            _ => {},
        }
        i = i + 1;
    }
    assert(a@.subrange(0, a@.len() as int) =~= a@);
    out
}

/// Installed memory in bytes: the `physical_memory` leaf read as a size; 0
/// where it is missing.
pub open spec fn profiled_memory(j: Json) -> u64 {
    match leaf(j, "SPHardwareDataType"@, "physical_memory"@) {
        Some(s) => memory_bytes(s),
        None => 0,
    }
}

/// The profiling utility's document, where it ran, exited successfully and decoded.
pub open spec fn profile_doc(out: Result<CommandOutput, String>) -> Option<Json> {
    match ran_ok(out) {
        Some(s) => json_decoded(s),
        None => None,
    }
}

/// Assembles the snapshot of the profiling-utility adapter. The profile is
/// critical: where it could not run, failed, or did not decode, the request
/// fails with the cause. Each leaf then falls back to `"Unknown"` on its
/// own; the zone comes from `date +%Z` output, `"Unknown"` where that did
/// not run.
pub fn mac_system_info(
    profile: Result<CommandOutput, String>,
    time_zone: Option<String>,
    arch: String,
) -> (r: Result<DetailedSystemInfo, String>)
    ensures
        r is Ok <==> profile_doc(profile) is Some,
        profile is Err ==> r->Err_0@ == "Failed to execute system_profiler: "@ + profile->Err_0@,
        profile is Ok && !profile->Ok_0.success ==> r->Err_0@ == "system_profiler failed: "@
            + profile->Ok_0.stderr@,
        profile is Ok && profile->Ok_0.success && r is Err ==> exists|cause: Seq<char>|
            r->Err_0@ == "Failed to parse JSON: "@ + cause,
        r is Ok ==> {
            let j = profile_doc(profile)->0;
            let i = r->Ok_0;
            &&& i.os_name@ == "macOS"@
            &&& i.os_version@ == leaf_or_unknown(j, "SPSoftwareDataType"@, "os_version"@)
            &&& i.os_build@ == leaf_or_unknown(j, "SPSoftwareDataType"@, "kernel_version"@)
            &&& i.os_manufacturer@ == "Apple Inc."@
            &&& i.os_architecture@ == arch@
            &&& i.system_manufacturer@ == "Apple Inc."@
            &&& i.system_model@ == leaf_or_unknown(j, "SPHardwareDataType"@, "machine_name"@)
                + " ("@ + leaf_or_unknown(j, "SPHardwareDataType"@, "machine_model"@) + ")"@
            &&& i.bios_manufacturer@ == "Apple Inc."@
            &&& i.bios_version@ == leaf_or_unknown(
                j,
                "SPHardwareDataType"@,
                "boot_rom_version"@,
            )
            &&& i.total_memory == profiled_memory(j)
            &&& i.time_zone@ == zone_value(time_zone)
            &&& i.hotfixes@.len() == 0
            &&& adapter_views(i.network_adapters@) == network_category(j)
        },
{
    let out = match profile {
        Err(e) => return Err(join("Failed to execute system_profiler: ".to_owned(), e.as_str())),
        Ok(o) => o,
    };
    if !out.success {
        return Err(join("system_profiler failed: ".to_owned(), out.stderr.as_str()));
    }
    let j = match decode_json(out.stdout.as_str()) {
        Ok(j) => j,
        Err(e) => return Err(join("Failed to parse JSON: ".to_owned(), e.as_str())),
    };
    let total_memory = match get_leaf(&j, "SPHardwareDataType", "physical_memory") {
        Some(s) => parse_memory_string(s.as_str()),
        None => 0,
    };
    let model = join(leaf_text(&j, "SPHardwareDataType", "machine_name"), " (");
    let model = join(model, leaf_text(&j, "SPHardwareDataType", "machine_model").as_str());
    let system_model = join(model, ")");
    Ok(
        DetailedSystemInfo {
            os_name: "macOS".to_owned(),
            os_version: leaf_text(&j, "SPSoftwareDataType", "os_version"),
            os_build: leaf_text(&j, "SPSoftwareDataType", "kernel_version"),
            os_manufacturer: "Apple Inc.".to_owned(),
            os_architecture: arch,
            system_manufacturer: "Apple Inc.".to_owned(),
            system_model,
            bios_manufacturer: "Apple Inc.".to_owned(),
            bios_version: leaf_text(&j, "SPHardwareDataType", "boot_rom_version"),
            total_memory,
            time_zone: zone_field(time_zone),
            hotfixes: Vec::new(),
            network_adapters: profiled_network(&j),
        },
    )
}

} // verus!
