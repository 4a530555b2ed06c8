use host_telemetry::linux::{
    dmi_field, linux_adapters, linux_system_info, parse_meminfo, parse_os_release, InterfaceEntry,
    LinuxSources,
};
use host_telemetry::mac::mac_system_info;
use host_telemetry::memory::parse_memory_string;
use host_telemetry::process::{adapter_for, kill_command, kill_outcome, Platform};
use host_telemetry::text::{decimal_string, trim_str};
use host_telemetry::types::{ApiResponse, CommandOutput};
use host_telemetry::windows::{adapters_from_text, hotfix_ids, hotfixes_from_text, windows_system_info};

fn ran(stdout: &str) -> Result<CommandOutput, String> {
    Ok(CommandOutput { success: true, stdout: stdout.to_string(), stderr: String::new() })
}

fn some(s: &str) -> Option<String> {
    Some(s.to_string())
}

#[test]
fn memory_sizes_in_binary_units() {
    assert_eq!(parse_memory_string("16 GB"), 17179869184);
    assert_eq!(parse_memory_string("512 MB"), 536870912);
    assert_eq!(parse_memory_string("2048 KB"), 2097152);
    assert_eq!(parse_memory_string("0 GB"), 0);
}

#[test]
fn memory_sizes_that_do_not_read() {
    assert_eq!(parse_memory_string("sixteen GB"), 0);
    assert_eq!(parse_memory_string("16 TB"), 0);
    assert_eq!(parse_memory_string("16GB"), 0);
    assert_eq!(parse_memory_string(""), 0);
    assert_eq!(parse_memory_string("99999999999 GB"), 0);
}

#[test]
fn kill_refuses_identifier_zero() {
    assert_eq!(kill_command(0, true).err(), Some("invalid pid".to_string()));
    assert_eq!(kill_command(0, false).err(), Some("invalid pid".to_string()));
}

#[test]
fn kill_commands_per_family() {
    let w = kill_command(4321, true).ok().unwrap();
    assert_eq!(w.program, "taskkill");
    assert_eq!(w.args, vec!["/PID", "4321", "/T", "/F"]);
    let p = kill_command(7, false).ok().unwrap();
    assert_eq!(p.program, "kill");
    assert_eq!(p.args, vec!["-9", "7"]);
}

#[test]
fn kill_outcomes() {
    assert_eq!(kill_outcome(false, Ok((true, String::new()))), Ok(()));
    assert_eq!(
        kill_outcome(false, Ok((false, "exit status: 1".to_string()))),
        Err("kill failed: exit status: 1".to_string())
    );
    assert_eq!(
        kill_outcome(true, Ok((false, "exit code: 128".to_string()))),
        Err("taskkill failed: exit code: 128".to_string())
    );
    assert_eq!(kill_outcome(true, Err("not found".to_string())), Err("not found".to_string()));
}

#[test]
fn decimal_text() {
    assert_eq!(decimal_string(0), "0");
    assert_eq!(decimal_string(4294967295), "4294967295");
}

#[test]
fn unsupported_platform_is_refused() {
    assert_eq!(adapter_for("freebsd").err(), Some("Not implemented for this OS yet".to_string()));
    assert!(adapter_for("linux").ok() == Some(Platform::Linux));
    assert!(adapter_for("macos").ok() == Some(Platform::MacOs));
    assert!(adapter_for("windows").ok() == Some(Platform::Windows));
}

#[test]
fn trims_unicode_whitespace() {
    assert_eq!(trim_str("\u{a0} x y \n"), "x y");
    assert_eq!(trim_str("   "), "");
}

#[test]
fn os_release_fields() {
    let r = parse_os_release(some("NAME=\"Ubuntu\"\nVERSION_ID=\"22.04\"\nPRETTY_NAME=\"Ubuntu 22.04.3 LTS\"\n"));
    assert_eq!(r.name, "Ubuntu 22.04.3 LTS");
    assert_eq!(r.version, "22.04");
    let d = parse_os_release(None);
    assert_eq!(d.name, "Linux");
    assert_eq!(d.version, "Unknown");
    let partial = parse_os_release(some("ID=arch\r\nPRETTY_NAME=Arch Linux\r\n"));
    assert_eq!(partial.name, "Arch Linux");
    assert_eq!(partial.version, "Unknown");
}

#[test]
fn meminfo_total() {
    assert_eq!(parse_meminfo(some("MemTotal:       16318480 kB\nMemFree: 1 kB\n")), 16318480 * 1024);
    assert_eq!(parse_meminfo(some("MemFree: 1 kB\n")), 0);
    assert_eq!(parse_meminfo(some("MemTotal: lots\nMemTotal: 5 kB")), 0);
    assert_eq!(parse_meminfo(None), 0);
}

#[test]
fn dmi_fallbacks() {
    assert_eq!(dmi_field(None), "Unknown");
    assert_eq!(dmi_field(some("  \n")), "Unknown");
    assert_eq!(dmi_field(some("LENOVO\n")), "LENOVO");
}

fn iface(name: &str, mac: Option<&str>, state: Option<&str>) -> InterfaceEntry {
    InterfaceEntry {
        name: name.to_string(),
        address: mac.map(|s| s.to_string()),
        operstate: state.map(|s| s.to_string()),
    }
}

#[test]
fn loopback_is_left_out() {
    let es = vec![
        iface("lo", Some("00:00:00:00:00:00\n"), Some("unknown\n")),
        iface("eth0", Some("aa:bb:cc:dd:ee:ff\n"), Some("up\n")),
        iface("wlan0", None, None),
    ];
    let r = linux_adapters(&es);
    assert_eq!(r.len(), 2);
    assert!(r.iter().all(|a| a.name != "lo"));
    assert_eq!(r[0].name, "eth0");
    assert_eq!(r[0].description, "eth0");
    assert_eq!(r[0].mac_address, "aa:bb:cc:dd:ee:ff");
    assert_eq!(r[0].status, "up");
    assert_eq!(r[1].mac_address, "");
    assert_eq!(r[1].status, "");
}

fn linux_sources(bios_vendor: Option<String>) -> LinuxSources {
    LinuxSources {
        os_release: some("PRETTY_NAME=\"Debian GNU/Linux 12\"\nVERSION_ID=\"12\"\n"),
        kernel: some("6.1.0-18-amd64\n"),
        sys_vendor: some("Dell Inc.\n"),
        product_name: some("XPS 13\n"),
        bios_vendor,
        bios_version: some("1.2.3\n"),
        meminfo: some("MemTotal: 2048 kB\n"),
        time_zone: some("CET\n"),
        interfaces: vec![iface("lo", None, None), iface("eth0", some("11:22").as_deref(), Some("down"))],
        arch: "x86_64".to_string(),
    }
}

#[test]
fn unreadable_bios_vendor_degrades_one_field() {
    let full = linux_system_info(linux_sources(some("Dell Inc.\n")));
    let part = linux_system_info(linux_sources(None));
    assert_eq!(full.bios_manufacturer, "Dell Inc.");
    assert_eq!(part.bios_manufacturer, "Unknown");
    assert_eq!(part.os_name, "Debian GNU/Linux 12");
    assert_eq!(part.os_version, "12");
    assert_eq!(part.os_build, "6.1.0-18-amd64");
    assert_eq!(part.os_manufacturer, "Linux");
    assert_eq!(part.os_architecture, "x86_64");
    assert_eq!(part.system_manufacturer, "Dell Inc.");
    assert_eq!(part.system_model, "XPS 13");
    assert_eq!(part.bios_version, "1.2.3");
    assert_eq!(part.total_memory, 2097152);
    assert_eq!(part.time_zone, "CET");
    assert!(part.hotfixes.is_empty());
    assert_eq!(part.network_adapters.len(), 1);
    assert_eq!(part.network_adapters[0].name, "eth0");
}

#[test]
fn linux_defaults_when_nothing_reads() {
    let src = LinuxSources {
        os_release: None,
        kernel: None,
        sys_vendor: None,
        product_name: None,
        bios_vendor: None,
        bios_version: None,
        meminfo: None,
        time_zone: None,
        interfaces: vec![],
        arch: "aarch64".to_string(),
    };
    let r = linux_system_info(src);
    assert_eq!(r.os_name, "Linux");
    assert_eq!(r.os_version, "Unknown");
    assert_eq!(r.os_build, "");
    assert_eq!(r.system_model, "Unknown");
    assert_eq!(r.total_memory, 0);
    assert_eq!(r.time_zone, "Unknown");
    assert!(r.network_adapters.is_empty());
}

#[test]
fn scalar_hotfix_matches_one_element_array() {
    assert_eq!(hotfixes_from_text("\"KB5034441\""), vec!["KB5034441".to_string()]);
    assert_eq!(hotfixes_from_text("\"KB5034441\""), hotfixes_from_text("[\"KB5034441\"]"));
    assert_eq!(hotfixes_from_text("\"KB5034441\"\r\n"), vec!["KB5034441".to_string()]);
}

#[test]
fn hotfix_lists() {
    assert_eq!(hotfixes_from_text("[\"KB1\",\"KB2\"]\r\n"), vec!["KB1".to_string(), "KB2".to_string()]);
    assert!(hotfixes_from_text("").is_empty());
    assert!(hotfixes_from_text("  \r\n").is_empty());
    assert!(hotfixes_from_text("[\"KB1\",").is_empty());
    assert!(hotfixes_from_text("[\"KB1\",2]").is_empty());
    assert!(hotfix_ids(&Err("no powershell".to_string())).is_empty());
    let failed = Ok(CommandOutput { success: false, stdout: "[\"KB1\"]".to_string(), stderr: String::new() });
    assert!(hotfix_ids(&failed).is_empty());
    assert_eq!(hotfix_ids(&ran("[\"KB9\"]")), vec!["KB9".to_string()]);
}

#[test]
fn windows_adapter_shapes() {
    let one = adapters_from_text(
        "{\"Name\":\"Ethernet\",\"InterfaceDescription\":\"Intel I219\",\"MacAddress\":\"AA-BB\",\"Status\":\"Up\"}",
    );
    assert_eq!(one.len(), 1);
    assert_eq!(one[0].name, "Ethernet");
    assert_eq!(one[0].description, "Intel I219");
    assert_eq!(one[0].mac_address, "AA-BB");
    assert_eq!(one[0].status, "Up");
    let two = adapters_from_text(
        "[{\"Name\":\"A\",\"InterfaceDescription\":\"a\",\"MacAddress\":null,\"Status\":\"Up\"},{\"Name\":\"B\",\"InterfaceDescription\":\"b\",\"Status\":\"Disconnected\"}]",
    );
    assert_eq!(two.len(), 2);
    assert_eq!(two[0].mac_address, "");
    assert_eq!(two[1].name, "B");
    assert_eq!(two[1].mac_address, "");
    assert!(adapters_from_text("[{\"Name\":\"A\"}]").is_empty());
    assert!(adapters_from_text("not json").is_empty());
}

const COMPUTER: &str = "{\"OsName\":\"Microsoft Windows 11 Pro\",\"OsVersion\":\"10.0.22631\",\"OsBuildNumber\":22631,\"OsManufacturer\":\"Microsoft Corporation\",\"OsArchitecture\":\"64-bit\",\"CsManufacturer\":\"LENOVO\",\"CsModel\":\"20XW\",\"BiosManufacturer\":\"LENOVO\",\"BiosVersion\":null,\"TimeZone\":\"(UTC+08:00) Beijing\",\"TotalPhysicalMemory\":17179869184}";

#[test]
fn windows_snapshot() {
    let r = windows_system_info(ran(COMPUTER), ran("\"KB1\""), Err("spawn".to_string())).ok().unwrap();
    assert_eq!(r.os_name, "Microsoft Windows 11 Pro");
    assert_eq!(r.os_version, "10.0.22631");
    assert_eq!(r.os_build, "22631");
    assert_eq!(r.os_manufacturer, "Microsoft Corporation");
    assert_eq!(r.os_architecture, "64-bit");
    assert_eq!(r.system_manufacturer, "LENOVO");
    assert_eq!(r.system_model, "20XW");
    assert_eq!(r.bios_manufacturer, "LENOVO");
    assert_eq!(r.bios_version, "");
    assert_eq!(r.time_zone, "(UTC+08:00) Beijing");
    assert_eq!(r.total_memory, 17179869184);
    assert_eq!(r.hotfixes, vec!["KB1".to_string()]);
    assert!(r.network_adapters.is_empty());
    let sparse = windows_system_info(ran("{\"OsBuildNumber\":\"19045\"}"), ran(""), ran("")).ok().unwrap();
    assert_eq!(sparse.os_name, "");
    assert_eq!(sparse.os_build, "19045");
    assert_eq!(sparse.total_memory, 0);
}

#[test]
fn windows_critical_failures() {
    let spawn = windows_system_info(Err("not found".to_string()), ran(""), ran(""));
    assert_eq!(spawn.err(), Some("Failed to execute PowerShell command: not found".to_string()));
    let failed = Ok(CommandOutput { success: false, stdout: String::new(), stderr: "denied".to_string() });
    let exit = windows_system_info(failed, ran(""), ran(""));
    assert_eq!(exit.err(), Some("PowerShell command failed: denied".to_string()));
    let garbled = windows_system_info(ran("{oops"), ran(""), ran("")).err().unwrap();
    assert!(garbled.starts_with("Failed to parse JSON: "));
    assert!(garbled.ends_with(" | Input: {oops"));
    let mistyped = windows_system_info(ran("{\"OsName\":5}"), ran(""), ran("")).err().unwrap();
    assert!(mistyped.starts_with("Failed to parse JSON: "));
    assert!(mistyped.ends_with(" | Input: {\"OsName\":5}"));
}

const PROFILE: &str = "{\"SPSoftwareDataType\":[{\"os_version\":\"macOS 14.2.1 (23C71)\",\"kernel_version\":\"Darwin 23.2.0\"}],\"SPHardwareDataType\":[{\"machine_name\":\"MacBook Pro\",\"machine_model\":\"Mac15,3\",\"physical_memory\":\"16 GB\",\"boot_rom_version\":\"10151.61.4\"}],\"SPNetworkDataType\":[{\"_name\":\"Wi-Fi\",\"interface\":\"en0\",\"MAC Address\":\"aa:bb\"},{\"interface\":\"en5\"},{\"_name\":\"Thunderbolt Bridge\"}]}";

#[test]
fn mac_snapshot() {
    let r = mac_system_info(ran(PROFILE), some("PST\n"), "aarch64".to_string()).ok().unwrap();
    assert_eq!(r.os_name, "macOS");
    assert_eq!(r.os_version, "macOS 14.2.1 (23C71)");
    assert_eq!(r.os_build, "Darwin 23.2.0");
    assert_eq!(r.os_manufacturer, "Apple Inc.");
    assert_eq!(r.os_architecture, "aarch64");
    assert_eq!(r.system_manufacturer, "Apple Inc.");
    assert_eq!(r.system_model, "MacBook Pro (Mac15,3)");
    assert_eq!(r.bios_manufacturer, "Apple Inc.");
    assert_eq!(r.bios_version, "10151.61.4");
    assert_eq!(r.total_memory, 17179869184);
    assert_eq!(r.time_zone, "PST");
    assert!(r.hotfixes.is_empty());
    assert_eq!(r.network_adapters.len(), 2);
    assert_eq!(r.network_adapters[0].name, "Wi-Fi");
    assert_eq!(r.network_adapters[0].description, "en0");
    assert_eq!(r.network_adapters[0].mac_address, "aa:bb");
    assert_eq!(r.network_adapters[0].status, "Unknown");
    assert_eq!(r.network_adapters[1].name, "Thunderbolt Bridge");
    assert_eq!(r.network_adapters[1].description, "");
}

#[test]
fn mac_missing_leaves_read_unknown() {
    let r = mac_system_info(ran("{\"SPSoftwareDataType\":[]}"), None, "x86_64".to_string()).ok().unwrap();
    assert_eq!(r.os_version, "Unknown");
    assert_eq!(r.system_model, "Unknown (Unknown)");
    assert_eq!(r.total_memory, 0);
    assert_eq!(r.time_zone, "Unknown");
    assert!(r.network_adapters.is_empty());
}

#[test]
fn mac_critical_failures() {
    let spawn = mac_system_info(Err("missing".to_string()), None, String::new());
    assert_eq!(spawn.err(), Some("Failed to execute system_profiler: missing".to_string()));
    let failed = Ok(CommandOutput { success: false, stdout: String::new(), stderr: "boom".to_string() });
    assert_eq!(
        mac_system_info(failed, None, String::new()).err(),
        Some("system_profiler failed: boom".to_string())
    );
    let garbled = mac_system_info(ran("[1,"), None, String::new()).err().unwrap();
    assert!(garbled.starts_with("Failed to parse JSON: "));
}

#[test]
fn response_carries_payload() {
    let r = ApiResponse { data: 5u32, timestamp: 1700000000 };
    assert_eq!(r.data, 5);
    assert_eq!(r.timestamp, 1700000000);
}
