//! The file-based adapter: release file, kernel pseudo-files, interface list.
use vstd::prelude::*;
use crate::memory::{mem_total_bytes, mem_total_of_line};
use crate::text::{
    chars_of, has_prefix, lines, split_lines, starts_with_chars, string_of, trim, trim_chars,
    trim_str, views_of, without, without_chars,
};
use crate::types::{adapter_views, opt_text, AdapterView, DetailedSystemInfo, NetworkAdapterInfo};

verus! {

/// The value of the last line that begins with `key` (`PRETTY_NAME=`), with
/// every double quote taken out.
pub open spec fn release_value(ls: Seq<Seq<char>>, key: Seq<char>) -> Option<Seq<char>>
    decreases ls.len(),
{
    if ls.len() == 0 {
        None
    } else if has_prefix(ls.last(), key) {
        Some(without(ls.last().subrange(key.len() as int, ls.last().len() as int), '"'))
    } else {
        release_value(ls.drop_last(), key)
    }
}

/// The value under `key` in the lines of a release file.
pub fn release_field(ls: &Vec<Vec<char>>, key: &Vec<char>) -> (r: Option<Vec<char>>)
    ensures
        match r {
            Some(v) => release_value(views_of(ls@), key@) == Some(v@),
            None => release_value(views_of(ls@), key@) is None,
        },
{
    let mut found: Option<Vec<char>> = None;
    let mut i: usize = 0;
    while i < ls.len()
        invariant
            i <= ls@.len(),
            match found {
                Some(v) => release_value(views_of(ls@.subrange(0, i as int)), key@) == Some(v@),
                None => release_value(views_of(ls@.subrange(0, i as int)), key@) is None,
            },
        decreases ls@.len() - i,
    {
        assert(views_of(ls@.subrange(0, i + 1)).drop_last() =~= views_of(
            ls@.subrange(0, i as int),
        ));
        assert(views_of(ls@.subrange(0, i + 1)).last() == ls@[i as int]@);
        if starts_with_chars(&ls[i], key) {
            found = Some(without_chars(&ls[i], key.len(), '"'));
        }
        i = i + 1;
    }
    assert(ls@.subrange(0, ls@.len() as int) =~= ls@);
    found
}

/// The name and version that a release file gives, each with its fallback.
pub struct OsRelease {
    pub name: String,
    pub version: String,
}

pub open spec fn release_lines(contents: Option<String>) -> Seq<Seq<char>> {
    lines(trim(opt_text(contents)))
}

pub open spec fn or_else(o: Option<Seq<char>>, d: Seq<char>) -> Seq<char> {
    match o {
        Some(v) => v,
        None => d,
    }
}

/// Reads the human-readable name (`PRETTY_NAME=`, else `"Linux"`) and the
/// version (`VERSION_ID=`, else `"Unknown"`) out of a release file; an
/// unreadable file gives both fallbacks.
pub fn parse_os_release(contents: Option<String>) -> (r: OsRelease)
    ensures
        r.name@ == or_else(
            release_value(release_lines(contents), "PRETTY_NAME="@),
            "Linux"@,
        ),
        r.version@ == or_else(
            release_value(release_lines(contents), "VERSION_ID="@),
            "Unknown"@,
        ),
{
    let text = match contents {
        Some(s) => chars_of(s.as_str()),
        None => Vec::new(),
    };
    let t = trim_chars(&text);
    let ls = split_lines(&t);
    let name_key = chars_of("PRETTY_NAME=");
    let version_key = chars_of("VERSION_ID=");
    let name = match release_field(&ls, &name_key) {
        Some(v) => string_of(v.as_slice()),
        None => "Linux".to_owned(),
    };
    let version = match release_field(&ls, &version_key) {
        Some(v) => string_of(v.as_slice()),
        None => "Unknown".to_owned(),
    };
    OsRelease { name, version }
}

/// The first line that begins with `p`.
pub open spec fn first_with_prefix(ls: Seq<Seq<char>>, p: Seq<char>) -> Option<Seq<char>>
    decreases ls.len(),
{
    if ls.len() == 0 {
        None
    } else if has_prefix(ls[0], p) {
        Some(ls[0])
    } else {
        first_with_prefix(ls.drop_first(), p)
    }
}

/// Total memory in bytes from `/proc/meminfo`: the first `MemTotal:` line
/// read as kibibytes; 0 where there is none.
pub open spec fn meminfo_total(contents: Option<String>) -> u64 {
    match first_with_prefix(lines(trim(opt_text(contents))), "MemTotal:"@) {
        Some(l) => mem_total_bytes(l),
        None => 0,
    }
}

pub fn parse_meminfo(contents: Option<String>) -> (r: u64)
    ensures
        r == meminfo_total(contents),
{
    let text = match contents {
        Some(s) => chars_of(s.as_str()),
        None => Vec::new(),
    };
    assert(text@ == opt_text(contents));
    let t = trim_chars(&text);
    let ls = split_lines(&t);
    let key = chars_of("MemTotal:");
    let ghost all = views_of(ls@);
    let mut i: usize = 0;
    assert(all.subrange(0, all.len() as int) =~= all);
    while i < ls.len()
        invariant
            i <= ls@.len(),
            all == views_of(ls@),
            all == lines(trim(opt_text(contents))),
            key@ == "MemTotal:"@,
            first_with_prefix(all, key@) == first_with_prefix(
                all.subrange(i as int, all.len() as int),
                key@,
            ),
        decreases ls@.len() - i,
    {
        let ghost rest = all.subrange(i as int, all.len() as int);
        assert(rest[0] == ls@[i as int]@);
        if starts_with_chars(&ls[i], &key) {
            assert(first_with_prefix(rest, key@) == Some(rest[0]));
            return mem_total_of_line(&ls[i]);
        }
        assert(rest.drop_first() =~= all.subrange(i + 1, all.len() as int));
        i = i + 1;
    }
    0
}

/// A pseudo-file's trimmed text, or `"Unknown"` where it is unreadable or blank.
pub open spec fn dmi_value(contents: Option<String>) -> Seq<char> {
    if trim(opt_text(contents)).len() == 0 {
        "Unknown"@
    } else {
        trim(opt_text(contents))
    }
}

pub fn dmi_field(contents: Option<String>) -> (r: String)
    ensures
        r@ == dmi_value(contents),
{
    let text = match contents {
        Some(s) => chars_of(s.as_str()),
        None => Vec::new(),
    };
    assert(text@ == opt_text(contents));
    let t = trim_chars(&text);
    if t.len() == 0 {
        "Unknown".to_owned()
    } else {
        string_of(t.as_slice())
    }
}

/// One entry of the network-interface directory, with the text of its
/// `address` and `operstate` files where they could be read.
pub struct InterfaceEntry {
    pub name: String,
    pub address: Option<String>,
    pub operstate: Option<String>,
}

pub open spec fn loopback() -> Seq<char> {
    seq!['l', 'o']
}

/// Every interface but the loopback one, in order; description is the
/// interface name, MAC address and status the trimmed file texts.
pub open spec fn interface_adapters(es: Seq<InterfaceEntry>) -> Seq<AdapterView>
    decreases es.len(),
{
    if es.len() == 0 {
        Seq::empty()
    } else {
        let rest = interface_adapters(es.drop_last());
        let e = es.last();
        if e.name@ == loopback() {
            rest
        } else {
            rest.push((e.name@, e.name@, trim(opt_text(e.address)), trim(opt_text(e.operstate))))
        }
    }
}

fn trimmed_or_empty(o: &Option<String>) -> (r: String)
    ensures
        r@ == trim(opt_text(*o)),
{
    match o {
        Some(s) => trim_str(s.as_str()),
        None => {
            assert(trim(Seq::<char>::empty()) =~= Seq::<char>::empty());
            String::new()
        },
    }
}

fn is_loopback(name: &String) -> (r: bool)
    ensures
        r == (name@ == loopback()),
{
    let v = chars_of(name.as_str());
    let r = v.len() == 2 && v[0] == 'l' && v[1] == 'o';
    assert(r ==> v@ =~= loopback());
    r
}

/// The adapters of the interface directory.
pub fn linux_adapters(es: &Vec<InterfaceEntry>) -> (r: Vec<NetworkAdapterInfo>)
    ensures
        adapter_views(r@) == interface_adapters(es@),
{
    let mut out: Vec<NetworkAdapterInfo> = Vec::new();
    let mut i: usize = 0;
    while i < es.len()
        invariant
            i <= es@.len(),
            adapter_views(out@) == interface_adapters(es@.subrange(0, i as int)),
        decreases es@.len() - i,
    {
        let ghost pre = es@.subrange(0, i as int);
        assert(es@.subrange(0, i + 1).drop_last() =~= pre);
        let e = &es[i];
        if !is_loopback(&e.name) {
            let ghost before = out@;
            let a = NetworkAdapterInfo {
                name: e.name.clone(),
                description: e.name.clone(),
                mac_address: trimmed_or_empty(&e.address),
                status: trimmed_or_empty(&e.operstate),
            };
            out.push(a);
            assert(adapter_views(out@) =~= adapter_views(before).push(a@));
        }
        i = i + 1;
    }
    assert(es@.subrange(0, es@.len() as int) =~= es@);
    out
}

/// No adapter that the interface directory yields is the loopback interface.
pub proof fn lemma_no_loopback(es: Seq<InterfaceEntry>)
    ensures
        forall|k: int|
            0 <= k < interface_adapters(es).len() ==> (#[trigger] interface_adapters(es)[k]).0
                != loopback(),
    decreases es.len(),
{
    if es.len() > 0 {
        lemma_no_loopback(es.drop_last());
        let rest = interface_adapters(es.drop_last());
        let all = interface_adapters(es);
        assert forall|k: int| 0 <= k < all.len() implies (#[trigger] all[k]).0 != loopback() by {
            if k < rest.len() {
                assert(all[k] == rest[k]);
            }
        }
    }
}

/// What the file-based adapter read: each text is `None` where its file or
/// command could not be read.
pub struct LinuxSources {
    /// `/etc/os-release`.
    pub os_release: Option<String>,
    /// Output of `uname -r`.
    pub kernel: Option<String>,
    pub sys_vendor: Option<String>,
    pub product_name: Option<String>,
    pub bios_vendor: Option<String>,
    pub bios_version: Option<String>,
    /// `/proc/meminfo`.
    pub meminfo: Option<String>,
    /// Output of `date +%Z`.
    pub time_zone: Option<String>,
    /// The entries of `/sys/class/net`, in the order listed.
    pub interfaces: Vec<InterfaceEntry>,
    /// The processor architecture the library was built for.
    pub arch: String,
}

/// A zone abbreviation from command output, or `"Unknown"` where the command failed.
pub open spec fn zone_value(out: Option<String>) -> Seq<char> {
    match out {
        Some(s) => trim(s@),
        None => "Unknown"@,
    }
}

pub fn zone_field(out: Option<String>) -> (r: String)
    ensures
        r@ == zone_value(out),
{
    match out {
        Some(s) => trim_str(s.as_str()),
        None => "Unknown".to_owned(),
    }
}

/// Assembles the snapshot of the file-based adapter. Each field comes from
/// its own source alone, so an unreadable source changes that field only,
/// and never fails the whole.
pub fn linux_system_info(src: LinuxSources) -> (r: DetailedSystemInfo)
    ensures
        r.os_name@ == or_else(
            release_value(release_lines(src.os_release), "PRETTY_NAME="@),
            "Linux"@,
        ),
        r.os_version@ == or_else(
            release_value(release_lines(src.os_release), "VERSION_ID="@),
            "Unknown"@,
        ),
        r.os_build@ == trim(opt_text(src.kernel)),
        r.os_manufacturer@ == "Linux"@,
        r.os_architecture@ == src.arch@,
        r.system_manufacturer@ == dmi_value(src.sys_vendor),
        r.system_model@ == dmi_value(src.product_name),
        r.bios_manufacturer@ == dmi_value(src.bios_vendor),
        r.bios_version@ == dmi_value(src.bios_version),
        r.total_memory == meminfo_total(src.meminfo),
        r.time_zone@ == zone_value(src.time_zone),
        r.hotfixes@.len() == 0,
        adapter_views(r.network_adapters@) == interface_adapters(src.interfaces@),
        src.sys_vendor is None ==> r.system_manufacturer@ == "Unknown"@,
        src.product_name is None ==> r.system_model@ == "Unknown"@,
        src.bios_vendor is None ==> r.bios_manufacturer@ == "Unknown"@,
        src.bios_version is None ==> r.bios_version@ == "Unknown"@,
{
    proof {
        assert(trim(Seq::<char>::empty()) =~= Seq::<char>::empty());
    }
    let release = parse_os_release(src.os_release);
    let os_build = trimmed_or_empty(&src.kernel);
    let network_adapters = linux_adapters(&src.interfaces);
    DetailedSystemInfo {
        os_name: release.name,
        os_version: release.version,
        os_build,
        os_manufacturer: "Linux".to_owned(),
        os_architecture: src.arch,
        system_manufacturer: dmi_field(src.sys_vendor),
        system_model: dmi_field(src.product_name),
        bios_manufacturer: dmi_field(src.bios_vendor),
        bios_version: dmi_field(src.bios_version),
        total_memory: parse_meminfo(src.meminfo),
        time_zone: zone_field(src.time_zone),
        hotfixes: Vec::new(),
        network_adapters,
    }
}

} // verus!
