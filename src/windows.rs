//! The scripting-host adapter: three JSON queries, one critical and two best-effort.
use vstd::prelude::*;
use crate::json::{
    bracketed, decode_json, field, get_field, is_plain_single_array, is_single_string,
    json_decoded, plain_text, quoted, Json,
};
use crate::text::{chars_of, join, string_of, strip, strip_chars, trim, trim_chars};
use crate::types::{
    adapter_views, string_views, AdapterView, CommandOutput, DetailedSystemInfo,
    NetworkAdapterInfo,
};

verus! {

/// The standard output of a command that ran and exited successfully.
pub open spec fn ran_ok(out: Result<CommandOutput, String>) -> Option<Seq<char>> {
    match out {
        Ok(o) => if o.success {
            Some(o.stdout@)
        } else {
            None
        },
        Err(_) => None,
    }
}

/// The strings of an array whose every element is a string.
pub open spec fn strings_of(items: Seq<Json>) -> Option<Seq<Seq<char>>>
    decreases items.len(),
{
    if items.len() == 0 {
        Some(Seq::empty())
    } else {
        match (strings_of(items.drop_last()), items.last()) {
            (Some(ss), Json::Str(s)) => Some(ss.push(s@)),
            _ => None,
        }
    }
}

pub open spec fn string_array(j: Json) -> Option<Seq<Seq<char>>> {
    match j {
        Json::Array(a) => strings_of(a@),
        _ => None,
    }
}

fn strings_in(j: &Json) -> (r: Option<Vec<String>>)
    ensures
        match r {
            Some(v) => string_array(*j) == Some(string_views(v@)),
            None => string_array(*j) is None,
        },
{
    match j {
        Json::Array(a) => {
            let mut out: Vec<String> = Vec::new();
            let mut i: usize = 0;
            while i < a.len()
                invariant
                    i <= a@.len(),
                    string_array(*j) == strings_of(a@),
                    strings_of(a@.subrange(0, i as int)) == Some(string_views(out@)),
                decreases a@.len() - i,
            {
                let ghost pre = a@.subrange(0, i as int);
                assert(a@.subrange(0, i + 1).drop_last() =~= pre);
                match &a[i] {
                    Json::Str(s) => {
                        let ghost before = out@;
                        out.push(s.clone());
                        assert(string_views(out@) =~= string_views(before).push(s@));
                    },
                    _ => {
                        proof {
                            lemma_strings_prefix(a@, i as int + 1);
                        }
                        return None;
                    },
                }
                i = i + 1;
            }
            assert(a@.subrange(0, a@.len() as int) =~= a@);
            Some(out)
        },
        _ => None,
    }
}

proof fn lemma_strings_prefix(items: Seq<Json>, n: int)
    requires
        0 <= n <= items.len(),
        strings_of(items.subrange(0, n)) is None,
    ensures
        strings_of(items) is None,
    decreases items.len() - n,
{
    if n < items.len() {
        assert(items.subrange(0, n + 1).drop_last() =~= items.subrange(0, n));
        lemma_strings_prefix(items, n + 1);
    } else {
        assert(items.subrange(0, n) =~= items);
    }
}

/// Hotfix identifiers from the host's output. The host writes a list of
/// one as a bare scalar: output that begins with `[` is decoded as an array
/// of strings, other non-blank output is one identifier with its quotes
/// stripped. Anything that does not decode gives no identifiers.
pub open spec fn hotfix_text(s: Seq<char>) -> Seq<Seq<char>> {
    let t = trim(s);
    if t.len() > 0 && t[0] == '[' {
        match json_decoded(s) {
            Some(j) => match string_array(j) {
                Some(ss) => ss,
                None => Seq::empty(),
            },
            None => Seq::empty(),
        }
    } else if t.len() > 0 {
        seq![strip(t, '"')]
    } else {
        Seq::empty()
    }
}

/// Whether `s` is `"x"` for some plain `x`.
pub open spec fn is_plain_scalar(s: Seq<char>) -> bool {
    s.len() >= 2 && s == quoted(s.subrange(1, s.len() - 1)) && plain_text(s.subrange(1, s.len() - 1))
}

proof fn lemma_plain_scalar(s: Seq<char>)
    requires
        is_plain_scalar(s),
    ensures
        trim(s) == s,
        strip(s, '"') == s.subrange(1, s.len() - 1),
{
    let x = s.subrange(1, s.len() - 1);
    assert(s[0] == '"');
    assert(s.last() == '"');
    assert(!crate::text::is_ws(s[0]));
    assert(crate::text::trim_start(s) == s);
    assert(!crate::text::is_ws(s.last()));
    assert(s.drop_first() =~= x + seq!['"']);
    let y = x + seq!['"'];
    assert(crate::text::strip_start(s, '"') == crate::text::strip_start(y, '"'));
    if x.len() > 0 {
        assert(y[0] == x[0]);
        assert(x[0] != '"');
        assert(crate::text::strip_start(y, '"') == y);
        assert(y.drop_last() =~= x);
        assert(x.last() == x[x.len() - 1]);
        assert(crate::text::strip_end(x, '"') == x);
    } else {
        assert(y.drop_first() =~= Seq::<char>::empty());
        assert(y[0] == '"');
        assert(crate::text::strip_start(Seq::<char>::empty(), '"') == Seq::<char>::empty());
        assert(crate::text::strip_start(y, '"') =~= Seq::<char>::empty());
        assert(crate::text::strip_end(Seq::<char>::empty(), '"') =~= x);
    }
}

/// Hotfix identifiers from one output text. A bare scalar `"x"` and the
/// array `["x"]` give the same one-element list.
pub fn hotfixes_from_text(s: &str) -> (r: Vec<String>)
    ensures
        string_views(r@) == hotfix_text(s@),
        is_plain_single_array(s@) ==> string_views(r@) == seq![s@.subrange(2, s@.len() - 2)],
        is_plain_scalar(s@) ==> string_views(r@) == seq![s@.subrange(1, s@.len() - 1)],
{
    let v = chars_of(s);
    let t = trim_chars(&v);
    if t.len() > 0 && t[0] == '[' {
        match decode_json(s) {
            Ok(j) => {
                proof {
                    if is_plain_single_array(s@) {
                        let x = s@.subrange(2, s@.len() - 2);
                        match &j {
                            Json::Array(a) => {
                                assert(strings_of(a@.subrange(0, 0)) == Some(Seq::<Seq<char>>::empty()));
                                assert(a@.drop_last() =~= a@.subrange(0, 0));
                                assert(strings_of(a@.drop_last()) == Some(Seq::<Seq<char>>::empty()));
                                assert(string_array(j) == Some(seq![x]));
                            },
                            _ => {},
                        }
                    }
                }
                match strings_in(&j) {
                    Some(ids) => ids,
                    None => Vec::new(),
                }
            },
            Err(_) => Vec::new(),
        }
    } else if t.len() > 0 {
        proof {
            if is_plain_scalar(s@) {
                lemma_plain_scalar(s@);
            }
        }
        let id = string_of(strip_chars(&t, '"').as_slice());
        let r = vec![id];
        assert(string_views(r@) =~= seq![id@]);
        r
    } else {
        proof {
            if is_plain_single_array(s@) || is_plain_scalar(s@) {
                assert(s@[0] == '[' || s@[0] == '"');
                assert(!crate::text::is_ws(s@[0]));
                assert(!crate::text::is_ws(s@.last()));
                assert(trim(s@) == s@);
            }
        }
        Vec::new()
    }
}

/// The hotfix list: empty unless the query ran and exited successfully.
pub open spec fn hotfix_list(out: Result<CommandOutput, String>) -> Seq<Seq<char>> {
    match ran_ok(out) {
        Some(s) => hotfix_text(s),
        None => Seq::empty(),
    }
}

/// Installed hotfix identifiers; a failure at any stage gives none.
pub fn hotfix_ids(out: &Result<CommandOutput, String>) -> (r: Vec<String>)
    ensures
        string_views(r@) == hotfix_list(*out),
{
    match out {
        Ok(o) => if o.success {
            hotfixes_from_text(o.stdout.as_str())
        } else {
            let r: Vec<String> = Vec::new();
            assert(string_views(r@) =~= Seq::<Seq<char>>::empty());
            r
        },
        Err(_) => {
            let r: Vec<String> = Vec::new();
            assert(string_views(r@) =~= Seq::<Seq<char>>::empty());
            r
        },
    }
}

/// A field that is absent, null or a string.
pub open spec fn text_ok(f: Option<Json>) -> bool {
    match f {
        None => true,
        Some(Json::Null) => true,
        Some(Json::Str(_)) => true,
        _ => false,
    }
}

/// Such a field's text; absent or null reads as empty.
pub open spec fn text_or_empty(f: Option<Json>) -> Seq<char> {
    match f {
        Some(Json::Str(s)) => s@,
        _ => Seq::empty(),
    }
}

/// Reads a field that may be absent, null or a string; `None` for any other shape.
fn text_field(j: &Json, key: &str) -> (r: Option<String>)
    ensures
        r is Some <==> text_ok(field(*j, key@)),
        r is Some ==> r->0@ == text_or_empty(field(*j, key@)),
{
    match get_field(j, key) {
        None => Some(String::new()),
        Some(Json::Null) => Some(String::new()),
        Some(Json::Str(s)) => Some(s.clone()),
        Some(_) => None,
    }
}

/// A field that must be a string.
pub open spec fn required_text(f: Option<Json>) -> Option<Seq<char>> {
    match f {
        Some(Json::Str(s)) => Some(s@),
        _ => None,
    }
}

fn required_field(j: &Json, key: &str) -> (r: Option<String>)
    ensures
        match r {
            Some(s) => required_text(field(*j, key@)) == Some(s@),
            None => required_text(field(*j, key@)) is None,
        },
{
    match get_field(j, key) {
        Some(Json::Str(s)) => Some(s.clone()),
        _ => None,
    }
}

/// One adapter object: `Name`, `InterfaceDescription` and `Status` are
/// strings; `MacAddress` may be absent or null, and then reads as empty.
pub open spec fn win_adapter(j: Json) -> Option<AdapterView> {
    match (
        required_text(field(j, "Name"@)),
        required_text(field(j, "InterfaceDescription"@)),
        required_text(field(j, "Status"@)),
    ) {
        (Some(name), Some(desc), Some(status)) => if text_ok(field(j, "MacAddress"@)) {
            Some((name, desc, text_or_empty(field(j, "MacAddress"@)), status))
        } else {
            None
        },
        _ => None,
    }
}

fn adapter_of(j: &Json) -> (r: Option<NetworkAdapterInfo>)
    ensures
        match r {
            Some(a) => win_adapter(*j) == Some(a@),
            None => win_adapter(*j) is None,
        },
{
    let name = match required_field(j, "Name") {
        Some(s) => s,
        None => return None,
    };
    let description = match required_field(j, "InterfaceDescription") {
        Some(s) => s,
        None => return None,
    };
    let status = match required_field(j, "Status") {
        Some(s) => s,
        None => return None,
    };
    let mac_address = match text_field(j, "MacAddress") {
        Some(s) => s,
        None => return None,
    };
    Some(NetworkAdapterInfo { name, description, mac_address, status })
}

/// The adapters of an array whose every element is an adapter object.
pub open spec fn adapters_of(items: Seq<Json>) -> Option<Seq<AdapterView>>
    decreases items.len(),
{
    if items.len() == 0 {
        Some(Seq::empty())
    } else {
        match (adapters_of(items.drop_last()), win_adapter(items.last())) {
            (Some(xs), Some(x)) => Some(xs.push(x)),
            _ => None,
        }
    }
}

proof fn lemma_adapters_prefix(items: Seq<Json>, n: int)
    requires
        0 <= n <= items.len(),
        adapters_of(items.subrange(0, n)) is None,
    ensures
        adapters_of(items) is None,
    decreases items.len() - n,
{
    if n < items.len() {
        assert(items.subrange(0, n + 1).drop_last() =~= items.subrange(0, n));
        lemma_adapters_prefix(items, n + 1);
    } else {
        assert(items.subrange(0, n) =~= items);
    }
}

fn adapters_in(a: &Vec<Json>) -> (r: Option<Vec<NetworkAdapterInfo>>)
    ensures
        match r {
            Some(v) => adapters_of(a@) == Some(adapter_views(v@)),
            None => adapters_of(a@) is None,
        },
{
    let mut out: Vec<NetworkAdapterInfo> = Vec::new();
    let mut i: usize = 0;
    while i < a.len()
        invariant
            i <= a@.len(),
            adapters_of(a@.subrange(0, i as int)) == Some(adapter_views(out@)),
        decreases a@.len() - i,
    {
        assert(a@.subrange(0, i + 1).drop_last() =~= a@.subrange(0, i as int));
        match adapter_of(&a[i]) {
            Some(x) => {
                let ghost before = out@;
                out.push(x);
                assert(adapter_views(out@) =~= adapter_views(before).push(x@));
            },
            None => {
                proof {
                    lemma_adapters_prefix(a@, i as int + 1);
                }
                return None;
            },
        }
        i = i + 1;
    }
    assert(a@.subrange(0, a@.len() as int) =~= a@);
    Some(out)
}

/// Adapters from the host's output: an array of adapter objects, or (the
/// host's list of one) a bare object. Anything that does not decode as
/// that gives no adapters.
pub open spec fn adapter_text(s: Seq<char>) -> Seq<AdapterView> {
    let t = trim(s);
    if t.len() > 0 && t[0] == '[' {
        match json_decoded(s) {
            Some(Json::Array(a)) => match adapters_of(a@) {
                Some(xs) => xs,
                None => Seq::empty(),
            },
            _ => Seq::empty(),
        }
    } else if t.len() > 0 {
        match json_decoded(s) {
            Some(j) => match win_adapter(j) {
                Some(x) => seq![x],
                None => Seq::empty(),
            },
            None => Seq::empty(),
        }
    } else {
        Seq::empty()
    }
}

pub open spec fn adapter_list(out: Result<CommandOutput, String>) -> Seq<AdapterView> {
    match ran_ok(out) {
        Some(s) => adapter_text(s),
        None => Seq::empty(),
    }
}

/// Network adapters from one output text.
pub fn adapters_from_text(s: &str) -> (r: Vec<NetworkAdapterInfo>)
    ensures
        adapter_views(r@) == adapter_text(s@),
{
    let none: Vec<NetworkAdapterInfo> = Vec::new();
    assert(adapter_views(none@) =~= Seq::<AdapterView>::empty());
    let v = chars_of(s);
    let t = trim_chars(&v);
    if t.len() == 0 {
        return none;
    }
    let is_array = t[0] == '[';
    match decode_json(s) {
        Ok(Json::Array(a)) => if is_array {
            match adapters_in(&a) {
                Some(xs) => xs,
                None => none,
            }
        } else {
            none
        },
        Ok(j) => if is_array {
            none
        } else {
            match adapter_of(&j) {
                Some(x) => {
                    let r = vec![x];
                    assert(adapter_views(r@) =~= seq![x@]);
                    r
                },
                None => none,
            }
        },
        Err(_) => none,
    }
}

/// Network adapters; a failure at any stage gives none.
pub fn network_adapters(out: &Result<CommandOutput, String>) -> (r: Vec<NetworkAdapterInfo>)
    ensures
        adapter_views(r@) == adapter_list(*out),
{
    let none: Vec<NetworkAdapterInfo> = Vec::new();
    assert(adapter_views(none@) =~= Seq::<AdapterView>::empty());
    match out {
        Ok(o) => if o.success {
            adapters_from_text(o.stdout.as_str())
        } else {
            none
        },
        Err(_) => none,
    }
}

/// A build number: absent, null, a string, or a number (kept as its text).
pub open spec fn build_ok(f: Option<Json>) -> bool {
    match f {
        Some(Json::Number(_, _)) => true,
        _ => text_ok(f),
    }
}

pub open spec fn build_text(f: Option<Json>) -> Seq<char> {
    match f {
        Some(Json::Number(_, t)) => t@,
        _ => text_or_empty(f),
    }
}

fn build_field(j: &Json, key: &str) -> (r: Option<String>)
    ensures
        r is Some <==> build_ok(field(*j, key@)),
        r is Some ==> r->0@ == build_text(field(*j, key@)),
{
    match get_field(j, key) {
        Some(Json::Number(_, t)) => Some(t.clone()),
        _ => text_field(j, key),
    }
}

/// A byte count: absent, null, or a number that is an unsigned 64-bit integer.
pub open spec fn count_ok(f: Option<Json>) -> bool {
    match f {
        None => true,
        Some(Json::Null) => true,
        Some(Json::Number(n, _)) => n is Some,
        _ => false,
    }
}

pub open spec fn count_value(f: Option<Json>) -> u64 {
    match f {
        Some(Json::Number(Some(n), _)) => n,
        _ => 0,
    }
}

fn count_field(j: &Json, key: &str) -> (r: Option<u64>)
    ensures
        r is Some <==> count_ok(field(*j, key@)),
        r is Some ==> r->0 == count_value(field(*j, key@)),
{
    match get_field(j, key) {
        None => Some(0),
        Some(Json::Null) => Some(0),
        Some(Json::Number(Some(n), _)) => Some(*n),
        Some(_) => None,
    }
}

/// Whether the computer-info document has the expected shape: an object
/// whose fields, where present, have the types they should.
pub open spec fn computer_ok(j: Json) -> bool {
    &&& j is Object
    &&& text_ok(field(j, "OsName"@))
    &&& text_ok(field(j, "OsVersion"@))
    &&& build_ok(field(j, "OsBuildNumber"@))
    &&& text_ok(field(j, "OsManufacturer"@))
    &&& text_ok(field(j, "OsArchitecture"@))
    &&& text_ok(field(j, "CsManufacturer"@))
    &&& text_ok(field(j, "CsModel"@))
    &&& text_ok(field(j, "BiosManufacturer"@))
    &&& text_ok(field(j, "BiosVersion"@))
    &&& text_ok(field(j, "TimeZone"@))
    &&& count_ok(field(j, "TotalPhysicalMemory"@))
}

/// The computer-info document, where the query ran, exited successfully,
/// decoded and has the expected shape.
pub open spec fn computer_doc(out: Result<CommandOutput, String>) -> Option<Json> {
    match ran_ok(out) {
        Some(s) => match json_decoded(s) {
            Some(j) => if computer_ok(j) {
                Some(j)
            } else {
                None
            },
            None => None,
        },
        None => None,
    }
}

fn fill_computer(
    j: &Json,
    hotfixes: Vec<String>,
    network_adapters: Vec<NetworkAdapterInfo>,
) -> (r: Option<DetailedSystemInfo>)
    ensures
        r is Some <==> computer_ok(*j),
        r is Some ==> {
            let i = r->0;
            &&& i.os_name@ == text_or_empty(field(*j, "OsName"@))
            &&& i.os_version@ == text_or_empty(field(*j, "OsVersion"@))
            &&& i.os_build@ == build_text(field(*j, "OsBuildNumber"@))
            &&& i.os_manufacturer@ == text_or_empty(field(*j, "OsManufacturer"@))
            &&& i.os_architecture@ == text_or_empty(field(*j, "OsArchitecture"@))
            &&& i.system_manufacturer@ == text_or_empty(field(*j, "CsManufacturer"@))
            &&& i.system_model@ == text_or_empty(field(*j, "CsModel"@))
            &&& i.bios_manufacturer@ == text_or_empty(field(*j, "BiosManufacturer"@))
            &&& i.bios_version@ == text_or_empty(field(*j, "BiosVersion"@))
            &&& i.time_zone@ == text_or_empty(field(*j, "TimeZone"@))
            &&& i.total_memory == count_value(field(*j, "TotalPhysicalMemory"@))
            &&& i.hotfixes == hotfixes
            &&& i.network_adapters == network_adapters
        },
{
    if !matches!(j, Json::Object(_)) {
        return None;
    }
    let os_name = match text_field(j, "OsName") { Some(s) => s, None => return None };
    let os_version = match text_field(j, "OsVersion") { Some(s) => s, None => return None };
    let os_build = match build_field(j, "OsBuildNumber") { Some(s) => s, None => return None };
    let os_manufacturer = match text_field(j, "OsManufacturer") {
        Some(s) => s,
        None => return None,
    };
    let os_architecture = match text_field(j, "OsArchitecture") {
        Some(s) => s,
        None => return None,
    };
    let system_manufacturer = match text_field(j, "CsManufacturer") {
        Some(s) => s,
        None => return None,
    };
    let system_model = match text_field(j, "CsModel") { Some(s) => s, None => return None };
    let bios_manufacturer = match text_field(j, "BiosManufacturer") {
        Some(s) => s,
        None => return None,
    };
    let bios_version = match text_field(j, "BiosVersion") { Some(s) => s, None => return None };
    let time_zone = match text_field(j, "TimeZone") { Some(s) => s, None => return None };
    let total_memory = match count_field(j, "TotalPhysicalMemory") {
        Some(n) => n,
        None => return None,
    };
    Some(
        DetailedSystemInfo {
            os_name,
            os_version,
            os_build,
            os_manufacturer,
            os_architecture,
            system_manufacturer,
            system_model,
            bios_manufacturer,
            bios_version,
            total_memory,
            time_zone,
            hotfixes,
            network_adapters,
        },
    )
}

/// Assembles the snapshot of the scripting-host adapter from its three
/// queries. The computer-info query is critical: where it could not run,
/// failed, or did not decode to the expected shape, the whole request fails
/// with the cause. The hotfix and adapter queries are best-effort.
pub fn windows_system_info(
    computer: Result<CommandOutput, String>,
    hotfix: Result<CommandOutput, String>,
    net: Result<CommandOutput, String>,
) -> (r: Result<DetailedSystemInfo, String>)
    ensures
        r is Ok <==> computer_doc(computer) is Some,
        computer is Err ==> r->Err_0@ == "Failed to execute PowerShell command: "@
            + computer->Err_0@,
        computer is Ok && !computer->Ok_0.success ==> r->Err_0@ == "PowerShell command failed: "@
            + computer->Ok_0.stderr@,
        computer is Ok && computer->Ok_0.success && r is Err ==> exists|cause: Seq<char>|
            r->Err_0@ == "Failed to parse JSON: "@ + cause + " | Input: "@
                + computer->Ok_0.stdout@,
        r is Ok ==> {
            let j = computer_doc(computer)->0;
            let i = r->Ok_0;
            &&& i.os_name@ == text_or_empty(field(j, "OsName"@))
            &&& i.os_version@ == text_or_empty(field(j, "OsVersion"@))
            &&& i.os_build@ == build_text(field(j, "OsBuildNumber"@))
            &&& i.os_manufacturer@ == text_or_empty(field(j, "OsManufacturer"@))
            &&& i.os_architecture@ == text_or_empty(field(j, "OsArchitecture"@))
            &&& i.system_manufacturer@ == text_or_empty(field(j, "CsManufacturer"@))
            &&& i.system_model@ == text_or_empty(field(j, "CsModel"@))
            &&& i.bios_manufacturer@ == text_or_empty(field(j, "BiosManufacturer"@))
            &&& i.bios_version@ == text_or_empty(field(j, "BiosVersion"@))
            &&& i.time_zone@ == text_or_empty(field(j, "TimeZone"@))
            &&& i.total_memory == count_value(field(j, "TotalPhysicalMemory"@))
            &&& string_views(i.hotfixes@) == hotfix_list(hotfix)
            &&& adapter_views(i.network_adapters@) == adapter_list(net)
        },
{
    let out = match computer {
        Err(e) => return Err(join("Failed to execute PowerShell command: ".to_owned(), e.as_str())),
        Ok(o) => o,
    };
    if !out.success {
        return Err(join("PowerShell command failed: ".to_owned(), out.stderr.as_str()));
    }
    let failed = |cause: String| -> (m: String)
        ensures
            m@ == "Failed to parse JSON: "@ + cause@ + " | Input: "@ + out.stdout@,
        {
            let m = join("Failed to parse JSON: ".to_owned(), cause.as_str());
            let m = join(m, " | Input: ");
            join(m, out.stdout.as_str())
        };
    let j = match decode_json(out.stdout.as_str()) {
        Ok(j) => j,
        Err(e) => return Err(failed(e)),
    };
    let hotfixes = hotfix_ids(&hotfix);
    let adapters = network_adapters(&net);
    match fill_computer(&j, hotfixes, adapters) {
        Some(info) => Ok(info),
        None => Err(failed("unexpected field types".to_owned())),
    }
}

} // verus!
