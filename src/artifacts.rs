//! The onboarding bundle: one credential pack per device, a summary, and the
//! launcher prefill that assigns devices to the official and unofficial
//! agent slots.
use vstd::prelude::*;
use vstd::string::*;
use crate::naming::{slug, slug_spec};
use crate::provision::DeviceRecord;
use crate::request::opt_view;
use crate::text::{chars_of, contains, contains_chars, lower_of, lowercase};

verus! {

/// Port of the official point-of-sale agent.
pub const PORT_OFFICIAL: u16 = 7070;

/// Port of the unofficial point-of-sale agent.
pub const PORT_UNOFFICIAL: u16 = 7072;

/// What one device needs to configure itself.
pub struct DevicePack {
    pub api_base_url: String,
    pub company_id: String,
    /// Empty when the tenant has no branch.
    pub branch_id: String,
    pub device_code: String,
    pub device_id: String,
    pub device_token: String,
    /// Always empty: no shift is open yet.
    pub shift_id: String,
}

/// A device pack and the file name it is written under.
pub struct PackFile {
    pub file_name: String,
    pub pack: DevicePack,
}

/// Settings that prefill the desktop launcher of the two agents.
pub struct LauncherPrefill {
    pub cloud_url: String,
    pub edge_lan_url: String,
    pub edge_url: String,
    pub port_official: u16,
    pub port_unofficial: u16,
    pub company_official: String,
    pub company_unofficial: String,
    pub device_id_official: String,
    pub device_token_official: String,
    pub device_id_unofficial: String,
    pub device_token_unofficial: String,
}

/// Everything the bundle writer puts on disk but the time stamps.
pub struct ArtifactBundle {
    pub edge_api_url_for_pos: String,
    pub packs: Vec<PackFile>,
    pub devices: Vec<DeviceRecord>,
    pub prefill: LauncherPrefill,
}

/// A lower-cased tenant name that names the official tenant.
pub open spec fn is_official_name(l: Seq<char>) -> bool {
    contains(l, "official"@) && !contains(l, "unofficial"@)
}

pub open spec fn is_unofficial_name(l: Seq<char>) -> bool {
    contains(l, "unofficial"@)
}

pub open spec fn role_match(l: Seq<char>, official: bool) -> bool {
    if official {
        is_official_name(l)
    } else {
        is_unofficial_name(l)
    }
}

/// Index of the first name from `i` on that matches the role.
pub open spec fn first_from(names: Seq<Seq<char>>, official: bool, i: int) -> Option<int>
    decreases names.len() - i,
{
    if i < 0 || i >= names.len() {
        None
    } else if role_match(names[i], official) {
        Some(i)
    } else {
        first_from(names, official, i + 1)
    }
}

/// Devices for the official and unofficial slots, by index, from the
/// lower-cased tenant names: the first name that matches each role; else the
/// first device for the official slot; else the second device, or failing
/// that the official one, for the unofficial slot.
pub open spec fn launcher_roles(names: Seq<Seq<char>>) -> (Option<int>, Option<int>) {
    let off = match first_from(names, true, 0) {
        Some(i) => Some(i),
        None => if names.len() > 0 {
            Some(0int)
        } else {
            None
        },
    };
    let un = match first_from(names, false, 0) {
        Some(i) => Some(i),
        None => if names.len() > 1 {
            Some(1int)
        } else {
            off
        },
    };
    (off, un)
}

/// The lower-cased tenant names of the devices.
pub open spec fn lowered_names(ds: Seq<DeviceRecord>) -> Seq<Seq<char>> {
    ds.map_values(|d: DeviceRecord| lower_of(d.company_name@))
}

pub open spec fn opt_index(o: Option<usize>) -> Option<int> {
    match o {
        Some(i) => Some(i as int),
        None => None,
    }
}

fn role_matches(l: &Vec<char>, official: bool) -> (r: bool)
    ensures
        r == role_match(l@, official),
{
    let off = chars_of("official");
    let un = chars_of("unofficial");
    if official {
        contains_chars(l, &off) && !contains_chars(l, &un)
    } else {
        contains_chars(l, &un)
    }
}

proof fn lemma_first_from_skip(names: Seq<Seq<char>>, official: bool, i: int)
    requires
        0 <= i <= names.len(),
        forall|j: int| 0 <= j < i ==> !role_match(#[trigger] names[j], official),
    ensures
        first_from(names, official, 0) == first_from(names, official, i),
    decreases i,
{
    if i > 0 {
        lemma_first_from_skip(names, official, i - 1);
    }
}

fn first_role(names: &Vec<Vec<char>>, official: bool) -> (r: Option<usize>)
    ensures
        opt_index(r) == first_from(names@.map_values(|v: Vec<char>| v@), official, 0),
        r is Some ==> r->Some_0 < names.len(),
{
    let ghost ns = names@.map_values(|v: Vec<char>| v@);
    let mut i: usize = 0;
    while i < names.len()
        invariant
            i <= names.len(),
            ns == names@.map_values(|v: Vec<char>| v@),
            forall|j: int| 0 <= j < i ==> !role_match(#[trigger] ns[j], official),
        decreases names.len() - i,
    {
        if role_matches(&names[i], official) {
            proof {
                lemma_first_from_skip(ns, official, i as int);
            }
            return Some(i);
        }
        i = i + 1;
    }
    proof {
        lemma_first_from_skip(ns, official, i as int);
    }
    None
}

/// Picks the devices of the two launcher slots from lower-cased tenant names.
pub fn pick_roles_lowered(names: &Vec<String>) -> (r: (Option<usize>, Option<usize>))
    ensures
        (opt_index(r.0), opt_index(r.1)) == launcher_roles(names@.map_values(|s: String| s@)),
        r.0 is Some ==> r.0->Some_0 < names.len(),
        r.1 is Some ==> r.1->Some_0 < names.len(),
{
    let mut cs: Vec<Vec<char>> = Vec::new();
    let mut i: usize = 0;
    while i < names.len()
        invariant
            i <= names.len(),
            cs@.len() == i,
            forall|j: int| 0 <= j < i ==> #[trigger] cs@[j]@ == names@[j]@,
        decreases names.len() - i,
    {
        cs.push(chars_of(names[i].as_str()));
        i = i + 1;
    }
    assert(cs@.map_values(|v: Vec<char>| v@) =~= names@.map_values(|s: String| s@));
    let off0 = first_role(&cs, true);
    let un0 = first_role(&cs, false);
    let off = match off0 {
        Some(i) => Some(i),
        None => if names.len() > 0 {
            Some(0)
        } else {
            None
        },
    };
    let un = match un0 {
        Some(i) => Some(i),
        None => if names.len() > 1 {
            Some(1)
        } else {
            off
        },
    };
    (off, un)
}

/// Picks the devices of the two launcher slots by tenant name.
pub fn pick_roles(devices: &Vec<DeviceRecord>) -> (r: (Option<usize>, Option<usize>))
    ensures
        (opt_index(r.0), opt_index(r.1)) == launcher_roles(lowered_names(devices@)),
        r.0 is Some ==> r.0->Some_0 < devices.len(),
        r.1 is Some ==> r.1->Some_0 < devices.len(),
{
    let mut names: Vec<String> = Vec::new();
    let mut i: usize = 0;
    while i < devices.len()
        invariant
            i <= devices.len(),
            names@.len() == i,
            forall|j: int| 0 <= j < i ==> #[trigger] names@[j]@ == lower_of(devices@[j].company_name@),
        decreases devices.len() - i,
    {
        names.push(lowercase(devices[i].company_name.as_str()));
        i = i + 1;
    }
    assert(names@.map_values(|s: String| s@) =~= lowered_names(devices@));
    pick_roles_lowered(&names)
}

/// File name of a device pack: tenant slug, `__`, device-code slug, `.json`.
pub open spec fn pack_file_name_spec(d: DeviceRecord) -> Seq<char> {
    slug_spec(d.company_name@) + "__"@ + slug_spec(d.device_code@) + ".json"@
}

/// The pack of a device, for devices that reach the API at `api_url`.
pub open spec fn pack_matches(p: DevicePack, d: DeviceRecord, api_url: Seq<char>) -> bool {
    &&& p.api_base_url@ == api_url
    &&& p.company_id@ == d.company_id@
    &&& p.branch_id@ == (match d.branch_id {
        Some(b) => b@,
        None => Seq::empty(),
    })
    &&& p.device_code@ == d.device_code@
    &&& p.device_id@ == d.device_id@
    &&& p.device_token@ == d.device_token@
    &&& p.shift_id@ == Seq::<char>::empty()
}

/// The same device record.
pub open spec fn same_record(a: DeviceRecord, b: DeviceRecord) -> bool {
    &&& a.company_id@ == b.company_id@
    &&& a.company_name@ == b.company_name@
    &&& opt_view(a.branch_id) == opt_view(b.branch_id)
    &&& opt_view(a.branch_name) == opt_view(b.branch_name)
    &&& a.device_code@ == b.device_code@
    &&& a.device_id@ == b.device_id@
    &&& a.device_token@ == b.device_token@
}

fn copy_opt(o: &Option<String>) -> (r: Option<String>)
    ensures
        opt_view(r) == opt_view(*o),
{
    match o {
        Some(s) => Some(s.clone()),
        None => None,
    }
}

/// A copy of a device record.
pub fn copy_record(d: &DeviceRecord) -> (r: DeviceRecord)
    ensures
        same_record(r, *d),
{
    DeviceRecord {
        company_id: d.company_id.clone(),
        company_name: d.company_name.clone(),
        branch_id: copy_opt(&d.branch_id),
        branch_name: copy_opt(&d.branch_name),
        device_code: d.device_code.clone(),
        device_id: d.device_id.clone(),
        device_token: d.device_token.clone(),
    }
}

/// The pack of one device.
pub fn device_pack(d: &DeviceRecord, api_url: &str) -> (r: PackFile)
    ensures
        pack_matches(r.pack, *d, api_url@),
        r.file_name@ == pack_file_name_spec(*d),
{
    let mut name = slug(d.company_name.as_str());
    name.append("__");
    name.append(slug(d.device_code.as_str()).as_str());
    name.append(".json");
    let pack = DevicePack {
        api_base_url: String::from_str(api_url),
        company_id: d.company_id.clone(),
        branch_id: match &d.branch_id {
            Some(b) => b.clone(),
            None => String::new(),
        },
        device_code: d.device_code.clone(),
        device_id: d.device_id.clone(),
        device_token: d.device_token.clone(),
        shift_id: String::new(),
    };
    PackFile { file_name: name, pack }
}

/// The slot fields of the prefill for the device at `i`, empty where no
/// device fills the slot.
pub open spec fn slot_company(ds: Seq<DeviceRecord>, i: Option<int>) -> Seq<char> {
    match i {
        Some(k) => ds[k].company_id@,
        None => Seq::empty(),
    }
}

pub open spec fn slot_device_id(ds: Seq<DeviceRecord>, i: Option<int>) -> Seq<char> {
    match i {
        Some(k) => ds[k].device_id@,
        None => Seq::empty(),
    }
}

pub open spec fn slot_device_token(ds: Seq<DeviceRecord>, i: Option<int>) -> Seq<char> {
    match i {
        Some(k) => ds[k].device_token@,
        None => Seq::empty(),
    }
}

/// The launcher prefill for the devices of a run.
pub open spec fn prefill_matches(
    p: LauncherPrefill,
    ds: Seq<DeviceRecord>,
    cloud_url: Seq<char>,
    edge_url_for_pos: Seq<char>,
) -> bool {
    let roles = launcher_roles(lowered_names(ds));
    &&& p.cloud_url@ == cloud_url
    &&& p.edge_lan_url@ == edge_url_for_pos
    &&& p.edge_url@ == (if cloud_url.len() == 0 {
        edge_url_for_pos
    } else {
        cloud_url
    })
    &&& p.port_official == PORT_OFFICIAL
    &&& p.port_unofficial == PORT_UNOFFICIAL
    &&& p.company_official@ == slot_company(ds, roles.0)
    &&& p.device_id_official@ == slot_device_id(ds, roles.0)
    &&& p.device_token_official@ == slot_device_token(ds, roles.0)
    &&& p.company_unofficial@ == slot_company(ds, roles.1)
    &&& p.device_id_unofficial@ == slot_device_id(ds, roles.1)
    &&& p.device_token_unofficial@ == slot_device_token(ds, roles.1)
}

fn slot_fields(ds: &Vec<DeviceRecord>, i: Option<usize>) -> (r: (String, String, String))
    requires
        i is Some ==> i->Some_0 < ds.len(),
    ensures
        r.0@ == slot_company(ds@, opt_index(i)),
        r.1@ == slot_device_id(ds@, opt_index(i)),
        r.2@ == slot_device_token(ds@, opt_index(i)),
{
    match i {
        Some(k) => (ds[k].company_id.clone(), ds[k].device_id.clone(), ds[k].device_token.clone()),
        None => (String::new(), String::new(), String::new()),
    }
}

/// The launcher prefill for the devices of a run.
pub fn launcher_prefill(devices: &Vec<DeviceRecord>, cloud_url: &str, edge_url_for_pos: &str) -> (r:
    LauncherPrefill)
    ensures
        prefill_matches(r, devices@, cloud_url@, edge_url_for_pos@),
{
    let (off, un) = pick_roles(devices);
    let (co, io, to) = slot_fields(devices, off);
    let (cu, iu, tu) = slot_fields(devices, un);
    let cloud = String::from_str(cloud_url);
    let edge_url = if chars_of(cloud_url).len() == 0 {
        String::from_str(edge_url_for_pos)
    } else {
        String::from_str(cloud_url)
    };
    LauncherPrefill {
        cloud_url: cloud,
        edge_lan_url: String::from_str(edge_url_for_pos),
        edge_url,
        port_official: PORT_OFFICIAL,
        port_unofficial: PORT_UNOFFICIAL,
        company_official: co,
        company_unofficial: cu,
        device_id_official: io,
        device_token_official: to,
        device_id_unofficial: iu,
        device_token_unofficial: tu,
    }
}

/// The bundle for the devices of a run: a pack per device in order, the
/// devices themselves for the summary, and the launcher prefill.
pub open spec fn bundle_matches(
    b: ArtifactBundle,
    ds: Seq<DeviceRecord>,
    cloud_url: Seq<char>,
    edge_url_for_pos: Seq<char>,
) -> bool {
    &&& b.edge_api_url_for_pos@ == edge_url_for_pos
    &&& b.packs@.len() == ds.len()
    &&& forall|i: int|
        0 <= i < ds.len() ==> pack_matches(#[trigger] b.packs@[i].pack, ds[i], edge_url_for_pos)
            && b.packs@[i].file_name@ == pack_file_name_spec(ds[i])
    &&& b.devices@.len() == ds.len()
    &&& forall|i: int| 0 <= i < ds.len() ==> same_record(#[trigger] b.devices@[i], ds[i])
    &&& prefill_matches(b.prefill, ds, cloud_url, edge_url_for_pos)
}

/// Builds the bundle for the devices of a run.
pub fn build_bundle(devices: &Vec<DeviceRecord>, cloud_url: &str, edge_url_for_pos: &str) -> (r:
    ArtifactBundle)
    ensures
        bundle_matches(r, devices@, cloud_url@, edge_url_for_pos@),
{
    let mut packs: Vec<PackFile> = Vec::new();
    let mut copies: Vec<DeviceRecord> = Vec::new();
    let mut i: usize = 0;
    while i < devices.len()
        invariant
            i <= devices.len(),
            packs@.len() == i,
            copies@.len() == i,
            forall|j: int|
                0 <= j < i ==> pack_matches(#[trigger] packs@[j].pack, devices@[j], edge_url_for_pos@)
                    && packs@[j].file_name@ == pack_file_name_spec(devices@[j]),
            forall|j: int| 0 <= j < i ==> same_record(#[trigger] copies@[j], devices@[j]),
        decreases devices.len() - i,
    {
        packs.push(device_pack(&devices[i], edge_url_for_pos));
        copies.push(copy_record(&devices[i]));
        i = i + 1;
    }
    ArtifactBundle {
        edge_api_url_for_pos: String::from_str(edge_url_for_pos),
        packs,
        devices: copies,
        prefill: launcher_prefill(devices, cloud_url, edge_url_for_pos),
    }
}

} // verus!
