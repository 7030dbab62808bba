use vstd::prelude::*;
use vstd::string::*;
use crate::text::{contains_chars, str_contains};
use crate::data_getters::main_data::cpuid_data::cpu_htt;

verus! {

/// The number of physical cores: the count the system reports, or else the
/// logical CPU count, halved on a hyper-threading processor.
pub open spec fn spec_core_count(physical: Option<usize>, threads: i32, hyperthreading: bool) -> int {
    match physical {
        Some(p) => (p as i32) as int,
        None => if hyperthreading { half_toward_zero(threads as int) } else { threads as int },
    }
}

/// Integer halving rounded toward zero, as Rust's `/ 2` on signed integers.
pub open spec fn half_toward_zero(x: int) -> int {
    if x >= 0 { x / 2 } else { -((-x) / 2) }
}

/// Decides the number of physical cores from the system's own count, the
/// number of logical CPUs and the hyper-threading flag.
pub fn core_count(physical: Option<usize>, threads: i32, hyperthreading: bool) -> (res: i32)
    ensures
        res == spec_core_count(physical, threads, hyperthreading),
{
    match physical {
        Some(p) => p as i32,
        None => if hyperthreading { threads / 2 } else { threads },
    }
}

/// CPUID's hyper-threading reading as a flag: set only when the feature
/// information is present and reports hyper-threading.
pub open spec fn htt_flag(htt: Option<bool>) -> bool {
    htt == Some(true)
}

/// The number of physical cores given CPUID's hyper-threading reading:
/// absent feature information counts as no hyper-threading.
pub fn cores_from_htt_reading(physical: Option<usize>, threads: i32, htt: Option<bool>) -> (res: i32)
    ensures
        res == spec_core_count(physical, threads, htt_flag(htt)),
{
    let ht = match htt {
        Some(flag) => flag,
        None => false,
    };
    core_count(physical, threads, ht)
}

/// The number of physical cores, with the hyper-threading flag read from CPUID.
pub fn count_cores(physical: Option<usize>, threads: i32) -> (res: i32)
    ensures
        exists|htt: Option<bool>| res == #[trigger] spec_core_count(physical, threads, htt_flag(htt)),
{
    let htt = cpu_htt();
    let res = cores_from_htt_reading(physical, threads, htt);
    assert(res == spec_core_count(physical, threads, htt_flag(htt)));
    res
}

/// A sensor label names a processor core temperature sensor.
pub open spec fn is_coretemp(label: Seq<char>) -> bool {
    contains_chars(label, "coretemp"@)
}

/// Whether the sensor label `label` names a core temperature sensor.
pub fn is_coretemp_label(label: &String) -> (res: bool)
    ensures
        res == is_coretemp(label@),
{
    str_contains(label.as_str(), "coretemp")
}

/// `res` is the position of the first label that names a core temperature
/// sensor, or `None` when no label does.
pub open spec fn first_coretemp(labels: Seq<Seq<char>>, res: Option<usize>) -> bool {
    match res {
        Some(i) => i < labels.len() && is_coretemp(labels[i as int])
            && forall|j: int| 0 <= j < i ==> !is_coretemp(#[trigger] labels[j]),
        None => forall|j: int| 0 <= j < labels.len() ==> !is_coretemp(#[trigger] labels[j]),
    }
}

/// `res` lists, in increasing order, exactly the positions of the labels that
/// name a core temperature sensor.
pub open spec fn all_coretemps(labels: Seq<Seq<char>>, res: Seq<usize>) -> bool {
    &&& forall|k: int| 0 <= k < res.len() ==> #[trigger] res[k] < labels.len() && is_coretemp(labels[res[k] as int])
    &&& forall|k1: int, k2: int| 0 <= k1 < k2 < res.len() ==> res[k1] < res[k2]
    &&& forall|j: int| 0 <= j < labels.len() && is_coretemp(#[trigger] labels[j]) ==> res.contains(j as usize)
}

/// The first sensor, by position, whose label names a core temperature
/// sensor; `None` when there is none.
pub fn find_coretemp(labels: &Vec<String>) -> (res: Option<usize>)
    ensures
        first_coretemp(labels.deep_view(), res),
{
    let ghost dv = labels.deep_view();
    let mut i: usize = 0;
    while i < labels.len()
        invariant
            i <= labels.len(),
            dv == labels.deep_view(),
            forall|j: int| 0 <= j < i ==> !is_coretemp(#[trigger] dv[j]),
        decreases labels.len() - i,
    {
        let found = is_coretemp_label(&labels[i]);
        assert(dv[i as int] == labels@[i as int]@);
        if found {
            return Some(i);
        }
        i = i + 1;
    }
    None
}

/// The positions of all sensors whose label names a core temperature
/// sensor, in increasing order.
pub fn coretemp_sensors(labels: &Vec<String>) -> (res: Vec<usize>)
    ensures
        all_coretemps(labels.deep_view(), res@),
{
    let ghost dv = labels.deep_view();
    let mut out: Vec<usize> = Vec::new();
    let mut i: usize = 0;
    while i < labels.len()
        invariant
            i <= labels.len(),
            dv == labels.deep_view(),
            forall|k: int| 0 <= k < out.len() ==> #[trigger] out@[k] < i && is_coretemp(dv[out@[k] as int]),
            forall|k1: int, k2: int| 0 <= k1 < k2 < out.len() ==> out@[k1] < out@[k2],
            forall|j: int| 0 <= j < i && is_coretemp(#[trigger] dv[j]) ==> out@.contains(j as usize),
        decreases labels.len() - i,
    {
        let ghost before = out@;
        let found = is_coretemp_label(&labels[i]);
        assert(dv[i as int] == labels@[i as int]@);
        if found {
            out.push(i);
        }
        assert forall|j: int| 0 <= j < i + 1 && is_coretemp(#[trigger] dv[j]) implies out@.contains(j as usize) by {
            if j < i {
                let k = choose|k: int| 0 <= k < before.len() && before[k] == j as usize;
                assert(out@[k] == j as usize);
            } else {
                assert(out@[out.len() - 1] == i);
            }
        }
        i = i + 1;
    }
    out
}

/// The sensor that a temperature reading is taken from is the first of all
/// the core temperature sensors; there is none exactly when the list is empty.
pub proof fn lemma_first_is_head_of_all(labels: Seq<Seq<char>>, first: Option<usize>, all: Seq<usize>)
    requires
        first_coretemp(labels, first),
        all_coretemps(labels, all),
    ensures
        first is None <==> all.len() == 0,
        first matches Some(i) ==> all[0] == i,
{
    match first {
        Some(i) => {
            assert(all.contains(i));
            let k = choose|k: int| 0 <= k < all.len() && all[k] == i;
            if k > 0 {
                assert(all[0] < all[k]);
                assert(!is_coretemp(labels[all[0] as int]));
            }
        },
        None => {
            if all.len() > 0 {
                assert(is_coretemp(labels[all[0] as int]));
            }
        },
    }
}

/// When the system reports a physical core count, that count is taken as
/// it is, whatever the logical CPU count and the hyper-threading flag.
pub proof fn lemma_system_count_taken(physical: usize, threads: i32, hyperthreading: bool)
    ensures
        spec_core_count(Some(physical), threads, hyperthreading) == physical as i32,
        spec_core_count(Some(physical), threads, hyperthreading)
            == spec_core_count(Some(physical), 0, false),
{
}

/// Without a count from the system, the core count lies between half the
/// logical CPU count and the full count, and never above the logical count.
pub proof fn lemma_core_count_bounds(threads: i32, hyperthreading: bool)
    requires
        threads >= 0,
    ensures
        0 <= spec_core_count(None, threads, hyperthreading) <= threads,
        threads <= 2 * spec_core_count(None, threads, hyperthreading) + 1,
        !hyperthreading ==> spec_core_count(None, threads, hyperthreading) == threads,
{
}

/// Identification of the running system.
#[derive(Debug, Clone)]
pub struct SystemInfo {
    pub host_name: String,
    pub boot_time: u64,
    pub distro_id: String,
    pub kernel_version: String,
    pub os_version: String,
}

/// A reported string, or the empty string in its place.
pub open spec fn or_empty(value: Option<String>) -> Seq<char> {
    match value {
        Some(v) => v@,
        None => Seq::empty(),
    }
}

fn string_or_empty(value: Option<String>) -> (res: String)
    ensures
        res@ == or_empty(value),
{
    match value {
        Some(v) => v,
        None => String::new(),
    }
}

/// Assembles the system identification; what the system does not report
/// reads as the empty string.
pub fn system_info(
    host_name: Option<String>,
    boot_time: u64,
    distro_id: String,
    kernel_version: Option<String>,
    os_version: Option<String>,
) -> (res: SystemInfo)
    ensures
        res.host_name@ == or_empty(host_name),
        res.boot_time == boot_time,
        res.distro_id@ == distro_id@,
        res.kernel_version@ == or_empty(kernel_version),
        res.os_version@ == or_empty(os_version),
{
    SystemInfo {
        host_name: string_or_empty(host_name),
        boot_time,
        distro_id,
        kernel_version: string_or_empty(kernel_version),
        os_version: string_or_empty(os_version),
    }
}

/// A mounted storage device.
#[derive(Debug, Clone)]
pub struct Drive {
    pub name: String,
    pub mount_point: String,
    pub file_sys: String,
    pub kind: String,
    pub removable: bool,
    pub space: u64,
    pub available_space: u64,
}

/// All mounted storage devices.
#[derive(Debug, Clone)]
pub struct Drives {
    pub drives: Vec<Drive>,
}

} // verus!
