use vstd::prelude::*;
use vstd::string::*;

verus! {

/// A vendor identification as `raw_cpuid` renders it: the 12 bytes of
/// EBX, EDX and ECX read as UTF-8 (so at most 12 characters), or the fixed
/// text `InvalidVendorString` when those bytes are not UTF-8.
pub open spec fn vendor_shaped(s: Seq<char>) -> bool {
    s.len() <= 12 || s == "InvalidVendorString"@
}

/// A processor brand string as `raw_cpuid` renders it: the 48 bytes of the
/// three brand leaves up to the first NUL byte, trimmed (so at most 48
/// characters), or the fixed text `Invalid Processor Brand String`.
pub open spec fn brand_shaped(s: Seq<char>) -> bool {
    s.len() <= 48
}

/// The processor's vendor identification (CPUID leaf 0), read with
/// `raw_cpuid::CpuId::get_vendor_info` and rendered with its `Display`
/// (which writes `VendorInfo::as_str`). Which vendor comes back depends on
/// the machine; what is claimed is only its shape (`vendor_shaped`).
#[verifier::external_body]
pub(crate) fn cpu_vendor() -> (res: Option<String>)
    ensures
        res matches Some(v) ==> vendor_shaped(v@),
{
    match raw_cpuid::CpuId::new().get_vendor_info() {
        Some(info) => Some(info.to_string()),
        None => None,
    }
}

/// The processor brand string (CPUID leaves 0x8000_0002..4), read with
/// `raw_cpuid::CpuId::get_processor_brand_string` and `as_str`. Which brand
/// comes back depends on the machine; what is claimed is only its shape
/// (`brand_shaped`).
#[verifier::external_body]
pub(crate) fn cpu_brand() -> (res: Option<String>)
    ensures
        res matches Some(b) ==> brand_shaped(b@),
{
    match raw_cpuid::CpuId::new().get_processor_brand_string() {
        Some(brand) => Some(brand.as_str().to_owned()),
        None => None,
    }
}

/// The hyper-threading flag of the feature information (CPUID leaf 1), read
/// with `raw_cpuid::CpuId::get_feature_info` and `FeatureInfo::has_htt`.
/// The answer depends on the machine; nothing is claimed of it.
#[verifier::external_body]
pub(crate) fn cpu_htt() -> Option<bool> {
    match raw_cpuid::CpuId::new().get_feature_info() {
        Some(info) => Some(info.has_htt()),
        None => None,
    }
}

/// The deterministic cache parameters (CPUID leaf 4, or 0x8000_001D on AMD),
/// read with `raw_cpuid::CpuId::get_cache_parameters`, one entry per cache
/// that the iterator yields, with the cache type rendered by its `Display`.
/// Which caches come back depends on the machine; what is claimed is only
/// the range of each field as the accessors compute it from its register
/// bits (see `cpuid_cache_fields`). The number of sets, ECX + 1, is not
/// claimed to be positive: for ECX = 0xFFFF_FFFF that `u32` addition
/// panics in builds with overflow checks and wraps to 0 in builds without.
#[verifier::external_body]
pub(crate) fn cpu_cache_parameters() -> (res: Option<Vec<CacheParams>>)
    ensures
        res matches Some(v) ==> forall|i: int| 0 <= i < v.len() ==> cpuid_cache_fields(#[trigger] v@[i]),
{
    let caches = raw_cpuid::CpuId::new().get_cache_parameters()?;
    let mut out = Vec::new();
    for c in caches {
        out.push(CacheParams {
            cache_type: c.cache_type().to_string(),
            level: c.level(),
            coherency_line_size: c.coherency_line_size(),
            physical_line_partitions: c.physical_line_partitions(),
            associativity: c.associativity(),
            sets: c.sets(),
        });
    }
    Some(out)
}

/// The vendor and brand pair: both strings as the processor reports them, or
/// `("none", "none")` when either is not available.
pub open spec fn names_or_none(vendor: Option<String>, brand: Option<String>) -> (Seq<char>, Seq<char>) {
    match (vendor, brand) {
        (Some(v), Some(b)) => (v@, b@),
        _ => ("none"@, "none"@),
    }
}

/// Combines the vendor identification and the brand string into the pair
/// `(vendor, name)`; when either is missing, both read `"none"`.
pub fn select_name_and_vendor(vendor: Option<String>, brand: Option<String>) -> (res: (String, String))
    ensures
        (res.0@, res.1@) == names_or_none(vendor, brand),
{
    match (vendor, brand) {
        (Some(v), Some(b)) => (v, b),
        _ => (String::from_str("none"), String::from_str("none")),
    }
}

/// The processor's `(vendor, name)` pair, or `("none", "none")` when CPUID
/// does not report both. Which strings come back depends on the machine;
/// what is stated is that the first is shaped as a vendor identification
/// and the second as a brand string. `select_name_and_vendor` is the
/// verified choice made from the two readings.
pub fn name_and_vendor() -> (res: (String, String))
    ensures
        vendor_shaped(res.0@),
        brand_shaped(res.1@),
{
    proof { reveal_strlit("none"); }
    let vendor = cpu_vendor();
    let brand = cpu_brand();
    proof { lemma_pair_shapes(vendor, brand); }
    select_name_and_vendor(vendor, brand)
}

/// The pair is ordered vendor first, brand second: whatever the two
/// readings, the first component is shaped as a vendor identification and
/// the second as a brand string, and when both readings are present they
/// come back unchanged, each in its own place.
pub proof fn lemma_pair_shapes(vendor: Option<String>, brand: Option<String>)
    requires
        vendor matches Some(v) ==> vendor_shaped(v@),
        brand matches Some(b) ==> brand_shaped(b@),
    ensures
        vendor_shaped(names_or_none(vendor, brand).0),
        brand_shaped(names_or_none(vendor, brand).1),
        match (vendor, brand) {
            (Some(v), Some(b)) => names_or_none(vendor, brand).0 == v@ && names_or_none(vendor, brand).1 == b@,
            _ => names_or_none(vendor, brand).0 == "none"@ && names_or_none(vendor, brand).1 == "none"@,
        },
{
    reveal_strlit("none");
}

/// The parameters of one cache level as CPUID describes them.
#[derive(Debug, Clone)]
pub struct CacheParams {
    pub cache_type: String,
    pub level: u8,
    pub coherency_line_size: usize,
    pub physical_line_partitions: usize,
    pub associativity: usize,
    pub sets: usize,
}

/// The ranges of the cache parameters that CPUID can describe: the cache
/// type is one of the three that the enumeration yields (it stops at a null
/// or reserved type), the level is a 3-bit field, the line size, partition
/// count and associativity are 12-, 10- and 10-bit fields plus one, and the
/// set count is a 32-bit field plus one.
pub open spec fn cpuid_cache_fields(p: CacheParams) -> bool {
    &&& (p.cache_type@ == "Data"@ || p.cache_type@ == "Instruction"@ || p.cache_type@ == "Unified"@)
    &&& p.level <= 7
    &&& 1 <= p.coherency_line_size <= 4096
    &&& 1 <= p.physical_line_partitions <= 1024
    &&& 1 <= p.associativity <= 1024
    &&& p.sets <= 0x1_0000_0000
}

/// The summary of one cache level: its size in bytes, level and type.
#[derive(Debug, Clone)]
pub struct CacheData {
    pub size: i64,
    pub level: u8,
    pub cache_type: String,
}

/// The cache size in bytes: ways x partitions x line size x sets.
pub open spec fn cache_bytes(p: CacheParams) -> int {
    p.associativity * p.physical_line_partitions * p.coherency_line_size * p.sets
}

/// The product of the four factors, and each partial product, fits in a `usize`.
pub open spec fn size_fits(p: CacheParams) -> bool {
    &&& p.associativity * p.physical_line_partitions <= usize::MAX
    &&& p.associativity * p.physical_line_partitions * p.coherency_line_size <= usize::MAX
    &&& cache_bytes(p) <= usize::MAX
}

/// `d` is the summary of the cache that `p` describes.
pub open spec fn summarizes(d: CacheData, p: CacheParams) -> bool {
    &&& d.size == cache_bytes(p) as i64
    &&& d.level == p.level
    &&& d.cache_type@ == p.cache_type@
}

/// Whether the size computation of `p` stays within `usize`.
pub fn size_fits_usize(p: &CacheParams) -> (res: bool)
    ensures
        res == size_fits(*p),
{
    let ap = match p.associativity.checked_mul(p.physical_line_partitions) {
        Some(x) => x,
        None => return false,
    };
    let apl = match ap.checked_mul(p.coherency_line_size) {
        Some(x) => x,
        None => return false,
    };
    match apl.checked_mul(p.sets) {
        Some(_) => true,
        None => false,
    }
}

/// The summary of one cache level.
pub fn cache_entry(p: &CacheParams) -> (res: CacheData)
    requires
        size_fits(*p),
    ensures
        summarizes(res, *p),
{
    let size = p.associativity * p.physical_line_partitions * p.coherency_line_size * p.sets;
    CacheData { size: size as i64, level: p.level, cache_type: p.cache_type.clone() }
}

/// The summaries of the given cache levels, in order.
pub fn cache_entries(params: &Vec<CacheParams>) -> (res: Vec<CacheData>)
    requires
        forall|i: int| 0 <= i < params.len() ==> size_fits(#[trigger] params@[i]),
    ensures
        res.len() == params.len(),
        forall|i: int| 0 <= i < params.len() ==> summarizes(#[trigger] res@[i], params@[i]),
{
    let mut out: Vec<CacheData> = Vec::new();
    let mut i: usize = 0;
    while i < params.len()
        invariant
            i <= params.len(),
            out.len() == i,
            forall|j: int| 0 <= j < params.len() ==> size_fits(#[trigger] params@[j]),
            forall|j: int| 0 <= j < i ==> summarizes(#[trigger] out@[j], params@[j]),
        decreases params.len() - i,
    {
        let entry = cache_entry(&params[i]);
        out.push(entry);
        i = i + 1;
    }
    out
}

/// The sizes of all the given cache levels fit in a `usize`.
pub fn all_sizes_fit(params: &Vec<CacheParams>) -> (res: bool)
    ensures
        res == forall|i: int| 0 <= i < params.len() ==> size_fits(#[trigger] params@[i]),
{
    let mut i: usize = 0;
    while i < params.len()
        invariant
            i <= params.len(),
            forall|j: int| 0 <= j < i ==> size_fits(#[trigger] params@[j]),
        decreases params.len() - i,
    {
        if !size_fits_usize(&params[i]) {
            return false;
        }
        i = i + 1;
    }
    true
}

/// The summaries of the levels that `params` describes, or none at all when
/// CPUID has no cache parameters (`None`) or a size would not fit in a `usize`.
pub open spec fn cache_report(params: Option<Seq<CacheParams>>, res: Seq<CacheData>) -> bool {
    match params {
        Some(p) => if forall|i: int| 0 <= i < p.len() ==> size_fits(#[trigger] p[i]) {
            res.len() == p.len() && forall|i: int| 0 <= i < p.len() ==> summarizes(#[trigger] res[i], p[i])
        } else {
            res.len() == 0
        },
        None => res.len() == 0,
    }
}

/// Reports the processor's caches from the given CPUID cache parameters.
pub fn cache_data_from(params: Option<Vec<CacheParams>>) -> (res: Vec<CacheData>)
    ensures
        cache_report(vec_opt_seq(params), res@),
{
    match params {
        Some(p) => if all_sizes_fit(&p) {
            cache_entries(&p)
        } else {
            Vec::new()
        },
        None => Vec::new(),
    }
}

pub open spec fn vec_opt_seq<T>(v: Option<Vec<T>>) -> Option<Seq<T>> {
    match v {
        Some(x) => Some(x@),
        None => None,
    }
}

/// The processor's caches as CPUID describes them: one summary per cache
/// level, or none at all when CPUID reports no cache parameters or when the
/// size of some level would overflow a `usize`.
pub fn get_cache() -> (res: Vec<CacheData>)
    ensures
        exists|p: Option<Seq<CacheParams>>| #[trigger] cache_report(p, res@) && cpuid_ranges(p),
{
    let params = cpu_cache_parameters();
    let res = cache_data_from(params);
    proof {
        let p = vec_opt_seq(params);
        assert(cache_report(p, res@) && cpuid_ranges(p));
    }
    res
}

/// Every cache parameter set in `p` lies in the ranges CPUID can describe.
pub open spec fn cpuid_ranges(p: Option<Seq<CacheParams>>) -> bool {
    p matches Some(s) ==> forall|i: int| 0 <= i < s.len() ==> cpuid_cache_fields(#[trigger] s[i])
}

} // verus!
