use vstd::prelude::*;
use vstd::string::*;
use crate::data_getters::main_data::cpuid_data::{brand_shaped, cpu_brand, cpu_vendor, lemma_pair_shapes, select_name_and_vendor, vendor_shaped};

verus! {

/// A reported string, or `"none"` in its place.
pub open spec fn reported_or_none(value: Option<String>) -> Seq<char> {
    match value {
        Some(v) => v@,
        None => "none"@,
    }
}

/// A CPUID string as handed over the C interface: the string itself, or
/// `"none"` when the processor does not report it.
pub fn text_or_none(value: Option<String>) -> (res: String)
    ensures
        res@ == reported_or_none(value),
{
    match value {
        Some(v) => v,
        None => String::from_str("none"),
    }
}

/// The vendor identification as the C interface reports it. Which string
/// comes back depends on the machine; it is shaped as a vendor
/// identification. The verified choice is `text_or_none`.
pub fn cpu_vendor_text() -> (res: String)
    ensures
        vendor_shaped(res@),
{
    proof { reveal_strlit("none"); }
    text_or_none(cpu_vendor())
}

/// The brand string as the C interface reports it. Which string comes back
/// depends on the machine; it is shaped as a brand string. The verified
/// choice is `text_or_none`.
pub fn cpu_name_text() -> (res: String)
    ensures
        brand_shaped(res@),
{
    proof { reveal_strlit("none"); }
    text_or_none(cpu_brand())
}

/// The processor's `(vendor, name)` pair, or `("none", "none")` when CPUID
/// does not report both. Which strings come back depends on the machine;
/// what is stated is that the first is shaped as a vendor identification
/// and the second as a brand string. `select_name_and_vendor` is the
/// verified choice made from the two readings.
pub fn non_c_name_and_vendor() -> (res: (String, String))
    ensures
        vendor_shaped(res.0@),
        brand_shaped(res.1@),
{
    let vendor = cpu_vendor();
    let brand = cpu_brand();
    proof { lemma_pair_shapes(vendor, brand); }
    select_name_and_vendor(vendor, brand)
}

} // verus!
