//! The hardware and OS summary shown in diagnostics.
use vstd::prelude::*;
use crate::text::{chars_of, string_of, trim, trim_chars};

verus! {

broadcast use vstd::string::group_string_axioms;

/// Hardware and OS summary.
#[derive(Debug, Clone)]
pub struct SystemSpecs {
    pub os_name: String,
    pub os_version: String,
    pub kernel_version: String,
    pub arch: String,
    pub cpu_brand: String,
    pub cpu_cores: u32,
    pub total_memory_mb: u64,
    pub gpus: Vec<String>,
}

/// The view of an optional string.
pub open spec fn opt_view(o: Option<String>) -> Option<Seq<char>> {
    match o {
        Some(s) => Some(s@),
        None => None,
    }
}

fn or_unknown(v: Option<String>) -> (r: String)
    ensures
        r@ == match opt_view(v) {
            Some(s) => s,
            None => "Unknown"@,
        },
{
    match v {
        Some(s) => s,
        None => string_of(&chars_of("Unknown")),
    }
}

/// Assembles the summary from what the system reported: missing names read
/// `Unknown`; the long OS version is preferred over the short one; the CPU
/// brand is trimmed (blank reads `Unknown`); physical cores are preferred
/// over logical CPUs; memory is shown in whole MiB.
pub fn system_specs_from(
    os_name: Option<String>,
    long_os_version: Option<String>,
    os_version: Option<String>,
    kernel_version: Option<String>,
    arch: String,
    first_cpu_brand: Option<String>,
    physical_cores: Option<u32>,
    cpu_count: u32,
    total_memory_bytes: u64,
    gpus: Vec<String>,
) -> (r: SystemSpecs)
    ensures
        r.os_name@ == match opt_view(os_name) {
            Some(s) => s,
            None => "Unknown"@,
        },
        r.os_version@ == match opt_view(long_os_version) {
            Some(s) => s,
            None => match opt_view(os_version) {
                Some(s) => s,
                None => "Unknown"@,
            },
        },
        r.kernel_version@ == match opt_view(kernel_version) {
            Some(s) => s,
            None => "Unknown"@,
        },
        r.arch == arch,
        r.cpu_brand@ == match opt_view(first_cpu_brand) {
            Some(b) => if trim(b).len() > 0 {
                trim(b)
            } else {
                "Unknown"@
            },
            None => "Unknown"@,
        },
        r.cpu_cores == match physical_cores {
            Some(c) => c,
            None => cpu_count,
        },
        r.total_memory_mb == total_memory_bytes / 1_048_576,
        r.gpus == gpus,
{
    let version = match long_os_version {
        Some(v) => Some(v),
        None => os_version,
    };
    let brand = match first_cpu_brand {
        Some(b) => {
            let t = trim_chars(&chars_of(b.as_str()));
            if t.len() > 0 {
                string_of(&t)
            } else {
                string_of(&chars_of("Unknown"))
            }
        },
        None => string_of(&chars_of("Unknown")),
    };
    SystemSpecs {
        os_name: or_unknown(os_name),
        os_version: or_unknown(version),
        kernel_version: or_unknown(kernel_version),
        arch,
        cpu_brand: brand,
        cpu_cores: match physical_cores {
            Some(c) => c,
            None => cpu_count,
        },
        total_memory_mb: total_memory_bytes / 1_048_576,
        gpus,
    }
}

/// An adapter name without trailing NULs and surrounding whitespace.
pub open spec fn clean_gpu_name(n: Seq<char>) -> Seq<char> {
    trim(crate::text::trim_end_char(n, '\u{0}'))
}

/// The cleaned names of `names`, in order.
pub open spec fn cleaned_names(names: Seq<String>) -> Seq<Seq<char>> {
    names.map_values(|s: String| clean_gpu_name(s@))
}

/// Keeps the adapter names that are not blank once cleaned, in order.
pub fn clean_gpu_names(names: Vec<String>) -> (r: Vec<String>)
    ensures
        r@.map_values(|s: String| s@) == cleaned_names(names@).filter(|c: Seq<char>| c.len() > 0),
{
    let ghost pred = |c: Seq<char>| c.len() > 0;
    let mut out: Vec<String> = Vec::new();
    let mut i: usize = 0;
    while i < names.len()
        invariant
            i <= names@.len(),
            pred == (|c: Seq<char>| c.len() > 0),
            out@.map_values(|s: String| s@) == cleaned_names(names@).take(i as int).filter(pred),
        decreases names@.len() - i,
    {
        let without_nul = crate::text::trim_end_char_chars(&chars_of(names[i].as_str()), '\u{0}');
        let t = trim_chars(&without_nul);
        proof {
            let cl = cleaned_names(names@);
            assert(cl[i as int] == t@);
            assert(cl.take(i + 1) == cl.take(i as int).push(t@));
            cl.take(i as int).lemma_filter_push(t@, pred);
        }
        if t.len() > 0 {
            out.push(string_of(&t));
            assert(out@.map_values(|s: String| s@) == cleaned_names(names@).take(i as int).filter(pred).push(t@));
        }
        i += 1;
    }
    assert(cleaned_names(names@).take(names@.len() as int) == cleaned_names(names@));
    out
}

} // verus!
