//! How the app was distributed: a direct download or a Microsoft Store
//! (MSIX) package.
use vstd::prelude::*;

verus! {

/// The distribution channel and, for a Store install, the package family.
#[derive(Debug, Clone)]
pub struct DistributionInfo {
    pub channel: &'static str,
    pub is_store_install: bool,
    pub package_family_name: Option<String>,
}

/// The distribution info of an install with the given package family name.
pub fn distribution_info(package_family_name: Option<String>, is_store_install: bool) -> (r: DistributionInfo)
    ensures
        r.channel@ == if is_store_install {
            "store_msix"@
        } else {
            "direct"@
        },
        r.is_store_install == is_store_install,
        r.package_family_name == package_family_name,
{
    DistributionInfo {
        channel: if is_store_install {
            "store_msix"
        } else {
            "direct"
        },
        is_store_install,
        package_family_name,
    }
}

/// The distribution info that the package identity of the running process
/// implies: a Store install exactly when it has a package family name.
pub fn distribution_info_for(package_family_name: Option<String>) -> (r: DistributionInfo)
    ensures
        r.is_store_install == package_family_name is Some,
        r.channel@ == if package_family_name is Some {
            "store_msix"@
        } else {
            "direct"@
        },
        r.package_family_name == package_family_name,
{
    let is_store = package_family_name.is_some();
    distribution_info(package_family_name, is_store)
}

} // verus!
