//! The package feed's answer to a query for a package's versions.
use vstd::prelude::*;

verus! {

pub struct NuGetPackagesResponse {
    pub count: u32,
    pub value: Vec<NuGetPackage>,
}

pub struct NuGetPackage {
    pub id: String,
    pub normalized_name: String,
    pub name: String,
    pub protocol_type: String,
    pub url: String,
    pub versions: Vec<NuGetPackageVersion>,
}

pub struct NuGetPackageVersion {
    pub id: String,
    pub normalized_version: String,
    pub version: String,
    pub is_latest: bool,
    pub is_listed: bool,
    pub publish_date: String,
}

/// The first version flagged latest among `versions`.
pub open spec fn latest_in_versions(versions: Seq<NuGetPackageVersion>) -> Option<Seq<char>>
    decreases versions.len(),
{
    if versions.len() == 0 {
        None
    } else if versions[0].is_latest {
        Some(versions[0].version@)
    } else {
        latest_in_versions(versions.drop_first())
    }
}

/// The first version flagged latest, taking the packages in order and the
/// versions of each in order.
pub open spec fn latest_in_packages(packages: Seq<NuGetPackage>) -> Option<Seq<char>>
    decreases packages.len(),
{
    if packages.len() == 0 {
        None
    } else {
        match latest_in_versions(packages[0].versions@) {
            Some(v) => Some(v),
            None => latest_in_packages(packages.drop_first()),
        }
    }
}

fn latest_of_package(versions: &Vec<NuGetPackageVersion>) -> (r: Option<String>)
    ensures
        match r {
            Some(v) => latest_in_versions(versions@) == Some(v@),
            None => latest_in_versions(versions@) is None,
        },
{
    let mut i: usize = 0;
    assert(versions@.skip(0) =~= versions@);
    while i < versions.len()
        invariant
            i <= versions@.len(),
            latest_in_versions(versions@) == latest_in_versions(versions@.skip(i as int)),
        decreases versions@.len() - i,
    {
        if versions[i].is_latest {
            return Some(versions[i].version.clone());
        }
        assert(versions@.skip(i as int).drop_first() =~= versions@.skip(i + 1));
        i = i + 1;
    }
    assert(versions@.skip(i as int) =~= Seq::<NuGetPackageVersion>::empty());
    None
}

impl NuGetPackagesResponse {
    /// The version that the feed flags as the latest, if any.
    pub fn latest_version(&self) -> (r: Option<String>)
        ensures
            match r {
                Some(v) => latest_in_packages(self.value@) == Some(v@),
                None => latest_in_packages(self.value@) is None,
            },
    {
        let packages = &self.value;
        let mut i: usize = 0;
        assert(packages@.skip(0) =~= packages@);
        while i < packages.len()
            invariant
                packages@ == self.value@,
                i <= packages@.len(),
                latest_in_packages(packages@) == latest_in_packages(packages@.skip(i as int)),
            decreases packages@.len() - i,
        {
            let ghost rest = packages@.skip(i as int);
            assert(rest[0] == packages@[i as int]);
            if let Some(v) = latest_of_package(&packages[i].versions) {
                return Some(v);
            }
            assert(packages@.skip(i as int).drop_first() =~= packages@.skip(i + 1));
            i = i + 1;
        }
        assert(packages@.skip(i as int) =~= Seq::<NuGetPackage>::empty());
        None
    }
}

} // verus!
