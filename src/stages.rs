//! How the stages hand over to one another: the manifest's data and the
//! command-line options become the arguments of the build, the metadata
//! document and the archive, and the archive's name gives where it is saved.

use vstd::prelude::*;
use vstd::string::*;
use crate::nuspec::{Buf, NugetDependencies, NugetSpecArgs, Nuspec};
use crate::pack::{NativeLib, NugetPackArgs, Nupkg};
use crate::platform::{
    cross_from_rid, nuget_of_target, Action, CrossTarget, NugetTarget, Profile, Target,
};
use crate::resolve::{CargoCrossBuildArgs, CargoCrossTarget, CargoLocalBuildArgs};
use crate::manifest::CargoConfig;
use crate::text::join3;

verus! {

/// The options a pack is run with.
#[derive(Debug)]
pub struct CommandOptions {
    /// The folder of the crate; the current one where absent.
    pub work_dir: Option<String>,
    /// Whether to run the crate's tests first.
    pub test: bool,
    /// Whether to build with optimisations.
    pub release: bool,
    /// Whether to silence `cargo`.
    pub quiet: bool,
    /// The folder to save the package in; the current one where absent.
    pub nupkg_dir: Option<String>,
}

/// A target requested for a cross pack and the artifact supplied for it, if
/// any, with whether a file exists there.
#[derive(Debug)]
pub struct RequestedTarget {
    pub target: CrossTarget,
    pub supplied: Option<(String, bool)>,
}

/// What saving a package is asked to do.
#[derive(Debug)]
pub struct NugetSaveArgs {
    pub path: String,
    pub nupkg: Buf,
}

/// Where a package was saved.
#[derive(Debug)]
pub struct NupkgPath {
    pub path: String,
}

/// The authors joined into one string, separated by `, `.
pub open spec fn joined(authors: Seq<String>) -> Seq<char>
    decreases authors.len(),
{
    if authors.len() == 0 {
        Seq::empty()
    } else if authors.len() == 1 {
        authors[0]@
    } else {
        joined(authors.drop_last()) + ", "@ + authors.last()@
    }
}

/// A folder, or the current one where none is given.
pub open spec fn dir_or_current(dir: Option<String>) -> Seq<char> {
    match dir {
        Some(d) => d@,
        None => "."@,
    }
}

/// The action a pack's options ask for.
pub open spec fn action_of(test: bool) -> Action {
    if test {
        Action::Test
    } else {
        Action::Build
    }
}

/// The profile a pack's options ask for.
pub open spec fn profile_of(release: bool) -> Profile {
    if release {
        Profile::Release
    } else {
        Profile::Debug
    }
}

/// The targets named by a list of identifiers: each identifier that names a
/// supported target, in order, the first time that target is named.
pub open spec fn parsed_targets(rids: Seq<String>) -> Seq<CrossTarget>
    decreases rids.len(),
{
    if rids.len() == 0 {
        Seq::empty()
    } else {
        let before = parsed_targets(rids.drop_last());
        match cross_from_rid(rids.last()@) {
            Some(t) => if before.contains(t) {
                before
            } else {
                before.push(t)
            },
            None => before,
        }
    }
}

/// Joins the authors with `, `.
pub fn join_authors(authors: &[String]) -> (r: String)
    ensures
        r@ == joined(authors@),
{
    let mut r = String::new();
    let n = authors.len();
    let mut i: usize = 0;
    while i < n
        invariant
            n == authors@.len(),
            i <= n,
            r@ == joined(authors@.subrange(0, i as int)),
        decreases n - i,
    {
        if i > 0 {
            r.append(", ");
        }
        r.append(authors[i].as_str());
        proof {
            let s = authors@.subrange(0, i + 1);
            assert(s.drop_last() =~= authors@.subrange(0, i as int));
            if i == 0 {
                assert(joined(authors@.subrange(0, 0)) == Seq::<char>::empty());
                assert(r@ =~= s[0]@);
            }
        }
        i = i + 1;
    }
    assert(authors@.subrange(0, n as int) =~= authors@);
    r
}

/// The supported targets named on the command line, each once, in order;
/// identifiers that name none are left out.
pub fn parse_targets(rids: &[String]) -> (r: Vec<CrossTarget>)
    ensures
        r@ == parsed_targets(rids@),
{
    let mut r: Vec<CrossTarget> = Vec::new();
    let n = rids.len();
    let mut i: usize = 0;
    while i < n
        invariant
            n == rids@.len(),
            i <= n,
            r@ == parsed_targets(rids@.subrange(0, i as int)),
        decreases n - i,
    {
        assert(rids@.subrange(0, i + 1).drop_last() =~= rids@.subrange(0, i as int));
        match CrossTarget::from_rid(rids[i].as_str()) {
            Some(t) => {
                let mut seen = false;
                let mut j: usize = 0;
                while j < r.len()
                    invariant
                        j <= r@.len(),
                        seen <==> exists|k: int| 0 <= k < j && r@[k] == t,
                    decreases r@.len() - j,
                {
                    if r[j] == t {
                        seen = true;
                    }
                    j = j + 1;
                }
                if !seen {
                    r.push(t);
                }
            },
            None => {},
        }
        i = i + 1;
    }
    assert(rids@.subrange(0, n as int) =~= rids@);
    r
}

/// The folder a pack works in.
fn work_dir_of(options: &CommandOptions) -> (r: String)
    ensures
        r@ == dir_or_current(options.work_dir),
{
    match &options.work_dir {
        Some(dir) => dir.clone(),
        None => String::from_str("."),
    }
}

impl CargoLocalBuildArgs {
    /// The local build a pack's options and manifest ask for.
    pub fn from_options(options: &CommandOptions, cargo: &CargoConfig) -> (r: Self)
        ensures
            r.work_dir@ == dir_or_current(options.work_dir),
            r.output_name@ == cargo.name@,
            r.action == action_of(options.test),
            r.profile == profile_of(options.release),
            r.quiet == options.quiet,
    {
        CargoLocalBuildArgs {
            work_dir: work_dir_of(options),
            output_name: cargo.name.clone(),
            quiet: options.quiet,
            action: if options.test {
                Action::Test
            } else {
                Action::Build
            },
            profile: if options.release {
                Profile::Release
            } else {
                Profile::Debug
            },
        }
    }
}

impl CargoCrossBuildArgs {
    /// The cross build a pack's options, manifest and requested targets ask
    /// for: a target with a supplied artifact takes it, any other is asked to
    /// be built.
    pub fn from_options(options: &CommandOptions, cargo: &CargoConfig, requested: Vec<RequestedTarget>) -> (r: Self)
        ensures
            r.work_dir@ == dir_or_current(options.work_dir),
            r.quiet == options.quiet,
            r.targets@.len() == requested@.len(),
            forall|i: int|
                #![trigger r.targets@[i]]
                0 <= i < requested@.len() ==> r.targets@[i].0 == requested@[i].target && match requested@[i].supplied {
                    Some((path, exists)) => r.targets@[i].1 matches CargoCrossTarget::Path { path: p, exists: e }
                        && p@ == path@ && e == exists,
                    None => r.targets@[i].1 matches CargoCrossTarget::Build { action, profile, output_name }
                        && action == action_of(options.test) && profile == profile_of(options.release)
                        && output_name@ == cargo.name@,
                },
    {
        let mut targets: Vec<(CrossTarget, CargoCrossTarget)> = Vec::new();
        let n = requested.len();
        let mut i: usize = 0;
        while i < n
            invariant
                n == requested@.len(),
                i <= n,
                targets@.len() == i,
                forall|j: int|
                    #![trigger targets@[j]]
                    0 <= j < i ==> targets@[j].0 == requested@[j].target && match requested@[j].supplied {
                        Some((path, exists)) => targets@[j].1 matches CargoCrossTarget::Path { path: p, exists: e }
                            && p@ == path@ && e == exists,
                        None => targets@[j].1 matches CargoCrossTarget::Build { action, profile, output_name }
                            && action == action_of(options.test) && profile == profile_of(options.release)
                            && output_name@ == cargo.name@,
                    },
            decreases n - i,
        {
            let request = &requested[i];
            let how = match &request.supplied {
                Some((path, exists)) => CargoCrossTarget::Path { path: path.clone(), exists: *exists },
                None => CargoCrossTarget::Build {
                    action: if options.test {
                        Action::Test
                    } else {
                        Action::Build
                    },
                    profile: if options.release {
                        Profile::Release
                    } else {
                        Profile::Debug
                    },
                    output_name: cargo.name.clone(),
                },
            };
            targets.push((request.target, how));
            i = i + 1;
        }
        CargoCrossBuildArgs { work_dir: work_dir_of(options), quiet: options.quiet, targets }
    }
}

impl NugetSpecArgs {
    /// The metadata of a package made from a crate's manifest: the crate's
    /// name as id, its authors joined with `, `, the default dependencies.
    pub fn from_config(cargo: &CargoConfig) -> (r: Self)
        ensures
            r.id@ == cargo.name@,
            r.version@ == cargo.version@,
            r.authors@ == joined(cargo.authors@),
            r.description@ == cargo.description@,
            r.dependencies.0@.len() == 1,
            r.dependencies.0@[0].id@ == crate::nuspec::PLATFORM_PACKAGE_ID@,
            r.dependencies.0@[0].version@ == crate::nuspec::PLATFORM_PACKAGE_VERSION@,
    {
        NugetSpecArgs {
            id: cargo.name.clone(),
            version: cargo.version.clone(),
            authors: join_authors(cargo.authors.as_slice()),
            description: cargo.description.clone(),
            dependencies: NugetDependencies::default(),
        }
    }
}

impl NugetPackArgs {
    /// The archive of a `nuspec` document and the libraries built for it,
    /// each packed for the package target of its build target; `local` is
    /// the supported pair of the host.
    pub fn from_builds(nuspec: Nuspec, libs: Vec<(Target, NativeLib)>, local: Option<CrossTarget>) -> (r: Self)
        ensures
            r.id@ == nuspec.id@,
            r.version@ == nuspec.version@,
            r.spec@ == nuspec.xml@,
            r.cargo_libs@.len() == libs@.len(),
            forall|i: int|
                0 <= i < libs@.len() ==> (#[trigger] r.cargo_libs@[i]).0 == nuget_of_target(
                    libs@[i].0,
                    local,
                ) && r.cargo_libs@[i].1 == libs@[i].1,
    {
        let ghost old_libs = libs@;
        let mut libs = libs;
        let mut out: Vec<(NugetTarget, NativeLib)> = Vec::new();
        let n = libs.len();
        let mut i: usize = 0;
        // take the libraries from the back, then put them back in order
        while i < n
            invariant
                n == old_libs.len(),
                i <= n,
                libs@ == old_libs.subrange(0, n - i),
                out@.len() == i,
                forall|j: int|
                    0 <= j < i ==> (#[trigger] out@[j]).0 == nuget_of_target(
                        old_libs[n - 1 - j].0,
                        local,
                    ) && out@[j].1 == old_libs[n - 1 - j].1,
            decreases n - i,
        {
            let (target, lib) = libs.pop().unwrap();
            out.push((NugetTarget::from_target(target, local), lib));
            assert(libs@ =~= old_libs.subrange(0, n - i - 1));
            i = i + 1;
        }
        let mut cargo_libs: Vec<(NugetTarget, NativeLib)> = Vec::new();
        let mut k: usize = 0;
        while k < n
            invariant
                n == old_libs.len(),
                k <= n,
                out@.len() == n - k,
                forall|j: int|
                    0 <= j < n - k ==> (#[trigger] out@[j]).0 == nuget_of_target(
                        old_libs[n - 1 - j].0,
                        local,
                    ) && out@[j].1 == old_libs[n - 1 - j].1,
                cargo_libs@.len() == k,
                forall|j: int|
                    0 <= j < k ==> (#[trigger] cargo_libs@[j]).0 == nuget_of_target(
                        old_libs[j].0,
                        local,
                    ) && cargo_libs@[j].1 == old_libs[j].1,
            decreases n - k,
        {
            let entry = out.pop().unwrap();
            cargo_libs.push(entry);
            k = k + 1;
        }
        NugetPackArgs { id: nuspec.id, version: nuspec.version, spec: nuspec.xml, cargo_libs }
    }
}

impl NugetSaveArgs {
    /// Saves a package under its own name in `nupkg_dir`, or in the current
    /// folder where none is given.
    pub fn from_options(options: &CommandOptions, nupkg: Nupkg) -> (r: Self)
        ensures
            r.path@ == dir_or_current(options.nupkg_dir) + "/"@ + nupkg.name@,
            r.nupkg == nupkg.buf,
    {
        let dir = match &options.nupkg_dir {
            Some(dir) => dir.clone(),
            None => String::from_str("."),
        };
        NugetSaveArgs { path: join3(dir.as_str(), "/", nupkg.name.as_str()), nupkg: nupkg.buf }
    }
}

} // verus!
