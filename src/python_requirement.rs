use vstd::prelude::*;

use crate::version::StringVersion;

verus! {

/// The values of the marker environment that a resolution is made for.
#[derive(Debug)]
pub struct MarkerEnvironment {
    pub python_full_version: StringVersion,
}

/// The installed Python version and the version that dependencies are resolved for.
#[derive(Debug)]
pub struct PythonRequirement {
    /// The installed version of Python.
    installed: StringVersion,
    /// The target version of Python; that is, the version of Python for which
    /// dependencies are resolved. This is typically the same as the installed
    /// version, but may differ when resolving for another Python version.
    target: StringVersion,
}

impl PythonRequirement {
    pub closed spec fn installed_view(&self) -> (Seq<char>, Seq<u64>) {
        (self.installed.string@, self.installed.version.release@)
    }

    pub closed spec fn target_view(&self) -> (Seq<char>, Seq<u64>) {
        (self.target.string@, self.target.version.release@)
    }

    /// A requirement for the interpreter whose full version is `installed`,
    /// resolving for `target`.
    pub fn new(installed: &StringVersion, target: &StringVersion) -> (r: PythonRequirement)
        ensures
            r.installed_view() == (installed.string@, installed.version.release@),
            r.target_view() == (target.string@, target.version.release@),
    {
        PythonRequirement { installed: installed.duplicate(), target: target.duplicate() }
    }

    /// A requirement for the interpreter whose full version is `installed`,
    /// resolving for the Python version of the marker environment.
    pub fn from_marker_environment(installed: &StringVersion, env: &MarkerEnvironment) -> (r:
        PythonRequirement)
        ensures
            r.installed_view() == (installed.string@, installed.version.release@),
            r.target_view() == (
                env.python_full_version.string@,
                env.python_full_version.version.release@,
            ),
    {
        Self::new(installed, &env.python_full_version)
    }

    /// Return the installed version of Python.
    pub fn installed(&self) -> (r: &StringVersion)
        ensures
            (r.string@, r.version.release@) == self.installed_view(),
    {
        &self.installed
    }

    /// Return the target version of Python.
    pub fn target(&self) -> (r: &StringVersion)
        ensures
            (r.string@, r.version.release@) == self.target_view(),
    {
        &self.target
    }
}

} // verus!
