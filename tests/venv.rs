use uv_installer::python_requirement::{MarkerEnvironment, PythonRequirement};
use uv_installer::venv::{activation_command, activation_script, seed_packages, shlex_posix, shlex_windows, Shell};
use uv_installer::version::{StringVersion, Version};

#[test]
fn posix_quoting() {
    assert_eq!(shlex_posix("/venv/bin/activate"), "/venv/bin/activate");
    assert_eq!(shlex_posix("/my venv/bin/activate"), "'/my venv/bin/activate'");
    assert_eq!(shlex_posix("/it's here/activate"), "'/it'\"'\"'s here/activate'");
}

#[test]
fn windows_quoting() {
    assert_eq!(shlex_windows("C:\\venv\\activate", Shell::Powershell), "C:\\venv\\activate");
    assert_eq!(shlex_windows("C:\\my venv\\activate", Shell::Powershell), "& \"C:\\my venv\\activate\"");
    assert_eq!(shlex_windows("C:\\my venv\\activate", Shell::Cmd), "\"C:\\my venv\\activate\"");
}

#[test]
fn activation_commands() {
    assert_eq!(activation_script(Shell::Fish), "activate.fish");
    assert_eq!(activation_script(Shell::Bash), "activate");
    assert_eq!(activation_command(Shell::Bash, "/v/bin/activate"), "source /v/bin/activate");
    assert_eq!(activation_command(Shell::Csh, "/a b/activate.csh"), "source '/a b/activate.csh'");
    assert_eq!(activation_command(Shell::Nushell, "/v/bin/activate.nu"), "overlay use /v/bin/activate.nu");
    assert_eq!(activation_command(Shell::Cmd, "C:\\v\\activate"), "C:\\v\\activate");
}

#[test]
fn seed_packages_by_python_version() {
    assert_eq!(seed_packages(&Version::new(vec![3, 11, 4])), vec!["pip", "setuptools", "wheel"]);
    assert_eq!(seed_packages(&Version::new(vec![3, 12])), vec!["pip"]);
    assert_eq!(seed_packages(&Version::new(vec![4])), vec!["pip"]);
}

#[test]
fn python_requirement_keeps_versions() {
    let installed = StringVersion::new("3.12.1".to_string(), Version::new(vec![3, 12, 1]));
    let target = StringVersion::new("3.8".to_string(), Version::new(vec![3, 8]));
    let r = PythonRequirement::new(&installed, &target);
    assert_eq!(r.installed().string, "3.12.1");
    assert_eq!(r.target().version.release, vec![3, 8]);
    let env = MarkerEnvironment { python_full_version: target };
    let m = PythonRequirement::from_marker_environment(&installed, &env);
    assert_eq!(m.target().string, "3.8");
    assert_eq!(m.installed().version.release, vec![3, 12, 1]);
}
