pub mod version;
pub mod dist;
pub mod satisfies;
pub mod site_packages;
pub mod plan;
pub mod venv;
pub mod python_requirement;
pub mod uninstall;
pub mod in_flight;
pub mod installer;
pub mod editable;
pub mod downloader;
