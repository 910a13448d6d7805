pub mod active_version;
pub mod default;
pub mod exec;
pub mod foreign;
pub mod install;
pub mod list;
pub mod list_remote;
pub mod local_versions;
pub mod manifest;
pub mod os_info;
pub mod paths;
pub mod pin;
pub mod pinned_version;
pub mod run;
pub mod text;
pub mod uninstall;
pub mod unpin;
pub mod versions;
pub mod which;
