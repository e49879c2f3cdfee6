//! Host facts reported by the memory service, read through sysinfo and nix.
//! They depend on the machine and the moment, so nothing is promised of their
//! values: the response logic takes them as arguments.
use vstd::prelude::*;

verus! {

#[verifier::external_type_specification]
#[verifier::external_body]
pub struct ExSystem(sysinfo::System);

/// Relies on sysinfo's `System::new`: a handle with nothing loaded yet.
pub assume_specification[ sysinfo::System::new ]() -> sysinfo::System;

/// Relies on sysinfo's `System::refresh_memory`: reloads the memory figures.
pub assume_specification[ sysinfo::System::refresh_memory ](s: &mut sysinfo::System);

/// Relies on sysinfo's `System::free_memory`: free RAM in bytes.
pub assume_specification[ sysinfo::System::free_memory ](s: &sysinfo::System) -> u64;

/// Relies on nix's `unistd::gethostname`: the host name, where it could be
/// read and is valid UTF-8.
#[verifier::external_body]
fn host_name() -> (r: Option<String>) {
    match nix::unistd::gethostname() {
        Ok(name) => name.into_string().ok(),
        Err(_) => None,
    }
}

/// Relies on nix's `unistd::getuid`: the real user id of this process.
#[verifier::external_body]
fn current_uid() -> (r: u32) {
    nix::unistd::getuid().as_raw()
}

/// Relies on nix's `unistd::User::from_uid`: the name of the user with id
/// `uid`, where the user database has one.
#[verifier::external_body]
fn user_name_of(uid: u32) -> (r: Option<String>) {
    match nix::unistd::User::from_uid(nix::unistd::Uid::from_raw(uid)) {
        Ok(Some(user)) => Some(user.name),
        _ => None,
    }
}

/// What the memory service reports of the host.
#[derive(Debug)]
pub struct MemoryFacts {
    pub hostname: String,
    pub username: String,
    pub free_bytes: u64,
}

/// Reads the host name, the name of the user running this process, and the
/// free memory in bytes; `None` where the host name or the user name cannot
/// be had.
pub fn read_memory_facts() -> (r: Option<MemoryFacts>) {
    let mut system = sysinfo::System::new();
    system.refresh_memory();
    let free_bytes = system.free_memory();
    let hostname = match host_name() {
        Some(h) => h,
        None => return None,
    };
    let username = match user_name_of(current_uid()) {
        Some(u) => u,
        None => return None,
    };
    Some(MemoryFacts { hostname, username, free_bytes })
}

} // verus!
