use vstd::prelude::*;

verus! {

/// The number of outer addresses of a host that names none.
pub fn return_0() -> (n: i32)
    ensures
        n == 0,
{
    0
}

/// A host as the host descriptor names it.
#[derive(Debug, PartialEq, Default)]
pub struct Host {
    pub name: String,
    pub inner_ip: String,
    pub outer_ip_count: i32,
    pub outer_ip: Option<String>,
}

/// The host descriptor.
#[derive(Debug, PartialEq, Default)]
pub struct HostTcmCenter {
    pub host_tab: HostTab,
}

/// The table of hosts of the host descriptor.
#[derive(Debug, PartialEq, Default)]
pub struct HostTab {
    pub hosts: Vec<Host>,
}

} // verus!
