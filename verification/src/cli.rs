use vstd::prelude::*;

verus! {

/// What can be asked about network interfaces.
#[derive(Debug)]
#[allow(inconsistent_fields)]
pub enum InterfaceCommands {
    /// Show all interfaces, or the details of one.
    Show { interface: Option<String> },
    /// Set a property (`ip`, `up`, `down`, `mtu`, `mac`) of an interface.
    SetProperty { interface: String, property: String, values: Vec<String> },
}

/// What can be asked about the routing table.
#[derive(Debug)]
pub enum RouteCommands {
    /// Show routes: `table`, `cache`, `all`, or a selector of the system's own.
    Show { route_type: Option<String> },
    /// Add a route to `destination`.
    Add { destination: String, via: Option<String>, dev: Option<String>, table: Option<String> },
    /// Delete the route to `destination`.
    Delete { destination: String, table: Option<String> },
}

/// What can be asked about the firewall.
#[derive(Debug)]
pub enum FirewallCommands {
    /// Show the rules of a table (`filter` where none is named).
    Show { table: Option<String> },
    /// Carry out an action (`allow`, `deny`, `block`, `flush`, `save`,
    /// `restore`) with its parameters.
    Rule { action: String, params: Vec<String> },
}

/// What can be asked about port forwards.
#[derive(Debug)]
pub enum ForwardCommands {
    /// Show the forwards that are set up.
    Show,
    /// Set up a forward.
    Add { name: String, src_port: String, dest_ip: String, dest_port: String, protocol: String },
    /// Take a forward down.
    Remove { name: String },
}

/// What can be asked about name resolution.
#[derive(Debug)]
pub enum DnsCommands {
    /// Show the resolvers in use.
    Show,
    /// Set the resolvers.
    SetServers { primary: String, secondary: Option<String> },
}

/// What can be asked about traffic shaping.
#[derive(Debug)]
#[allow(inconsistent_fields)]
pub enum BandwidthCommands {
    /// Show the shaping of one interface, or of all.
    Show { interface: Option<String> },
    /// Limit the rate of an interface; the burst is the rate where none is given.
    Limit { interface: String, rate: String, burst: Option<String> },
}

/// What can be asked about tunnels.
#[derive(Debug)]
pub enum TunnelCommands {
    /// Create a tunnel of a kind (`gre`, `ipip`, `sit`) between two addresses.
    Create { name: String, tunnel_type: String, local_ip: String, remote_ip: String },
    /// Delete a tunnel.
    Delete { name: String },
}

/// What can be asked of the diagnostics.
#[derive(Debug)]
pub enum DiagCommands {
    /// Ping, trace and resolve a target.
    Connectivity { target: String, count: String },
    /// Probe a comma-separated list of ports on a target.
    Ports { target: String, ports: String },
    /// Measure the throughput of an interface over some seconds.
    Bandwidth { interface: String, duration: String },
}

} // verus!
