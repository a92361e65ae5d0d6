//! The servers on offer, and what each has.

use vstd::prelude::*;
use vstd::string::StringExecFns;

verus! {

/// What a server has.
#[derive(Clone, Copy, Debug, PartialEq, Eq, Structural)]
pub struct ResourceInfo {
    /// The number of processor cores.
    pub cpu: u8,
    /// The memory, in megabytes.
    pub memory: u16,
    /// The disk, in megabytes.
    pub disk: u64,
}

/// One server.
#[derive(Debug, PartialEq, Eq)]
pub struct ServerInfo {
    /// The server's identifier, a UUID.
    pub id: String,
    /// The server's address.
    pub ip: String,
    pub resource_info: ResourceInfo,
}

/// A [`ServerInfo`] as plain values.
pub struct ServerInfoView {
    pub id: Seq<char>,
    pub ip: Seq<char>,
    pub resource_info: ResourceInfo,
}

impl View for ServerInfo {
    type V = ServerInfoView;

    open spec fn view(&self) -> ServerInfoView {
        ServerInfoView { id: self.id@, ip: self.ip@, resource_info: self.resource_info }
    }
}

/// The list of servers.
#[derive(Debug, PartialEq, Eq)]
pub struct ServerList {
    pub servers: Vec<ServerInfo>,
}

impl View for ServerList {
    type V = Seq<ServerInfoView>;

    open spec fn view(&self) -> Seq<ServerInfoView> {
        Seq::new(self.servers@.len(), |i: int| self.servers@[i]@)
    }
}

/// The one server on offer.
pub open spec fn the_server() -> ServerInfoView {
    ServerInfoView {
        id: "a7957610-bc59-11ed-8f6c-88a4c2e3226d"@,
        ip: "185.121.123.90"@,
        resource_info: ResourceInfo { cpu: 4, memory: 3_000, disk: 100_000 },
    }
}

/// All the servers on offer: the one there is.
pub fn get_all() -> (list: ServerList)
    ensures
        list@ == seq![the_server()],
{
    let mut servers: Vec<ServerInfo> = Vec::new();
    servers.push(
        ServerInfo {
            id: String::from_str("a7957610-bc59-11ed-8f6c-88a4c2e3226d"),
            ip: String::from_str("185.121.123.90"),
            resource_info: ResourceInfo { cpu: 4_u8, memory: 3_000_u16, disk: 100_000_u64 },
        },
    );
    ServerList { servers }
}

} // verus!
