//! What one run asks for.

use vstd::prelude::*;

verus! {

/// The service to ask, the object below which its graph is enumerated, and
/// the interface that an object must expose to be kept.
#[derive(Debug)]
pub struct Query {
    /// The well-known bus name of the service.
    pub service: String,
    /// The path of the object that answers the enumeration call.
    pub root: String,
    /// The name of the interface to filter for.
    pub interface: String,
}

impl Query {
    /// A query for the given service, root path and interface.
    pub fn new(service: String, root: String, interface: String) -> (query: Query)
        ensures
            query.service == service,
            query.root == root,
            query.interface == interface,
    {
        Query { service, root, interface }
    }

    /// The query for the devices of the wireless daemon: service
    /// `net.connman.iwd`, from the root path `/`, interface
    /// `net.connman.iwd.Device`.
    pub fn devices() -> (query: Query)
        ensures
            query.service@ == "net.connman.iwd"@,
            query.root@ == "/"@,
            query.interface@ == "net.connman.iwd.Device"@,
    {
        Query {
            service: "net.connman.iwd".to_owned(),
            root: "/".to_owned(),
            interface: "net.connman.iwd.Device".to_owned(),
        }
    }
}

impl Default for Query {
    /// The query for the devices of the wireless daemon.
    fn default() -> (query: Query)
        ensures
            query.service@ == "net.connman.iwd"@,
            query.root@ == "/"@,
            query.interface@ == "net.connman.iwd.Device"@,
    {
        Query::devices()
    }
}

} // verus!
