//! DNS resource records and responses as plain values, and the error a single
//! query attempt can produce.

use vstd::prelude::*;

use crate::addr::{Ipv4, Ipv6};

verus! {

/// The payload of a resource record, as far as the resolution logic reads it:
/// an IPv4 address record, an IPv6 address record, a name-server delegation,
/// or anything else.
#[derive(Clone, Debug)]
pub enum RecordData {
    A(Ipv4),
    Aaaa(Ipv6),
    Ns(String),
    Other,
}

/// One resource record: an owner name and its typed payload.
#[derive(Clone, Debug)]
pub struct DnsRecord {
    pub name: String,
    pub data: RecordData,
}

/// A decoded DNS response: its response code (0 means "no error") and the
/// records of its answer, name-server and additional sections, each in wire
/// order.
#[derive(Clone, Debug)]
pub struct Response {
    pub code: u16,
    pub answers: Vec<DnsRecord>,
    pub name_servers: Vec<DnsRecord>,
    pub additionals: Vec<DnsRecord>,
}

/// The error of one failed query attempt, with a human-readable description.
#[derive(Clone, Debug)]
pub struct QueryError {
    pub message: String,
}

impl DnsRecord {
    /// A record is well formed when its owner name is not empty, and a
    /// delegation's target name is not empty either.
    pub open spec fn wf(self) -> bool {
        &&& self.name@.len() > 0
        &&& (self.data is Ns ==> self.data->Ns_0@.len() > 0)
    }
}

impl Response {
    /// A response is well formed when every record in it is.
    pub open spec fn wf(self) -> bool {
        &&& forall|i: int| 0 <= i < self.answers@.len() ==> (#[trigger] self.answers@[i]).wf()
        &&& forall|i: int|
            0 <= i < self.name_servers@.len() ==> (#[trigger] self.name_servers@[i]).wf()
        &&& forall|i: int|
            0 <= i < self.additionals@.len() ==> (#[trigger] self.additionals@[i]).wf()
    }
}

} // verus!
