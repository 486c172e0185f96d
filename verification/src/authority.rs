//! Name-server candidates: the `Authority` type, the fixed root-hint table,
//! and referral extraction from a response's name-server and additional
//! sections.

use vstd::prelude::*;

use crate::addr::{IpAddress, Ipv4, NetAddress};
use crate::records::{DnsRecord, RecordData, Response};

verus! {

/// A name-server candidate: a fully-qualified domain name and, when known,
/// a resolved network address. An authority without an address fails
/// immediately when queried, without any network traffic.
#[derive(Clone, Debug)]
pub struct Authority {
    pub name: String,
    pub addr: Option<NetAddress>,
}

impl Authority {
    /// An authority is well formed when its name is not empty.
    pub open spec fn wf(self) -> bool {
        self.name@.len() > 0
    }
}

/// The rendering of an authority: `name[address]`, or `name[Unknown]` when no
/// address is known.
pub open spec fn authority_str(a: Authority) -> Seq<char> {
    a.name@ + seq!['['] + (match a.addr {
        Some(ad) => crate::addr::net_address_str(ad),
        None => "Unknown"@,
    }) + seq![']']
}

impl Authority {
    /// Renders this authority as text per `authority_str`.
    pub fn render(&self) -> (s: String)
        ensures
            s@ == authority_str(*self),
    {
        let mut out = self.name.clone();
        proof {
            reveal_strlit("[");
            reveal_strlit("]");
        }
        out.append("[");
        match &self.addr {
            Some(a) => {
                let t = a.render();
                out.append(t.as_str());
            },
            None => {
                out.append("Unknown");
            },
        }
        out.append("]");
        proof {
            assert(out@ =~= authority_str(*self));
        }
        out
    }
}

/// The name of the root hint at position `i` of the table.
pub open spec fn root_hint_name(i: int) -> Seq<char> {
    if i == 0 {
        "a.root-servers.net."@
    } else if i == 1 {
        "b.root-servers.net."@
    } else if i == 2 {
        "c.root-servers.net."@
    } else if i == 3 {
        "d.root-servers.net."@
    } else if i == 4 {
        "e.root-servers.net."@
    } else if i == 5 {
        "f.root-servers.net."@
    } else if i == 6 {
        "g.root-servers.net."@
    } else if i == 7 {
        "h.root-servers.net."@
    } else if i == 8 {
        "i.root-servers.net."@
    } else {
        "j.root-servers.net."@
    }
}

/// The published IPv4 address of the root hint at position `i` of the table.
pub open spec fn root_hint_ip(i: int) -> Ipv4 {
    if i == 0 {
        Ipv4 { a: 198, b: 41, c: 0, d: 4 }
    } else if i == 1 {
        Ipv4 { a: 199, b: 9, c: 14, d: 201 }
    } else if i == 2 {
        Ipv4 { a: 192, b: 33, c: 4, d: 12 }
    } else if i == 3 {
        Ipv4 { a: 199, b: 7, c: 91, d: 13 }
    } else if i == 4 {
        Ipv4 { a: 192, b: 203, c: 230, d: 10 }
    } else if i == 5 {
        Ipv4 { a: 192, b: 5, c: 5, d: 241 }
    } else if i == 6 {
        Ipv4 { a: 192, b: 112, c: 36, d: 4 }
    } else if i == 7 {
        Ipv4 { a: 198, b: 97, c: 190, d: 53 }
    } else if i == 8 {
        Ipv4 { a: 192, b: 36, c: 148, d: 17 }
    } else {
        Ipv4 { a: 192, b: 58, c: 128, d: 30 }
    }
}

/// The network address of the root hint at position `i`: its published IPv4
/// address on port 53.
pub open spec fn root_hint_addr(i: int) -> NetAddress {
    NetAddress { ip: IpAddress::V4(root_hint_ip(i)), port: 53 }
}

impl Authority {
    /// The fixed root-hint table: the ten root name servers `a` through `j`,
    /// in that order, each with its published IPv4 address on port 53.
    pub fn root_hints() -> (v: Vec<Authority>)
        ensures
            v@.len() == 10,
            forall|i: int|
                0 <= i < 10 ==> (#[trigger] v@[i]).name@ == root_hint_name(i) && v@[i].addr
                    == Some(root_hint_addr(i)),
            forall|i: int| 0 <= i < 10 ==> (#[trigger] v@[i]).wf(),
    {
        let mut v: Vec<Authority> = Vec::new();
        v.push(
            Authority {
                name: String::from_str("a.root-servers.net."),
                addr: Some(
                    NetAddress { ip: IpAddress::V4(Ipv4 { a: 198, b: 41, c: 0, d: 4 }), port: 53 },
                ),
            },
        );
        v.push(
            Authority {
                name: String::from_str("b.root-servers.net."),
                addr: Some(
                    NetAddress { ip: IpAddress::V4(Ipv4 { a: 199, b: 9, c: 14, d: 201 }), port: 53 },
                ),
            },
        );
        v.push(
            Authority {
                name: String::from_str("c.root-servers.net."),
                addr: Some(
                    NetAddress { ip: IpAddress::V4(Ipv4 { a: 192, b: 33, c: 4, d: 12 }), port: 53 },
                ),
            },
        );
        v.push(
            Authority {
                name: String::from_str("d.root-servers.net."),
                addr: Some(
                    NetAddress { ip: IpAddress::V4(Ipv4 { a: 199, b: 7, c: 91, d: 13 }), port: 53 },
                ),
            },
        );
        v.push(
            Authority {
                name: String::from_str("e.root-servers.net."),
                addr: Some(
                    NetAddress {
                        ip: IpAddress::V4(Ipv4 { a: 192, b: 203, c: 230, d: 10 }),
                        port: 53,
                    },
                ),
            },
        );
        v.push(
            Authority {
                name: String::from_str("f.root-servers.net."),
                addr: Some(
                    NetAddress { ip: IpAddress::V4(Ipv4 { a: 192, b: 5, c: 5, d: 241 }), port: 53 },
                ),
            },
        );
        v.push(
            Authority {
                name: String::from_str("g.root-servers.net."),
                addr: Some(
                    NetAddress { ip: IpAddress::V4(Ipv4 { a: 192, b: 112, c: 36, d: 4 }), port: 53 },
                ),
            },
        );
        v.push(
            Authority {
                name: String::from_str("h.root-servers.net."),
                addr: Some(
                    NetAddress {
                        ip: IpAddress::V4(Ipv4 { a: 198, b: 97, c: 190, d: 53 }),
                        port: 53,
                    },
                ),
            },
        );
        v.push(
            Authority {
                name: String::from_str("i.root-servers.net."),
                addr: Some(
                    NetAddress {
                        ip: IpAddress::V4(Ipv4 { a: 192, b: 36, c: 148, d: 17 }),
                        port: 53,
                    },
                ),
            },
        );
        v.push(
            Authority {
                name: String::from_str("j.root-servers.net."),
                addr: Some(
                    NetAddress {
                        ip: IpAddress::V4(Ipv4 { a: 192, b: 58, c: 128, d: 30 }),
                        port: 53,
                    },
                ),
            },
        );
        proof {
            reveal_strlit("a.root-servers.net.");
            reveal_strlit("b.root-servers.net.");
            reveal_strlit("c.root-servers.net.");
            reveal_strlit("d.root-servers.net.");
            reveal_strlit("e.root-servers.net.");
            reveal_strlit("f.root-servers.net.");
            reveal_strlit("g.root-servers.net.");
            reveal_strlit("h.root-servers.net.");
            reveal_strlit("i.root-servers.net.");
            reveal_strlit("j.root-servers.net.");
        }
        v
    }
}

/// The glue address a record contributes: its address on port 53 for an A or
/// AAAA record, nothing for any other record type.
pub open spec fn glue_addr(rec: DnsRecord) -> Option<NetAddress> {
    match rec.data {
        RecordData::A(ip) => Some(NetAddress { ip: IpAddress::V4(ip), port: 53 }),
        RecordData::Aaaa(ip) => Some(NetAddress { ip: IpAddress::V6(ip), port: 53 }),
        _ => None,
    }
}

/// The glue address for `name` in `recs`: the address of the first record, in
/// order, whose owner name equals `name` and which is an address record of
/// either family; nothing when no such record exists.
pub open spec fn find_glue(name: Seq<char>, recs: Seq<DnsRecord>) -> Option<NetAddress>
    decreases recs.len(),
{
    if recs.len() == 0 {
        None
    } else if recs[0].name@ == name && glue_addr(recs[0]) is Some {
        glue_addr(recs[0])
    } else {
        find_glue(name, recs.skip(1))
    }
}

/// Scans `recs` in order for the first address record owned by `query` and
/// builds its address on port 53.
pub fn find_socketaddr_for_name(query: &String, recs: &Vec<DnsRecord>) -> (r: Option<NetAddress>)
    ensures
        r == find_glue(query@, recs@),
{
    let n = recs.len();
    let mut i: usize = 0;
    proof {
        assert(recs@.skip(0) =~= recs@);
    }
    while i < n
        invariant
            n == recs@.len(),
            0 <= i <= n,
            find_glue(query@, recs@) == find_glue(query@, recs@.skip(i as int)),
        decreases n - i,
    {
        proof {
            assert(recs@.skip(i as int)[0] == recs@[i as int]);
            assert(recs@.skip(i as int).skip(1) =~= recs@.skip(i as int + 1));
        }
        let rec = &recs[i];
        if rec.name == *query {
            match &rec.data {
                RecordData::A(ip) => {
                    return Some(NetAddress { ip: IpAddress::V4(*ip), port: 53 });
                },
                RecordData::Aaaa(ip) => {
                    return Some(NetAddress { ip: IpAddress::V6(*ip), port: 53 });
                },
                _ => {},
            }
        }
        i = i + 1;
    }
    proof {
        assert(recs@.skip(n as int) =~= Seq::<DnsRecord>::empty());
    }
    None
}

/// The delegation records of a name-server section: its records whose payload
/// is a name-server delegation, in order.
pub open spec fn ns_delegs(nss: Seq<DnsRecord>) -> Seq<DnsRecord>
    decreases nss.len(),
{
    if nss.len() == 0 {
        Seq::empty()
    } else {
        let init = ns_delegs(nss.drop_last());
        if nss.last().data is Ns {
            init.push(nss.last())
        } else {
            init
        }
    }
}

/// Holds when `ns` is exactly the referral extraction of `res`: one authority
/// per delegation record of the name-server section, in order, named by the
/// delegated name and carrying that name's glue address from the additional
/// section, when one exists.
pub open spec fn referral_matches(ns: Seq<Authority>, res: Response) -> bool {
    let ds = ns_delegs(res.name_servers@);
    &&& ns.len() == ds.len()
    &&& forall|i: int|
        0 <= i < ds.len() ==> (#[trigger] ns[i]).name@ == ds[i].data->Ns_0@ && ns[i].addr
            == find_glue(ds[i].data->Ns_0@, res.additionals@)
}

/// Turns a response's name-server and additional sections into the next
/// generation of authority candidates: one per delegation, paired with its
/// glue address when the additional section has one.
pub fn dns_response_to_ns(res: &Response) -> (out: Vec<Authority>)
    requires
        res.wf(),
    ensures
        referral_matches(out@, *res),
        forall|i: int| 0 <= i < out@.len() ==> (#[trigger] out@[i]).wf(),
{
    let mut out: Vec<Authority> = Vec::new();
    let n = res.name_servers.len();
    let mut i: usize = 0;
    while i < n
        invariant
            res.wf(),
            n == res.name_servers@.len(),
            0 <= i <= n,
            out@.len() == ns_delegs(res.name_servers@.take(i as int)).len(),
            forall|j: int|
                0 <= j < out@.len() ==> {
                    let ds = ns_delegs(res.name_servers@.take(i as int));
                    (#[trigger] out@[j]).name@ == ds[j].data->Ns_0@ && out@[j].addr == find_glue(
                        ds[j].data->Ns_0@,
                        res.additionals@,
                    )
                },
            forall|j: int| 0 <= j < out@.len() ==> (#[trigger] out@[j]).wf(),
        decreases n - i,
    {
        proof {
            assert(res.name_servers@.take(i as int + 1).drop_last() =~= res.name_servers@.take(
                i as int,
            ));
            assert(res.name_servers@.take(i as int + 1).last() == res.name_servers@[i as int]);
            assert((#[trigger] res.name_servers@[i as int]).wf());
        }
        let rec = &res.name_servers[i];
        match &rec.data {
            RecordData::Ns(nsname) => {
                let addr = find_socketaddr_for_name(nsname, &res.additionals);
                out.push(Authority { name: nsname.clone(), addr });
            },
            _ => {},
        }
        i = i + 1;
    }
    proof {
        assert(res.name_servers@.take(n as int) =~= res.name_servers@);
    }
    out
}

} // verus!
