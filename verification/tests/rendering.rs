use dns_trace::addr::{IpAddress, Ipv4, Ipv6, NetAddress};
use dns_trace::text::{push_dec, push_hex};
use dns_trace::authority::Authority;
use dns_trace::records::{DnsRecord, QueryError, RecordData, Response};
use dns_trace::step::Step;

fn v4(a: u8, b: u8, c: u8, d: u8) -> NetAddress {
    NetAddress { ip: IpAddress::V4(Ipv4 { a, b, c, d }), port: 53 }
}

#[test]
fn renders_decimal_numbers() {
    let mut s = String::new();
    push_dec(&mut s, 0);
    assert_eq!(s, "0");
    let mut s = String::new();
    push_dec(&mut s, 12345);
    assert_eq!(s, "12345");
    let mut s = String::from("t=");
    push_dec(&mut s, 18446744073709551615);
    assert_eq!(s, "t=18446744073709551615");
}

#[test]
fn renders_hexadecimal_numbers() {
    let mut s = String::new();
    push_hex(&mut s, 0);
    assert_eq!(s, "0");
    let mut s = String::new();
    push_hex(&mut s, 0xbeef);
    assert_eq!(s, "beef");
    let mut s = String::new();
    push_hex(&mut s, 0x2001);
    assert_eq!(s, "2001");
}

#[test]
fn renders_ipv4_address() {
    assert_eq!(v4(198, 41, 0, 4).render(), "198.41.0.4:53");
}

#[test]
fn renders_ipv4_address_small_octets() {
    assert_eq!(v4(0, 1, 10, 255).render(), "0.1.10.255:53");
}

#[test]
fn renders_ipv6_address() {
    let addr = NetAddress {
        ip: IpAddress::V6(Ipv6 {
            g0: 0x2001,
            g1: 0xdb8,
            g2: 0,
            g3: 0,
            g4: 0,
            g5: 0,
            g6: 0,
            g7: 1,
        }),
        port: 53,
    };
    assert_eq!(addr.render(), "[2001:db8:0:0:0:0:0:1]:53");
}

#[test]
fn renders_authority_with_address() {
    let a = Authority { name: String::from("a.root-servers.net."), addr: Some(v4(198, 41, 0, 4)) };
    assert_eq!(a.render(), "a.root-servers.net.[198.41.0.4:53]");
}

#[test]
fn renders_authority_without_address() {
    let a = Authority { name: String::from("ns1.example."), addr: None };
    assert_eq!(a.render(), "ns1.example.[Unknown]");
}

#[test]
fn renders_successful_step_with_a_answer() {
    let step = Step {
        source: Authority {
            name: String::from("a.root-servers.net."),
            addr: Some(v4(198, 41, 0, 4)),
        },
        result: Ok(Response {
            code: 0,
            answers: vec![DnsRecord {
                name: String::from("example.com."),
                data: RecordData::A(Ipv4 { a: 93, b: 184, c: 216, d: 34 }),
            }],
            name_servers: vec![],
            additionals: vec![],
        }),
        elapsed: 12,
    };
    assert_eq!(
        step.render(),
        "a.root-servers.net.[198.41.0.4:53]: 12ms, code: 0, answers: 1, authority: 0, answer: 93.184.216.34"
    );
}

#[test]
fn renders_step_without_answers_as_none() {
    let step = Step {
        source: Authority { name: String::from("x."), addr: Some(v4(1, 2, 3, 4)) },
        result: Ok(Response { code: 3, answers: vec![], name_servers: vec![], additionals: vec![] }),
        elapsed: 7,
    };
    assert_eq!(step.render(), "x.[1.2.3.4:53]: 7ms, code: 3, answers: 0, authority: 0, answer: None");
}

#[test]
fn renders_non_address_first_answer_as_unknown() {
    let step = Step {
        source: Authority { name: String::from("x."), addr: Some(v4(1, 2, 3, 4)) },
        result: Ok(Response {
            code: 0,
            answers: vec![DnsRecord {
                name: String::from("example.com."),
                data: RecordData::Ns(String::from("ns.example.com.")),
            }],
            name_servers: vec![],
            additionals: vec![],
        }),
        elapsed: 3,
    };
    assert_eq!(step.render(), "x.[1.2.3.4:53]: 3ms, code: 0, answers: 1, authority: 0, answer: Unknown");
}

#[test]
fn renders_failed_step_with_error_description() {
    let step = Step {
        source: Authority { name: String::from("ns1.example."), addr: None },
        result: Err(QueryError { message: String::from("no addr for authority") }),
        elapsed: 0,
    };
    assert_eq!(step.render(), "ns1.example.[Unknown]: no addr for authority");
}
