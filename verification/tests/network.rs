use ipnet::IpNet;
use ports_scanner::network::{Cidr, Network, NetworkError};

fn net(text: &str) -> Network {
    Network::parse(text).unwrap()
}

fn ipnet_hosts(text: &str) -> Vec<String> {
    text.parse::<IpNet>().unwrap().hosts().map(|ip| ip.to_string()).collect()
}

fn v4(a: u8, b: u8, c: u8, d: u8) -> u128 {
    u128::from(u32::from_be_bytes([a, b, c, d]))
}

#[test]
fn parse_reads_an_ipv4_network() {
    let parts = net("10.1.2.3/16").parts();
    assert_eq!(parts, Cidr { v6: false, addr: v4(10, 1, 2, 3), prefix_len: 16 });
}

#[test]
fn parse_reads_an_ipv6_network() {
    let parts = net("fd00::1/64").parts();
    assert_eq!(parts, Cidr { v6: true, addr: (0xfd00u128 << 112) | 1, prefix_len: 64 });
}

#[test]
fn parse_reads_the_loopback_host() {
    let parts = net("127.0.0.1/32").parts();
    assert_eq!(parts, Cidr { v6: false, addr: 0x7f00_0001, prefix_len: 32 });
}

#[test]
fn parse_refuses_what_is_no_network() {
    for text in [
        "",
        "10.0.0.0",
        "10.0.0.0/",
        "10.0.0.0/33",
        "10.0.0/24",
        "256.0.0.0/8",
        "10.0.0.0/24 ",
        " 10.0.0.0/24",
        "fd00::/129",
        "fd00::",
        "example.org/24",
        "10.0.0.0/-1",
        "::g/64",
    ] {
        assert_eq!(Network::parse(text).err(), Some(NetworkError::Syntax), "{text:?}");
    }
}

#[test]
fn parse_agrees_with_the_parser_of_ipnet() {
    for text in ["0.0.0.0/0", "192.168.1.77/24", "1.2.3.4/31", "::/0", "::1/128", "2001:db8::/33", "::ffff:1.2.3.4/100"] {
        let theirs = text.parse::<IpNet>().unwrap();
        let ours = net(text).parts();
        assert_eq!(ours.v6, matches!(theirs, IpNet::V6(_)));
        assert_eq!(ours.prefix_len, theirs.prefix_len());
    }
    assert!("1.2.3.4/33".parse::<IpNet>().is_err());
    assert!(Network::parse("1.2.3.4/33").is_err());
}

#[test]
fn an_ipv4_network_keeps_its_ends_for_itself() {
    let n = net("10.0.0.0/30");
    assert_eq!(n.network(), v4(10, 0, 0, 0));
    assert_eq!(n.broadcast(), v4(10, 0, 0, 3));
    assert_eq!(n.first_host(), v4(10, 0, 0, 1));
    assert_eq!(n.last_host(), v4(10, 0, 0, 2));
}

#[test]
fn the_host_bits_of_the_written_address_do_not_count() {
    let n = net("192.168.1.77/24");
    assert_eq!(n.network(), v4(192, 168, 1, 0));
    assert_eq!(n.broadcast(), v4(192, 168, 1, 255));
    assert_eq!(n.first_host(), v4(192, 168, 1, 1));
    assert_eq!(n.last_host(), v4(192, 168, 1, 254));
}

#[test]
fn a_network_of_two_addresses_has_two_hosts() {
    let n = net("10.0.0.4/31");
    assert_eq!(n.first_host(), v4(10, 0, 0, 4));
    assert_eq!(n.last_host(), v4(10, 0, 0, 5));
    let n = net("10.0.0.5/31");
    assert_eq!(n.first_host(), v4(10, 0, 0, 4));
    assert_eq!(n.last_host(), v4(10, 0, 0, 5));
}

#[test]
fn a_network_of_one_address_has_one_host() {
    let n = net("127.0.0.1/32");
    assert_eq!(n.first_host(), 0x7f00_0001);
    assert_eq!(n.last_host(), 0x7f00_0001);
    assert_eq!(n.network(), 0x7f00_0001);
    assert_eq!(n.broadcast(), 0x7f00_0001);
}

#[test]
fn the_whole_ipv4_space_is_a_network() {
    let n = net("1.2.3.4/0");
    assert_eq!(n.network(), 0);
    assert_eq!(n.broadcast(), 0xffff_ffff);
    assert_eq!(n.first_host(), 1);
    assert_eq!(n.last_host(), 0xffff_fffe);
}

#[test]
fn an_ipv6_network_has_all_its_addresses_as_hosts() {
    let n = net("fd00::/126");
    let base = 0xfd00u128 << 112;
    assert_eq!(n.network(), base);
    assert_eq!(n.broadcast(), base + 3);
    assert_eq!(n.first_host(), base);
    assert_eq!(n.last_host(), base + 3);
    let n = net("fd00::7/127");
    assert_eq!(n.first_host(), base + 6);
    assert_eq!(n.last_host(), base + 7);
    let n = net("::1/128");
    assert_eq!(n.first_host(), 1);
    assert_eq!(n.last_host(), 1);
}

#[test]
fn the_whole_ipv6_space_is_a_network() {
    let n = net("fd00::/0");
    assert_eq!(n.network(), 0);
    assert_eq!(n.broadcast(), u128::MAX);
    assert_eq!(n.first_host(), 0);
    assert_eq!(n.last_host(), u128::MAX);
    let n = net("8000::/1");
    assert_eq!(n.first_host(), 1u128 << 127);
    assert_eq!(n.last_host(), u128::MAX);
}

#[test]
fn the_hosts_are_those_that_ipnet_walks_over() {
    for text in [
        "10.0.0.0/30",
        "10.0.0.9/29",
        "10.0.0.4/31",
        "10.0.0.5/32",
        "172.16.5.200/22",
        "255.255.255.255/24",
        "0.0.0.0/28",
        "fd00::/126",
        "fd00::5/125",
        "::/120",
        "ffff:ffff:ffff:ffff:ffff:ffff:ffff:ffff/121",
    ] {
        let theirs = ipnet_hosts(text);
        let n = net(text);
        let v6 = n.parts().v6;
        let first = n.first_host();
        let last = n.last_host();
        assert_eq!((last - first + 1) as usize, theirs.len(), "{text}");
        let mut value = first;
        for host in theirs.iter() {
            let ours = if v6 {
                ports_scanner::target::host_text(ports_scanner::target::Address::V6(value))
            } else {
                ports_scanner::target::host_text(ports_scanner::target::Address::V4(value as u32))
            };
            assert_eq!(&ours, host, "{text}");
            value = value.wrapping_add(1);
        }
    }
}

#[test]
fn the_host_count_follows_the_prefix_length() {
    for len in 0..=32u32 {
        let n = net(&format!("10.20.30.40/{len}"));
        let count = n.last_host() - n.first_host() + 1;
        let expected: u128 = match len {
            32 => 1,
            31 => 2,
            _ => (1u128 << (32 - len)) - 2,
        };
        assert_eq!(count, expected, "/{len}");
    }
    for len in 1..=128u32 {
        let n = net(&format!("fd00::1234/{len}"));
        let count = n.last_host() - n.first_host() + 1;
        assert_eq!(count, 1u128 << (128 - len), "/{len}");
    }
}

#[test]
fn from_parts_takes_the_parts_of_a_network() {
    let parts = Cidr { v6: false, addr: v4(10, 0, 0, 9), prefix_len: 29 };
    let n = Network::from_parts(parts).unwrap();
    assert_eq!(n.parts(), parts);
    assert_eq!(n, net("10.0.0.9/29"));
    assert_eq!(n.first_host(), v4(10, 0, 0, 9));
    assert_eq!(n.last_host(), v4(10, 0, 0, 14));
    let parts = Cidr { v6: true, addr: u128::MAX, prefix_len: 128 };
    assert_eq!(Network::from_parts(parts).map(|n| n.parts()), Ok(parts));
    let parts = Cidr { v6: false, addr: 0xffff_ffff, prefix_len: 0 };
    assert_eq!(Network::from_parts(parts).map(|n| n.parts()), Ok(parts));
}

#[test]
fn from_parts_refuses_a_prefix_that_is_too_long() {
    let parts = Cidr { v6: false, addr: 0, prefix_len: 33 };
    assert_eq!(Network::from_parts(parts), Err(NetworkError::PrefixTooLong));
    let parts = Cidr { v6: true, addr: 0, prefix_len: 129 };
    assert_eq!(Network::from_parts(parts), Err(NetworkError::PrefixTooLong));
    let parts = Cidr { v6: false, addr: u128::MAX, prefix_len: 255 };
    assert_eq!(Network::from_parts(parts), Err(NetworkError::PrefixTooLong));
}

#[test]
fn from_parts_refuses_an_ipv4_address_of_more_than_32_bits() {
    let parts = Cidr { v6: false, addr: 0x1_0000_0000, prefix_len: 32 };
    assert_eq!(Network::from_parts(parts), Err(NetworkError::AddressTooWide));
    let parts = Cidr { v6: false, addr: u128::MAX, prefix_len: 0 };
    assert_eq!(Network::from_parts(parts), Err(NetworkError::AddressTooWide));
}
