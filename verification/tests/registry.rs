use protocol_enums::{
    ConversionError, EthernetType, IfType, IpProtocol, L4Protocol, L7Protocol, LinkType,
    LinuxSllPacketType,
};

const ETHERNET_TYPES: [(EthernetType, u16); 18] = [
    (EthernetType::Llc, 0),
    (EthernetType::Ipv4, 0x0800),
    (EthernetType::Arp, 0x0806),
    (EthernetType::Ipv6, 0x86DD),
    (EthernetType::CiscoDiscovery, 0x2000),
    (EthernetType::NortelDiscovery, 0x01a2),
    (EthernetType::TransparentEthernetBridging, 0x6558),
    (EthernetType::Dot1Q, 0x8100),
    (EthernetType::Ppp, 0x880b),
    (EthernetType::PppoeDiscovery, 0x8863),
    (EthernetType::PppoeSession, 0x8864),
    (EthernetType::MplsUnicast, 0x8847),
    (EthernetType::MplsMulticast, 0x8848),
    (EthernetType::Eapol, 0x888e),
    (EthernetType::QinQ, 0x88a8),
    (EthernetType::LinkLayerDiscovery, 0x88cc),
    (EthernetType::EthernetCtp, 0x9000),
    (EthernetType::Unknown, 0xFFFF),
];

const IP_PROTOCOLS: [(IpProtocol, u8); 24] = [
    (IpProtocol::Ipv6HopByHop, 0),
    (IpProtocol::Icmpv4, 1),
    (IpProtocol::Igmp, 2),
    (IpProtocol::Ipv4, 4),
    (IpProtocol::Tcp, 6),
    (IpProtocol::Udp, 17),
    (IpProtocol::Rudp, 27),
    (IpProtocol::Ipv6, 41),
    (IpProtocol::Ipv6Routing, 43),
    (IpProtocol::Ipv6Fragment, 44),
    (IpProtocol::Gre, 47),
    (IpProtocol::Esp, 50),
    (IpProtocol::Ah, 51),
    (IpProtocol::Icmpv6, 58),
    (IpProtocol::NoNextHeader, 59),
    (IpProtocol::Ipv6Destination, 60),
    (IpProtocol::Ospf, 89),
    (IpProtocol::Ipip, 94),
    (IpProtocol::EtherIp, 97),
    (IpProtocol::Vrrp, 112),
    (IpProtocol::Sstp, 132),
    (IpProtocol::UdpLite, 136),
    (IpProtocol::MplsInIp, 137),
    (IpProtocol::Unknown, 255),
];

const L7_PROTOCOLS: [(L7Protocol, u8); 12] = [
    (L7Protocol::Unknown, 0),
    (L7Protocol::Other, 1),
    (L7Protocol::Http1, 20),
    (L7Protocol::Http2, 21),
    (L7Protocol::Http1TLS, 22),
    (L7Protocol::Http2TLS, 23),
    (L7Protocol::Dubbo, 40),
    (L7Protocol::Mysql, 60),
    (L7Protocol::Redis, 80),
    (L7Protocol::Kafka, 100),
    (L7Protocol::Mqtt, 101),
    (L7Protocol::Dns, 120),
];

const LINK_TYPES: [(LinkType, u8); 35] = [
    (LinkType::Null, 0),
    (LinkType::Ethernet, 1),
    (LinkType::Ax25, 3),
    (LinkType::TokenRing, 6),
    (LinkType::ArcNet, 7),
    (LinkType::Slip, 8),
    (LinkType::Ppp, 9),
    (LinkType::Fddi, 10),
    (LinkType::PppHdlc, 50),
    (LinkType::PppEthernet, 51),
    (LinkType::AtmRfc1483, 100),
    (LinkType::Raw, 101),
    (LinkType::Chdlc, 104),
    (LinkType::Ieee802_11, 105),
    (LinkType::Relay, 107),
    (LinkType::Loop, 108),
    (LinkType::LinuxSLL, 113),
    (LinkType::Talk, 114),
    (LinkType::PfLog, 117),
    (LinkType::PrismHeader, 119),
    (LinkType::IpOverFc, 122),
    (LinkType::SunAtm, 123),
    (LinkType::Ieee80211Radio, 127),
    (LinkType::ArcNetLinux, 129),
    (LinkType::IpOver1394, 138),
    (LinkType::Mtp2Phdr, 139),
    (LinkType::Mtp2, 140),
    (LinkType::Mtp3, 141),
    (LinkType::Sccp, 142),
    (LinkType::Docsis, 143),
    (LinkType::LinuxIrda, 144),
    (LinkType::LinuxLapd, 177),
    (LinkType::LinuxUsb, 220),
    (LinkType::Ipv4, 228),
    (LinkType::Ipv6, 229),
];

const IF_TYPES: [(IfType, u32); 9] = [
    (IfType::Other, 1),
    (IfType::Ethernet, 6),
    (IfType::TokenRing, 9),
    (IfType::Ppp, 23),
    (IfType::Loopback, 24),
    (IfType::Atm, 37),
    (IfType::Ieee80211, 71),
    (IfType::Tunnel, 131),
    (IfType::Ieee1394, 144),
];

#[test]
fn assert_ethernet_type() {
    let eth_type = EthernetType::Ipv6;
    let ipv6: u16 = eth_type.into();
    assert_eq!(eth_type, 0x86DDu16);
    assert_eq!(0x86DDu16, eth_type);
    assert_eq!(ipv6, 0x86DDu16);
    assert_eq!(Ok(EthernetType::Arp), EthernetType::try_from(0x806u16));
}

#[test]
fn assert_link_type() {
    let link_type = LinkType::Ppp;
    assert_eq!(link_type, 9);
    assert_eq!(9, link_type);
    assert_eq!(Ok(LinkType::Talk), LinkType::try_from(114u8));
}

#[test]
fn assert_ip_protocol() {
    let ip = IpProtocol::Icmpv6;
    assert_eq!(ip, 58);
    assert_eq!(58, ip);
    assert_eq!(Ok(IpProtocol::Udp), IpProtocol::try_from(17u8));
}

#[test]
fn ethernet_type_codes_match_the_registry() {
    for (t, code) in ETHERNET_TYPES {
        assert_eq!(t.to_numeric(), code);
        assert_eq!(u16::from(t), code);
    }
}

#[test]
fn ethernet_type_round_trips() {
    for (t, code) in ETHERNET_TYPES {
        assert_eq!(EthernetType::from_numeric(t.to_numeric()), t);
        assert_eq!(EthernetType::from(code), t);
    }
}

#[test]
fn ethernet_type_equals_its_code_on_both_sides() {
    for (t, code) in ETHERNET_TYPES {
        assert!(t == code);
        assert!(code == t);
        assert!(t == t.to_numeric());
        assert!(t.to_numeric() == t);
    }
    assert!(EthernetType::Ipv4 != 0x0806u16);
    assert!(0x0806u16 != EthernetType::Ipv4);
}

#[test]
fn ethernet_type_takes_every_other_code_for_unknown() {
    assert_eq!(EthernetType::from_numeric(0x1234), EthernetType::Unknown);
    assert_eq!(EthernetType::from_numeric(0xFFFF), EthernetType::Unknown);
    assert_eq!(EthernetType::from_numeric(1), EthernetType::Unknown);
    let mut known = 0;
    for code in 0..=u16::MAX {
        let t = EthernetType::from_numeric(code);
        if t == EthernetType::Unknown {
            assert!(ETHERNET_TYPES.iter().all(|(_, c)| *c != code || code == 0xFFFF));
        } else {
            assert_eq!(t.to_numeric(), code);
            known += 1;
        }
    }
    assert_eq!(known, 17);
}

#[test]
fn ethernet_type_defaults_to_unknown() {
    assert_eq!(EthernetType::default(), EthernetType::Unknown);
}

#[test]
fn ethernet_types_are_ordered_by_code() {
    assert!(EthernetType::Llc < EthernetType::NortelDiscovery);
    assert!(EthernetType::NortelDiscovery < EthernetType::Ipv4);
    assert!(EthernetType::Ipv4 < EthernetType::Arp);
    assert!(EthernetType::CiscoDiscovery < EthernetType::Ipv6);
    assert!(EthernetType::Ppp < EthernetType::PppoeDiscovery);
    assert!(EthernetType::EthernetCtp < EthernetType::Unknown);
    for (a, x) in ETHERNET_TYPES {
        for (b, y) in ETHERNET_TYPES {
            assert_eq!(a.partial_cmp(&b), x.partial_cmp(&y));
            assert_eq!(a.cmp(&b), x.cmp(&y));
        }
    }
}

#[test]
fn ip_protocol_codes_match_the_registry() {
    for (p, code) in IP_PROTOCOLS {
        assert_eq!(p.to_numeric(), code);
        assert_eq!(u8::from(p), code);
    }
}

#[test]
fn ip_protocol_round_trips() {
    for (p, code) in IP_PROTOCOLS {
        assert_eq!(IpProtocol::from_numeric(p.to_numeric()), p);
        assert_eq!(IpProtocol::from(code), p);
    }
}

#[test]
fn ip_protocol_equals_its_code_on_both_sides() {
    for (p, code) in IP_PROTOCOLS {
        assert!(p == code);
        assert!(code == p);
    }
    assert!(IpProtocol::Tcp != 17u8);
    assert!(17u8 != IpProtocol::Tcp);
}

#[test]
fn ip_protocol_takes_every_other_code_for_unknown() {
    assert_eq!(IpProtocol::from_numeric(200), IpProtocol::Unknown);
    assert_eq!(IpProtocol::from_numeric(255), IpProtocol::Unknown);
    assert_eq!(IpProtocol::from_numeric(3), IpProtocol::Unknown);
    let mut known = 0;
    for code in 0..=u8::MAX {
        let p = IpProtocol::from_numeric(code);
        if p != IpProtocol::Unknown {
            assert_eq!(p.to_numeric(), code);
            known += 1;
        }
    }
    assert_eq!(known, 23);
}

#[test]
fn ip_protocol_defaults_to_unknown() {
    assert_eq!(IpProtocol::default(), IpProtocol::Unknown);
}

#[test]
fn ip_protocols_are_ordered_by_code() {
    for (a, x) in IP_PROTOCOLS {
        for (b, y) in IP_PROTOCOLS {
            assert_eq!(a.partial_cmp(&b), x.partial_cmp(&y));
            assert_eq!(a.cmp(&b), x.cmp(&y));
        }
    }
}

#[test]
fn l4_protocol_follows_the_ip_protocol() {
    assert_eq!(L4Protocol::from(IpProtocol::Tcp), L4Protocol::Tcp);
    assert_eq!(L4Protocol::from(IpProtocol::Udp), L4Protocol::Udp);
    assert_eq!(L4Protocol::from(IpProtocol::Icmpv4), L4Protocol::Unknown);
    for (p, _) in IP_PROTOCOLS {
        if p != IpProtocol::Tcp && p != IpProtocol::Udp {
            assert_eq!(L4Protocol::from(p), L4Protocol::Unknown);
        }
    }
}

#[test]
fn l4_protocol_codes_and_default() {
    assert_eq!(L4Protocol::Unknown.to_numeric(), 0);
    assert_eq!(L4Protocol::Tcp.to_numeric(), 1);
    assert_eq!(L4Protocol::Udp.to_numeric(), 2);
    assert_eq!(L4Protocol::default(), L4Protocol::Unknown);
}

#[test]
fn l7_bitmap_of_tcp() {
    let expected: u128 = 1 << 20
        | 1 << 21
        | 1 << 120
        | 1 << 60
        | 1 << 80
        | 1 << 40
        | 1 << 100
        | 1 << 101;
    assert_eq!(u128::from(IpProtocol::Tcp), expected);
    assert_eq!(u128::from(IpProtocol::Tcp), 0x0100_0030_0001_0000_1000_0100_0030_0000u128);
}

#[test]
fn l7_bitmap_of_every_other_protocol_is_dns_alone() {
    for (p, _) in IP_PROTOCOLS {
        if p != IpProtocol::Tcp {
            assert_eq!(u128::from(p), 1u128 << 120);
        }
    }
}

#[test]
fn l7_bitmap_is_recomputed_alike() {
    for (p, _) in IP_PROTOCOLS {
        assert_eq!(u128::from(p), u128::from(p));
    }
}

#[test]
fn l7_bitmap_holds_a_bit_for_each_protocol_carried() {
    let tcp = u128::from(IpProtocol::Tcp);
    let carried = [
        L7Protocol::Http1,
        L7Protocol::Http2,
        L7Protocol::Dns,
        L7Protocol::Mysql,
        L7Protocol::Redis,
        L7Protocol::Dubbo,
        L7Protocol::Kafka,
        L7Protocol::Mqtt,
    ];
    for (l, code) in L7_PROTOCOLS {
        assert_eq!(tcp & (1u128 << code) != 0, carried.contains(&l));
    }
    assert_eq!(tcp.count_ones(), 8);
}

#[test]
fn l7_protocol_codes_match_the_bands() {
    for (l, code) in L7_PROTOCOLS {
        assert_eq!(l.to_numeric(), code);
        assert_eq!(u8::from(l), code);
    }
    assert_eq!(L7Protocol::Max.to_numeric(), 255);
}

#[test]
fn l7_protocol_round_trips_but_for_max() {
    for (l, code) in L7_PROTOCOLS {
        assert_eq!(L7Protocol::from_numeric(l.to_numeric()), l);
        assert_eq!(L7Protocol::from(code), l);
    }
    assert_eq!(L7Protocol::from_numeric(L7Protocol::Max.to_numeric()), L7Protocol::Unknown);
}

#[test]
fn l7_protocol_takes_every_other_code_for_unknown() {
    assert_eq!(L7Protocol::from_numeric(99), L7Protocol::Unknown);
    assert_eq!(L7Protocol::from_numeric(0), L7Protocol::Unknown);
    assert_eq!(L7Protocol::from_numeric(255), L7Protocol::Unknown);
    assert_eq!(L7Protocol::from_numeric(24), L7Protocol::Unknown);
    let mut known = 0;
    for code in 0..=u8::MAX {
        let l = L7Protocol::from_numeric(code);
        assert_ne!(l, L7Protocol::Max);
        if l != L7Protocol::Unknown {
            assert_eq!(l.to_numeric(), code);
            known += 1;
        }
    }
    assert_eq!(known, 11);
}

#[test]
fn l7_protocol_defaults_to_unknown() {
    assert_eq!(L7Protocol::default(), L7Protocol::Unknown);
}

#[test]
fn link_type_codes_match_the_registry() {
    for (t, code) in LINK_TYPES {
        assert_eq!(t.to_numeric(), code);
        assert_eq!(u8::from(t), code);
    }
}

#[test]
fn link_type_round_trips() {
    for (t, code) in LINK_TYPES {
        assert_eq!(LinkType::from_numeric(t.to_numeric()), Ok(t));
        assert_eq!(LinkType::try_from(code), Ok(t));
    }
}

#[test]
fn link_type_equals_its_code_on_both_sides() {
    for (t, code) in LINK_TYPES {
        assert!(t == code);
        assert!(code == t);
    }
    assert!(LinkType::Ppp != 10u8);
    assert!(10u8 != LinkType::Ppp);
}

#[test]
fn link_type_refuses_an_unassigned_code() {
    assert_eq!(LinkType::from_numeric(2), Err(ConversionError { code: 2 }));
    assert_eq!(LinkType::try_from(2u8), Err(ConversionError { code: 2 }));
    assert_eq!(LinkType::try_from(255u8), Err(ConversionError { code: 255 }));
    let mut known = 0;
    for code in 0..=u8::MAX {
        match LinkType::from_numeric(code) {
            Ok(t) => {
                assert_eq!(t.to_numeric(), code);
                known += 1;
            }
            Err(e) => assert_eq!(e.code, u32::from(code)),
        }
    }
    assert_eq!(known, 35);
}

#[test]
fn if_type_codes_round_trip() {
    for (t, code) in IF_TYPES {
        assert_eq!(t.to_numeric(), code);
        assert_eq!(u32::from(t), code);
        assert_eq!(IfType::from_numeric(code), Ok(t));
        assert_eq!(IfType::try_from(code), Ok(t));
    }
}

#[test]
fn if_type_refuses_an_unassigned_code() {
    assert_eq!(IfType::from_numeric(0), Err(ConversionError { code: 0 }));
    assert_eq!(IfType::try_from(2u32), Err(ConversionError { code: 2 }));
    assert_eq!(IfType::try_from(145u32), Err(ConversionError { code: 145 }));
    assert_eq!(IfType::try_from(u32::MAX), Err(ConversionError { code: u32::MAX }));
    let mut known = 0;
    for code in 0..=1000u32 {
        if IfType::from_numeric(code).is_ok() {
            known += 1;
        }
    }
    assert_eq!(known, 9);
}

#[test]
fn linux_sll_packet_type_codes() {
    assert_eq!(LinuxSllPacketType::Host.to_numeric(), 0);
    assert_eq!(LinuxSllPacketType::Broadcast.to_numeric(), 1);
    assert_eq!(LinuxSllPacketType::Multicast.to_numeric(), 2);
    assert_eq!(LinuxSllPacketType::OtherHost.to_numeric(), 3);
    assert_eq!(LinuxSllPacketType::Outgoing.to_numeric(), 4);
    assert_eq!(LinuxSllPacketType::Loopback.to_numeric(), 5);
    assert_eq!(LinuxSllPacketType::FastRoute.to_numeric(), 6);
}

#[test]
fn l7_protocol_equals_its_code_on_both_sides() {
    for (l, code) in L7_PROTOCOLS {
        assert!(l == code);
        assert!(code == l);
        assert!(l == l.to_numeric());
        assert!(l.to_numeric() == l);
    }
    assert!(L7Protocol::Max == 255u8);
    assert!(L7Protocol::Dns != 121u8);
    assert!(121u8 != L7Protocol::Dns);
}

#[test]
fn if_type_equals_its_code_on_both_sides() {
    for (t, code) in IF_TYPES {
        assert!(t == code);
        assert!(code == t);
    }
    assert!(IfType::Ethernet != 9u32);
    assert!(9u32 != IfType::Ethernet);
}
