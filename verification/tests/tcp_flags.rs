use protocol_enums::TcpFlags;

#[test]
fn tcp_flag_validity() {
    assert!(!TcpFlags::SYN().is_invalid());
    assert!((TcpFlags::SYN() | TcpFlags::RST()).is_invalid());
    assert!(TcpFlags::from_bits_retain(0).is_invalid());
    assert!(!(TcpFlags::PSH() | TcpFlags::ACK() | TcpFlags::URG()).is_invalid());
    assert_eq!(
        TcpFlags::from_bits_retain(TcpFlags::SYN().bits() | 0b11000000).is_invalid(),
        TcpFlags::SYN().is_invalid()
    );
}

#[test]
fn tcp_flag_bits() {
    assert_eq!(TcpFlags::FIN().bits(), 0b000001);
    assert_eq!(TcpFlags::SYN().bits(), 0b000010);
    assert_eq!(TcpFlags::RST().bits(), 0b000100);
    assert_eq!(TcpFlags::PSH().bits(), 0b001000);
    assert_eq!(TcpFlags::ACK().bits(), 0b010000);
    assert_eq!(TcpFlags::URG().bits(), 0b100000);
    assert_eq!(TcpFlags::MASK().bits(), 0x3F);
    assert_eq!(TcpFlags::all().bits(), 0x3F);
    assert_eq!(TcpFlags::empty().bits(), 0);
    assert_eq!(TcpFlags::default().bits(), 0);
}

#[test]
fn tcp_flag_combinations_are_the_unions_of_their_flags() {
    assert_eq!(TcpFlags::SYN_ACK(), TcpFlags::SYN() | TcpFlags::ACK());
    assert_eq!(TcpFlags::FIN_ACK(), TcpFlags::FIN() | TcpFlags::ACK());
    assert_eq!(TcpFlags::FIN_PSH_ACK(), TcpFlags::FIN() | TcpFlags::PSH() | TcpFlags::ACK());
    assert_eq!(TcpFlags::RST_ACK(), TcpFlags::RST() | TcpFlags::ACK());
    assert_eq!(TcpFlags::RST_PSH_ACK(), TcpFlags::RST() | TcpFlags::PSH() | TcpFlags::ACK());
    assert_eq!(TcpFlags::PSH_ACK(), TcpFlags::PSH() | TcpFlags::ACK());
    assert_eq!(TcpFlags::PSH_ACK_URG(), TcpFlags::PSH() | TcpFlags::ACK() | TcpFlags::URG());
    assert_eq!(
        TcpFlags::MASK(),
        TcpFlags::FIN()
            | TcpFlags::SYN()
            | TcpFlags::RST()
            | TcpFlags::PSH()
            | TcpFlags::ACK()
            | TcpFlags::URG()
    );
}

#[test]
fn tcp_flags_valid_are_the_eleven_listed() {
    let valid = [
        TcpFlags::SYN(),
        TcpFlags::SYN_ACK(),
        TcpFlags::FIN(),
        TcpFlags::FIN_ACK(),
        TcpFlags::FIN_PSH_ACK(),
        TcpFlags::RST(),
        TcpFlags::RST_ACK(),
        TcpFlags::RST_PSH_ACK(),
        TcpFlags::ACK(),
        TcpFlags::PSH_ACK(),
        TcpFlags::PSH_ACK_URG(),
    ];
    for flags in valid {
        assert!(!flags.is_invalid());
    }
    let mut count = 0;
    for bits in 0..64u8 {
        let flags = TcpFlags::from_bits_retain(bits);
        assert_eq!(flags.is_invalid(), !valid.contains(&flags));
        if !flags.is_invalid() {
            count += 1;
        }
    }
    assert_eq!(count, 11);
}

#[test]
fn tcp_flags_invalid_combinations() {
    assert!((TcpFlags::SYN() | TcpFlags::FIN()).is_invalid());
    assert!((TcpFlags::SYN() | TcpFlags::RST()).is_invalid());
    assert!(TcpFlags::PSH().is_invalid());
    assert!(TcpFlags::URG().is_invalid());
    assert!(TcpFlags::MASK().is_invalid());
    assert!(TcpFlags::empty().is_invalid());
}

#[test]
fn tcp_flags_reserved_bits_are_ignored() {
    for bits in 0..=u8::MAX {
        assert_eq!(
            TcpFlags::from_bits_retain(bits).is_invalid(),
            TcpFlags::from_bits_retain(bits & 0x3F).is_invalid()
        );
        assert_eq!(
            TcpFlags::from_bits_retain(bits | 0b11000000).is_invalid(),
            TcpFlags::from_bits_retain(bits).is_invalid()
        );
        assert_eq!(
            (TcpFlags::from_bits_retain(bits) & TcpFlags::MASK()).is_invalid(),
            TcpFlags::from_bits_retain(bits).is_invalid()
        );
    }
}

#[test]
fn tcp_flags_from_bits() {
    assert_eq!(TcpFlags::from_bits(0b010010), Some(TcpFlags::SYN_ACK()));
    assert_eq!(TcpFlags::from_bits(0), Some(TcpFlags::empty()));
    assert_eq!(TcpFlags::from_bits(0x3F), Some(TcpFlags::MASK()));
    assert_eq!(TcpFlags::from_bits(0x40), None);
    assert_eq!(TcpFlags::from_bits(0x82), None);
    assert_eq!(TcpFlags::from_bits_truncate(0x82), TcpFlags::SYN());
    assert_eq!(TcpFlags::from_bits_truncate(0xFF), TcpFlags::MASK());
    assert_eq!(TcpFlags::from_bits_truncate(0xC0), TcpFlags::empty());
    assert_eq!(TcpFlags::from_bits_retain(0x82).bits(), 0x82);
    for bits in 0..=u8::MAX {
        assert_eq!(TcpFlags::from_bits(bits).is_some(), bits < 0x40);
        assert_eq!(TcpFlags::from_bits_truncate(bits).bits(), bits & 0x3F);
        assert_eq!(TcpFlags::from_bits_retain(bits).bits(), bits);
    }
}

#[test]
fn tcp_flags_contains_and_is_empty() {
    let flags = TcpFlags::SYN_ACK();
    assert!(flags.contains(TcpFlags::SYN()));
    assert!(flags.contains(TcpFlags::ACK()));
    assert!(flags.contains(TcpFlags::SYN_ACK()));
    assert!(flags.contains(TcpFlags::empty()));
    assert!(!flags.contains(TcpFlags::FIN()));
    assert!(!flags.contains(TcpFlags::FIN_ACK()));
    assert!(TcpFlags::empty().is_empty());
    assert!(!flags.is_empty());
    assert!(!TcpFlags::from_bits_retain(0x80).is_empty());
}

#[test]
fn tcp_flags_union_and_intersection() {
    assert_eq!((TcpFlags::SYN() | TcpFlags::ACK()).bits(), 0b010010);
    assert_eq!((TcpFlags::SYN_ACK() & TcpFlags::FIN_ACK()).bits(), 0b010000);
    assert_eq!((TcpFlags::SYN() & TcpFlags::FIN()).bits(), 0);
    for a in 0..=u8::MAX {
        for b in [0u8, 1, 0x12, 0x3F, 0x80, 0xFF] {
            let x = TcpFlags::from_bits_retain(a);
            let y = TcpFlags::from_bits_retain(b);
            assert_eq!((x | y).bits(), a | b);
            assert_eq!((x & y).bits(), a & b);
            assert_eq!(x.contains(y), a & b == b);
        }
    }
}

#[test]
fn tcp_flags_rendering() {
    assert_eq!((TcpFlags::FIN() | TcpFlags::ACK()).to_string(), "FIN|ACK");
    assert_eq!(TcpFlags::from_bits_retain(0).to_string(), "");
}

#[test]
fn tcp_flags_rendering_keeps_the_fixed_order() {
    assert_eq!(TcpFlags::FIN().to_string(), "FIN");
    assert_eq!(TcpFlags::SYN().to_string(), "SYN");
    assert_eq!(TcpFlags::RST().to_string(), "RST");
    assert_eq!(TcpFlags::PSH().to_string(), "PSH");
    assert_eq!(TcpFlags::ACK().to_string(), "ACK");
    assert_eq!(TcpFlags::URG().to_string(), "URG");
    assert_eq!((TcpFlags::ACK() | TcpFlags::SYN()).to_string(), "SYN|ACK");
    assert_eq!((TcpFlags::URG() | TcpFlags::ACK() | TcpFlags::PSH()).to_string(), "PSH|ACK|URG");
    assert_eq!(TcpFlags::MASK().to_string(), "FIN|SYN|RST|PSH|ACK|URG");
    assert_eq!(TcpFlags::from_bits_retain(0xC0).to_string(), "");
    assert_eq!(TcpFlags::from_bits_retain(0xFF).to_string(), "FIN|SYN|RST|PSH|ACK|URG");
}

#[test]
fn tcp_flags_rendering_names_exactly_the_set_flags() {
    let names = ["FIN", "SYN", "RST", "PSH", "ACK", "URG"];
    for bits in 0..=u8::MAX {
        let mut expected: Vec<&str> = Vec::new();
        for (i, name) in names.iter().enumerate() {
            if bits & (1 << i) != 0 {
                expected.push(name);
            }
        }
        assert_eq!(TcpFlags::from_bits_retain(bits).to_string(), expected.join("|"));
    }
}
