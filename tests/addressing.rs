use tun_rs::addr::{broadcast, ipv4_mask, ipv4_target};
use tun_rs::config::{IpAddress, TunConfig};
use tun_rs::ioctl::{alias_request, create_request, flags_of_reply, flags_request, with_up};
use tun_rs::ifname::InterfaceName;
use tun_rs::netlink::{address_request, link_request, IFA_ADDRESS, IFA_LOCAL, RTM_NEWADDR, RTM_NEWLINK};
use tun_rs::order::ByteOrder::{Big, Little};
use tun_rs::TunError;

#[test]
fn masks_for_every_valid_prefix() {
    for prefix in 0u8..=32 {
        let mask = ipv4_mask(prefix).unwrap();
        assert_eq!(mask.count_ones(), prefix as u32);
        assert_eq!(mask.leading_ones(), prefix as u32);
    }
    assert_eq!(ipv4_mask(0).unwrap(), 0);
    assert_eq!(ipv4_mask(8).unwrap(), 0xff00_0000);
    assert_eq!(ipv4_mask(24).unwrap(), 0xffff_ff00);
    assert_eq!(ipv4_mask(32).unwrap(), 0xffff_ffff);
}

#[test]
fn prefix_above_32_is_invalid() {
    assert_eq!(ipv4_mask(33), Err(TunError::Ipv4InvalidCidr { cidr: 33 }));
    assert_eq!(ipv4_mask(255), Err(TunError::Ipv4InvalidCidr { cidr: 255 }));
}

#[test]
fn broadcast_of_a_slash_24() {
    let addr = u32::from_be_bytes([192, 168, 70, 100]);
    let mask = ipv4_mask(24).unwrap();
    assert_eq!(mask.to_be_bytes(), [255, 255, 255, 0]);
    assert_eq!(broadcast(addr, mask).to_be_bytes(), [192, 168, 70, 255]);
    assert_eq!(broadcast(addr, 0), u32::MAX);
    assert_eq!(broadcast(addr, u32::MAX), addr);
}

#[test]
fn ipv6_is_unsupported() {
    let v6 = IpAddress::from([0u8; 16]);
    assert_eq!(ipv4_target(v6, 64), Err(TunError::Ipv6Unsupported));
    assert_eq!(ipv4_target(IpAddress::V4([1, 2, 3, 4]), 16), Ok(([1, 2, 3, 4], 0xffff_0000)));
}

fn name_field(name: &[u8]) -> Vec<u8> {
    let mut v = name.to_vec();
    v.resize(16, 0);
    v
}

fn sockaddr(addr: [u8; 4]) -> Vec<u8> {
    let mut v = vec![16u8, 2, 0, 0];
    v.extend_from_slice(&addr);
    v.extend_from_slice(&[0u8; 8]);
    v
}

#[test]
fn alias_request_layout() {
    let name = InterfaceName::new("tun0").unwrap();
    let req = alias_request(&name, IpAddress::from([192u8, 168, 70, 100]), 24).unwrap();
    let mut expected = name_field(b"tun0");
    expected.extend(sockaddr([192, 168, 70, 100]));
    expected.extend(sockaddr([192, 168, 70, 255]));
    expected.extend(sockaddr([255, 255, 255, 0]));
    expected.extend_from_slice(&[0u8; 4]);
    assert_eq!(req.len(), 68);
    assert_eq!(req, expected);
}

#[test]
fn alias_request_refusals() {
    let name = InterfaceName::new("tun0").unwrap();
    assert_eq!(
        alias_request(&name, IpAddress::V4([10, 0, 0, 1]), 40),
        Err(TunError::Ipv4InvalidCidr { cidr: 40 })
    );
    assert_eq!(alias_request(&name, IpAddress::V6([0; 16]), 24), Err(TunError::Ipv6Unsupported));
}

#[test]
fn create_request_layout() {
    let name = InterfaceName::new("linux0").unwrap();
    let plain = create_request(&name, false, Little);
    let mut expected = name_field(b"linux0");
    expected.extend_from_slice(&[0x01, 0x10]);
    expected.extend_from_slice(&[0u8; 64]);
    assert_eq!(plain, expected);
    let with_info = create_request(&name, true, Little);
    assert_eq!(&with_info[16..18], &[0x01, 0x00]);
    assert_eq!(with_info.len(), 82);
    let big = create_request(&name, false, Big);
    assert_eq!(&big[16..18], &[0x10, 0x01]);
}

#[test]
fn flags_request_round_trip() {
    let name = InterfaceName::new("tun3").unwrap();
    let req = flags_request(&name, 0x8043, Little);
    let mut expected = name_field(b"tun3");
    expected.extend_from_slice(&[0x43, 0x80, 0, 0]);
    expected.extend_from_slice(&[0u8; 12]);
    assert_eq!(req, expected);
    assert_eq!(flags_of_reply(&req, Little), 0x8043);
    assert_eq!(flags_of_reply(&flags_request(&name, -2, Little), Little), -2);
    let big = flags_request(&name, 0x8043, Big);
    assert_eq!(&big[16..20], &[0, 0, 0x80, 0x43]);
    assert_eq!(flags_of_reply(&big, Big), 0x8043);
}

#[test]
fn up_bit_is_set_and_cleared_alone() {
    assert_eq!(with_up(0x8042, true), 0x8043);
    assert_eq!(with_up(0x8043, true), 0x8043);
    assert_eq!(with_up(0x8043, false), 0x8042);
    assert_eq!(with_up(-1, false), -2);
}

#[test]
fn netlink_address_request() {
    let req = address_request(7, IpAddress::V4([192, 168, 70, 100]), 24).unwrap();
    assert_eq!(req.kind, RTM_NEWADDR);
    assert_eq!(req.flags, 0x1 | 0x400 | 0x200);
    assert_eq!(req.family, 2);
    assert_eq!(req.prefix_len, 24);
    assert_eq!(req.addr_flags, 0x80);
    assert_eq!(req.scope, 0);
    assert_eq!(req.index, 7);
    assert_eq!(
        req.attributes,
        vec![(IFA_ADDRESS, [192, 168, 70, 100]), (IFA_LOCAL, [192, 168, 70, 100])]
    );
    assert!(matches!(
        address_request(7, IpAddress::V4([1, 1, 1, 1]), 33),
        Err(TunError::Ipv4InvalidCidr { cidr: 33 })
    ));
    assert!(matches!(address_request(7, IpAddress::V6([0; 16]), 64), Err(TunError::Ipv6Unsupported)));
}

#[test]
fn netlink_link_requests() {
    let up = link_request(3, true);
    assert_eq!((up.kind, up.flags, up.index, up.link_flags, up.change), (RTM_NEWLINK, 1, 3, 1, 1));
    let down = link_request(3, false);
    assert_eq!((down.kind, down.index, down.link_flags, down.change), (RTM_NEWLINK, 3, 0, 1));
}

#[test]
fn config_builder() {
    let cfg = TunConfig::default();
    assert!(cfg.ip.is_none() && cfg.name.is_none() && !cfg.packet_info);
    let cfg = TunConfig::default().name("linux1").ip([192u8, 168, 70, 100], 24).packet_info(true);
    assert_eq!(cfg.name.as_deref(), Some("linux1"));
    assert_eq!(cfg.ip, Some((IpAddress::V4([192, 168, 70, 100]), 24)));
    assert!(cfg.packet_info);
    let cfg = cfg.packet_info(false);
    assert!(!cfg.packet_info);
}

#[test]
fn configured_name_is_required_and_validated() {
    assert_eq!(TunConfig::default().required_name(), Err(TunError::DeviceNameRequired));
    let name = TunConfig::default().name("linux0").required_name().unwrap();
    assert_eq!(name.to_bytes(), b"linux0".to_vec());
    assert_eq!(
        TunConfig::default().name("a\0b").required_name(),
        Err(TunError::DeviceNameContainsNuls { pos: 1 })
    );
}
