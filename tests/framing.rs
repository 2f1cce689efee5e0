use tun_rs::ifname::InterfaceName;
use tun_rs::lifecycle::{Platform, Release, Setup, Step, Teardown};
use tun_rs::pktinfo::{
    decode_family_header, decode_flags_header, encode_family_header, encode_flags_header,
    family_write_prefix, finish_family_read, finish_flags_read, finish_transfer, flags_write_prefix,
};
use tun_rs::order::ByteOrder::{Big, Little};
use tun_rs::order::{decode_u16, decode_u32, encode_u16, encode_u32};
use tun_rs::TunError;

#[test]
fn flags_header_round_trip() {
    let hdr = encode_flags_header((0x0001, 0x0800), Little);
    assert_eq!(hdr, [0x01, 0x00, 0x08, 0x00]);
    assert_eq!(decode_flags_header(&hdr, Little), (0x0001, 0x0800));
    assert_eq!(finish_flags_read(true, 64, 0, &hdr, Little), Ok((60, (0x0001, 0x0800))));
    assert_eq!(flags_write_prefix(true, (0x0001, 0x0800), Little), vec![0x01, 0x00, 0x08, 0x00]);
}

#[test]
fn family_header_round_trip() {
    let hdr = encode_family_header(0x0000_0002);
    assert_eq!(hdr, [0, 0, 0, 2]);
    assert_eq!(decode_family_header(&[0x12, 0x34, 0x56, 0x78]), 0x1234_5678);
    assert_eq!(finish_family_read(true, 24, 0, &hdr), Ok((20, 2)));
    assert_eq!(family_write_prefix(true, 28), vec![0, 0, 0, 28]);
}

#[test]
fn disabled_packet_info_keeps_every_byte() {
    let hdr = [0xaa, 0xbb, 0xcc, 0xdd];
    assert_eq!(finish_flags_read(false, 37, 0, &hdr, Little), Ok((37, (0, 0))));
    assert_eq!(finish_family_read(false, 37, 0, &hdr), Ok((37, 0)));
    assert_eq!(finish_flags_read(false, 0, 0, &hdr, Little), Ok((0, (0, 0))));
    assert!(flags_write_prefix(false, (1, 2), Little).is_empty());
    assert!(family_write_prefix(false, 2).is_empty());
}

#[test]
fn short_read_fails_closed() {
    let hdr = [1, 0, 8, 0];
    assert_eq!(finish_flags_read(true, 3, 0, &hdr, Little), Err(TunError::NotEnoughData));
    assert_eq!(finish_family_read(true, 0, 0, &hdr), Err(TunError::NotEnoughData));
    assert_eq!(finish_flags_read(true, 4, 0, &hdr, Little), Ok((0, (1, 0x0800))));
}

#[test]
fn failed_calls_carry_the_os_error() {
    let hdr = [0; 4];
    assert_eq!(finish_flags_read(true, -1, 11, &hdr, Little), Err(TunError::IO { code: 11 }));
    assert_eq!(finish_family_read(false, -1, 5, &hdr), Err(TunError::IO { code: 5 }));
    assert_eq!(finish_transfer(-1, 28), Err(TunError::IO { code: 28 }));
    assert_eq!(finish_transfer(40, 0), Ok(40));
}

#[test]
fn name_of_maximum_length() {
    let name = InterfaceName::new("abcdefghijklmno").unwrap();
    assert_eq!(name.to_bytes(), b"abcdefghijklmno".to_vec());
    let field = name.field();
    assert_eq!(field.len(), 16);
    assert_eq!(field[15], 0);
}

#[test]
fn name_one_byte_too_long() {
    assert_eq!(
        InterfaceName::new("abcdefghijklmnop"),
        Err(TunError::DeviceNameTooLong { len: 16, max: 16 })
    );
}

#[test]
fn name_with_nul_reports_its_offset() {
    assert_eq!(InterfaceName::new("tun\0x"), Err(TunError::DeviceNameContainsNuls { pos: 3 }));
    assert_eq!(
        InterfaceName::new("abcdefghijklmnopq\0r\0"),
        Err(TunError::DeviceNameContainsNuls { pos: 17 })
    );
    assert_eq!(InterfaceName::new("\0"), Err(TunError::DeviceNameContainsNuls { pos: 0 }));
}

#[test]
fn name_from_kernel_field() {
    let mut field = [0u8; 16];
    field[..4].copy_from_slice(b"tun7");
    let name = InterfaceName::from_field(&field).unwrap();
    assert_eq!(name.to_bytes(), b"tun7".to_vec());
    assert_eq!(name.field(), field.to_vec());
    assert_eq!(InterfaceName::from_field(&[b'a'; 16]), Err(TunError::InvalidCString));
    assert_eq!(InterfaceName::from_bytes(b""), Ok(InterfaceName::from_field(&[0u8; 16]).unwrap()));
}

#[test]
fn teardown_goes_on_after_a_failed_close() {
    let mut t = Teardown::for_device(Platform::FreeBsd);
    let mut seen = Vec::new();
    let mut first = true;
    while let Some(release) = t.next() {
        seen.push(release);
        t.record(!first);
        first = false;
    }
    assert_eq!(seen, vec![Release::ClosePrimary, Release::DestroyInterface, Release::CloseControl]);
    assert_eq!(t.failures(), 1);
    assert!(t.is_finished());
}

#[test]
fn linux_teardown_closes_the_descriptor_only() {
    let mut t = Teardown::for_device(Platform::Linux);
    assert_eq!(t.next(), Some(Release::ClosePrimary));
    t.record(false);
    assert_eq!(t.next(), None);
    assert!(t.is_finished());
}

#[test]
fn creation_runs_the_platform_steps() {
    let mut s = Setup::new(Platform::FreeBsd);
    let mut steps = Vec::new();
    while let Some(step) = s.next_step() {
        steps.push(step);
        s.record(true);
    }
    assert_eq!(
        steps,
        vec![Step::OpenDevice, Step::SetupDevice, Step::ResolveIdentity, Step::OpenControl, Step::Configure]
    );
    assert!(s.is_complete());
    let mut s = Setup::new(Platform::Linux);
    let mut n = 0;
    while s.next_step().is_some() {
        s.record(true);
        n += 1;
    }
    assert_eq!(n, 4);
}

#[test]
fn failed_creation_releases_what_it_opened() {
    let mut s = Setup::new(Platform::FreeBsd);
    s.record(true);
    s.record(true);
    s.record(false);
    assert_eq!(s.next_step(), None);
    assert!(!s.is_complete());
    let mut t = s.teardown();
    assert_eq!(t.next(), Some(Release::ClosePrimary));
    t.record(true);
    assert_eq!(t.next(), None);

    let mut s = Setup::new(Platform::FreeBsd);
    s.record(false);
    assert_eq!(s.teardown().next(), None);

    let mut s = Setup::new(Platform::FreeBsd);
    for _ in 0..4 {
        s.record(true);
    }
    s.record(false);
    let mut t = s.teardown();
    let mut seen = Vec::new();
    while let Some(r) = t.next() {
        seen.push(r);
        t.record(true);
    }
    assert_eq!(seen, vec![Release::ClosePrimary, Release::DestroyInterface, Release::CloseControl]);
}

#[test]
fn flags_header_in_big_endian_hosts() {
    let hdr = encode_flags_header((0x0001, 0x0800), Big);
    assert_eq!(hdr, [0x00, 0x01, 0x08, 0x00]);
    assert_eq!(decode_flags_header(&hdr, Big), (0x0001, 0x0800));
    assert_eq!(finish_flags_read(true, 10, 0, &hdr, Big), Ok((6, (0x0001, 0x0800))));
    assert_eq!(flags_write_prefix(true, (0x0001, 0x0800), Big), vec![0x00, 0x01, 0x08, 0x00]);
}

#[test]
fn integers_in_either_order() {
    assert_eq!(encode_u16(0x1234, Little), [0x34, 0x12]);
    assert_eq!(encode_u16(0x1234, Big), [0x12, 0x34]);
    assert_eq!(decode_u16(0x34, 0x12, Little), 0x1234);
    assert_eq!(decode_u16(0x12, 0x34, Big), 0x1234);
    assert_eq!(encode_u32(0x1234_5678, Little), 0x1234_5678u32.to_le_bytes());
    assert_eq!(encode_u32(0x1234_5678, Big), 0x1234_5678u32.to_be_bytes());
    assert_eq!(decode_u32(&[0x78, 0x56, 0x34, 0x12], Little), 0x1234_5678);
    assert_eq!(decode_u32(&[0x12, 0x34, 0x56, 0x78], Big), 0x1234_5678);
}
