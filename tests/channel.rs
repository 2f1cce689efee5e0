use tun_rs::channel::ChannelTun;
use tun_rs::config::TunConfig;
use tun_rs::tun::Tun;

#[test]
fn exact_buffer_size() {
    let (mut local, mut peer) = ChannelTun::create("dummy0", TunConfig::default())
        .expect("failed to create channel tun device");

    let tx_msg = "Hello, there";
    let n = local
        .write(tx_msg.as_bytes())
        .expect("failed to write message via local channel tun");
    assert_eq!(n, tx_msg.len());

    let mut rx_msg = [0u8; 12];
    let n = peer
        .read(&mut rx_msg)
        .expect("failed to read message via peer channel tun");

    assert_eq!(n, tx_msg.len());
    assert_eq!(rx_msg, tx_msg.as_bytes());

    let tx_msg = "General Kenobi";
    let n = peer
        .write(tx_msg.as_bytes())
        .expect("failed to write message via peer channel tun");

    assert_eq!(n, tx_msg.len());

    let mut rx_msg = [0u8; 14];
    let n = local
        .read(&mut rx_msg)
        .expect("failed to read message via local channel tun");

    assert_eq!(n, tx_msg.len());
    assert_eq!(rx_msg, tx_msg.as_bytes());
}

#[test]
fn small_recv_buffer_size() {
    let (mut local, mut peer) = ChannelTun::create("dummy0", TunConfig::default())
        .expect("failed to create channel tun device");

    let tx_msg = "Hello, there";
    local
        .write(tx_msg.as_bytes())
        .expect("failed to write message via local channel tun");

    let mut rx_msg = [0u8; 10];
    let n = peer
        .read(&mut rx_msg)
        .expect("failed to read message via peer channel tun");

    assert_eq!(10, n);
    assert_eq!(rx_msg, tx_msg.as_bytes()[..n]);

    let n = peer
        .read(&mut rx_msg)
        .expect("failed to read message via peer channel tun");

    assert_eq!(2, n);
    assert_eq!(rx_msg[..n], tx_msg.as_bytes()[10..]);
}

#[test]
fn large_recv_buffer_size() {
    let (mut local, mut peer) = ChannelTun::create("dummy0", TunConfig::default())
        .expect("failed to create channel tun device");

    let tx_msg = "Hello, there";
    local
        .write(tx_msg.as_bytes())
        .expect("failed to write message via local channel tun");

    let mut rx_msg = [0u8; 100];
    let n = peer
        .read(&mut rx_msg)
        .expect("failed to read message via peer channel tun");

    assert_eq!(12, n);
    assert_eq!(rx_msg[..n], tx_msg.as_bytes()[..]);
}

#[test]
fn partial_reads_across_three_calls() {
    let (mut local, mut peer) = ChannelTun::create("dummy0", TunConfig::default()).unwrap();
    local.write(b"abcdefg").unwrap();
    let mut buf = [0u8; 3];
    assert_eq!(peer.read(&mut buf).unwrap(), 3);
    assert_eq!(&buf, b"abc");
    assert_eq!(peer.read(&mut buf).unwrap(), 3);
    assert_eq!(&buf, b"def");
    assert_eq!(peer.read(&mut buf).unwrap(), 1);
    assert_eq!(buf[0], b'g');
}

#[test]
fn messages_keep_their_order() {
    let (mut local, mut peer) = ChannelTun::create("dummy0", TunConfig::default()).unwrap();
    local.write(b"one").unwrap();
    local.write(b"two").unwrap();
    let mut buf = [0u8; 8];
    assert_eq!(peer.read(&mut buf).unwrap(), 3);
    assert_eq!(&buf[..3], b"one");
    assert_eq!(peer.read(&mut buf).unwrap(), 3);
    assert_eq!(&buf[..3], b"two");
}

#[test]
fn deliver_keeps_the_rest() {
    let (mut local, _peer) = ChannelTun::create("dummy0", TunConfig::default()).unwrap();
    let mut buf = [9u8; 4];
    let n = local.deliver(b"Hello, there".to_vec(), &mut buf);
    assert_eq!(n, 4);
    assert_eq!(&buf, b"Hell");
    let mut rest = [0u8; 20];
    assert_eq!(local.read_pending(&mut rest), 8);
    assert_eq!(&rest[..8], b"o, there");
    assert_eq!(local.read_pending(&mut rest), 0);
}

#[test]
fn channel_packets_and_names() {
    let cfg = TunConfig::default().ip([10u8, 0, 0, 1], 8);
    let (local, peer) = ChannelTun::create("dummy1", cfg).unwrap();
    assert_eq!(local.name(), "dummy1");
    assert_eq!(local.ip(), None);
    assert_eq!(peer.ip(), None);
    assert!(local.up().is_ok());
    assert!(local.down().is_ok());
    assert_eq!(local.write_packet(b"packet", local.blank_pktinfo()).unwrap(), 6);
    let mut buf = [0u8; 4];
    let (n, ()) = peer.read_packet(&mut buf).unwrap();
    assert_eq!(n, 4);
    assert_eq!(&buf, b"pack");
}

#[test]
fn read_fails_when_peer_is_gone() {
    let (mut local, peer) = ChannelTun::create("dummy0", TunConfig::default()).unwrap();
    drop(peer);
    let mut buf = [0u8; 4];
    assert!(local.read(&mut buf).is_err());
    assert!(local.write(b"x").is_err());
}

#[test]
fn packets_are_truncated_to_the_buffer() {
    let mut buf = [7u8; 5];
    assert_eq!(ChannelTun::take_packet(&b"abc".to_vec(), &mut buf), 3);
    assert_eq!(buf, [b'a', b'b', b'c', 7, 7]);
    assert_eq!(ChannelTun::take_packet(&b"abcdefgh".to_vec(), &mut buf), 5);
    assert_eq!(&buf, b"abcde");
    let (local, peer) = ChannelTun::create("dummy0", TunConfig::default()).unwrap();
    local.write_packet(b"xy", ()).unwrap();
    let mut big = [0u8; 8];
    assert_eq!(peer.receive_packet(&mut big).unwrap(), 2);
    assert_eq!(&big[..2], b"xy");
}
