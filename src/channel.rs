//! An in-memory device pair joined by channels: what one handle writes, the
//! other reads. It stands in for an operating-system device where none is
//! wanted.
use vstd::prelude::*;

use crossbeam_channel::{Receiver, Sender};

use crate::config::{IpAddress, TunConfig};
use crate::error::TunError;
use crate::tun::Tun;

verus! {

/// crossbeam_channel::Sender, carried through opaquely.
#[verifier::external_type_specification]
#[verifier::external_body]
#[verifier::reject_recursive_types(T)]
pub struct ExSender<T>(crossbeam_channel::Sender<T>);

/// crossbeam_channel::Receiver, carried through opaquely.
#[verifier::external_type_specification]
#[verifier::external_body]
#[verifier::reject_recursive_types(T)]
pub struct ExReceiver<T>(crossbeam_channel::Receiver<T>);

/// `tx` and `rx` are the two ends of one channel: what is sent on `tx` is
/// received on `rx`.
pub uninterp spec fn connected(tx: Sender<Vec<u8>>, rx: Receiver<Vec<u8>>) -> bool;

/// Relies on crossbeam_channel::unbounded: a sender and a receiver of one
/// unbounded queue.
#[verifier::external_body]
fn channel_pair() -> (r: (Sender<Vec<u8>>, Receiver<Vec<u8>>))
    ensures
        connected(r.0, r.1),
{
    crossbeam_channel::unbounded()
}

/// Relies on crossbeam_channel::Sender::send: queues `msg`; `false` when the
/// receiving side is gone. What the peer reads is not a function of this call.
#[verifier::external_body]
fn send_message(tx: &Sender<Vec<u8>>, msg: Vec<u8>) -> bool {
    tx.send(msg).is_ok()
}

/// Relies on crossbeam_channel::Receiver::recv: blocks until a message
/// arrives; `None` once the queue is empty and the sending side is gone.
#[verifier::external_body]
fn receive_message(rx: &Receiver<Vec<u8>>) -> Option<Vec<u8>> {
    rx.recv().ok()
}

/// The smaller of two lengths.
pub open spec fn min_len(a: nat, b: nat) -> nat {
    if a <= b {
        a
    } else {
        b
    }
}

/// `dst` after the first `n` bytes of `src` were copied over its start.
pub open spec fn copied(dst: Seq<u8>, src: Seq<u8>, n: nat) -> Seq<u8> {
    src.subrange(0, n as int) + dst.subrange(n as int, dst.len() as int)
}

/// Message `m` was handed to a reader: `n` bytes of it landed at the start of
/// the buffer (`before` becoming `after`), and the rest was kept.
pub open spec fn delivered(before: Seq<u8>, after: Seq<u8>, kept: Seq<u8>, n: nat, m: Seq<u8>) -> bool {
    &&& n == min_len(m.len(), before.len())
    &&& after == copied(before, m, n)
    &&& kept == m.subrange(n as int, m.len() as int)
}

/// Some message was handed to a reader, as `delivered` says.
pub open spec fn received(before: Seq<u8>, after: Seq<u8>, kept: Seq<u8>, n: nat) -> bool {
    exists|m: Seq<u8>| #[trigger] delivered(before, after, kept, n, m)
}

/// Message `m` was taken as a packet: `n` bytes of it landed at the start of
/// the buffer (`before` becoming `after`), and the rest was cut off.
pub open spec fn packet_taken(before: Seq<u8>, after: Seq<u8>, n: nat, m: Seq<u8>) -> bool {
    &&& n == min_len(m.len(), before.len())
    &&& after == copied(before, m, n)
}

/// Some message was taken as a packet, as `packet_taken` says.
pub open spec fn truncated(before: Seq<u8>, after: Seq<u8>, n: nat) -> bool {
    exists|m: Seq<u8>| #[trigger] packet_taken(before, after, n, m)
}

/// Copies as much of `src` as fits into the start of `dst`; returns how much.
fn copy_prefix(src: &Vec<u8>, dst: &mut [u8]) -> (n: usize)
    ensures
        n == min_len(src@.len(), old(dst)@.len()),
        final(dst)@ == copied(old(dst)@, src@, n as nat),
{
    let n: usize = if src.len() <= dst.len() {
        src.len()
    } else {
        dst.len()
    };
    let mut i: usize = 0;
    while i < n
        invariant
            i <= n,
            n == min_len(src@.len(), old(dst)@.len()),
            dst@.len() == old(dst)@.len(),
            dst@ == copied(old(dst)@, src@, i as nat),
        decreases n - i,
    {
        dst[i] = src[i];
        i = i + 1;
        assert(dst@ =~= copied(old(dst)@, src@, i as nat));
    }
    n
}

/// The bytes of `src` from offset `from` on.
fn suffix(src: &Vec<u8>, from: usize) -> (r: Vec<u8>)
    requires
        from <= src@.len(),
    ensures
        r@ == src@.subrange(from as int, src@.len() as int),
{
    let mut r: Vec<u8> = Vec::new();
    let mut i: usize = from;
    while i < src.len()
        invariant
            from <= i <= src@.len(),
            r@ == src@.subrange(from as int, i as int),
        decreases src@.len() - i,
    {
        r.push(src[i]);
        i = i + 1;
        assert(r@ =~= src@.subrange(from as int, i as int));
    }
    r
}

/// Reading a message in two pieces, `a` bytes and then `b` bytes, yields the
/// same bytes as reading `a + b` at once, and keeps the same rest: no byte is
/// lost or repeated between reads.
pub proof fn lemma_split_reads(m: Seq<u8>, a: nat, b: nat)
    ensures
        ({
            let n1 = min_len(m.len(), a);
            let rest = m.subrange(n1 as int, m.len() as int);
            let n2 = min_len(rest.len(), b);
            let n = min_len(m.len(), a + b);
            &&& n1 + n2 == n
            &&& m.subrange(0, n1 as int) + rest.subrange(0, n2 as int) == m.subrange(0, n as int)
            &&& rest.subrange(n2 as int, rest.len() as int) == m.subrange(n as int, m.len() as int)
        }),
{
    let n1 = min_len(m.len(), a);
    let rest = m.subrange(n1 as int, m.len() as int);
    let n2 = min_len(rest.len(), b);
    let n = min_len(m.len(), a + b);
    assert(m.subrange(0, n1 as int) + rest.subrange(0, n2 as int) =~= m.subrange(0, n as int));
    assert(rest.subrange(n2 as int, rest.len() as int) =~= m.subrange(n as int, m.len() as int));
}

/// One end of an in-memory device pair.
#[derive(Debug)]
pub struct ChannelTun {
    ip: Option<IpAddress>,
    name: String,
    tx: Sender<Vec<u8>>,
    rx: Receiver<Vec<u8>>,
    rx_buffer: Vec<u8>,
}

impl ChannelTun {
    /// Bytes received but not yet read.
    pub closed spec fn pending(&self) -> Seq<u8> {
        self.rx_buffer@
    }

    /// The name of the pair.
    pub closed spec fn spec_name(&self) -> Seq<char> {
        self.name@
    }

    /// This end's sender and the peer's receiver are the two ends of one
    /// channel: what this end sends, `peer` receives.
    pub open spec fn feeds(&self, peer: &ChannelTun) -> bool {
        connected(self.ends().0, peer.ends().1)
    }

    /// This end's sender and receiver.
    pub closed spec fn ends(&self) -> (Sender<Vec<u8>>, Receiver<Vec<u8>>) {
        (self.tx, self.rx)
    }

    /// The address from the configuration, if any.
    pub closed spec fn spec_ip(&self) -> Option<IpAddress> {
        self.ip
    }

    /// Creates a connected pair, both named `name`. The configuration is not
    /// applied: neither end has an address.
    pub fn create(name: &str, _cfg: TunConfig) -> (r: Result<(ChannelTun, ChannelTun), TunError>)
        ensures
            r is Ok,
            r->Ok_0.0.pending().len() == 0,
            r->Ok_0.1.pending().len() == 0,
            r->Ok_0.0.spec_name() == name@,
            r->Ok_0.1.spec_name() == name@,
            r->Ok_0.0.spec_ip() is None,
            r->Ok_0.1.spec_ip() is None,
            r->Ok_0.0.feeds(&r->Ok_0.1),
            r->Ok_0.1.feeds(&r->Ok_0.0),
    {
        let (tx0, rx0) = channel_pair();
        let (tx1, rx1) = channel_pair();
        let a = ChannelTun { ip: None, name: name.to_owned(), tx: tx0, rx: rx1, rx_buffer: Vec::new() };
        let b = ChannelTun { ip: None, name: name.to_owned(), tx: tx1, rx: rx0, rx_buffer: Vec::new() };
        Ok((a, b))
    }

    /// The name of the pair.
    pub fn name(&self) -> (r: &str)
        ensures
            r@ == self.spec_name(),
    {
        self.name.as_str()
    }

    /// The address from the configuration, if any.
    pub fn ip(&self) -> (r: Option<IpAddress>)
        ensures
            r == self.spec_ip(),
    {
        self.ip
    }

    /// Hands a received message to a reader: as much as fits goes into `buf`,
    /// the rest is kept for the following reads.
    pub fn deliver(&mut self, data: Vec<u8>, buf: &mut [u8]) -> (n: usize)
        requires
            old(self).pending().len() == 0,
        ensures
            n == min_len(data@.len(), old(buf)@.len()),
            final(buf)@ == copied(old(buf)@, data@, n as nat),
            final(self).pending() == data@.subrange(n as int, data@.len() as int),
            final(self).spec_name() == old(self).spec_name(),
            final(self).spec_ip() == old(self).spec_ip(),
            final(self).ends() == old(self).ends(),
    {
        let n = copy_prefix(&data, buf);
        self.rx_buffer = suffix(&data, n);
        n
    }

    /// Reads from the bytes kept from earlier messages: as many as fit.
    pub fn read_pending(&mut self, buf: &mut [u8]) -> (n: usize)
        ensures
            n == min_len(old(self).pending().len(), old(buf)@.len()),
            final(buf)@ == copied(old(buf)@, old(self).pending(), n as nat),
            final(self).pending() == old(self).pending().subrange(
                n as int,
                old(self).pending().len() as int,
            ),
            final(self).spec_name() == old(self).spec_name(),
            final(self).spec_ip() == old(self).spec_ip(),
            final(self).ends() == old(self).ends(),
    {
        let n = copy_prefix(&self.rx_buffer, buf);
        self.rx_buffer = suffix(&self.rx_buffer, n);
        n
    }

    /// Reads bytes sent by the peer: first those kept from an earlier
    /// message; when none are kept, waits for the next message and keeps what
    /// does not fit in `buf`. Fails only when the peer is gone.
    pub fn read(&mut self, buf: &mut [u8]) -> (r: Result<usize, TunError>)
        ensures
            old(self).pending().len() > 0 ==> {
                &&& r == Ok::<usize, TunError>(min_len(old(self).pending().len(), old(buf)@.len()) as usize)
                &&& final(buf)@ == copied(old(buf)@, old(self).pending(), r->Ok_0 as nat)
                &&& final(self).pending() == old(self).pending().subrange(
                    r->Ok_0 as int,
                    old(self).pending().len() as int,
                )
            },
            old(self).pending().len() == 0 ==> match r {
                Ok(n) => received(old(buf)@, final(buf)@, final(self).pending(), n as nat),
                Err(e) => final(self).pending().len() == 0 && final(buf)@ == old(buf)@,
            },
            final(self).spec_name() == old(self).spec_name(),
            final(self).spec_ip() == old(self).spec_ip(),
            final(self).ends() == old(self).ends(),
    {
        if self.rx_buffer.len() > 0 {
            return Ok(self.read_pending(buf));
        }
        let ghost start = buf@;
        match receive_message(&self.rx) {
            Some(data) => {
                let ghost m = data@;
                let n = self.deliver(data, buf);
                assert(delivered(start, buf@, self.pending(), n as nat, m));
                Ok(n)
            },
            None => Err(TunError::Generic("channel disconnected".to_owned())),
        }
    }

    /// Takes a received message as one packet: as much as fits goes into
    /// `buf`, and the rest is cut off, as a device truncates a packet longer
    /// than the buffer.
    pub fn take_packet(data: &Vec<u8>, buf: &mut [u8]) -> (n: usize)
        ensures
            n == min_len(data@.len(), old(buf)@.len()),
            final(buf)@ == copied(old(buf)@, data@, n as nat),
    {
        copy_prefix(data, buf)
    }

    /// Waits for the next message and takes it as one packet, truncated to
    /// `buf`. Bytes kept by `read` are not seen here. Fails only when the
    /// peer is gone, leaving `buf` as it was.
    pub fn receive_packet(&self, buf: &mut [u8]) -> (r: Result<usize, TunError>)
        ensures
            match r {
                Ok(n) => truncated(old(buf)@, final(buf)@, n as nat),
                Err(_) => final(buf)@ == old(buf)@,
            },
    {
        let ghost start = buf@;
        match receive_message(&self.rx) {
            Some(data) => {
                let n = ChannelTun::take_packet(&data, buf);
                assert(packet_taken(start, buf@, n as nat, data@));
                Ok(n)
            },
            None => Err(TunError::Generic("channel disconnected".to_owned())),
        }
    }

    /// Sends `buf` to the peer as one message. Returns its length, or fails
    /// when the peer is gone.
    pub fn write(&mut self, buf: &[u8]) -> (r: Result<usize, TunError>)
        ensures
            r is Ok ==> r == Ok::<usize, TunError>(buf@.len() as usize),
            final(self).pending() == old(self).pending(),
            final(self).spec_name() == old(self).spec_name(),
            final(self).spec_ip() == old(self).spec_ip(),
            final(self).ends() == old(self).ends(),
    {
        self.send(buf)
    }

    fn send(&self, buf: &[u8]) -> (r: Result<usize, TunError>)
        ensures
            r is Ok ==> r == Ok::<usize, TunError>(buf@.len() as usize),
    {
        let msg = vstd::slice::slice_to_vec(buf);
        if send_message(&self.tx, msg) {
            Ok(buf.len())
        } else {
            Err(TunError::Generic("channel disconnected".to_owned()))
        }
    }

    /// Nothing is buffered on the sending side: flushing always succeeds.
    pub fn flush(&mut self) -> (r: Result<(), TunError>)
        ensures
            r is Ok,
    {
        Ok(())
    }
}

impl Tun for ChannelTun {
    type PktInfo = ();

    /// Nothing to bring up: always succeeds.
    fn up(&self) -> (r: Result<(), TunError>)
        ensures
            r is Ok,
    {
        Ok(())
    }

    /// Nothing to bring down: always succeeds.
    fn down(&self) -> (r: Result<(), TunError>)
        ensures
            r is Ok,
    {
        Ok(())
    }

    /// Receives the next message as one packet, truncated to `buf`; see
    /// `receive_packet`.
    fn read_packet(&self, buf: &mut [u8]) -> (r: Result<(usize, ()), TunError>)
        ensures
            match r {
                Ok((n, _)) => truncated(old(buf)@, final(buf)@, n as nat),
                Err(_) => final(buf)@ == old(buf)@,
            },
    {
        match self.receive_packet(buf) {
            Ok(n) => Ok((n, ())),
            Err(e) => Err(e),
        }
    }

    /// Sends `buf` to the peer as one message; there is no header.
    fn write_packet(&self, buf: &[u8], pi: ()) -> (r: Result<usize, TunError>)
        ensures
            r is Ok ==> r == Ok::<usize, TunError>(buf@.len() as usize),
    {
        self.send(buf)
    }

    fn blank_pktinfo(&self) -> () {
        ()
    }
}

} // verus!
