//! Address selection for multicast transmission.
//!
//! The encoded buffer is sent once per non-loopback local IPv4
//! address: on a multi-homed host the sender cannot know in advance
//! which interface's route reaches the segment the firmware listens
//! on, so it binds a fresh socket to each usable address and sends the
//! same datagram from every one. This module decides, from the plain
//! octets of the host's addresses, which of them a transmitter sends
//! from; the sockets themselves live outside the library.

use vstd::prelude::*;

verus! {

/// The fixed multicast port the firmware listens on.
pub const MULTICAST_PORT: u16 = 3690;

/// An IPv4 address as its four dotted-quad octets, `a.b.c.d`.
#[derive(Clone, Copy, Debug, PartialEq, Eq, Structural)]
pub struct V4Addr {
    pub a: u8,
    pub b: u8,
    pub c: u8,
    pub d: u8,
}

impl V4Addr {
    /// A loopback address: anything in 127.0.0.0/8.
    pub open spec fn spec_is_loopback(self) -> bool {
        self.a == 127
    }

    pub fn is_loopback(&self) -> (r: bool)
        ensures
            r == self.spec_is_loopback(),
    {
        self.a == 127
    }
}

/// The fixed multicast group the firmware listens on, 239.3.6.9.
pub fn multicast_group() -> (r: V4Addr)
    ensures
        r == (V4Addr { a: 239, b: 3, c: 6, d: 9 }),
{
    V4Addr { a: 239, b: 3, c: 6, d: 9 }
}

/// The addresses a transmitter sends from, given the host's addresses:
/// every non-loopback one, kept in enumeration order.
pub open spec fn spec_send_targets(addrs: Seq<V4Addr>) -> Seq<V4Addr>
    decreases addrs.len(),
{
    if addrs.len() == 0 {
        Seq::empty()
    } else if addrs.last().spec_is_loopback() {
        spec_send_targets(addrs.drop_last())
    } else {
        spec_send_targets(addrs.drop_last()) + seq![addrs.last()]
    }
}

/// Picks the addresses to bind and send from: one per non-loopback
/// local address, so one datagram goes out of every usable interface.
#[verifier::loop_isolation(false)]
pub fn send_targets(addrs: &Vec<V4Addr>) -> (r: Vec<V4Addr>)
    ensures
        r@ == spec_send_targets(addrs@),
{
    let mut r: Vec<V4Addr> = Vec::new();
    let mut i: usize = 0;
    while i < addrs.len()
        invariant
            i <= addrs@.len(),
            r@ == spec_send_targets(addrs@.take(i as int)),
        decreases addrs@.len() - i,
    {
        if !addrs[i].is_loopback() {
            r.push(addrs[i]);
        }
        proof {
            assert(addrs@.take(i + 1).drop_last() =~= addrs@.take(i as int));
            assert(r@ =~= spec_send_targets(addrs@.take(i + 1)));
        }
        i += 1;
    }
    proof {
        assert(addrs@.take(addrs@.len() as int) =~= addrs@);
    }
    r
}

/// Law: the selected targets are exactly the non-loopback addresses,
/// in order — so a transmitter that sends once per selected target
/// issues exactly as many sends as there are non-loopback addresses.
pub proof fn lemma_send_targets_are_non_loopback(addrs: Seq<V4Addr>)
    ensures
        spec_send_targets(addrs) == addrs.filter(|x: V4Addr| !x.spec_is_loopback()),
    decreases addrs.len(),
{
    reveal(Seq::filter);
    if addrs.len() == 0 {
        assert(spec_send_targets(addrs) =~= addrs.filter(|x: V4Addr| !x.spec_is_loopback()));
    } else {
        lemma_send_targets_are_non_loopback(addrs.drop_last());
        assert(spec_send_targets(addrs) =~= addrs.filter(|x: V4Addr| !x.spec_is_loopback()));
    }
}

} // verus!
