//! Network functions: stages that take a burst of packets and hand on the
//! packets they keep, and the static chaining of two stages into one.

use crate::buffer::PacketBufferMut;
use crate::packet::{Packet, PacketView};
use core::marker::PhantomData;
use vstd::prelude::*;

verus! {

/// The views of a burst of packets.
pub open spec fn spec_views<Buf: PacketBufferMut>(packets: Seq<Packet<Buf>>) -> Seq<PacketView<Buf>> {
    packets.map_values(|p: Packet<Buf>| p@)
}

/// A stage that processes a burst of packets: it may change, drop or keep
/// each, and hands on the packets it keeps, in order.
pub trait NetworkFunction<Buf: PacketBufferMut> {
    /// The packets (by their views) that the stage, as it stands, hands on for
    /// `input`.
    spec fn spec_process(&self, input: Seq<PacketView<Buf>>) -> Seq<PacketView<Buf>>;

    /// Process a burst of packets.
    fn process(&mut self, input: Vec<Packet<Buf>>) -> (res: Vec<Packet<Buf>>)
        ensures
            spec_views(res@) == old(self).spec_process(spec_views(input@)),
    ;
}

/// Two stages chained: the first, then the second.
pub struct StaticChainImpl<Buf: PacketBufferMut, NF1: NetworkFunction<Buf>, NF2: NetworkFunction<Buf>> {
    nf1: NF1,
    nf2: NF2,
    _marker: PhantomData<Buf>,
}

impl<Buf: PacketBufferMut, NF1: NetworkFunction<Buf>, NF2: NetworkFunction<Buf>> NetworkFunction<
    Buf,
> for StaticChainImpl<Buf, NF1, NF2> {
    closed spec fn spec_process(&self, input: Seq<PacketView<Buf>>) -> Seq<PacketView<Buf>> {
        self.nf2.spec_process(self.nf1.spec_process(input))
    }

    fn process(&mut self, input: Vec<Packet<Buf>>) -> (res: Vec<Packet<Buf>>) {
        let first = self.nf1.process(input);
        self.nf2.process(first)
    }
}

/// Chaining of stages: `a.chain(b)` is the stage that runs `a`, then `b`.
pub trait StaticChain<Buf: PacketBufferMut>: NetworkFunction<Buf> + Sized {
    /// The stage that runs `self`, then `nf`.
    fn chain<NF: NetworkFunction<Buf>>(self, nf: NF) -> (res: StaticChainImpl<Buf, Self, NF>)
        ensures
            forall|input: Seq<PacketView<Buf>>| #[trigger] res.spec_process(input) == nf.spec_process(self.spec_process(input)),
    ;
}

impl<Buf: PacketBufferMut, Nf: NetworkFunction<Buf>> StaticChain<Buf> for Nf {
    fn chain<NF: NetworkFunction<Buf>>(self, nf: NF) -> (res: StaticChainImpl<Buf, Self, NF>) {
        StaticChainImpl { nf1: self, nf2: nf, _marker: PhantomData }
    }
}

} // verus!
