//! A scripted stream: a list of packets to be handed out one after the other
//! in place of what a device would send.

use vstd::prelude::*;

verus! {

/// One packet: the bytes that arrive together.
#[derive(Debug, Default)]
pub struct Packet {
    buffer: Vec<u8>,
}

/// A stream that holds its packets in the order in which they are to arrive,
/// and the number of those already handed out.
pub struct MockStream {
    index: usize,
    packets: Vec<Packet>,
}

impl View for Packet {
    type V = Seq<u8>;

    closed spec fn view(&self) -> Seq<u8> {
        self.buffer@
    }
}

impl Packet {
    /// A packet of the given bytes.
    pub fn from(buf: &[u8]) -> (packet: Packet)
        ensures
            packet@ == buf@,
    {
        Packet { buffer: vstd::slice::slice_to_vec(buf) }
    }

    /// The bytes of the packet.
    pub fn as_ref(&self) -> (bytes: &[u8])
        ensures
            bytes@ == self@,
    {
        self.buffer.as_slice()
    }
}

impl MockStream {
    #[verifier::type_invariant]
    spec fn in_range(self) -> bool {
        self.index <= self.packets.len()
    }

    /// The packets of the stream, first to last, each as its bytes.
    pub closed spec fn packets(self) -> Seq<Seq<u8>> {
        Seq::new(self.packets@.len(), |i: int| self.packets@[i]@)
    }

    /// The number of packets already handed out.
    pub closed spec fn position(self) -> nat {
        self.index as nat
    }

    /// A stream of the given packets, none of them handed out yet.
    pub fn from(buf: &[&[u8]]) -> (stream: MockStream)
        ensures
            stream.position() == 0,
            stream.packets() == Seq::new(buf@.len(), |i: int| buf@[i]@),
    {
        let mut packets: Vec<Packet> = Vec::new();
        let mut index: usize = 0;
        while index < buf.len()
            invariant
                index <= buf.len(),
                packets@.len() == index,
                forall|i: int| 0 <= i < index ==> (#[trigger] packets@[i])@ == buf@[i]@,
            decreases buf.len() - index,
        {
            let packet = Packet::from(buf[index]);
            packets.push(packet);
            index += 1;
        }
        let stream = MockStream { index: 0, packets };
        assert(stream.packets() =~= Seq::new(buf@.len(), |i: int| buf@[i]@));
        stream
    }

    /// The number of packets in the stream.
    pub fn len(&self) -> (len: usize)
        ensures
            len == self.packets().len(),
    {
        self.packets.len()
    }

    /// The next packet, if one is left, and moves past it.
    pub fn next_packet(&mut self) -> (bytes: Option<Vec<u8>>)
        ensures
            final(self).packets() == old(self).packets(),
            match bytes {
                Some(packet) => {
                    &&& old(self).position() < old(self).packets().len()
                    &&& packet@ == old(self).packets()[old(self).position() as int]
                    &&& final(self).position() == old(self).position() + 1
                },
                None => {
                    &&& old(self).position() >= old(self).packets().len()
                    &&& final(self).position() == old(self).position()
                },
            },
    {
        proof {
            use_type_invariant(&*self);
        }
        if self.index < self.packets.len() {
            let bytes = vstd::slice::slice_to_vec(self.packets[self.index].as_ref());
            self.index = self.index + 1;
            Some(bytes)
        } else {
            None
        }
    }
}

} // verus!
