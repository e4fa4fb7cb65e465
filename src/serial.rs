//! Frames arriving over a serial link: hexadecimal text, one frame per line.
use vstd::prelude::*;

use std::collections::VecDeque;

use crate::common::{decode_hex, hex_pairs, hex_pairs_valid};

verus! {

/// Carriage return, skipped wherever it occurs.
pub const CR: u8 = 0x0d;

/// Line feed, the end of a line.
pub const LF: u8 = 0x0a;

/// The contents of a queue of frames.
pub open spec fn packet_views(q: Seq<Vec<u8>>) -> Seq<Seq<u8>> {
    q.map_values(|v: Vec<u8>| v@)
}

/// The effect of one incoming byte on the pending line and the queue of
/// frames: a line of hexadecimal text that writes at least one byte is queued
/// when it ends; any other line is dropped.
pub open spec fn line_step(line: Seq<u8>, frames: Seq<Seq<u8>>, c: u8) -> (Seq<u8>, Seq<Seq<u8>>) {
    if c == CR {
        (line, frames)
    } else if c == LF {
        if hex_pairs_valid(line) && hex_pairs(line).len() > 0 {
            (seq![], frames.push(hex_pairs(line)))
        } else {
            (seq![], frames)
        }
    } else {
        (line.push(c), frames)
    }
}

/// The effect of the bytes `chunk`, in order.
pub open spec fn feed_lines(line: Seq<u8>, frames: Seq<Seq<u8>>, chunk: Seq<u8>) -> (
    Seq<u8>,
    Seq<Seq<u8>>,
)
    decreases chunk.len(),
{
    if chunk.len() == 0 {
        (line, frames)
    } else {
        let (l, f) = line_step(line, frames, chunk[0]);
        feed_lines(l, f, chunk.skip(1))
    }
}

/// Splits the byte stream of a serial link into frames.
#[derive(Debug)]
pub struct LineReader {
    /// The line read so far.
    pub buffer: Vec<u8>,
    /// Frames decoded and not yet taken, oldest first.
    pub data_packets: VecDeque<Vec<u8>>,
}

impl LineReader {
    pub fn new() -> (r: LineReader)
        ensures
            r.buffer@.len() == 0,
            r.data_packets@.len() == 0,
    {
        LineReader { buffer: Vec::new(), data_packets: VecDeque::new() }
    }

    /// Takes in bytes read from the link.
    pub fn feed(&mut self, chunk: &[u8])
        ensures
            (final(self).buffer@, packet_views(final(self).data_packets@)) == feed_lines(
                old(self).buffer@,
                packet_views(old(self).data_packets@),
                chunk@,
            ),
    {
        let ghost goal = feed_lines(
            self.buffer@,
            packet_views(self.data_packets@),
            chunk@,
        );
        assert(chunk@.skip(0) =~= chunk@);
        let mut i: usize = 0;
        while i < chunk.len()
            invariant
                i <= chunk@.len(),
                feed_lines(self.buffer@, packet_views(self.data_packets@), chunk@.skip(i as int))
                    == goal,
            decreases chunk@.len() - i,
        {
            let ghost before = (self.buffer@, packet_views(self.data_packets@));
            let c = chunk[i];
            if c == CR {
            } else if c == LF {
                match decode_hex(self.buffer.as_slice()) {
                    Ok(data) => {
                        if data.len() > 0 {
                            let ghost q = self.data_packets@;
                            let ghost d = data@;
                            self.data_packets.push_back(data);
                            assert(packet_views(self.data_packets@) =~= packet_views(q).push(d));
                        }
                    },
                    Err(_) => {},
                }
                self.buffer.clear();
            } else {
                self.buffer.push(c);
            }
            assert((self.buffer@, packet_views(self.data_packets@)) == line_step(
                before.0,
                before.1,
                c,
            )) by {
                assert(self.buffer@ =~= line_step(before.0, before.1, c).0);
            }
            assert(chunk@.skip(i as int).skip(1) =~= chunk@.skip(i + 1));
            i += 1;
        }
    }

    /// Takes the oldest decoded frame, if any.
    pub fn next_packet(&mut self) -> (r: Option<Vec<u8>>)
        ensures
            final(self).buffer@ == old(self).buffer@,
            packet_views(old(self).data_packets@).len() == 0 ==> r is None
                && final(self).data_packets@ == old(self).data_packets@,
            packet_views(old(self).data_packets@).len() > 0 ==> r is Some && r->Some_0@
                == packet_views(old(self).data_packets@)[0] && packet_views(
                final(self).data_packets@,
            ) == packet_views(old(self).data_packets@).skip(1),
    {
        let ghost q = self.data_packets@;
        let r = self.data_packets.pop_front();
        assert(packet_views(self.data_packets@) =~= packet_views(q).skip(1) || r is None);
        r
    }
}

} // verus!
