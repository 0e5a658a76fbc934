//! Construction of a DMX frame: the start code followed by the channels.

use vstd::prelude::*;

verus! {

/// Largest number of channels a DMX packet carries.
pub const MAX_CHANNELS: usize = 512;

/// Start code of a packet of ordinary channel data.
pub const NULL_START_CODE: u8 = 0x00;

/// Number of channels of `channels` that fit in one packet.
pub open spec fn channel_count(channels: Seq<u8>) -> nat {
    if channels.len() <= MAX_CHANNELS {
        channels.len()
    } else {
        MAX_CHANNELS as nat
    }
}

/// The frame sent for `channels` with start code `start`: the start code,
/// then the first (at most 512) channels in order.
pub open spec fn dmx_frame(channels: Seq<u8>, start: u8) -> Seq<u8> {
    seq![start] + channels.take(channel_count(channels) as int)
}

/// Builds the frame for `channels` with start code `start`. Channels beyond
/// the 512th are left out.
pub fn build_frame(channels: &[u8], start: u8) -> (frame: Vec<u8>)
    ensures
        frame@ == dmx_frame(channels@, start),
{
    let count: usize = if channels.len() <= MAX_CHANNELS {
        channels.len()
    } else {
        MAX_CHANNELS
    };
    let mut frame: Vec<u8> = Vec::with_capacity(count + 1);
    frame.push(start);
    let mut i: usize = 0;
    while i < count
        invariant
            count == channel_count(channels@),
            count <= channels@.len(),
            i <= count,
            frame@ == seq![start] + channels@.take(i as int),
        decreases count - i,
    {
        frame.push(channels[i]);
        i = i + 1;
        assert(channels@.take(i as int) == channels@.take(i - 1).push(channels@[i - 1]));
    }
    frame
}

/// A frame is one byte longer than the channels it carries (at most 512):
/// the start code first, then those channels unchanged and in order.
/// Channels beyond the 512th are dropped, never reported as an error.
pub proof fn lemma_frame_layout(channels: Seq<u8>, start: u8)
    ensures
        channels.len() <= MAX_CHANNELS ==> dmx_frame(channels, start).len() == channels.len() + 1,
        channels.len() > MAX_CHANNELS ==> dmx_frame(channels, start).len() == MAX_CHANNELS + 1,
        dmx_frame(channels, start)[0] == start,
        forall|i: int|
            0 <= i < channel_count(channels) ==> #[trigger] dmx_frame(channels, start)[i + 1]
                == channels[i],
        channels.len() <= MAX_CHANNELS ==> dmx_frame(channels, start).skip(1) == channels,
        channels.len() > MAX_CHANNELS ==> dmx_frame(channels, start).skip(1) == channels.take(
            MAX_CHANNELS as int,
        ),
{
    let f = dmx_frame(channels, start);
    assert(f.skip(1) =~= channels.take(channel_count(channels) as int));
    assert(channels.len() <= MAX_CHANNELS ==> channels.take(channels.len() as int) =~= channels);
}

} // verus!
