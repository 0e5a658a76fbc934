//! Sending DMX packets over a serial port: the break, the settle pause, and
//! the data, in that order, stopping at the first failure of the port.

use vstd::prelude::*;

use crate::frame::{build_frame, dmx_frame, NULL_START_CODE};
use crate::profile::{break_profile, data_profile, SerialProfile, SETTLE_NANOS};

verus! {

/// One operation that a transmitter performs on its serial port.
pub enum PortAction {
    /// Switch the line to a configuration.
    Configure(SerialProfile),
    /// Hand these bytes to the port for sending.
    Write(Seq<u8>),
    /// Block for this many nanoseconds.
    Pause(nat),
}

/// An operation on the port together with what the port answered.
pub type PortStep<E> = (PortAction, Result<(), E>);

/// The operations that send a break: switch to the break configuration,
/// then write one zero byte.
pub open spec fn break_actions() -> Seq<PortAction> {
    seq![PortAction::Configure(break_profile()), PortAction::Write(seq![0u8])]
}

/// The hold between the break byte and the data: break and
/// mark-after-break together.
pub open spec fn settle_actions() -> Seq<PortAction> {
    seq![PortAction::Pause(SETTLE_NANOS as nat)]
}

/// The operations that send `data` as DMX data: switch to the data
/// configuration, then write `data` unchanged.
pub open spec fn data_actions(data: Seq<u8>) -> Seq<PortAction> {
    seq![PortAction::Configure(data_profile()), PortAction::Write(data)]
}

/// The five operations that send a whole packet whose bytes (start code
/// included) are `data`.
pub open spec fn packet_actions(data: Seq<u8>) -> Seq<PortAction> {
    break_actions() + settle_actions() + data_actions(data)
}

/// `steps` carries out `plan` in order up to its first failure, and `r` is
/// what the port answered to the last step: the first failure, unchanged,
/// or success once every step of `plan` has been done.
pub open spec fn carries_out<E>(steps: Seq<PortStep<E>>, plan: Seq<PortAction>, r: Result<(), E>) -> bool {
    &&& 0 < steps.len() <= plan.len()
    &&& forall|i: int| 0 <= i < steps.len() ==> (#[trigger] steps[i]).0 == plan[i]
    &&& forall|i: int| 0 <= i < steps.len() - 1 ==> (#[trigger] steps[i]).1 is Ok
    &&& r == steps.last().1
    &&& steps.len() < plan.len() ==> r is Err
}

/// Going from port history `before` to `after`, one call appended steps
/// that carry out `plan` and returned `r`.
pub open spec fn sent<E>(
    before: Seq<PortStep<E>>,
    after: Seq<PortStep<E>>,
    plan: Seq<PortAction>,
    r: Result<(), E>,
) -> bool {
    &&& before.len() <= after.len()
    &&& after.take(before.len() as int) == before
    &&& carries_out(after.skip(before.len() as int), plan, r)
}

/// A call that carried out `p1` and succeeded, followed by one that carried
/// out `p2`, together carry out `p1 + p2`.
pub proof fn lemma_sent_then<E>(
    h0: Seq<PortStep<E>>,
    h1: Seq<PortStep<E>>,
    h2: Seq<PortStep<E>>,
    p1: Seq<PortAction>,
    p2: Seq<PortAction>,
    r1: Result<(), E>,
    r: Result<(), E>,
)
    requires
        sent(h0, h1, p1, r1),
        r1 is Ok,
        sent(h1, h2, p2, r),
    ensures
        sent(h0, h2, p1 + p2, r),
{
    let s1 = h1.skip(h0.len() as int);
    let s2 = h2.skip(h1.len() as int);
    let s = h2.skip(h0.len() as int);
    assert(h2.take(h0.len() as int) =~= h1.take(h0.len() as int)) by {
        assert(h2.take(h1.len() as int).take(h0.len() as int) =~= h2.take(h0.len() as int));
    }
    assert(s =~= s1 + s2) by {
        assert forall|i: int| 0 <= i < s1.len() implies s[i] == s1[i] by {
            assert(h2.take(h1.len() as int)[h0.len() + i] == h2[h0.len() + i]);
        }
    }
    let p = p1 + p2;
    assert forall|i: int| 0 <= i < s.len() implies (#[trigger] s[i]).0 == p[i] by {
        if i >= s1.len() {
            assert(s[i] == s2[i - s1.len()]);
        } else {
            assert(s[i] == s1[i]);
        }
    }
    assert forall|i: int| 0 <= i < s.len() - 1 implies (#[trigger] s[i]).1 is Ok by {
        if i >= s1.len() {
            assert(s[i] == s2[i - s1.len()]);
        } else {
            assert(s[i] == s1[i]);
        }
    }
}

/// A call that carried out part of `p1` and failed has also carried out
/// `p1 + p2` up to its first failure.
pub proof fn lemma_sent_stops<E>(
    h0: Seq<PortStep<E>>,
    h1: Seq<PortStep<E>>,
    p1: Seq<PortAction>,
    p2: Seq<PortAction>,
    r: Result<(), E>,
)
    requires
        sent(h0, h1, p1, r),
        r is Err,
    ensures
        sent(h0, h1, p1 + p2, r),
{
    let s = h1.skip(h0.len() as int);
    let p = p1 + p2;
    assert forall|i: int| 0 <= i < s.len() implies (#[trigger] s[i]).0 == p[i] by {
        assert(s[i].0 == p1[i]);
    }
}

/// A packet send that succeeded performed exactly five port operations, in
/// this order: switch to the break configuration, write one zero byte, pause
/// for the settle time, switch to the data configuration, write the packet.
/// A send that failed performed a prefix of these, every one before the last
/// succeeded, and the last one's failure is what the send returned.
pub proof fn lemma_packet_steps<E>(
    before: Seq<PortStep<E>>,
    after: Seq<PortStep<E>>,
    data: Seq<u8>,
    r: Result<(), E>,
)
    requires
        sent(before, after, packet_actions(data), r),
    ensures
        after.take(before.len() as int) == before,
        r is Ok ==> {
            &&& after.len() == before.len() + 5
            &&& after[before.len() + 0int].0 == PortAction::Configure(break_profile())
            &&& after[before.len() + 1int].0 == PortAction::Write(seq![0u8])
            &&& after[before.len() + 2int].0 == PortAction::Pause(SETTLE_NANOS as nat)
            &&& after[before.len() + 3int].0 == PortAction::Configure(data_profile())
            &&& after[before.len() + 4int].0 == PortAction::Write(data)
        },
        r is Err ==> {
            &&& before.len() < after.len() <= before.len() + 5
            &&& after.last().1 == r
            &&& forall|i: int| before.len() <= i < after.len() - 1 ==> (#[trigger] after[i]).1 is Ok
            &&& forall|i: int|
                before.len() <= i < after.len() ==> (#[trigger] after[i]).0 == packet_actions(
                    data,
                )[i - before.len()]
        },
{
    let b = before.len() as int;
    let s = after.skip(b);
    let p = packet_actions(data);
    assert(p =~= seq![
        PortAction::Configure(break_profile()),
        PortAction::Write(seq![0u8]),
        PortAction::Pause(SETTLE_NANOS as nat),
        PortAction::Configure(data_profile()),
        PortAction::Write(data),
    ]);
    assert forall|i: int| b <= i < after.len() implies (#[trigger] after[i]).0 == p[i - b] by {
        assert(after[i] == s[i - b]);
    }
    assert forall|i: int| b <= i < after.len() - 1 implies (#[trigger] after[i]).1 is Ok by {
        assert(after[i] == s[i - b]);
    }
    if r is Ok {
        assert(s[0].0 == p[0]);
        assert(s[1].0 == p[1]);
        assert(s[2].0 == p[2]);
        assert(s[3].0 == p[3]);
        assert(s[4].0 == p[4]);
    } else {
        assert(after.last() == s.last());
    }
}

/// Sending a packet with the default start code is sending it with start
/// code zero: from any port history, `send_dmx_packet(channels)` may leave
/// exactly the histories and outcomes that
/// `send_dmx_alt_packet(channels, 0x00)` may.
pub proof fn lemma_default_start_code<E>(
    before: Seq<PortStep<E>>,
    after: Seq<PortStep<E>>,
    channels: Seq<u8>,
    r: Result<(), E>,
)
    ensures
        sent(before, after, packet_actions(dmx_frame(channels, NULL_START_CODE)), r) <==> sent(
            before,
            after,
            packet_actions(dmx_frame(channels, 0x00)),
            r,
        ),
{
}

/// A DMX transmitter: a serial port that can switch its line
/// configuration, write bytes and pause, and on top of that sends DMX
/// packets.
///
/// An implementation supplies `configure`, `write_bytes` and `pause`; the
/// packet operations are built on them. `history` is the record of every
/// port operation so far, each with what the port answered.
pub trait DmxTransmitter {
    /// What the port reports when an operation fails.
    type Error;

    /// Every operation performed on the port so far, oldest first, each
    /// with what the port answered. An implementation that is verified
    /// defines it by what it records; the packet operations are proved for
    /// any definition that meets the contracts of `configure`,
    /// `write_bytes` and `pause`.
    open spec fn history(&self) -> Seq<PortStep<Self::Error>> {
        Seq::empty()
    }

    /// Applies `profile` to the line.
    fn configure(&mut self, profile: &SerialProfile) -> (r: Result<(), Self::Error>)
        ensures
            final(self).history() == old(self).history().push(
                (PortAction::Configure(*profile), r),
            ),
    ;

    /// Hands `data` to the port for sending at the current configuration.
    fn write_bytes(&mut self, data: &[u8]) -> (r: Result<(), Self::Error>)
        ensures
            final(self).history() == old(self).history().push((PortAction::Write(data@), r)),
    ;

    /// Blocks for `nanos` nanoseconds.
    fn pause(&mut self, nanos: u32)
        ensures
            final(self).history() == old(self).history().push(
                (PortAction::Pause(nanos as nat), Ok(())),
            ),
    ;

    /// Sends a single break and returns at once: waiting out the
    /// mark-after-break is up to the caller.
    fn send_break(&mut self) -> (r: Result<(), Self::Error>)
        ensures
            sent(old(self).history(), final(self).history(), break_actions(), r),
    {
        let h0 = Ghost(self.history());
        let profile = SerialProfile::dmx_break();
        let rc = self.configure(&profile);
        match rc {
            Ok(()) => {},
            Err(e) => {
                proof {
                    assert(self.history().skip(h0@.len() as int) =~= seq![
                        (PortAction::Configure(profile), Err::<(), Self::Error>(e)),
                    ]);
                    assert(self.history().take(h0@.len() as int) =~= h0@);
                }
                return Err(e);
            },
        }
        let zero = [0u8];
        let r = self.write_bytes(&zero);
        proof {
            assert(zero@ =~= seq![0u8]);
            assert(self.history().skip(h0@.len() as int) =~= seq![
                (PortAction::Configure(profile), rc),
                (PortAction::Write(seq![0u8]), r),
            ]);
            assert(self.history().take(h0@.len() as int) =~= h0@);
        }
        r
    }

    /// Sends `data` unchanged at the DMX data configuration, with no break
    /// before it. Returns once the port has accepted the bytes, which may
    /// be before they are on the wire.
    fn send_raw_data(&mut self, data: &[u8]) -> (r: Result<(), Self::Error>)
        ensures
            sent(old(self).history(), final(self).history(), data_actions(data@), r),
    {
        let h0 = Ghost(self.history());
        let profile = SerialProfile::dmx_data();
        let rc = self.configure(&profile);
        match rc {
            Ok(()) => {},
            Err(e) => {
                proof {
                    assert(self.history().skip(h0@.len() as int) =~= seq![
                        (PortAction::Configure(profile), Err::<(), Self::Error>(e)),
                    ]);
                    assert(self.history().take(h0@.len() as int) =~= h0@);
                }
                return Err(e);
            },
        }
        let r = self.write_bytes(data);
        proof {
            assert(self.history().skip(h0@.len() as int) =~= seq![
                (PortAction::Configure(profile), rc),
                (PortAction::Write(data@), r),
            ]);
            assert(self.history().take(h0@.len() as int) =~= h0@);
        }
        r
    }

    /// Sends a whole packet whose bytes, start code first, are `data`: the
    /// break, a pause for the break and mark-after-break, then `data`. The
    /// first failure of the port ends the send and is returned unchanged.
    fn send_raw_dmx_packet(&mut self, data: &[u8]) -> (r: Result<(), Self::Error>)
        ensures
            sent(old(self).history(), final(self).history(), packet_actions(data@), r),
    {
        let h0 = Ghost(self.history());
        let rb = self.send_break();
        match rb {
            Ok(()) => {},
            Err(e) => {
                proof {
                    lemma_sent_stops(h0@, self.history(), break_actions(), settle_actions(), Err(e));
                    lemma_sent_stops(
                        h0@,
                        self.history(),
                        break_actions() + settle_actions(),
                        data_actions(data@),
                        Err(e),
                    );
                }
                return Err(e);
            },
        }
        let h1 = Ghost(self.history());
        self.pause(SETTLE_NANOS);
        proof {
            let paused = self.history().last().1;
            assert(self.history().skip(h1@.len() as int) =~= seq![
                (PortAction::Pause(SETTLE_NANOS as nat), paused),
            ]);
            assert(self.history().take(h1@.len() as int) =~= h1@);
            lemma_sent_then(
                h0@,
                h1@,
                self.history(),
                break_actions(),
                settle_actions(),
                rb,
                paused,
            );
        }
        let h2 = Ghost(self.history());
        let r = self.send_raw_data(data);
        proof {
            lemma_sent_then(
                h0@,
                h2@,
                self.history(),
                break_actions() + settle_actions(),
                data_actions(data@),
                Ok(()),
                r,
            );
        }
        r
    }

    /// Sends a packet of `channels` with the start code `start`. Channels
    /// beyond the 512th are left out.
    fn send_dmx_alt_packet(&mut self, channels: &[u8], start: u8) -> (r: Result<(), Self::Error>)
        ensures
            sent(
                old(self).history(),
                final(self).history(),
                packet_actions(dmx_frame(channels@, start)),
                r,
            ),
    {
        let frame = build_frame(channels, start);
        self.send_raw_dmx_packet(frame.as_slice())
    }

    /// Sends a packet of `channels` with the ordinary start code, zero.
    /// Channels beyond the 512th are left out.
    fn send_dmx_packet(&mut self, channels: &[u8]) -> (r: Result<(), Self::Error>)
        ensures
            sent(
                old(self).history(),
                final(self).history(),
                packet_actions(dmx_frame(channels@, NULL_START_CODE)),
                r,
            ),
    {
        self.send_dmx_alt_packet(channels, NULL_START_CODE)
    }
}

} // verus!
