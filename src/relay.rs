use vstd::prelude::*;

verus! {

/// Nominal duration of one forwarded Opus frame, in milliseconds.
pub const FRAME_DURATION_MS: u64 = 20;

/// One audio sample bound for the outbound WebRTC track.
#[derive(Debug, Clone)]
pub struct AudioSample {
    pub data: Vec<u8>,
    pub duration_ms: u64,
}

/// The payload of an RTP packet: the bytes between the header and the end
/// padding, when the two fit inside the packet.
pub open spec fn payload_spec(packet: Seq<u8>, payload_offset: int, payload_end_pad: int) -> Option<Seq<u8>> {
    if payload_offset + payload_end_pad <= packet.len() {
        Some(packet.subrange(payload_offset, packet.len() - payload_end_pad))
    } else {
        None
    }
}

/// Turns inbound voice-channel packets into samples for the outbound track,
/// in the order in which they are delivered.
pub struct DiscordToNextcloudHandler {
    forwarded: u64,
}

impl DiscordToNextcloudHandler {
    /// A handler that has forwarded nothing yet.
    pub fn new() -> (r: DiscordToNextcloudHandler)
        ensures
            r.forwarded_spec() == 0,
    {
        DiscordToNextcloudHandler { forwarded: 0 }
    }

    /// How many samples the handler has produced (saturating).
    pub closed spec fn forwarded_spec(&self) -> u64 {
        self.forwarded
    }

    /// How many samples the handler has produced (saturating).
    pub fn forwarded(&self) -> (r: u64)
        ensures
            r == self.forwarded_spec(),
    {
        self.forwarded
    }

    /// Handles one packet: its payload becomes a sample of
    /// `FRAME_DURATION_MS`. A packet whose header and padding overlap gives
    /// no sample and is passed over.
    pub fn act(&mut self, packet: &[u8], payload_offset: usize, payload_end_pad: usize) -> (r: Option<AudioSample>)
        ensures
            match payload_spec(packet@, payload_offset as int, payload_end_pad as int) {
                Some(p) => r matches Some(s) && s.data@ == p && s.duration_ms == FRAME_DURATION_MS
                    && final(self).forwarded_spec() == if old(self).forwarded_spec() < u64::MAX {
                        (old(self).forwarded_spec() + 1) as u64
                    } else {
                        old(self).forwarded_spec()
                    },
                None => r is None && final(self).forwarded_spec() == old(self).forwarded_spec(),
            },
    {
        if payload_offset > packet.len() || payload_end_pad > packet.len() - payload_offset {
            return None;
        }
        let end = packet.len() - payload_end_pad;
        let mut data: Vec<u8> = Vec::new();
        let mut i: usize = payload_offset;
        while i < end
            invariant
                payload_offset <= i <= end,
                end <= packet@.len(),
                data@ == packet@.subrange(payload_offset as int, i as int),
            decreases end - i,
        {
            data.push(packet[i]);
            i = i + 1;
            proof {
                assert(data@ =~= packet@.subrange(payload_offset as int, i as int));
            }
        }
        if self.forwarded < u64::MAX {
            self.forwarded = self.forwarded + 1;
        }
        Some(AudioSample { data, duration_ms: FRAME_DURATION_MS })
    }
}

} // verus!
