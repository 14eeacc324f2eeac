//! The frame extractor's decisions: where to seek, which packets to feed, and
//! when to give up on a file that never yields a frame.
//!
//! The codec itself stays with the caller. Each state below is a moment at
//! which the caller has just done one thing with the container or decoder;
//! the state's method takes what came of it and says what to do next.

use vstd::prelude::*;
use crate::error::Error;
use crate::DECODE_RETRY_CEILING;

verus! {

/// Where in a file the representative frame is looked for.
#[derive(Clone, Copy, Debug, PartialEq, Eq, Structural)]
pub enum SeekPolicy {
    /// Halfway through.
    Midpoint,
    /// A fixed offset from the start, in the container's time units.
    Offset(u32),
}

/// The timestamp to seek to in a file of the given duration. A duration that
/// is unknown or not positive gives the start.
pub open spec fn seek_point(policy: SeekPolicy, duration: int) -> int {
    if duration <= 0 {
        0
    } else {
        match policy {
            SeekPolicy::Midpoint => duration / 2,
            SeekPolicy::Offset(at) => if at <= duration {
                at as int
            } else {
                duration
            },
        }
    }
}

/// Computes the timestamp to seek to before decoding.
pub fn seek_target(policy: SeekPolicy, duration: i64) -> (at: i64)
    ensures
        at == seek_point(policy, duration as int),
        0 <= at,
        duration > 0 ==> at <= duration,
{
    if duration <= 0 {
        0
    } else {
        match policy {
            SeekPolicy::Midpoint => duration / 2,
            SeekPolicy::Offset(offset) => {
                let offset: i64 = offset as i64;
                if offset <= duration {
                    offset
                } else {
                    duration
                }
            },
        }
    }
}

/// Insists on a video stream: a container without one is not a supported
/// media file.
pub fn require_stream(best: Option<usize>) -> (index: Result<usize, Error>)
    ensures
        match best {
            Some(i) => index == Ok::<usize, Error>(i),
            None => index matches Err(Error::UnsupportedMediaType(why)) && why@ == "Media has no streams"@,
        },
{
    match best {
        Some(i) => Ok(i),
        None => Err(Error::UnsupportedMediaType(String::from_str("Media has no streams"))),
    }
}

/// Reading the container, looking for the first packet of the chosen stream.
pub struct Seeking {
    stream: usize,
}

/// A packet of the chosen stream is at hand and the decoder has just been
/// asked for a frame.
pub struct Polling {
    fed: u32,
}

/// The decoder had no frame and has just been handed the packet.
pub struct Feeding {
    fed: u32,
}

/// What to do after a packet was read.
pub enum AfterPacket {
    /// The packet belongs to another stream: read the next one.
    Skip(Seeking),
    /// The packet is of the chosen stream: ask the decoder for a frame.
    Poll(Polling),
    /// The container ended before the chosen stream showed up.
    GiveUp(Error),
}

/// What to do after the decoder was asked for a frame.
pub enum AfterPoll {
    /// The frame is complete.
    Done,
    /// No frame yet: hand the packet to the decoder.
    Feed(Feeding),
}

/// What to do after the packet was handed to the decoder.
pub enum AfterFeed {
    /// Ask the decoder for a frame again.
    Poll(Polling),
    /// The decoder refused the packet, or the retry ceiling is exceeded.
    GiveUp(Error),
}

impl Seeking {
    /// The index of the stream whose packets are wanted.
    pub closed spec fn stream(&self) -> usize {
        self.stream
    }

    /// Starts the search for a frame of the stream with index `stream`.
    pub fn start(stream: usize) -> (state: Seeking)
        ensures
            state.stream() == stream,
    {
        Seeking { stream }
    }

    /// Takes the stream index of the packet that was read, or `None` at the
    /// end of the container.
    pub fn on_packet(self, packet_stream: Option<usize>) -> (next: AfterPacket)
        ensures
            match packet_stream {
                None => next matches AfterPacket::GiveUp(Error::UnsupportedMediaType(why)) && why@
                    == "couldn't decode a frame"@,
                Some(i) => if i == self.stream() {
                    next matches AfterPacket::Poll(p) && p.fed() == 0
                } else {
                    next matches AfterPacket::Skip(s) && s.stream() == self.stream()
                },
            },
    {
        match packet_stream {
            None => AfterPacket::GiveUp(
                Error::UnsupportedMediaType(String::from_str("couldn't decode a frame")),
            ),
            Some(i) => if i == self.stream {
                AfterPacket::Poll(Polling { fed: 0 })
            } else {
                AfterPacket::Skip(self)
            },
        }
    }
}

impl Polling {
    /// How often the packet has been handed to the decoder so far.
    pub closed spec fn fed(&self) -> u32 {
        self.fed
    }

    /// Takes whether the decoder delivered a frame.
    pub fn on_poll(self, got_frame: bool) -> (next: AfterPoll)
        ensures
            match next {
                AfterPoll::Done => got_frame,
                AfterPoll::Feed(f) => !got_frame && f.fed() == self.fed(),
            },
    {
        if got_frame {
            AfterPoll::Done
        } else {
            AfterPoll::Feed(Feeding { fed: self.fed })
        }
    }
}

impl Feeding {
    /// How often the packet had been handed to the decoder before this time.
    pub closed spec fn fed(&self) -> u32 {
        self.fed
    }

    /// Takes what the decoder said to the packet: nothing, or its complaint.
    /// A complaint ends the extraction as an internal failure; so does, as an
    /// unsupported file, a packet count above the ceiling.
    pub fn on_fed(self, accepted: Result<(), String>) -> (next: AfterFeed)
        ensures
            match accepted {
                Err(complaint) => next matches AfterFeed::GiveUp(Error::Internal(why)) && why@ == complaint@,
                Ok(_) => if self.fed() > DECODE_RETRY_CEILING {
                    next matches AfterFeed::GiveUp(Error::UnsupportedMediaType(why)) && why@
                        == "Couldn't decode a thumbnail frame"@
                } else {
                    next matches AfterFeed::Poll(p) && p.fed() == self.fed() + 1
                },
            },
    {
        match accepted {
            Err(complaint) => AfterFeed::GiveUp(Error::Internal(complaint)),
            Ok(_) => if self.fed > DECODE_RETRY_CEILING {
                AfterFeed::GiveUp(
                    Error::UnsupportedMediaType(String::from_str("Couldn't decode a thumbnail frame")),
                )
            } else {
                AfterFeed::Poll(Polling { fed: self.fed + 1 })
            },
        }
    }
}

/// What the decoder does in one round of polling and feeding.
pub enum Round {
    /// The poll delivers a frame.
    Frame,
    /// The poll delivers nothing, and the packet is accepted.
    Accepts,
    /// The poll delivers nothing, and the packet is refused.
    Refuses,
}

/// How an extraction ends.
pub enum Ending {
    /// With a frame.
    Frame,
    /// With the decoder's refusal of a packet.
    Refused,
    /// With the retry ceiling exceeded.
    Exhausted,
}

/// How polling and feeding end for a decoder that behaves as `rounds` say,
/// from a state in which the packet was fed `fed` times; `None` where they
/// are still going on after the last round.
pub open spec fn ending(fed: nat, rounds: Seq<Round>) -> Option<Ending>
    decreases rounds.len(),
{
    if rounds.len() == 0 {
        None
    } else {
        match rounds.first() {
            Round::Frame => Some(Ending::Frame),
            Round::Refuses => Some(Ending::Refused),
            Round::Accepts => if fed > DECODE_RETRY_CEILING {
                Some(Ending::Exhausted)
            } else {
                ending(fed + 1, rounds.drop_first())
            },
        }
    }
}

/// Drives polling and feeding, from the first packet of the chosen stream
/// on, against a decoder that behaves as `rounds` say, and reports how the
/// extraction ends.
pub fn rehearse(rounds: &Vec<Round>) -> (end: Option<Ending>)
    ensures
        end == ending(0, rounds@),
{
    let mut state = Polling { fed: 0 };
    let mut i: usize = 0;
    assert(rounds@.skip(0) =~= rounds@);
    while i < rounds.len()
        invariant
            i <= rounds.len(),
            ending(0, rounds@) == ending(state.fed() as nat, rounds@.skip(i as int)),
        decreases rounds.len() - i,
    {
        assert(rounds@.skip(i as int).first() == rounds@[i as int]);
        assert(rounds@.skip(i as int).drop_first() =~= rounds@.skip(i + 1));
        let got_frame = match &rounds[i] {
            Round::Frame => true,
            _ => false,
        };
        match state.on_poll(got_frame) {
            AfterPoll::Done => {
                return Some(Ending::Frame);
            },
            AfterPoll::Feed(feeding) => {
                let answer = match &rounds[i] {
                    Round::Refuses => Err(String::new()),
                    _ => Ok(()),
                };
                match feeding.on_fed(answer) {
                    AfterFeed::Poll(next) => {
                        state = next;
                    },
                    AfterFeed::GiveUp(Error::Internal(_)) => {
                        return Some(Ending::Refused);
                    },
                    AfterFeed::GiveUp(_) => {
                        return Some(Ending::Exhausted);
                    },
                }
            },
        }
        i += 1;
    }
    None
}

/// Whatever the decoder does, an extraction is over after two rounds more
/// than the retry ceiling: no file keeps the loop going for ever.
pub proof fn extraction_is_bounded(fed: nat, rounds: Seq<Round>)
    requires
        fed + rounds.len() >= DECODE_RETRY_CEILING + 2,
        rounds.len() > 0,
    ensures
        ending(fed, rounds) is Some,
    decreases rounds.len(),
{
    if rounds.first() is Accepts && fed <= DECODE_RETRY_CEILING {
        extraction_is_bounded(fed + 1, rounds.drop_first());
    }
}

} // verus!
