//! The streaming mp3 decoder: a forward-only, non-restartable
//! sequence of PCM samples over a frame source that can never be
//! rewound.
//!
//! Frame decoding itself is minimp3's work and stays behind trusted
//! wrappers; the library owns and verifies the state machine around
//! it: opening on the first frame, walking the current frame sample
//! by sample, pulling the next frame when one is exhausted, and
//! ending the sequence — never failing — once the source yields no
//! further frame. A scripted source makes the same machine run on
//! known frames, where its contracts pin the produced samples down
//! exactly.

use vstd::prelude::*;

use crate::error::RadioError;

verus! {

/// A frame-decoding mp3 reader of the minimp3 crate; opaque here.
#[verifier::external_type_specification]
#[verifier::external_body]
#[verifier::reject_recursive_types(R)]
pub struct ExDecoder<R>(minimp3::Decoder<R>);

/// A streaming HTTP response body of the reqwest crate; opaque here.
#[verifier::external_type_specification]
#[verifier::external_body]
pub struct ExResponse(reqwest::blocking::Response);

/// One decoded audio frame: its interleaved samples and the channel
/// count and sample rate its header declares.
#[derive(Debug)]
pub struct FrameData {
    pub samples: Vec<i16>,
    pub channels: u16,
    pub sample_rate: u32,
}

/// Copy a sample buffer exactly.
fn copy_samples(samples: &Vec<i16>) -> (copy: Vec<i16>)
    ensures
        copy@ == samples@,
{
    let mut copy: Vec<i16> = Vec::new();
    let mut i: usize = 0;
    while i < samples.len()
        invariant
            i <= samples@.len(),
            copy@ == samples@.take(i as int),
        decreases samples@.len() - i,
    {
        copy.push(samples[i]);
        assert(samples@.take(i + 1 as int) =~= samples@.take(i as int).push(samples@[i as int]));
        i = i + 1;
    }
    assert(copy@ =~= samples@);
    copy
}

impl Clone for FrameData {
    /// A clone carries the same samples and declared values.
    fn clone(&self) -> (cloned: FrameData)
        ensures
            cloned.samples@ == self.samples@,
            cloned.channels == self.channels,
            cloned.sample_rate == self.sample_rate,
    {
        FrameData {
            samples: copy_samples(&self.samples),
            channels: self.channels,
            sample_rate: self.sample_rate,
        }
    }
}

/// Relies on `minimp3::Decoder::new`: it only wraps the reader and
/// allocates decoding buffers; no bytes are consumed yet.
#[verifier::external_body]
fn mp3_decoder_of_response(response: reqwest::blocking::Response) -> minimp3::Decoder<
    reqwest::blocking::Response,
> {
    minimp3::Decoder::new(response)
}

/// Relies on `minimp3::Decoder::next_frame`: it reads bytes from the
/// wrapped response until one frame decodes, returning its samples
/// and declared values, or an error once no further frame can be
/// had. What comes back depends on the network, so nothing is
/// promised of the result; every caller handles every outcome.
#[verifier::external_body]
fn decode_next_network_frame(
    decoder: &mut minimp3::Decoder<reqwest::blocking::Response>,
) -> Option<FrameData> {
    match decoder.next_frame() {
        Ok(frame) => Some(
            FrameData {
                samples: frame.data,
                channels: frame.channels as u16,
                sample_rate: frame.sample_rate as u32,
            },
        ),
        Err(_) => None,
    }
}

/// A sequential source of decoded frames; forward-only, no seeking.
///
/// The network variant pulls frames out of an HTTP byte stream
/// through minimp3. The scripted variant serves a known frame list
/// and exists so that the decoder's behaviour is stated — and
/// testable — against synthetic sources.
pub enum FrameSource {
    Scripted { frames: Vec<FrameData>, next_index: usize },
    Network { decoder: minimp3::Decoder<reqwest::blocking::Response> },
}

impl FrameSource {
    /// The frames a scripted source has not yet produced.
    pub open spec fn spec_scripted_remaining(&self) -> Seq<FrameData> {
        match *self {
            FrameSource::Scripted { frames, next_index } => if next_index <= frames@.len() {
                frames@.skip(next_index as int)
            } else {
                Seq::empty()
            },
            FrameSource::Network { .. } => Seq::empty(),
        }
    }

    /// A scripted source over the given frames, none produced yet.
    pub fn scripted(frames: Vec<FrameData>) -> (source: FrameSource)
        ensures
            source is Scripted,
            source.spec_scripted_remaining() == frames@,
    {
        let source = FrameSource::Scripted { frames, next_index: 0 };
        assert(source.spec_scripted_remaining() =~= frames@);
        source
    }

    /// A source decoding frames out of a streaming HTTP response.
    pub fn from_response(response: reqwest::blocking::Response) -> (source: FrameSource)
        ensures
            source is Network,
    {
        FrameSource::Network { decoder: mp3_decoder_of_response(response) }
    }

    /// Produce the next frame, or nothing once the source is done.
    /// A scripted source serves its frames in order; what a network
    /// source produces is up to the bytes that arrive.
    pub fn next_frame(&mut self) -> (frame: Option<FrameData>)
        ensures
            (*old(self)) is Scripted ==> ({
                let rem = old(self).spec_scripted_remaining();
                &&& (*final(self)) is Scripted
                &&& (rem.len() == 0 ==> frame is None && final(self).spec_scripted_remaining()
                    == rem)
                &&& (rem.len() > 0 ==> {
                    &&& frame matches Some(produced)
                    &&& produced.samples@ == rem[0].samples@
                    &&& produced.channels == rem[0].channels
                    &&& produced.sample_rate == rem[0].sample_rate
                    &&& final(self).spec_scripted_remaining() == rem.drop_first()
                })
            }),
            (*old(self)) is Network ==> (*final(self)) is Network,
    {
        let frame = match self {
            FrameSource::Scripted { frames, next_index } => {
                if *next_index < frames.len() {
                    let produced = frames[*next_index].clone();
                    *next_index = *next_index + 1;
                    Some(produced)
                } else {
                    None
                }
            },
            FrameSource::Network { decoder } => decode_next_network_frame(decoder),
        };
        proof {
            if (*old(self)) is Scripted && old(self).spec_scripted_remaining().len() > 0 {
                assert(self.spec_scripted_remaining() =~= old(
                    self,
                ).spec_scripted_remaining().drop_first());
            }
        }
        frame
    }
}

/// All the samples a list of frames carries, in order.
pub open spec fn spec_samples_of_frames(frames: Seq<FrameData>) -> Seq<i16> {
    frames.map_values(|frame: FrameData| frame.samples@).flatten()
}

/// Whether every frame of a list carries at least one sample, as any
/// frame a real decode produces does.
pub open spec fn spec_all_frames_nonempty(frames: Seq<FrameData>) -> bool {
    forall|i: int| 0 <= i < frames.len() ==> #[trigger] frames[i].samples@.len() > 0
}

/// The sample list of a non-empty frame list starts with the first
/// frame's samples.
pub proof fn lemma_samples_of_frames_unfold(frames: Seq<FrameData>)
    requires
        frames.len() > 0,
    ensures
        spec_samples_of_frames(frames) == frames[0].samples@ + spec_samples_of_frames(
            frames.drop_first(),
        ),
{
    let mapped = frames.map_values(|frame: FrameData| frame.samples@);
    assert(mapped.drop_first() =~= frames.drop_first().map_values(
        |frame: FrameData| frame.samples@,
    ));
    assert(mapped.first() == frames[0].samples@);
}

/// A source whose frames all carry samples yields a non-empty sample
/// sequence as soon as it has any frame at all.
pub proof fn lemma_samples_of_frames_nonempty(frames: Seq<FrameData>)
    requires
        frames.len() > 0,
        spec_all_frames_nonempty(frames),
    ensures
        spec_samples_of_frames(frames).len() > 0,
{
    lemma_samples_of_frames_unfold(frames);
}

/// The sequential mp3 sample decoder: the current frame, how far it
/// has been served, and the source the next frames come from.
pub struct Mp3StreamDecoder {
    source: FrameSource,
    current_samples: Vec<i16>,
    current_channels: u16,
    current_sample_rate: u32,
    current_frame_offset: usize,
}

impl Mp3StreamDecoder {
    /// The serving position never passes the current frame's end.
    pub closed spec fn wf(&self) -> bool {
        self.current_frame_offset <= self.current_samples@.len()
    }

    /// Whether this decoder runs on a scripted source.
    pub closed spec fn is_scripted(&self) -> bool {
        self.source is Scripted
    }

    /// The channel count declared by the current frame.
    pub closed spec fn spec_channels(&self) -> u16 {
        self.current_channels
    }

    /// The sample rate declared by the current frame.
    pub closed spec fn spec_sample_rate(&self) -> u32 {
        self.current_sample_rate
    }

    /// The sample count of the current frame.
    pub closed spec fn spec_current_frame_len(&self) -> nat {
        self.current_samples@.len()
    }

    /// The frames the source has not yet produced.
    pub closed spec fn spec_pending_frames(&self) -> Seq<FrameData> {
        self.source.spec_scripted_remaining()
    }

    /// Every sample a scripted decoder has yet to produce: the rest
    /// of the current frame, then all the pending frames' samples.
    pub closed spec fn spec_remaining_samples(&self) -> Seq<i16> {
        self.current_samples@.skip(self.current_frame_offset as int) + spec_samples_of_frames(
            self.spec_pending_frames(),
        )
    }

    /// Open a decoder by reading the source's first frame, learning
    /// the declared channel count and sample rate from it. A source
    /// with no valid first frame fails the open, and the source is
    /// not consumed further.
    pub fn new(source: FrameSource) -> (decoder: Result<Mp3StreamDecoder, RadioError>)
        ensures
            decoder matches Err(error) ==> error is DecodeError,
            source is Scripted ==> ({
                let frames = source.spec_scripted_remaining();
                &&& (frames.len() == 0 ==> decoder is Err)
                &&& (frames.len() > 0 ==> {
                    &&& decoder matches Ok(opened)
                    &&& opened.wf()
                    &&& opened.is_scripted()
                    &&& opened.spec_channels() == frames[0].channels
                    &&& opened.spec_sample_rate() == frames[0].sample_rate
                    &&& opened.spec_current_frame_len() == frames[0].samples@.len()
                    &&& opened.spec_remaining_samples() == spec_samples_of_frames(frames)
                })
            }),
            source is Network ==> (decoder matches Ok(opened) ==> opened.wf()
                && !opened.is_scripted()),
    {
        let mut source = source;
        let ghost frames = source.spec_scripted_remaining();
        match source.next_frame() {
            Some(first) => {
                let opened = Mp3StreamDecoder {
                    source,
                    current_samples: first.samples,
                    current_channels: first.channels,
                    current_sample_rate: first.sample_rate,
                    current_frame_offset: 0,
                };
                proof {
                    if opened.is_scripted() {
                        lemma_samples_of_frames_unfold(frames);
                        assert(opened.spec_remaining_samples() =~= spec_samples_of_frames(frames));
                    }
                }
                Ok(opened)
            },
            None => Err(RadioError::DecodeError),
        }
    }

    /// The next PCM sample: the current frame's next value, or the
    /// first value of a freshly pulled frame once the current one is
    /// exhausted. Once the source yields no further valid frame the
    /// sequence ends — no error is raised at this layer.
    ///
    /// On a scripted source whose frames all carry samples, the
    /// produced value is exactly the head of the remaining sample
    /// sequence, which shrinks by one; the sequence ends exactly when
    /// nothing remains.
    pub fn next(&mut self) -> (sample: Option<i16>)
        requires
            old(self).wf(),
        ensures
            final(self).wf(),
            final(self).is_scripted() == old(self).is_scripted(),
            old(self).is_scripted() ==> ({
                let rem = old(self).spec_remaining_samples();
                &&& (rem.len() == 0 ==> sample is None && final(self).spec_remaining_samples().len()
                    == 0)
                &&& (rem.len() > 0 && spec_all_frames_nonempty(old(self).spec_pending_frames())
                    ==> sample == Some(rem[0]) && final(self).spec_remaining_samples()
                    == rem.drop_first())
            }),
    {
        let ghost rem = old(self).spec_remaining_samples();
        let ghost pending = old(self).spec_pending_frames();
        if self.current_frame_offset == self.current_samples.len() {
            proof {
                assert(self.current_samples@.skip(self.current_frame_offset as int)
                    =~= Seq::<i16>::empty());
                assert(rem =~= spec_samples_of_frames(pending));
            }
            match self.source.next_frame() {
                Some(frame) => {
                    proof {
                        if pending.len() > 0 {
                            lemma_samples_of_frames_unfold(pending);
                        }
                    }
                    self.current_samples = frame.samples;
                    self.current_channels = frame.channels;
                    self.current_sample_rate = frame.sample_rate;
                    self.current_frame_offset = 0;
                },
                None => {
                    proof {
                        if old(self).is_scripted() {
                            assert(self.spec_remaining_samples().len() == 0);
                        }
                    }
                    return None;
                },
            }
        }
        if self.current_frame_offset < self.current_samples.len() {
            let sample = self.current_samples[self.current_frame_offset];
            self.current_frame_offset = self.current_frame_offset + 1;
            proof {
                if old(self).is_scripted() && rem.len() > 0 {
                    assert(self.spec_remaining_samples() =~= rem.drop_first());
                }
            }
            Some(sample)
        } else {
            proof {
                if old(self).is_scripted() && rem.len() == 0 {
                    assert(self.spec_remaining_samples().len() == 0);
                }
            }
            None
        }
    }

    /// The channel count declared by the current frame's header.
    pub fn channels(&self) -> (channels: u16)
        ensures
            channels == self.spec_channels(),
    {
        self.current_channels
    }

    /// The sample rate declared by the current frame's header.
    pub fn sample_rate(&self) -> (sample_rate: u32)
        ensures
            sample_rate == self.spec_sample_rate(),
    {
        self.current_sample_rate
    }

    /// How many samples the current frame carries; always known.
    pub fn current_frame_len(&self) -> (len: Option<usize>)
        ensures
            len matches Some(n) && n == self.spec_current_frame_len(),
    {
        Some(self.current_samples.len())
    }

    /// Give the source back, dropping the decoding state.
    pub fn into_inner(self) -> (source: FrameSource)
        ensures
            source.spec_scripted_remaining() == self.spec_pending_frames(),
            (source is Scripted) == self.is_scripted(),
    {
        self.source
    }
}

/// The byte-level validity probe of a source: it deliberately checks
/// nothing and always succeeds. The decoder trusts that the source
/// begins at a valid frame boundary and never scans for frame
/// synchronization first; an invalid stream surfaces when its first
/// frame fails to decode.
pub fn is_mp3(_data: &[u8]) -> (valid: bool)
    ensures
        valid,
{
    true
}

} // verus!
