//! Channel interleaver: expands mono samples into interleaved frames.

use vstd::prelude::*;

verus! {

/// The interleaved form of `mono` for `channels` channels: every sample is
/// repeated `channels` times in a row, so frame `f` occupies the positions
/// `f * channels .. (f + 1) * channels` and holds `mono[f]` in each of them.
pub open spec fn interleaved(mono: Seq<u32>, channels: nat) -> Seq<u32> {
    Seq::new(mono.len() * channels, |i: int| mono[i / (channels as int)])
}

/// Position `frame * channels + slot` belongs to frame `frame`.
pub proof fn lemma_frame_of_position(frame: int, slot: int, channels: int)
    requires
        0 <= slot < channels,
    ensures
        (frame * channels + slot) / channels == frame,
{
    vstd::arithmetic::div_mod::lemma_fundamental_div_mod_converse(
        frame * channels + slot,
        channels,
        frame,
        slot,
    );
}

/// Interleaving correctness: the output has one frame of `channels` slots
/// for each input sample, and every slot of a frame carries that frame's
/// mono sample.
pub proof fn lemma_interleaved_slot(mono: Seq<u32>, channels: nat, frame: int, slot: int)
    requires
        0 <= frame < mono.len(),
        0 <= slot < channels,
    ensures
        interleaved(mono, channels).len() == mono.len() * channels,
        0 <= frame * channels + slot < interleaved(mono, channels).len(),
        interleaved(mono, channels)[frame * channels + slot] == mono[frame],
{
    lemma_frame_of_position(frame, slot, channels as int);
    assert(frame * channels + slot < mono.len() * channels) by (nonlinear_arith)
        requires
            0 <= frame < mono.len(),
            0 <= slot < channels,
    ;
    assert(0 <= frame * channels + slot) by (nonlinear_arith)
        requires
            0 <= frame,
            0 <= slot < channels,
    ;
}

/// Expands `input` into interleaved frames of `channels` identical samples.
pub fn interleave(input: &[u32], channels: u16) -> (out: Vec<u32>)
    requires
        input@.len() * channels <= usize::MAX,
    ensures
        out@ == interleaved(input@, channels as nat),
{
    let mut out: Vec<u32> = Vec::new();
    let mut frame: usize = 0;
    while frame < input.len()
        invariant
            frame <= input@.len(),
            out@.len() == frame * channels,
            forall|i: int| 0 <= i < out@.len() ==> out@[i] == input@[i / (channels as int)],
        decreases input@.len() - frame,
    {
        let sample = input[frame];
        let mut slot: u16 = 0;
        while slot < channels
            invariant
                slot <= channels,
                frame < input@.len(),
                sample == input@[frame as int],
                out@.len() == frame * channels + slot,
                forall|i: int| 0 <= i < out@.len() ==> out@[i] == input@[i / (channels as int)],
            decreases channels - slot,
        {
            proof {
                lemma_frame_of_position(frame as int, slot as int, channels as int);
            }
            out.push(sample);
            slot += 1;
        }
        assert((frame + 1) * channels == frame * channels + channels) by (nonlinear_arith);
        frame += 1;
    }
    out
}

} // verus!
