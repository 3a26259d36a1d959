//! What streaming synthesis hands back.
use vstd::prelude::*;

verus! {

/// A chunk of synthesised speech (PCM16, little-endian).
#[derive(Debug)]
pub struct TtsAudioChunk {
    pub pcm: Vec<u8>,
    /// Whether this is the last chunk of its turn.
    pub is_final: bool,
    /// The turn that the chunk belongs to; empty where the provider does not tell turns apart.
    pub context_id: String,
}

/// A [`TtsAudioChunk`] as a value.
pub struct ChunkView {
    pub pcm: Seq<u8>,
    pub is_final: bool,
    pub context_id: Seq<char>,
}

impl View for TtsAudioChunk {
    type V = ChunkView;

    open spec fn view(&self) -> ChunkView {
        ChunkView { pcm: self.pcm@, is_final: self.is_final, context_id: self.context_id@ }
    }
}

/// A chunk of audio within a turn.
pub open spec fn audio_chunk(pcm: Seq<u8>, context_id: Seq<char>) -> ChunkView {
    ChunkView { pcm, is_final: false, context_id }
}

/// The chunk that ends a turn.
pub open spec fn final_chunk(context_id: Seq<char>) -> ChunkView {
    ChunkView { pcm: Seq::empty(), is_final: true, context_id }
}

/// Chunks as values.
pub open spec fn chunk_views(chunks: Seq<TtsAudioChunk>) -> Seq<ChunkView> {
    chunks.map_values(|c: TtsAudioChunk| c@)
}

/// The chunk that ends a turn.
pub(crate) fn end_of(context_id: String) -> (c: TtsAudioChunk)
    ensures
        c@ == final_chunk(context_id@),
{
    TtsAudioChunk { pcm: Vec::new(), is_final: true, context_id }
}

/// Audio as a provider sent it, and the rate it is at.
#[derive(Debug)]
pub struct NativeAudio {
    pub pcm: Vec<u8>,
    pub sample_rate: u32,
}

/// Audio as a value: its bytes and rate.
pub open spec fn audio_view(a: Option<NativeAudio>) -> Option<(Seq<u8>, u32)> {
    match a {
        Some(x) => Some((x.pcm@, x.sample_rate)),
        None => None,
    }
}

/// The audio of a response that is raw PCM at `sample_rate`; none where it is empty.
pub open spec fn raw_audio(raw: Seq<u8>, sample_rate: u32) -> Option<(Seq<u8>, u32)> {
    if raw.len() == 0 {
        None
    } else {
        Some((raw, sample_rate))
    }
}

/// The audio of a response that is raw PCM at `sample_rate`.
pub(crate) fn take_raw(raw: Vec<u8>, sample_rate: u32) -> (a: Option<NativeAudio>)
    ensures
        audio_view(a) == raw_audio(raw@, sample_rate),
{
    if raw.len() == 0 {
        None
    } else {
        Some(NativeAudio { pcm: raw, sample_rate })
    }
}

/// Raw audio is handed on as it came, unless there is none of it.
pub proof fn law_raw_audio_is_kept(raw: Seq<u8>, rate: u32)
    ensures
        raw_audio(raw, rate) is None <==> raw.len() == 0,
        raw_audio(raw, rate) matches Some(a) ==> a.0 == raw && a.1 == rate,
{
}

/// Of the chunks of a turn only the one that ends it is final, and that one holds no audio.
pub proof fn law_chunks_of_a_turn(pcm: Seq<u8>, turn: Seq<char>)
    ensures
        !audio_chunk(pcm, turn).is_final,
        audio_chunk(pcm, turn).pcm == pcm,
        audio_chunk(pcm, turn).context_id == turn,
        final_chunk(turn).is_final,
        final_chunk(turn).pcm.len() == 0,
        final_chunk(turn).context_id == turn,
{
}

} // verus!
