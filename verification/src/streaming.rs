//! Re-emission of a finished reply as a paced sequence of words.
//!
//! This only imitates token streaming: the reply is complete before the first word is
//! handed out, and the provider is not asked again. The words are those of the reply, in
//! their order, and each one is to be held back for a fixed delay before it is sent.

use crate::text::{split_whitespace, split_words};
use vstd::prelude::*;

verus! {

/// Milliseconds for which each word is held back before it is sent.
pub const CHUNK_DELAY_MS: u64 = 50;

/// One word of a reply, with the delay that precedes its emission.
#[derive(Debug, PartialEq, Eq)]
pub struct StreamChunk {
    pub delay_ms: u64,
    pub text: String,
}

/// The words of a reply that are still to be emitted. A stream is read once, front to
/// back; a stream that has run dry stays dry.
#[derive(Debug, PartialEq, Eq)]
pub struct ChunkStream {
    chunks: Vec<String>,
    position: usize,
}

/// The texts of `chunks`, in order.
pub open spec fn chunk_texts(chunks: Seq<StreamChunk>) -> Seq<Seq<char>> {
    chunks.map_values(|chunk: StreamChunk| chunk.text@)
}

impl ChunkStream {
    #[verifier::type_invariant]
    spec fn position_in_range(self) -> bool {
        self.position <= self.chunks.len()
    }

    /// The words handed out so far, oldest first.
    pub closed spec fn emitted(&self) -> Seq<Seq<char>> {
        self.chunks.deep_view().take(self.position as int)
    }

    /// The words still to come, next first.
    pub closed spec fn remaining(&self) -> Seq<Seq<char>> {
        self.chunks.deep_view().skip(self.position as int)
    }

    /// The stream of the words of `response`.
    pub fn new(response: &str) -> (stream: ChunkStream)
        ensures
            stream.emitted() == Seq::<Seq<char>>::empty(),
            stream.remaining() == split_words(response@),
    {
        let chunks = split_whitespace(response);
        assert(chunks.deep_view().skip(0) =~= chunks.deep_view());
        assert(chunks.deep_view().take(0) =~= Seq::<Seq<char>>::empty());
        ChunkStream { chunks, position: 0 }
    }

    /// Whether every word has been handed out.
    pub fn is_finished(&self) -> (finished: bool)
        ensures
            finished == (self.remaining().len() == 0),
    {
        proof {
            use_type_invariant(self);
        }
        self.position >= self.chunks.len()
    }

    /// Hands out the next word with its delay, or nothing once the stream has run dry.
    pub fn next_chunk(&mut self) -> (chunk: Option<StreamChunk>)
        ensures
            match chunk {
                Some(c) => {
                    &&& old(self).remaining().len() > 0
                    &&& c.text@ == old(self).remaining()[0]
                    &&& c.delay_ms == CHUNK_DELAY_MS
                    &&& final(self).remaining() == old(self).remaining().drop_first()
                    &&& final(self).emitted() == old(self).emitted().push(c.text@)
                },
                None => {
                    &&& old(self).remaining().len() == 0
                    &&& final(self).remaining() == old(self).remaining()
                    &&& final(self).emitted() == old(self).emitted()
                },
            },
    {
        proof {
            use_type_invariant(&*self);
        }
        if self.position >= self.chunks.len() {
            return None;
        }
        let ghost all = self.chunks.deep_view();
        let ghost at = self.position as int;
        let text = self.chunks[self.position].clone();
        self.position = self.position + 1;
        assert(all.skip(at + 1) =~= all.skip(at).drop_first());
        assert(all.take(at + 1) =~= all.take(at).push(all[at]));
        Some(StreamChunk { delay_ms: CHUNK_DELAY_MS, text })
    }

    /// Hands out every word that is still to come, each with its delay, and leaves the
    /// stream dry.
    pub fn drain(&mut self) -> (chunks: Vec<StreamChunk>)
        ensures
            chunk_texts(chunks@) == old(self).remaining(),
            forall|i: int| 0 <= i < chunks.len() ==> (#[trigger] chunks[i]).delay_ms == CHUNK_DELAY_MS,
            final(self).remaining().len() == 0,
            final(self).emitted() == old(self).emitted() + old(self).remaining(),
    {
        let mut chunks: Vec<StreamChunk> = Vec::new();
        let ghost start_remaining = self.remaining();
        let ghost start_emitted = self.emitted();
        assert(chunk_texts(chunks@) + self.remaining() =~= start_remaining);
        assert(self.emitted() =~= start_emitted + chunk_texts(chunks@));
        loop
            invariant
                chunk_texts(chunks@) + self.remaining() == start_remaining,
                self.emitted() == start_emitted + chunk_texts(chunks@),
                forall|i: int| 0 <= i < chunks.len() ==> (#[trigger] chunks[i]).delay_ms == CHUNK_DELAY_MS,
            ensures
                self.remaining().len() == 0,
                chunk_texts(chunks@) == start_remaining,
                self.emitted() == start_emitted + start_remaining,
                forall|i: int| 0 <= i < chunks.len() ==> (#[trigger] chunks[i]).delay_ms == CHUNK_DELAY_MS,
            decreases self.remaining().len(),
        {
            let ghost before_remaining = self.remaining();
            let ghost before_texts = chunk_texts(chunks@);
            match self.next_chunk() {
                Some(chunk) => {
                    let ghost text = chunk.text@;
                    chunks.push(chunk);
                    assert(chunk_texts(chunks@) =~= before_texts.push(text));
                    assert(before_texts.push(text) + before_remaining.drop_first()
                        =~= before_texts + before_remaining);
                    assert(start_emitted + before_texts.push(text) =~= (start_emitted
                        + before_texts).push(text));
                },
                None => {
                    assert(chunk_texts(chunks@) + self.remaining() =~= chunk_texts(chunks@));
                    break;
                },
            }
        }
        chunks
    }
}

} // verus!
