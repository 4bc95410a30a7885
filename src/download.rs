use vstd::prelude::*;
use crate::error::LastkajenError;

verus! {

/// The bytes of a sequence of chunks, one after another in their order.
pub open spec fn concat_chunks(chunks: Seq<Seq<u8>>) -> Seq<u8>
    decreases chunks.len(),
{
    if chunks.len() == 0 {
        Seq::empty()
    } else {
        concat_chunks(chunks.drop_last()) + chunks.last()
    }
}

/// The contents of each chunk.
pub open spec fn chunk_views(chunks: Seq<Vec<u8>>) -> Seq<Seq<u8>> {
    chunks.map_values(|c: Vec<u8>| c@)
}

/// What reading the next part of a response body gave.
#[derive(Debug)]
pub enum ChunkEvent {
    /// A further chunk of bytes.
    Chunk(Vec<u8>),
    /// The body is complete.
    End,
    /// Reading the body failed.
    Failed(reqwest::Error),
}

/// What the copy of a response body to a sink does next.
#[derive(Debug)]
pub enum CopyAction {
    /// Write these bytes to the sink, then read on.
    Write(Vec<u8>),
    /// The whole body has been written.
    Finish,
    /// Stop the copy with this error.
    Abort(LastkajenError),
}

/// Decides the next step of copying a response body to a sink: each chunk is
/// written as it came, the end finishes the copy, and a read failure stops it
/// at once.
pub fn next_copy_action(event: ChunkEvent) -> (r: CopyAction)
    ensures
        match event {
            ChunkEvent::Chunk(bytes) => r == CopyAction::Write(bytes),
            ChunkEvent::End => r == CopyAction::Finish,
            ChunkEvent::Failed(e) => r == CopyAction::Abort(LastkajenError::ReqwestError(e)),
        },
{
    match event {
        ChunkEvent::Chunk(bytes) => CopyAction::Write(bytes),
        ChunkEvent::End => CopyAction::Finish,
        ChunkEvent::Failed(e) => CopyAction::Abort(LastkajenError::ReqwestError(e)),
    }
}

/// Appends a chunk to the bytes received so far.
pub fn append_chunk(sink: &mut Vec<u8>, chunk: &[u8])
    ensures
        final(sink)@ == old(sink)@ + chunk@,
{
    let ghost start = sink@;
    let mut i: usize = 0;
    while i < chunk.len()
        invariant
            i <= chunk@.len(),
            sink@ == start + chunk@.take(i as int),
        decreases chunk@.len() - i,
    {
        sink.push(chunk[i]);
        i = i + 1;
        assert(chunk@.take(i as int) =~= chunk@.take(i - 1) + seq![chunk@[i - 1]]);
    }
    assert(chunk@.take(i as int) =~= chunk@);
}

/// The bytes that a sink holds after every chunk of a body has been written to
/// it in order: their concatenation, with nothing lost, repeated or reordered.
pub fn collect_chunks(chunks: &Vec<Vec<u8>>) -> (r: Vec<u8>)
    ensures
        r@ == concat_chunks(chunk_views(chunks@)),
{
    let mut out: Vec<u8> = Vec::new();
    let mut i: usize = 0;
    while i < chunks.len()
        invariant
            i <= chunks@.len(),
            out@ == concat_chunks(chunk_views(chunks@).take(i as int)),
        decreases chunks@.len() - i,
    {
        append_chunk(&mut out, chunks[i].as_slice());
        i = i + 1;
        assert(chunk_views(chunks@).take(i as int).drop_last() =~= chunk_views(chunks@).take(
            i - 1,
        ));
    }
    assert(chunk_views(chunks@).take(i as int) =~= chunk_views(chunks@));
    out
}

/// Writing chunks in order gives the same bytes however the body was split:
/// the chunks of a first part followed by those of a second give the bytes of
/// the first part followed by those of the second.
pub proof fn lemma_concat_chunks_split(a: Seq<Seq<u8>>, b: Seq<Seq<u8>>)
    ensures
        concat_chunks(a + b) == concat_chunks(a) + concat_chunks(b),
    decreases b.len(),
{
    if b.len() == 0 {
        assert(a + b =~= a);
        assert(concat_chunks(a) + concat_chunks(b) =~= concat_chunks(a));
    } else {
        assert((a + b).drop_last() =~= a + b.drop_last());
        lemma_concat_chunks_split(a, b.drop_last());
        assert(concat_chunks(a + b) =~= concat_chunks(a) + concat_chunks(b));
    }
}

} // verus!
