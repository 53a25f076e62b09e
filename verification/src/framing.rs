use vstd::prelude::*;
use vstd::seq_lib::lemma_flatten_concat;
use vstd::slice::{slice_subrange, slice_to_vec};

verus! {

broadcast use Seq::group_seq_flatten;

/// The byte contents of a sequence of message parts.
pub open spec fn parts_view(parts: Seq<Vec<u8>>) -> Seq<Seq<u8>> {
    parts.map_values(|p: Vec<u8>| p@)
}

/// `data` cut into consecutive chunks of `size` bytes; the last chunk holds the
/// remainder and may be shorter; empty data gives no chunk.
pub open spec fn chunks_of(data: Seq<u8>, size: nat) -> Seq<Seq<u8>>
    decreases data.len(),
{
    if data.len() == 0 || size == 0 {
        Seq::empty()
    } else if data.len() <= size {
        seq![data]
    } else {
        seq![data.take(size as int)] + chunks_of(data.skip(size as int), size)
    }
}

/// The parts of the multipart message that carries a frame: the encoded frame
/// information first, then the frame bytes in chunks of `chunk_size`.
pub open spec fn message_parts(header: Seq<u8>, data: Seq<u8>, chunk_size: nat) -> Seq<Seq<u8>> {
    seq![header] + chunks_of(data, chunk_size)
}

/// The frame bytes carried by a multipart message: all parts after the first,
/// concatenated.
pub open spec fn message_payload(parts: Seq<Seq<u8>>) -> Seq<u8> {
    parts.drop_first().flatten()
}

/// Cutting into chunks loses and adds nothing: the chunks concatenate back to the data.
pub proof fn lemma_chunks_concatenate(data: Seq<u8>, size: nat)
    requires
        size > 0,
    ensures
        chunks_of(data, size).flatten() == data,
    decreases data.len(),
{
    if data.len() == 0 {
    } else if data.len() <= size {
        assert(chunks_of(data, size).flatten() == data);
    } else {
        lemma_chunks_concatenate(data.skip(size as int), size);
        lemma_flatten_concat(seq![data.take(size as int)], chunks_of(data.skip(size as int), size));
        assert(data.take(size as int) + data.skip(size as int) =~= data);
    }
}

/// Every chunk is non-empty and at most `size` bytes long; only the last may be
/// shorter than `size`.
pub proof fn lemma_chunk_sizes(data: Seq<u8>, size: nat)
    requires
        size > 0,
    ensures
        forall|k: int|
            0 <= k < chunks_of(data, size).len() ==> 0 < #[trigger] chunks_of(data, size)[k].len() <= size,
        forall|k: int|
            0 <= k < chunks_of(data, size).len() - 1 ==> #[trigger] chunks_of(data, size)[k].len() == size,
    decreases data.len(),
{
    if data.len() == 0 || data.len() <= size {
    } else {
        lemma_chunk_sizes(data.skip(size as int), size);
        let rest = chunks_of(data.skip(size as int), size);
        assert forall|k: int| 0 < k < chunks_of(data, size).len() implies #[trigger] chunks_of(data, size)[k]
            == rest[k - 1] by {}
    }
}

/// Empty data gives no chunk; non-empty data gives at least one.
pub proof fn lemma_chunk_count(data: Seq<u8>, size: nat)
    requires
        size > 0,
    ensures
        (chunks_of(data, size).len() == 0) == (data.len() == 0),
{
}

/// Cuts `data` into chunks of `size` bytes.
pub fn chunk_data(data: &[u8], size: usize) -> (chunks: Vec<Vec<u8>>)
    requires
        size > 0,
    ensures
        parts_view(chunks@) == chunks_of(data@, size as nat),
{
    let len = data.len();
    let mut chunks: Vec<Vec<u8>> = Vec::new();
    let mut start: usize = 0;
    assert(data@.skip(0) =~= data@);
    while start < len
        invariant
            len == data@.len(),
            size > 0,
            start <= len,
            parts_view(chunks@) + chunks_of(data@.skip(start as int), size as nat) == chunks_of(
                data@,
                size as nat,
            ),
        decreases len - start,
    {
        let end: usize = if len - start <= size {
            len
        } else {
            start + size
        };
        let chunk = slice_to_vec(slice_subrange(data, start, end));
        let ghost rest = data@.skip(start as int);
        proof {
            if len - start <= size {
                assert(rest =~= data@.subrange(start as int, end as int));
                assert(data@.skip(end as int).len() == 0);
                assert(chunks_of(rest, size as nat) == seq![rest]);
            } else {
                assert(rest.take(size as int) =~= data@.subrange(start as int, end as int));
                assert(rest.skip(size as int) =~= data@.skip(end as int));
            }
            assert(chunks_of(rest, size as nat) =~= seq![chunk@] + chunks_of(
                data@.skip(end as int),
                size as nat,
            ));
        }
        let ghost before = chunks@;
        chunks.push(chunk);
        proof {
            assert(parts_view(chunks@) =~= parts_view(before).push(chunk@));
            assert(parts_view(chunks@) + chunks_of(data@.skip(end as int), size as nat) =~= parts_view(
                before,
            ) + chunks_of(rest, size as nat));
        }
        start = end;
    }
    assert(chunks_of(data@.skip(len as int), size as nat) =~= Seq::<Seq<u8>>::empty());
    assert(parts_view(chunks@) =~= chunks_of(data@, size as nat));
    chunks
}

/// The multipart message carrying a frame whose information is encoded as `header`:
/// the header, then the frame bytes in chunks of `chunk_size`.
pub fn frame_message(header: Vec<u8>, data: &[u8], chunk_size: u32) -> (parts: Vec<Vec<u8>>)
    requires
        chunk_size > 0,
    ensures
        parts_view(parts@) == message_parts(header@, data@, chunk_size as nat),
{
    let chunks = chunk_data(data, chunk_size as usize);
    let mut parts: Vec<Vec<u8>> = Vec::new();
    let ghost h = header@;
    parts.push(header);
    let mut i: usize = 0;
    while i < chunks.len()
        invariant
            i <= chunks@.len(),
            parts_view(parts@) == seq![h] + parts_view(chunks@).take(i as int),
        decreases chunks@.len() - i,
    {
        let chunk = slice_to_vec(chunks[i].as_slice());
        let ghost before = parts@;
        parts.push(chunk);
        proof {
            assert(parts_view(parts@) =~= parts_view(before).push(chunk@));
            assert(parts_view(chunks@).take(i + 1) =~= parts_view(chunks@).take(i as int).push(
                chunks@[i as int]@,
            ));
        }
        i = i + 1;
    }
    assert(parts_view(chunks@).take(chunks@.len() as int) =~= parts_view(chunks@));
    parts
}

/// The frame bytes of a multipart message: every part after the first, concatenated.
pub fn join_payload(parts: &[Vec<u8>]) -> (data: Vec<u8>)
    requires
        parts@.len() >= 1,
    ensures
        data@ == message_payload(parts_view(parts@)),
{
    let mut data: Vec<u8> = Vec::new();
    let mut i: usize = 1;
    let ghost tail = parts_view(parts@).drop_first();
    while i < parts.len()
        invariant
            1 <= i <= parts@.len(),
            tail == parts_view(parts@).drop_first(),
            data@ == tail.take(i - 1).flatten(),
        decreases parts@.len() - i,
    {
        let ghost before = data@;
        data.extend_from_slice(parts[i].as_slice());
        proof {
            assert(data@ =~= before + parts@[i as int]@);
            assert(tail.take(i as int) =~= tail.take(i - 1).push(parts@[i as int]@));
        }
        i = i + 1;
    }
    assert(tail.take(parts@.len() - 1) =~= tail);
    data
}

/// Framing is undone by joining: the payload of the message that carries `data`
/// is `data`, and its first part is the header.
pub proof fn lemma_framing_roundtrip(header: Seq<u8>, data: Seq<u8>, chunk_size: nat)
    requires
        chunk_size > 0,
    ensures
        message_parts(header, data, chunk_size)[0] == header,
        message_payload(message_parts(header, data, chunk_size)) == data,
        message_parts(header, data, chunk_size).len() >= 2 <==> data.len() > 0,
{
    lemma_chunks_concatenate(data, chunk_size);
    assert(message_parts(header, data, chunk_size).drop_first() =~= chunks_of(data, chunk_size));
}

} // verus!
