//! The compact binary encoding of file chunks, through `rmp_serde`.
//!
//! A chunk leaves as one MessagePack record: the request's token, then the
//! response's tag, offset, bytes and final mark, each group as an array, in
//! that order and without field names.

use crate::codec::EncodeError;
use crate::protocol::{CommandResponse, CommandResponseView, Response, ResponseView};
use vstd::prelude::*;

verus! {

/// `rmp_serde::encode::Error`, carried through as it is.
#[verifier::external_type_specification]
#[verifier::external_body]
pub struct ExPackError(rmp_serde::encode::Error);

/// `rmp_serde::decode::Error`, carried through as it is.
#[verifier::external_type_specification]
#[verifier::external_body]
pub struct ExUnpackError(rmp_serde::decode::Error);

/// The bytes that `rmp_serde::encode::write` writes for the record
/// `(id, (tag, offset, data, is_final))`: the compact form, as
/// `rmp_serde::to_vec` gives it.
pub uninterp spec fn packed_record(
    id: Seq<char>,
    tag: Seq<char>,
    offset: u64,
    data: Seq<u8>,
    is_final: bool,
) -> Seq<u8>;

/// The record `(id, (tag, offset, data, is_final))` that
/// `rmp_serde::from_slice` reads from bytes; `None` for bytes that it
/// rejects.
pub uninterp spec fn unpacked_record(bytes: Seq<u8>) -> Option<
    (Seq<char>, (Seq<char>, u64, Seq<u8>, bool)),
>;

/// `rmp_serde::encode::write` of the record
/// `(id, (tag, offset, data, is_final))` into an empty vector: it succeeds,
/// and the bytes are the ones that `rmp_serde` writes for that record.
/// Writing a record of strings, a number, bytes and a flag fails only where
/// the writer does, and a vector takes every write.
#[verifier::external_body]
fn pack_record(id: &str, tag: &str, offset: u64, data: &[u8], is_final: bool) -> (packed: Result<
    Vec<u8>,
    rmp_serde::encode::Error,
>)
    ensures
        packed is Ok,
        packed matches Ok(bytes) ==> bytes@ == packed_record(id@, tag@, offset, data@, is_final),
{
    let mut bytes = Vec::new();
    rmp_serde::encode::write(&mut bytes, &(id, (tag, offset, data, is_final))).map(|_| bytes)
}

/// `rmp_serde::from_slice` into the record
/// `(id, (tag, offset, data, is_final))`: the record that the bytes hold,
/// and an error exactly for bytes that `rmp_serde` rejects as such a record.
#[verifier::external_body]
fn unpack_record(bytes: &[u8]) -> (unpacked: Result<
    (String, (String, u64, Vec<u8>, bool)),
    rmp_serde::decode::Error,
>)
    ensures
        match unpacked {
            Ok((id, (tag, offset, data, is_final))) => unpacked_record(bytes@) == Some(
                (id@, (tag@, offset, data@, is_final)),
            ),
            Err(_) => unpacked_record(bytes@) is None,
        },
{
    rmp_serde::from_slice::<(String, (String, u64, Vec<u8>, bool))>(bytes)
}

/// Why bytes are no chunk.
#[derive(Debug, Copy, Clone, PartialEq, Eq, Structural)]
pub enum ChunkDecodeError {
    /// The bytes are no record of the chunk's shape.
    NotARecord,
    /// The record's tag is not that of a chunk.
    NotAChunk,
}

/// The chunk that a record stands for, or why it stands for none.
pub open spec fn decoded_chunk(
    record: Option<(Seq<char>, (Seq<char>, u64, Seq<u8>, bool))>,
) -> Result<CommandResponseView, ChunkDecodeError> {
    match record {
        None => Err(ChunkDecodeError::NotARecord),
        Some((id, (tag, offset, data, is_final))) => if tag == "FetchFileChunk"@ {
            Ok(
                CommandResponseView {
                    id,
                    response: ResponseView::FetchFileChunk { offset, data, is_final },
                },
            )
        } else {
            Err(ChunkDecodeError::NotAChunk)
        },
    }
}

/// The view of a chunk decoding result.
pub open spec fn chunk_result_view(result: Result<CommandResponse, ChunkDecodeError>) -> Result<
    CommandResponseView,
    ChunkDecodeError,
> {
    match result {
        Ok(response) => Ok(response@),
        Err(error) => Err(error),
    }
}

/// Encodes one chunk as the bytes of a binary frame. Every chunk has its
/// bytes: the ones that `rmp_serde` writes for the chunk's record.
pub fn encode_chunk(id: &str, offset: u64, data: &[u8], is_final: bool) -> (result: Result<
    Vec<u8>,
    EncodeError,
>)
    ensures
        result matches Ok(bytes) && bytes@ == packed_record(
            id@,
            "FetchFileChunk"@,
            offset,
            data@,
            is_final,
        ),
{
    match pack_record(id, "FetchFileChunk", offset, data, is_final) {
        Ok(bytes) => Ok(bytes),
        Err(_) => Err(EncodeError::MessagePack),
    }
}

/// The view of a record.
pub open spec fn record_view(record: (String, (String, u64, Vec<u8>, bool))) -> (
    Seq<char>,
    (Seq<char>, u64, Seq<u8>, bool),
) {
    (record.0@, (record.1.0@, record.1.1, record.1.2@, record.1.3))
}

/// Reads a chunk from its record: the record's token, offset, bytes and
/// final mark, where its tag is that of a chunk.
pub fn chunk_from_record(record: (String, (String, u64, Vec<u8>, bool))) -> (result: Result<
    CommandResponse,
    ChunkDecodeError,
>)
    ensures
        chunk_result_view(result) == decoded_chunk(Some(record_view(record))),
{
    let (id, (tag, offset, data, is_final)) = record;
    let expected = "FetchFileChunk".to_owned();
    if tag == expected {
        Ok(CommandResponse { id, response: Response::FetchFileChunk { offset, data, is_final } })
    } else {
        Err(ChunkDecodeError::NotAChunk)
    }
}

/// Decodes the bytes of a binary frame into the chunk they hold.
pub fn decode_chunk(bytes: &[u8]) -> (result: Result<CommandResponse, ChunkDecodeError>)
    ensures
        chunk_result_view(result) == decoded_chunk(unpacked_record(bytes@)),
{
    match unpack_record(bytes) {
        Err(_) => Err(ChunkDecodeError::NotARecord),
        Ok(record) => chunk_from_record(record),
    }
}

/// A chunk is read back from its own record: the record that holds a
/// chunk's token, the chunk tag, and the chunk's offset, bytes and final
/// mark decodes to that chunk. The law speaks of records, not of bytes.
pub proof fn lemma_chunk_from_own_record(
    id: Seq<char>,
    offset: u64,
    data: Seq<u8>,
    is_final: bool,
)
    ensures
        decoded_chunk(Some((id, ("FetchFileChunk"@, offset, data, is_final)))) == Ok::<
            CommandResponseView,
            ChunkDecodeError,
        >(
            CommandResponseView {
                id,
                response: ResponseView::FetchFileChunk { offset, data, is_final },
            },
        ),
{
}

} // verus!
