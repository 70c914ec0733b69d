//! What a whole exchange sends: the responses that come of a run of storage
//! replies, and the chunks of a file that the storage reads in full windows.

use crate::processor::{
    PendingView, ProcessorErrorView, error_message, lemma_error_message_not_empty, resumed,
    started,
};
use crate::protocol::{CommandRequestView, CommandResponseView, ResponseView};
use crate::storage::StorageReplyView;
use vstd::prelude::*;

verus! {

/// The responses that an exchange sends, in order, when the storage gives
/// `replies` in turn to the work that is pending. Replies that arrive after
/// the exchange has ended lead to nothing.
pub open spec fn exchange_responses(pending: Option<PendingView>, replies: Seq<StorageReplyView>)
    -> Seq<CommandResponseView>
    decreases replies.len(),
{
    match pending {
        None => Seq::empty(),
        Some(work) => if replies.len() == 0 {
            Seq::empty()
        } else {
            let step = resumed(work, replies[0]);
            let rest = exchange_responses(step.pending, replies.drop_first());
            match step.response {
                Some(response) => seq![response] + rest,
                None => rest,
            }
        },
    }
}

/// The number of chunks of a file of `file_size` bytes that is read in
/// windows of `chunk_size` bytes.
pub open spec fn chunk_count(file_size: nat, chunk_size: nat) -> nat {
    if chunk_size == 0 {
        0
    } else {
        ((file_size + chunk_size - 1) / (chunk_size as int)) as nat
    }
}

/// Where the window `k` of a file ends: a whole window further, or at the
/// end of the file.
pub open spec fn window_end(file_size: nat, chunk_size: nat, k: int) -> int {
    if (k + 1) * chunk_size <= file_size {
        (k + 1) * chunk_size
    } else {
        file_size as int
    }
}

/// The bytes of the window `k` of a file.
pub open spec fn window(content: Seq<u8>, chunk_size: nat, k: int) -> Seq<u8> {
    content.subrange(k * chunk_size, window_end(content.len(), chunk_size, k))
}

/// The replies of a storage that reads every window in full, from the
/// window `from` to the last.
pub open spec fn full_reads(content: Seq<u8>, chunk_size: nat, from: int) -> Seq<
    StorageReplyView,
> {
    Seq::new(
        (chunk_count(content.len(), chunk_size) - from) as nat,
        |i: int| StorageReplyView::Chunk(Ok(window(content, chunk_size, from + i))),
    )
}

/// The chunk that carries the window `k`: it starts at `k` whole windows,
/// and it is final exactly where `k` is the last window.
pub open spec fn window_chunk(id: Seq<char>, content: Seq<u8>, chunk_size: nat, k: int)
    -> CommandResponseView {
    CommandResponseView {
        id,
        response: ResponseView::FetchFileChunk {
            offset: (k * chunk_size) as u64,
            data: window(content, chunk_size, k),
            is_final: k == chunk_count(content.len(), chunk_size) - 1,
        },
    }
}

/// The chunks of the windows from `from` to the last.
pub open spec fn window_chunks(id: Seq<char>, content: Seq<u8>, chunk_size: nat, from: int)
    -> Seq<CommandResponseView> {
    Seq::new(
        (chunk_count(content.len(), chunk_size) - from) as nat,
        |i: int| window_chunk(id, content, chunk_size, from + i),
    )
}

/// The number of file bytes that a run of responses carries.
pub open spec fn data_total(responses: Seq<CommandResponseView>) -> nat
    decreases responses.len(),
{
    if responses.len() == 0 {
        0
    } else {
        data_total(responses.drop_last()) + match responses.last().response {
            ResponseView::FetchFileChunk { data, .. } => data.len(),
            _ => 0,
        }
    }
}

/// Window `k` starts inside the file exactly where `k` is less than the
/// number of chunks.
pub proof fn lemma_chunk_count(file_size: nat, chunk_size: nat, k: int)
    requires
        chunk_size > 0,
        k >= 0,
    ensures
        k < chunk_count(file_size, chunk_size) <==> k * chunk_size < file_size,
{
    let count = chunk_count(file_size, chunk_size) as int;
    let total = file_size + chunk_size - 1;
    let size = chunk_size as int;
    vstd::arithmetic::div_mod::lemma_fundamental_div_mod(total, size);
    vstd::arithmetic::div_mod::lemma_mod_bound(total, size);
    assert(total == size * count + total % size);
    if k < count {
        assert(k * size <= (count - 1) * size) by (nonlinear_arith)
            requires
                k <= count - 1,
                size > 0,
        ;
        assert((count - 1) * size == size * count - size) by (nonlinear_arith);
    } else {
        assert(k * size >= count * size) by (nonlinear_arith)
            requires
                k >= count,
                size > 0,
        ;
        assert(count * size == size * count) by (nonlinear_arith);
    }
}

/// Streaming from the start of window `from`, with every window read in
/// full, sends the chunks of the windows from `from` to the last.
proof fn lemma_stream_from(id: Seq<char>, content: Seq<u8>, chunk_size: u64, from: int)
    requires
        chunk_size > 0,
        0 < content.len() <= u64::MAX,
        0 <= from < chunk_count(content.len(), chunk_size as nat),
    ensures
        from * chunk_size < content.len(),
        exchange_responses(
            Some(
                PendingView::Streaming {
                    id,
                    chunk_size,
                    file_size: content.len() as u64,
                    offset: (from * chunk_size) as u64,
                },
            ),
            full_reads(content, chunk_size as nat, from),
        ) == window_chunks(id, content, chunk_size as nat, from),
    decreases chunk_count(content.len(), chunk_size as nat) - from,
{
    let size = chunk_size as nat;
    let count = chunk_count(content.len(), size) as int;
    let replies = full_reads(content, size, from);
    let work = PendingView::Streaming {
        id,
        chunk_size,
        file_size: content.len() as u64,
        offset: (from * chunk_size) as u64,
    };
    lemma_chunk_count(content.len(), size, from);
    lemma_chunk_count(content.len(), size, from + 1);
    assert((from + 1) * size == from * size + size) by (nonlinear_arith);
    assert(from * size >= 0) by (nonlinear_arith)
        requires
            from >= 0,
    ;
    let data = window(content, size, from);
    assert(replies[0] == StorageReplyView::Chunk(Ok(data)));
    assert(data.len() == window_end(content.len(), size, from) - from * size);
    let step = resumed(work, replies[0]);
    let chunk = window_chunk(id, content, size, from);
    let rest = exchange_responses(step.pending, replies.drop_first());
    assert(from * chunk_size == from * size);
    assert((from + 1) * chunk_size == (from + 1) * size);
    assert(step.response == Some(chunk));
    assert(exchange_responses(Some(work), replies) == seq![chunk] + rest);
    if from + 1 < count {
        assert(step.pending == Some(
            PendingView::Streaming {
                id,
                chunk_size,
                file_size: content.len() as u64,
                offset: ((from + 1) * chunk_size) as u64,
            },
        ));
        lemma_stream_from(id, content, chunk_size, from + 1);
        assert(replies.drop_first() =~= full_reads(content, size, from + 1));
        assert(seq![chunk] + window_chunks(id, content, size, from + 1) =~= window_chunks(
            id,
            content,
            size,
            from,
        ));
    } else {
        assert(step.pending is None);
        assert(rest =~= Seq::<CommandResponseView>::empty());
        assert(window_chunks(id, content, size, from) =~= seq![chunk]);
        assert(seq![chunk] + rest =~= seq![chunk]);
    }
}

/// The first `upto` chunks of a file carry its first `upto` windows: as
/// many bytes as the windows hold, and never more than the file has.
proof fn lemma_data_total(id: Seq<char>, content: Seq<u8>, chunk_size: nat, upto: int)
    requires
        chunk_size > 0,
        0 <= upto <= chunk_count(content.len(), chunk_size),
    ensures
        data_total(window_chunks(id, content, chunk_size, 0).take(upto)) == if upto * chunk_size
            <= content.len() {
            upto * chunk_size
        } else {
            content.len() as int
        },
    decreases upto,
{
    let chunks = window_chunks(id, content, chunk_size, 0);
    if upto == 0 {
        assert(chunks.take(0) =~= Seq::<CommandResponseView>::empty());
        assert(0 * chunk_size == 0) by (nonlinear_arith);
    } else {
        lemma_data_total(id, content, chunk_size, upto - 1);
        lemma_chunk_count(content.len(), chunk_size, upto - 1);
        assert(chunks.take(upto).drop_last() =~= chunks.take(upto - 1));
        assert(chunks.take(upto).last() == window_chunk(id, content, chunk_size, upto - 1));
        assert((upto - 1 + 1) * chunk_size == (upto - 1) * chunk_size + chunk_size)
            by (nonlinear_arith);
        assert((upto - 1) * chunk_size >= 0) by (nonlinear_arith)
            requires
                upto >= 1,
        ;
        let data = window(content, chunk_size, upto - 1);
        assert(data.len() == window_end(content.len(), chunk_size, upto - 1) - (upto - 1)
            * chunk_size);
    }
}

/// The one chunk that answers the fetch of a file without bytes: empty,
/// at offset zero, and final.
pub open spec fn empty_file_chunk(id: Seq<char>) -> CommandResponseView {
    CommandResponseView {
        id,
        response: ResponseView::FetchFileChunk { offset: 0, data: Seq::empty(), is_final: true },
    }
}

/// Whether a response is the final chunk of a file.
pub open spec fn is_final_chunk(response: CommandResponseView) -> bool {
    response.response matches ResponseView::FetchFileChunk { is_final, .. } && is_final
}

/// A file that the storage reads in full windows leaves in order and
/// whole, and its exchange always ends on a final chunk. The exchange that
/// waits for the file of `content` to be opened sends one chunk for each
/// window of `chunk_size` bytes: chunk `k` starts at offset
/// `k * chunk_size` and carries the bytes of window `k`; the last chunk,
/// and no other, is final; and the chunks together carry as many bytes as
/// the file has. A file without bytes is answered with one chunk that is
/// empty and final.
pub proof fn lemma_fetch_sends_file_in_order(
    id: Seq<char>,
    path: Seq<char>,
    content: Seq<u8>,
    chunk_size: u64,
)
    requires
        chunk_size > 0,
        content.len() <= u64::MAX,
    ensures
        ({
            let sent = exchange_responses(
                Some(PendingView::Opening { id, path, chunk_size }),
                seq![StorageReplyView::Opened(Ok(content.len() as u64))] + full_reads(
                    content,
                    chunk_size as nat,
                    0,
                ),
            );
            &&& content.len() == 0 ==> sent == seq![empty_file_chunk(id)]
            &&& content.len() > 0 ==> sent.len() == chunk_count(content.len(), chunk_size as nat)
            &&& content.len() > 0 ==> forall|k: int|
                0 <= k < sent.len() ==> k * chunk_size < content.len() && #[trigger] sent[k]
                    == (CommandResponseView {
                    id,
                    response: ResponseView::FetchFileChunk {
                        offset: (k * chunk_size) as u64,
                        data: window(content, chunk_size as nat, k),
                        is_final: k == sent.len() - 1,
                    },
                })
            &&& sent.len() > 0
            &&& is_final_chunk(sent.last())
            &&& data_total(sent) == content.len()
        }),
{
    let size = chunk_size as nat;
    let count = chunk_count(content.len(), size) as int;
    let opening = PendingView::Opening { id, path, chunk_size };
    let opened = StorageReplyView::Opened(Ok(content.len() as u64));
    let replies = seq![opened] + full_reads(content, size, 0);
    let sent = exchange_responses(Some(opening), replies);
    let chunks = window_chunks(id, content, size, 0);
    assert(replies[0] == opened);
    assert(replies.drop_first() =~= full_reads(content, size, 0));
    lemma_chunk_count(content.len(), size, 0);
    assert(0 * size == 0) by (nonlinear_arith);
    let first = resumed(opening, opened);
    let rest = exchange_responses(first.pending, replies.drop_first());
    if content.len() == 0 {
        assert(first.response == Some(empty_file_chunk(id)));
        assert(first.pending is None);
        assert(rest =~= Seq::<CommandResponseView>::empty());
        assert(sent == seq![empty_file_chunk(id)] + rest);
        assert(sent =~= seq![empty_file_chunk(id)]);
        assert(sent.drop_last() =~= Seq::<CommandResponseView>::empty());
        assert(data_total(sent.drop_last()) == 0);
        assert(data_total(sent) == 0);
    } else {
        assert(first.response is None);
        assert(sent == rest);
        lemma_stream_from(id, content, chunk_size, 0);
        assert(0 * chunk_size == 0);
        assert(first.pending == Some(
            PendingView::Streaming {
                id,
                chunk_size,
                file_size: content.len() as u64,
                offset: (0 * chunk_size) as u64,
            },
        ));
        assert(sent == chunks);
        assert(count > 0);
        assert forall|k: int| 0 <= k < sent.len() implies k * chunk_size < content.len()
            && #[trigger] sent[k] == window_chunk(id, content, size, k) by {
            lemma_chunk_count(content.len(), size, k);
        }
        assert(sent.last() == window_chunk(id, content, size, count - 1));
        lemma_data_total(id, content, size, count);
        lemma_chunk_count(content.len(), size, count);
        assert(chunks.take(count) =~= chunks);
    }
}

/// Whether a response reports an error.
pub open spec fn is_error(response: CommandResponseView) -> bool {
    response.response is Error
}

/// Whether a response says something: every response but an error does,
/// and an error does where its message is not empty.
pub open spec fn has_message(response: CommandResponseView) -> bool {
    response.response matches ResponseView::Error { message } ==> message.len() > 0
}

/// No exchange ends in silence: a step that leaves nothing pending carries
/// a response, at the start of a request as after every reply of the
/// storage. So every request has an outcome.
pub proof fn lemma_every_end_is_answered(
    root: Seq<char>,
    request: CommandRequestView,
    pending: PendingView,
    reply: StorageReplyView,
)
    ensures
        !(request.command is GetInfo) && started(root, request).pending is None ==> started(
            root,
            request,
        ).response is Some,
        resumed(pending, reply).pending is None ==> resumed(pending, reply).response is Some,
{
}

/// Every response of an exchange echoes the token of its request, an error
/// is the last thing an exchange sends, and no error comes without a
/// message: whatever the storage replies, each response carries the token
/// of the pending work, no response follows one that reports an error, and
/// the message of every error is not empty.
pub proof fn lemma_exchange_echoes_token(pending: PendingView, replies: Seq<StorageReplyView>)
    ensures
        ({
            let sent = exchange_responses(Some(pending), replies);
            &&& forall|k: int| 0 <= k < sent.len() ==> (#[trigger] sent[k]).id == pending.id()
            &&& forall|k: int| 0 <= k < sent.len() && is_error(#[trigger] sent[k]) ==> k == sent.len() - 1
            &&& forall|k: int| 0 <= k < sent.len() ==> has_message(#[trigger] sent[k])
        }),
    decreases replies.len(),
{
    let sent = exchange_responses(Some(pending), replies);
    if replies.len() > 0 {
        let step = resumed(pending, replies[0]);
        let rest = exchange_responses(step.pending, replies.drop_first());
        match step.pending {
            Some(next) => {
                lemma_exchange_echoes_token(next, replies.drop_first());
                assert(next.id() == pending.id());
            },
            None => {
                assert(rest =~= Seq::<CommandResponseView>::empty());
            },
        }
        match step.response {
            Some(response) => {
                assert(response.id == pending.id());
                assert(is_error(response) ==> step.pending is None);
                assert(has_message(response)) by {
                    assert forall|error: ProcessorErrorView|
                        (#[trigger] error_message(error)).len() > 0 by {
                        lemma_error_message_not_empty(error);
                    }
                }
                assert(sent == seq![response] + rest);
                assert forall|k: int| 0 <= k < sent.len() implies (#[trigger] sent[k]).id
                    == pending.id() by {
                    if k > 0 {
                        assert(sent[k] == rest[k - 1]);
                    }
                }
                assert forall|k: int| 0 <= k < sent.len() && is_error(
                    #[trigger] sent[k],
                ) implies k == sent.len() - 1 by {
                    if k > 0 {
                        assert(sent[k] == rest[k - 1]);
                    }
                }
                assert forall|k: int| 0 <= k < sent.len() implies has_message(
                    #[trigger] sent[k],
                ) by {
                    if k > 0 {
                        assert(sent[k] == rest[k - 1]);
                    }
                }
            },
            None => {
                assert(sent == rest);
            },
        }
    }
}

} // verus!
