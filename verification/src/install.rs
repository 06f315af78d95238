//! The image-transfer-into-transaction pipeline.
//!
//! [`install_image`] opens an update transaction, appends the delivered
//! chunks to it under the read-loop policy — an empty chunk or the end of
//! the delivered sequence ends the stream, and once a declared content
//! length is reached no further chunk is read — and then commits exactly
//! when the byte count passes the completeness gate, aborting otherwise.
//!
//! The spec functions here replay that loop over a mathematical sequence of
//! chunks, so the contracts can pin down the final byte total, the staged
//! image, and whether the loop ran off the end of the delivered chunks.

use vstd::prelude::*;

use crate::errors::UpdateError;
use crate::storage::StorageBank;
use crate::transfer::DownloadProgress;

verus! {

/// The views of a vector of chunks, as a sequence of byte sequences.
pub open spec fn chunk_views(chunks: Seq<Vec<u8>>) -> Seq<Seq<u8>> {
    chunks.map_values(|c: Vec<u8>| c@)
}

/// True once `total` bytes satisfy a declared content length, so that the
/// read loop stops before reading another chunk.
pub open spec fn reached_declared(declared: Option<u64>, total: int) -> bool {
    declared matches Some(l) && total >= l
}

/// The byte total after the read loop runs over `chunks` starting from
/// `total` bytes already counted.
pub open spec fn run_total(chunks: Seq<Seq<u8>>, declared: Option<u64>, total: int) -> int
    decreases chunks.len(),
{
    if reached_declared(declared, total) || chunks.len() == 0 || chunks[0].len() == 0 {
        total
    } else {
        run_total(chunks.skip(1), declared, total + chunks[0].len())
    }
}

/// The staged bytes after the read loop runs over `chunks`, starting from
/// `total` bytes counted and `image` already staged.
pub open spec fn run_image(
    chunks: Seq<Seq<u8>>,
    declared: Option<u64>,
    total: int,
    image: Seq<u8>,
) -> Seq<u8>
    decreases chunks.len(),
{
    if reached_declared(declared, total) || chunks.len() == 0 || chunks[0].len() == 0 {
        image
    } else {
        run_image(chunks.skip(1), declared, total + chunks[0].len(), image + chunks[0])
    }
}

/// Whether the read loop attempts to read past the delivered chunks: it
/// consumes them all without stopping at a declared length or at an empty
/// chunk, so the outcome of the next read — a clean end of stream or a
/// transport error — matters.
pub open spec fn run_hits_end(chunks: Seq<Seq<u8>>, declared: Option<u64>, total: int) -> bool
    decreases chunks.len(),
{
    if reached_declared(declared, total) {
        false
    } else if chunks.len() == 0 {
        true
    } else if chunks[0].len() == 0 {
        false
    } else {
        run_hits_end(chunks.skip(1), declared, total + chunks[0].len())
    }
}

/// The final byte count of one transfer attempt over `chunks`.
pub open spec fn streamed_total(chunks: Seq<Seq<u8>>, declared: Option<u64>) -> int {
    run_total(chunks, declared, 0)
}

/// The bytes staged by one transfer attempt over `chunks`.
pub open spec fn streamed_image(chunks: Seq<Seq<u8>>, declared: Option<u64>) -> Seq<u8> {
    run_image(chunks, declared, 0, Seq::empty())
}

/// Whether one transfer attempt over `chunks` reads past the delivered
/// chunks.
pub open spec fn stream_hits_end(chunks: Seq<Seq<u8>>, declared: Option<u64>) -> bool {
    run_hits_end(chunks, declared, 0)
}

/// Whether the transfer attempt ends in a transport error: it reads past
/// the delivered chunks and the stream does not end cleanly there.
pub open spec fn stream_failed(
    chunks: Seq<Seq<u8>>,
    declared: Option<u64>,
    clean_end: bool,
) -> bool {
    stream_hits_end(chunks, declared) && !clean_end
}

/// The completeness gate over the final byte count: with a declared length,
/// exact equality; without one, any non-empty transfer.
pub open spec fn transfer_verified(chunks: Seq<Seq<u8>>, declared: Option<u64>) -> bool {
    match declared {
        Some(l) => streamed_total(chunks, declared) == l,
        None => streamed_total(chunks, declared) > 0,
    }
}

/// The read loop never forgets bytes: its final total is at least its
/// starting total.
pub proof fn lemma_run_total_lower_bound(chunks: Seq<Seq<u8>>, declared: Option<u64>, total: int)
    ensures
        run_total(chunks, declared, total) >= total,
    decreases chunks.len(),
{
    if !(reached_declared(declared, total) || chunks.len() == 0 || chunks[0].len() == 0) {
        lemma_run_total_lower_bound(chunks.skip(1), declared, total + chunks[0].len());
    }
}

/// The sum of the chunk sizes of `chunks`.
pub open spec fn chunk_sizes_sum(chunks: Seq<Seq<u8>>) -> int
    decreases chunks.len(),
{
    if chunks.len() == 0 {
        0
    } else {
        chunks[0].len() + chunk_sizes_sum(chunks.skip(1))
    }
}

/// True when no chunk of `chunks` is empty, so none of them signals an end
/// of stream.
pub open spec fn all_chunks_nonempty(chunks: Seq<Seq<u8>>) -> bool {
    forall|i: int| 0 <= i < chunks.len() ==> chunks[i].len() > 0
}

/// The concatenation of all of `chunks`.
pub open spec fn chunks_concat(chunks: Seq<Seq<u8>>) -> Seq<u8>
    decreases chunks.len(),
{
    if chunks.len() == 0 {
        Seq::empty()
    } else {
        chunks[0] + chunks_concat(chunks.skip(1))
    }
}

/// A sum of chunk sizes is never negative.
pub proof fn lemma_chunk_sizes_sum_nonneg(chunks: Seq<Seq<u8>>)
    ensures
        chunk_sizes_sum(chunks) >= 0,
    decreases chunks.len(),
{
    if chunks.len() > 0 {
        lemma_chunk_sizes_sum_nonneg(chunks.skip(1));
    }
}

/// Splitting one chunk off the front of a prefix splits its size sum.
proof fn lemma_sum_take_shift(chunks: Seq<Seq<u8>>, k: int)
    requires
        0 <= k,
        k + 1 <= chunks.len(),
    ensures
        chunk_sizes_sum(chunks.take(k + 1)) == chunks[0].len() + chunk_sizes_sum(
            chunks.skip(1).take(k),
        ),
{
    let t = chunks.take(k + 1);
    assert(t[0] == chunks[0]);
    assert(t.skip(1) =~= chunks.skip(1).take(k));
}

proof fn lemma_run_exact(chunks: Seq<Seq<u8>>, l: u64, total: int, image: Seq<u8>)
    requires
        all_chunks_nonempty(chunks),
        total + chunk_sizes_sum(chunks) == l,
    ensures
        run_total(chunks, Some(l), total) == l,
        run_image(chunks, Some(l), total, image) == image + chunks_concat(chunks),
        !run_hits_end(chunks, Some(l), total),
    decreases chunks.len(),
{
    lemma_chunk_sizes_sum_nonneg(chunks);
    if chunks.len() == 0 {
        assert(image + chunks_concat(chunks) =~= image);
    } else {
        lemma_chunk_sizes_sum_nonneg(chunks.skip(1));
        assert(chunks[0].len() > 0);
        if reached_declared(Some(l), total) {
            assert(total >= l);
            assert(chunk_sizes_sum(chunks) >= chunks[0].len());
            assert(false);
        } else {
            assert(all_chunks_nonempty(chunks.skip(1))) by {
                assert(forall|i: int|
                    0 <= i < chunks.skip(1).len() ==> chunks.skip(1)[i] == chunks[i + 1]);
            }
            lemma_run_exact(chunks.skip(1), l, total + chunks[0].len(), image + chunks[0]);
            assert((image + chunks[0]) + chunks_concat(chunks.skip(1)) =~= image + chunks_concat(
                chunks,
            ));
        }
    }
}

/// Commit gate, accepting half: a stream of non-empty chunks whose sizes
/// sum exactly to the declared length is consumed in full, passes the
/// completeness gate, stages exactly the concatenation of the chunks, and
/// never reads past the delivered chunks.
pub proof fn lemma_commit_gate_exact(chunks: Seq<Seq<u8>>, l: u64)
    requires
        all_chunks_nonempty(chunks),
        chunk_sizes_sum(chunks) == l,
    ensures
        streamed_total(chunks, Some(l)) == l,
        transfer_verified(chunks, Some(l)),
        streamed_image(chunks, Some(l)) == chunks_concat(chunks),
        !stream_hits_end(chunks, Some(l)),
{
    lemma_run_exact(chunks, l, 0, Seq::empty());
    assert(Seq::empty() + chunks_concat(chunks) =~= chunks_concat(chunks));
}

proof fn lemma_run_prefix(chunks: Seq<Seq<u8>>, declared: Option<u64>, total: int)
    ensures
        exists|k: int|
            0 <= k <= chunks.len() && run_total(chunks, declared, total) == total + chunk_sizes_sum(
                chunks.take(k),
            ),
    decreases chunks.len(),
{
    if reached_declared(declared, total) || chunks.len() == 0 || chunks[0].len() == 0 {
        assert(chunks.take(0) =~= Seq::empty());
        assert(run_total(chunks, declared, total) == total + chunk_sizes_sum(chunks.take(0)));
    } else {
        lemma_run_prefix(chunks.skip(1), declared, total + chunks[0].len());
        let k = choose|k: int|
            0 <= k <= chunks.skip(1).len() && run_total(chunks.skip(1), declared, total + chunks[0].len())
                == total + chunks[0].len() + chunk_sizes_sum(chunks.skip(1).take(k));
        lemma_sum_take_shift(chunks, k);
        assert(run_total(chunks, declared, total) == total + chunk_sizes_sum(chunks.take(k + 1)));
    }
}

/// The final byte count of a transfer attempt is always the size sum of
/// some prefix of the delivered chunks.
pub proof fn lemma_streamed_total_is_prefix_sum(chunks: Seq<Seq<u8>>, declared: Option<u64>)
    ensures
        exists|k: int|
            0 <= k <= chunks.len() && streamed_total(chunks, declared) == chunk_sizes_sum(
                chunks.take(k),
            ),
{
    lemma_run_prefix(chunks, declared, 0);
}

/// Commit gate, aborting half: when no prefix of the delivered chunks — the
/// whole sequence included — has sizes summing to the declared length, the
/// final byte count cannot equal it either, so the transfer fails the
/// completeness gate and the transaction is aborted.
pub proof fn lemma_commit_gate_mismatch(chunks: Seq<Seq<u8>>, l: u64)
    requires
        forall|k: int| 0 <= k <= chunks.len() ==> chunk_sizes_sum(chunks.take(k)) != l,
    ensures
        streamed_total(chunks, Some(l)) != l,
        !transfer_verified(chunks, Some(l)),
{
    lemma_streamed_total_is_prefix_sum(chunks, Some(l));
}

/// Streams `chunks` into a fresh update transaction over the inactive slot
/// and commits exactly when the byte count passes the completeness gate.
///
/// `chunks` are the successive successful reads of the image stream;
/// `clean_end` tells whether, had the loop read past them, the stream would
/// have ended cleanly rather than with a transport error. The active image
/// changes only on a commit, and then to exactly the staged bytes.
pub fn install_image(
    bank: &mut StorageBank,
    declared_content_length: Option<u64>,
    chunks: &Vec<Vec<u8>>,
    clean_end: bool,
) -> (r: Result<(), UpdateError>)
    requires
        streamed_total(chunk_views(chunks@), declared_content_length) <= u64::MAX,
    ensures
        old(bank).transaction_open() ==> (r matches Err(e)
            && e == UpdateError::TransactionUnavailable
            && *final(bank) == *old(bank)),
        !old(bank).transaction_open() ==> !final(bank).transaction_open(),
        !old(bank).transaction_open() && stream_failed(
            chunk_views(chunks@),
            declared_content_length,
            clean_end,
        ) ==> (r matches Err(e)
            && e == UpdateError::TransferIO
            && final(bank).active() == old(bank).active()),
        !old(bank).transaction_open() && !stream_failed(
            chunk_views(chunks@),
            declared_content_length,
            clean_end,
        ) && transfer_verified(chunk_views(chunks@), declared_content_length) ==> (r is Ok
            && final(bank).active() == streamed_image(
            chunk_views(chunks@),
            declared_content_length,
        )),
        !old(bank).transaction_open() && !stream_failed(
            chunk_views(chunks@),
            declared_content_length,
            clean_end,
        ) && !transfer_verified(chunk_views(chunks@), declared_content_length) ==> (r matches Err(e)
            && e == UpdateError::VerificationFailed
            && final(bank).active() == old(bank).active()),
{
    let ghost cs: Seq<Seq<u8>> = chunk_views(chunks@);
    let ghost d: Option<u64> = declared_content_length;
    let ghost active0: Seq<u8> = bank.active();

    match bank.open_transaction() {
        Err(e) => {
            return Err(e);
        },
        Ok(()) => {},
    }

    let mut progress = DownloadProgress::new(declared_content_length);
    let mut i: usize = 0;
    let mut failed = false;
    proof {
        assert(cs.skip(0) =~= cs);
    }

    loop
        invariant_except_break
            !failed,
        invariant
            bank.transaction_open(),
            bank.active() == active0,
            progress.declared_content_length == d,
            0 <= i <= chunks@.len(),
            cs == chunk_views(chunks@),
            d == declared_content_length,
            run_total(cs, d, 0) == run_total(cs.skip(i as int), d, progress.bytes_read_total as int),
            run_image(cs, d, 0, Seq::empty()) == run_image(
                cs.skip(i as int),
                d,
                progress.bytes_read_total as int,
                bank.staged(),
            ),
            run_hits_end(cs, d, 0) == run_hits_end(
                cs.skip(i as int),
                d,
                progress.bytes_read_total as int,
            ),
            run_total(cs, d, 0) <= u64::MAX,
        ensures
            bank.transaction_open(),
            bank.active() == active0,
            progress.declared_content_length == d,
            progress.bytes_read_total == streamed_total(cs, d),
            bank.staged() == streamed_image(cs, d),
            failed == stream_failed(cs, d, clean_end),
        decreases chunks@.len() - i,
    {
        let ghost total: int = progress.bytes_read_total as int;
        if progress.should_stop_reading() {
            proof {
                assert(run_total(cs.skip(i as int), d, total) == total);
                assert(run_image(cs.skip(i as int), d, total, bank.staged()) == bank.staged());
                assert(!run_hits_end(cs.skip(i as int), d, total));
            }
            break;
        }
        if i == chunks.len() {
            proof {
                assert(cs.skip(i as int).len() == 0);
            }
            if !clean_end {
                failed = true;
            }
            break;
        }
        let chunk: &Vec<u8> = &chunks[i];
        proof {
            assert(cs.skip(i as int)[0] == cs[i as int]);
            assert(cs[i as int] == chunk@);
        }
        if chunk.len() == 0 {
            break;
        }
        bank.write_chunk(chunk.as_slice());
        proof {
            assert(cs.skip(i as int).skip(1) =~= cs.skip(i as int + 1));
            lemma_run_total_lower_bound(cs.skip(i as int + 1), d, total + chunk@.len());
        }
        let ok = progress.record_chunk(chunk.len() as u64);
        assert(ok);
        i = i + 1;
    }

    if failed {
        bank.abort();
        return Err(UpdateError::TransferIO);
    }
    if progress.transfer_complete() {
        bank.commit();
        Ok(())
    } else {
        bank.abort();
        Err(UpdateError::VerificationFailed)
    }
}

} // verus!
