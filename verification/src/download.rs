//! Accounting for a streamed download: the bytes gathered so far and the
//! progress to report after each chunk. The host reads the chunks from the
//! network and hands them in one by one.

use vstd::prelude::*;

verus! {

/// A progress notification: the share of the declared length that has
/// arrived, in percent.
#[derive(Clone, Copy, PartialEq, Eq, Structural, Debug)]
pub struct DownloadProgress {
    pub progress: u32,
}

/// Why a download failed.
#[derive(Debug, PartialEq, Eq)]
pub enum DownloadError {
    /// The transfer broke off; the text is the transport's explanation.
    TransferFailed(String),
}

impl DownloadError {
    /// The text shown to the user for this error.
    pub fn message(&self) -> (text: String)
        ensures
            text@ == match *self {
                DownloadError::TransferFailed(detail) => detail@,
            },
    {
        match self {
            DownloadError::TransferFailed(detail) => detail.clone(),
        }
    }
}

/// The percentage to report when `received` bytes of `total` have arrived:
/// the quotient rounded down, capped at the largest value that fits.
pub open spec fn percent(received: int, total: int) -> int
    recommends
        total > 0,
{
    let exact = received * 100 / total;
    if exact > u32::MAX {
        u32::MAX as int
    } else {
        exact
    }
}

/// The length that a response declared, as the accounting keeps it: zero
/// stands for a response that declared none.
pub open spec fn declared(content_length: Option<u64>) -> u64 {
    match content_length {
        Some(length) => length,
        None => 0,
    }
}

/// The notification due once `received` bytes have arrived, if any: none
/// while the total is unknown.
pub open spec fn progress_at(received: int, total: u64) -> Option<DownloadProgress> {
    if total > 0 {
        Some(DownloadProgress { progress: percent(received, total as int) as u32 })
    } else {
        None
    }
}

/// The notification due once `received` bytes of `total` have arrived.
pub fn progress_of(received: u64, total: u64) -> (progress: Option<DownloadProgress>)
    ensures
        progress == progress_at(received as int, total),
{
    if total > 0 {
        let scaled: u128 = (received as u128) * 100;
        let exact: u128 = scaled / (total as u128);
        let capped: u32 = if exact > 0xffff_ffff {
            0xffff_ffff
        } else {
            exact as u32
        };
        Some(DownloadProgress { progress: capped })
    } else {
        None
    }
}

/// A download in progress.
#[derive(Debug, PartialEq, Eq)]
pub struct Download {
    pub buffer: Vec<u8>,
    pub total: u64,
}

impl Download {
    /// Starts a download of a response that declared `content_length`.
    pub fn begin(content_length: Option<u64>) -> (download: Download)
        ensures
            download.buffer@ == Seq::<u8>::empty(),
            download.total == declared(content_length),
    {
        let total = match content_length {
            Some(length) => length,
            None => 0,
        };
        Download { buffer: Vec::new(), total }
    }

    /// Takes the next chunk: its bytes join the buffer, and the progress to
    /// report, if the total is known, is returned.
    pub fn receive(&mut self, chunk: &[u8]) -> (progress: Option<DownloadProgress>)
        ensures
            final(self).buffer@ == old(self).buffer@ + chunk@,
            final(self).total == old(self).total,
            progress == progress_at(final(self).buffer@.len() as int, old(self).total),
    {
        self.buffer.extend_from_slice(chunk);
        assert(self.buffer@ =~= old(self).buffer@ + chunk@);
        progress_of(self.buffer.len() as u64, self.total)
    }

    /// Ends the download and hands out everything received.
    pub fn finish(self) -> (bytes: Vec<u8>)
        ensures
            bytes@ == self.buffer@,
    {
        self.buffer
    }

    /// Takes what the host read from the response body: a chunk, a failure,
    /// or nothing once the body has ended. A chunk joins the buffer and the
    /// download goes on; a failure ends it with `TransferFailed` and no
    /// bytes; the end of the body ends it with every byte received.
    pub fn step(self, read: Option<Result<&[u8], String>>) -> (next: DownloadStep)
        ensures
            match read {
                Some(Ok(chunk)) => next matches DownloadStep::Continue { download, progress }
                    && download.buffer@ == self.buffer@ + chunk@ && download.total == self.total
                    && progress == progress_at(download.buffer@.len() as int, self.total),
                Some(Err(detail)) => next == DownloadStep::Finished(
                    Err(DownloadError::TransferFailed(detail)),
                ),
                None => next matches DownloadStep::Finished(Ok(bytes)) && bytes@ == self.buffer@,
            },
    {
        match read {
            Some(Ok(chunk)) => {
                let mut download = self;
                let progress = download.receive(chunk);
                DownloadStep::Continue { download, progress }
            },
            Some(Err(detail)) => DownloadStep::Finished(Err(DownloadError::TransferFailed(detail))),
            None => DownloadStep::Finished(Ok(self.finish())),
        }
    }
}

/// What follows a read of the response body.
#[derive(Debug, PartialEq, Eq)]
pub enum DownloadStep {
    /// The download goes on: report `progress`, if there is any, and read
    /// again.
    Continue { download: Download, progress: Option<DownloadProgress> },
    /// The download has ended with this result.
    Finished(Result<Vec<u8>, DownloadError>),
}

/// What a whole download did: the notifications it gave, in order, and how
/// it ended.
#[derive(Debug, PartialEq, Eq)]
pub struct Transcript {
    pub progress: Vec<DownloadProgress>,
    pub outcome: Result<Vec<u8>, DownloadError>,
}

/// The bytes of a chunk that arrived; none for a read that failed.
pub open spec fn bytes_of(chunk: Result<Vec<u8>, String>) -> Seq<u8> {
    match chunk {
        Ok(bytes) => bytes@,
        Err(_) => Seq::empty(),
    }
}

/// The bytes of all `chunks`, one after the other.
pub open spec fn joined(chunks: Seq<Result<Vec<u8>, String>>) -> Seq<u8>
    decreases chunks.len(),
{
    if chunks.len() == 0 {
        Seq::empty()
    } else {
        joined(chunks.drop_last()) + bytes_of(chunks.last())
    }
}

/// The notifications given while `chunks` arrive: one after each chunk, for
/// the bytes received up to and including it; none at all while the total
/// is unknown.
pub open spec fn progress_trace(chunks: Seq<Result<Vec<u8>, String>>, total: u64) -> Seq<
    DownloadProgress,
>
    decreases chunks.len(),
{
    if chunks.len() == 0 || total == 0 {
        Seq::empty()
    } else {
        progress_trace(chunks.drop_last(), total).push(
            DownloadProgress { progress: percent(joined(chunks).len() as int, total as int) as u32 },
        )
    }
}

/// The number of chunks that arrived before the first failed read.
pub open spec fn arrived(chunks: Seq<Result<Vec<u8>, String>>) -> int
    decreases chunks.len(),
{
    if chunks.len() == 0 || chunks[0] is Err {
        0
    } else {
        1 + arrived(chunks.drop_first())
    }
}

/// `arrived` counts the leading chunks that are not failures.
pub proof fn lemma_arrived(chunks: Seq<Result<Vec<u8>, String>>)
    ensures
        0 <= arrived(chunks) <= chunks.len(),
        forall|k: int| 0 <= k < arrived(chunks) ==> chunks[k] is Ok,
        arrived(chunks) < chunks.len() ==> chunks[arrived(chunks)] is Err,
    decreases chunks.len(),
{
    if chunks.len() == 0 || chunks[0] is Err {
    } else {
        let rest = chunks.drop_first();
        lemma_arrived(rest);
        assert forall|k: int| 0 <= k < arrived(chunks) implies chunks[k] is Ok by {
            if k > 0 {
                assert(rest[k - 1] == chunks[k]);
            }
        }
        if arrived(chunks) < chunks.len() {
            assert(rest[arrived(rest)] == chunks[arrived(chunks)]);
        }
    }
}

/// Chunks of which the first `n` arrived, and which end there or fail
/// there, have `n` arrived chunks.
pub proof fn lemma_arrived_is(chunks: Seq<Result<Vec<u8>, String>>, n: int)
    requires
        0 <= n <= chunks.len(),
        forall|k: int| 0 <= k < n ==> chunks[k] is Ok,
        n < chunks.len() ==> chunks[n] is Err,
    ensures
        arrived(chunks) == n,
{
    lemma_arrived(chunks);
    let a = arrived(chunks);
    if a < n {
        assert(chunks[a] is Err);
    } else if a > n {
        assert(chunks[n] is Ok);
    }
}

/// Runs a whole download over the reads of a response body, in order, each
/// a chunk or a failure. Every chunk before the first failure joins the
/// result and is followed by its notification when the length was declared.
/// A failure ends the download with `TransferFailed` and no bytes; without
/// one the result is every byte received.
pub fn download(chunks: Vec<Result<Vec<u8>, String>>, content_length: Option<u64>) -> (transcript:
    Transcript)
    ensures
        transcript.progress@ == progress_trace(
            chunks@.take(arrived(chunks@)),
            declared(content_length),
        ),
        match transcript.outcome {
            Ok(bytes) => arrived(chunks@) == chunks.len() && bytes@ == joined(chunks@),
            Err(DownloadError::TransferFailed(detail)) => arrived(chunks@) < chunks.len()
                && chunks[arrived(chunks@)] == Err::<Vec<u8>, String>(detail),
        },
{
    let mut state = Download::begin(content_length);
    let mut progress: Vec<DownloadProgress> = Vec::new();
    let mut i: usize = 0;
    assert(chunks@.take(0) =~= Seq::<Result<Vec<u8>, String>>::empty());
    while i < chunks.len()
        invariant
            i <= chunks.len(),
            state.total == declared(content_length),
            forall|k: int| 0 <= k < i ==> chunks[k] is Ok,
            state.buffer@ == joined(chunks@.take(i as int)),
            progress@ == progress_trace(chunks@.take(i as int), state.total),
        decreases chunks.len() - i,
    {
        assert(chunks@.take(i + 1).drop_last() =~= chunks@.take(i as int));
        assert(chunks@.take(i + 1).last() == chunks[i as int]);
        let read = match &chunks[i] {
            Ok(bytes) => Ok(bytes.as_slice()),
            Err(detail) => Err(detail.clone()),
        };
        match state.step(Some(read)) {
            DownloadStep::Continue { download, progress: notification } => {
                state = download;
                match notification {
                    Some(notification) => {
                        progress.push(notification);
                    },
                    None => {},
                }
            },
            DownloadStep::Finished(outcome) => {
                proof {
                    lemma_arrived_is(chunks@, i as int);
                }
                return Transcript { progress, outcome };
            },
        }
        i += 1;
    }
    proof {
        lemma_arrived_is(chunks@, i as int);
        assert(chunks@.take(i as int) =~= chunks@);
    }
    Transcript { progress, outcome: Ok(state.finish()) }
}

/// The number of bytes received grows with every chunk.
pub proof fn lemma_joined_grows(chunks: Seq<Result<Vec<u8>, String>>, i: int, j: int)
    requires
        0 <= i <= j <= chunks.len(),
    ensures
        joined(chunks.take(i)).len() <= joined(chunks.take(j)).len(),
    decreases j - i,
{
    if i < j {
        lemma_joined_grows(chunks, i, j - 1);
        assert(chunks.take(j).drop_last() =~= chunks.take(j - 1));
    }
}

/// With a declared length, every chunk is followed by one notification, and
/// the notification after chunk `i` is the percentage of the bytes received
/// up to and including that chunk.
pub proof fn lemma_progress_values(chunks: Seq<Result<Vec<u8>, String>>, total: u64)
    requires
        total > 0,
    ensures
        progress_trace(chunks, total).len() == chunks.len(),
        forall|i: int|
            0 <= i < chunks.len() ==> (#[trigger] progress_trace(chunks, total)[i]).progress
                == percent(joined(chunks.take(i + 1)).len() as int, total as int),
    decreases chunks.len(),
{
    if chunks.len() > 0 {
        let earlier = chunks.drop_last();
        lemma_progress_values(earlier, total);
        assert(chunks.take(chunks.len() as int) =~= chunks);
        assert forall|i: int| 0 <= i < chunks.len() implies (#[trigger] progress_trace(
            chunks,
            total,
        )[i]).progress == percent(joined(chunks.take(i + 1)).len() as int, total as int) by {
            if i < chunks.len() - 1 {
                assert(earlier.take(i + 1) =~= chunks.take(i + 1));
            }
        }
    }
}

/// The percentage never falls as more bytes arrive.
pub proof fn lemma_percent_monotonic(a: int, b: int, total: int)
    requires
        0 <= a <= b,
        total > 0,
    ensures
        0 <= percent(a, total) <= percent(b, total) <= u32::MAX,
{
    assert(0 <= a * 100 / total <= b * 100 / total) by (nonlinear_arith)
        requires
            0 <= a <= b,
            total > 0,
    ;
}

/// While no more than the declared length has arrived, the percentage
/// stays within 0 and 100, and it is 100 exactly when all has arrived.
pub proof fn lemma_percent_within_hundred(received: int, total: int)
    requires
        0 <= received <= total,
        total > 0,
    ensures
        0 <= percent(received, total) <= 100,
        percent(received, total) == 100 <==> received == total,
{
    assert(0 <= received * 100 / total <= 100 && (received * 100 / total == 100 <==> received
        == total)) by (nonlinear_arith)
        requires
            0 <= received <= total,
            total > 0,
    ;
}

/// The notifications of a download come in non-decreasing order.
pub proof fn lemma_progress_nondecreasing(
    chunks: Seq<Result<Vec<u8>, String>>,
    total: u64,
    i: int,
    j: int,
)
    requires
        total > 0,
        0 <= i <= j < chunks.len(),
    ensures
        progress_trace(chunks, total)[i].progress <= progress_trace(chunks, total)[j].progress,
{
    lemma_progress_values(chunks, total);
    lemma_joined_grows(chunks, i + 1, j + 1);
    lemma_percent_monotonic(
        joined(chunks.take(i + 1)).len() as int,
        joined(chunks.take(j + 1)).len() as int,
        total as int,
    );
}

/// A response that declared no length gives no notification, whatever
/// arrives; its bytes are gathered all the same.
pub proof fn lemma_no_length_no_progress(chunks: Seq<Result<Vec<u8>, String>>)
    ensures
        progress_trace(chunks, declared(None)) == Seq::<DownloadProgress>::empty(),
{
}

} // verus!
