//! Download orchestration: the manifest's entries are cut into consecutive
//! batches that run one after another; each entry's catalog records decide
//! where its file is fetched from, where it is stored and whether it is checked.
use vstd::prelude::*;
use crate::error::DownloadError;
use crate::fallback_url::{cdn_url, id_bucketable, percent_encoded, resolve_download_url};
use crate::mod_type::{folder_of, ModType, ModTypeExt};
use crate::records::{FileHashItem, ModFileItem};
use vstd::utf8::encode_utf8;
use vstd::arithmetic::div_mod::{lemma_fundamental_div_mod, lemma_fundamental_div_mod_converse};

verus! {

// ---------------------------------------------------------------- batching

/// Entries per batch: all of them when `parallel` is zero or exceeds their
/// number, else `parallel`.
pub open spec fn effective_batch_size(parallel: nat, n: nat) -> nat {
    if parallel == 0 || parallel > n {
        n
    } else {
        parallel
    }
}

/// Number of batches: the ceiling of `n / size` (none for no entries).
pub open spec fn batch_count(n: nat, size: nat) -> nat {
    if n == 0 || size == 0 {
        0
    } else {
        ((n + size - 1) / size as int) as nat
    }
}

/// Start index of batch `k`.
pub open spec fn batch_start(size: nat, k: int) -> int {
    k * size
}

/// End index (exclusive) of batch `k`: the next batch's start, or `n` for the last.
pub open spec fn batch_end(n: nat, size: nat, k: int) -> int {
    if (k + 1) * size < n {
        (k + 1) * size
    } else {
        n as int
    }
}

/// Whether entry `i` lies in batch `k`.
pub open spec fn in_batch(n: nat, size: nat, k: int, i: int) -> bool {
    batch_start(size, k) <= i < batch_end(n, size, k)
}

/// Entries per batch, as [`effective_batch_size`] states.
pub fn batch_size(parallel: u8, n: usize) -> (r: usize)
    ensures
        r == effective_batch_size(parallel as nat, n as nat),
{
    if parallel == 0 || parallel as usize > n {
        n
    } else {
        parallel as usize
    }
}

proof fn lemma_batch_count_step(n: nat, size: nat, k: nat)
    requires
        size > 0,
        k * size < n,
    ensures
        k < batch_count(n, size),
        (k + 1) * size >= n ==> batch_count(n, size) == k + 1,
{
    let x = n + size - 1;
    let d = size as int;
    lemma_fundamental_div_mod(x, d);
    let q = x / d;
    let r = x % d;
    assert(q > k) by (nonlinear_arith)
        requires
            d > 0,
            x == d * q + r,
            0 <= r < d,
            k * d < n,
            x == n + d - 1,
    ;
    if (k + 1) * size >= n {
        assert(x == (k + 1) * d + (n - 1 - k * d)) by (nonlinear_arith)
            requires
                x == n + d - 1,
        ;
        lemma_fundamental_div_mod_converse(x, d, (k + 1) as int, n - 1 - k * d);
    }
}

/// The batches of `n` entries for the given parallelism, as index ranges
/// `(start, end)` in order: batch `k` is `[k * size, min((k + 1) * size, n))`.
pub fn batch_ranges(n: usize, parallel: u8) -> (r: Vec<(usize, usize)>)
    ensures
        r@.len() == batch_count(n as nat, effective_batch_size(parallel as nat, n as nat)),
        forall|k: int|
            #![trigger r@[k]]
            0 <= k < r@.len() ==> r@[k].0 == batch_start(
                effective_batch_size(parallel as nat, n as nat),
                k,
            ) && r@[k].1 == batch_end(n as nat, effective_batch_size(parallel as nat, n as nat), k),
{
    let size = batch_size(parallel, n);
    let ghost sz = size as nat;
    let mut r: Vec<(usize, usize)> = Vec::new();
    if n == 0 {
        return r;
    }
    let mut start: usize = 0;
    proof {
        assert(0 * sz == 0);
        lemma_batch_count_step(n as nat, sz, 0);
    }
    while start < n
        invariant
            size == effective_batch_size(parallel as nat, n as nat),
            0 < size <= n,
            start <= n,
            sz == size as nat,
            start < n ==> start == r@.len() * sz,
            start < n ==> r@.len() < batch_count(n as nat, sz),
            start >= n ==> r@.len() == batch_count(n as nat, sz),
            forall|k: int|
                #![trigger r@[k]]
                0 <= k < r@.len() ==> r@[k].0 == batch_start(sz, k) && r@[k].1 == batch_end(
                    n as nat,
                    sz,
                    k,
                ),
        decreases n - start,
    {
        let ghost k = r@.len();
        assert(k * sz < n);
        let end = if n - start > size {
            start + size
        } else {
            n
        };
        proof {
            assert((k + 1) * sz == k * sz + sz) by (nonlinear_arith);
            lemma_batch_count_step(n as nat, sz, k);
        }
        r.push((start, end));
        start = end;
        proof {
            if start < n {
                assert(start == (k + 1) * sz);
                lemma_batch_count_step(n as nat, sz, k + 1);
            }
        }
    }
    r
}

/// Batching covers every entry exactly once, in order: for any parallelism,
/// the batches are non-empty, contiguous, start at entry 0, end at entry `n`,
/// number `ceil(n / size)`, and entry `i` lies in batch `i / size` and no other.
pub proof fn batches_partition_entries(n: nat, parallel: nat)
    ensures
        ({
            let size = effective_batch_size(parallel, n);
            let count = batch_count(n, size);
            &&& n > 0 ==> count == (n + size - 1) / (size as int)
            &&& n == 0 ==> count == 0
            &&& count > 0 ==> batch_start(size, 0) == 0
            &&& count > 0 ==> batch_end(n, size, count - 1) == n
            &&& forall|k: int|
                0 <= k < count ==> batch_start(size, k) < #[trigger] batch_end(n, size, k)
            &&& forall|k: int|
                0 <= k < count - 1 ==> #[trigger] batch_end(n, size, k) == batch_start(size, k + 1)
            &&& forall|i: int, k: int|
                0 <= i < n && 0 <= k < count ==> (#[trigger] in_batch(n, size, k, i) <==> k == i
                    / (size as int))
        }),
{
    let size = effective_batch_size(parallel, n);
    let count = batch_count(n, size);
    if n > 0 {
        assert(size > 0);
        assert forall|k: int| 0 <= k < count implies batch_start(size, k) < #[trigger] batch_end(
            n,
            size,
            k,
        ) by {
            assert(k <= (n + size - 1) / (size as int) - 1);
            assert(k * size < n) by (nonlinear_arith)
                requires
                    size > 0,
                    0 <= k,
                    k <= (n + size - 1) / (size as int) - 1;
            assert((k + 1) * size == k * size + size) by (nonlinear_arith);
        }
        assert forall|k: int| 0 <= k < count - 1 implies #[trigger] batch_end(n, size, k)
            == batch_start(size, k + 1) by {
            assert(k + 1 <= (n + size - 1) / (size as int) - 1);
            assert((k + 1) * size < n) by (nonlinear_arith)
                requires
                    size > 0,
                    0 <= k + 1,
                    k + 1 <= (n + size - 1) / (size as int) - 1;
        }
        assert((count as int - 1) * size < n) by (nonlinear_arith)
            requires
                size > 0,
                count == (n + size - 1) / (size as int),
                n > 0;
        assert(count * size >= n) by (nonlinear_arith)
            requires
                size > 0,
                count == (n + size - 1) / (size as int);
        assert forall|i: int, k: int| 0 <= i < n && 0 <= k < count implies (#[trigger] in_batch(
            n,
            size,
            k,
            i,
        ) <==> k == i / (size as int)) by {
            assert(k * size <= i < (k + 1) * size <==> k == i / (size as int)) by (nonlinear_arith)
                requires
                    size > 0,
                    0 <= i,
                    0 <= k;
        }
    }
}

// ---------------------------------------------------------------- progress

/// Progress of the mod downloads: entries attempted so far out of all entries.
#[derive(Debug, Clone, Copy, PartialEq, Eq, Structural)]
pub struct ModDownloadProgressResponse {
    pub downloaded: u32,
    pub total: u32,
}

/// Number of successful outcomes.
pub open spec fn ok_count(outcomes: Seq<Result<(), DownloadError>>) -> nat
    decreases outcomes.len(),
{
    if outcomes.len() == 0 {
        0
    } else {
        ok_count(outcomes.drop_last()) + if outcomes.last() is Ok {
            1nat
        } else {
            0nat
        }
    }
}

proof fn lemma_ok_count_bound(outcomes: Seq<Result<(), DownloadError>>)
    ensures
        ok_count(outcomes) <= outcomes.len(),
    decreases outcomes.len(),
{
    if outcomes.len() > 0 {
        lemma_ok_count_bound(outcomes.drop_last());
    }
}

/// Running count of a run's entries: attempted, succeeded and failed.
#[derive(Debug, Clone, Copy, PartialEq, Eq, Structural)]
pub struct DownloadTally {
    pub total: u32,
    pub attempted: u32,
    pub succeeded: u32,
    pub failed: u32,
}

/// The tally after recording the outcomes of one more batch: every outcome
/// counts as attempted, and as a success or a failure.
pub open spec fn tally_after(t: DownloadTally, outcomes: Seq<Result<(), DownloadError>>) -> DownloadTally {
    DownloadTally {
        total: t.total,
        attempted: (t.attempted + outcomes.len()) as u32,
        succeeded: (t.succeeded + ok_count(outcomes)) as u32,
        failed: (t.failed + (outcomes.len() - ok_count(outcomes))) as u32,
    }
}

/// The progress a tally reports: entries attempted out of all entries.
pub open spec fn progress_of(t: DownloadTally) -> ModDownloadProgressResponse {
    ModDownloadProgressResponse { downloaded: t.attempted, total: t.total }
}

impl DownloadTally {
    /// Every count but the ones attempted stays within the ones attempted,
    /// and those within the total.
    pub open spec fn wf(&self) -> bool {
        &&& self.attempted <= self.total
        &&& self.succeeded + self.failed == self.attempted
    }

    /// A run of `total` entries of which none has been attempted.
    pub fn new(total: u32) -> (t: DownloadTally)
        ensures
            t.wf(),
            t == (DownloadTally { total, attempted: 0, succeeded: 0, failed: 0 }),
    {
        DownloadTally { total, attempted: 0, succeeded: 0, failed: 0 }
    }

    /// Records the outcomes of one finished batch and returns the progress to
    /// report: every entry of the batch counts as attempted, whatever its outcome.
    pub fn record_batch(&mut self, outcomes: &Vec<Result<(), DownloadError>>) -> (r:
        ModDownloadProgressResponse)
        requires
            old(self).wf(),
            old(self).attempted + outcomes@.len() <= old(self).total,
        ensures
            final(self).wf(),
            *final(self) == tally_after(*old(self), outcomes@),
            final(self).attempted == old(self).attempted + outcomes@.len(),
            final(self).succeeded == old(self).succeeded + ok_count(outcomes@),
            r == progress_of(*final(self)),
    {
        let mut i: usize = 0;
        proof {
            lemma_ok_count_bound(outcomes@);
        }
        while i < outcomes.len()
            invariant
                self.wf(),
                self.total == old(self).total,
                old(self).attempted + outcomes@.len() <= old(self).total,
                i <= outcomes@.len(),
                self.attempted == old(self).attempted + i,
                self.succeeded == old(self).succeeded + ok_count(outcomes@.subrange(0, i as int)),
                self.failed == old(self).failed + (i - ok_count(outcomes@.subrange(0, i as int))),
            decreases outcomes@.len() - i,
        {
            proof {
                assert(outcomes@.subrange(0, i + 1).drop_last() =~= outcomes@.subrange(0, i as int));
                lemma_ok_count_bound(outcomes@.subrange(0, i as int));
            }
            self.attempted = self.attempted + 1;
            match outcomes[i] {
                Ok(()) => {
                    self.succeeded = self.succeeded + 1;
                },
                Err(_) => {
                    self.failed = self.failed + 1;
                },
            }
            i = i + 1;
        }
        assert(outcomes@.subrange(0, outcomes@.len() as int) =~= outcomes@);
        ModDownloadProgressResponse { downloaded: self.attempted, total: self.total }
    }
}

/// Partial failure does not hold up progress: recording two batches of the
/// same size from the same tally reports the same progress whatever their
/// outcomes; the outcomes only split the attempted entries into successes
/// and failures.
pub proof fn progress_ignores_outcomes(
    t: DownloadTally,
    a: Seq<Result<(), DownloadError>>,
    b: Seq<Result<(), DownloadError>>,
)
    requires
        t.wf(),
        a.len() == b.len(),
        t.attempted + a.len() <= t.total,
    ensures
        progress_of(tally_after(t, a)) == progress_of(tally_after(t, b)),
        tally_after(t, a).wf(),
        tally_after(t, b).wf(),
{
    lemma_ok_count_bound(a);
    lemma_ok_count_bound(b);
}

// ---------------------------------------------------------------- one entry

/// Where one entry's file is fetched from and where it is stored.
#[derive(Debug)]
pub struct DownloadPlan {
    /// The URL the file is fetched from.
    pub download_url: String,
    /// The catalog withheld its own URL, so the fallback CDN URL is used.
    pub denied_api_access: bool,
    /// The subdirectory of the destination the file goes to.
    pub folder: String,
    /// The file's name inside that subdirectory.
    pub file_name: String,
}

/// A project's class, or the plain mod class where the catalog gives none.
pub open spec fn class_or_default(class_id: Option<ModType>) -> ModType {
    match class_id {
        Some(t) => t,
        None => ModType::Mod,
    }
}

/// Plans the fetch of one entry from its project's class and its file record.
/// Fails only where the catalog withholds the URL and no fallback URL can be
/// derived from the file id.
pub fn plan_download(file_id: u64, class_id: Option<ModType>, file: &ModFileItem) -> (r: Result<
    DownloadPlan,
    DownloadError,
>)
    ensures
        r is Ok <==> (file.download_url is Some || id_bucketable(file_id as nat)),
        r matches Err(e) ==> e == DownloadError::InvalidIdentifier,
        r matches Ok(p) ==> {
            &&& p.denied_api_access == (file.download_url is None)
            &&& p.file_name@ == file.file_name@
            &&& p.folder@ == folder_of(class_or_default(class_id))
            &&& file.download_url matches Some(u) ==> p.download_url@ == u@
            &&& file.download_url is None ==> p.download_url@ == cdn_url(
                file_id as nat,
                percent_encoded(encode_utf8(file.file_name@)),
            )
        },
{
    let denied_api_access = file.download_url.is_none();
    let direct = match &file.download_url {
        Some(u) => Some(u.clone()),
        None => None,
    };
    let download_url = resolve_download_url(file_id, file.file_name.as_str(), direct)?;
    let class = match class_id {
        Some(t) => t,
        None => ModType::Mod,
    };
    Ok(DownloadPlan {
        download_url,
        denied_api_access,
        folder: class.to_path(),
        file_name: file.file_name.clone(),
    })
}

/// What to do about integrity once an entry's file is stored.
#[derive(Debug)]
pub enum ValidationStep {
    /// Validation is off, or the file is larger than the threshold.
    Skip,
    /// Validation is due, but the catalog withheld the file, so there is
    /// nothing to check against; this is no error.
    Unverifiable,
    /// Compare the file's MD5 digest with this lower-case hex value.
    Check(String),
}

/// Catalog algorithm id of MD5 digests.
pub const MD5_ALGO: i64 = 2;

/// Whether a stored file of `size` bytes is to be validated: validation is on
/// and the size is at most the threshold (zero when none was set).
pub open spec fn validation_due(validate: bool, threshold: Option<u64>, size: u64) -> bool {
    validate && size <= match threshold {
        Some(t) => t,
        None => 0,
    }
}

/// `hashes[i]` is the first MD5 digest of the list.
pub open spec fn first_md5_at(hashes: Seq<FileHashItem>, i: int) -> bool {
    &&& 0 <= i < hashes.len()
    &&& hashes[i].algo == MD5_ALGO
    &&& forall|j: int| 0 <= j < i ==> #[trigger] hashes[j].algo != MD5_ALGO
}

/// Decides the integrity step of one stored entry from the run's settings,
/// the stored file's size, whether the catalog withheld the file, and the
/// digests the catalog lists. Due validation without an MD5 digest is an error.
pub fn validation_step(
    validate: bool,
    threshold: Option<u64>,
    size: u64,
    denied_api_access: bool,
    hashes: &Vec<FileHashItem>,
) -> (r: Result<ValidationStep, DownloadError>)
    ensures
        !validation_due(validate, threshold, size) ==> r matches Ok(ValidationStep::Skip),
        validation_due(validate, threshold, size) && denied_api_access ==> r matches Ok(
            ValidationStep::Unverifiable,
        ),
        validation_due(validate, threshold, size) && !denied_api_access ==> (r is Ok <==> exists|
            i: int,
        | 0 <= i < hashes@.len() && #[trigger] hashes@[i].algo == MD5_ALGO),
        validation_due(validate, threshold, size) && !denied_api_access && r is Ok ==> r matches Ok(
            ValidationStep::Check(_),
        ),
        r matches Ok(ValidationStep::Check(v)) ==> exists|i: int|
            #[trigger] first_md5_at(hashes@, i) && v@ == hashes@[i].value@,
        r matches Err(e) ==> e == DownloadError::MissingHash,
{
    let limit = match threshold {
        Some(t) => t,
        None => 0,
    };
    if !validate || size > limit {
        return Ok(ValidationStep::Skip);
    }
    if denied_api_access {
        return Ok(ValidationStep::Unverifiable);
    }
    let mut i: usize = 0;
    while i < hashes.len()
        invariant
            validation_due(validate, threshold, size),
            !denied_api_access,
            i <= hashes@.len(),
            forall|j: int| 0 <= j < i ==> #[trigger] hashes@[j].algo != MD5_ALGO,
        decreases hashes@.len() - i,
    {
        if hashes[i].algo == MD5_ALGO {
            assert(first_md5_at(hashes@, i as int));
            return Ok(ValidationStep::Check(hashes[i].value.clone()));
        }
        i = i + 1;
    }
    Err(DownloadError::MissingHash)
}

} // verus!
