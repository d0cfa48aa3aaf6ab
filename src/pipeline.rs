//! The run of one pack: its stages, and the downloader's settings with the
//! output path template they resolve.
use vstd::prelude::*;
use crate::error::PipelineError;
use crate::pack_manifest::Manifest;
use crate::text::{dec, decimal, replace_all, replaced};

verus! {

/// Stage of a run. `Done` and `Failed` are terminal.
#[derive(Debug, Clone, Copy, PartialEq, Eq, Structural)]
pub enum ProcessStage {
    Extracting,
    ManifestLoaded,
    Downloading,
    Merging,
    Cleaned,
    Done,
    Failed(PipelineError),
}

/// What the work of the current stage came to.
#[derive(Debug, Clone, Copy, PartialEq, Eq, Structural)]
pub enum StageEvent {
    /// The archive was unpacked into the temporary directory.
    Extracted,
    /// The archive is missing or corrupt.
    ExtractionFailed,
    /// The manifest document was found and decoded.
    ManifestRead,
    /// The unpacked tree holds no manifest document.
    ManifestMissing,
    /// The manifest document is malformed.
    ManifestInvalid,
    /// Every batch of entries was attempted.
    DownloadsAttempted,
    /// The directory the entries go to could not be created.
    DownloadSetupFailed,
    /// The unpacked tree was copied into the output directory.
    Merged,
    /// Copying into the output directory failed.
    MergeFailed,
    /// Removal of the temporary directory was attempted, with or without success.
    CleanupAttempted,
}

/// The stage a run moves to from `stage` on `event`. An event that does not
/// belong to the stage leaves it where it is; terminal stages never move.
pub open spec fn stage_after(stage: ProcessStage, event: StageEvent) -> ProcessStage {
    match (stage, event) {
        (ProcessStage::Extracting, StageEvent::Extracted) => ProcessStage::ManifestLoaded,
        (ProcessStage::Extracting, StageEvent::ExtractionFailed) => ProcessStage::Failed(
            PipelineError::ExtractionError,
        ),
        (ProcessStage::ManifestLoaded, StageEvent::ManifestRead) => ProcessStage::Downloading,
        (ProcessStage::ManifestLoaded, StageEvent::ManifestMissing) => ProcessStage::Failed(
            PipelineError::ManifestNotFound,
        ),
        (ProcessStage::ManifestLoaded, StageEvent::ManifestInvalid) => ProcessStage::Failed(
            PipelineError::ManifestDecodeError,
        ),
        (ProcessStage::Downloading, StageEvent::DownloadsAttempted) => ProcessStage::Merging,
        (ProcessStage::Downloading, StageEvent::DownloadSetupFailed) => ProcessStage::Failed(
            PipelineError::DownloadSetupError,
        ),
        (ProcessStage::Merging, StageEvent::Merged) => ProcessStage::Cleaned,
        (ProcessStage::Merging, StageEvent::MergeFailed) => ProcessStage::Failed(
            PipelineError::MergeError,
        ),
        (ProcessStage::Cleaned, StageEvent::CleanupAttempted) => ProcessStage::Done,
        _ => stage,
    }
}

/// Moves a run on by one event, as [`stage_after`] states.
pub fn next_stage(stage: ProcessStage, event: StageEvent) -> (r: ProcessStage)
    ensures
        r == stage_after(stage, event),
{
    match (stage, event) {
        (ProcessStage::Extracting, StageEvent::Extracted) => ProcessStage::ManifestLoaded,
        (ProcessStage::Extracting, StageEvent::ExtractionFailed) => ProcessStage::Failed(
            PipelineError::ExtractionError,
        ),
        (ProcessStage::ManifestLoaded, StageEvent::ManifestRead) => ProcessStage::Downloading,
        (ProcessStage::ManifestLoaded, StageEvent::ManifestMissing) => ProcessStage::Failed(
            PipelineError::ManifestNotFound,
        ),
        (ProcessStage::ManifestLoaded, StageEvent::ManifestInvalid) => ProcessStage::Failed(
            PipelineError::ManifestDecodeError,
        ),
        (ProcessStage::Downloading, StageEvent::DownloadsAttempted) => ProcessStage::Merging,
        (ProcessStage::Downloading, StageEvent::DownloadSetupFailed) => ProcessStage::Failed(
            PipelineError::DownloadSetupError,
        ),
        (ProcessStage::Merging, StageEvent::Merged) => ProcessStage::Cleaned,
        (ProcessStage::Merging, StageEvent::MergeFailed) => ProcessStage::Failed(
            PipelineError::MergeError,
        ),
        (ProcessStage::Cleaned, StageEvent::CleanupAttempted) => ProcessStage::Done,
        _ => stage,
    }
}

/// Whether a stage ends the run.
pub open spec fn is_terminal(stage: ProcessStage) -> bool {
    stage is Done || stage is Failed
}

/// Whether the temporary directory is to be removed on entering `stage`:
/// after a merge, and, best effort, on any failure.
pub fn cleanup_due(stage: ProcessStage) -> (r: bool)
    ensures
        r == (stage is Cleaned || stage is Failed),
{
    match stage {
        ProcessStage::Cleaned => true,
        ProcessStage::Failed(_) => true,
        _ => false,
    }
}

/// A finished run stays finished, and a failed cleanup cannot undo a merge:
/// from `Cleaned` the run always ends in `Done`.
pub proof fn terminal_stages_are_final(stage: ProcessStage, event: StageEvent)
    ensures
        is_terminal(stage) ==> stage_after(stage, event) == stage,
        stage is Cleaned && event == StageEvent::CleanupAttempted ==> stage_after(stage, event)
            == ProcessStage::Done,
        stage_after(stage, event) is Failed ==> !(stage is Cleaned),
{
}

/// The output path template with its placeholders filled in, in order:
/// pack name, pack version, pack author, then the time in milliseconds.
pub open spec fn parsed_output(
    template: Seq<char>,
    name: Seq<char>,
    version: Seq<char>,
    author: Seq<char>,
    time_ms: nat,
) -> Seq<char> {
    replaced(
        replaced(
            replaced(replaced(template, "%PACK_NAME%"@, name), "%PACK_VERSION%"@, version),
            "%PACK_AUTHOR%"@,
            author,
        ),
        "%TIME%"@,
        dec(time_ms),
    )
}

/// Settings of a pack download, and where its result goes.
pub struct CurseforgePackDownloader {
    /// Output directory template; see [`CurseforgePackDownloader::get_parsed_output`].
    output_dir: String,
    /// Where the archive is unpacked while the run lasts.
    temp_directory: String,
    /// Whether stored files are checked against their MD5 digest.
    validate: bool,
    /// Entries per batch; zero puts all of them in one batch.
    parallel_downloads: u8,
    /// Only files of at most this many bytes are checked.
    validate_if_size_less_than: Option<u64>,
}

impl CurseforgePackDownloader {
    /// The output directory template.
    pub closed spec fn spec_output_dir(&self) -> Seq<char> {
        self.output_dir@
    }

    /// The temporary directory.
    pub closed spec fn spec_temp_directory(&self) -> Seq<char> {
        self.temp_directory@
    }

    /// Whether validation is on.
    pub closed spec fn spec_validate(&self) -> bool {
        self.validate
    }

    /// Entries per batch.
    pub closed spec fn spec_parallel_downloads(&self) -> u8 {
        self.parallel_downloads
    }

    /// The validation size threshold.
    pub closed spec fn spec_validate_if_size_less_than(&self) -> Option<u64> {
        self.validate_if_size_less_than
    }

    /// Defaults: output `./`, temporary directory `./temp`, no validation,
    /// 16 entries per batch, no size threshold.
    pub fn new() -> (r: Self)
        ensures
            r.spec_output_dir() == "./"@,
            r.spec_temp_directory() == "./temp"@,
            !r.spec_validate(),
            r.spec_parallel_downloads() == 16,
            r.spec_validate_if_size_less_than() is None,
    {
        CurseforgePackDownloader {
            output_dir: String::from_str("./"),
            temp_directory: String::from_str("./temp"),
            validate: false,
            parallel_downloads: 16,
            validate_if_size_less_than: None,
        }
    }

    /// Sets the temporary directory.
    pub fn set_temp_directory(&mut self, temp_directory: &str) -> (r: &mut Self)
        ensures
            r.spec_temp_directory() == temp_directory@,
            r.spec_output_dir() == old(self).spec_output_dir(),
            r.spec_validate() == old(self).spec_validate(),
            r.spec_parallel_downloads() == old(self).spec_parallel_downloads(),
            r.spec_validate_if_size_less_than() == old(
                self,
            ).spec_validate_if_size_less_than(),
            *final(self) == *final(r),
    {
        self.temp_directory = String::from_str(temp_directory);
        self
    }

    /// Sets the output directory template. `%PACK_NAME%`, `%PACK_VERSION%`,
    /// `%PACK_AUTHOR%` and `%TIME%` in it are filled in per run.
    pub fn set_output_directory(&mut self, output_directory: &str) -> (r: &mut Self)
        ensures
            r.spec_output_dir() == output_directory@,
            r.spec_temp_directory() == old(self).spec_temp_directory(),
            r.spec_validate() == old(self).spec_validate(),
            r.spec_parallel_downloads() == old(self).spec_parallel_downloads(),
            r.spec_validate_if_size_less_than() == old(
                self,
            ).spec_validate_if_size_less_than(),
            *final(self) == *final(r),
    {
        self.output_dir = String::from_str(output_directory);
        self
    }

    /// Turns validation of stored files on or off.
    pub fn set_validate(&mut self, validate: bool) -> (r: &mut Self)
        ensures
            r.spec_validate() == validate,
            r.spec_output_dir() == old(self).spec_output_dir(),
            r.spec_temp_directory() == old(self).spec_temp_directory(),
            r.spec_parallel_downloads() == old(self).spec_parallel_downloads(),
            r.spec_validate_if_size_less_than() == old(
                self,
            ).spec_validate_if_size_less_than(),
            *final(self) == *final(r),
    {
        self.validate = validate;
        self
    }

    /// Sets the number of entries per batch.
    pub fn set_parallel_downloads(&mut self, parallel_downloads: u8) -> (r: &mut Self)
        ensures
            r.spec_parallel_downloads() == parallel_downloads,
            r.spec_output_dir() == old(self).spec_output_dir(),
            r.spec_temp_directory() == old(self).spec_temp_directory(),
            r.spec_validate() == old(self).spec_validate(),
            r.spec_validate_if_size_less_than() == old(
                self,
            ).spec_validate_if_size_less_than(),
            *final(self) == *final(r),
    {
        self.parallel_downloads = parallel_downloads;
        self
    }

    /// Sets the size threshold: only files of at most this many bytes are checked.
    pub fn set_validate_if_size_less_than(&mut self, validate_if_size_less_than: u64) -> (r:
        &mut Self)
        ensures
            r.spec_validate_if_size_less_than() == Some(validate_if_size_less_than),
            r.spec_output_dir() == old(self).spec_output_dir(),
            r.spec_temp_directory() == old(self).spec_temp_directory(),
            r.spec_validate() == old(self).spec_validate(),
            r.spec_parallel_downloads() == old(self).spec_parallel_downloads(),
            *final(self) == *final(r),
    {
        self.validate_if_size_less_than = Some(validate_if_size_less_than);
        self
    }

    /// The output directory for a pack: the template with `%PACK_NAME%`,
    /// `%PACK_VERSION%`, `%PACK_AUTHOR%` and `%TIME%` replaced, in that order,
    /// by the manifest's name, version and author and by `time_ms` in decimal.
    pub fn get_parsed_output(&self, manifest: &Manifest, time_ms: u128) -> (r: String)
        ensures
            r@ == parsed_output(
                self.spec_output_dir(),
                manifest.name@,
                manifest.version@,
                manifest.author@,
                time_ms as nat,
            ),
    {
        proof {
            reveal_strlit("%PACK_NAME%");
            reveal_strlit("%PACK_VERSION%");
            reveal_strlit("%PACK_AUTHOR%");
            reveal_strlit("%TIME%");
        }
        let time = decimal(time_ms);
        let path = replace_all(self.output_dir.as_str(), "%PACK_NAME%", manifest.name.as_str());
        let path = replace_all(path.as_str(), "%PACK_VERSION%", manifest.version.as_str());
        let path = replace_all(path.as_str(), "%PACK_AUTHOR%", manifest.author.as_str());
        replace_all(path.as_str(), "%TIME%", time.as_str())
    }

    /// The output directory template.
    pub fn output_dir(&self) -> (r: &str)
        ensures
            r@ == self.spec_output_dir(),
    {
        self.output_dir.as_str()
    }

    /// The temporary directory.
    pub fn temp_directory(&self) -> (r: &str)
        ensures
            r@ == self.spec_temp_directory(),
    {
        self.temp_directory.as_str()
    }

    /// Whether validation is on.
    pub fn validate(&self) -> (r: bool)
        ensures
            r == self.spec_validate(),
    {
        self.validate
    }

    /// Entries per batch.
    pub fn parallel_downloads(&self) -> (r: u8)
        ensures
            r == self.spec_parallel_downloads(),
    {
        self.parallel_downloads
    }

    /// The validation size threshold.
    pub fn validate_if_size_less_than(&self) -> (r: Option<u64>)
        ensures
            r == self.spec_validate_if_size_less_than(),
    {
        self.validate_if_size_less_than
    }
}

impl Default for CurseforgePackDownloader {
    fn default() -> (r: Self)
        ensures
            r.spec_output_dir() == "./"@,
            r.spec_temp_directory() == "./temp"@,
            !r.spec_validate(),
            r.spec_parallel_downloads() == 16,
            r.spec_validate_if_size_less_than() is None,
    {
        Self::new()
    }
}

} // verus!
