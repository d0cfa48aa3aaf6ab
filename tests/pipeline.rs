use curseforge_pack_downloader::error::PipelineError;
use curseforge_pack_downloader::mod_type::ModType;
use curseforge_pack_downloader::orchestrator::{
    batch_ranges, plan_download, validation_step, DownloadTally, ModDownloadProgressResponse,
    ValidationStep,
};
use curseforge_pack_downloader::pack_manifest::{Manifest, Minecraft, ModItem};
use curseforge_pack_downloader::pipeline::{
    cleanup_due, next_stage, CurseforgePackDownloader, ProcessStage, StageEvent,
};
use curseforge_pack_downloader::records::{FileHashItem, ModFileItem};

fn manifest(name: &str, version: &str, author: &str, files: Vec<ModItem>) -> Manifest {
    Manifest {
        minecraft: Minecraft { version: "1.21.1".to_string(), mod_loaders: vec![] },
        manifest_type: "minecraftModpack".to_string(),
        manifest_version: 1,
        name: name.to_string(),
        version: version.to_string(),
        author: author.to_string(),
        files,
        overrides: "overrides".to_string(),
    }
}

#[test]
fn placeholder_substitution_name_and_version() {
    let mut d = CurseforgePackDownloader::new();
    d.set_output_directory("./packs/%PACK_NAME%-%PACK_VERSION%");
    let m = manifest("ATM10", "2.3", "ATMTeam", vec![]);
    let out = d.get_parsed_output(&m, 0);
    assert_eq!(out, "./packs/ATM10-2.3");
    assert!(!out.contains('%'));
}

#[test]
fn placeholder_substitution_all_tokens() {
    let mut d = CurseforgePackDownloader::new();
    d.set_output_directory("out/%PACK_AUTHOR%/%PACK_NAME%_%TIME%_%PACK_NAME%");
    let m = manifest("Pack", "1.0", "Someone", vec![]);
    assert_eq!(d.get_parsed_output(&m, 1700000000123), "out/Someone/Pack_1700000000123_Pack");
}

#[test]
fn placeholder_free_template_is_kept() {
    let d = CurseforgePackDownloader::new();
    let m = manifest("Pack", "1.0", "Someone", vec![]);
    assert_eq!(d.get_parsed_output(&m, 5), "./");
}

#[test]
fn downloader_defaults_and_setters() {
    let mut d = CurseforgePackDownloader::default();
    assert_eq!(d.output_dir(), "./");
    assert_eq!(d.temp_directory(), "./temp");
    assert!(!d.validate());
    assert_eq!(d.parallel_downloads(), 16);
    assert_eq!(d.validate_if_size_less_than(), None);
    d.set_validate(true)
        .set_parallel_downloads(4)
        .set_validate_if_size_less_than(10000)
        .set_temp_directory("/tmp/x")
        .set_output_directory("/out");
    assert!(d.validate());
    assert_eq!(d.parallel_downloads(), 4);
    assert_eq!(d.validate_if_size_less_than(), Some(10000));
    assert_eq!(d.temp_directory(), "/tmp/x");
    assert_eq!(d.output_dir(), "/out");
}

#[test]
fn stages_of_a_successful_run() {
    let mut stage = ProcessStage::Extracting;
    let mut seen = vec![stage];
    for event in [
        StageEvent::Extracted,
        StageEvent::ManifestRead,
        StageEvent::DownloadsAttempted,
        StageEvent::Merged,
        StageEvent::CleanupAttempted,
    ] {
        stage = next_stage(stage, event);
        seen.push(stage);
    }
    assert_eq!(
        seen,
        vec![
            ProcessStage::Extracting,
            ProcessStage::ManifestLoaded,
            ProcessStage::Downloading,
            ProcessStage::Merging,
            ProcessStage::Cleaned,
            ProcessStage::Done,
        ]
    );
}

#[test]
fn stage_failures() {
    assert_eq!(
        next_stage(ProcessStage::Extracting, StageEvent::ExtractionFailed),
        ProcessStage::Failed(PipelineError::ExtractionError)
    );
    assert_eq!(
        next_stage(ProcessStage::ManifestLoaded, StageEvent::ManifestMissing),
        ProcessStage::Failed(PipelineError::ManifestNotFound)
    );
    assert_eq!(
        next_stage(ProcessStage::ManifestLoaded, StageEvent::ManifestInvalid),
        ProcessStage::Failed(PipelineError::ManifestDecodeError)
    );
    assert_eq!(
        next_stage(ProcessStage::Merging, StageEvent::MergeFailed),
        ProcessStage::Failed(PipelineError::MergeError)
    );
    assert!(cleanup_due(ProcessStage::Failed(PipelineError::MergeError)));
    assert!(cleanup_due(ProcessStage::Cleaned));
    assert!(!cleanup_due(ProcessStage::Downloading));
}

#[test]
fn terminal_stages_do_not_move() {
    assert_eq!(next_stage(ProcessStage::Done, StageEvent::Extracted), ProcessStage::Done);
    let failed = ProcessStage::Failed(PipelineError::ExtractionError);
    assert_eq!(next_stage(failed, StageEvent::Merged), failed);
    assert_eq!(next_stage(ProcessStage::Downloading, StageEvent::Merged), ProcessStage::Downloading);
}

#[test]
fn end_to_end_two_entries() {
    let files = vec![
        ModItem { project_id: 238222, file_id: 5101366, required: true },
        ModItem { project_id: 306612, file_id: 4675536, required: true },
    ];
    let m = manifest("Two", "1", "Me", files);
    let mut stage = next_stage(ProcessStage::Extracting, StageEvent::Extracted);
    stage = next_stage(stage, StageEvent::ManifestRead);
    assert_eq!(stage, ProcessStage::Downloading);

    let batches = batch_ranges(m.files.len(), 16);
    assert_eq!(batches, vec![(0, 2)]);
    let mut tally = DownloadTally::new(m.files.len() as u32);
    let mut outcomes = Vec::new();
    let mut stored = Vec::new();
    for entry in &m.files {
        let name = format!("mod-{}.jar", entry.file_id);
        let record = ModFileItem {
            id: Some(entry.file_id),
            game_id: None,
            mod_id: Some(entry.project_id),
            is_available: Some(true),
            display_name: None,
            file_name: name.clone(),
            release_type: None,
            file_status: None,
            hashes: vec![FileHashItem { value: "00".to_string(), algo: 2 }],
            file_date: None,
            file_length: None,
            download_count: None,
            file_size_on_disk: None,
            download_url: Some(format!("https://edge.forgecdn.net/files/{}", name)),
            game_versions: None,
            sortable_game_versions: None,
            alternate_file_id: None,
            is_server_pack: None,
            file_fingerprint: None,
        };
        let plan = plan_download(entry.file_id as u64, Some(ModType::Mod), &record).unwrap();
        assert!(!plan.denied_api_access);
        let step = validation_step(true, Some(10000), 500, plan.denied_api_access, &record.hashes);
        assert!(matches!(step, Ok(ValidationStep::Check(_))));
        stored.push(format!("{}/{}", plan.folder, plan.file_name));
        outcomes.push(Ok(()));
    }
    let progress = tally.record_batch(&outcomes);
    assert_eq!(progress, ModDownloadProgressResponse { downloaded: 2, total: 2 });
    assert_eq!(stored, vec!["mods/mod-5101366.jar", "mods/mod-4675536.jar"]);

    stage = next_stage(stage, StageEvent::DownloadsAttempted);
    stage = next_stage(stage, StageEvent::Merged);
    assert_eq!(stage, ProcessStage::Cleaned);
    stage = next_stage(stage, StageEvent::CleanupAttempted);
    assert_eq!(stage, ProcessStage::Done);
}

#[test]
fn placeholder_substitution_leaves_no_percent() {
    let mut d = CurseforgePackDownloader::new();
    d.set_output_directory("/srv/%PACK_AUTHOR%/%PACK_NAME% v%PACK_VERSION% (%TIME%)");
    let m = manifest("All the Mods 10", "2.3", "ATMTeam", vec![]);
    let out = d.get_parsed_output(&m, 42);
    assert_eq!(out, "/srv/ATMTeam/All the Mods 10 v2.3 (42)");
    assert!(!out.contains('%'));
}

#[test]
fn placeholder_followed_by_capitals_is_replaced_left_to_right() {
    // A `%PACK_NAME%` match spanning two `%TIME%` placeholders is taken first.
    let mut d = CurseforgePackDownloader::new();
    d.set_output_directory("%TIME%PACK_NAME%TIME%");
    let m = manifest("N", "1", "A", vec![]);
    assert_eq!(d.get_parsed_output(&m, 7), "%TIMENTIME%");
}
