use std::collections::HashMap;
use webp_batch::outcome::{summarize, ItemOutcome, Stage};
use webp_batch::pipeline::{item_step, ItemAction, ItemEvent, ItemState};
use webp_batch::scan::select_sources;

/// An in-memory stand-in for the object store: every put lands here, and the
/// attempt counter records each upload request, accepted or refused.
struct FakeStore {
    objects: HashMap<Vec<u8>, Vec<u8>>,
    attempts: usize,
    accept: bool,
}

impl FakeStore {
    fn accepting() -> FakeStore {
        FakeStore { objects: HashMap::new(), attempts: 0, accept: true }
    }

    fn refusing() -> FakeStore {
        FakeStore { objects: HashMap::new(), attempts: 0, accept: false }
    }

    fn put(&mut self, key: Vec<u8>, body: Vec<u8>) -> Result<(), String> {
        self.attempts += 1;
        if self.accept {
            self.objects.insert(key, body);
            Ok(())
        } else {
            Err("connection refused".to_string())
        }
    }
}

/// Runs one item's pipeline to completion against an in-memory filesystem
/// and store, performing each action the state machine asks for.
fn run_item(
    path: &[u8],
    files: &mut HashMap<Vec<u8>, Vec<u8>>,
    store: &mut FakeStore,
) -> ItemOutcome {
    let mut state = ItemState::Pending { path: path.to_vec() };
    let mut event = ItemEvent::SourceRead {
        result: files.get(path).cloned().ok_or_else(|| "source unreadable".to_string()),
    };
    loop {
        let (next, action) = item_step(state, event);
        state = next;
        event = match action {
            ItemAction::WriteArtifact { path: artifact_path, data } => {
                files.insert(artifact_path, data);
                ItemEvent::ArtifactWritten { result: Ok(()) }
            },
            ItemAction::ReadArtifact { path: artifact_path } => ItemEvent::ArtifactRead {
                result: files
                    .get(&artifact_path)
                    .cloned()
                    .ok_or_else(|| "artifact gone".to_string()),
            },
            ItemAction::Upload { key, body } => ItemEvent::UploadFinished {
                result: store.put(key, body),
            },
            ItemAction::Report { outcome } => return outcome,
        };
    }
}

fn sample_png() -> Vec<u8> {
    let img = image::DynamicImage::ImageRgb8(image::RgbImage::from_pixel(
        1,
        1,
        image::Rgb([1, 2, 3]),
    ));
    let mut cursor = std::io::Cursor::new(Vec::new());
    img.write_to(&mut cursor, image::ImageFormat::Png).expect("sample png");
    cursor.into_inner()
}

fn sample_jpeg() -> Vec<u8> {
    let img = image::DynamicImage::ImageRgb8(image::RgbImage::from_pixel(
        1,
        1,
        image::Rgb([9, 8, 7]),
    ));
    let mut cursor = std::io::Cursor::new(Vec::new());
    img.write_to(&mut cursor, image::ImageFormat::Jpeg).expect("sample jpeg");
    cursor.into_inner()
}

fn classify(outcome: &ItemOutcome) -> (bool, Option<Stage>) {
    match outcome {
        ItemOutcome::Success { .. } => (true, None),
        ItemOutcome::Failure { stage, .. } => (false, Some(*stage)),
    }
}

#[test]
fn successful_item_uploads_under_derived_key() {
    let mut files = HashMap::new();
    files.insert(b"tree/a.png".to_vec(), sample_png());
    let mut store = FakeStore::accepting();
    let outcome = run_item(b"tree/a.png", &mut files, &mut store);
    match outcome {
        ItemOutcome::Success { key } => assert_eq!(key, b"a.webp".to_vec()),
        other => panic!("expected success, got {other:?}"),
    }
    assert_eq!(store.attempts, 1);
    assert!(store.objects.contains_key(&b"a.webp".to_vec()));
    // The artifact was written next to the source and the source kept.
    assert!(files.contains_key(&b"tree/a.webp".to_vec()));
    assert_eq!(files[&b"tree/a.png".to_vec()], sample_png());
}

#[test]
fn undecodable_item_never_reaches_the_store() {
    let mut files = HashMap::new();
    files.insert(b"tree/d.png".to_vec(), Vec::new());
    let mut store = FakeStore::accepting();
    let outcome = run_item(b"tree/d.png", &mut files, &mut store);
    match outcome {
        ItemOutcome::Failure { stage, .. } => assert_eq!(stage, Stage::Decode),
        other => panic!("expected a decode failure, got {other:?}"),
    }
    assert_eq!(store.attempts, 0, "no upload attempt may be issued for an undecodable item");
    assert!(!files.contains_key(&b"tree/d.webp".to_vec()), "nothing may be written either");
}

#[test]
fn unreadable_source_never_reaches_the_store() {
    let mut files = HashMap::new();
    let mut store = FakeStore::accepting();
    let outcome = run_item(b"tree/missing.png", &mut files, &mut store);
    assert!(matches!(outcome, ItemOutcome::Failure { stage: Stage::Decode, .. }));
    assert_eq!(store.attempts, 0);
}

#[test]
fn refused_upload_is_a_network_failure() {
    let mut files = HashMap::new();
    files.insert(b"a.png".to_vec(), sample_png());
    let mut store = FakeStore::refusing();
    let outcome = run_item(b"a.png", &mut files, &mut store);
    match outcome {
        ItemOutcome::Failure { stage, cause } => {
            assert_eq!(stage, Stage::NetworkUpload);
            assert_eq!(cause, "connection refused");
        },
        other => panic!("expected a network failure, got {other:?}"),
    }
    assert_eq!(store.attempts, 1);
}

#[test]
fn vanished_artifact_is_a_read_failure() {
    let mut files = HashMap::new();
    files.insert(b"a.png".to_vec(), sample_png());
    let mut store = FakeStore::accepting();
    // Drive by hand, dropping the artifact between the write and the read.
    let (state, action) = item_step(
        ItemState::Pending { path: b"a.png".to_vec() },
        ItemEvent::SourceRead { result: Ok(files[&b"a.png".to_vec()].clone()) },
    );
    assert!(matches!(action, ItemAction::WriteArtifact { .. }));
    let (state, action) = item_step(state, ItemEvent::ArtifactWritten { result: Ok(()) });
    assert!(matches!(action, ItemAction::ReadArtifact { .. }));
    let (_, action) = item_step(
        state,
        ItemEvent::ArtifactRead { result: Err("artifact gone".to_string()) },
    );
    match action {
        ItemAction::Report { outcome: ItemOutcome::Failure { stage, cause } } => {
            assert_eq!(stage, Stage::ReadForUpload);
            assert_eq!(cause, "artifact gone");
        },
        other => panic!("expected a read failure report, got {other:?}"),
    }
    assert_eq!(store.attempts, 0);
}

#[test]
fn failed_write_is_an_encode_failure() {
    let (state, action) = item_step(
        ItemState::Pending { path: b"a.png".to_vec() },
        ItemEvent::SourceRead { result: Ok(sample_png()) },
    );
    assert!(matches!(action, ItemAction::WriteArtifact { .. }));
    let (_, action) = item_step(
        state,
        ItemEvent::ArtifactWritten { result: Err("disk full".to_string()) },
    );
    match action {
        ItemAction::Report { outcome: ItemOutcome::Failure { stage, cause } } => {
            assert_eq!(stage, Stage::Encode);
            assert_eq!(cause, "disk full");
        },
        other => panic!("expected an encode failure report, got {other:?}"),
    }
}

#[test]
fn end_to_end_scenario() {
    // Source tree: a valid png, a text file, a valid jpeg, a zero-byte png.
    let mut files = HashMap::new();
    files.insert(b"tree/a.png".to_vec(), sample_png());
    files.insert(b"tree/b.txt".to_vec(), b"hello".to_vec());
    files.insert(b"tree/c.jpg".to_vec(), sample_jpeg());
    files.insert(b"tree/d.png".to_vec(), Vec::new());

    let mut all: Vec<Vec<u8>> = files.keys().cloned().collect();
    all.sort();
    let sources = select_sources(&all);
    assert_eq!(
        sources,
        vec![b"tree/a.png".to_vec(), b"tree/c.jpg".to_vec(), b"tree/d.png".to_vec()],
        "the text file is excluded by the scanner's filter"
    );

    let mut store = FakeStore::accepting();
    let mut outcomes = Vec::new();
    for source in &sources {
        outcomes.push(run_item(source, &mut files, &mut store));
    }

    assert!(matches!(&outcomes[0], ItemOutcome::Success { key } if key == &b"a.webp".to_vec()));
    assert!(matches!(&outcomes[1], ItemOutcome::Success { key } if key == &b"c.webp".to_vec()));
    assert!(matches!(&outcomes[2], ItemOutcome::Failure { stage: Stage::Decode, .. }));

    let summary = summarize(&outcomes, 17);
    assert_eq!(summary.successes, 2);
    assert_eq!(summary.failures, 1);
    assert_eq!(summary.elapsed_ms, 17);
    assert_eq!(store.attempts, 2);
}

#[test]
fn running_the_batch_twice_classifies_identically() {
    let mut files = HashMap::new();
    files.insert(b"t/a.png".to_vec(), sample_png());
    files.insert(b"t/c.jpg".to_vec(), sample_jpeg());
    files.insert(b"t/d.png".to_vec(), b"corrupt".to_vec());
    let sources = vec![b"t/a.png".to_vec(), b"t/c.jpg".to_vec(), b"t/d.png".to_vec()];

    let mut store = FakeStore::accepting();
    let mut first = Vec::new();
    let mut second = Vec::new();
    for source in &sources {
        first.push(run_item(source, &mut files, &mut store));
    }
    for source in &sources {
        second.push(run_item(source, &mut files, &mut store));
    }
    for (a, b) in first.iter().zip(second.iter()) {
        assert_eq!(classify(a), classify(b));
    }
    let s1 = summarize(&first, 0);
    let s2 = summarize(&second, 0);
    assert_eq!((s1.successes, s1.failures), (s2.successes, s2.failures));
}

#[test]
fn one_item_and_a_thousand_items_stay_isolated() {
    let png = sample_png();

    // One item alone.
    let mut files = HashMap::new();
    files.insert(b"solo/p0.png".to_vec(), png.clone());
    let mut store = FakeStore::accepting();
    let solo = run_item(b"solo/p0.png", &mut files, &mut store);
    assert!(matches!(&solo, ItemOutcome::Success { key } if key == &b"p0.webp".to_vec()));

    // A thousand items, each with its own name.
    let mut files = HashMap::new();
    let mut sources = Vec::new();
    for i in 0..1000 {
        let path = format!("many/p{i}.png").into_bytes();
        files.insert(path.clone(), png.clone());
        sources.push(path);
    }
    let mut store = FakeStore::accepting();
    let mut outcomes = Vec::new();
    for source in &sources {
        outcomes.push(run_item(source, &mut files, &mut store));
    }

    let summary = summarize(&outcomes, 0);
    assert_eq!(summary.successes, 1000);
    assert_eq!(summary.failures, 0);

    // Every outcome's key is unique and traceable to exactly its input path.
    let mut seen = std::collections::HashSet::new();
    for (i, outcome) in outcomes.iter().enumerate() {
        match outcome {
            ItemOutcome::Success { key } => {
                assert_eq!(key, &format!("p{i}.webp").into_bytes());
                assert!(seen.insert(key.clone()), "keys must be unique");
            },
            other => panic!("expected success, got {other:?}"),
        }
    }
    assert_eq!(store.objects.len(), 1000);
}

#[test]
fn summary_counts_add_up() {
    let outcomes = vec![
        ItemOutcome::Success { key: b"a.webp".to_vec() },
        ItemOutcome::Failure { stage: Stage::Decode, cause: "bad".to_string() },
        ItemOutcome::Failure { stage: Stage::NetworkUpload, cause: "down".to_string() },
        ItemOutcome::Success { key: b"b.webp".to_vec() },
    ];
    let summary = summarize(&outcomes, 250);
    assert_eq!(summary.successes, 2);
    assert_eq!(summary.failures, 2);
    assert_eq!(summary.elapsed_ms, 250);
}

#[test]
fn summary_of_nothing_is_empty() {
    let summary = summarize(&Vec::new(), 3);
    assert_eq!(summary.successes, 0);
    assert_eq!(summary.failures, 0);
}
