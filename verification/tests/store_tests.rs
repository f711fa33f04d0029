use ressources::error::RessourceError;
use ressources::folder_ressource::{FolderListing, FolderRessource, FolderRessourceError};
use ressources::meta::MetaRessource;
use ressources::path::RessourcePath;
use ressources::ressource::{
    CreateOutcome, CreateSession, ParentOutcome, Ressource, Ressources,
};
use ressources::text_ressource::TextRessource;
use ressources::traits::{ReadableRessourceError, RessourceType, WritableRessourceError};

fn rt() -> tokio::runtime::Runtime {
    tokio::runtime::Builder::new_current_thread().enable_all().build().unwrap()
}

fn path_of(root: &str, ids: &[&str]) -> RessourcePath {
    let store = Ressources { root: root.to_string() };
    store.path(ids.iter().map(|s| s.to_string()).collect())
}

async fn fresh_root(root: &str) {
    let _ = tokio::fs::remove_dir_all(root).await;
    tokio::fs::create_dir_all(root).await.unwrap();
}

async fn read_listing(dir: &str) -> FolderListing {
    let mut stream = match tokio::fs::read_dir(dir).await {
        Ok(s) => s,
        Err(e) => return FolderListing::OpenError(e.to_string()),
    };
    let mut entries: Vec<Result<String, String>> = Vec::new();
    loop {
        match stream.next_entry().await {
            Err(e) => return FolderListing::EntryError(e.to_string()),
            Ok(None) => break,
            Ok(Some(entry)) => match entry.file_name().into_string() {
                Ok(name) => entries.push(Ok(name)),
                Err(bad) => entries.push(Err(bad.to_string_lossy().into_owned())),
            },
        }
    }
    FolderListing::Entries(entries)
}

async fn folder_read_cap(dir: &str) -> Result<FolderRessource, FolderRessourceError> {
    let listing = read_listing(dir).await;
    FolderRessource::read(&dir.to_string(), listing)
}

async fn load_meta<T: RessourceType>(path: &RessourcePath) -> Result<MetaRessource<T>, RessourceError> {
    let file = tokio::fs::read_to_string(path.metadata_path()).await.map_err(|e| e.to_string());
    MetaRessource::<T>::load(path.resolve_into_ressource_path(), file)
}

async fn load_folder(path: &RessourcePath) -> Result<Ressource<FolderRessource>, RessourceError> {
    let meta = load_meta::<FolderRessource>(path).await?;
    let cap = folder_read_cap(&meta.data_path()).await.map_err(|e| e.message());
    Ressource::load(meta, cap)
}

async fn load_text(path: &RessourcePath) -> Result<Ressource<TextRessource>, RessourceError> {
    let meta = load_meta::<TextRessource>(path).await?;
    let cap = tokio::fs::read_to_string(meta.data_path())
        .await
        .map(TextRessource::new)
        .map_err(|e| e.to_string());
    Ressource::load(meta, cap)
}

async fn parent_outcome(parent: &RessourcePath) -> ParentOutcome {
    if parent.path.is_empty() {
        ParentOutcome::Container(folder_read_cap(&parent.resolve()).await)
    } else {
        match load_folder(parent).await {
            Ok(folder) => ParentOutcome::Loaded(folder),
            Err(e) => ParentOutcome::Failed(e),
        }
    }
}

/// Runs one create up to the point where the Writable capability must
/// act, and returns the session together with the declared data path.
async fn create_until_data_write<T: ressources::traits::WritableRessource>(
    path: &RessourcePath,
    data: T,
) -> Result<(CreateSession<T>, String), RessourceError> {
    let session = CreateSession::start(path.resolve_into_ressource_path(), data)?;
    let parent = session.parent_path();
    let session = session.on_parent(parent_outcome(&parent).await)?;
    let request = session.metadata_write_request()?;
    let written =
        tokio::fs::write(&request.path, request.content.as_bytes()).await.map_err(|e| e.to_string());
    let session = session.on_metadata_written(written)?;
    let data_path = session.data_write_path();
    Ok((session, data_path))
}

/// Finishes one create from the Writable capability's outcome,
/// compensating on failure.
async fn finish_create<T: ressources::traits::WritableRessource>(
    session: CreateSession<T>,
    outcome: Result<(), String>,
) -> Result<Ressource<T>, RessourceError> {
    match session.on_data_written(outcome) {
        CreateOutcome::Created(resource) => Ok(resource),
        CreateOutcome::Rollback(rollback) => {
            let deleted =
                tokio::fs::remove_file(&rollback.delete_path).await.map_err(|e| e.to_string());
            Err(rollback.on_deleted(deleted))
        },
    }
}

async fn create_folder(path: &RessourcePath) -> Result<Ressource<FolderRessource>, RessourceError> {
    let (session, dir) =
        create_until_data_write(path, FolderRessource { ressources: Vec::new() }).await?;
    let outcome = tokio::fs::create_dir(&dir).await.map_err(|e| e.to_string());
    finish_create(session, outcome).await
}

async fn create_text(path: &RessourcePath, text: &str) -> Result<Ressource<TextRessource>, RessourceError> {
    let (session, file) =
        create_until_data_write(path, TextRessource::new(text.to_string())).await?;
    let outcome =
        tokio::fs::write(&file, session.data.content.as_bytes()).await.map_err(|e| e.to_string());
    finish_create(session, outcome).await
}

async fn file_present(path: &str) -> bool {
    tokio::fs::metadata(path).await.is_ok()
}

#[test]
fn round_trip_create_then_load() {
    rt().block_on(async {
        let root = "/tmp/ressources_round_trip";
        fresh_root(root).await;
        create_folder(&path_of(root, &["docs"])).await.unwrap();
        let p = path_of(root, &["docs", "note"]);
        create_text(&p, "hello there").await.unwrap();
        let loaded = load_text(&p).await.unwrap();
        assert_eq!(loaded.data.content, "hello there");
        assert_eq!(loaded.meta.metadata.type_id, "core/text");
        assert_eq!(loaded.meta.metadata.id, "note");
    });
}

#[test]
fn type_mismatch_is_detected_and_files_are_untouched() {
    rt().block_on(async {
        let root = "/tmp/ressources_mismatch";
        fresh_root(root).await;
        create_folder(&path_of(root, &["docs"])).await.unwrap();
        let p = path_of(root, &["docs", "note"]);
        create_text(&p, "hi").await.unwrap();
        let meta_before = tokio::fs::read_to_string(p.metadata_path()).await.unwrap();
        let data_before = tokio::fs::read_to_string(p.data_path("txt")).await.unwrap();
        let r = load_folder(&p).await;
        assert!(matches!(
            r,
            Err(RessourceError::TypeMismatch { ressource_type, expected_type, .. })
                if ressource_type == "core/text" && expected_type == "core/folder"
        ));
        assert_eq!(tokio::fs::read_to_string(p.metadata_path()).await.unwrap(), meta_before);
        assert_eq!(tokio::fs::read_to_string(p.data_path("txt")).await.unwrap(), data_before);
    });
}

#[test]
fn create_at_root_fails_and_writes_nothing() {
    rt().block_on(async {
        let root = "/tmp/ressources_at_root";
        fresh_root(root).await;
        let r = create_text(&path_of(root, &[]), "hi").await;
        assert!(matches!(r, Err(RessourceError::RessourceAtRoot { .. })));
        match read_listing(root).await {
            FolderListing::Entries(entries) => assert!(entries.is_empty()),
            _ => panic!("root directory should be readable"),
        }
    });
}

#[test]
fn missing_parent_rejects_the_create_and_leaves_no_files() {
    rt().block_on(async {
        let root = "/tmp/ressources_no_parent";
        fresh_root(root).await;
        let p = path_of(root, &["x", "y"]);
        let r = create_text(&p, "hi").await;
        assert!(matches!(r, Err(RessourceError::ParentRessource { .. })));
        assert!(!file_present(&p.metadata_path()).await);
        assert!(!file_present(&p.data_path("txt")).await);
        match read_listing(root).await {
            FolderListing::Entries(entries) => assert!(entries.is_empty()),
            _ => panic!("root directory should be readable"),
        }
    });
}

#[test]
fn invalid_parent_rejects_the_create() {
    rt().block_on(async {
        let root = "/tmp/ressources_bad_parent";
        fresh_root(root).await;
        // A text resource is not a folder: creating under it must fail.
        create_folder(&path_of(root, &["docs"])).await.unwrap();
        create_text(&path_of(root, &["docs", "note"]), "hi").await.unwrap();
        let r = create_text(&path_of(root, &["docs", "note", "child"]), "x").await;
        assert!(matches!(r, Err(RessourceError::ParentRessource { .. })));
    });
}

#[test]
fn rollback_leaves_no_residue() {
    rt().block_on(async {
        let root = "/tmp/ressources_rollback";
        fresh_root(root).await;
        create_folder(&path_of(root, &["docs"])).await.unwrap();
        let p = path_of(root, &["docs", "note"]);
        let (session, _file) =
            create_until_data_write(&p, TextRessource::new("hi".to_string())).await.unwrap();
        let r = finish_create(session, Err("capability refused to write".to_string())).await;
        match r {
            Err(RessourceError::WriteDataError(e)) => {
                assert_eq!(e.error, "capability refused to write");
                assert_eq!(e.ressource_type, "core/text");
            },
            other => panic!("expected the original write-data error, got ok={}", other.is_ok()),
        }
        // The compensating deletion ran: the sidecar is gone, so a load
        // now fails at the metadata-IO step.
        assert!(!file_present(&p.metadata_path()).await);
        let r = load_text(&p).await;
        assert!(matches!(r, Err(RessourceError::MetadataIO { .. })));
    });
}

#[test]
fn failed_rollback_surfaces_both_causes() {
    let p = path_of("/tmp/unused", &["docs", "note"]);
    let session =
        CreateSession::start(p, TextRessource::new("hi".to_string())).unwrap();
    let session = session
        .on_parent(ParentOutcome::Loaded(Ressource {
            data: FolderRessource { ressources: Vec::new() },
            meta: MetaRessource::<FolderRessource>::new(path_of("/tmp/unused", &["docs"]))
                .unwrap(),
        }))
        .unwrap();
    let session = session.on_metadata_written(Ok(())).unwrap();
    match session.on_data_written(Err("no space".to_string())) {
        CreateOutcome::Rollback(rollback) => {
            let e = rollback.on_deleted(Err("still busy".to_string()));
            match e {
                RessourceError::DeleteMetadataError { data_error, error } => {
                    assert_eq!(data_error.error, "no space");
                    assert_eq!(error, "still busy");
                },
                _ => panic!("expected the bundled compensation failure"),
            }
        },
        CreateOutcome::Created(_) => panic!("the data write failed"),
    }
}

#[test]
fn failed_metadata_write_is_terminal() {
    let p = path_of("/tmp/unused", &["docs", "note"]);
    let session = CreateSession::start(p, TextRessource::new("hi".to_string())).unwrap();
    let session = session
        .on_parent(ParentOutcome::Loaded(Ressource {
            data: FolderRessource { ressources: Vec::new() },
            meta: MetaRessource::<FolderRessource>::new(path_of("/tmp/unused", &["docs"]))
                .unwrap(),
        }))
        .unwrap();
    let _request = session.metadata_write_request().unwrap();
    let r = session.on_metadata_written(Err("read-only filesystem".to_string()));
    assert!(matches!(
        r,
        Err(RessourceError::WriteMetadataIO { error, .. }) if error == "read-only filesystem"
    ));
}

#[test]
fn failed_root_container_check_wraps_the_folder_error() {
    let p = path_of("R", &["docs"]);
    let session = CreateSession::start(p, TextRessource::new("hi".to_string())).unwrap();
    let r = session.on_parent(ParentOutcome::Container(Err(FolderRessourceError::NotAFolder {
        path: "R".to_string(),
    })));
    match r {
        Err(RessourceError::ParentRessource { folder_error, .. }) => match *folder_error {
            RessourceError::InvalidData { ressource_type, error, .. } => {
                assert_eq!(ressource_type, "core/folder");
                assert_eq!(error, "FolderRessource: Not a folder at R");
            },
            _ => panic!("expected the folder failure wrapped as invalid data"),
        },
        _ => panic!("expected a parent-resource error"),
    }
}

#[test]
fn enumeration_returns_exactly_the_sidecar_stems() {
    rt().block_on(async {
        let root = "/tmp/ressources_enumeration";
        fresh_root(root).await;
        tokio::fs::write(format!("{root}/p.meta.json"), b"x").await.unwrap();
        tokio::fs::write(format!("{root}/q.meta.json"), b"x").await.unwrap();
        tokio::fs::write(format!("{root}/unrelated.txt"), b"x").await.unwrap();
        tokio::fs::create_dir(format!("{root}/p.data")).await.unwrap();
        let folder = folder_read_cap(root).await.unwrap();
        let mut ids = folder.ressources.clone();
        ids.sort();
        assert_eq!(ids, vec!["p".to_string(), "q".to_string()]);
    });
}

#[test]
fn concrete_scenario_folder_then_text() {
    rt().block_on(async {
        let root = "/tmp/ressources_scenario";
        fresh_root(root).await;

        let docs = path_of(root, &["docs"]);
        create_folder(&docs).await.unwrap();
        assert!(file_present(&format!("{root}/docs.meta.json")).await);
        assert!(file_present(&format!("{root}/docs.data")).await);
        let loaded = load_folder(&docs).await.unwrap();
        assert_eq!(loaded.meta.metadata.type_id, "core/folder");

        let note = path_of(root, &["docs", "note"]);
        create_text(&note, "hi").await.unwrap();
        assert!(file_present(&format!("{root}/docs.data/note.meta.json")).await);
        let stored = tokio::fs::read_to_string(format!("{root}/docs.data/note.data.txt"))
            .await
            .unwrap();
        assert_eq!(stored, "hi");

        let loaded = load_text(&note).await.unwrap();
        assert_eq!(loaded.data.content, "hi");
        let mismatch = load_folder(&note).await;
        assert!(matches!(mismatch, Err(RessourceError::TypeMismatch { .. })));

        // The folder now enumerates its one child.
        let folder = load_folder(&docs).await.unwrap();
        assert_eq!(folder.data.ressources, vec!["note".to_string()]);
    });
}

#[test]
fn capability_read_failure_is_wrapped_as_invalid_data() {
    rt().block_on(async {
        let root = "/tmp/ressources_invalid_data";
        fresh_root(root).await;
        create_folder(&path_of(root, &["docs"])).await.unwrap();
        let p = path_of(root, &["docs", "note"]);
        create_text(&p, "hi").await.unwrap();
        // Remove the payload so the Readable capability fails.
        tokio::fs::remove_file(p.data_path("txt")).await.unwrap();
        let r = load_text(&p).await;
        match r {
            Err(RessourceError::InvalidData { ressource_type, .. }) => {
                assert_eq!(ressource_type, "core/text");
            },
            _ => panic!("expected an invalid-data error"),
        }
    });
}

#[test]
fn capability_errors_fold_into_the_taxonomy() {
    let readable = ReadableRessourceError::ReadableRessourceError {
        ressource_type: "core/text".to_string(),
        readable_error: "bad payload".to_string(),
        ressource_path: path_of("R", &["note"]),
        path: "R/note".to_string(),
    };
    let e = RessourceError::from(readable);
    assert!(matches!(
        e,
        RessourceError::InvalidData { ressource_type, error, .. }
            if ressource_type == "core/text" && error == "bad payload"
    ));

    let writable = WritableRessourceError::WriteData {
        ressource_type: "core/text".to_string(),
        ressource_path: path_of("R", &["note"]),
        path: "R/note".to_string(),
        writable_error: "disk full".to_string(),
    };
    let e = RessourceError::from(writable);
    assert!(matches!(
        e,
        RessourceError::WriteDataError(inner) if inner.error == "disk full"
    ));

    let wrapped = ReadableRessourceError::from(RessourceError::RessourceAtRoot {
        path: "R".to_string(),
        ressource_path: path_of("R", &[]),
    });
    let e = RessourceError::from(wrapped);
    assert!(matches!(e, RessourceError::RessourceAtRoot { .. }));
}
