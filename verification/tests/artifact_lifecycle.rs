use pixi_build_backend::artifact::{FileStore, TempArtifact};

#[test]
fn artifact_file_exists_while_live() {
    let mut store = FileStore::new();
    let artifact = TempArtifact::acquire(&mut store, &"/work".to_string(), "recipe: demo".to_string());
    assert_eq!(artifact.path(), "/work/recipe.yaml");
    assert!(store.contains_path(&"/work/recipe.yaml".to_string()));
}

#[test]
fn artifact_removed_after_success() {
    let mut store = FileStore::new();
    let artifact = TempArtifact::acquire(&mut store, &"/work".to_string(), "recipe: demo".to_string());
    let kept = artifact.complete(&mut store, true);
    assert_eq!(kept, None);
    assert!(!store.contains_path(&"/work/recipe.yaml".to_string()));
}

#[test]
fn artifact_kept_after_failure() {
    let mut store = FileStore::new();
    let artifact = TempArtifact::acquire(&mut store, &"/work".to_string(), "recipe: demo".to_string());
    let kept = artifact.complete(&mut store, false);
    // the file still exists and its path is recoverable for diagnosis.
    assert_eq!(kept, Some("/work/recipe.yaml".to_string()));
    assert!(store.contains_path(&"/work/recipe.yaml".to_string()));
}

#[test]
fn other_files_survive_release() {
    let mut store = FileStore::new();
    store.write("/work/other.txt".to_string(), "keep me".to_string());
    let artifact = TempArtifact::acquire(&mut store, &"/work".to_string(), "recipe: demo".to_string());
    artifact.complete(&mut store, true);
    assert!(store.contains_path(&"/work/other.txt".to_string()));
    assert!(!store.contains_path(&"/work/recipe.yaml".to_string()));
}
