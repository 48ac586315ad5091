use pixi_build_backend::backend::BackendFactory;
use pixi_build_backend::deps::DepSet;
use pixi_build_backend::error::{INVALID_REQUEST_CODE, SERVER_ERROR_CODE};
use pixi_build_backend::manifest::{Manifest, PhaseDeps};
use pixi_build_backend::platform::Platform;
use pixi_build_backend::recipe::EcosystemPolicy;
use pixi_build_backend::server::{Server, ServerState, handle_initialize};

fn demo_manifest(name: Option<&str>) -> Manifest {
    Manifest {
        name: name.map(|s| s.to_string()),
        version: None,
        channels: vec![],
        platforms: vec![Platform::Linux64],
        root_dir: "/proj".to_string(),
        base: PhaseDeps { build: DepSet::new(), host: DepSet::new(), run: DepSet::new() },
        targets: vec![],
    }
}

#[test]
fn request_before_initialize_is_invalid() {
    let server = Server::new(BackendFactory { policy: EcosystemPolicy::Python });
    let err = server.state.as_protocol().unwrap_err();
    assert_eq!(err.code, INVALID_REQUEST_CODE);
    assert_eq!(err.message, "Invalid request");
}

#[test]
fn initialize_then_dispatch() {
    let mut state = ServerState::Uninitialized(BackendFactory { policy: EcosystemPolicy::Python });
    let result = handle_initialize(&mut state, Ok(demo_manifest(Some("demo"))), None).unwrap();
    assert_eq!(result.capabilities.provides_conda_metadata, Some(true));
    assert_eq!(result.capabilities.provides_conda_build, Some(true));
    let backend = state.as_protocol().unwrap();
    assert_eq!(backend.manifest.name, Some("demo".to_string()));
}

#[test]
fn second_initialize_always_fails() {
    let mut state = ServerState::Uninitialized(BackendFactory { policy: EcosystemPolicy::Python });
    handle_initialize(&mut state, Ok(demo_manifest(Some("demo"))), None).unwrap();
    // interleave read-only dispatches between the two initialize calls.
    for _ in 0..5 {
        assert!(state.as_protocol().is_ok());
    }
    let err = handle_initialize(&mut state, Ok(demo_manifest(Some("other"))), None).unwrap_err();
    assert_eq!(err.code, INVALID_REQUEST_CODE);
    // the backend is unchanged: still the first manifest.
    assert_eq!(state.as_protocol().unwrap().manifest.name, Some("demo".to_string()));
}

#[test]
fn initialize_with_unloadable_manifest_fails_and_stays_usable() {
    let mut state = ServerState::Uninitialized(BackendFactory { policy: EcosystemPolicy::Python });
    let err =
        handle_initialize(&mut state, Err("no such file".to_string()), None).unwrap_err();
    assert_eq!(err.code, SERVER_ERROR_CODE);
    assert_eq!(err.message, "failed to parse manifest: no such file");
    // the connection remains usable: a later initialize succeeds.
    handle_initialize(&mut state, Ok(demo_manifest(Some("demo"))), None).unwrap();
    assert!(state.as_protocol().is_ok());
}

#[test]
fn initialize_without_name_fails() {
    let mut state = ServerState::Uninitialized(BackendFactory { policy: EcosystemPolicy::CMake });
    let err = handle_initialize(&mut state, Ok(demo_manifest(None)), None).unwrap_err();
    assert_eq!(err.code, SERVER_ERROR_CODE);
    assert_eq!(err.message, "a 'name' field is required in the project manifest");
    assert!(state.as_protocol().is_err());
}

#[test]
fn initialize_carries_cache_directory() {
    let mut state = ServerState::Uninitialized(BackendFactory { policy: EcosystemPolicy::CMake });
    handle_initialize(
        &mut state,
        Ok(demo_manifest(Some("demo"))),
        Some("/cache".to_string()),
    )
    .unwrap();
    assert_eq!(state.as_protocol().unwrap().cache_dir, Some("/cache".to_string()));
}
