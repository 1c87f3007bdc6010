//! Engine configuration and the engine-facing string form.

use sedona_types::crs::{parse_extension_metadata, CrsIdentity};
use sedona_types::engine::{options_from_paths, EngineError, EngineState, ProjEngineOptions};

fn parse_id(text: &str) -> CrsIdentity {
    match parse_extension_metadata(text) {
        Ok(Some(id)) => id,
        _ => panic!("expected an identity from {}", text),
    }
}

#[test]
fn engine_string_fails_without_configuration() {
    let id = parse_id("{\"crs\": \"EPSG:4326\"}");
    let state = EngineState::new();
    assert_eq!(id.to_crs_string(&state), Err(EngineError::NotConfigured));
}

#[test]
fn engine_string_of_authority_code_is_the_shorthand() {
    let id = parse_id("{\"crs\": {\"id\": {\"authority\": \"EPSG\", \"code\": 4326}}}");
    let mut state = EngineState::new();
    state.configure(options_from_paths(None, None, None));
    assert_eq!(id.to_crs_string(&state), Ok("EPSG:4326".to_string()));
}

#[test]
fn engine_string_of_custom_definition_is_its_json() {
    let id = parse_id("{\"crs\": {\"name\": \"Custom\"}}");
    let mut state = EngineState::new();
    state.configure(options_from_paths(Some("/usr/lib/libproj.so"), None, None));
    assert_eq!(id.to_crs_string(&state), Ok("{\"name\":\"Custom\"}".to_string()));
}

#[test]
fn engine_string_of_inconsistent_definition_is_a_hard_failure() {
    let id = parse_id("{\"crs\": {\"id\": {\"authority\": \"EPSG\"}}}");
    let mut state = EngineState::new();
    state.configure(options_from_paths(None, None, None));
    assert_eq!(
        id.to_crs_string(&state),
        Err(EngineError::UnrecognizedIdentity)
    );
}

#[test]
fn reconfiguration_wins() {
    let mut state = EngineState::new();
    state.configure(options_from_paths(Some("/a"), None, None));
    state.configure(options_from_paths(None, Some("/b/proj.db"), Some("/c")));
    let installed = state.installed.as_ref().expect("a configuration");
    assert!(installed.shared_library_path.is_none());
    assert_eq!(installed.database_path.as_deref(), Some("/b/proj.db"));
    assert_eq!(installed.search_paths, vec!["/c".to_string()]);
}

#[test]
fn options_builders_set_each_path() {
    let o = ProjEngineOptions::new()
        .with_shared_library("/lib/libproj.so".to_string())
        .with_database_path("/share/proj.db".to_string())
        .with_search_paths(vec!["/share/proj".to_string()]);
    assert_eq!(o.shared_library_path.as_deref(), Some("/lib/libproj.so"));
    assert_eq!(o.database_path.as_deref(), Some("/share/proj.db"));
    assert_eq!(o.search_paths.len(), 1);
}
