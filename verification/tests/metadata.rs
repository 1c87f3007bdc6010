//! Extension-metadata decoding and CRS projections, exercised end to end
//! through the real JSON parser.

use sedona_types::crs::{parse_extension_metadata, CrsIdentity, DecodeError, ResolveError};

#[test]
fn absent_crs_key_is_none() {
    let r = parse_extension_metadata("{}");
    assert!(matches!(r, Ok(None)));
}

#[test]
fn null_crs_is_none() {
    let r = parse_extension_metadata("{\"crs\": null}");
    assert!(matches!(r, Ok(None)));
}

#[test]
fn non_object_metadata_has_no_crs_member() {
    let r = parse_extension_metadata("[1, 2, 3]");
    assert!(matches!(r, Ok(None)));
}

#[test]
fn malformed_metadata_is_an_error() {
    let r = parse_extension_metadata("{not json");
    assert!(matches!(r, Err(DecodeError::MalformedMetadata)));
    let r2 = parse_extension_metadata("");
    assert!(matches!(r2, Err(DecodeError::MalformedMetadata)));
}

#[test]
fn present_invalid_crs_is_invalid_not_none() {
    for text in [
        "{\"crs\": 7}",
        "{\"crs\": true}",
        "{\"crs\": [1]}",
        "{\"crs\": 2.5}",
    ] {
        let r = parse_extension_metadata(text);
        assert!(matches!(r, Err(DecodeError::InvalidCrs)), "{}", text);
    }
}

fn parse_some(text: &str) -> CrsIdentity {
    match parse_extension_metadata(text) {
        Ok(Some(id)) => id,
        other => panic!("expected an identity from {}: {:?}", text, other.is_ok()),
    }
}

#[test]
fn bare_authority_code_round_trips() {
    let id = parse_some("{\"crs\": \"EPSG:3857\"}");
    assert_eq!(id.authority_code(), Ok(Some("EPSG:3857".to_string())));
    assert_eq!(id.srid(), Ok(Some(3857)));
}

#[test]
fn bare_wgs84_code() {
    let id = parse_some("{\"crs\": \"EPSG:4326\"}");
    assert_eq!(id.authority_code(), Ok(Some("EPSG:4326".to_string())));
    assert_eq!(id.srid(), Ok(Some(4326)));
    assert_eq!(id.display(), "EPSG:4326");
    assert_eq!(id.to_json(), "\"EPSG:4326\"");
}

#[test]
fn non_numeric_authority_has_no_srid() {
    let id = parse_some("{\"crs\": \"OGC:CRS84\"}");
    assert_eq!(id.authority_code(), Ok(Some("OGC:CRS84".to_string())));
    assert_eq!(id.srid(), Ok(None));
}

#[test]
fn unrecognizable_bare_string_is_kept_without_authority() {
    let id = parse_some("{\"crs\": \"no-colon-here\"}");
    assert_eq!(id.authority_code(), Ok(None));
    assert_eq!(id.srid(), Ok(None));
    assert_eq!(id.display(), "no-colon-here");
    let id2 = parse_some("{\"crs\": \"urn:ogc:def:crs\"}");
    assert_eq!(id2.authority_code(), Ok(None));
}

#[test]
fn structured_definition_with_id_resolves_authority() {
    let id = parse_some(
        "{\"crs\": {\"name\": \"WGS 84\", \"id\": {\"authority\": \"EPSG\", \"code\": 4326}}}",
    );
    assert_eq!(id.authority_code(), Ok(Some("EPSG:4326".to_string())));
    assert_eq!(id.srid(), Ok(Some(4326)));
    assert_eq!(id.display_name(), Some("WGS 84".to_string()));
    assert_eq!(id.display(), "EPSG:4326");
}

#[test]
fn structured_definition_with_text_code() {
    let id = parse_some("{\"crs\": {\"id\": {\"authority\": \"OGC\", \"code\": \"CRS84\"}}}");
    assert_eq!(id.authority_code(), Ok(Some("OGC:CRS84".to_string())));
    assert_eq!(id.srid(), Ok(None));
}

#[test]
fn structured_definition_without_id_is_unrecognized_but_kept() {
    let id = parse_some("{\"crs\": {\"name\": \"Custom\"}}");
    assert_eq!(id.authority_code(), Ok(None));
    assert_eq!(id.srid(), Ok(None));
    assert_eq!(id.display_name(), Some("Custom".to_string()));
    assert_eq!(id.display(), "Custom");
    assert_eq!(id.to_json(), "{\"name\":\"Custom\"}");
}

#[test]
fn empty_structured_definition_is_an_identity_not_none() {
    let id = parse_some("{\"crs\": {}}");
    assert_eq!(id.authority_code(), Ok(None));
    assert_eq!(id.srid(), Ok(None));
    assert_eq!(id.to_json(), "{}");
}

#[test]
fn inconsistent_id_member_fails_resolution() {
    let id = parse_some("{\"crs\": {\"id\": {\"authority\": \"EPSG\"}}}");
    assert_eq!(
        id.authority_code(),
        Err(ResolveError::InconsistentDefinition)
    );
    assert_eq!(id.srid(), Err(ResolveError::InconsistentDefinition));

    let id2 = parse_some("{\"crs\": {\"id\": 12}}");
    assert_eq!(
        id2.authority_code(),
        Err(ResolveError::InconsistentDefinition)
    );

    let id3 = parse_some("{\"crs\": {\"id\": {\"authority\": \"EPSG\", \"code\": -1}}}");
    assert_eq!(
        id3.authority_code(),
        Err(ResolveError::InconsistentDefinition)
    );

    let id4 = parse_some("{\"crs\": {\"id\": {\"authority\": \"A:B\", \"code\": 1}}}");
    assert_eq!(
        id4.authority_code(),
        Err(ResolveError::InconsistentDefinition)
    );
}

#[test]
fn canonical_json_round_trips_authority_and_srid() {
    for text in [
        "{\"crs\": \"EPSG:3857\"}",
        "{\"crs\": \"just text\"}",
        "{\"crs\": {\"name\": \"WGS 84\", \"id\": {\"authority\": \"EPSG\", \"code\": 4326}}}",
        "{\"crs\": {\"name\": \"Custom\"}}",
        "{\"crs\": {}}",
    ] {
        let id = parse_some(text);
        let wrapped = format!("{{\"crs\": {}}}", id.to_json());
        let id2 = parse_some(&wrapped);
        assert_eq!(id.authority_code(), id2.authority_code(), "{}", text);
        assert_eq!(id.srid(), id2.srid(), "{}", text);
    }
}

#[test]
fn canonical_json_of_resolved_structured_is_the_shorthand() {
    let id = parse_some("{\"crs\": {\"id\": {\"authority\": \"EPSG\", \"code\": 3857}}}");
    assert_eq!(id.to_json(), "\"EPSG:3857\"");
}

#[test]
fn empty_authority_or_code_is_not_an_authority_code() {
    for text in [
        "{\"crs\": \"EPSG:\"}",
        "{\"crs\": \":4326\"}",
        "{\"crs\": \":\"}",
        "{\"crs\": \"A:B:C\"}",
    ] {
        let id = parse_some(text);
        assert_eq!(id.authority_code(), Ok(None), "{}", text);
        assert_eq!(id.srid(), Ok(None), "{}", text);
    }
}

#[test]
fn srid_beyond_machine_range_is_not_recognized() {
    let id = parse_some("{\"crs\": \"EPSG:9223372036854775807\"}");
    assert_eq!(id.srid(), Ok(Some(9223372036854775807)));
    let id2 = parse_some("{\"crs\": \"EPSG:9223372036854775808\"}");
    assert_eq!(
        id2.authority_code(),
        Ok(Some("EPSG:9223372036854775808".to_string()))
    );
    assert_eq!(id2.srid(), Ok(None));
}

#[test]
fn non_digit_code_of_numeric_authority_has_no_srid() {
    let id = parse_some("{\"crs\": \"EPSG:4326a\"}");
    assert_eq!(id.authority_code(), Ok(Some("EPSG:4326a".to_string())));
    assert_eq!(id.srid(), Ok(None));
}

#[test]
fn name_does_not_affect_authority_resolution() {
    let with_name =
        parse_some("{\"crs\": {\"name\": \"anything\", \"id\": {\"authority\": \"EPSG\", \"code\": 9}}}");
    let without = parse_some("{\"crs\": {\"id\": {\"authority\": \"EPSG\", \"code\": 9}}}");
    assert_eq!(with_name.authority_code(), without.authority_code());
    assert_eq!(with_name.srid(), without.srid());
}
