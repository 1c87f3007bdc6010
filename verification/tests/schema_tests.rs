//! Logical-type classification of schema fields.

use sedona_types::crs::DecodeError;
use sedona_types::schema::{resolve, LogicalType, QueryError, ResolvedColumn, SchemaField};

fn field(
    name: &str,
    storage: &str,
    extension_name: Option<&str>,
    extension_metadata: Option<&str>,
) -> SchemaField {
    SchemaField {
        name: name.to_string(),
        storage: storage.to_string(),
        extension_name: extension_name.map(|s| s.to_string()),
        extension_metadata: extension_metadata.map(|s| s.to_string()),
    }
}

fn resolve_ok(f: &SchemaField) -> ResolvedColumn {
    match resolve(f) {
        Ok(c) => c,
        Err(e) => panic!("expected a classification, got {:?}", e),
    }
}

#[test]
fn plain_text_storage_is_a_scalar() {
    let c = resolve_ok(&field("city", "utf8", None, None));
    assert_eq!(c.logical_type_name(), "utf8");
    assert_eq!(c.name(), "city");
    assert!(matches!(c.crs(), Err(QueryError::NotGeospatial)));
    assert_eq!(c.crs_display(), "");
}

#[test]
fn scalar_keeps_the_storage_tag_verbatim() {
    let c = resolve_ok(&field("n", "int32", None, None));
    assert_eq!(c.logical_type_name(), "int32");
    assert!(matches!(c.logical, LogicalType::Scalar(_)));
}

#[test]
fn geometry_with_crs_metadata() {
    let c = resolve_ok(&field(
        "geom",
        "binary",
        Some("geoarrow.wkb"),
        Some("{\"crs\": \"EPSG:4326\"}"),
    ));
    assert_eq!(c.logical_type_name(), "geometry");
    let crs = c.crs().expect("geometry with a CRS");
    assert_eq!(crs.authority_code(), Ok(Some("EPSG:4326".to_string())));
    assert_eq!(crs.srid(), Ok(Some(4326)));
    assert_eq!(c.crs_display(), " (CRS: EPSG:4326)");
}

#[test]
fn geometry_with_empty_metadata_has_no_crs() {
    let c = resolve_ok(&field("geom", "binary", Some("geoarrow.wkb"), Some("{}")));
    assert_eq!(c.logical_type_name(), "geometry");
    assert!(matches!(c.logical, LogicalType::Geometry(_, None)));
    assert!(matches!(c.crs(), Err(QueryError::NoCrs)));
    assert_eq!(c.crs_display(), "");
}

#[test]
fn geometry_without_metadata_has_no_crs() {
    let c = resolve_ok(&field("geom", "binary", Some("geoarrow.wkb"), None));
    assert_eq!(c.logical_type_name(), "geometry");
    assert!(matches!(c.crs(), Err(QueryError::NoCrs)));
}

#[test]
fn spherical_edges_make_geography() {
    let c = resolve_ok(&field(
        "globe",
        "binary",
        Some("geoarrow.wkb"),
        Some("{\"edges\": \"spherical\", \"crs\": \"EPSG:4326\"}"),
    ));
    assert_eq!(c.logical_type_name(), "geography");
    let crs = c.crs().expect("geography with a CRS");
    assert_eq!(crs.srid(), Ok(Some(4326)));
}

#[test]
fn planar_edges_stay_geometry() {
    let c = resolve_ok(&field(
        "geom",
        "binary",
        Some("geoarrow.wkb"),
        Some("{\"edges\": \"planar\"}"),
    ));
    assert_eq!(c.logical_type_name(), "geometry");
}

#[test]
fn unknown_edges_are_refused() {
    let r = resolve(&field(
        "geom",
        "binary",
        Some("geoarrow.wkb"),
        Some("{\"edges\": \"curved\"}"),
    ));
    assert!(matches!(r, Err(DecodeError::UnrecognizedExtension)));
}

#[test]
fn view_based_storage_is_preserved_as_a_tag() {
    let c = resolve_ok(&field(
        "geom",
        "binary_view",
        Some("geoarrow.wkb"),
        Some("{\"crs\": \"EPSG:3857\"}"),
    ));
    assert_eq!(c.logical_type_name(), "geometry");
    match &c.logical {
        LogicalType::Geometry(enc, Some(_)) => {
            assert_eq!(format!("{:?}", enc), "WkbView");
        }
        _ => panic!("unexpected classification"),
    }
}

#[test]
fn geospatial_storage_without_marker_is_refused() {
    let r = resolve(&field("blob", "binary", None, None));
    assert!(matches!(r, Err(DecodeError::UnrecognizedExtension)));
    let r2 = resolve(&field("blob", "binary", Some("someone.else"), None));
    assert!(matches!(r2, Err(DecodeError::UnrecognizedExtension)));
}

#[test]
fn metadata_errors_propagate_through_classification() {
    let r = resolve(&field("geom", "binary", Some("geoarrow.wkb"), Some("{oops")));
    assert!(matches!(r, Err(DecodeError::MalformedMetadata)));
    let r2 = resolve(&field(
        "geom",
        "binary",
        Some("geoarrow.wkb"),
        Some("{\"crs\": 7}"),
    ));
    assert!(matches!(r2, Err(DecodeError::InvalidCrs)));
}

#[test]
fn crs_display_prefers_authority_then_name() {
    let with_name = resolve_ok(&field(
        "geom",
        "binary",
        Some("geoarrow.wkb"),
        Some("{\"crs\": {\"name\": \"My Grid\"}}"),
    ));
    assert_eq!(with_name.crs_display(), " (CRS: My Grid)");
    let with_id = resolve_ok(&field(
        "geom",
        "binary",
        Some("geoarrow.wkb"),
        Some("{\"crs\": {\"name\": \"My Grid\", \"id\": {\"authority\": \"EPSG\", \"code\": 9}}}"),
    ));
    assert_eq!(with_id.crs_display(), " (CRS: EPSG:9)");
}
