//! Classification of a schema field into a logical type.
//!
//! A field whose storage is one of the recognized geospatial binary encodings
//! is classified through its extension marker: the marker's metadata says
//! whether edges are planar (geometry) or spherical (geography), and its
//! `"crs"` member is decoded by the CRS resolver.  Geospatial storage without
//! a recognized marker is refused rather than guessed at; any other storage
//! is a plain scalar named by its storage tag, verbatim.

use std::sync::Arc;

use vstd::prelude::*;
use vstd::string::StringExecFns;

use crate::crs::{
    decode_metadata_value, spec_decode_metadata, spec_display, CrsIdentity,
    CrsModel, DecodeError,
};
use crate::json::{jlookup, json_of, JsonModel, JsonValue};
use crate::strings::str_eq;

verus! {

/// A question that does not apply to the type it was asked of: a caller
/// error, to be treated as fail-fast.
#[derive(Clone, Copy, PartialEq, Eq, Structural, Debug)]
pub enum QueryError {
    /// The type is geospatial but carries no CRS.
    NoCrs,
    /// The type is not geospatial at all, so "its CRS" is undefined.
    NotGeospatial,
}

/// The physical encoding of a geospatial column: buffer-based or view-based
/// binary storage.  Logically equivalent; preserved as a tag.
#[derive(Clone, Copy, PartialEq, Eq, Structural, Debug)]
pub enum GeoEncoding {
    Wkb,
    WkbView,
}

/// How a metadata object marks the edges of a geospatial column.
#[derive(Clone, Copy, PartialEq, Eq, Structural, Debug)]
pub enum EdgesKind {
    Planar,
    Spherical,
    Unrecognized,
}

/// A schema field snapshot: a storage-level type tag, a column name, and an
/// optional extension marker (name plus raw metadata text).
pub struct SchemaField {
    pub name: String,
    pub storage: String,
    pub extension_name: Option<String>,
    pub extension_metadata: Option<String>,
}

/// The classification of a single column.  A CRS is carried only by the
/// geospatial variants; for a scalar the concept is undefined, not merely
/// absent.
pub enum LogicalType {
    /// A non-geospatial column, named by its storage tag.
    Scalar(String),
    /// A geometry column (planar edges), with an optional shared CRS.
    Geometry(GeoEncoding, Option<Arc<CrsIdentity>>),
    /// A geography column (spherical edges), with an optional shared CRS.
    Geography(GeoEncoding, Option<Arc<CrsIdentity>>),
}

/// The mathematical shape of a [`LogicalType`].
pub enum TypeModel {
    Scalar(Seq<char>),
    Geometry(GeoEncoding, Option<CrsModel>),
    Geography(GeoEncoding, Option<CrsModel>),
}

impl LogicalType {
    /// The abstract classification this value stands for.
    pub open spec fn dview(self) -> TypeModel {
        match self {
            LogicalType::Scalar(s) => TypeModel::Scalar(s@),
            LogicalType::Geometry(e, c) => TypeModel::Geometry(
                e,
                match c {
                    Some(a) => Some((*a).dview()),
                    None => None,
                },
            ),
            LogicalType::Geography(e, c) => TypeModel::Geography(
                e,
                match c {
                    Some(a) => Some((*a).dview()),
                    None => None,
                },
            ),
        }
    }
}

/// A classified column: the logical type, and the column's declared name
/// carried alongside.
pub struct ResolvedColumn {
    pub name: String,
    pub logical: LogicalType,
}

/// The edge marking of a parsed metadata value: absent or `"planar"` means
/// planar, `"spherical"` means spherical, anything else is unrecognized.
pub open spec fn spec_edges(m: JsonModel) -> EdgesKind {
    match jlookup(m, "edges"@) {
        None => EdgesKind::Planar,
        Some(JsonModel::Text(e)) => if e == "planar"@ {
            EdgesKind::Planar
        } else if e == "spherical"@ {
            EdgesKind::Spherical
        } else {
            EdgesKind::Unrecognized
        },
        Some(_) => EdgesKind::Unrecognized,
    }
}

/// The views of an optional string.
pub open spec fn opt_text(o: Option<String>) -> Option<Seq<char>> {
    match o {
        Some(s) => Some(s@),
        None => None,
    }
}

/// What optional metadata text parses to: absent, unparseable, or a value.
pub open spec fn meta_of(o: Option<String>) -> Option<Option<JsonModel>> {
    match o {
        Some(s) => Some(json_of(s@)),
        None => None,
    }
}

/// The classification of a geospatial-encoded column with a recognized
/// extension marker, from its parsed metadata: absent metadata is a planar
/// geometry without CRS; unparseable metadata is malformed; an unrecognized
/// edge marking is refused; otherwise the edges pick geometry or geography
/// and the `"crs"` member decodes as the CRS resolver says.
pub open spec fn spec_classify_geo(enc: GeoEncoding, meta: Option<Option<JsonModel>>) -> Result<
    TypeModel,
    DecodeError,
> {
    match meta {
        None => Ok(TypeModel::Geometry(enc, None)),
        Some(None) => Err(DecodeError::MalformedMetadata),
        Some(Some(m)) => match spec_edges(m) {
            EdgesKind::Unrecognized => Err(DecodeError::UnrecognizedExtension),
            EdgesKind::Planar => match spec_decode_metadata(m) {
                Err(e) => Err(e),
                Ok(c) => Ok(TypeModel::Geometry(enc, c)),
            },
            EdgesKind::Spherical => match spec_decode_metadata(m) {
                Err(e) => Err(e),
                Ok(c) => Ok(TypeModel::Geography(enc, c)),
            },
        },
    }
}

/// The classification of a field: geospatial binary storage goes through its
/// extension marker (and is refused without a recognized one); any other
/// storage is a scalar named by its storage tag verbatim.
pub open spec fn spec_resolve(
    storage: Seq<char>,
    ext: Option<Seq<char>>,
    meta: Option<Option<JsonModel>>,
) -> Result<TypeModel, DecodeError> {
    if storage == "binary"@ || storage == "binary_view"@ {
        let enc = if storage == "binary"@ {
            GeoEncoding::Wkb
        } else {
            GeoEncoding::WkbView
        };
        match ext {
            Some(e) => if e == "geoarrow.wkb"@ {
                spec_classify_geo(enc, meta)
            } else {
                Err(DecodeError::UnrecognizedExtension)
            },
            None => Err(DecodeError::UnrecognizedExtension),
        }
    } else {
        Ok(TypeModel::Scalar(storage))
    }
}

/// The abstract image of a classification result.
pub open spec fn resolve_res_model(r: Result<ResolvedColumn, DecodeError>) -> Result<
    TypeModel,
    DecodeError,
> {
    match r {
        Ok(c) => Ok(c.logical.dview()),
        Err(e) => Err(e),
    }
}

/// The abstract image of a geospatial classification result.
pub open spec fn lt_res_model(r: Result<LogicalType, DecodeError>) -> Result<
    TypeModel,
    DecodeError,
> {
    match r {
        Ok(t) => Ok(t.dview()),
        Err(e) => Err(e),
    }
}

/// Relies on Arc::clone: the result is a handle to the same value.
#[verifier::external_body]
fn share_crs(a: &Arc<CrsIdentity>) -> (r: Arc<CrsIdentity>)
    ensures
        r == *a,
{
    Arc::clone(a)
}

/// The edge marking of a parsed metadata value.
fn edges_of(v: &JsonValue) -> (r: EdgesKind)
    ensures
        r == spec_edges(v.dview()),
{
    match v {
        JsonValue::Object(m) => {
            match crate::json::obj_get(m, "edges") {
                None => EdgesKind::Planar,
                Some(JsonValue::Text(e)) => {
                    if str_eq(e.as_str(), "planar") {
                        EdgesKind::Planar
                    } else if str_eq(e.as_str(), "spherical") {
                        EdgesKind::Spherical
                    } else {
                        EdgesKind::Unrecognized
                    }
                },
                Some(_) => EdgesKind::Unrecognized,
            }
        },
        _ => EdgesKind::Planar,
    }
}

/// Wraps a freshly decoded identity for sharing.
fn wrap_shared(c: Option<CrsIdentity>) -> (r: Option<Arc<CrsIdentity>>)
    ensures
        match r {
            Some(a) => c matches Some(id) && (*a).dview() == id.dview(),
            None => c is None,
        },
{
    match c {
        Some(id) => Some(Arc::new(id)),
        None => None,
    }
}

/// Classifies a geospatial-encoded column with a recognized marker.
fn classify_geo(enc: GeoEncoding, meta: &Option<String>) -> (r: Result<LogicalType, DecodeError>)
    ensures
        lt_res_model(r) == spec_classify_geo(enc, meta_of(*meta)),
{
    match meta {
        None => Ok(LogicalType::Geometry(enc, None)),
        Some(text) => {
            match crate::json::parse_json_text(text.as_str()) {
                None => Err(DecodeError::MalformedMetadata),
                Some(v) => {
                    match edges_of(&v) {
                        EdgesKind::Unrecognized => Err(DecodeError::UnrecognizedExtension),
                        EdgesKind::Planar => {
                            match decode_metadata_value(v) {
                                Err(e) => Err(e),
                                Ok(c) => Ok(LogicalType::Geometry(enc, wrap_shared(c))),
                            }
                        },
                        EdgesKind::Spherical => {
                            match decode_metadata_value(v) {
                                Err(e) => Err(e),
                                Ok(c) => Ok(LogicalType::Geography(enc, wrap_shared(c))),
                            }
                        },
                    }
                },
            }
        },
    }
}

/// Classifies a schema field into a named logical type.  Pure decoding: no
/// I/O, no engine service.
pub fn resolve(field: &SchemaField) -> (r: Result<ResolvedColumn, DecodeError>)
    ensures
        resolve_res_model(r) == spec_resolve(
            field.storage@,
            opt_text(field.extension_name),
            meta_of(field.extension_metadata),
        ),
        r matches Ok(c) ==> c.name@ == field.name@,
{
    if str_eq(field.storage.as_str(), "binary") || str_eq(field.storage.as_str(), "binary_view") {
        let enc = if str_eq(field.storage.as_str(), "binary") {
            GeoEncoding::Wkb
        } else {
            GeoEncoding::WkbView
        };
        match &field.extension_name {
            Some(e) => {
                if str_eq(e.as_str(), "geoarrow.wkb") {
                    match classify_geo(enc, &field.extension_metadata) {
                        Ok(lt) => Ok(ResolvedColumn { name: field.name.clone(), logical: lt }),
                        Err(er) => Err(er),
                    }
                } else {
                    Err(DecodeError::UnrecognizedExtension)
                }
            },
            None => Err(DecodeError::UnrecognizedExtension),
        }
    } else {
        Ok(
            ResolvedColumn {
                name: field.name.clone(),
                logical: LogicalType::Scalar(field.storage.clone()),
            },
        )
    }
}

/// The stable name of a classification.
pub open spec fn spec_type_name(t: TypeModel) -> Seq<char> {
    match t {
        TypeModel::Scalar(s) => s,
        TypeModel::Geometry(_, _) => "geometry"@,
        TypeModel::Geography(_, _) => "geography"@,
    }
}

/// The CRS of a classification: defined only for a geospatial type that
/// carries one; a geospatial type without one and a non-geospatial type fail
/// differently, and the two must not be collapsed.
pub open spec fn spec_crs_of(t: TypeModel) -> Result<CrsModel, QueryError> {
    match t {
        TypeModel::Scalar(_) => Err(QueryError::NotGeospatial),
        TypeModel::Geometry(_, c) => match c {
            Some(x) => Ok(x),
            None => Err(QueryError::NoCrs),
        },
        TypeModel::Geography(_, c) => match c {
            Some(x) => Ok(x),
            None => Err(QueryError::NoCrs),
        },
    }
}

/// The display suffix of a classification: a parenthesized CRS note when a
/// CRS is present, and the empty string otherwise.
pub open spec fn spec_crs_display(t: TypeModel) -> Seq<char> {
    match spec_crs_of(t) {
        Ok(c) => " (CRS: "@ + spec_display(c) + ")"@,
        Err(_) => Seq::<char>::empty(),
    }
}

impl ResolvedColumn {
    /// The declared column name.
    pub fn name(&self) -> (r: &String)
        ensures
            r@ == self.name@,
    {
        &self.name
    }

    /// The stable logical type name: `"geometry"`, `"geography"`, or the
    /// scalar storage tag.
    pub fn logical_type_name(&self) -> (r: String)
        ensures
            r@ == spec_type_name(self.logical.dview()),
    {
        match &self.logical {
            LogicalType::Scalar(s) => s.clone(),
            LogicalType::Geometry(_, _) => String::from_str("geometry"),
            LogicalType::Geography(_, _) => String::from_str("geography"),
        }
    }

    /// The shared CRS identity of a geospatial column that carries one;
    /// `NoCrs` when the column is geospatial without one, `NotGeospatial`
    /// when the question does not apply.
    pub fn crs(&self) -> (r: Result<Arc<CrsIdentity>, QueryError>)
        ensures
            match r {
                Ok(a) => spec_crs_of(self.logical.dview()) == Ok::<CrsModel, QueryError>(
                    (*a).dview(),
                ),
                Err(e) => spec_crs_of(self.logical.dview()) == Err::<CrsModel, QueryError>(e),
            },
    {
        match &self.logical {
            LogicalType::Scalar(_) => Err(QueryError::NotGeospatial),
            LogicalType::Geometry(_, c) => match c {
                Some(a) => Ok(share_crs(a)),
                None => Err(QueryError::NoCrs),
            },
            LogicalType::Geography(_, c) => match c {
                Some(a) => Ok(share_crs(a)),
                None => Err(QueryError::NoCrs),
            },
        }
    }

    /// The CRS display suffix: `" (CRS: ...)"` when a CRS is present, and
    /// `""` both for a scalar and for a CRS-less geospatial column.
    pub fn crs_display(&self) -> (r: String)
        ensures
            r@ == spec_crs_display(self.logical.dview()),
    {
        match self.crs() {
            Ok(a) => {
                let d = (*a).display();
                let mut t = String::from_str(" (CRS: ");
                t.append(d.as_str());
                t.append(")");
                proof {
                    assert(t@ =~= " (CRS: "@ + spec_display((*a).dview()) + ")"@);
                }
                t
            },
            Err(_) => String::new(),
        }
    }
}

} // verus!
