//! The canonical coordinate-reference-system identity and its decoding from
//! extension metadata.
//!
//! A `"crs"` member of the metadata object is one of: absent, JSON null, a
//! bare authority-code string such as `"EPSG:4326"`, or a structured
//! definition object.  The first two mean "no CRS"; the last two decode into a
//! [`CrsIdentity`], and a malformed present value is an error, never silently
//! "no CRS".

use vstd::prelude::*;
use vstd::string::StrSliceExecFns;
use vstd::string::StringExecFns;

use crate::engine::{EngineError, EngineState};
use crate::json::{dview_members, jlookup, json_of, json_text_of, lookup, JsonModel, JsonValue};
use crate::strings::{
    all_digits, auth_part, code_part, dec_digits_of, dec_string, digits_val, find_auth_split,
    is_auth_code, lemma_auth_split_unique, parse_dec_i64, str_eq,
};

verus! {

/// Failure to decode extension metadata: a local, recoverable condition that
/// means "this column could not be classified".
#[derive(Clone, Copy, PartialEq, Eq, Structural, Debug)]
pub enum DecodeError {
    /// The metadata text is not JSON at all.
    MalformedMetadata,
    /// The `"crs"` member is present, not null, and not decodable.
    InvalidCrs,
    /// Geospatial storage without a recognized extension marker.
    UnrecognizedExtension,
}

/// The stored CRS definition is internally inconsistent: its `"id"` member
/// exists but does not denote an `AUTHORITY:CODE` pair.
#[derive(Clone, Copy, PartialEq, Eq, Structural, Debug)]
pub enum ResolveError {
    InconsistentDefinition,
}

/// The mathematical shape of a [`CrsIdentity`].
pub enum CrsModel {
    /// A bare string, as found in the metadata: usually an authority code.
    Code(Seq<char>),
    /// A structured definition object, kept verbatim.
    Structured(JsonModel),
}

/// Canonical representation of a coordinate reference system.
///
/// Construction never consults any engine service; every projection is
/// re-derived from the stored identity on demand.
pub enum CrsIdentity {
    /// A bare authority-code string such as `"EPSG:4326"`.
    Code(String),
    /// A structured definition: the `"crs"` object of the metadata, verbatim.
    Structured(JsonValue),
}

impl CrsIdentity {
    /// The abstract identity this value stands for.
    pub open spec fn dview(self) -> CrsModel {
        match self {
            CrsIdentity::Code(s) => CrsModel::Code(s@),
            CrsIdentity::Structured(v) => CrsModel::Structured(v.dview()),
        }
    }
}

/// What a present `"crs"` value decodes to: null is an explicit opt-out, a
/// string is an authority-code shorthand, an object is a structured
/// definition, and anything else is invalid.
pub open spec fn spec_decode_crs_value(v: JsonModel) -> Result<Option<CrsModel>, DecodeError> {
    match v {
        JsonModel::Null => Ok(None),
        JsonModel::Text(s) => Ok(Some(CrsModel::Code(s))),
        JsonModel::Object(_) => Ok(Some(CrsModel::Structured(v))),
        _ => Err(DecodeError::InvalidCrs),
    }
}

/// What a parsed metadata value decodes to: the decoding of its `"crs"`
/// member, or no CRS when that member is absent (a non-object carries no
/// members at all).
pub open spec fn spec_decode_metadata(m: JsonModel) -> Result<Option<CrsModel>, DecodeError> {
    match jlookup(m, "crs"@) {
        None => Ok(None),
        Some(c) => spec_decode_crs_value(c),
    }
}

/// The abstract image of a decoding result.
pub open spec fn decoded_model(r: Result<Option<CrsIdentity>, DecodeError>) -> Result<
    Option<CrsModel>,
    DecodeError,
> {
    match r {
        Ok(None) => Ok(None),
        Ok(Some(id)) => Ok(Some(id.dview())),
        Err(e) => Err(e),
    }
}

/// Decodes a present `"crs"` value into an identity.
pub fn decode_crs_value(v: JsonValue) -> (r: Result<Option<CrsIdentity>, DecodeError>)
    ensures
        decoded_model(r) == spec_decode_crs_value(v.dview()),
{
    match v {
        JsonValue::Null => Ok(None),
        JsonValue::Text(s) => Ok(Some(CrsIdentity::Code(s))),
        JsonValue::Object(m) => Ok(Some(CrsIdentity::Structured(JsonValue::Object(m)))),
        JsonValue::Bool(_) => Err(DecodeError::InvalidCrs),
        JsonValue::Int(_) => Err(DecodeError::InvalidCrs),
        JsonValue::Num(_) => Err(DecodeError::InvalidCrs),
        JsonValue::Array(_) => Err(DecodeError::InvalidCrs),
    }
}

/// Decodes a parsed metadata value into an optional identity.
pub fn decode_metadata_value(v: JsonValue) -> (r: Result<Option<CrsIdentity>, DecodeError>)
    ensures
        decoded_model(r) == spec_decode_metadata(v.dview()),
{
    match v {
        JsonValue::Object(mut m) => {
            match crate::json::obj_find(&m, "crs") {
                None => Ok(None),
                Some(i) => {
                    let pair = m.remove(i);
                    decode_crs_value(pair.1)
                },
            }
        },
        _ => Ok(None),
    }
}

/// What an `"id"` object denotes: `Some(AUTHORITY:CODE)` when it holds a
/// text authority and an integer or text code that compose into that shape,
/// and an inconsistency otherwise.
pub open spec fn spec_id_authority(idm: Seq<(Seq<char>, JsonModel)>) -> Result<
    Option<Seq<char>>,
    ResolveError,
> {
    match (lookup(idm, "authority"@), lookup(idm, "code"@)) {
        (Some(JsonModel::Text(a)), Some(JsonModel::Int(n))) => {
            if n >= 0 && is_auth_code(a + seq![':'] + dec_digits_of(n)) {
                Ok(Some(a + seq![':'] + dec_digits_of(n)))
            } else {
                Err(ResolveError::InconsistentDefinition)
            }
        },
        (Some(JsonModel::Text(a)), Some(JsonModel::Text(cs))) => {
            if is_auth_code(a + seq![':'] + cs) {
                Ok(Some(a + seq![':'] + cs))
            } else {
                Err(ResolveError::InconsistentDefinition)
            }
        },
        _ => Err(ResolveError::InconsistentDefinition),
    }
}

/// The authority-qualified code of an identity: a bare string of the
/// `AUTHORITY:CODE` shape is its own code; a structured definition derives
/// one from its `"id"` member; no recognizable scheme is `None`, and an
/// `"id"` member that cannot denote one is an inconsistency.
pub open spec fn spec_authority_code(c: CrsModel) -> Result<Option<Seq<char>>, ResolveError> {
    match c {
        CrsModel::Code(s) => if is_auth_code(s) {
            Ok(Some(s))
        } else {
            Ok(None)
        },
        CrsModel::Structured(m) => match jlookup(m, "id"@) {
            None => Ok(None),
            Some(JsonModel::Object(idm)) => spec_id_authority(idm),
            Some(_) => Err(ResolveError::InconsistentDefinition),
        },
    }
}

/// An authority code, when one is derived, has the `AUTHORITY:CODE` shape.
pub proof fn lemma_authority_is_auth_code(c: CrsModel)
    ensures
        match spec_authority_code(c) {
            Ok(Some(s)) => is_auth_code(s),
            _ => true,
        },
{
}

/// The numeric code of an identity, defined exactly when the authority is
/// the well-known numeric-code scheme and the code digits fit the machine
/// range.
pub open spec fn spec_srid(c: CrsModel) -> Result<Option<int>, ResolveError> {
    match spec_authority_code(c) {
        Err(e) => Err(e),
        Ok(None) => Ok(None),
        Ok(Some(s)) => {
            if auth_part(s) == "EPSG"@ && all_digits(code_part(s)) && digits_val(code_part(s))
                <= i64::MAX {
                Ok(Some(digits_val(code_part(s))))
            } else {
                Ok(None)
            }
        },
    }
}

/// The display name of an identity: the `"name"` member of a structured
/// definition, when it is a string.
pub open spec fn spec_display_name(c: CrsModel) -> Option<Seq<char>> {
    match c {
        CrsModel::Code(_) => None,
        CrsModel::Structured(m) => match jlookup(m, "name"@) {
            Some(JsonModel::Text(n)) => Some(n),
            _ => None,
        },
    }
}

/// The canonical JSON form of an identity: the authority-code shorthand when
/// one is derivable, otherwise its native form (the bare string, or the full
/// structured definition).
pub open spec fn spec_canonical(c: CrsModel) -> JsonModel {
    match spec_authority_code(c) {
        Ok(Some(s)) => JsonModel::Text(s),
        _ => match c {
            CrsModel::Code(s) => JsonModel::Text(s),
            CrsModel::Structured(m) => m,
        },
    }
}

/// The display form of an identity: the authority code when derivable, else
/// the display name, else the native textual form.
pub open spec fn spec_display(c: CrsModel) -> Seq<char> {
    match spec_authority_code(c) {
        Ok(Some(s)) => s,
        _ => match spec_display_name(c) {
            Some(n) => n,
            None => match c {
                CrsModel::Code(s) => s,
                CrsModel::Structured(m) => json_text_of(m),
            },
        },
    }
}

/// The engine-facing form of an identity: nothing without an installed
/// configuration; otherwise the authority shorthand when derivable, the bare
/// string or the definition's JSON text when not, and a hard failure on an
/// internally inconsistent definition.
pub open spec fn spec_engine_string(c: CrsModel, configured: bool) -> Result<
    Seq<char>,
    EngineError,
> {
    if !configured {
        Err(EngineError::NotConfigured)
    } else {
        match spec_authority_code(c) {
            Err(_) => Err(EngineError::UnrecognizedIdentity),
            Ok(Some(s)) => Ok(s),
            Ok(None) => match c {
                CrsModel::Code(s) => Ok(s),
                CrsModel::Structured(m) => Ok(json_text_of(m)),
            },
        }
    }
}

/// The abstract image of an authority-code result.
pub open spec fn auth_res_model(r: Result<Option<String>, ResolveError>) -> Result<
    Option<Seq<char>>,
    ResolveError,
> {
    match r {
        Ok(None) => Ok(None),
        Ok(Some(s)) => Ok(Some(s@)),
        Err(e) => Err(e),
    }
}

/// The abstract image of a numeric-code result.
pub open spec fn srid_res_model(r: Result<Option<i64>, ResolveError>) -> Result<
    Option<int>,
    ResolveError,
> {
    match r {
        Ok(None) => Ok(None),
        Ok(Some(v)) => Ok(Some(v as int)),
        Err(e) => Err(e),
    }
}

/// The abstract image of an engine-string result.
pub open spec fn engine_res_model(r: Result<String, EngineError>) -> Result<
    Seq<char>,
    EngineError,
> {
    match r {
        Ok(s) => Ok(s@),
        Err(e) => Err(e),
    }
}

/// `AUTHORITY` glued to `code` with one colon.
fn compose_auth(a: &String, code: &str) -> (r: String)
    ensures
        r@ == a@ + seq![':'] + code@,
{
    let mut t = a.clone();
    t.append(":");
    t.append(code);
    proof {
        reveal_strlit(":");
        assert(":"@ =~= seq![':']);
        assert(t@ =~= a@ + seq![':'] + code@);
    }
    t
}

/// Derives `Some(AUTHORITY:CODE)` from an `"id"` object, or reports it
/// inconsistent.
fn id_authority(idm: &Vec<(String, JsonValue)>) -> (r: Result<Option<String>, ResolveError>)
    ensures
        auth_res_model(r) == spec_id_authority(dview_members(idm@)),
{
    match (crate::json::obj_get(idm, "authority"), crate::json::obj_get(idm, "code")) {
        (Some(JsonValue::Text(a)), Some(JsonValue::Int(n))) => {
            if *n >= 0 {
                let cs = dec_string(*n as u64);
                let t = compose_auth(a, cs.as_str());
                match find_auth_split(t.as_str()) {
                    Some(_) => Ok(Some(t)),
                    None => Err(ResolveError::InconsistentDefinition),
                }
            } else {
                Err(ResolveError::InconsistentDefinition)
            }
        },
        (Some(JsonValue::Text(a)), Some(JsonValue::Text(cs))) => {
            let t = compose_auth(a, cs.as_str());
            match find_auth_split(t.as_str()) {
                Some(_) => Ok(Some(t)),
                None => Err(ResolveError::InconsistentDefinition),
            }
        },
        _ => Err(ResolveError::InconsistentDefinition),
    }
}

impl CrsIdentity {
    /// The authority-qualified code (e.g. `"EPSG:4326"`), `None` when the
    /// identity has no recognized authority scheme, and an error when its
    /// stored definition is internally inconsistent.
    pub fn authority_code(&self) -> (r: Result<Option<String>, ResolveError>)
        ensures
            auth_res_model(r) == spec_authority_code(self.dview()),
    {
        match self {
            CrsIdentity::Code(s) => {
                match find_auth_split(s.as_str()) {
                    Some(_) => Ok(Some(s.clone())),
                    None => Ok(None),
                }
            },
            CrsIdentity::Structured(v) => {
                match v {
                    JsonValue::Object(m) => {
                        match crate::json::obj_get(m, "id") {
                            None => Ok(None),
                            Some(JsonValue::Object(idm)) => id_authority(idm),
                            Some(_) => Err(ResolveError::InconsistentDefinition),
                        }
                    },
                    _ => Ok(None),
                }
            },
        }
    }

    /// The numeric code (e.g. 4326), defined only when the authority code
    /// resolves to the well-known numeric-code scheme.
    pub fn srid(&self) -> (r: Result<Option<i64>, ResolveError>)
        ensures
            srid_res_model(r) == spec_srid(self.dview()),
    {
        match self.authority_code() {
            Err(e) => Err(e),
            Ok(None) => Ok(None),
            Ok(Some(s)) => {
                match find_auth_split(s.as_str()) {
                    Some(i) => {
                        proof {
                            lemma_auth_split_unique(s@, i as int);
                        }
                        let len = s.as_str().unicode_len();
                        let auth = s.as_str().substring_char(0, i);
                        let code = s.as_str().substring_char(i + 1, len);
                        proof {
                            assert(auth@ =~= auth_part(s@));
                            assert(code@ =~= code_part(s@));
                        }
                        if str_eq(auth, "EPSG") {
                            match parse_dec_i64(code) {
                                Some(v) => Ok(Some(v)),
                                None => Ok(None),
                            }
                        } else {
                            Ok(None)
                        }
                    },
                    None => {
                        proof {
                            lemma_authority_is_auth_code(self.dview());
                            assert(false);
                        }
                        Ok(None)
                    },
                }
            },
        }
    }

    /// The `"name"` member of a structured definition, for display only.
    pub fn display_name(&self) -> (r: Option<String>)
        ensures
            match r {
                Some(n) => spec_display_name(self.dview()) == Some(n@),
                None => spec_display_name(self.dview()) is None,
            },
    {
        match self {
            CrsIdentity::Code(_) => None,
            CrsIdentity::Structured(v) => {
                match v {
                    JsonValue::Object(m) => {
                        match crate::json::obj_get(m, "name") {
                            Some(JsonValue::Text(n)) => Some(n.clone()),
                            _ => None,
                        }
                    },
                    _ => None,
                }
            },
        }
    }

    /// The canonical JSON text of the identity: the authority shorthand when
    /// derivable, otherwise its full native form.  Always succeeds.
    pub fn to_json(&self) -> (r: String)
        ensures
            r@ == json_text_of(spec_canonical(self.dview())),
    {
        match self.authority_code() {
            Ok(Some(s)) => {
                let t = JsonValue::Text(s);
                crate::json::json_to_text(&t)
            },
            _ => {
                match self {
                    CrsIdentity::Code(c) => {
                        let t = JsonValue::Text(c.clone());
                        crate::json::json_to_text(&t)
                    },
                    CrsIdentity::Structured(v) => crate::json::json_to_text(v),
                }
            },
        }
    }

    /// The display form: the authority code when derivable, else the display
    /// name, else the native textual form.  Never used for comparison.
    pub fn display(&self) -> (r: String)
        ensures
            r@ == spec_display(self.dview()),
    {
        match self.authority_code() {
            Ok(Some(s)) => s,
            _ => {
                match self.display_name() {
                    Some(n) => n,
                    None => {
                        match self {
                            CrsIdentity::Code(c) => c.clone(),
                            CrsIdentity::Structured(v) => crate::json::json_to_text(v),
                        }
                    },
                }
            },
        }
    }

    /// The engine-facing string form, for the external CRS-transformation
    /// engine: a hard failure when no configuration was ever installed or
    /// when the stored definition is internally inconsistent.
    pub fn to_crs_string(&self, engine: &EngineState) -> (r: Result<String, EngineError>)
        ensures
            engine_res_model(r) == spec_engine_string(self.dview(), engine.installed is Some),
    {
        if engine.installed.is_none() {
            return Err(EngineError::NotConfigured);
        }
        match self.authority_code() {
            Err(_) => Err(EngineError::UnrecognizedIdentity),
            Ok(Some(s)) => Ok(s),
            Ok(None) => {
                match self {
                    CrsIdentity::Code(c) => Ok(c.clone()),
                    CrsIdentity::Structured(v) => Ok(crate::json::json_to_text(v)),
                }
            },
        }
    }
}

/// Decodes an extension-metadata string: text that is not JSON is malformed;
/// otherwise the parsed object's `"crs"` member decides, and its absence (or
/// null) is a valid "no CRS", not an error.
pub fn parse_extension_metadata(s: &str) -> (r: Result<Option<CrsIdentity>, DecodeError>)
    ensures
        json_of(s@) is None ==> r == Err::<Option<CrsIdentity>, DecodeError>(
            DecodeError::MalformedMetadata,
        ),
        json_of(s@) matches Some(m) ==> decoded_model(r) == spec_decode_metadata(m),
{
    match crate::json::parse_json_text(s) {
        None => Err(DecodeError::MalformedMetadata),
        Some(v) => decode_metadata_value(v),
    }
}

} // verus!
