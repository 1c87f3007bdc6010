//! The general laws of the resolver, each proved over the same spec
//! functions that the executable functions' contracts use.

use vstd::prelude::*;

use crate::crs::{
    spec_authority_code, spec_canonical, spec_decode_crs_value, spec_decode_metadata, spec_srid,
    lemma_authority_is_auth_code, CrsModel, DecodeError,
};
use crate::json::{jlookup, lookup, JsonModel};
use crate::schema::{spec_crs_display, spec_crs_of, QueryError, TypeModel};
use crate::strings::{
    all_digits, auth_part, auth_split_at, code_part, dec_digits_of, digits_val, is_auth_code,
    is_dec_digit, lemma_auth_split_unique, lemma_dec_digits_roundtrip,
};

verus! {

/// A structured identity holds an object-shaped definition; decoding only
/// ever constructs such identities.
pub open spec fn spec_wf(c: CrsModel) -> bool {
    match c {
        CrsModel::Code(_) => true,
        CrsModel::Structured(m) => m is Object,
    }
}

/// Metadata without a `"crs"` member, or with a null one, decodes to "no
/// CRS" — a success, never an error.
pub proof fn lemma_absent_or_null_crs(m: JsonModel)
    requires
        jlookup(m, "crs"@) is None || jlookup(m, "crs"@) == Some(JsonModel::Null),
    ensures
        spec_decode_metadata(m) == Ok::<Option<CrsModel>, DecodeError>(None),
{
}

/// A bare string of the `AUTHORITY:CODE` shape decodes to an identity whose
/// authority code is that very string; when the authority is the well-known
/// numeric-code scheme and the code digits fit the machine range, its
/// numeric code is exactly the numeric suffix.
pub proof fn lemma_bare_authority_round_trip(s: Seq<char>)
    requires
        is_auth_code(s),
    ensures
        spec_decode_crs_value(JsonModel::Text(s)) == Ok::<Option<CrsModel>, DecodeError>(
            Some(CrsModel::Code(s)),
        ),
        spec_authority_code(CrsModel::Code(s)) == Ok::<Option<Seq<char>>, crate::crs::ResolveError>(Some(s)),
        auth_part(s) == "EPSG"@ && all_digits(code_part(s)) && digits_val(code_part(s))
            <= i64::MAX ==> spec_srid(CrsModel::Code(s)) == Ok::<Option<int>, crate::crs::ResolveError>(
            Some(digits_val(code_part(s))),
        ),
{
}

/// Metadata whose decoding fails does so for exactly one reason: a present,
/// non-null, non-string, non-object `"crs"` member — and that failure is
/// `InvalidCrs`, never the malformed-text error, which only the text parser
/// can raise.
pub proof fn lemma_invalid_crs_is_never_collapsed(m: JsonModel)
    ensures
        spec_decode_metadata(m) != Err::<Option<CrsModel>, DecodeError>(
            DecodeError::MalformedMetadata,
        ),
        (match jlookup(m, "crs"@) {
            Some(v) => !(v is Null || v is Text || v is Object),
            None => false,
        }) ==> spec_decode_metadata(m) == Err::<Option<CrsModel>, DecodeError>(
            DecodeError::InvalidCrs,
        ),
{
}

/// Every identity that decoding yields is well-formed in the sense that the
/// round-trip law assumes.
pub proof fn lemma_decoded_is_wf(v: JsonModel)
    ensures
        spec_decode_crs_value(v) matches Ok(Some(c)) ==> spec_wf(c),
        spec_decode_metadata(v) matches Ok(Some(c)) ==> spec_wf(c),
{
}

/// Round trip: wrapping an identity's canonical JSON form as the `"crs"`
/// member of a metadata object and decoding it again yields an identity with
/// the same authority code and the same numeric code.
pub proof fn lemma_canonical_round_trip(c: CrsModel, m: JsonModel)
    requires
        spec_wf(c),
        jlookup(m, "crs"@) == Some(spec_canonical(c)),
    ensures
        spec_decode_metadata(m) matches Ok(Some(c2)) && spec_authority_code(c2)
            == spec_authority_code(c) && spec_srid(c2) == spec_srid(c),
{
    lemma_authority_is_auth_code(c);
}

/// A structured definition whose `"id"` member names the well-known
/// numeric-code authority with a non-negative machine-range integer code
/// resolves to exactly that authority code, and its numeric code is exactly
/// that integer.
pub proof fn lemma_numeric_id_resolves(m: JsonModel, idm: Seq<(Seq<char>, JsonModel)>, n: int)
    requires
        jlookup(m, "id"@) == Some(JsonModel::Object(idm)),
        lookup(idm, "authority"@) == Some(JsonModel::Text("EPSG"@)),
        lookup(idm, "code"@) == Some(JsonModel::Int(n)),
        0 <= n <= i64::MAX,
    ensures
        spec_authority_code(CrsModel::Structured(m)) == Ok::<
            Option<Seq<char>>,
            crate::crs::ResolveError,
        >(Some("EPSG"@ + seq![':'] + dec_digits_of(n))),
        spec_srid(CrsModel::Structured(m)) == Ok::<Option<int>, crate::crs::ResolveError>(
            Some(n),
        ),
{
    let a = "EPSG"@;
    let d = dec_digits_of(n);
    let s = a + seq![':'] + d;
    lemma_dec_digits_roundtrip(n);
    reveal_strlit("EPSG");
    assert(a.len() == 4);
    assert(s.len() == 5 + d.len());
    assert(s[4] == ':');
    assert forall|j: int| 0 <= j < s.len() && j != 4 implies s[j] != ':' by {
        if j < 4 {
            assert(s[j] == a[j]);
            assert(a[0] == 'E' && a[1] == 'P' && a[2] == 'S' && a[3] == 'G');
        } else {
            assert(s[j] == d[j - 5]);
            assert(is_dec_digit(d[j - 5]));
        }
    }
    assert(auth_split_at(s, 4));
    lemma_auth_split_unique(s, 4);
    assert(auth_part(s) =~= a);
    assert(code_part(s) =~= d);
}

/// Asking a scalar for its CRS is a different failure from asking a
/// CRS-less geospatial type: the two are never collapsed.
pub proof fn lemma_crs_of_failures(t: TypeModel)
    ensures
        t matches TypeModel::Scalar(_) ==> spec_crs_of(t) == Err::<CrsModel, QueryError>(
            QueryError::NotGeospatial,
        ),
        t matches TypeModel::Geometry(_, c) ==> (c is None ==> spec_crs_of(t) == Err::<
            CrsModel,
            QueryError,
        >(QueryError::NoCrs)),
        t matches TypeModel::Geography(_, c) ==> (c is None ==> spec_crs_of(t) == Err::<
            CrsModel,
            QueryError,
        >(QueryError::NoCrs)),
{
}

/// The CRS display suffix is empty exactly when no CRS is present — for
/// every scalar and every CRS-less geospatial type — and non-empty for every
/// geospatial type carrying one.
pub proof fn lemma_crs_display_empty_iff(t: TypeModel)
    ensures
        spec_crs_display(t).len() == 0 <==> spec_crs_of(t) is Err,
{
    reveal_strlit(" (CRS: ");
    reveal_strlit(")");
}


} // verus!
