//! Converting between the JSON value model and the typed feature variants.
//! The wire format flattens the coordinate and metadata sub-structures into
//! top-level sibling keys, discriminates variants by the `object_type`
//! string, and names the `Protein` variant `Translation`; unknown keys are
//! ignored. Decoding reports the first missing or ill-shaped required
//! field by name.

use vstd::prelude::*;

use crate::errors::{FeatureError, FeatureErrorV};
use crate::features::{
    kind_of_tag, lemma_deep_view_push, identify_object, EnsemblFeature, EnsemblFeatureV, Exon,
    ExonV, FeatureKind, Gene, GeneV, GenomeCoords, GenomeCoordsV, MetaInfo, MetaInfoV, Protein,
    ProteinV, StartEndCoords, StartEndCoordsV, Transcript, TranscriptV,
};
use crate::json::{
    json_view, json_view_members, json_view_seq, lemma_json_view_members, lemma_json_view_seq,
    lemma_view_members_concat, Json, JsonV,
};
use crate::reader::{canon_json, parse_json_text, read_json};
use crate::text::{chars_of_str, str_eq};

verus! {

broadcast use vstd::string::group_string_axioms;

/// The value of the first member of `ms` named `k`, scanning from `p` on.
pub open spec fn lookup_from(ms: Seq<(Seq<char>, JsonV)>, k: Seq<char>, p: int) -> Option<JsonV>
    decreases ms.len() - p,
{
    if !(0 <= p < ms.len()) {
        None
    } else if ms[p].0 == k {
        Some(ms[p].1)
    } else {
        lookup_from(ms, k, p + 1)
    }
}

/// The value of the first member of `ms` named `k`, if any.
pub open spec fn lookup(ms: Seq<(Seq<char>, JsonV)>, k: Seq<char>) -> Option<JsonV> {
    lookup_from(ms, k, 0)
}

/// A required string field: anything else is a parse error naming `k`.
pub open spec fn get_str(ms: Seq<(Seq<char>, JsonV)>, k: Seq<char>) -> Result<
    Seq<char>,
    FeatureErrorV,
> {
    match lookup(ms, k) {
        Some(JsonV::Str(t)) => Ok(t),
        _ => Err(FeatureErrorV::ParseError(k)),
    }
}

/// A required non-negative 64-bit number field.
pub open spec fn get_u64(ms: Seq<(Seq<char>, JsonV)>, k: Seq<char>) -> Result<
    u64,
    FeatureErrorV,
> {
    match lookup(ms, k) {
        Some(JsonV::Num { neg, mag }) => if !neg {
            Ok(mag)
        } else {
            Err(FeatureErrorV::ParseError(k))
        },
        _ => Err(FeatureErrorV::ParseError(k)),
    }
}

/// A required integer field that must lie in `[lo, hi]`.
pub open spec fn get_int(ms: Seq<(Seq<char>, JsonV)>, k: Seq<char>, lo: int, hi: int) -> Result<
    int,
    FeatureErrorV,
> {
    match lookup(ms, k) {
        Some(JsonV::Num { neg, mag }) => {
            let v = if neg {
                -(mag as int)
            } else {
                mag as int
            };
            if lo <= v <= hi {
                Ok(v)
            } else {
                Err(FeatureErrorV::ParseError(k))
            }
        },
        _ => Err(FeatureErrorV::ParseError(k)),
    }
}

/// An optional array field: absent or null is `None`; any other non-array
/// value is a parse error naming `k`.
pub open spec fn get_opt_arr(ms: Seq<(Seq<char>, JsonV)>, k: Seq<char>) -> Result<
    Option<Seq<JsonV>>,
    FeatureErrorV,
> {
    match lookup(ms, k) {
        None => Ok(None),
        Some(JsonV::Null) => Ok(None),
        Some(JsonV::Arr(vs)) => Ok(Some(vs)),
        Some(_) => Err(FeatureErrorV::ParseError(k)),
    }
}

/// An optional object field: absent or null is `None`; any other
/// non-object value is a parse error naming `k`.
pub open spec fn get_opt_obj(ms: Seq<(Seq<char>, JsonV)>, k: Seq<char>) -> Result<
    Option<Seq<(Seq<char>, JsonV)>>,
    FeatureErrorV,
> {
    match lookup(ms, k) {
        None => Ok(None),
        Some(JsonV::Null) => Ok(None),
        Some(JsonV::Obj(fs)) => Ok(Some(fs)),
        Some(_) => Err(FeatureErrorV::ParseError(k)),
    }
}

// Decoding. Each variant reads its required fields in a fixed order, so
// the first missing field is the one reported.

pub open spec fn decode_start_end(ms: Seq<(Seq<char>, JsonV)>) -> Result<
    StartEndCoordsV,
    FeatureErrorV,
> {
    match get_u64(ms, "start"@) {
        Ok(start) => match get_u64(ms, "end"@) {
            Ok(end) => Ok(StartEndCoordsV { start, end }),
            Err(e) => Err(e),
        },
        Err(e) => Err(e),
    }
}

pub open spec fn decode_genome(ms: Seq<(Seq<char>, JsonV)>) -> Result<
    GenomeCoordsV,
    FeatureErrorV,
> {
    match get_str(ms, "assembly_name"@) {
        Ok(assembly_name) => match get_str(ms, "seq_region_name"@) {
            Ok(seq_region_name) => match decode_start_end(ms) {
                Ok(coords) => match get_int(ms, "strand"@, -128, 127) {
                    Ok(strand) => Ok(
                        GenomeCoordsV {
                            assembly_name,
                            seq_region_name,
                            coords,
                            strand: strand as i8,
                        },
                    ),
                    Err(e) => Err(e),
                },
                Err(e) => Err(e),
            },
            Err(e) => Err(e),
        },
        Err(e) => Err(e),
    }
}

pub open spec fn decode_meta(ms: Seq<(Seq<char>, JsonV)>) -> Result<MetaInfoV, FeatureErrorV> {
    match get_str(ms, "id"@) {
        Ok(id) => match get_str(ms, "db_type"@) {
            Ok(db_type) => match get_str(ms, "species"@) {
                Ok(species) => match get_u64(ms, "version"@) {
                    Ok(version) => Ok(MetaInfoV { id, db_type, species, version }),
                    Err(e) => Err(e),
                },
                Err(e) => Err(e),
            },
            Err(e) => Err(e),
        },
        Err(e) => Err(e),
    }
}

pub open spec fn decode_protein(ms: Seq<(Seq<char>, JsonV)>) -> Result<ProteinV, FeatureErrorV> {
    match get_int(ms, "length"@, -0x8000_0000, 0x7fff_ffff) {
        Ok(length) => match get_str(ms, "Parent"@) {
            Ok(parent) => match decode_start_end(ms) {
                Ok(coords) => match decode_meta(ms) {
                    Ok(meta) => Ok(ProteinV { length: length as i32, parent, coords, meta }),
                    Err(e) => Err(e),
                },
                Err(e) => Err(e),
            },
            Err(e) => Err(e),
        },
        Err(e) => Err(e),
    }
}

pub open spec fn decode_exon(ms: Seq<(Seq<char>, JsonV)>) -> Result<ExonV, FeatureErrorV> {
    match decode_genome(ms) {
        Ok(coords) => match decode_meta(ms) {
            Ok(meta) => Ok(ExonV { coords, meta }),
            Err(e) => Err(e),
        },
        Err(e) => Err(e),
    }
}

/// Decodes the elements of an exon array from `p` on; every element must
/// be an object.
pub open spec fn decode_exon_list(vs: Seq<JsonV>, p: int, acc: Seq<ExonV>) -> Result<
    Seq<ExonV>,
    FeatureErrorV,
>
    decreases vs.len() - p,
{
    if !(0 <= p < vs.len()) {
        Ok(acc)
    } else {
        match vs[p] {
            JsonV::Obj(efs) => match decode_exon(efs) {
                Ok(ex) => decode_exon_list(vs, p + 1, acc.push(ex)),
                Err(e) => Err(e),
            },
            _ => Err(FeatureErrorV::ParseError("Exon"@)),
        }
    }
}

pub open spec fn decode_transcript(ms: Seq<(Seq<char>, JsonV)>) -> Result<
    TranscriptV,
    FeatureErrorV,
> {
    match get_str(ms, "Parent"@) {
        Ok(parent) => match get_opt_arr(ms, "Exon"@) {
            Ok(exon_arr) => {
                let exons_result = match exon_arr {
                    None => Ok(None),
                    Some(vs) => match decode_exon_list(vs, 0, Seq::empty()) {
                        Ok(es) => Ok(Some(es)),
                        Err(e) => Err(e),
                    },
                };
                match exons_result {
                    Ok(exons) => match get_opt_obj(ms, "Translation"@) {
                        Ok(trans_obj) => {
                            let trans_result = match trans_obj {
                                None => Ok(None),
                                Some(pms) => match decode_protein(pms) {
                                    Ok(p) => Ok(Some(p)),
                                    Err(e) => Err(e),
                                },
                            };
                            match trans_result {
                                Ok(translation) => match get_u64(ms, "is_canonical"@) {
                                    Ok(is_canonical) => match get_u64(ms, "length"@) {
                                        Ok(length) => match decode_genome(ms) {
                                            Ok(coords) => match decode_meta(ms) {
                                                Ok(meta) => match get_str(ms, "display_name"@) {
                                                    Ok(display_name) => match get_str(
                                                        ms,
                                                        "logic_name"@,
                                                    ) {
                                                        Ok(logic_name) => match get_str(
                                                            ms,
                                                            "biotype"@,
                                                        ) {
                                                            Ok(biotype) => match get_str(
                                                                ms,
                                                                "source"@,
                                                            ) {
                                                                Ok(source) => Ok(
                                                                    TranscriptV {
                                                                        parent,
                                                                        exons,
                                                                        translation,
                                                                        is_canonical,
                                                                        length,
                                                                        coords,
                                                                        meta,
                                                                        display_name,
                                                                        logic_name,
                                                                        biotype,
                                                                        source,
                                                                    },
                                                                ),
                                                                Err(e) => Err(e),
                                                            },
                                                            Err(e) => Err(e),
                                                        },
                                                        Err(e) => Err(e),
                                                    },
                                                    Err(e) => Err(e),
                                                },
                                                Err(e) => Err(e),
                                            },
                                            Err(e) => Err(e),
                                        },
                                        Err(e) => Err(e),
                                    },
                                    Err(e) => Err(e),
                                },
                                Err(e) => Err(e),
                            }
                        },
                        Err(e) => Err(e),
                    },
                    Err(e) => Err(e),
                }
            },
            Err(e) => Err(e),
        },
        Err(e) => Err(e),
    }
}

/// Decodes the elements of a transcript array from `p` on; every element
/// must be an object.
pub open spec fn decode_transcript_list(vs: Seq<JsonV>, p: int, acc: Seq<TranscriptV>) -> Result<
    Seq<TranscriptV>,
    FeatureErrorV,
>
    decreases vs.len() - p,
{
    if !(0 <= p < vs.len()) {
        Ok(acc)
    } else {
        match vs[p] {
            JsonV::Obj(tfs) => match decode_transcript(tfs) {
                Ok(t) => decode_transcript_list(vs, p + 1, acc.push(t)),
                Err(e) => Err(e),
            },
            _ => Err(FeatureErrorV::ParseError("Transcript"@)),
        }
    }
}

pub open spec fn decode_gene(ms: Seq<(Seq<char>, JsonV)>) -> Result<GeneV, FeatureErrorV> {
    match get_str(ms, "canonical_transcript"@) {
        Ok(canonical_transcript) => match get_str(ms, "description"@) {
            Ok(description) => match get_opt_arr(ms, "Transcript"@) {
                Ok(tr_arr) => {
                    let tr_result = match tr_arr {
                        None => Ok(None),
                        Some(vs) => match decode_transcript_list(vs, 0, Seq::empty()) {
                            Ok(ts) => Ok(Some(ts)),
                            Err(e) => Err(e),
                        },
                    };
                    match tr_result {
                        Ok(transcripts) => match decode_genome(ms) {
                            Ok(coords) => match decode_meta(ms) {
                                Ok(meta) => match get_str(ms, "display_name"@) {
                                    Ok(display_name) => match get_str(ms, "logic_name"@) {
                                        Ok(logic_name) => match get_str(ms, "biotype"@) {
                                            Ok(biotype) => match get_str(ms, "source"@) {
                                                Ok(source) => Ok(
                                                    GeneV {
                                                        canonical_transcript,
                                                        description,
                                                        transcripts,
                                                        coords,
                                                        meta,
                                                        display_name,
                                                        logic_name,
                                                        biotype,
                                                        source,
                                                    },
                                                ),
                                                Err(e) => Err(e),
                                            },
                                            Err(e) => Err(e),
                                        },
                                        Err(e) => Err(e),
                                    },
                                    Err(e) => Err(e),
                                },
                                Err(e) => Err(e),
                            },
                            Err(e) => Err(e),
                        },
                        Err(e) => Err(e),
                    }
                },
                Err(e) => Err(e),
            },
            Err(e) => Err(e),
        },
        Err(e) => Err(e),
    }
}

/// Dispatches on the discriminator: a missing or non-string `object_type`
/// is a parse error; an unrecognized value is `UnsupportedFeatureType`.
pub open spec fn decode_feature(ms: Seq<(Seq<char>, JsonV)>) -> Result<
    EnsemblFeatureV,
    FeatureErrorV,
> {
    match get_str(ms, "object_type"@) {
        Ok(tag) => match kind_of_tag(tag) {
            Some(FeatureKind::Gene) => match decode_gene(ms) {
                Ok(g) => Ok(EnsemblFeatureV::Gene(g)),
                Err(e) => Err(e),
            },
            Some(FeatureKind::Transcript) => match decode_transcript(ms) {
                Ok(t) => Ok(EnsemblFeatureV::Transcript(t)),
                Err(e) => Err(e),
            },
            Some(FeatureKind::Exon) => match decode_exon(ms) {
                Ok(x) => Ok(EnsemblFeatureV::Exon(x)),
                Err(e) => Err(e),
            },
            Some(FeatureKind::Protein) => match decode_protein(ms) {
                Ok(p) => Ok(EnsemblFeatureV::Protein(p)),
                Err(e) => Err(e),
            },
            None => Err(FeatureErrorV::UnsupportedFeatureType(tag)),
        },
        Err(e) => Err(e),
    }
}

/// What parsing a whole response text owes: the text must be one JSON
/// object (else a parse error naming `json`), and that object must decode
/// into a feature.
pub open spec fn spec_parse_feature(t: Seq<char>) -> Result<EnsemblFeatureV, FeatureErrorV> {
    match parse_json_text(t) {
        Some(JsonV::Obj(ms)) => decode_feature(ms),
        Some(_) => Err(FeatureErrorV::ParseError("json"@)),
        None => Err(FeatureErrorV::ParseError("json"@)),
    }
}

// The executable decoder.

/// The first member of `fs` named `k`, if any.
fn find_field<'a>(fs: &'a Vec<(String, Json)>, k: &str) -> (r: Option<&'a Json>)
    ensures
        r matches Some(j) ==> lookup(json_view_members(fs@), k@) == Some(j@),
        r is None ==> lookup(json_view_members(fs@), k@) is None,
{
    let ghost msv = json_view_members(fs@);
    proof {
        lemma_json_view_members(fs@);
    }
    let mut p: usize = 0;
    while p < fs.len()
        invariant
            p <= fs@.len(),
            msv == json_view_members(fs@),
            msv.len() == fs@.len(),
            forall|q: int| 0 <= q < fs@.len() ==> msv[q] == (fs@[q].0@, json_view(fs@[q].1)),
            lookup_from(msv, k@, 0) == lookup_from(msv, k@, p as int),
        decreases fs@.len() - p,
    {
        if str_eq(fs[p].0.as_str(), k) {
            return Some(&fs[p].1);
        }
        p = p + 1;
    }
    None
}

fn get_string(fs: &Vec<(String, Json)>, k: &str) -> (r: Result<String, FeatureError>)
    ensures
        r matches Ok(t) ==> get_str(json_view_members(fs@), k@) == Ok::<_, FeatureErrorV>(t@),
        r matches Err(e) ==> get_str(json_view_members(fs@), k@) == Err::<Seq<char>, _>(e@),
{
    match find_field(fs, k) {
        Some(j) => match j {
            Json::Str(s2) => Ok(s2.clone()),
            _ => Err(FeatureError::ParseError(k.to_owned())),
        },
        None => Err(FeatureError::ParseError(k.to_owned())),
    }
}

fn get_u64_field(fs: &Vec<(String, Json)>, k: &str) -> (r: Result<u64, FeatureError>)
    ensures
        r matches Ok(v) ==> get_u64(json_view_members(fs@), k@) == Ok::<_, FeatureErrorV>(v),
        r matches Err(e) ==> get_u64(json_view_members(fs@), k@) == Err::<u64, _>(e@),
{
    match find_field(fs, k) {
        Some(j) => match j {
            Json::Num { neg, mag } => {
                if !*neg {
                    Ok(*mag)
                } else {
                    Err(FeatureError::ParseError(k.to_owned()))
                }
            },
            _ => Err(FeatureError::ParseError(k.to_owned())),
        },
        None => Err(FeatureError::ParseError(k.to_owned())),
    }
}

fn get_int_field(fs: &Vec<(String, Json)>, k: &str, lo: i64, hi: i64) -> (r: Result<
    i64,
    FeatureError,
>)
    requires
        -(i64::MAX as int) <= lo as int,
        lo <= hi,
    ensures
        r matches Ok(v) ==> get_int(json_view_members(fs@), k@, lo as int, hi as int) == Ok::<
            _,
            FeatureErrorV,
        >(v as int) && lo <= v <= hi,
        r matches Err(e) ==> get_int(json_view_members(fs@), k@, lo as int, hi as int) == Err::<
            int,
            _,
        >(e@),
{
    match find_field(fs, k) {
        Some(j) => match j {
            Json::Num { neg, mag } => {
                if *mag > i64::MAX as u64 {
                    Err(FeatureError::ParseError(k.to_owned()))
                } else {
                    let v: i64 = if *neg {
                        -(*mag as i64)
                    } else {
                        *mag as i64
                    };
                    if lo <= v && v <= hi {
                        Ok(v)
                    } else {
                        Err(FeatureError::ParseError(k.to_owned()))
                    }
                }
            },
            _ => Err(FeatureError::ParseError(k.to_owned())),
        },
        None => Err(FeatureError::ParseError(k.to_owned())),
    }
}

fn get_opt_arr_field<'a>(fs: &'a Vec<(String, Json)>, k: &str) -> (r: Result<
    Option<&'a Vec<Json>>,
    FeatureError,
>)
    ensures
        r matches Ok(o) ==> o matches Some(v) ==> get_opt_arr(json_view_members(fs@), k@)
            == Ok::<_, FeatureErrorV>(Some(json_view_seq(v@))),
        r matches Ok(o) ==> o is None ==> get_opt_arr(json_view_members(fs@), k@) == Ok::<
            _,
            FeatureErrorV,
        >(None::<Seq<JsonV>>),
        r matches Err(e) ==> get_opt_arr(json_view_members(fs@), k@) == Err::<
            Option<Seq<JsonV>>,
            _,
        >(e@),
{
    match find_field(fs, k) {
        None => Ok(None),
        Some(j) => match j {
            Json::Null => Ok(None),
            Json::Arr(v) => Ok(Some(v)),
            _ => Err(FeatureError::ParseError(k.to_owned())),
        },
    }
}

fn get_opt_obj_field<'a>(fs: &'a Vec<(String, Json)>, k: &str) -> (r: Result<
    Option<&'a Vec<(String, Json)>>,
    FeatureError,
>)
    ensures
        r matches Ok(o) ==> o matches Some(v) ==> get_opt_obj(json_view_members(fs@), k@)
            == Ok::<_, FeatureErrorV>(Some(json_view_members(v@))),
        r matches Ok(o) ==> o is None ==> get_opt_obj(json_view_members(fs@), k@) == Ok::<
            _,
            FeatureErrorV,
        >(None::<Seq<(Seq<char>, JsonV)>>),
        r matches Err(e) ==> get_opt_obj(json_view_members(fs@), k@) == Err::<
            Option<Seq<(Seq<char>, JsonV)>>,
            _,
        >(e@),
{
    match find_field(fs, k) {
        None => Ok(None),
        Some(j) => match j {
            Json::Null => Ok(None),
            Json::Obj(v) => Ok(Some(v)),
            _ => Err(FeatureError::ParseError(k.to_owned())),
        },
    }
}

fn decode_start_end_fields(fs: &Vec<(String, Json)>) -> (r: Result<StartEndCoords, FeatureError>)
    ensures
        r matches Ok(c) ==> decode_start_end(json_view_members(fs@)) == Ok::<_, FeatureErrorV>(
            c@,
        ),
        r matches Err(e) ==> decode_start_end(json_view_members(fs@)) == Err::<StartEndCoordsV, _>(
            e@,
        ),
{
    let start = match get_u64_field(fs, "start") {
        Ok(v) => v,
        Err(e) => {
            return Err(e);
        },
    };
    let end = match get_u64_field(fs, "end") {
        Ok(v) => v,
        Err(e) => {
            return Err(e);
        },
    };
    Ok(StartEndCoords { start, end })
}

fn decode_genome_fields(fs: &Vec<(String, Json)>) -> (r: Result<GenomeCoords, FeatureError>)
    ensures
        r matches Ok(c) ==> decode_genome(json_view_members(fs@)) == Ok::<_, FeatureErrorV>(c@),
        r matches Err(e) ==> decode_genome(json_view_members(fs@)) == Err::<GenomeCoordsV, _>(e@),
{
    let assembly_name = match get_string(fs, "assembly_name") {
        Ok(v) => v,
        Err(e) => {
            return Err(e);
        },
    };
    let seq_region_name = match get_string(fs, "seq_region_name") {
        Ok(v) => v,
        Err(e) => {
            return Err(e);
        },
    };
    let coords = match decode_start_end_fields(fs) {
        Ok(v) => v,
        Err(e) => {
            return Err(e);
        },
    };
    let strand = match get_int_field(fs, "strand", -128, 127) {
        Ok(v) => v as i8,
        Err(e) => {
            return Err(e);
        },
    };
    Ok(GenomeCoords { assembly_name, seq_region_name, coords, strand })
}

fn decode_meta_fields(fs: &Vec<(String, Json)>) -> (r: Result<MetaInfo, FeatureError>)
    ensures
        r matches Ok(m) ==> decode_meta(json_view_members(fs@)) == Ok::<_, FeatureErrorV>(m@),
        r matches Err(e) ==> decode_meta(json_view_members(fs@)) == Err::<MetaInfoV, _>(e@),
{
    let id = match get_string(fs, "id") {
        Ok(v) => v,
        Err(e) => {
            return Err(e);
        },
    };
    let db_type = match get_string(fs, "db_type") {
        Ok(v) => v,
        Err(e) => {
            return Err(e);
        },
    };
    let species = match get_string(fs, "species") {
        Ok(v) => v,
        Err(e) => {
            return Err(e);
        },
    };
    let version = match get_u64_field(fs, "version") {
        Ok(v) => v,
        Err(e) => {
            return Err(e);
        },
    };
    Ok(MetaInfo { id, db_type, species, version })
}

fn decode_protein_fields(fs: &Vec<(String, Json)>) -> (r: Result<Protein, FeatureError>)
    ensures
        r matches Ok(p) ==> decode_protein(json_view_members(fs@)) == Ok::<_, FeatureErrorV>(p@),
        r matches Err(e) ==> decode_protein(json_view_members(fs@)) == Err::<ProteinV, _>(e@),
{
    let length = match get_int_field(fs, "length", -0x8000_0000, 0x7fff_ffff) {
        Ok(v) => v as i32,
        Err(e) => {
            return Err(e);
        },
    };
    let parent = match get_string(fs, "Parent") {
        Ok(v) => v,
        Err(e) => {
            return Err(e);
        },
    };
    let coords = match decode_start_end_fields(fs) {
        Ok(v) => v,
        Err(e) => {
            return Err(e);
        },
    };
    let meta = match decode_meta_fields(fs) {
        Ok(v) => v,
        Err(e) => {
            return Err(e);
        },
    };
    Ok(Protein { length, parent, coords, meta })
}

fn decode_exon_fields(fs: &Vec<(String, Json)>) -> (r: Result<Exon, FeatureError>)
    ensures
        r matches Ok(x) ==> decode_exon(json_view_members(fs@)) == Ok::<_, FeatureErrorV>(x@),
        r matches Err(e) ==> decode_exon(json_view_members(fs@)) == Err::<ExonV, _>(e@),
{
    let coords = match decode_genome_fields(fs) {
        Ok(v) => v,
        Err(e) => {
            return Err(e);
        },
    };
    let meta = match decode_meta_fields(fs) {
        Ok(v) => v,
        Err(e) => {
            return Err(e);
        },
    };
    Ok(Exon { coords, meta })
}

fn decode_exon_array(arr: &Vec<Json>) -> (r: Result<Vec<Exon>, FeatureError>)
    ensures
        r matches Ok(es) ==> decode_exon_list(json_view_seq(arr@), 0, Seq::empty()) == Ok::<
            _,
            FeatureErrorV,
        >(es.deep_view()),
        r matches Err(e) ==> decode_exon_list(json_view_seq(arr@), 0, Seq::empty()) == Err::<
            Seq<ExonV>,
            _,
        >(e@),
{
    let ghost vsv = json_view_seq(arr@);
    proof {
        lemma_json_view_seq(arr@);
    }
    let mut out: Vec<Exon> = Vec::new();
    proof {
        assert(out.deep_view() =~= Seq::<ExonV>::empty());
    }
    let mut idx: usize = 0;
    while idx < arr.len()
        invariant
            idx <= arr@.len(),
            vsv == json_view_seq(arr@),
            vsv.len() == arr@.len(),
            forall|q: int| 0 <= q < arr@.len() ==> vsv[q] == json_view(arr@[q]),
            decode_exon_list(vsv, 0, Seq::empty()) == decode_exon_list(
                vsv,
                idx as int,
                out.deep_view(),
            ),
        decreases arr@.len() - idx,
    {
        match &arr[idx] {
            Json::Obj(efs) => {
                match decode_exon_fields(efs) {
                    Ok(ex) => {
                        let ghost out_before = out;
                        out.push(ex);
                        proof {
                            lemma_deep_view_push(out_before, out, ex);
                        }
                    },
                    Err(e) => {
                        return Err(e);
                    },
                }
            },
            _ => {
                return Err(FeatureError::ParseError("Exon".to_owned()));
            },
        }
        idx = idx + 1;
    }
    Ok(out)
}

fn decode_transcript_fields(fs: &Vec<(String, Json)>) -> (r: Result<Transcript, FeatureError>)
    ensures
        r matches Ok(t) ==> decode_transcript(json_view_members(fs@)) == Ok::<_, FeatureErrorV>(
            t@,
        ),
        r matches Err(e) ==> decode_transcript(json_view_members(fs@)) == Err::<TranscriptV, _>(
            e@,
        ),
{
    let parent = match get_string(fs, "Parent") {
        Ok(v) => v,
        Err(e) => {
            return Err(e);
        },
    };
    let exons: Option<Vec<Exon>> = match get_opt_arr_field(fs, "Exon") {
        Ok(None) => None,
        Ok(Some(arr)) => match decode_exon_array(arr) {
            Ok(es) => Some(es),
            Err(e) => {
                return Err(e);
            },
        },
        Err(e) => {
            return Err(e);
        },
    };
    let translation: Option<Protein> = match get_opt_obj_field(fs, "Translation") {
        Ok(None) => None,
        Ok(Some(pfs)) => match decode_protein_fields(pfs) {
            Ok(p) => Some(p),
            Err(e) => {
                return Err(e);
            },
        },
        Err(e) => {
            return Err(e);
        },
    };
    let is_canonical = match get_u64_field(fs, "is_canonical") {
        Ok(v) => v,
        Err(e) => {
            return Err(e);
        },
    };
    let length = match get_u64_field(fs, "length") {
        Ok(v) => v,
        Err(e) => {
            return Err(e);
        },
    };
    let coords = match decode_genome_fields(fs) {
        Ok(v) => v,
        Err(e) => {
            return Err(e);
        },
    };
    let meta = match decode_meta_fields(fs) {
        Ok(v) => v,
        Err(e) => {
            return Err(e);
        },
    };
    let display_name = match get_string(fs, "display_name") {
        Ok(v) => v,
        Err(e) => {
            return Err(e);
        },
    };
    let logic_name = match get_string(fs, "logic_name") {
        Ok(v) => v,
        Err(e) => {
            return Err(e);
        },
    };
    let biotype = match get_string(fs, "biotype") {
        Ok(v) => v,
        Err(e) => {
            return Err(e);
        },
    };
    let source = match get_string(fs, "source") {
        Ok(v) => v,
        Err(e) => {
            return Err(e);
        },
    };
    Ok(
        Transcript {
            parent,
            exons,
            translation,
            is_canonical,
            length,
            coords,
            meta,
            display_name,
            logic_name,
            biotype,
            source,
        },
    )
}

fn decode_transcript_array(arr: &Vec<Json>) -> (r: Result<Vec<Transcript>, FeatureError>)
    ensures
        r matches Ok(ts) ==> decode_transcript_list(json_view_seq(arr@), 0, Seq::empty()) == Ok::<
            _,
            FeatureErrorV,
        >(ts.deep_view()),
        r matches Err(e) ==> decode_transcript_list(json_view_seq(arr@), 0, Seq::empty()) == Err::<
            Seq<TranscriptV>,
            _,
        >(e@),
{
    let ghost vsv = json_view_seq(arr@);
    proof {
        lemma_json_view_seq(arr@);
    }
    let mut out: Vec<Transcript> = Vec::new();
    proof {
        assert(out.deep_view() =~= Seq::<TranscriptV>::empty());
    }
    let mut idx: usize = 0;
    while idx < arr.len()
        invariant
            idx <= arr@.len(),
            vsv == json_view_seq(arr@),
            vsv.len() == arr@.len(),
            forall|q: int| 0 <= q < arr@.len() ==> vsv[q] == json_view(arr@[q]),
            decode_transcript_list(vsv, 0, Seq::empty()) == decode_transcript_list(
                vsv,
                idx as int,
                out.deep_view(),
            ),
        decreases arr@.len() - idx,
    {
        match &arr[idx] {
            Json::Obj(tfs) => {
                match decode_transcript_fields(tfs) {
                    Ok(t) => {
                        let ghost out_before = out;
                        out.push(t);
                        proof {
                            lemma_deep_view_push(out_before, out, t);
                        }
                    },
                    Err(e) => {
                        return Err(e);
                    },
                }
            },
            _ => {
                return Err(FeatureError::ParseError("Transcript".to_owned()));
            },
        }
        idx = idx + 1;
    }
    Ok(out)
}

fn decode_gene_fields(fs: &Vec<(String, Json)>) -> (r: Result<Gene, FeatureError>)
    ensures
        r matches Ok(g) ==> decode_gene(json_view_members(fs@)) == Ok::<_, FeatureErrorV>(g@),
        r matches Err(e) ==> decode_gene(json_view_members(fs@)) == Err::<GeneV, _>(e@),
{
    let canonical_transcript = match get_string(fs, "canonical_transcript") {
        Ok(v) => v,
        Err(e) => {
            return Err(e);
        },
    };
    let description = match get_string(fs, "description") {
        Ok(v) => v,
        Err(e) => {
            return Err(e);
        },
    };
    let transcripts: Option<Vec<Transcript>> = match get_opt_arr_field(fs, "Transcript") {
        Ok(None) => None,
        Ok(Some(arr)) => match decode_transcript_array(arr) {
            Ok(ts) => Some(ts),
            Err(e) => {
                return Err(e);
            },
        },
        Err(e) => {
            return Err(e);
        },
    };
    let coords = match decode_genome_fields(fs) {
        Ok(v) => v,
        Err(e) => {
            return Err(e);
        },
    };
    let meta = match decode_meta_fields(fs) {
        Ok(v) => v,
        Err(e) => {
            return Err(e);
        },
    };
    let display_name = match get_string(fs, "display_name") {
        Ok(v) => v,
        Err(e) => {
            return Err(e);
        },
    };
    let logic_name = match get_string(fs, "logic_name") {
        Ok(v) => v,
        Err(e) => {
            return Err(e);
        },
    };
    let biotype = match get_string(fs, "biotype") {
        Ok(v) => v,
        Err(e) => {
            return Err(e);
        },
    };
    let source = match get_string(fs, "source") {
        Ok(v) => v,
        Err(e) => {
            return Err(e);
        },
    };
    Ok(
        Gene {
            canonical_transcript,
            description,
            transcripts,
            coords,
            meta,
            display_name,
            logic_name,
            biotype,
            source,
        },
    )
}

/// Decodes one feature object, dispatching on its `object_type`.
pub fn decode_feature_fields(fs: &Vec<(String, Json)>) -> (r: Result<
    EnsemblFeature,
    FeatureError,
>)
    ensures
        r matches Ok(f) ==> decode_feature(json_view_members(fs@)) == Ok::<_, FeatureErrorV>(f@),
        r matches Err(e) ==> decode_feature(json_view_members(fs@)) == Err::<EnsemblFeatureV, _>(
            e@,
        ),
{
    let tag = match get_string(fs, "object_type") {
        Ok(v) => v,
        Err(e) => {
            return Err(e);
        },
    };
    let kind = match identify_object(tag.as_str()) {
        Ok(v) => v,
        Err(e) => {
            return Err(e);
        },
    };
    match kind {
        FeatureKind::Gene => match decode_gene_fields(fs) {
            Ok(g) => Ok(EnsemblFeature::Gene(g)),
            Err(e) => Err(e),
        },
        FeatureKind::Transcript => match decode_transcript_fields(fs) {
            Ok(t) => Ok(EnsemblFeature::Transcript(t)),
            Err(e) => Err(e),
        },
        FeatureKind::Exon => match decode_exon_fields(fs) {
            Ok(x) => Ok(EnsemblFeature::Exon(x)),
            Err(e) => Err(e),
        },
        FeatureKind::Protein => match decode_protein_fields(fs) {
            Ok(p) => Ok(EnsemblFeature::Protein(p)),
            Err(e) => Err(e),
        },
    }
}

// Encoding: the inverse direction, used to re-serialize a feature in the
// same flattened wire shape. Absent optional collections are omitted
// rather than written as null; nested records carry no discriminator.

/// An integral number value; a zero magnitude never carries the sign.
pub open spec fn num_of(v: int) -> JsonV {
    JsonV::Num {
        neg: v < 0,
        mag: (if v < 0 {
            -v
        } else {
            v
        }) as u64,
    }
}

pub open spec fn encode_start_end(c: StartEndCoordsV) -> Seq<(Seq<char>, JsonV)> {
    seq![
        ("start"@, JsonV::Num { neg: false, mag: c.start }),
        ("end"@, JsonV::Num { neg: false, mag: c.end }),
    ]
}

pub open spec fn encode_genome(c: GenomeCoordsV) -> Seq<(Seq<char>, JsonV)> {
    seq![
        ("assembly_name"@, JsonV::Str(c.assembly_name)),
        ("seq_region_name"@, JsonV::Str(c.seq_region_name)),
        ("start"@, JsonV::Num { neg: false, mag: c.coords.start }),
        ("end"@, JsonV::Num { neg: false, mag: c.coords.end }),
        ("strand"@, num_of(c.strand as int)),
    ]
}

pub open spec fn encode_meta(m: MetaInfoV) -> Seq<(Seq<char>, JsonV)> {
    seq![
        ("id"@, JsonV::Str(m.id)),
        ("db_type"@, JsonV::Str(m.db_type)),
        ("species"@, JsonV::Str(m.species)),
        ("version"@, JsonV::Num { neg: false, mag: m.version }),
    ]
}

pub open spec fn encode_protein(p: ProteinV) -> Seq<(Seq<char>, JsonV)> {
    seq![("length"@, num_of(p.length as int)), ("Parent"@, JsonV::Str(p.parent))]
        + encode_start_end(p.coords) + encode_meta(p.meta)
}

pub open spec fn encode_exon(x: ExonV) -> Seq<(Seq<char>, JsonV)> {
    encode_genome(x.coords) + encode_meta(x.meta)
}

pub open spec fn encode_exon_objs(es: Seq<ExonV>) -> Seq<JsonV> {
    Seq::new(es.len(), |i: int| JsonV::Obj(encode_exon(es[i])))
}

pub open spec fn encode_transcript(t: TranscriptV) -> Seq<(Seq<char>, JsonV)> {
    seq![
        ("Parent"@, JsonV::Str(t.parent)),
        ("is_canonical"@, JsonV::Num { neg: false, mag: t.is_canonical }),
        ("length"@, JsonV::Num { neg: false, mag: t.length }),
        ("display_name"@, JsonV::Str(t.display_name)),
        ("logic_name"@, JsonV::Str(t.logic_name)),
        ("biotype"@, JsonV::Str(t.biotype)),
        ("source"@, JsonV::Str(t.source)),
    ] + encode_genome(t.coords) + encode_meta(t.meta) + (match t.exons {
        Some(es) => seq![("Exon"@, JsonV::Arr(encode_exon_objs(es)))],
        None => Seq::empty(),
    }) + (match t.translation {
        Some(p) => seq![("Translation"@, JsonV::Obj(encode_protein(p)))],
        None => Seq::empty(),
    })
}

pub open spec fn encode_transcript_objs(ts: Seq<TranscriptV>) -> Seq<JsonV> {
    Seq::new(ts.len(), |i: int| JsonV::Obj(encode_transcript(ts[i])))
}

pub open spec fn encode_gene(g: GeneV) -> Seq<(Seq<char>, JsonV)> {
    seq![
        ("canonical_transcript"@, JsonV::Str(g.canonical_transcript)),
        ("description"@, JsonV::Str(g.description)),
        ("display_name"@, JsonV::Str(g.display_name)),
        ("logic_name"@, JsonV::Str(g.logic_name)),
        ("biotype"@, JsonV::Str(g.biotype)),
        ("source"@, JsonV::Str(g.source)),
    ] + encode_genome(g.coords) + encode_meta(g.meta) + (match g.transcripts {
        Some(ts) => seq![("Transcript"@, JsonV::Arr(encode_transcript_objs(ts)))],
        None => Seq::empty(),
    })
}

/// The member list of a whole serialized feature: the discriminator first,
/// then the variant's fields.
pub open spec fn encode_feature(f: EnsemblFeatureV) -> Seq<(Seq<char>, JsonV)> {
    match f {
        EnsemblFeatureV::Gene(g) => seq![("object_type"@, JsonV::Str("Gene"@))] + encode_gene(g),
        EnsemblFeatureV::Transcript(t) => seq![("object_type"@, JsonV::Str("Transcript"@))]
            + encode_transcript(t),
        EnsemblFeatureV::Exon(x) => seq![("object_type"@, JsonV::Str("Exon"@))] + encode_exon(x),
        EnsemblFeatureV::Protein(p) => seq![("object_type"@, JsonV::Str("Translation"@))]
            + encode_protein(p),
    }
}

// The executable encoder.

fn encode_int(v: i64) -> (j: Json)
    ensures
        j@ == num_of(v as int),
{
    if v < 0 {
        let mag: u64 = ((-(v + 1)) as u64) + 1;
        Json::Num { neg: true, mag }
    } else {
        Json::Num { neg: false, mag: v as u64 }
    }
}

fn encode_start_end_fields(c: &StartEndCoords) -> (o: Vec<(String, Json)>)
    ensures
        json_view_members(o@) == encode_start_end(c@),
{
    let mut o: Vec<(String, Json)> = Vec::new();
    o.push(("start".to_owned(), Json::Num { neg: false, mag: c.start }));
    o.push(("end".to_owned(), Json::Num { neg: false, mag: c.end }));
    proof {
        lemma_json_view_members(o@);
        assert(json_view_members(o@) =~= encode_start_end(c@));
    }
    o
}

fn encode_genome_fields(c: &GenomeCoords) -> (o: Vec<(String, Json)>)
    ensures
        json_view_members(o@) == encode_genome(c@),
{
    let mut o: Vec<(String, Json)> = Vec::new();
    o.push(("assembly_name".to_owned(), Json::Str(c.assembly_name.clone())));
    o.push(("seq_region_name".to_owned(), Json::Str(c.seq_region_name.clone())));
    o.push(("start".to_owned(), Json::Num { neg: false, mag: c.coords.start }));
    o.push(("end".to_owned(), Json::Num { neg: false, mag: c.coords.end }));
    o.push(("strand".to_owned(), encode_int(c.strand as i64)));
    proof {
        lemma_json_view_members(o@);
        assert(json_view_members(o@) =~= encode_genome(c@));
    }
    o
}

fn encode_meta_fields(m: &MetaInfo) -> (o: Vec<(String, Json)>)
    ensures
        json_view_members(o@) == encode_meta(m@),
{
    let mut o: Vec<(String, Json)> = Vec::new();
    o.push(("id".to_owned(), Json::Str(m.id.clone())));
    o.push(("db_type".to_owned(), Json::Str(m.db_type.clone())));
    o.push(("species".to_owned(), Json::Str(m.species.clone())));
    o.push(("version".to_owned(), Json::Num { neg: false, mag: m.version }));
    proof {
        lemma_json_view_members(o@);
        assert(json_view_members(o@) =~= encode_meta(m@));
    }
    o
}

fn encode_protein_fields(p: &Protein) -> (o: Vec<(String, Json)>)
    ensures
        json_view_members(o@) == encode_protein(p@),
{
    let mut o: Vec<(String, Json)> = Vec::new();
    o.push(("length".to_owned(), encode_int(p.length as i64)));
    o.push(("Parent".to_owned(), Json::Str(p.parent.clone())));
    let ghost head = o@;
    let mut c = encode_start_end_fields(&p.coords);
    let ghost cv = c@;
    o.append(&mut c);
    proof {
        lemma_view_members_concat(head, cv);
    }
    let ghost head2 = o@;
    let mut m = encode_meta_fields(&p.meta);
    let ghost mv = m@;
    o.append(&mut m);
    proof {
        lemma_view_members_concat(head2, mv);
        lemma_json_view_members(head);
        assert(json_view_members(o@) =~= encode_protein(p@));
    }
    o
}

fn encode_exon_fields(x: &Exon) -> (o: Vec<(String, Json)>)
    ensures
        json_view_members(o@) == encode_exon(x@),
{
    let mut o = encode_genome_fields(&x.coords);
    let ghost head = o@;
    let mut m = encode_meta_fields(&x.meta);
    let ghost mv = m@;
    o.append(&mut m);
    proof {
        lemma_view_members_concat(head, mv);
        assert(json_view_members(o@) =~= encode_exon(x@));
    }
    o
}

fn encode_exon_array(es: &Vec<Exon>) -> (o: Vec<Json>)
    ensures
        json_view_seq(o@) == encode_exon_objs(es.deep_view()),
{
    let ghost esv = es.deep_view();
    let mut o: Vec<Json> = Vec::new();
    proof {
        lemma_json_view_seq(o@);
        assert(json_view_seq(o@) =~= encode_exon_objs(esv).subrange(0, 0));
    }
    let mut i: usize = 0;
    while i < es.len()
        invariant
            i <= es@.len(),
            esv == es.deep_view(),
            esv.len() == es@.len(),
            json_view_seq(o@) == encode_exon_objs(esv).subrange(0, i as int),
        decreases es@.len() - i,
    {
        let efs = encode_exon_fields(&es[i]);
        let ghost before = o@;
        o.push(Json::Obj(efs));
        proof {
            crate::json::lemma_view_seq_push(before, Json::Obj(efs));
            assert(esv[i as int] == es@[i as int]@);
            assert(json_view_seq(o@) =~= encode_exon_objs(esv).subrange(0, i + 1));
        }
        i = i + 1;
    }
    proof {
        assert(encode_exon_objs(esv).subrange(0, esv.len() as int) =~= encode_exon_objs(esv));
    }
    o
}

fn encode_transcript_fields(t: &Transcript) -> (o: Vec<(String, Json)>)
    ensures
        json_view_members(o@) == encode_transcript(t@),
{
    let mut o: Vec<(String, Json)> = Vec::new();
    o.push(("Parent".to_owned(), Json::Str(t.parent.clone())));
    o.push(("is_canonical".to_owned(), Json::Num { neg: false, mag: t.is_canonical }));
    o.push(("length".to_owned(), Json::Num { neg: false, mag: t.length }));
    o.push(("display_name".to_owned(), Json::Str(t.display_name.clone())));
    o.push(("logic_name".to_owned(), Json::Str(t.logic_name.clone())));
    o.push(("biotype".to_owned(), Json::Str(t.biotype.clone())));
    o.push(("source".to_owned(), Json::Str(t.source.clone())));
    let ghost head = o@;
    let mut c = encode_genome_fields(&t.coords);
    let ghost cv = c@;
    o.append(&mut c);
    proof {
        lemma_view_members_concat(head, cv);
    }
    let ghost head2 = o@;
    let mut m = encode_meta_fields(&t.meta);
    let ghost mv = m@;
    o.append(&mut m);
    proof {
        lemma_view_members_concat(head2, mv);
    }
    match &t.exons {
        Some(es) => {
            let objs = encode_exon_array(es);
            let key = "Exon".to_owned();
            let val = Json::Arr(objs);
            let ghost before = o@;
            let ghost keyg = key;
            let ghost valg = val;
            o.push((key, val));
            proof {
                crate::json::lemma_view_members_push(before, keyg, valg);
            }
        },
        None => {},
    }
    match &t.translation {
        Some(p) => {
            let pfs = encode_protein_fields(p);
            let key = "Translation".to_owned();
            let val = Json::Obj(pfs);
            let ghost before = o@;
            let ghost keyg = key;
            let ghost valg = val;
            o.push((key, val));
            proof {
                crate::json::lemma_view_members_push(before, keyg, valg);
            }
        },
        None => {},
    }
    proof {
        lemma_json_view_members(head);
        assert(json_view_members(o@) =~= encode_transcript(t@));
    }
    o
}

fn encode_transcript_array(ts: &Vec<Transcript>) -> (o: Vec<Json>)
    ensures
        json_view_seq(o@) == encode_transcript_objs(ts.deep_view()),
{
    let ghost tsv = ts.deep_view();
    let mut o: Vec<Json> = Vec::new();
    proof {
        lemma_json_view_seq(o@);
        assert(json_view_seq(o@) =~= encode_transcript_objs(tsv).subrange(0, 0));
    }
    let mut i: usize = 0;
    while i < ts.len()
        invariant
            i <= ts@.len(),
            tsv == ts.deep_view(),
            tsv.len() == ts@.len(),
            json_view_seq(o@) == encode_transcript_objs(tsv).subrange(0, i as int),
        decreases ts@.len() - i,
    {
        let tfs = encode_transcript_fields(&ts[i]);
        let ghost before = o@;
        o.push(Json::Obj(tfs));
        proof {
            crate::json::lemma_view_seq_push(before, Json::Obj(tfs));
            assert(tsv[i as int] == ts@[i as int]@);
            assert(json_view_seq(o@) =~= encode_transcript_objs(tsv).subrange(0, i + 1));
        }
        i = i + 1;
    }
    proof {
        assert(encode_transcript_objs(tsv).subrange(0, tsv.len() as int) =~= encode_transcript_objs(
            tsv,
        ));
    }
    o
}

fn encode_gene_fields(g: &Gene) -> (o: Vec<(String, Json)>)
    ensures
        json_view_members(o@) == encode_gene(g@),
{
    let mut o: Vec<(String, Json)> = Vec::new();
    o.push(("canonical_transcript".to_owned(), Json::Str(g.canonical_transcript.clone())));
    o.push(("description".to_owned(), Json::Str(g.description.clone())));
    o.push(("display_name".to_owned(), Json::Str(g.display_name.clone())));
    o.push(("logic_name".to_owned(), Json::Str(g.logic_name.clone())));
    o.push(("biotype".to_owned(), Json::Str(g.biotype.clone())));
    o.push(("source".to_owned(), Json::Str(g.source.clone())));
    let ghost head = o@;
    let mut c = encode_genome_fields(&g.coords);
    let ghost cv = c@;
    o.append(&mut c);
    proof {
        lemma_view_members_concat(head, cv);
    }
    let ghost head2 = o@;
    let mut m = encode_meta_fields(&g.meta);
    let ghost mv = m@;
    o.append(&mut m);
    proof {
        lemma_view_members_concat(head2, mv);
    }
    match &g.transcripts {
        Some(ts) => {
            let objs = encode_transcript_array(ts);
            let key = "Transcript".to_owned();
            let val = Json::Arr(objs);
            let ghost before = o@;
            let ghost keyg = key;
            let ghost valg = val;
            o.push((key, val));
            proof {
                crate::json::lemma_view_members_push(before, keyg, valg);
            }
        },
        None => {},
    }
    proof {
        lemma_json_view_members(head);
        assert(json_view_members(o@) =~= encode_gene(g@));
    }
    o
}

/// Builds the member list of a whole serialized feature.
pub fn encode_feature_fields(f: &EnsemblFeature) -> (o: Vec<(String, Json)>)
    ensures
        json_view_members(o@) == encode_feature(f@),
{
    let mut o: Vec<(String, Json)> = Vec::new();
    match f {
        EnsemblFeature::Gene(g) => {
            o.push(("object_type".to_owned(), Json::Str("Gene".to_owned())));
            let ghost head = o@;
            let mut rest = encode_gene_fields(g);
            let ghost restv = rest@;
            o.append(&mut rest);
            proof {
                lemma_view_members_concat(head, restv);
                lemma_json_view_members(head);
                assert(json_view_members(o@) =~= encode_feature(f@));
            }
        },
        EnsemblFeature::Transcript(t) => {
            o.push(("object_type".to_owned(), Json::Str("Transcript".to_owned())));
            let ghost head = o@;
            let mut rest = encode_transcript_fields(t);
            let ghost restv = rest@;
            o.append(&mut rest);
            proof {
                lemma_view_members_concat(head, restv);
                lemma_json_view_members(head);
                assert(json_view_members(o@) =~= encode_feature(f@));
            }
        },
        EnsemblFeature::Exon(x) => {
            o.push(("object_type".to_owned(), Json::Str("Exon".to_owned())));
            let ghost head = o@;
            let mut rest = encode_exon_fields(x);
            let ghost restv = rest@;
            o.append(&mut rest);
            proof {
                lemma_view_members_concat(head, restv);
                lemma_json_view_members(head);
                assert(json_view_members(o@) =~= encode_feature(f@));
            }
        },
        EnsemblFeature::Protein(p) => {
            o.push(("object_type".to_owned(), Json::Str("Translation".to_owned())));
            let ghost head = o@;
            let mut rest = encode_protein_fields(p);
            let ghost restv = rest@;
            o.append(&mut rest);
            proof {
                lemma_view_members_concat(head, restv);
                lemma_json_view_members(head);
                assert(json_view_members(o@) =~= encode_feature(f@));
            }
        },
    }
    o
}

/// Serializes a feature back into the flattened wire shape, as canonical
/// JSON text: the discriminator first, then the variant's fields, with
/// absent optional collections omitted.
pub fn serialize_feature(f: &EnsemblFeature) -> (r: String)
    ensures
        r@ == crate::json::json_text(JsonV::Obj(encode_feature(f@))),
{
    let fields = encode_feature_fields(f);
    let j = Json::Obj(fields);
    crate::json::json_to_string(&j)
}

// The round-trip law: decoding what encoding produced gives back every
// field value exactly, for every feature; only the discriminator moves
// between the member list and the variant tag.

/// Looking up past a prefix lands where a lookup in the rest would.
proof fn lemma_lookup_shift(
    pre: Seq<(Seq<char>, JsonV)>,
    rest: Seq<(Seq<char>, JsonV)>,
    k: Seq<char>,
    i: int,
)
    requires
        0 <= i <= rest.len(),
    ensures
        lookup_from(pre + rest, k, pre.len() + i) == lookup_from(rest, k, i),
    decreases rest.len() - i,
{
    if i < rest.len() {
        assert((pre + rest)[pre.len() + i] == rest[i]);
        if rest[i].0 != k {
            lemma_lookup_shift(pre, rest, k, i + 1);
        }
    }
}

/// A prefix that does not hold the key does not affect the lookup.
proof fn lemma_lookup_prefix(
    pre: Seq<(Seq<char>, JsonV)>,
    rest: Seq<(Seq<char>, JsonV)>,
    k: Seq<char>,
    p: int,
)
    requires
        0 <= p <= pre.len(),
        forall|q: int| 0 <= q < pre.len() ==> (#[trigger] pre[q].0) != k,
    ensures
        lookup_from(pre + rest, k, p) == lookup(rest, k),
    decreases pre.len() - p,
{
    if p < pre.len() {
        assert((pre + rest)[p] == pre[p]);
        lemma_lookup_prefix(pre, rest, k, p + 1);
    } else {
        lemma_lookup_shift(pre, rest, k, 0);
    }
}

/// Whether `pre` holds none of the flattened coordinate and metadata keys.
pub open spec fn no_shared_keys(pre: Seq<(Seq<char>, JsonV)>) -> bool {
    forall|q: int|
        0 <= q < pre.len() ==> (#[trigger] pre[q].0) != "start"@ && pre[q].0 != "end"@ && pre[q].0
            != "assembly_name"@ && pre[q].0 != "seq_region_name"@ && pre[q].0 != "strand"@
            && pre[q].0 != "id"@ && pre[q].0 != "db_type"@ && pre[q].0 != "species"@ && pre[q].0
            != "version"@
}

/// Whether `pre` holds none of the protein keys.
pub open spec fn no_protein_keys(pre: Seq<(Seq<char>, JsonV)>) -> bool {
    &&& no_shared_keys(pre)
    &&& forall|q: int|
        0 <= q < pre.len() ==> (#[trigger] pre[q].0) != "length"@ && pre[q].0 != "Parent"@
}

/// Whether `pre` holds none of the transcript keys.
pub open spec fn no_transcript_keys(pre: Seq<(Seq<char>, JsonV)>) -> bool {
    &&& no_protein_keys(pre)
    &&& forall|q: int|
        0 <= q < pre.len() ==> (#[trigger] pre[q].0) != "Exon"@ && pre[q].0 != "Translation"@
            && pre[q].0 != "is_canonical"@ && pre[q].0 != "display_name"@ && pre[q].0
            != "logic_name"@ && pre[q].0 != "biotype"@ && pre[q].0 != "source"@
}

/// Whether `pre` holds none of the gene keys.
pub open spec fn no_gene_keys(pre: Seq<(Seq<char>, JsonV)>) -> bool {
    &&& no_shared_keys(pre)
    &&& forall|q: int|
        0 <= q < pre.len() ==> (#[trigger] pre[q].0) != "canonical_transcript"@ && pre[q].0
            != "description"@ && pre[q].0 != "Transcript"@ && pre[q].0 != "display_name"@
            && pre[q].0 != "logic_name"@ && pre[q].0 != "biotype"@ && pre[q].0 != "source"@
}

proof fn lemma_rt_start_end(pre: Seq<(Seq<char>, JsonV)>, flat: Seq<(Seq<char>, JsonV)>, c: StartEndCoordsV)
    requires
        no_shared_keys(pre),
        lookup(flat, "start"@) == Some(JsonV::Num { neg: false, mag: c.start }),
        lookup(flat, "end"@) == Some(JsonV::Num { neg: false, mag: c.end }),
    ensures
        decode_start_end(pre + flat) == Ok::<_, FeatureErrorV>(c),
{
    lemma_lookup_prefix(pre, flat, "start"@, 0);
    lemma_lookup_prefix(pre, flat, "end"@, 0);
    assert(StartEndCoordsV { start: c.start, end: c.end } =~= c);
}

proof fn lemma_rt_meta(pre: Seq<(Seq<char>, JsonV)>, flat: Seq<(Seq<char>, JsonV)>, m: MetaInfoV)
    requires
        no_shared_keys(pre),
        lookup(flat, "id"@) == Some(JsonV::Str(m.id)),
        lookup(flat, "db_type"@) == Some(JsonV::Str(m.db_type)),
        lookup(flat, "species"@) == Some(JsonV::Str(m.species)),
        lookup(flat, "version"@) == Some(JsonV::Num { neg: false, mag: m.version }),
    ensures
        decode_meta(pre + flat) == Ok::<_, FeatureErrorV>(m),
{
    lemma_lookup_prefix(pre, flat, "id"@, 0);
    lemma_lookup_prefix(pre, flat, "db_type"@, 0);
    lemma_lookup_prefix(pre, flat, "species"@, 0);
    lemma_lookup_prefix(pre, flat, "version"@, 0);
    assert(MetaInfoV { id: m.id, db_type: m.db_type, species: m.species, version: m.version }
        =~= m);
}

proof fn lemma_rt_genome(pre: Seq<(Seq<char>, JsonV)>, flat: Seq<(Seq<char>, JsonV)>, c: GenomeCoordsV)
    requires
        no_shared_keys(pre),
        lookup(flat, "assembly_name"@) == Some(JsonV::Str(c.assembly_name)),
        lookup(flat, "seq_region_name"@) == Some(JsonV::Str(c.seq_region_name)),
        lookup(flat, "start"@) == Some(JsonV::Num { neg: false, mag: c.coords.start }),
        lookup(flat, "end"@) == Some(JsonV::Num { neg: false, mag: c.coords.end }),
        lookup(flat, "strand"@) == Some(num_of(c.strand as int)),
    ensures
        decode_genome(pre + flat) == Ok::<_, FeatureErrorV>(c),
{
    lemma_lookup_prefix(pre, flat, "assembly_name"@, 0);
    lemma_lookup_prefix(pre, flat, "seq_region_name"@, 0);
    lemma_rt_start_end(pre, flat, c.coords);
    lemma_lookup_prefix(pre, flat, "strand"@, 0);
    assert(get_int(pre + flat, "strand"@, -128, 127) == Ok::<_, FeatureErrorV>(
        c.strand as int,
    ));
    assert(GenomeCoordsV {
        assembly_name: c.assembly_name,
        seq_region_name: c.seq_region_name,
        coords: c.coords,
        strand: (c.strand as int) as i8,
    } =~= c);
}

/// The protein keys each sit in `encode_protein(p)` with their encoded
/// values.
#[verifier::rlimit(60)]
proof fn lemma_rt_protein(pre: Seq<(Seq<char>, JsonV)>, p: ProteinV)
    requires
        no_protein_keys(pre),
    ensures
        decode_protein(pre + encode_protein(p)) == Ok::<_, FeatureErrorV>(p),
{
    reveal_strlit("length");
    reveal_strlit("Parent");
    reveal_strlit("start");
    reveal_strlit("end");
    reveal_strlit("id");
    reveal_strlit("db_type");
    reveal_strlit("species");
    reveal_strlit("version");
    assert("length"@.len() == 6);
    assert("length"@[0] == 'l');
    assert("Parent"@.len() == 6);
    assert("Parent"@[0] == 'P');
    assert("start"@.len() == 5);
    assert("start"@[0] == 's');
    assert("start"@[1] == 't');
    assert("end"@.len() == 3);
    assert("end"@[0] == 'e');
    assert("id"@.len() == 2);
    assert("id"@[0] == 'i');
    assert("db_type"@.len() == 7);
    assert("db_type"@[0] == 'd');
    assert("species"@.len() == 7);
    assert("species"@[0] == 's');
    assert("species"@[1] == 'p');
    assert("version"@.len() == 7);
    assert("version"@[0] == 'v');
    let flat = encode_protein(p);
    assert(flat.len() == 8);
    assert(flat[0] == ("length"@, num_of(p.length as int)));
    assert(flat[1] == ("Parent"@, JsonV::Str(p.parent)));
    assert(flat[2] == ("start"@, JsonV::Num { neg: false, mag: p.coords.start }));
    assert(flat[3] == ("end"@, JsonV::Num { neg: false, mag: p.coords.end }));
    assert(flat[4] == ("id"@, JsonV::Str(p.meta.id)));
    assert(flat[5] == ("db_type"@, JsonV::Str(p.meta.db_type)));
    assert(flat[6] == ("species"@, JsonV::Str(p.meta.species)));
    assert(flat[7] == ("version"@, JsonV::Num { neg: false, mag: p.meta.version }));
    assert(lookup(flat, "length"@) == Some(flat[0].1));
    assert(lookup_from(flat, "Parent"@, 0) == lookup_from(flat, "Parent"@, 1));
    assert(lookup(flat, "Parent"@) == Some(flat[1].1));
    assert(lookup_from(flat, "start"@, 0) == lookup_from(flat, "start"@, 1));
    assert(lookup_from(flat, "start"@, 1) == lookup_from(flat, "start"@, 2));
    assert(lookup(flat, "start"@) == Some(flat[2].1));
    assert(lookup_from(flat, "end"@, 0) == lookup_from(flat, "end"@, 1));
    assert(lookup_from(flat, "end"@, 1) == lookup_from(flat, "end"@, 2));
    assert(lookup_from(flat, "end"@, 2) == lookup_from(flat, "end"@, 3));
    assert(lookup(flat, "end"@) == Some(flat[3].1));
    assert(lookup_from(flat, "id"@, 0) == lookup_from(flat, "id"@, 1));
    assert(lookup_from(flat, "id"@, 1) == lookup_from(flat, "id"@, 2));
    assert(lookup_from(flat, "id"@, 2) == lookup_from(flat, "id"@, 3));
    assert(lookup_from(flat, "id"@, 3) == lookup_from(flat, "id"@, 4));
    assert(lookup(flat, "id"@) == Some(flat[4].1));
    assert(lookup_from(flat, "db_type"@, 0) == lookup_from(flat, "db_type"@, 1));
    assert(lookup_from(flat, "db_type"@, 1) == lookup_from(flat, "db_type"@, 2));
    assert(lookup_from(flat, "db_type"@, 2) == lookup_from(flat, "db_type"@, 3));
    assert(lookup_from(flat, "db_type"@, 3) == lookup_from(flat, "db_type"@, 4));
    assert(lookup_from(flat, "db_type"@, 4) == lookup_from(flat, "db_type"@, 5));
    assert(lookup(flat, "db_type"@) == Some(flat[5].1));
    assert(lookup_from(flat, "species"@, 0) == lookup_from(flat, "species"@, 1));
    assert(lookup_from(flat, "species"@, 1) == lookup_from(flat, "species"@, 2));
    assert(lookup_from(flat, "species"@, 2) == lookup_from(flat, "species"@, 3));
    assert(lookup_from(flat, "species"@, 3) == lookup_from(flat, "species"@, 4));
    assert(lookup_from(flat, "species"@, 4) == lookup_from(flat, "species"@, 5));
    assert(lookup_from(flat, "species"@, 5) == lookup_from(flat, "species"@, 6));
    assert(lookup(flat, "species"@) == Some(flat[6].1));
    assert(lookup_from(flat, "version"@, 0) == lookup_from(flat, "version"@, 1));
    assert(lookup_from(flat, "version"@, 1) == lookup_from(flat, "version"@, 2));
    assert(lookup_from(flat, "version"@, 2) == lookup_from(flat, "version"@, 3));
    assert(lookup_from(flat, "version"@, 3) == lookup_from(flat, "version"@, 4));
    assert(lookup_from(flat, "version"@, 4) == lookup_from(flat, "version"@, 5));
    assert(lookup_from(flat, "version"@, 5) == lookup_from(flat, "version"@, 6));
    assert(lookup_from(flat, "version"@, 6) == lookup_from(flat, "version"@, 7));
    assert(lookup(flat, "version"@) == Some(flat[7].1));
    lemma_lookup_prefix(pre, flat, "length"@, 0);
    lemma_lookup_prefix(pre, flat, "Parent"@, 0);
    assert(get_int(pre + flat, "length"@, -0x8000_0000, 0x7fff_ffff) == Ok::<_, FeatureErrorV>(
        p.length as int,
    ));
    lemma_rt_start_end(pre, flat, p.coords);
    lemma_rt_meta(pre, flat, p.meta);
    assert(ProteinV {
        length: (p.length as int) as i32,
        parent: p.parent,
        coords: p.coords,
        meta: p.meta,
    } =~= p);
}

/// The exon keys each sit in `encode_exon(x)` with their encoded values.
#[verifier::rlimit(60)]
proof fn lemma_rt_exon(pre: Seq<(Seq<char>, JsonV)>, x: ExonV)
    requires
        no_shared_keys(pre),
    ensures
        decode_exon(pre + encode_exon(x)) == Ok::<_, FeatureErrorV>(x),
{
    reveal_strlit("assembly_name");
    reveal_strlit("seq_region_name");
    reveal_strlit("start");
    reveal_strlit("end");
    reveal_strlit("strand");
    reveal_strlit("id");
    reveal_strlit("db_type");
    reveal_strlit("species");
    reveal_strlit("version");
    assert("assembly_name"@.len() == 13);
    assert("assembly_name"@[0] == 'a');
    assert("seq_region_name"@.len() == 15);
    assert("seq_region_name"@[0] == 's');
    assert("seq_region_name"@[1] == 'e');
    assert("start"@.len() == 5);
    assert("start"@[0] == 's');
    assert("start"@[1] == 't');
    assert("end"@.len() == 3);
    assert("end"@[0] == 'e');
    assert("strand"@.len() == 6);
    assert("strand"@[0] == 's');
    assert("strand"@[1] == 't');
    assert("id"@.len() == 2);
    assert("id"@[0] == 'i');
    assert("db_type"@.len() == 7);
    assert("db_type"@[0] == 'd');
    assert("species"@.len() == 7);
    assert("species"@[0] == 's');
    assert("species"@[1] == 'p');
    assert("version"@.len() == 7);
    assert("version"@[0] == 'v');
    let flat = encode_exon(x);
    assert(flat.len() == 9);
    assert(flat[0] == ("assembly_name"@, JsonV::Str(x.coords.assembly_name)));
    assert(flat[1] == ("seq_region_name"@, JsonV::Str(x.coords.seq_region_name)));
    assert(flat[2] == ("start"@, JsonV::Num { neg: false, mag: x.coords.coords.start }));
    assert(flat[3] == ("end"@, JsonV::Num { neg: false, mag: x.coords.coords.end }));
    assert(flat[4] == ("strand"@, num_of(x.coords.strand as int)));
    assert(flat[5] == ("id"@, JsonV::Str(x.meta.id)));
    assert(flat[6] == ("db_type"@, JsonV::Str(x.meta.db_type)));
    assert(flat[7] == ("species"@, JsonV::Str(x.meta.species)));
    assert(flat[8] == ("version"@, JsonV::Num { neg: false, mag: x.meta.version }));
    assert(lookup(flat, "assembly_name"@) == Some(flat[0].1));
    assert(lookup_from(flat, "seq_region_name"@, 0) == lookup_from(flat, "seq_region_name"@, 1));
    assert(lookup(flat, "seq_region_name"@) == Some(flat[1].1));
    assert(lookup_from(flat, "start"@, 0) == lookup_from(flat, "start"@, 1));
    assert(lookup_from(flat, "start"@, 1) == lookup_from(flat, "start"@, 2));
    assert(lookup(flat, "start"@) == Some(flat[2].1));
    assert(lookup_from(flat, "end"@, 0) == lookup_from(flat, "end"@, 1));
    assert(lookup_from(flat, "end"@, 1) == lookup_from(flat, "end"@, 2));
    assert(lookup_from(flat, "end"@, 2) == lookup_from(flat, "end"@, 3));
    assert(lookup(flat, "end"@) == Some(flat[3].1));
    assert(lookup_from(flat, "strand"@, 0) == lookup_from(flat, "strand"@, 1));
    assert(lookup_from(flat, "strand"@, 1) == lookup_from(flat, "strand"@, 2));
    assert(lookup_from(flat, "strand"@, 2) == lookup_from(flat, "strand"@, 3));
    assert(lookup_from(flat, "strand"@, 3) == lookup_from(flat, "strand"@, 4));
    assert(lookup(flat, "strand"@) == Some(flat[4].1));
    assert(lookup_from(flat, "id"@, 0) == lookup_from(flat, "id"@, 1));
    assert(lookup_from(flat, "id"@, 1) == lookup_from(flat, "id"@, 2));
    assert(lookup_from(flat, "id"@, 2) == lookup_from(flat, "id"@, 3));
    assert(lookup_from(flat, "id"@, 3) == lookup_from(flat, "id"@, 4));
    assert(lookup_from(flat, "id"@, 4) == lookup_from(flat, "id"@, 5));
    assert(lookup(flat, "id"@) == Some(flat[5].1));
    assert(lookup_from(flat, "db_type"@, 0) == lookup_from(flat, "db_type"@, 1));
    assert(lookup_from(flat, "db_type"@, 1) == lookup_from(flat, "db_type"@, 2));
    assert(lookup_from(flat, "db_type"@, 2) == lookup_from(flat, "db_type"@, 3));
    assert(lookup_from(flat, "db_type"@, 3) == lookup_from(flat, "db_type"@, 4));
    assert(lookup_from(flat, "db_type"@, 4) == lookup_from(flat, "db_type"@, 5));
    assert(lookup_from(flat, "db_type"@, 5) == lookup_from(flat, "db_type"@, 6));
    assert(lookup(flat, "db_type"@) == Some(flat[6].1));
    assert(lookup_from(flat, "species"@, 0) == lookup_from(flat, "species"@, 1));
    assert(lookup_from(flat, "species"@, 1) == lookup_from(flat, "species"@, 2));
    assert(lookup_from(flat, "species"@, 2) == lookup_from(flat, "species"@, 3));
    assert(lookup_from(flat, "species"@, 3) == lookup_from(flat, "species"@, 4));
    assert(lookup_from(flat, "species"@, 4) == lookup_from(flat, "species"@, 5));
    assert(lookup_from(flat, "species"@, 5) == lookup_from(flat, "species"@, 6));
    assert(lookup_from(flat, "species"@, 6) == lookup_from(flat, "species"@, 7));
    assert(lookup(flat, "species"@) == Some(flat[7].1));
    assert(lookup_from(flat, "version"@, 0) == lookup_from(flat, "version"@, 1));
    assert(lookup_from(flat, "version"@, 1) == lookup_from(flat, "version"@, 2));
    assert(lookup_from(flat, "version"@, 2) == lookup_from(flat, "version"@, 3));
    assert(lookup_from(flat, "version"@, 3) == lookup_from(flat, "version"@, 4));
    assert(lookup_from(flat, "version"@, 4) == lookup_from(flat, "version"@, 5));
    assert(lookup_from(flat, "version"@, 5) == lookup_from(flat, "version"@, 6));
    assert(lookup_from(flat, "version"@, 6) == lookup_from(flat, "version"@, 7));
    assert(lookup_from(flat, "version"@, 7) == lookup_from(flat, "version"@, 8));
    assert(lookup(flat, "version"@) == Some(flat[8].1));
    lemma_rt_genome(pre, flat, x.coords);
    lemma_rt_meta(pre, flat, x.meta);
    assert(ExonV { coords: x.coords, meta: x.meta } =~= x);
}

proof fn lemma_rt_exon_list(es: Seq<ExonV>, i: int, acc: Seq<ExonV>)
    requires
        0 <= i <= es.len(),
    ensures
        decode_exon_list(encode_exon_objs(es), i, acc) == Ok::<_, FeatureErrorV>(acc + es.skip(i)),
    decreases es.len() - i,
{
    let vs = encode_exon_objs(es);
    if i < es.len() {
        assert(vs[i] == JsonV::Obj(encode_exon(es[i])));
        lemma_rt_exon(Seq::empty(), es[i]);
        assert(Seq::empty() + encode_exon(es[i]) =~= encode_exon(es[i]));
        lemma_rt_exon_list(es, i + 1, acc.push(es[i]));
        assert(acc.push(es[i]) + es.skip(i + 1) =~= acc + es.skip(i));
    } else {
        assert(acc + es.skip(i) =~= acc);
    }
}

/// The transcript keys each sit in `encode_transcript(t)` with their
/// encoded values; the optional members are present exactly when the
/// options are.
#[verifier::rlimit(90)]
proof fn lemma_rt_transcript(pre: Seq<(Seq<char>, JsonV)>, t: TranscriptV)
    requires
        no_transcript_keys(pre),
    ensures
        decode_transcript(pre + encode_transcript(t)) == Ok::<_, FeatureErrorV>(t),
{
    reveal_strlit("Parent");
    reveal_strlit("is_canonical");
    reveal_strlit("length");
    reveal_strlit("display_name");
    reveal_strlit("logic_name");
    reveal_strlit("biotype");
    reveal_strlit("source");
    reveal_strlit("assembly_name");
    reveal_strlit("seq_region_name");
    reveal_strlit("start");
    reveal_strlit("end");
    reveal_strlit("strand");
    reveal_strlit("id");
    reveal_strlit("db_type");
    reveal_strlit("species");
    reveal_strlit("version");
    reveal_strlit("Exon");
    reveal_strlit("Translation");
    assert("Parent"@.len() == 6);
    assert("Parent"@[0] == 'P');
    assert("is_canonical"@.len() == 12);
    assert("is_canonical"@[0] == 'i');
    assert("length"@.len() == 6);
    assert("length"@[0] == 'l');
    assert("display_name"@.len() == 12);
    assert("display_name"@[0] == 'd');
    assert("logic_name"@.len() == 10);
    assert("logic_name"@[0] == 'l');
    assert("biotype"@.len() == 7);
    assert("biotype"@[0] == 'b');
    assert("source"@.len() == 6);
    assert("source"@[0] == 's');
    assert("source"@[1] == 'o');
    assert("assembly_name"@.len() == 13);
    assert("assembly_name"@[0] == 'a');
    assert("seq_region_name"@.len() == 15);
    assert("seq_region_name"@[0] == 's');
    assert("seq_region_name"@[1] == 'e');
    assert("start"@.len() == 5);
    assert("start"@[0] == 's');
    assert("start"@[1] == 't');
    assert("end"@.len() == 3);
    assert("end"@[0] == 'e');
    assert("strand"@.len() == 6);
    assert("strand"@[0] == 's');
    assert("strand"@[1] == 't');
    assert("id"@.len() == 2);
    assert("id"@[0] == 'i');
    assert("db_type"@.len() == 7);
    assert("db_type"@[0] == 'd');
    assert("species"@.len() == 7);
    assert("species"@[0] == 's');
    assert("species"@[1] == 'p');
    assert("version"@.len() == 7);
    assert("version"@[0] == 'v');
    assert("Exon"@.len() == 4);
    assert("Exon"@[0] == 'E');
    assert("Translation"@.len() == 11);
    assert("Translation"@[0] == 'T');
    let flat = encode_transcript(t);
    assert(flat[0] == ("Parent"@, JsonV::Str(t.parent)));
    assert(flat[1] == ("is_canonical"@, JsonV::Num { neg: false, mag: t.is_canonical }));
    assert(flat[2] == ("length"@, JsonV::Num { neg: false, mag: t.length }));
    assert(flat[3] == ("display_name"@, JsonV::Str(t.display_name)));
    assert(flat[4] == ("logic_name"@, JsonV::Str(t.logic_name)));
    assert(flat[5] == ("biotype"@, JsonV::Str(t.biotype)));
    assert(flat[6] == ("source"@, JsonV::Str(t.source)));
    assert(flat[7] == ("assembly_name"@, JsonV::Str(t.coords.assembly_name)));
    assert(flat[8] == ("seq_region_name"@, JsonV::Str(t.coords.seq_region_name)));
    assert(flat[9] == ("start"@, JsonV::Num { neg: false, mag: t.coords.coords.start }));
    assert(flat[10] == ("end"@, JsonV::Num { neg: false, mag: t.coords.coords.end }));
    assert(flat[11] == ("strand"@, num_of(t.coords.strand as int)));
    assert(flat[12] == ("id"@, JsonV::Str(t.meta.id)));
    assert(flat[13] == ("db_type"@, JsonV::Str(t.meta.db_type)));
    assert(flat[14] == ("species"@, JsonV::Str(t.meta.species)));
    assert(flat[15] == ("version"@, JsonV::Num { neg: false, mag: t.meta.version }));
    assert(lookup(flat, "Parent"@) == Some(flat[0].1));
    assert(lookup_from(flat, "is_canonical"@, 0) == lookup_from(flat, "is_canonical"@, 1));
    assert(lookup(flat, "is_canonical"@) == Some(flat[1].1));
    assert(lookup_from(flat, "length"@, 0) == lookup_from(flat, "length"@, 1));
    assert(lookup_from(flat, "length"@, 1) == lookup_from(flat, "length"@, 2));
    assert(lookup(flat, "length"@) == Some(flat[2].1));
    assert(lookup_from(flat, "display_name"@, 0) == lookup_from(flat, "display_name"@, 1));
    assert(lookup_from(flat, "display_name"@, 1) == lookup_from(flat, "display_name"@, 2));
    assert(lookup_from(flat, "display_name"@, 2) == lookup_from(flat, "display_name"@, 3));
    assert(lookup(flat, "display_name"@) == Some(flat[3].1));
    assert(lookup_from(flat, "logic_name"@, 0) == lookup_from(flat, "logic_name"@, 1));
    assert(lookup_from(flat, "logic_name"@, 1) == lookup_from(flat, "logic_name"@, 2));
    assert(lookup_from(flat, "logic_name"@, 2) == lookup_from(flat, "logic_name"@, 3));
    assert(lookup_from(flat, "logic_name"@, 3) == lookup_from(flat, "logic_name"@, 4));
    assert(lookup(flat, "logic_name"@) == Some(flat[4].1));
    assert(lookup_from(flat, "biotype"@, 0) == lookup_from(flat, "biotype"@, 1));
    assert(lookup_from(flat, "biotype"@, 1) == lookup_from(flat, "biotype"@, 2));
    assert(lookup_from(flat, "biotype"@, 2) == lookup_from(flat, "biotype"@, 3));
    assert(lookup_from(flat, "biotype"@, 3) == lookup_from(flat, "biotype"@, 4));
    assert(lookup_from(flat, "biotype"@, 4) == lookup_from(flat, "biotype"@, 5));
    assert(lookup(flat, "biotype"@) == Some(flat[5].1));
    assert(lookup_from(flat, "source"@, 0) == lookup_from(flat, "source"@, 1));
    assert(lookup_from(flat, "source"@, 1) == lookup_from(flat, "source"@, 2));
    assert(lookup_from(flat, "source"@, 2) == lookup_from(flat, "source"@, 3));
    assert(lookup_from(flat, "source"@, 3) == lookup_from(flat, "source"@, 4));
    assert(lookup_from(flat, "source"@, 4) == lookup_from(flat, "source"@, 5));
    assert(lookup_from(flat, "source"@, 5) == lookup_from(flat, "source"@, 6));
    assert(lookup(flat, "source"@) == Some(flat[6].1));
    assert(lookup_from(flat, "assembly_name"@, 0) == lookup_from(flat, "assembly_name"@, 1));
    assert(lookup_from(flat, "assembly_name"@, 1) == lookup_from(flat, "assembly_name"@, 2));
    assert(lookup_from(flat, "assembly_name"@, 2) == lookup_from(flat, "assembly_name"@, 3));
    assert(lookup_from(flat, "assembly_name"@, 3) == lookup_from(flat, "assembly_name"@, 4));
    assert(lookup_from(flat, "assembly_name"@, 4) == lookup_from(flat, "assembly_name"@, 5));
    assert(lookup_from(flat, "assembly_name"@, 5) == lookup_from(flat, "assembly_name"@, 6));
    assert(lookup_from(flat, "assembly_name"@, 6) == lookup_from(flat, "assembly_name"@, 7));
    assert(lookup(flat, "assembly_name"@) == Some(flat[7].1));
    assert(lookup_from(flat, "seq_region_name"@, 0) == lookup_from(flat, "seq_region_name"@, 1));
    assert(lookup_from(flat, "seq_region_name"@, 1) == lookup_from(flat, "seq_region_name"@, 2));
    assert(lookup_from(flat, "seq_region_name"@, 2) == lookup_from(flat, "seq_region_name"@, 3));
    assert(lookup_from(flat, "seq_region_name"@, 3) == lookup_from(flat, "seq_region_name"@, 4));
    assert(lookup_from(flat, "seq_region_name"@, 4) == lookup_from(flat, "seq_region_name"@, 5));
    assert(lookup_from(flat, "seq_region_name"@, 5) == lookup_from(flat, "seq_region_name"@, 6));
    assert(lookup_from(flat, "seq_region_name"@, 6) == lookup_from(flat, "seq_region_name"@, 7));
    assert(lookup_from(flat, "seq_region_name"@, 7) == lookup_from(flat, "seq_region_name"@, 8));
    assert(lookup(flat, "seq_region_name"@) == Some(flat[8].1));
    assert(lookup_from(flat, "start"@, 0) == lookup_from(flat, "start"@, 1));
    assert(lookup_from(flat, "start"@, 1) == lookup_from(flat, "start"@, 2));
    assert(lookup_from(flat, "start"@, 2) == lookup_from(flat, "start"@, 3));
    assert(lookup_from(flat, "start"@, 3) == lookup_from(flat, "start"@, 4));
    assert(lookup_from(flat, "start"@, 4) == lookup_from(flat, "start"@, 5));
    assert(lookup_from(flat, "start"@, 5) == lookup_from(flat, "start"@, 6));
    assert(lookup_from(flat, "start"@, 6) == lookup_from(flat, "start"@, 7));
    assert(lookup_from(flat, "start"@, 7) == lookup_from(flat, "start"@, 8));
    assert(lookup_from(flat, "start"@, 8) == lookup_from(flat, "start"@, 9));
    assert(lookup(flat, "start"@) == Some(flat[9].1));
    assert(lookup_from(flat, "end"@, 0) == lookup_from(flat, "end"@, 1));
    assert(lookup_from(flat, "end"@, 1) == lookup_from(flat, "end"@, 2));
    assert(lookup_from(flat, "end"@, 2) == lookup_from(flat, "end"@, 3));
    assert(lookup_from(flat, "end"@, 3) == lookup_from(flat, "end"@, 4));
    assert(lookup_from(flat, "end"@, 4) == lookup_from(flat, "end"@, 5));
    assert(lookup_from(flat, "end"@, 5) == lookup_from(flat, "end"@, 6));
    assert(lookup_from(flat, "end"@, 6) == lookup_from(flat, "end"@, 7));
    assert(lookup_from(flat, "end"@, 7) == lookup_from(flat, "end"@, 8));
    assert(lookup_from(flat, "end"@, 8) == lookup_from(flat, "end"@, 9));
    assert(lookup_from(flat, "end"@, 9) == lookup_from(flat, "end"@, 10));
    assert(lookup(flat, "end"@) == Some(flat[10].1));
    assert(lookup_from(flat, "strand"@, 0) == lookup_from(flat, "strand"@, 1));
    assert(lookup_from(flat, "strand"@, 1) == lookup_from(flat, "strand"@, 2));
    assert(lookup_from(flat, "strand"@, 2) == lookup_from(flat, "strand"@, 3));
    assert(lookup_from(flat, "strand"@, 3) == lookup_from(flat, "strand"@, 4));
    assert(lookup_from(flat, "strand"@, 4) == lookup_from(flat, "strand"@, 5));
    assert(lookup_from(flat, "strand"@, 5) == lookup_from(flat, "strand"@, 6));
    assert(lookup_from(flat, "strand"@, 6) == lookup_from(flat, "strand"@, 7));
    assert(lookup_from(flat, "strand"@, 7) == lookup_from(flat, "strand"@, 8));
    assert(lookup_from(flat, "strand"@, 8) == lookup_from(flat, "strand"@, 9));
    assert(lookup_from(flat, "strand"@, 9) == lookup_from(flat, "strand"@, 10));
    assert(lookup_from(flat, "strand"@, 10) == lookup_from(flat, "strand"@, 11));
    assert(lookup(flat, "strand"@) == Some(flat[11].1));
    assert(lookup_from(flat, "id"@, 0) == lookup_from(flat, "id"@, 1));
    assert(lookup_from(flat, "id"@, 1) == lookup_from(flat, "id"@, 2));
    assert(lookup_from(flat, "id"@, 2) == lookup_from(flat, "id"@, 3));
    assert(lookup_from(flat, "id"@, 3) == lookup_from(flat, "id"@, 4));
    assert(lookup_from(flat, "id"@, 4) == lookup_from(flat, "id"@, 5));
    assert(lookup_from(flat, "id"@, 5) == lookup_from(flat, "id"@, 6));
    assert(lookup_from(flat, "id"@, 6) == lookup_from(flat, "id"@, 7));
    assert(lookup_from(flat, "id"@, 7) == lookup_from(flat, "id"@, 8));
    assert(lookup_from(flat, "id"@, 8) == lookup_from(flat, "id"@, 9));
    assert(lookup_from(flat, "id"@, 9) == lookup_from(flat, "id"@, 10));
    assert(lookup_from(flat, "id"@, 10) == lookup_from(flat, "id"@, 11));
    assert(lookup_from(flat, "id"@, 11) == lookup_from(flat, "id"@, 12));
    assert(lookup(flat, "id"@) == Some(flat[12].1));
    assert(lookup_from(flat, "db_type"@, 0) == lookup_from(flat, "db_type"@, 1));
    assert(lookup_from(flat, "db_type"@, 1) == lookup_from(flat, "db_type"@, 2));
    assert(lookup_from(flat, "db_type"@, 2) == lookup_from(flat, "db_type"@, 3));
    assert(lookup_from(flat, "db_type"@, 3) == lookup_from(flat, "db_type"@, 4));
    assert(lookup_from(flat, "db_type"@, 4) == lookup_from(flat, "db_type"@, 5));
    assert(lookup_from(flat, "db_type"@, 5) == lookup_from(flat, "db_type"@, 6));
    assert(lookup_from(flat, "db_type"@, 6) == lookup_from(flat, "db_type"@, 7));
    assert(lookup_from(flat, "db_type"@, 7) == lookup_from(flat, "db_type"@, 8));
    assert(lookup_from(flat, "db_type"@, 8) == lookup_from(flat, "db_type"@, 9));
    assert(lookup_from(flat, "db_type"@, 9) == lookup_from(flat, "db_type"@, 10));
    assert(lookup_from(flat, "db_type"@, 10) == lookup_from(flat, "db_type"@, 11));
    assert(lookup_from(flat, "db_type"@, 11) == lookup_from(flat, "db_type"@, 12));
    assert(lookup_from(flat, "db_type"@, 12) == lookup_from(flat, "db_type"@, 13));
    assert(lookup(flat, "db_type"@) == Some(flat[13].1));
    assert(lookup_from(flat, "species"@, 0) == lookup_from(flat, "species"@, 1));
    assert(lookup_from(flat, "species"@, 1) == lookup_from(flat, "species"@, 2));
    assert(lookup_from(flat, "species"@, 2) == lookup_from(flat, "species"@, 3));
    assert(lookup_from(flat, "species"@, 3) == lookup_from(flat, "species"@, 4));
    assert(lookup_from(flat, "species"@, 4) == lookup_from(flat, "species"@, 5));
    assert(lookup_from(flat, "species"@, 5) == lookup_from(flat, "species"@, 6));
    assert(lookup_from(flat, "species"@, 6) == lookup_from(flat, "species"@, 7));
    assert(lookup_from(flat, "species"@, 7) == lookup_from(flat, "species"@, 8));
    assert(lookup_from(flat, "species"@, 8) == lookup_from(flat, "species"@, 9));
    assert(lookup_from(flat, "species"@, 9) == lookup_from(flat, "species"@, 10));
    assert(lookup_from(flat, "species"@, 10) == lookup_from(flat, "species"@, 11));
    assert(lookup_from(flat, "species"@, 11) == lookup_from(flat, "species"@, 12));
    assert(lookup_from(flat, "species"@, 12) == lookup_from(flat, "species"@, 13));
    assert(lookup_from(flat, "species"@, 13) == lookup_from(flat, "species"@, 14));
    assert(lookup(flat, "species"@) == Some(flat[14].1));
    assert(lookup_from(flat, "version"@, 0) == lookup_from(flat, "version"@, 1));
    assert(lookup_from(flat, "version"@, 1) == lookup_from(flat, "version"@, 2));
    assert(lookup_from(flat, "version"@, 2) == lookup_from(flat, "version"@, 3));
    assert(lookup_from(flat, "version"@, 3) == lookup_from(flat, "version"@, 4));
    assert(lookup_from(flat, "version"@, 4) == lookup_from(flat, "version"@, 5));
    assert(lookup_from(flat, "version"@, 5) == lookup_from(flat, "version"@, 6));
    assert(lookup_from(flat, "version"@, 6) == lookup_from(flat, "version"@, 7));
    assert(lookup_from(flat, "version"@, 7) == lookup_from(flat, "version"@, 8));
    assert(lookup_from(flat, "version"@, 8) == lookup_from(flat, "version"@, 9));
    assert(lookup_from(flat, "version"@, 9) == lookup_from(flat, "version"@, 10));
    assert(lookup_from(flat, "version"@, 10) == lookup_from(flat, "version"@, 11));
    assert(lookup_from(flat, "version"@, 11) == lookup_from(flat, "version"@, 12));
    assert(lookup_from(flat, "version"@, 12) == lookup_from(flat, "version"@, 13));
    assert(lookup_from(flat, "version"@, 13) == lookup_from(flat, "version"@, 14));
    assert(lookup_from(flat, "version"@, 14) == lookup_from(flat, "version"@, 15));
    assert(lookup(flat, "version"@) == Some(flat[15].1));
    match t.exons {
        Some(es) => {
            assert(flat[16] == ("Exon"@, JsonV::Arr(encode_exon_objs(es))));
            assert(lookup_from(flat, "Exon"@, 0) == lookup_from(flat, "Exon"@, 1));
            assert(lookup_from(flat, "Exon"@, 1) == lookup_from(flat, "Exon"@, 2));
            assert(lookup_from(flat, "Exon"@, 2) == lookup_from(flat, "Exon"@, 3));
            assert(lookup_from(flat, "Exon"@, 3) == lookup_from(flat, "Exon"@, 4));
            assert(lookup_from(flat, "Exon"@, 4) == lookup_from(flat, "Exon"@, 5));
            assert(lookup_from(flat, "Exon"@, 5) == lookup_from(flat, "Exon"@, 6));
            assert(lookup_from(flat, "Exon"@, 6) == lookup_from(flat, "Exon"@, 7));
            assert(lookup_from(flat, "Exon"@, 7) == lookup_from(flat, "Exon"@, 8));
            assert(lookup_from(flat, "Exon"@, 8) == lookup_from(flat, "Exon"@, 9));
            assert(lookup_from(flat, "Exon"@, 9) == lookup_from(flat, "Exon"@, 10));
            assert(lookup_from(flat, "Exon"@, 10) == lookup_from(flat, "Exon"@, 11));
            assert(lookup_from(flat, "Exon"@, 11) == lookup_from(flat, "Exon"@, 12));
            assert(lookup_from(flat, "Exon"@, 12) == lookup_from(flat, "Exon"@, 13));
            assert(lookup_from(flat, "Exon"@, 13) == lookup_from(flat, "Exon"@, 14));
            assert(lookup_from(flat, "Exon"@, 14) == lookup_from(flat, "Exon"@, 15));
            assert(lookup_from(flat, "Exon"@, 15) == lookup_from(flat, "Exon"@, 16));
            assert(lookup(flat, "Exon"@) == Some(flat[16].1));
            lemma_lookup_prefix(pre, flat, "Exon"@, 0);
            lemma_rt_exon_list(es, 0, Seq::empty());
            assert(Seq::<ExonV>::empty() + es.skip(0) =~= es);
        },
        None => {
            if t.translation is Some {
                assert(flat.len() == 17);
                assert(flat[16].0 == "Translation"@);
                assert(lookup_from(flat, "Exon"@, 0) == lookup_from(flat, "Exon"@, 1));
                assert(lookup_from(flat, "Exon"@, 1) == lookup_from(flat, "Exon"@, 2));
                assert(lookup_from(flat, "Exon"@, 2) == lookup_from(flat, "Exon"@, 3));
                assert(lookup_from(flat, "Exon"@, 3) == lookup_from(flat, "Exon"@, 4));
                assert(lookup_from(flat, "Exon"@, 4) == lookup_from(flat, "Exon"@, 5));
                assert(lookup_from(flat, "Exon"@, 5) == lookup_from(flat, "Exon"@, 6));
                assert(lookup_from(flat, "Exon"@, 6) == lookup_from(flat, "Exon"@, 7));
                assert(lookup_from(flat, "Exon"@, 7) == lookup_from(flat, "Exon"@, 8));
                assert(lookup_from(flat, "Exon"@, 8) == lookup_from(flat, "Exon"@, 9));
                assert(lookup_from(flat, "Exon"@, 9) == lookup_from(flat, "Exon"@, 10));
                assert(lookup_from(flat, "Exon"@, 10) == lookup_from(flat, "Exon"@, 11));
                assert(lookup_from(flat, "Exon"@, 11) == lookup_from(flat, "Exon"@, 12));
                assert(lookup_from(flat, "Exon"@, 12) == lookup_from(flat, "Exon"@, 13));
                assert(lookup_from(flat, "Exon"@, 13) == lookup_from(flat, "Exon"@, 14));
                assert(lookup_from(flat, "Exon"@, 14) == lookup_from(flat, "Exon"@, 15));
                assert(lookup_from(flat, "Exon"@, 15) == lookup_from(flat, "Exon"@, 16));
                assert(lookup_from(flat, "Exon"@, 16) == lookup_from(flat, "Exon"@, 17));
                assert(lookup(flat, "Exon"@) is None);
            } else {
                assert(flat.len() == 16);
                assert(lookup_from(flat, "Exon"@, 0) == lookup_from(flat, "Exon"@, 1));
                assert(lookup_from(flat, "Exon"@, 1) == lookup_from(flat, "Exon"@, 2));
                assert(lookup_from(flat, "Exon"@, 2) == lookup_from(flat, "Exon"@, 3));
                assert(lookup_from(flat, "Exon"@, 3) == lookup_from(flat, "Exon"@, 4));
                assert(lookup_from(flat, "Exon"@, 4) == lookup_from(flat, "Exon"@, 5));
                assert(lookup_from(flat, "Exon"@, 5) == lookup_from(flat, "Exon"@, 6));
                assert(lookup_from(flat, "Exon"@, 6) == lookup_from(flat, "Exon"@, 7));
                assert(lookup_from(flat, "Exon"@, 7) == lookup_from(flat, "Exon"@, 8));
                assert(lookup_from(flat, "Exon"@, 8) == lookup_from(flat, "Exon"@, 9));
                assert(lookup_from(flat, "Exon"@, 9) == lookup_from(flat, "Exon"@, 10));
                assert(lookup_from(flat, "Exon"@, 10) == lookup_from(flat, "Exon"@, 11));
                assert(lookup_from(flat, "Exon"@, 11) == lookup_from(flat, "Exon"@, 12));
                assert(lookup_from(flat, "Exon"@, 12) == lookup_from(flat, "Exon"@, 13));
                assert(lookup_from(flat, "Exon"@, 13) == lookup_from(flat, "Exon"@, 14));
                assert(lookup_from(flat, "Exon"@, 14) == lookup_from(flat, "Exon"@, 15));
                assert(lookup_from(flat, "Exon"@, 15) == lookup_from(flat, "Exon"@, 16));
                assert(lookup(flat, "Exon"@) is None);
            }
            lemma_lookup_prefix(pre, flat, "Exon"@, 0);
        },
    }
    match t.translation {
        Some(p) => {
            if t.exons is Some {
                assert(flat[17] == ("Translation"@, JsonV::Obj(encode_protein(p))));
                assert(lookup_from(flat, "Translation"@, 0) == lookup_from(flat, "Translation"@, 1));
                assert(lookup_from(flat, "Translation"@, 1) == lookup_from(flat, "Translation"@, 2));
                assert(lookup_from(flat, "Translation"@, 2) == lookup_from(flat, "Translation"@, 3));
                assert(lookup_from(flat, "Translation"@, 3) == lookup_from(flat, "Translation"@, 4));
                assert(lookup_from(flat, "Translation"@, 4) == lookup_from(flat, "Translation"@, 5));
                assert(lookup_from(flat, "Translation"@, 5) == lookup_from(flat, "Translation"@, 6));
                assert(lookup_from(flat, "Translation"@, 6) == lookup_from(flat, "Translation"@, 7));
                assert(lookup_from(flat, "Translation"@, 7) == lookup_from(flat, "Translation"@, 8));
                assert(lookup_from(flat, "Translation"@, 8) == lookup_from(flat, "Translation"@, 9));
                assert(lookup_from(flat, "Translation"@, 9) == lookup_from(flat, "Translation"@, 10));
                assert(lookup_from(flat, "Translation"@, 10) == lookup_from(flat, "Translation"@, 11));
                assert(lookup_from(flat, "Translation"@, 11) == lookup_from(flat, "Translation"@, 12));
                assert(lookup_from(flat, "Translation"@, 12) == lookup_from(flat, "Translation"@, 13));
                assert(lookup_from(flat, "Translation"@, 13) == lookup_from(flat, "Translation"@, 14));
                assert(lookup_from(flat, "Translation"@, 14) == lookup_from(flat, "Translation"@, 15));
                assert(lookup_from(flat, "Translation"@, 15) == lookup_from(flat, "Translation"@, 16));
                assert(lookup_from(flat, "Translation"@, 16) == lookup_from(flat, "Translation"@, 17));
                assert(lookup(flat, "Translation"@) == Some(flat[17].1));
            } else {
                assert(flat[16] == ("Translation"@, JsonV::Obj(encode_protein(p))));
                assert(lookup_from(flat, "Translation"@, 0) == lookup_from(flat, "Translation"@, 1));
                assert(lookup_from(flat, "Translation"@, 1) == lookup_from(flat, "Translation"@, 2));
                assert(lookup_from(flat, "Translation"@, 2) == lookup_from(flat, "Translation"@, 3));
                assert(lookup_from(flat, "Translation"@, 3) == lookup_from(flat, "Translation"@, 4));
                assert(lookup_from(flat, "Translation"@, 4) == lookup_from(flat, "Translation"@, 5));
                assert(lookup_from(flat, "Translation"@, 5) == lookup_from(flat, "Translation"@, 6));
                assert(lookup_from(flat, "Translation"@, 6) == lookup_from(flat, "Translation"@, 7));
                assert(lookup_from(flat, "Translation"@, 7) == lookup_from(flat, "Translation"@, 8));
                assert(lookup_from(flat, "Translation"@, 8) == lookup_from(flat, "Translation"@, 9));
                assert(lookup_from(flat, "Translation"@, 9) == lookup_from(flat, "Translation"@, 10));
                assert(lookup_from(flat, "Translation"@, 10) == lookup_from(flat, "Translation"@, 11));
                assert(lookup_from(flat, "Translation"@, 11) == lookup_from(flat, "Translation"@, 12));
                assert(lookup_from(flat, "Translation"@, 12) == lookup_from(flat, "Translation"@, 13));
                assert(lookup_from(flat, "Translation"@, 13) == lookup_from(flat, "Translation"@, 14));
                assert(lookup_from(flat, "Translation"@, 14) == lookup_from(flat, "Translation"@, 15));
                assert(lookup_from(flat, "Translation"@, 15) == lookup_from(flat, "Translation"@, 16));
                assert(lookup(flat, "Translation"@) == Some(flat[16].1));
            }
            lemma_lookup_prefix(pre, flat, "Translation"@, 0);
            lemma_rt_protein(Seq::empty(), p);
            assert(Seq::empty() + encode_protein(p) =~= encode_protein(p));
        },
        None => {
            if t.exons is Some {
                assert(flat.len() == 17);
                assert(flat[16].0 == "Exon"@);
                assert(lookup_from(flat, "Translation"@, 0) == lookup_from(flat, "Translation"@, 1));
                assert(lookup_from(flat, "Translation"@, 1) == lookup_from(flat, "Translation"@, 2));
                assert(lookup_from(flat, "Translation"@, 2) == lookup_from(flat, "Translation"@, 3));
                assert(lookup_from(flat, "Translation"@, 3) == lookup_from(flat, "Translation"@, 4));
                assert(lookup_from(flat, "Translation"@, 4) == lookup_from(flat, "Translation"@, 5));
                assert(lookup_from(flat, "Translation"@, 5) == lookup_from(flat, "Translation"@, 6));
                assert(lookup_from(flat, "Translation"@, 6) == lookup_from(flat, "Translation"@, 7));
                assert(lookup_from(flat, "Translation"@, 7) == lookup_from(flat, "Translation"@, 8));
                assert(lookup_from(flat, "Translation"@, 8) == lookup_from(flat, "Translation"@, 9));
                assert(lookup_from(flat, "Translation"@, 9) == lookup_from(flat, "Translation"@, 10));
                assert(lookup_from(flat, "Translation"@, 10) == lookup_from(flat, "Translation"@, 11));
                assert(lookup_from(flat, "Translation"@, 11) == lookup_from(flat, "Translation"@, 12));
                assert(lookup_from(flat, "Translation"@, 12) == lookup_from(flat, "Translation"@, 13));
                assert(lookup_from(flat, "Translation"@, 13) == lookup_from(flat, "Translation"@, 14));
                assert(lookup_from(flat, "Translation"@, 14) == lookup_from(flat, "Translation"@, 15));
                assert(lookup_from(flat, "Translation"@, 15) == lookup_from(flat, "Translation"@, 16));
                assert(lookup_from(flat, "Translation"@, 16) == lookup_from(flat, "Translation"@, 17));
                assert(lookup(flat, "Translation"@) is None);
            } else {
                assert(flat.len() == 16);
                assert(lookup_from(flat, "Translation"@, 0) == lookup_from(flat, "Translation"@, 1));
                assert(lookup_from(flat, "Translation"@, 1) == lookup_from(flat, "Translation"@, 2));
                assert(lookup_from(flat, "Translation"@, 2) == lookup_from(flat, "Translation"@, 3));
                assert(lookup_from(flat, "Translation"@, 3) == lookup_from(flat, "Translation"@, 4));
                assert(lookup_from(flat, "Translation"@, 4) == lookup_from(flat, "Translation"@, 5));
                assert(lookup_from(flat, "Translation"@, 5) == lookup_from(flat, "Translation"@, 6));
                assert(lookup_from(flat, "Translation"@, 6) == lookup_from(flat, "Translation"@, 7));
                assert(lookup_from(flat, "Translation"@, 7) == lookup_from(flat, "Translation"@, 8));
                assert(lookup_from(flat, "Translation"@, 8) == lookup_from(flat, "Translation"@, 9));
                assert(lookup_from(flat, "Translation"@, 9) == lookup_from(flat, "Translation"@, 10));
                assert(lookup_from(flat, "Translation"@, 10) == lookup_from(flat, "Translation"@, 11));
                assert(lookup_from(flat, "Translation"@, 11) == lookup_from(flat, "Translation"@, 12));
                assert(lookup_from(flat, "Translation"@, 12) == lookup_from(flat, "Translation"@, 13));
                assert(lookup_from(flat, "Translation"@, 13) == lookup_from(flat, "Translation"@, 14));
                assert(lookup_from(flat, "Translation"@, 14) == lookup_from(flat, "Translation"@, 15));
                assert(lookup_from(flat, "Translation"@, 15) == lookup_from(flat, "Translation"@, 16));
                assert(lookup(flat, "Translation"@) is None);
            }
            lemma_lookup_prefix(pre, flat, "Translation"@, 0);
        },
    }
    lemma_lookup_prefix(pre, flat, "Parent"@, 0);
    lemma_lookup_prefix(pre, flat, "is_canonical"@, 0);
    lemma_lookup_prefix(pre, flat, "length"@, 0);
    lemma_lookup_prefix(pre, flat, "display_name"@, 0);
    lemma_lookup_prefix(pre, flat, "logic_name"@, 0);
    lemma_lookup_prefix(pre, flat, "biotype"@, 0);
    lemma_lookup_prefix(pre, flat, "source"@, 0);
    lemma_rt_genome(pre, flat, t.coords);
    lemma_rt_meta(pre, flat, t.meta);
    assert(TranscriptV {
        parent: t.parent,
        exons: t.exons,
        translation: t.translation,
        is_canonical: t.is_canonical,
        length: t.length,
        coords: t.coords,
        meta: t.meta,
        display_name: t.display_name,
        logic_name: t.logic_name,
        biotype: t.biotype,
        source: t.source,
    } =~= t);
}

proof fn lemma_rt_transcript_list(ts: Seq<TranscriptV>, i: int, acc: Seq<TranscriptV>)
    requires
        0 <= i <= ts.len(),
    ensures
        decode_transcript_list(encode_transcript_objs(ts), i, acc) == Ok::<_, FeatureErrorV>(
            acc + ts.skip(i),
        ),
    decreases ts.len() - i,
{
    let vs = encode_transcript_objs(ts);
    if i < ts.len() {
        assert(vs[i] == JsonV::Obj(encode_transcript(ts[i])));
        lemma_rt_transcript(Seq::empty(), ts[i]);
        assert(Seq::empty() + encode_transcript(ts[i]) =~= encode_transcript(ts[i]));
        lemma_rt_transcript_list(ts, i + 1, acc.push(ts[i]));
        assert(acc.push(ts[i]) + ts.skip(i + 1) =~= acc + ts.skip(i));
    } else {
        assert(acc + ts.skip(i) =~= acc);
    }
}

/// The gene keys each sit in `encode_gene(g)` with their encoded values;
/// the optional transcript list is present exactly when the option is.
#[verifier::rlimit(90)]
proof fn lemma_rt_gene(pre: Seq<(Seq<char>, JsonV)>, g: GeneV)
    requires
        no_gene_keys(pre),
    ensures
        decode_gene(pre + encode_gene(g)) == Ok::<_, FeatureErrorV>(g),
{
    reveal_strlit("canonical_transcript");
    reveal_strlit("description");
    reveal_strlit("display_name");
    reveal_strlit("logic_name");
    reveal_strlit("biotype");
    reveal_strlit("source");
    reveal_strlit("assembly_name");
    reveal_strlit("seq_region_name");
    reveal_strlit("start");
    reveal_strlit("end");
    reveal_strlit("strand");
    reveal_strlit("id");
    reveal_strlit("db_type");
    reveal_strlit("species");
    reveal_strlit("version");
    reveal_strlit("Transcript");
    assert("canonical_transcript"@.len() == 20);
    assert("canonical_transcript"@[0] == 'c');
    assert("description"@.len() == 11);
    assert("description"@[0] == 'd');
    assert("display_name"@.len() == 12);
    assert("display_name"@[0] == 'd');
    assert("logic_name"@.len() == 10);
    assert("logic_name"@[0] == 'l');
    assert("biotype"@.len() == 7);
    assert("biotype"@[0] == 'b');
    assert("source"@.len() == 6);
    assert("source"@[0] == 's');
    assert("source"@[1] == 'o');
    assert("assembly_name"@.len() == 13);
    assert("assembly_name"@[0] == 'a');
    assert("seq_region_name"@.len() == 15);
    assert("seq_region_name"@[0] == 's');
    assert("seq_region_name"@[1] == 'e');
    assert("start"@.len() == 5);
    assert("start"@[0] == 's');
    assert("start"@[1] == 't');
    assert("end"@.len() == 3);
    assert("end"@[0] == 'e');
    assert("strand"@.len() == 6);
    assert("strand"@[0] == 's');
    assert("strand"@[1] == 't');
    assert("id"@.len() == 2);
    assert("id"@[0] == 'i');
    assert("db_type"@.len() == 7);
    assert("db_type"@[0] == 'd');
    assert("species"@.len() == 7);
    assert("species"@[0] == 's');
    assert("species"@[1] == 'p');
    assert("version"@.len() == 7);
    assert("version"@[0] == 'v');
    assert("Transcript"@.len() == 10);
    assert("Transcript"@[0] == 'T');
    let flat = encode_gene(g);
    assert(flat[0] == ("canonical_transcript"@, JsonV::Str(g.canonical_transcript)));
    assert(flat[1] == ("description"@, JsonV::Str(g.description)));
    assert(flat[2] == ("display_name"@, JsonV::Str(g.display_name)));
    assert(flat[3] == ("logic_name"@, JsonV::Str(g.logic_name)));
    assert(flat[4] == ("biotype"@, JsonV::Str(g.biotype)));
    assert(flat[5] == ("source"@, JsonV::Str(g.source)));
    assert(flat[6] == ("assembly_name"@, JsonV::Str(g.coords.assembly_name)));
    assert(flat[7] == ("seq_region_name"@, JsonV::Str(g.coords.seq_region_name)));
    assert(flat[8] == ("start"@, JsonV::Num { neg: false, mag: g.coords.coords.start }));
    assert(flat[9] == ("end"@, JsonV::Num { neg: false, mag: g.coords.coords.end }));
    assert(flat[10] == ("strand"@, num_of(g.coords.strand as int)));
    assert(flat[11] == ("id"@, JsonV::Str(g.meta.id)));
    assert(flat[12] == ("db_type"@, JsonV::Str(g.meta.db_type)));
    assert(flat[13] == ("species"@, JsonV::Str(g.meta.species)));
    assert(flat[14] == ("version"@, JsonV::Num { neg: false, mag: g.meta.version }));
    assert(lookup(flat, "canonical_transcript"@) == Some(flat[0].1));
    assert(lookup_from(flat, "description"@, 0) == lookup_from(flat, "description"@, 1));
    assert(lookup(flat, "description"@) == Some(flat[1].1));
    assert(lookup_from(flat, "display_name"@, 0) == lookup_from(flat, "display_name"@, 1));
    assert(lookup_from(flat, "display_name"@, 1) == lookup_from(flat, "display_name"@, 2));
    assert(lookup(flat, "display_name"@) == Some(flat[2].1));
    assert(lookup_from(flat, "logic_name"@, 0) == lookup_from(flat, "logic_name"@, 1));
    assert(lookup_from(flat, "logic_name"@, 1) == lookup_from(flat, "logic_name"@, 2));
    assert(lookup_from(flat, "logic_name"@, 2) == lookup_from(flat, "logic_name"@, 3));
    assert(lookup(flat, "logic_name"@) == Some(flat[3].1));
    assert(lookup_from(flat, "biotype"@, 0) == lookup_from(flat, "biotype"@, 1));
    assert(lookup_from(flat, "biotype"@, 1) == lookup_from(flat, "biotype"@, 2));
    assert(lookup_from(flat, "biotype"@, 2) == lookup_from(flat, "biotype"@, 3));
    assert(lookup_from(flat, "biotype"@, 3) == lookup_from(flat, "biotype"@, 4));
    assert(lookup(flat, "biotype"@) == Some(flat[4].1));
    assert(lookup_from(flat, "source"@, 0) == lookup_from(flat, "source"@, 1));
    assert(lookup_from(flat, "source"@, 1) == lookup_from(flat, "source"@, 2));
    assert(lookup_from(flat, "source"@, 2) == lookup_from(flat, "source"@, 3));
    assert(lookup_from(flat, "source"@, 3) == lookup_from(flat, "source"@, 4));
    assert(lookup_from(flat, "source"@, 4) == lookup_from(flat, "source"@, 5));
    assert(lookup(flat, "source"@) == Some(flat[5].1));
    assert(lookup_from(flat, "assembly_name"@, 0) == lookup_from(flat, "assembly_name"@, 1));
    assert(lookup_from(flat, "assembly_name"@, 1) == lookup_from(flat, "assembly_name"@, 2));
    assert(lookup_from(flat, "assembly_name"@, 2) == lookup_from(flat, "assembly_name"@, 3));
    assert(lookup_from(flat, "assembly_name"@, 3) == lookup_from(flat, "assembly_name"@, 4));
    assert(lookup_from(flat, "assembly_name"@, 4) == lookup_from(flat, "assembly_name"@, 5));
    assert(lookup_from(flat, "assembly_name"@, 5) == lookup_from(flat, "assembly_name"@, 6));
    assert(lookup(flat, "assembly_name"@) == Some(flat[6].1));
    assert(lookup_from(flat, "seq_region_name"@, 0) == lookup_from(flat, "seq_region_name"@, 1));
    assert(lookup_from(flat, "seq_region_name"@, 1) == lookup_from(flat, "seq_region_name"@, 2));
    assert(lookup_from(flat, "seq_region_name"@, 2) == lookup_from(flat, "seq_region_name"@, 3));
    assert(lookup_from(flat, "seq_region_name"@, 3) == lookup_from(flat, "seq_region_name"@, 4));
    assert(lookup_from(flat, "seq_region_name"@, 4) == lookup_from(flat, "seq_region_name"@, 5));
    assert(lookup_from(flat, "seq_region_name"@, 5) == lookup_from(flat, "seq_region_name"@, 6));
    assert(lookup_from(flat, "seq_region_name"@, 6) == lookup_from(flat, "seq_region_name"@, 7));
    assert(lookup(flat, "seq_region_name"@) == Some(flat[7].1));
    assert(lookup_from(flat, "start"@, 0) == lookup_from(flat, "start"@, 1));
    assert(lookup_from(flat, "start"@, 1) == lookup_from(flat, "start"@, 2));
    assert(lookup_from(flat, "start"@, 2) == lookup_from(flat, "start"@, 3));
    assert(lookup_from(flat, "start"@, 3) == lookup_from(flat, "start"@, 4));
    assert(lookup_from(flat, "start"@, 4) == lookup_from(flat, "start"@, 5));
    assert(lookup_from(flat, "start"@, 5) == lookup_from(flat, "start"@, 6));
    assert(lookup_from(flat, "start"@, 6) == lookup_from(flat, "start"@, 7));
    assert(lookup_from(flat, "start"@, 7) == lookup_from(flat, "start"@, 8));
    assert(lookup(flat, "start"@) == Some(flat[8].1));
    assert(lookup_from(flat, "end"@, 0) == lookup_from(flat, "end"@, 1));
    assert(lookup_from(flat, "end"@, 1) == lookup_from(flat, "end"@, 2));
    assert(lookup_from(flat, "end"@, 2) == lookup_from(flat, "end"@, 3));
    assert(lookup_from(flat, "end"@, 3) == lookup_from(flat, "end"@, 4));
    assert(lookup_from(flat, "end"@, 4) == lookup_from(flat, "end"@, 5));
    assert(lookup_from(flat, "end"@, 5) == lookup_from(flat, "end"@, 6));
    assert(lookup_from(flat, "end"@, 6) == lookup_from(flat, "end"@, 7));
    assert(lookup_from(flat, "end"@, 7) == lookup_from(flat, "end"@, 8));
    assert(lookup_from(flat, "end"@, 8) == lookup_from(flat, "end"@, 9));
    assert(lookup(flat, "end"@) == Some(flat[9].1));
    assert(lookup_from(flat, "strand"@, 0) == lookup_from(flat, "strand"@, 1));
    assert(lookup_from(flat, "strand"@, 1) == lookup_from(flat, "strand"@, 2));
    assert(lookup_from(flat, "strand"@, 2) == lookup_from(flat, "strand"@, 3));
    assert(lookup_from(flat, "strand"@, 3) == lookup_from(flat, "strand"@, 4));
    assert(lookup_from(flat, "strand"@, 4) == lookup_from(flat, "strand"@, 5));
    assert(lookup_from(flat, "strand"@, 5) == lookup_from(flat, "strand"@, 6));
    assert(lookup_from(flat, "strand"@, 6) == lookup_from(flat, "strand"@, 7));
    assert(lookup_from(flat, "strand"@, 7) == lookup_from(flat, "strand"@, 8));
    assert(lookup_from(flat, "strand"@, 8) == lookup_from(flat, "strand"@, 9));
    assert(lookup_from(flat, "strand"@, 9) == lookup_from(flat, "strand"@, 10));
    assert(lookup(flat, "strand"@) == Some(flat[10].1));
    assert(lookup_from(flat, "id"@, 0) == lookup_from(flat, "id"@, 1));
    assert(lookup_from(flat, "id"@, 1) == lookup_from(flat, "id"@, 2));
    assert(lookup_from(flat, "id"@, 2) == lookup_from(flat, "id"@, 3));
    assert(lookup_from(flat, "id"@, 3) == lookup_from(flat, "id"@, 4));
    assert(lookup_from(flat, "id"@, 4) == lookup_from(flat, "id"@, 5));
    assert(lookup_from(flat, "id"@, 5) == lookup_from(flat, "id"@, 6));
    assert(lookup_from(flat, "id"@, 6) == lookup_from(flat, "id"@, 7));
    assert(lookup_from(flat, "id"@, 7) == lookup_from(flat, "id"@, 8));
    assert(lookup_from(flat, "id"@, 8) == lookup_from(flat, "id"@, 9));
    assert(lookup_from(flat, "id"@, 9) == lookup_from(flat, "id"@, 10));
    assert(lookup_from(flat, "id"@, 10) == lookup_from(flat, "id"@, 11));
    assert(lookup(flat, "id"@) == Some(flat[11].1));
    assert(lookup_from(flat, "db_type"@, 0) == lookup_from(flat, "db_type"@, 1));
    assert(lookup_from(flat, "db_type"@, 1) == lookup_from(flat, "db_type"@, 2));
    assert(lookup_from(flat, "db_type"@, 2) == lookup_from(flat, "db_type"@, 3));
    assert(lookup_from(flat, "db_type"@, 3) == lookup_from(flat, "db_type"@, 4));
    assert(lookup_from(flat, "db_type"@, 4) == lookup_from(flat, "db_type"@, 5));
    assert(lookup_from(flat, "db_type"@, 5) == lookup_from(flat, "db_type"@, 6));
    assert(lookup_from(flat, "db_type"@, 6) == lookup_from(flat, "db_type"@, 7));
    assert(lookup_from(flat, "db_type"@, 7) == lookup_from(flat, "db_type"@, 8));
    assert(lookup_from(flat, "db_type"@, 8) == lookup_from(flat, "db_type"@, 9));
    assert(lookup_from(flat, "db_type"@, 9) == lookup_from(flat, "db_type"@, 10));
    assert(lookup_from(flat, "db_type"@, 10) == lookup_from(flat, "db_type"@, 11));
    assert(lookup_from(flat, "db_type"@, 11) == lookup_from(flat, "db_type"@, 12));
    assert(lookup(flat, "db_type"@) == Some(flat[12].1));
    assert(lookup_from(flat, "species"@, 0) == lookup_from(flat, "species"@, 1));
    assert(lookup_from(flat, "species"@, 1) == lookup_from(flat, "species"@, 2));
    assert(lookup_from(flat, "species"@, 2) == lookup_from(flat, "species"@, 3));
    assert(lookup_from(flat, "species"@, 3) == lookup_from(flat, "species"@, 4));
    assert(lookup_from(flat, "species"@, 4) == lookup_from(flat, "species"@, 5));
    assert(lookup_from(flat, "species"@, 5) == lookup_from(flat, "species"@, 6));
    assert(lookup_from(flat, "species"@, 6) == lookup_from(flat, "species"@, 7));
    assert(lookup_from(flat, "species"@, 7) == lookup_from(flat, "species"@, 8));
    assert(lookup_from(flat, "species"@, 8) == lookup_from(flat, "species"@, 9));
    assert(lookup_from(flat, "species"@, 9) == lookup_from(flat, "species"@, 10));
    assert(lookup_from(flat, "species"@, 10) == lookup_from(flat, "species"@, 11));
    assert(lookup_from(flat, "species"@, 11) == lookup_from(flat, "species"@, 12));
    assert(lookup_from(flat, "species"@, 12) == lookup_from(flat, "species"@, 13));
    assert(lookup(flat, "species"@) == Some(flat[13].1));
    assert(lookup_from(flat, "version"@, 0) == lookup_from(flat, "version"@, 1));
    assert(lookup_from(flat, "version"@, 1) == lookup_from(flat, "version"@, 2));
    assert(lookup_from(flat, "version"@, 2) == lookup_from(flat, "version"@, 3));
    assert(lookup_from(flat, "version"@, 3) == lookup_from(flat, "version"@, 4));
    assert(lookup_from(flat, "version"@, 4) == lookup_from(flat, "version"@, 5));
    assert(lookup_from(flat, "version"@, 5) == lookup_from(flat, "version"@, 6));
    assert(lookup_from(flat, "version"@, 6) == lookup_from(flat, "version"@, 7));
    assert(lookup_from(flat, "version"@, 7) == lookup_from(flat, "version"@, 8));
    assert(lookup_from(flat, "version"@, 8) == lookup_from(flat, "version"@, 9));
    assert(lookup_from(flat, "version"@, 9) == lookup_from(flat, "version"@, 10));
    assert(lookup_from(flat, "version"@, 10) == lookup_from(flat, "version"@, 11));
    assert(lookup_from(flat, "version"@, 11) == lookup_from(flat, "version"@, 12));
    assert(lookup_from(flat, "version"@, 12) == lookup_from(flat, "version"@, 13));
    assert(lookup_from(flat, "version"@, 13) == lookup_from(flat, "version"@, 14));
    assert(lookup(flat, "version"@) == Some(flat[14].1));
    match g.transcripts {
        Some(ts) => {
            assert(flat[15] == ("Transcript"@, JsonV::Arr(encode_transcript_objs(ts))));
            assert(lookup_from(flat, "Transcript"@, 0) == lookup_from(flat, "Transcript"@, 1));
            assert(lookup_from(flat, "Transcript"@, 1) == lookup_from(flat, "Transcript"@, 2));
            assert(lookup_from(flat, "Transcript"@, 2) == lookup_from(flat, "Transcript"@, 3));
            assert(lookup_from(flat, "Transcript"@, 3) == lookup_from(flat, "Transcript"@, 4));
            assert(lookup_from(flat, "Transcript"@, 4) == lookup_from(flat, "Transcript"@, 5));
            assert(lookup_from(flat, "Transcript"@, 5) == lookup_from(flat, "Transcript"@, 6));
            assert(lookup_from(flat, "Transcript"@, 6) == lookup_from(flat, "Transcript"@, 7));
            assert(lookup_from(flat, "Transcript"@, 7) == lookup_from(flat, "Transcript"@, 8));
            assert(lookup_from(flat, "Transcript"@, 8) == lookup_from(flat, "Transcript"@, 9));
            assert(lookup_from(flat, "Transcript"@, 9) == lookup_from(flat, "Transcript"@, 10));
            assert(lookup_from(flat, "Transcript"@, 10) == lookup_from(flat, "Transcript"@, 11));
            assert(lookup_from(flat, "Transcript"@, 11) == lookup_from(flat, "Transcript"@, 12));
            assert(lookup_from(flat, "Transcript"@, 12) == lookup_from(flat, "Transcript"@, 13));
            assert(lookup_from(flat, "Transcript"@, 13) == lookup_from(flat, "Transcript"@, 14));
            assert(lookup_from(flat, "Transcript"@, 14) == lookup_from(flat, "Transcript"@, 15));
            assert(lookup(flat, "Transcript"@) == Some(flat[15].1));
            lemma_lookup_prefix(pre, flat, "Transcript"@, 0);
            lemma_rt_transcript_list(ts, 0, Seq::empty());
            assert(Seq::<TranscriptV>::empty() + ts.skip(0) =~= ts);
        },
        None => {
            assert(flat.len() == 15);
            assert(lookup_from(flat, "Transcript"@, 0) == lookup_from(flat, "Transcript"@, 1));
            assert(lookup_from(flat, "Transcript"@, 1) == lookup_from(flat, "Transcript"@, 2));
            assert(lookup_from(flat, "Transcript"@, 2) == lookup_from(flat, "Transcript"@, 3));
            assert(lookup_from(flat, "Transcript"@, 3) == lookup_from(flat, "Transcript"@, 4));
            assert(lookup_from(flat, "Transcript"@, 4) == lookup_from(flat, "Transcript"@, 5));
            assert(lookup_from(flat, "Transcript"@, 5) == lookup_from(flat, "Transcript"@, 6));
            assert(lookup_from(flat, "Transcript"@, 6) == lookup_from(flat, "Transcript"@, 7));
            assert(lookup_from(flat, "Transcript"@, 7) == lookup_from(flat, "Transcript"@, 8));
            assert(lookup_from(flat, "Transcript"@, 8) == lookup_from(flat, "Transcript"@, 9));
            assert(lookup_from(flat, "Transcript"@, 9) == lookup_from(flat, "Transcript"@, 10));
            assert(lookup_from(flat, "Transcript"@, 10) == lookup_from(flat, "Transcript"@, 11));
            assert(lookup_from(flat, "Transcript"@, 11) == lookup_from(flat, "Transcript"@, 12));
            assert(lookup_from(flat, "Transcript"@, 12) == lookup_from(flat, "Transcript"@, 13));
            assert(lookup_from(flat, "Transcript"@, 13) == lookup_from(flat, "Transcript"@, 14));
            assert(lookup_from(flat, "Transcript"@, 14) == lookup_from(flat, "Transcript"@, 15));
            assert(lookup(flat, "Transcript"@) is None);
            lemma_lookup_prefix(pre, flat, "Transcript"@, 0);
        },
    }
    lemma_lookup_prefix(pre, flat, "canonical_transcript"@, 0);
    lemma_lookup_prefix(pre, flat, "description"@, 0);
    lemma_lookup_prefix(pre, flat, "display_name"@, 0);
    lemma_lookup_prefix(pre, flat, "logic_name"@, 0);
    lemma_lookup_prefix(pre, flat, "biotype"@, 0);
    lemma_lookup_prefix(pre, flat, "source"@, 0);
    lemma_rt_genome(pre, flat, g.coords);
    lemma_rt_meta(pre, flat, g.meta);
    assert(GeneV {
        canonical_transcript: g.canonical_transcript,
        description: g.description,
        transcripts: g.transcripts,
        coords: g.coords,
        meta: g.meta,
        display_name: g.display_name,
        logic_name: g.logic_name,
        biotype: g.biotype,
        source: g.source,
    } =~= g);
}

/// The round-trip law: decoding the member list that encoding a feature
/// produced gives back that feature, with every field value preserved;
/// the discriminator value alone moves between the list and the tag.
#[verifier::rlimit(60)]
pub proof fn lemma_feature_round_trip(f: EnsemblFeatureV)
    ensures
        decode_feature(encode_feature(f)) == Ok::<_, FeatureErrorV>(f),
{
    reveal_strlit("object_type");
    reveal_strlit("Gene");
    reveal_strlit("Transcript");
    reveal_strlit("Exon");
    reveal_strlit("Translation");
    reveal_strlit("canonical_transcript");
    reveal_strlit("description");
    reveal_strlit("display_name");
    reveal_strlit("logic_name");
    reveal_strlit("biotype");
    reveal_strlit("source");
    reveal_strlit("assembly_name");
    reveal_strlit("seq_region_name");
    reveal_strlit("start");
    reveal_strlit("end");
    reveal_strlit("strand");
    reveal_strlit("id");
    reveal_strlit("db_type");
    reveal_strlit("species");
    reveal_strlit("version");
    reveal_strlit("Parent");
    reveal_strlit("is_canonical");
    reveal_strlit("length");
    assert("object_type"@.len() == 11);
    assert("object_type"@[0] == 'o');
    assert("Gene"@.len() == 4);
    assert("Gene"@[0] == 'G');
    assert("Transcript"@.len() == 10);
    assert("Transcript"@[0] == 'T');
    assert("Exon"@.len() == 4);
    assert("Exon"@[0] == 'E');
    assert("Translation"@.len() == 11);
    assert("Translation"@[0] == 'T');
    assert("canonical_transcript"@.len() == 20);
    assert("canonical_transcript"@[0] == 'c');
    assert("description"@.len() == 11);
    assert("description"@[0] == 'd');
    assert("display_name"@.len() == 12);
    assert("display_name"@[0] == 'd');
    assert("logic_name"@.len() == 10);
    assert("logic_name"@[0] == 'l');
    assert("biotype"@.len() == 7);
    assert("biotype"@[0] == 'b');
    assert("source"@.len() == 6);
    assert("source"@[0] == 's');
    assert("source"@[1] == 'o');
    assert("assembly_name"@.len() == 13);
    assert("assembly_name"@[0] == 'a');
    assert("seq_region_name"@.len() == 15);
    assert("seq_region_name"@[0] == 's');
    assert("seq_region_name"@[1] == 'e');
    assert("start"@.len() == 5);
    assert("start"@[0] == 's');
    assert("start"@[1] == 't');
    assert("end"@.len() == 3);
    assert("end"@[0] == 'e');
    assert("strand"@.len() == 6);
    assert("strand"@[0] == 's');
    assert("strand"@[1] == 't');
    assert("id"@.len() == 2);
    assert("id"@[0] == 'i');
    assert("db_type"@.len() == 7);
    assert("db_type"@[0] == 'd');
    assert("species"@.len() == 7);
    assert("species"@[0] == 's');
    assert("species"@[1] == 'p');
    assert("version"@.len() == 7);
    assert("version"@[0] == 'v');
    assert("Parent"@.len() == 6);
    assert("Parent"@[0] == 'P');
    assert("is_canonical"@.len() == 12);
    assert("is_canonical"@[0] == 'i');
    assert("length"@.len() == 6);
    assert("length"@[0] == 'l');
    match f {
        EnsemblFeatureV::Gene(g) => {
            let pre = seq![("object_type"@, JsonV::Str("Gene"@))];
            let ms = pre + encode_gene(g);
            assert(ms[0] == ("object_type"@, JsonV::Str("Gene"@)));
            assert(lookup(ms, "object_type"@) == Some(JsonV::Str("Gene"@)));
            assert(kind_of_tag("Gene"@) == Some(FeatureKind::Gene));
            lemma_rt_gene(pre, g);
        },
        EnsemblFeatureV::Transcript(t) => {
            let pre = seq![("object_type"@, JsonV::Str("Transcript"@))];
            let ms = pre + encode_transcript(t);
            assert(ms[0] == ("object_type"@, JsonV::Str("Transcript"@)));
            assert(lookup(ms, "object_type"@) == Some(JsonV::Str("Transcript"@)));
            assert(kind_of_tag("Transcript"@) == Some(FeatureKind::Transcript));
            lemma_rt_transcript(pre, t);
        },
        EnsemblFeatureV::Exon(x) => {
            let pre = seq![("object_type"@, JsonV::Str("Exon"@))];
            let ms = pre + encode_exon(x);
            assert(ms[0] == ("object_type"@, JsonV::Str("Exon"@)));
            assert(lookup(ms, "object_type"@) == Some(JsonV::Str("Exon"@)));
            assert(kind_of_tag("Exon"@) == Some(FeatureKind::Exon));
            lemma_rt_exon(pre, x);
        },
        EnsemblFeatureV::Protein(p) => {
            let pre = seq![("object_type"@, JsonV::Str("Translation"@))];
            let ms = pre + encode_protein(p);
            assert(ms[0] == ("object_type"@, JsonV::Str("Translation"@)));
            assert(lookup(ms, "object_type"@) == Some(JsonV::Str("Translation"@)));
            assert(kind_of_tag("Translation"@) == Some(FeatureKind::Protein));
            lemma_rt_protein(pre, p);
        },
    }
}


// Canonicity of encoded features: every number the encoder writes carries
// no sign on a zero magnitude, recursively, so the canonical-text round
// trip below applies to every encoded feature.

proof fn lemma_canon_num_of(v: int)
    requires
        -(u64::MAX as int) <= v <= u64::MAX as int,
    ensures
        canon_json(num_of(v)),
{
}

proof fn lemma_canon_protein(p: ProteinV)
    ensures
        canon_json(JsonV::Obj(encode_protein(p))),
        forall|q: int|
            0 <= q < encode_protein(p).len() ==> canon_json(#[trigger] encode_protein(p)[q].1),
{
    let flat = encode_protein(p);
    assert(flat.len() == 8);
    assert(flat[0].1 == num_of(p.length as int));
    lemma_canon_num_of(p.length as int);
    assert(flat[1].1 == JsonV::Str(p.parent));
    assert(flat[2].1 == JsonV::Num { neg: false, mag: p.coords.start });
    assert(flat[3].1 == JsonV::Num { neg: false, mag: p.coords.end });
    assert(flat[4].1 == JsonV::Str(p.meta.id));
    assert(flat[5].1 == JsonV::Str(p.meta.db_type));
    assert(flat[6].1 == JsonV::Str(p.meta.species));
    assert(flat[7].1 == JsonV::Num { neg: false, mag: p.meta.version });
    assert forall|q: int| 0 <= q < flat.len() implies canon_json(#[trigger] flat[q].1) by {
        if q == 0 {
        } else if q == 1 {
        } else if q == 2 {
        } else if q == 3 {
        } else if q == 4 {
        } else if q == 5 {
        } else if q == 6 {
        } else {
        }
    }
}

proof fn lemma_canon_exon(x: ExonV)
    ensures
        canon_json(JsonV::Obj(encode_exon(x))),
        forall|q: int|
            0 <= q < encode_exon(x).len() ==> canon_json(#[trigger] encode_exon(x)[q].1),
{
    let flat = encode_exon(x);
    assert(flat.len() == 9);
    assert(flat[0].1 == JsonV::Str(x.coords.assembly_name));
    assert(flat[1].1 == JsonV::Str(x.coords.seq_region_name));
    assert(flat[2].1 == JsonV::Num { neg: false, mag: x.coords.coords.start });
    assert(flat[3].1 == JsonV::Num { neg: false, mag: x.coords.coords.end });
    assert(flat[4].1 == num_of(x.coords.strand as int));
    lemma_canon_num_of(x.coords.strand as int);
    assert(flat[5].1 == JsonV::Str(x.meta.id));
    assert(flat[6].1 == JsonV::Str(x.meta.db_type));
    assert(flat[7].1 == JsonV::Str(x.meta.species));
    assert(flat[8].1 == JsonV::Num { neg: false, mag: x.meta.version });
    assert forall|q: int| 0 <= q < flat.len() implies canon_json(#[trigger] flat[q].1) by {
        if q == 0 {
        } else if q == 1 {
        } else if q == 2 {
        } else if q == 3 {
        } else if q == 4 {
        } else if q == 5 {
        } else if q == 6 {
        } else if q == 7 {
        } else {
        }
    }
}

proof fn lemma_canon_transcript(t: TranscriptV)
    ensures
        canon_json(JsonV::Obj(encode_transcript(t))),
        forall|q: int|
            0 <= q < encode_transcript(t).len() ==> canon_json(#[trigger] encode_transcript(t)[q].1),
{
    let flat = encode_transcript(t);
    assert(flat[0].1 == JsonV::Str(t.parent));
    assert(flat[1].1 == JsonV::Num { neg: false, mag: t.is_canonical });
    assert(flat[2].1 == JsonV::Num { neg: false, mag: t.length });
    assert(flat[3].1 == JsonV::Str(t.display_name));
    assert(flat[4].1 == JsonV::Str(t.logic_name));
    assert(flat[5].1 == JsonV::Str(t.biotype));
    assert(flat[6].1 == JsonV::Str(t.source));
    assert(flat[7].1 == JsonV::Str(t.coords.assembly_name));
    assert(flat[8].1 == JsonV::Str(t.coords.seq_region_name));
    assert(flat[9].1 == JsonV::Num { neg: false, mag: t.coords.coords.start });
    assert(flat[10].1 == JsonV::Num { neg: false, mag: t.coords.coords.end });
    assert(flat[11].1 == num_of(t.coords.strand as int));
    lemma_canon_num_of(t.coords.strand as int);
    assert(flat[12].1 == JsonV::Str(t.meta.id));
    assert(flat[13].1 == JsonV::Str(t.meta.db_type));
    assert(flat[14].1 == JsonV::Str(t.meta.species));
    assert(flat[15].1 == JsonV::Num { neg: false, mag: t.meta.version });
    match t.exons {
        Some(es) => {
            assert forall|r: int| 0 <= r < encode_exon_objs(es).len() implies canon_json(
                #[trigger] encode_exon_objs(es)[r],
            ) by {
                assert(encode_exon_objs(es)[r] == JsonV::Obj(encode_exon(es[r])));
                lemma_canon_exon(es[r]);
            }
            assert(canon_json(JsonV::Arr(encode_exon_objs(es))));
            assert(flat[16].1 == JsonV::Arr(encode_exon_objs(es)));
        },
        None => {},
    }
    match t.translation {
        Some(p) => {
            lemma_canon_protein(p);
            if t.exons is Some {
                assert(flat[17].1 == JsonV::Obj(encode_protein(p)));
            } else {
                assert(flat[16].1 == JsonV::Obj(encode_protein(p)));
            }
        },
        None => {},
    }
    assert forall|q: int| 0 <= q < flat.len() implies canon_json(#[trigger] flat[q].1) by {
        if q == 0 {
        } else if q == 1 {
        } else if q == 2 {
        } else if q == 3 {
        } else if q == 4 {
        } else if q == 5 {
        } else if q == 6 {
        } else if q == 7 {
        } else if q == 8 {
        } else if q == 9 {
        } else if q == 10 {
        } else if q == 11 {
        } else if q == 12 {
        } else if q == 13 {
        } else if q == 14 {
        } else if q == 15 {
        } else if q == 16 {
        } else {
        }
    }
}

proof fn lemma_canon_gene(g: GeneV)
    ensures
        canon_json(JsonV::Obj(encode_gene(g))),
        forall|q: int|
            0 <= q < encode_gene(g).len() ==> canon_json(#[trigger] encode_gene(g)[q].1),
{
    let flat = encode_gene(g);
    assert(flat[0].1 == JsonV::Str(g.canonical_transcript));
    assert(flat[1].1 == JsonV::Str(g.description));
    assert(flat[2].1 == JsonV::Str(g.display_name));
    assert(flat[3].1 == JsonV::Str(g.logic_name));
    assert(flat[4].1 == JsonV::Str(g.biotype));
    assert(flat[5].1 == JsonV::Str(g.source));
    assert(flat[6].1 == JsonV::Str(g.coords.assembly_name));
    assert(flat[7].1 == JsonV::Str(g.coords.seq_region_name));
    assert(flat[8].1 == JsonV::Num { neg: false, mag: g.coords.coords.start });
    assert(flat[9].1 == JsonV::Num { neg: false, mag: g.coords.coords.end });
    assert(flat[10].1 == num_of(g.coords.strand as int));
    lemma_canon_num_of(g.coords.strand as int);
    assert(flat[11].1 == JsonV::Str(g.meta.id));
    assert(flat[12].1 == JsonV::Str(g.meta.db_type));
    assert(flat[13].1 == JsonV::Str(g.meta.species));
    assert(flat[14].1 == JsonV::Num { neg: false, mag: g.meta.version });
    match g.transcripts {
        Some(ts) => {
            assert forall|r: int| 0 <= r < encode_transcript_objs(ts).len() implies canon_json(
                #[trigger] encode_transcript_objs(ts)[r],
            ) by {
                assert(encode_transcript_objs(ts)[r] == JsonV::Obj(encode_transcript(ts[r])));
                lemma_canon_transcript(ts[r]);
            }
            assert(canon_json(JsonV::Arr(encode_transcript_objs(ts))));
            assert(flat[15].1 == JsonV::Arr(encode_transcript_objs(ts)));
        },
        None => {},
    }
    assert forall|q: int| 0 <= q < flat.len() implies canon_json(#[trigger] flat[q].1) by {
        if q == 0 {
        } else if q == 1 {
        } else if q == 2 {
        } else if q == 3 {
        } else if q == 4 {
        } else if q == 5 {
        } else if q == 6 {
        } else if q == 7 {
        } else if q == 8 {
        } else if q == 9 {
        } else if q == 10 {
        } else if q == 11 {
        } else if q == 12 {
        } else if q == 13 {
        } else if q == 14 {
        } else {
        }
    }
}

proof fn lemma_canon_encode_feature(f: EnsemblFeatureV)
    ensures
        canon_json(JsonV::Obj(encode_feature(f))),
{
    let ms = encode_feature(f);
    match f {
        EnsemblFeatureV::Gene(g) => {
            lemma_canon_gene(g);
            let flat = encode_gene(g);
            assert forall|q: int| 0 <= q < ms.len() implies canon_json(#[trigger] ms[q].1) by {
                if q == 0 {
                    assert(ms[0].1 == JsonV::Str("Gene"@));
                } else {
                    assert(ms[q] == flat[q - 1]);
                    assert(0 <= q - 1 < flat.len());
                    assert(canon_json(JsonV::Obj(flat)));
                    assert(canon_json(flat[q - 1].1));
                }
            }
        },
        EnsemblFeatureV::Transcript(t) => {
            lemma_canon_transcript(t);
            let flat = encode_transcript(t);
            assert forall|q: int| 0 <= q < ms.len() implies canon_json(#[trigger] ms[q].1) by {
                if q == 0 {
                    assert(ms[0].1 == JsonV::Str("Transcript"@));
                } else {
                    assert(ms[q] == flat[q - 1]);
                    assert(0 <= q - 1 < flat.len());
                    assert(canon_json(JsonV::Obj(flat)));
                    assert(canon_json(flat[q - 1].1));
                }
            }
        },
        EnsemblFeatureV::Exon(x) => {
            lemma_canon_exon(x);
            let flat = encode_exon(x);
            assert forall|q: int| 0 <= q < ms.len() implies canon_json(#[trigger] ms[q].1) by {
                if q == 0 {
                    assert(ms[0].1 == JsonV::Str("Exon"@));
                } else {
                    assert(ms[q] == flat[q - 1]);
                    assert(0 <= q - 1 < flat.len());
                    assert(canon_json(JsonV::Obj(flat)));
                    assert(canon_json(flat[q - 1].1));
                }
            }
        },
        EnsemblFeatureV::Protein(p) => {
            lemma_canon_protein(p);
            let flat = encode_protein(p);
            assert forall|q: int| 0 <= q < ms.len() implies canon_json(#[trigger] ms[q].1) by {
                if q == 0 {
                    assert(ms[0].1 == JsonV::Str("Translation"@));
                } else {
                    assert(ms[q] == flat[q - 1]);
                    assert(0 <= q - 1 < flat.len());
                    assert(canon_json(JsonV::Obj(flat)));
                    assert(canon_json(flat[q - 1].1));
                }
            }
        },
    }
}

/// The round-trip law over text: the canonical text that serializing a
/// feature produces parses back into exactly that feature, with every
/// field value preserved. Together with the contracts of
/// `serialize_feature` and `parse_feature`, this pins the executable
/// round trip down completely.
pub proof fn lemma_feature_text_round_trip(f: EnsemblFeatureV)
    ensures
        spec_parse_feature(crate::json::json_text(JsonV::Obj(encode_feature(f)))) == Ok::<
            _,
            FeatureErrorV,
        >(f),
{
    lemma_canon_encode_feature(f);
    crate::reader::lemma_parse_canonical_text(JsonV::Obj(encode_feature(f)));
    lemma_feature_round_trip(f);
}

/// Parses one response text into a typed feature: the text must be a
/// single JSON object whose `object_type` selects the variant. Returns
/// exactly what the specification decoder returns on this text.
pub fn parse_feature(s: &str) -> (r: Result<EnsemblFeature, FeatureError>)
    ensures
        r matches Ok(f) ==> spec_parse_feature(s@) == Ok::<_, FeatureErrorV>(f@),
        r matches Err(e) ==> spec_parse_feature(s@) == Err::<EnsemblFeatureV, _>(e@),
{
    let chars = chars_of_str(s);
    match read_json(&chars) {
        Some(j) => match j {
            Json::Obj(fs) => decode_feature_fields(&fs),
            _ => Err(FeatureError::ParseError("json".to_owned())),
        },
        None => Err(FeatureError::ParseError("json".to_owned())),
    }
}

} // verus!
