use ensemblrs::errors::FeatureError;
use ensemblrs::features::{
    identify_object, EnsemblFeature, Exon, FeatureKind, Gene, GenomeCoords, MetaInfo, Protein,
    StartEndCoords, Transcript,
};
use ensemblrs::lookup::expand_code;

fn meta(id: &str) -> MetaInfo {
    MetaInfo {
        id: id.to_string(),
        db_type: "core".to_string(),
        species: "homo_sapiens".to_string(),
        version: 5,
    }
}

fn genome(region: &str, start: u64, end: u64, strand: i8) -> GenomeCoords {
    GenomeCoords {
        assembly_name: "GRCh38".to_string(),
        seq_region_name: region.to_string(),
        coords: StartEndCoords { start, end },
        strand,
    }
}

fn transcript(id: &str, is_canonical: u64) -> Transcript {
    Transcript {
        parent: "ENSG1".to_string(),
        exons: None,
        translation: None,
        is_canonical,
        length: 1000,
        coords: genome("17", 100, 200, 1),
        meta: meta(id),
        display_name: format!("{}-name", id),
        logic_name: "havana".to_string(),
        biotype: "protein_coding".to_string(),
        source: "ensembl".to_string(),
    }
}

fn gene(transcripts: Option<Vec<Transcript>>) -> Gene {
    Gene {
        canonical_transcript: "T2.1".to_string(),
        description: "a gene".to_string(),
        transcripts,
        coords: genome("17", 100, 200, 1),
        meta: meta("ENSG1"),
        display_name: "TP53".to_string(),
        logic_name: "havana".to_string(),
        biotype: "protein_coding".to_string(),
        source: "ensembl".to_string(),
    }
}

#[test]
fn canonical_selector_picks_flagged_transcript() {
    let g = gene(Some(vec![
        transcript("T1", 0),
        transcript("T2", 1),
        transcript("T3", 0),
    ]));
    let canon = g.get_canonical_transcript().expect("canonical transcript expected");
    assert_eq!(canon.meta.id, "T2");
}

#[test]
fn canonical_selector_none_without_transcripts() {
    let g = gene(None);
    assert!(g.get_canonical_transcript().is_none());
}

#[test]
fn canonical_selector_none_when_no_flag_set() {
    let g = gene(Some(vec![transcript("T1", 0), transcript("T2", 0)]));
    assert!(g.get_canonical_transcript().is_none());
}

#[test]
fn canonical_selector_prefers_first_of_two_flagged() {
    let g = gene(Some(vec![
        transcript("T1", 0),
        transcript("T2", 1),
        transcript("T3", 1),
    ]));
    let canon = g.get_canonical_transcript().expect("canonical transcript expected");
    assert_eq!(canon.meta.id, "T2");
}

#[test]
fn restrict_to_canonical_keeps_single_transcript() {
    let g = gene(Some(vec![transcript("T1", 0), transcript("T2", 1)]));
    let restricted = g.gene_with_canonical_transcript_only();
    let ts = restricted.transcripts.expect("list expected");
    assert_eq!(ts.len(), 1);
    assert_eq!(ts[0].meta.id, "T2");
    assert_eq!(restricted.display_name, "TP53");
}

#[test]
fn restrict_to_canonical_empty_without_transcripts() {
    let g = gene(None);
    let restricted = g.gene_with_canonical_transcript_only();
    assert_eq!(restricted.transcripts, Some(vec![]));
}

#[test]
fn restrict_to_canonical_empty_when_no_flag_set() {
    let g = gene(Some(vec![transcript("T1", 0)]));
    let restricted = g.gene_with_canonical_transcript_only();
    assert_eq!(restricted.transcripts, Some(vec![]));
}

#[test]
fn identify_object_recognizes_the_four_tags() {
    assert_eq!(identify_object("Gene"), Ok(FeatureKind::Gene));
    assert_eq!(identify_object("Transcript"), Ok(FeatureKind::Transcript));
    assert_eq!(identify_object("Exon"), Ok(FeatureKind::Exon));
    assert_eq!(identify_object("Translation"), Ok(FeatureKind::Protein));
}

#[test]
fn identify_object_rejects_unknown_tags() {
    assert_eq!(
        identify_object("Protein"),
        Err(FeatureError::UnsupportedFeatureType("Protein".to_string()))
    );
    assert_eq!(
        identify_object("gene"),
        Err(FeatureError::UnsupportedFeatureType("gene".to_string()))
    );
}

#[test]
fn expand_codes() {
    assert_eq!(expand_code("all"), Ok(1));
    assert_eq!(expand_code("a"), Ok(1));
    assert_eq!(expand_code("canonical"), Ok(1));
    assert_eq!(expand_code("c"), Ok(1));
    assert_eq!(expand_code("false"), Ok(0));
    assert_eq!(expand_code("f"), Ok(0));
    assert_eq!(
        expand_code("yes"),
        Err(FeatureError::InvalidExpandOption("yes".to_string()))
    );
}

#[test]
fn clone_preserves_transcript_fields() {
    let t = transcript("T9", 1);
    let c = t.clone();
    assert_eq!(c, t);
}

#[test]
fn feature_variants_wrap_their_records() {
    let e = Exon { coords: genome("2", 7, 9, -1), meta: meta("ENSE1") };
    let f = EnsemblFeature::Exon(e);
    match f {
        EnsemblFeature::Exon(inner) => assert_eq!(inner.meta.id, "ENSE1"),
        _ => panic!("wrong variant"),
    }
    let p = Protein {
        length: 393,
        parent: "T2".to_string(),
        coords: StartEndCoords { start: 1, end: 50 },
        meta: meta("ENSP1"),
    };
    let f2 = EnsemblFeature::Protein(p);
    match f2 {
        EnsemblFeature::Protein(inner) => assert_eq!(inner.length, 393),
        _ => panic!("wrong variant"),
    }
}
