use ensemblrs::codec::{parse_feature, serialize_feature};
use ensemblrs::errors::FeatureError;
use ensemblrs::features::{
    EnsemblFeature, Exon, Gene, GenomeCoords, MetaInfo, Protein, StartEndCoords, Transcript,
};

fn meta(id: &str) -> MetaInfo {
    MetaInfo {
        id: id.to_string(),
        db_type: "core".to_string(),
        species: "homo_sapiens".to_string(),
        version: 3,
    }
}

fn genome(region: &str, start: u64, end: u64, strand: i8) -> GenomeCoords {
    GenomeCoords {
        assembly_name: "GRCh38".to_string(),
        seq_region_name: region.to_string(),
        coords: StartEndCoords { start, end },
        strand,
    }
}

fn sample_protein() -> Protein {
    Protein {
        length: 393,
        parent: "ENST1".to_string(),
        coords: StartEndCoords { start: 1, end: 50 },
        meta: meta("ENSP1"),
    }
}

fn sample_exon() -> Exon {
    Exon { coords: genome("17", 150, 180, -1), meta: meta("ENSE1") }
}

fn expanded_transcript() -> Transcript {
    Transcript {
        parent: "ENSG1".to_string(),
        exons: Some(vec![sample_exon(), Exon { coords: genome("17", 190, 199, -1), meta: meta("ENSE2") }]),
        translation: Some(sample_protein()),
        is_canonical: 1,
        length: 2512,
        coords: genome("17", 100, 200, -1),
        meta: meta("ENST1"),
        display_name: "TP53-201".to_string(),
        logic_name: "havana".to_string(),
        biotype: "protein_coding".to_string(),
        source: "ensembl".to_string(),
    }
}

fn expanded_gene() -> Gene {
    Gene {
        canonical_transcript: "ENST1.2".to_string(),
        description: "tumor protein p53".to_string(),
        transcripts: Some(vec![expanded_transcript()]),
        coords: genome("17", 100, 200, -1),
        meta: meta("ENSG1"),
        display_name: "TP53".to_string(),
        logic_name: "havana".to_string(),
        biotype: "protein_coding".to_string(),
        source: "ensembl".to_string(),
    }
}

#[test]
fn round_trip_gene_with_children() {
    let f = EnsemblFeature::Gene(expanded_gene());
    let text = serialize_feature(&f);
    let back = parse_feature(&text).expect("round trip should parse");
    assert_eq!(back, f);
}

#[test]
fn round_trip_gene_without_transcripts() {
    let mut g = expanded_gene();
    g.transcripts = None;
    let f = EnsemblFeature::Gene(g);
    let text = serialize_feature(&f);
    assert_eq!(parse_feature(&text).expect("should parse"), f);
}

#[test]
fn round_trip_transcript() {
    let f = EnsemblFeature::Transcript(expanded_transcript());
    let text = serialize_feature(&f);
    assert_eq!(parse_feature(&text).expect("should parse"), f);
}

#[test]
fn round_trip_exon() {
    let f = EnsemblFeature::Exon(sample_exon());
    let text = serialize_feature(&f);
    assert_eq!(parse_feature(&text).expect("should parse"), f);
}

#[test]
fn round_trip_protein() {
    let f = EnsemblFeature::Protein(sample_protein());
    let text = serialize_feature(&f);
    assert_eq!(parse_feature(&text).expect("should parse"), f);
}

#[test]
fn round_trip_preserves_awkward_strings_and_extremes() {
    let mut p = sample_protein();
    p.parent = "quote \" backslash \\ tab \t end".to_string();
    p.length = -2147483648;
    p.coords = StartEndCoords { start: 0, end: 18446744073709551615 };
    let f = EnsemblFeature::Protein(p);
    let text = serialize_feature(&f);
    assert_eq!(parse_feature(&text).expect("should parse"), f);
}

#[test]
fn parse_exon_from_flattened_wire_object() {
    let text = r#"
        {
            "object_type": "Exon",
            "assembly_name": "GRCh38",
            "seq_region_name": "17",
            "start": 150,
            "end": 180,
            "strand": -1,
            "id": "ENSE1",
            "db_type": "core",
            "species": "homo_sapiens",
            "version": 3
        }
    "#;
    let f = parse_feature(text).expect("should parse");
    assert_eq!(f, EnsemblFeature::Exon(sample_exon()));
}

#[test]
fn parse_ignores_unknown_fields() {
    let text = r#"{"object_type":"Translation","extra":123,"length":393,"Parent":"ENST1","start":1,"end":50,"id":"ENSP1","db_type":"core","species":"homo_sapiens","version":3,"note":null}"#;
    let f = parse_feature(text).expect("should parse");
    assert_eq!(f, EnsemblFeature::Protein(sample_protein()));
}

#[test]
fn unknown_object_type_is_unsupported_feature_type() {
    let text = r#"{"object_type":"Unknown","start":1,"end":2}"#;
    assert_eq!(
        parse_feature(text),
        Err(FeatureError::UnsupportedFeatureType("Unknown".to_string()))
    );
}

#[test]
fn missing_exon_field_names_the_field() {
    let text = r#"
        {
            "object_type": "Exon",
            "assembly_name": "GRCh38",
            "seq_region_name": "17",
            "start": 150,
            "end": 180,
            "id": "ENSE1",
            "db_type": "core",
            "species": "homo_sapiens",
            "version": 3
        }
    "#;
    assert_eq!(
        parse_feature(text),
        Err(FeatureError::ParseError("strand".to_string()))
    );
}

#[test]
fn missing_object_type_is_a_parse_error() {
    let text = r#"{"start":1,"end":2}"#;
    assert_eq!(
        parse_feature(text),
        Err(FeatureError::ParseError("object_type".to_string()))
    );
}

#[test]
fn malformed_json_is_a_parse_error() {
    assert_eq!(
        parse_feature("{\"object_type\": "),
        Err(FeatureError::ParseError("json".to_string()))
    );
    assert_eq!(
        parse_feature("[1, 2]"),
        Err(FeatureError::ParseError("json".to_string()))
    );
    assert_eq!(
        parse_feature(""),
        Err(FeatureError::ParseError("json".to_string()))
    );
}

#[test]
fn fractional_numbers_are_rejected() {
    let text = r#"{"object_type":"Translation","length":39.5,"Parent":"T","start":1,"end":50,"id":"P","db_type":"core","species":"hs","version":3}"#;
    assert_eq!(
        parse_feature(text),
        Err(FeatureError::ParseError("json".to_string()))
    );
}

#[test]
fn wrong_field_shape_names_the_field() {
    let text = r#"{"object_type":"Translation","length":"large","Parent":"T","start":1,"end":50,"id":"P","db_type":"core","species":"hs","version":3}"#;
    assert_eq!(
        parse_feature(text),
        Err(FeatureError::ParseError("length".to_string()))
    );
}

#[test]
fn serialized_gene_text_is_canonical() {
    let mut g = expanded_gene();
    g.transcripts = None;
    let text = serialize_feature(&EnsemblFeature::Gene(g));
    assert_eq!(
        text,
        "{\"object_type\":\"Gene\",\"canonical_transcript\":\"ENST1.2\",\
         \"description\":\"tumor protein p53\",\"display_name\":\"TP53\",\
         \"logic_name\":\"havana\",\"biotype\":\"protein_coding\",\"source\":\"ensembl\",\
         \"assembly_name\":\"GRCh38\",\"seq_region_name\":\"17\",\"start\":100,\"end\":200,\
         \"strand\":-1,\"id\":\"ENSG1\",\"db_type\":\"core\",\"species\":\"homo_sapiens\",\
         \"version\":3}"
    );
}
