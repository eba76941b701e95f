use ensemblrs::features::{
    EnsemblFeature, Exon, Gene, GenomeCoords, MetaInfo, Protein, StartEndCoords, Transcript,
};

fn meta(id: &str) -> MetaInfo {
    MetaInfo {
        id: id.to_string(),
        db_type: "core".to_string(),
        species: "homo_sapiens".to_string(),
        version: 7,
    }
}

fn sample_gene() -> Gene {
    Gene {
        canonical_transcript: "T2.1".to_string(),
        description: "tumor protein".to_string(),
        transcripts: None,
        coords: GenomeCoords {
            assembly_name: "GRCh38".to_string(),
            seq_region_name: "17".to_string(),
            coords: StartEndCoords { start: 100, end: 200 },
            strand: 1,
        },
        meta: meta("ENSG1"),
        display_name: "TP53".to_string(),
        logic_name: "havana".to_string(),
        biotype: "protein_coding".to_string(),
        source: "ensembl".to_string(),
    }
}

fn sample_transcript() -> Transcript {
    Transcript {
        parent: "ENSG1".to_string(),
        exons: None,
        translation: None,
        is_canonical: 1,
        length: 2512,
        coords: GenomeCoords {
            assembly_name: "GRCh38".to_string(),
            seq_region_name: "X".to_string(),
            coords: StartEndCoords { start: 3, end: 4000 },
            strand: -1,
        },
        meta: meta("ENST1"),
        display_name: "TP53-201".to_string(),
        logic_name: "havana".to_string(),
        biotype: "protein_coding".to_string(),
        source: "ensembl".to_string(),
    }
}

fn sample_exon() -> Exon {
    Exon {
        coords: GenomeCoords {
            assembly_name: "GRCh38".to_string(),
            seq_region_name: "7".to_string(),
            coords: StartEndCoords { start: 0, end: 18446744073709551615 },
            strand: 0,
        },
        meta: meta("ENSE1"),
    }
}

fn sample_protein() -> Protein {
    Protein {
        length: 393,
        parent: "ENST1".to_string(),
        coords: StartEndCoords { start: 1, end: 50 },
        meta: meta("ENSP1"),
    }
}

#[test]
fn bed_line_of_gene() {
    let f = EnsemblFeature::Gene(sample_gene());
    assert_eq!(f.to_bed(), "17\t100\t200\tTP53\t1");
}

#[test]
fn bed_line_of_transcript_uses_display_name_and_strand_sign() {
    let f = EnsemblFeature::Transcript(sample_transcript());
    assert_eq!(f.to_bed(), "X\t3\t4000\tTP53-201\t-1");
}

#[test]
fn bed_line_of_exon_uses_id_and_full_range() {
    let f = EnsemblFeature::Exon(sample_exon());
    assert_eq!(f.to_bed(), "7\t0\t18446744073709551615\tENSE1\t0");
}

#[test]
fn bed_line_of_protein_has_three_columns() {
    let f = EnsemblFeature::Protein(sample_protein());
    assert_eq!(f.to_bed(), "1\t50\tENSP1");
}

#[test]
fn tsv_gene_header_and_row() {
    let f = EnsemblFeature::Gene(sample_gene());
    let header = f.tsv_header();
    let row = f.tsv_row();
    assert_eq!(
        header,
        vec![
            "canonical_transcript",
            "description",
            "display_name",
            "logic_name",
            "biotype",
            "source",
            "id",
            "species",
            "version",
            "db_type",
            "assembly_name",
            "seq_region_name",
            "start",
            "end",
            "strand",
        ]
    );
    assert_eq!(
        row,
        vec![
            "T2.1",
            "tumor protein",
            "TP53",
            "havana",
            "protein_coding",
            "ensembl",
            "ENSG1",
            "homo_sapiens",
            "7",
            "core",
            "GRCh38",
            "17",
            "100",
            "200",
            "1",
        ]
    );
}

#[test]
fn tsv_protein_header_and_row() {
    let f = EnsemblFeature::Protein(sample_protein());
    assert_eq!(
        f.tsv_header(),
        vec!["parent", "length", "id", "species", "version", "db_type", "start", "end"]
    );
    assert_eq!(
        f.tsv_row(),
        vec!["ENST1", "393", "ENSP1", "homo_sapiens", "7", "core", "1", "50"]
    );
}

#[test]
fn tsv_header_and_row_have_equal_column_counts_for_every_variant() {
    let features = vec![
        EnsemblFeature::Gene(sample_gene()),
        EnsemblFeature::Transcript(sample_transcript()),
        EnsemblFeature::Exon(sample_exon()),
        EnsemblFeature::Protein(sample_protein()),
    ];
    for f in &features {
        assert_eq!(f.tsv_header().len(), f.tsv_row().len());
    }
}

#[test]
fn tsv_columns_are_stable_across_calls() {
    let f = EnsemblFeature::Transcript(sample_transcript());
    assert_eq!(f.tsv_header(), f.tsv_header());
    assert_eq!(f.tsv_row(), f.tsv_row());
}

#[test]
fn component_headers_match_their_rows() {
    let g = sample_gene();
    assert_eq!(g.meta.header().len(), g.meta.row().len());
    assert_eq!(g.coords.header().len(), g.coords.row().len());
    assert_eq!(g.coords.coords.header().len(), g.coords.coords.row().len());
    let p = sample_protein();
    assert_eq!(p.header().len(), p.row().len());
}

#[test]
fn negative_protein_length_renders_with_sign() {
    let mut p = sample_protein();
    p.length = -17;
    let f = EnsemblFeature::Protein(p);
    let row = f.tsv_row();
    assert_eq!(row[1], "-17");
}
