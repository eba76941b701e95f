//! Projections of the feature variants into flat text formats: a BED line
//! for every variant, and a TSV header/row pair with a fixed column layout
//! per variant.

use vstd::prelude::*;

use crate::features::{
    EnsemblFeature, EnsemblFeatureV, Exon, Gene, GenomeCoords, GenomeCoordsV, MetaInfo, MetaInfoV,
    Protein, ProteinV, StartEndCoords, StartEndCoordsV, Transcript,
};
use crate::text::{
    dec_digits, dec_text, push_dec_i64, push_dec_u64, push_str_chars, string_of_chars,
};

verus! {

broadcast use vstd::string::group_string_axioms;

/// The BED line of a genome-positioned feature:
/// `seq_region_name<TAB>start<TAB>end<TAB>label<TAB>strand`.
pub open spec fn bed_genome_text(c: GenomeCoordsV, label: Seq<char>) -> Seq<char> {
    c.seq_region_name + seq!['\t'] + dec_digits(c.coords.start as int) + seq!['\t'] + dec_digits(
        c.coords.end as int,
    ) + seq!['\t'] + label + seq!['\t'] + dec_text(c.strand as int)
}

/// The reduced BED line of a protein, which has no genome position:
/// `start<TAB>end<TAB>label`, over its protein-relative coordinates.
pub open spec fn bed_protein_text(c: StartEndCoordsV, label: Seq<char>) -> Seq<char> {
    dec_digits(c.start as int) + seq!['\t'] + dec_digits(c.end as int) + seq!['\t'] + label
}

/// The BED line owed for each variant: the label is the display name for
/// genes and transcripts, and the feature's own id for exons and proteins.
pub open spec fn bed_text(f: EnsemblFeatureV) -> Seq<char> {
    match f {
        EnsemblFeatureV::Gene(g) => bed_genome_text(g.coords, g.display_name),
        EnsemblFeatureV::Transcript(t) => bed_genome_text(t.coords, t.display_name),
        EnsemblFeatureV::Exon(e) => bed_genome_text(e.coords, e.meta.id),
        EnsemblFeatureV::Protein(p) => bed_protein_text(p.coords, p.meta.id),
    }
}

impl GenomeCoords {
    /// The five-column BED line of this position, labelled `name`.
    pub fn to_bed(&self, name: &str) -> (r: String)
        ensures
            r@ == bed_genome_text(self@, name@),
    {
        let mut out: Vec<char> = Vec::new();
        push_str_chars(&mut out, self.seq_region_name.as_str());
        out.push('\t');
        push_dec_u64(&mut out, self.coords.start);
        out.push('\t');
        push_dec_u64(&mut out, self.coords.end);
        out.push('\t');
        push_str_chars(&mut out, name);
        out.push('\t');
        push_dec_i64(&mut out, self.strand as i64);
        proof {
            assert(out@ =~= bed_genome_text(self@, name@));
        }
        string_of_chars(&out)
    }
}

impl Protein {
    /// The three-column BED line of this protein, labelled `name`.
    pub fn to_bed(&self, name: &str) -> (r: String)
        ensures
            r@ == bed_protein_text(self.coords@, name@),
    {
        let mut out: Vec<char> = Vec::new();
        push_dec_u64(&mut out, self.coords.start);
        out.push('\t');
        push_dec_u64(&mut out, self.coords.end);
        out.push('\t');
        push_str_chars(&mut out, name);
        proof {
            assert(out@ =~= bed_protein_text(self.coords@, name@));
        }
        string_of_chars(&out)
    }
}

impl EnsemblFeature {
    /// The BED line of this feature.
    pub fn to_bed(&self) -> (r: String)
        ensures
            r@ == bed_text(self@),
    {
        match self {
            EnsemblFeature::Gene(gene) => gene.coords.to_bed(gene.display_name.as_str()),
            EnsemblFeature::Transcript(transcript) => transcript.coords.to_bed(
                transcript.display_name.as_str(),
            ),
            EnsemblFeature::Exon(exon) => exon.coords.to_bed(exon.meta.id.as_str()),
            EnsemblFeature::Protein(protein) => {
                let name = protein.meta.id.clone();
                protein.to_bed(name.as_str())
            },
        }
    }
}

// The TSV column layout. For every variant the columns are, in order: the
// variant-specific scalar fields, the shared metadata columns, then the
// shared coordinate columns.

/// Column names of the shared coordinate pair.
pub open spec fn tsv_coords_header() -> Seq<Seq<char>> {
    seq!["start"@, "end"@]
}

/// Values of the shared coordinate pair.
pub open spec fn tsv_coords_row(c: StartEndCoordsV) -> Seq<Seq<char>> {
    seq![dec_digits(c.start as int), dec_digits(c.end as int)]
}

/// Column names of a full genome position.
pub open spec fn tsv_genome_header() -> Seq<Seq<char>> {
    seq!["assembly_name"@, "seq_region_name"@] + tsv_coords_header() + seq!["strand"@]
}

/// Values of a full genome position.
pub open spec fn tsv_genome_row(c: GenomeCoordsV) -> Seq<Seq<char>> {
    seq![c.assembly_name, c.seq_region_name] + tsv_coords_row(c.coords) + seq![
        dec_text(c.strand as int),
    ]
}

/// Column names of the shared metadata fields.
pub open spec fn tsv_meta_header() -> Seq<Seq<char>> {
    seq!["id"@, "species"@, "version"@, "db_type"@]
}

/// Values of the shared metadata fields.
pub open spec fn tsv_meta_row(m: MetaInfoV) -> Seq<Seq<char>> {
    seq![m.id, m.species, dec_digits(m.version as int), m.db_type]
}

/// Column names of a protein row.
pub open spec fn tsv_protein_header() -> Seq<Seq<char>> {
    seq!["parent"@, "length"@] + tsv_meta_header() + tsv_coords_header()
}

/// Values of a protein row.
pub open spec fn tsv_protein_row(p: ProteinV) -> Seq<Seq<char>> {
    seq![p.parent, dec_text(p.length as int)] + tsv_meta_row(p.meta) + tsv_coords_row(p.coords)
}

/// The TSV header owed for each variant.
pub open spec fn tsv_header_of(f: EnsemblFeatureV) -> Seq<Seq<char>> {
    match f {
        EnsemblFeatureV::Gene(g) => seq![
            "canonical_transcript"@,
            "description"@,
            "display_name"@,
            "logic_name"@,
            "biotype"@,
            "source"@,
        ] + tsv_meta_header() + tsv_genome_header(),
        EnsemblFeatureV::Transcript(t) => seq![
            "parent"@,
            "is_canonical"@,
            "length"@,
            "display_name"@,
            "logic_name"@,
            "biotype"@,
            "source"@,
        ] + tsv_meta_header() + tsv_genome_header(),
        EnsemblFeatureV::Exon(e) => tsv_meta_header() + tsv_genome_header(),
        EnsemblFeatureV::Protein(p) => tsv_protein_header(),
    }
}

/// The TSV value row owed for each variant.
pub open spec fn tsv_row_of(f: EnsemblFeatureV) -> Seq<Seq<char>> {
    match f {
        EnsemblFeatureV::Gene(g) => seq![
            g.canonical_transcript,
            g.description,
            g.display_name,
            g.logic_name,
            g.biotype,
            g.source,
        ] + tsv_meta_row(g.meta) + tsv_genome_row(g.coords),
        EnsemblFeatureV::Transcript(t) => seq![
            t.parent,
            dec_digits(t.is_canonical as int),
            dec_digits(t.length as int),
            t.display_name,
            t.logic_name,
            t.biotype,
            t.source,
        ] + tsv_meta_row(t.meta) + tsv_genome_row(t.coords),
        EnsemblFeatureV::Exon(e) => tsv_meta_row(e.meta) + tsv_genome_row(e.coords),
        EnsemblFeatureV::Protein(p) => tsv_protein_row(p),
    }
}

/// TSV header and row of the same variant always have the same number of
/// columns, for every variant and every field content.
pub proof fn lemma_tsv_column_counts(f: EnsemblFeatureV)
    ensures
        tsv_header_of(f).len() == tsv_row_of(f).len(),
{
    match f {
        EnsemblFeatureV::Gene(g) => {},
        EnsemblFeatureV::Transcript(t) => {},
        EnsemblFeatureV::Exon(e) => {},
        EnsemblFeatureV::Protein(p) => {},
    }
}

/// Builds the decimal string of `n`.
fn u64_string(n: u64) -> (s: String)
    ensures
        s@ == dec_digits(n as int),
{
    let mut out: Vec<char> = Vec::new();
    push_dec_u64(&mut out, n);
    proof {
        assert(out@ =~= dec_digits(n as int));
    }
    string_of_chars(&out)
}

/// Builds the decimal string of `n`, sign included.
fn i64_string(n: i64) -> (s: String)
    ensures
        s@ == dec_text(n as int),
{
    let mut out: Vec<char> = Vec::new();
    push_dec_i64(&mut out, n);
    proof {
        assert(out@ =~= dec_text(n as int));
    }
    string_of_chars(&out)
}

impl StartEndCoords {
    /// The coordinate column names.
    pub fn header(&self) -> (r: Vec<String>)
        ensures
            r.deep_view() == tsv_coords_header(),
    {
        let mut v: Vec<String> = Vec::new();
        v.push("start".to_owned());
        v.push("end".to_owned());
        proof {
            assert(v.deep_view() =~= tsv_coords_header());
        }
        v
    }

    /// The coordinate column values.
    pub fn row(&self) -> (r: Vec<String>)
        ensures
            r.deep_view() == tsv_coords_row(self@),
    {
        let mut v: Vec<String> = Vec::new();
        v.push(u64_string(self.start));
        v.push(u64_string(self.end));
        proof {
            assert(v.deep_view() =~= tsv_coords_row(self@));
        }
        v
    }
}

impl GenomeCoords {
    /// The genome-position column names.
    pub fn header(&self) -> (r: Vec<String>)
        ensures
            r.deep_view() == tsv_genome_header(),
    {
        let mut v: Vec<String> = Vec::new();
        v.push("assembly_name".to_owned());
        v.push("seq_region_name".to_owned());
        v.push("start".to_owned());
        v.push("end".to_owned());
        v.push("strand".to_owned());
        proof {
            assert(v.deep_view() =~= tsv_genome_header());
        }
        v
    }

    /// The genome-position column values.
    pub fn row(&self) -> (r: Vec<String>)
        ensures
            r.deep_view() == tsv_genome_row(self@),
    {
        let mut v: Vec<String> = Vec::new();
        v.push(self.assembly_name.clone());
        v.push(self.seq_region_name.clone());
        v.push(u64_string(self.coords.start));
        v.push(u64_string(self.coords.end));
        v.push(i64_string(self.strand as i64));
        proof {
            assert(v.deep_view() =~= tsv_genome_row(self@));
        }
        v
    }
}

impl MetaInfo {
    /// The metadata column names.
    pub fn header(&self) -> (r: Vec<String>)
        ensures
            r.deep_view() == tsv_meta_header(),
    {
        let mut v: Vec<String> = Vec::new();
        v.push("id".to_owned());
        v.push("species".to_owned());
        v.push("version".to_owned());
        v.push("db_type".to_owned());
        proof {
            assert(v.deep_view() =~= tsv_meta_header());
        }
        v
    }

    /// The metadata column values.
    pub fn row(&self) -> (r: Vec<String>)
        ensures
            r.deep_view() == tsv_meta_row(self@),
    {
        let mut v: Vec<String> = Vec::new();
        v.push(self.id.clone());
        v.push(self.species.clone());
        v.push(u64_string(self.version));
        v.push(self.db_type.clone());
        proof {
            assert(v.deep_view() =~= tsv_meta_row(self@));
        }
        v
    }
}

impl Protein {
    /// The protein column names.
    pub fn header(&self) -> (r: Vec<String>)
        ensures
            r.deep_view() == tsv_protein_header(),
    {
        let mut v: Vec<String> = Vec::new();
        v.push("parent".to_owned());
        v.push("length".to_owned());
        let mut m = self.meta.header();
        v.append(&mut m);
        let mut c = self.coords.header();
        v.append(&mut c);
        proof {
            lemma_string_vec_concat(v, tsv_protein_header());
        }
        v
    }

    /// The protein column values.
    pub fn row(&self) -> (r: Vec<String>)
        ensures
            r.deep_view() == tsv_protein_row(self@),
    {
        let mut v: Vec<String> = Vec::new();
        v.push(self.parent.clone());
        v.push(i64_string(self.length as i64));
        let mut m = self.meta.row();
        v.append(&mut m);
        let mut c = self.coords.row();
        v.append(&mut c);
        proof {
            lemma_string_vec_concat(v, tsv_protein_row(self@));
        }
        v
    }
}

/// Concludes deep-view equality of a string vector with its target column
/// list once every element's view agrees pointwise.
proof fn lemma_string_vec_concat(v: Vec<String>, target: Seq<Seq<char>>)
    requires
        v@.len() == target.len(),
        forall|j: int| 0 <= j < v@.len() ==> #[trigger] v@[j]@ == target[j],
    ensures
        v.deep_view() == target,
{
    assert forall|j: int| 0 <= j < v@.len() implies v.deep_view()[j] == target[j] by {
        assert(v@[j]@ == target[j]);
    }
    assert(v.deep_view() =~= target);
}

impl EnsemblFeature {
    /// The TSV header of this feature's variant: the ordered column names.
    pub fn tsv_header(&self) -> (r: Vec<String>)
        ensures
            r.deep_view() == tsv_header_of(self@),
    {
        match self {
            EnsemblFeature::Gene(g) => {
                let mut v: Vec<String> = Vec::new();
                v.push("canonical_transcript".to_owned());
                v.push("description".to_owned());
                v.push("display_name".to_owned());
                v.push("logic_name".to_owned());
                v.push("biotype".to_owned());
                v.push("source".to_owned());
                let mut m = g.meta.header();
                v.append(&mut m);
                let mut c = g.coords.header();
                v.append(&mut c);
                proof {
                    lemma_string_vec_concat(v, tsv_header_of(self@));
                }
                v
            },
            EnsemblFeature::Transcript(t) => {
                let mut v: Vec<String> = Vec::new();
                v.push("parent".to_owned());
                v.push("is_canonical".to_owned());
                v.push("length".to_owned());
                v.push("display_name".to_owned());
                v.push("logic_name".to_owned());
                v.push("biotype".to_owned());
                v.push("source".to_owned());
                let mut m = t.meta.header();
                v.append(&mut m);
                let mut c = t.coords.header();
                v.append(&mut c);
                proof {
                    lemma_string_vec_concat(v, tsv_header_of(self@));
                }
                v
            },
            EnsemblFeature::Exon(e) => {
                let mut v: Vec<String> = Vec::new();
                let mut m = e.meta.header();
                v.append(&mut m);
                let mut c = e.coords.header();
                v.append(&mut c);
                proof {
                    lemma_string_vec_concat(v, tsv_header_of(self@));
                }
                v
            },
            EnsemblFeature::Protein(p) => p.header(),
        }
    }

    /// The TSV value row of this feature, in the same column order as
    /// `tsv_header`.
    pub fn tsv_row(&self) -> (r: Vec<String>)
        ensures
            r.deep_view() == tsv_row_of(self@),
    {
        match self {
            EnsemblFeature::Gene(g) => {
                let mut v: Vec<String> = Vec::new();
                v.push(g.canonical_transcript.clone());
                v.push(g.description.clone());
                v.push(g.display_name.clone());
                v.push(g.logic_name.clone());
                v.push(g.biotype.clone());
                v.push(g.source.clone());
                let mut m = g.meta.row();
                v.append(&mut m);
                let mut c = g.coords.row();
                v.append(&mut c);
                proof {
                    lemma_string_vec_concat(v, tsv_row_of(self@));
                }
                v
            },
            EnsemblFeature::Transcript(t) => {
                let mut v: Vec<String> = Vec::new();
                v.push(t.parent.clone());
                v.push(u64_string(t.is_canonical));
                v.push(u64_string(t.length));
                v.push(t.display_name.clone());
                v.push(t.logic_name.clone());
                v.push(t.biotype.clone());
                v.push(t.source.clone());
                let mut m = t.meta.row();
                v.append(&mut m);
                let mut c = t.coords.row();
                v.append(&mut c);
                proof {
                    lemma_string_vec_concat(v, tsv_row_of(self@));
                }
                v
            },
            EnsemblFeature::Exon(e) => {
                let mut v: Vec<String> = Vec::new();
                let mut m = e.meta.row();
                v.append(&mut m);
                let mut c = e.coords.row();
                v.append(&mut c);
                proof {
                    lemma_string_vec_concat(v, tsv_row_of(self@));
                }
                v
            },
            EnsemblFeature::Protein(p) => p.row(),
        }
    }
}

} // verus!
