//! The typed data model: coordinate and metadata primitives, the four
//! feature variants, the tagged union over them, and the
//! canonical-transcript selector.

use vstd::prelude::*;

use crate::errors::{FeatureError, FeatureErrorV};
use crate::text::str_eq;

verus! {

broadcast use vstd::string::group_string_axioms;

/// Shared positional fields of every feature.
#[derive(Debug, PartialEq, Eq, Clone, Copy)]
pub struct StartEndCoords {
    pub start: u64,
    pub end: u64,
}

/// Genome-level position: assembly, region, coordinates and strand
/// (`1`, `-1` or `0`).
#[derive(Debug, PartialEq, Eq)]
pub struct GenomeCoords {
    pub assembly_name: String,
    pub seq_region_name: String,
    pub coords: StartEndCoords,
    pub strand: i8,
}

/// Shared identity and versioning fields of every feature.
#[derive(Debug, PartialEq, Eq)]
pub struct MetaInfo {
    pub id: String,
    pub db_type: String,
    pub species: String,
    pub version: u64,
}

/// A translation product. Proteins carry no genome position: their
/// coordinates are relative to the protein itself.
#[derive(Debug, PartialEq, Eq)]
pub struct Protein {
    pub length: i32,
    pub parent: String,
    pub coords: StartEndCoords,
    pub meta: MetaInfo,
}

/// An exon of a transcript.
#[derive(Debug, PartialEq, Eq)]
pub struct Exon {
    pub coords: GenomeCoords,
    pub meta: MetaInfo,
}

/// A transcript of a gene. `exons` and `translation` are present only when
/// the caller requested expansion.
#[derive(Debug, PartialEq, Eq)]
pub struct Transcript {
    pub parent: String,
    pub exons: Option<Vec<Exon>>,
    pub translation: Option<Protein>,
    pub is_canonical: u64,
    pub length: u64,
    pub coords: GenomeCoords,
    pub meta: MetaInfo,
    pub display_name: String,
    pub logic_name: String,
    pub biotype: String,
    pub source: String,
}

/// A gene. `transcripts` is present only when the caller requested
/// expansion.
#[derive(Debug, PartialEq, Eq)]
pub struct Gene {
    pub canonical_transcript: String,
    pub description: String,
    pub transcripts: Option<Vec<Transcript>>,
    pub coords: GenomeCoords,
    pub meta: MetaInfo,
    pub display_name: String,
    pub logic_name: String,
    pub biotype: String,
    pub source: String,
}

/// The tagged union over the four feature variants, selected by the wire
/// discriminator `object_type`.
#[derive(Debug, PartialEq, Eq)]
pub enum EnsemblFeature {
    Gene(Gene),
    Transcript(Transcript),
    Exon(Exon),
    Protein(Protein),
}

/// The four variant tags, as bare names.
#[derive(Debug, PartialEq, Eq, Structural, Clone, Copy)]
pub enum FeatureKind {
    Gene,
    Transcript,
    Exon,
    Protein,
}

// The mathematical images of the model types: the same shapes over
// character sequences.

#[verifier::ext_equal]
pub struct StartEndCoordsV {
    pub start: u64,
    pub end: u64,
}

#[verifier::ext_equal]
pub struct GenomeCoordsV {
    pub assembly_name: Seq<char>,
    pub seq_region_name: Seq<char>,
    pub coords: StartEndCoordsV,
    pub strand: i8,
}

#[verifier::ext_equal]
pub struct MetaInfoV {
    pub id: Seq<char>,
    pub db_type: Seq<char>,
    pub species: Seq<char>,
    pub version: u64,
}

#[verifier::ext_equal]
pub struct ProteinV {
    pub length: i32,
    pub parent: Seq<char>,
    pub coords: StartEndCoordsV,
    pub meta: MetaInfoV,
}

#[verifier::ext_equal]
pub struct ExonV {
    pub coords: GenomeCoordsV,
    pub meta: MetaInfoV,
}

#[verifier::ext_equal]
pub struct TranscriptV {
    pub parent: Seq<char>,
    pub exons: Option<Seq<ExonV>>,
    pub translation: Option<ProteinV>,
    pub is_canonical: u64,
    pub length: u64,
    pub coords: GenomeCoordsV,
    pub meta: MetaInfoV,
    pub display_name: Seq<char>,
    pub logic_name: Seq<char>,
    pub biotype: Seq<char>,
    pub source: Seq<char>,
}

#[verifier::ext_equal]
pub struct GeneV {
    pub canonical_transcript: Seq<char>,
    pub description: Seq<char>,
    pub transcripts: Option<Seq<TranscriptV>>,
    pub coords: GenomeCoordsV,
    pub meta: MetaInfoV,
    pub display_name: Seq<char>,
    pub logic_name: Seq<char>,
    pub biotype: Seq<char>,
    pub source: Seq<char>,
}

#[verifier::ext_equal]
pub enum EnsemblFeatureV {
    Gene(GeneV),
    Transcript(TranscriptV),
    Exon(ExonV),
    Protein(ProteinV),
}

impl View for StartEndCoords {
    type V = StartEndCoordsV;

    open spec fn view(&self) -> StartEndCoordsV {
        StartEndCoordsV { start: self.start, end: self.end }
    }
}

impl DeepView for StartEndCoords {
    type V = StartEndCoordsV;

    open spec fn deep_view(&self) -> StartEndCoordsV {
        self.view()
    }
}

impl View for GenomeCoords {
    type V = GenomeCoordsV;

    open spec fn view(&self) -> GenomeCoordsV {
        GenomeCoordsV {
            assembly_name: self.assembly_name@,
            seq_region_name: self.seq_region_name@,
            coords: self.coords@,
            strand: self.strand,
        }
    }
}

impl DeepView for GenomeCoords {
    type V = GenomeCoordsV;

    open spec fn deep_view(&self) -> GenomeCoordsV {
        self.view()
    }
}

impl View for MetaInfo {
    type V = MetaInfoV;

    open spec fn view(&self) -> MetaInfoV {
        MetaInfoV {
            id: self.id@,
            db_type: self.db_type@,
            species: self.species@,
            version: self.version,
        }
    }
}

impl DeepView for MetaInfo {
    type V = MetaInfoV;

    open spec fn deep_view(&self) -> MetaInfoV {
        self.view()
    }
}

impl View for Protein {
    type V = ProteinV;

    open spec fn view(&self) -> ProteinV {
        ProteinV {
            length: self.length,
            parent: self.parent@,
            coords: self.coords@,
            meta: self.meta@,
        }
    }
}

impl DeepView for Protein {
    type V = ProteinV;

    open spec fn deep_view(&self) -> ProteinV {
        self.view()
    }
}

impl View for Exon {
    type V = ExonV;

    open spec fn view(&self) -> ExonV {
        ExonV { coords: self.coords@, meta: self.meta@ }
    }
}

impl DeepView for Exon {
    type V = ExonV;

    open spec fn deep_view(&self) -> ExonV {
        self.view()
    }
}

impl View for Transcript {
    type V = TranscriptV;

    open spec fn view(&self) -> TranscriptV {
        TranscriptV {
            parent: self.parent@,
            exons: match self.exons {
                Some(v) => Some(v.deep_view()),
                None => None,
            },
            translation: match self.translation {
                Some(p) => Some(p@),
                None => None,
            },
            is_canonical: self.is_canonical,
            length: self.length,
            coords: self.coords@,
            meta: self.meta@,
            display_name: self.display_name@,
            logic_name: self.logic_name@,
            biotype: self.biotype@,
            source: self.source@,
        }
    }
}

impl DeepView for Transcript {
    type V = TranscriptV;

    open spec fn deep_view(&self) -> TranscriptV {
        self.view()
    }
}

impl View for Gene {
    type V = GeneV;

    open spec fn view(&self) -> GeneV {
        GeneV {
            canonical_transcript: self.canonical_transcript@,
            description: self.description@,
            transcripts: match self.transcripts {
                Some(v) => Some(v.deep_view()),
                None => None,
            },
            coords: self.coords@,
            meta: self.meta@,
            display_name: self.display_name@,
            logic_name: self.logic_name@,
            biotype: self.biotype@,
            source: self.source@,
        }
    }
}

impl DeepView for Gene {
    type V = GeneV;

    open spec fn deep_view(&self) -> GeneV {
        self.view()
    }
}

impl View for EnsemblFeature {
    type V = EnsemblFeatureV;

    open spec fn view(&self) -> EnsemblFeatureV {
        match self {
            EnsemblFeature::Gene(g) => EnsemblFeatureV::Gene(g@),
            EnsemblFeature::Transcript(t) => EnsemblFeatureV::Transcript(t@),
            EnsemblFeature::Exon(e) => EnsemblFeatureV::Exon(e@),
            EnsemblFeature::Protein(p) => EnsemblFeatureV::Protein(p@),
        }
    }
}

impl DeepView for EnsemblFeature {
    type V = EnsemblFeatureV;

    open spec fn deep_view(&self) -> EnsemblFeatureV {
        self.view()
    }
}

impl Clone for MetaInfo {
    fn clone(&self) -> (res: Self)
        ensures
            res@ == self@,
    {
        MetaInfo {
            id: self.id.clone(),
            db_type: self.db_type.clone(),
            species: self.species.clone(),
            version: self.version,
        }
    }
}

impl Clone for GenomeCoords {
    fn clone(&self) -> (res: Self)
        ensures
            res@ == self@,
    {
        GenomeCoords {
            assembly_name: self.assembly_name.clone(),
            seq_region_name: self.seq_region_name.clone(),
            coords: self.coords,
            strand: self.strand,
        }
    }
}

impl Clone for Protein {
    fn clone(&self) -> (res: Self)
        ensures
            res@ == self@,
    {
        Protein {
            length: self.length,
            parent: self.parent.clone(),
            coords: self.coords,
            meta: self.meta.clone(),
        }
    }
}

impl Clone for Exon {
    fn clone(&self) -> (res: Self)
        ensures
            res@ == self@,
    {
        Exon { coords: self.coords.clone(), meta: self.meta.clone() }
    }
}

impl Clone for Transcript {
    fn clone(&self) -> (res: Self)
        ensures
            res@ == self@,
    {
        let exons = match &self.exons {
            Some(v) => {
                let mut out: Vec<Exon> = Vec::new();
                let mut i: usize = 0;
                while i < v.len()
                    invariant
                        i <= v.len(),
                        out.len() == i,
                        forall|j: int| 0 <= j < i ==> #[trigger] out@[j]@ == v@[j]@,
                    decreases v.len() - i,
                {
                    let e = v[i].clone();
                    out.push(e);
                    i = i + 1;
                }
                proof {
                    assert forall|j: int| 0 <= j < v@.len() implies out.deep_view()[j]
                        == v.deep_view()[j] by {
                        assert(out@[j]@ == v@[j]@);
                    }
                    assert(out.deep_view() =~= v.deep_view());
                }
                Some(out)
            },
            None => None,
        };
        let translation = match &self.translation {
            Some(p) => Some(p.clone()),
            None => None,
        };
        let res = Transcript {
            parent: self.parent.clone(),
            exons,
            translation,
            is_canonical: self.is_canonical,
            length: self.length,
            coords: self.coords.clone(),
            meta: self.meta.clone(),
            display_name: self.display_name.clone(),
            logic_name: self.logic_name.clone(),
            biotype: self.biotype.clone(),
            source: self.source.clone(),
        };
        assert(res@ =~= self@);
        res
    }
}

/// The first transcript of `ts` whose `is_canonical` flag is `1`, if any.
pub open spec fn first_canonical(ts: Seq<TranscriptV>) -> Option<TranscriptV>
    decreases ts.len(),
{
    if ts.len() == 0 {
        None
    } else if ts[0].is_canonical == 1 {
        Some(ts[0])
    } else {
        first_canonical(ts.drop_first())
    }
}

/// The canonical transcript that the selector owes for `g`: the first
/// qualifying member of its transcript list, none when the list is absent
/// or has no qualifying member.
pub open spec fn gene_canonical(g: GeneV) -> Option<TranscriptV> {
    match g.transcripts {
        Some(ts) => first_canonical(ts),
        None => None,
    }
}

/// The transcript list of the gene that `gene_with_canonical_transcript_only`
/// returns: at most the single canonical transcript.
pub open spec fn canonical_only_list(g: GeneV) -> Seq<TranscriptV> {
    match gene_canonical(g) {
        Some(t) => seq![t],
        None => Seq::empty(),
    }
}

impl Gene {
    /// The transcript of this gene whose `is_canonical` flag is `1`, or
    /// `None` when the transcript list is absent or no member qualifies.
    /// When malformed upstream data marks several transcripts canonical,
    /// the first in list order is chosen, as a defensive policy.
    pub fn get_canonical_transcript(&self) -> (r: Option<Transcript>)
        ensures
            r.deep_view() == gene_canonical(self@),
    {
        match &self.transcripts {
            None => None,
            Some(ts) => {
                let ghost tsv = ts.deep_view();
                proof {
                    assert(tsv.skip(0) =~= tsv);
                    assert(self@.transcripts == Some(tsv));
                }
                let mut i: usize = 0;
                while i < ts.len()
                    invariant
                        i <= ts.len(),
                        tsv == ts.deep_view(),
                        self@.transcripts == Some(tsv),
                        first_canonical(tsv) == first_canonical(tsv.skip(i as int)),
                    decreases ts.len() - i,
                {
                    proof {
                        assert(tsv.skip(i as int).len() > 0);
                        assert(tsv.skip(i as int)[0] == tsv[i as int]);
                    }
                    if ts[i].is_canonical == 1 {
                        let t = ts[i].clone();
                        proof {
                            assert(tsv[i as int] == ts@[i as int].deep_view());
                            assert(first_canonical(tsv.skip(i as int)) == Some(tsv[i as int]));
                            assert(t.deep_view() == tsv[i as int]);
                        }
                        return Some(t);
                    }
                    proof {
                        assert(tsv.skip(i as int).drop_first() =~= tsv.skip(i + 1 as int));
                    }
                    i = i + 1;
                }
                proof {
                    assert(tsv.skip(ts.len() as int) =~= Seq::<TranscriptV>::empty());
                }
                None
            },
        }
    }

    /// A gene identical to this one, except that its transcript list holds
    /// at most the single canonical transcript. When no transcript
    /// qualifies, the list is empty; that is not an error.
    pub fn gene_with_canonical_transcript_only(self) -> (r: Gene)
        ensures
            r@.canonical_transcript == self@.canonical_transcript,
            r@.description == self@.description,
            r@.coords == self@.coords,
            r@.meta == self@.meta,
            r@.display_name == self@.display_name,
            r@.logic_name == self@.logic_name,
            r@.biotype == self@.biotype,
            r@.source == self@.source,
            r@.transcripts == Some(canonical_only_list(self@)),
    {
        let canon = self.get_canonical_transcript();
        let mut list: Vec<Transcript> = Vec::new();
        match canon {
            Some(t) => {
                list.push(t);
                assert(list.deep_view() =~= canonical_only_list(self@));
            },
            None => {
                assert(list.deep_view() =~= canonical_only_list(self@));
            },
        }
        Gene { transcripts: Some(list), ..self }
    }
}

/// Pushing onto a vector pushes onto its deep view.
pub proof fn lemma_deep_view_push<T: DeepView>(a: Vec<T>, b: Vec<T>, x: T)
    requires
        b@ == a@.push(x),
    ensures
        b.deep_view() == a.deep_view().push(x.deep_view()),
{
    assert forall|q: int| 0 <= q < b@.len() implies b.deep_view()[q] == a.deep_view().push(
        x.deep_view(),
    )[q] by {
        if q < a@.len() {
            assert(b@[q] == a@[q]);
        } else {
            assert(b@[q] == x);
        }
    }
    assert(b.deep_view() =~= a.deep_view().push(x.deep_view()));
}

/// The variant that a wire discriminator value selects, if any. The wire
/// tag for the `Protein` variant is the string `Translation`.
pub open spec fn kind_of_tag(tag: Seq<char>) -> Option<FeatureKind> {
    if tag == "Gene"@ {
        Some(FeatureKind::Gene)
    } else if tag == "Transcript"@ {
        Some(FeatureKind::Transcript)
    } else if tag == "Exon"@ {
        Some(FeatureKind::Exon)
    } else if tag == "Translation"@ {
        Some(FeatureKind::Protein)
    } else {
        None
    }
}

/// Maps a wire discriminator value to its variant: `Gene`, `Transcript`,
/// `Exon` or `Translation` (the wire name of the `Protein` variant).
/// Any other value is an `UnsupportedFeatureType` error.
pub fn identify_object(object_type: &str) -> (r: Result<FeatureKind, FeatureError>)
    ensures
        kind_of_tag(object_type@) matches Some(k) ==> r == Ok::<FeatureKind, FeatureError>(k),
        kind_of_tag(object_type@) is None ==> (r matches Err(e) && e@
            == FeatureErrorV::UnsupportedFeatureType(object_type@)),
{
    proof {
        reveal_strlit("Gene");
        reveal_strlit("Transcript");
        reveal_strlit("Exon");
        reveal_strlit("Translation");
    }
    if str_eq(object_type, "Gene") {
        Ok(FeatureKind::Gene)
    } else if str_eq(object_type, "Transcript") {
        Ok(FeatureKind::Transcript)
    } else if str_eq(object_type, "Exon") {
        Ok(FeatureKind::Exon)
    } else if str_eq(object_type, "Translation") {
        Ok(FeatureKind::Protein)
    } else {
        Err(FeatureError::UnsupportedFeatureType(object_type.to_owned()))
    }
}

} // verus!
