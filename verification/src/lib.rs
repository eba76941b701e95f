//! A verified library for Ensembl genomic-feature records: a typed data
//! model for the four feature variants (Gene, Transcript, Exon, Protein),
//! a parser and serializer for the flattened JSON wire format in which a
//! lookup service returns them, a canonical-transcript selector, and
//! projections of every variant into the BED and TSV tabular formats.

pub mod codec;
pub mod errors;
pub mod features;
pub mod json;
pub mod lookup;
pub mod reader;
pub mod render;
pub mod text;
