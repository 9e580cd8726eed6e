//! The whole inspection: from a blob, an optional module name and an output
//! style to what is put out.

use crate::blob::{BlobView, RawBlob};
use crate::decoder::{decode, decode_spec, DecodeError};
use crate::formatter::{
    format_spec, FormatError, OutputFormat, Rendered, RenderedView, Selection, SelectionView,
};
use crate::locator::{locate, locate_spec, LookupResult, LookupView, QueryError};
use crate::metadata::{MetadataView, VersionedMetadata};
use vstd::prelude::*;

verus! {

/// What an inspection ends in.
#[derive(Debug, PartialEq, Eq)]
pub enum Outcome {
    /// The rendered selection.
    Rendered(Rendered),
    /// The metadata holds no module of the name asked for.
    NotFound,
}

/// The mathematical value of an [`Outcome`].
pub enum OutcomeView {
    Rendered(RenderedView),
    NotFound,
}

impl View for Outcome {
    type V = OutcomeView;

    open spec fn view(&self) -> OutcomeView {
        match self {
            Outcome::Rendered(rendered) => OutcomeView::Rendered(rendered@),
            Outcome::NotFound => OutcomeView::NotFound,
        }
    }
}

/// The stage at which an inspection failed, with that stage's error.
#[derive(Clone, Copy, Debug, PartialEq, Eq)]
pub enum InspectError {
    Decode(DecodeError),
    Query(QueryError),
    Format(FormatError),
}

/// The value of an inspection's result.
pub open spec fn outcome_view(result: Result<Outcome, InspectError>) -> Result<
    OutcomeView,
    InspectError,
> {
    match result {
        Ok(outcome) => Ok(outcome@),
        Err(error) => Err(error),
    }
}

/// A rendering as the end of an inspection.
pub open spec fn finish_spec(rendered: Result<RenderedView, FormatError>) -> Result<
    OutcomeView,
    InspectError,
> {
    match rendered {
        Ok(rendered) => Ok(OutcomeView::Rendered(rendered)),
        Err(error) => Err(InspectError::Format(error)),
    }
}

/// The structured text of the whole metadata, or of the module of the given
/// name where one is given.
pub open spec fn describe_spec(metadata: MetadataView, pallet: Option<Seq<char>>) -> Result<
    OutcomeView,
    InspectError,
> {
    match pallet {
        None => finish_spec(
            format_spec(SelectionView::Metadata(metadata), OutputFormat::Structured),
        ),
        Some(name) => match locate_spec(metadata, name) {
            Err(error) => Err(InspectError::Query(error)),
            Ok(LookupView::NotFound) => Ok(OutcomeView::NotFound),
            Ok(LookupView::Found(module)) => finish_spec(
                format_spec(SelectionView::Module(module), OutputFormat::Structured),
            ),
        },
    }
}

/// What an inspection gives.  The hexadecimal and the raw style put the blob
/// out as it is, whatever it holds; the structured style decodes it first.
pub open spec fn inspect_spec(blob: BlobView, pallet: Option<Seq<char>>, style: OutputFormat) -> Result<
    OutcomeView,
    InspectError,
> {
    match style {
        OutputFormat::Hex => Ok(OutcomeView::Rendered(RenderedView::Text(blob.hex))),
        OutputFormat::RawBytes => Ok(OutcomeView::Rendered(RenderedView::Bytes(blob.bytes))),
        OutputFormat::Structured => match decode_spec(blob.bytes) {
            Err(error) => Err(InspectError::Decode(error)),
            Ok(metadata) => describe_spec(metadata, pallet),
        },
    }
}

/// The value of an optional name.
pub open spec fn name_view(name: Option<&str>) -> Option<Seq<char>> {
    match name {
        Some(name) => Some(name@),
        None => None,
    }
}

fn finish(rendered: Result<Rendered, FormatError>) -> (result: Result<Outcome, InspectError>)
    ensures
        outcome_view(result) == finish_spec(crate::formatter::rendered_view(rendered)),
{
    match rendered {
        Ok(rendered) => Ok(Outcome::Rendered(rendered)),
        Err(error) => Err(InspectError::Format(error)),
    }
}

/// Renders decoded metadata as structured text: all of it, or the module of
/// the given name.
pub fn describe(metadata: &VersionedMetadata, pallet: Option<&str>) -> (result: Result<
    Outcome,
    InspectError,
>)
    ensures
        outcome_view(result) == describe_spec(metadata@, name_view(pallet)),
{
    match pallet {
        None => finish(
            crate::formatter::format(Selection::Metadata(metadata), OutputFormat::Structured),
        ),
        Some(name) => match locate(metadata, name) {
            Err(error) => Err(InspectError::Query(error)),
            Ok(LookupResult::NotFound) => Ok(Outcome::NotFound),
            Ok(LookupResult::Found(module)) => finish(
                crate::formatter::format(Selection::Module(module), OutputFormat::Structured),
            ),
        },
    }
}

/// Inspects a blob: decodes it where the style asks for structure, selects
/// the module where a name is given, and renders the selection.
pub fn inspect(blob: &RawBlob, pallet: Option<&str>, style: OutputFormat) -> (result: Result<
    Outcome,
    InspectError,
>)
    ensures
        outcome_view(result) == inspect_spec(blob@, name_view(pallet), style),
{
    match style {
        OutputFormat::Hex => finish(
            crate::formatter::format(Selection::HexText(blob.hex()), OutputFormat::Hex),
        ),
        OutputFormat::RawBytes => finish(
            crate::formatter::format(Selection::RawBytes(blob.bytes()), OutputFormat::RawBytes),
        ),
        OutputFormat::Structured => match decode(blob.bytes()) {
            Err(error) => Err(InspectError::Decode(error)),
            Ok(metadata) => describe(&metadata, pallet),
        },
    }
}

/// Decoding a blob twice and rendering each result as structured text gives
/// the same metadata and the same text.
pub proof fn lemma_round_trip_deterministic(
    bytes: Seq<u8>,
    first: MetadataView,
    second: MetadataView,
    first_text: Result<Rendered, FormatError>,
    second_text: Result<Rendered, FormatError>,
)
    requires
        decode_spec(bytes) == Ok::<MetadataView, DecodeError>(first),
        decode_spec(bytes) == Ok::<MetadataView, DecodeError>(second),
        crate::formatter::rendered_view(first_text) == format_spec(
            SelectionView::Metadata(first),
            OutputFormat::Structured,
        ),
        crate::formatter::rendered_view(second_text) == format_spec(
            SelectionView::Metadata(second),
            OutputFormat::Structured,
        ),
    ensures
        first == second,
        crate::formatter::rendered_view(first_text) == crate::formatter::rendered_view(
            second_text,
        ),
{
}

/// A blob with the magic prefix and a discriminant without a known layout
/// decodes, and what it decodes to cannot be queried.
pub proof fn lemma_unknown_version_decodes_but_no_lookup(bytes: Seq<u8>, name: Seq<char>)
    requires
        crate::decoder::has_magic(bytes),
        bytes.len() >= 5,
        crate::metadata::Layout::of_tag(bytes[4]) is None,
    ensures
        decode_spec(bytes) matches Ok(metadata) && metadata.version
            == crate::metadata::VersionView::Unsupported(bytes[4]) && locate_spec(metadata, name)
            == Err::<LookupView, QueryError>(QueryError::UnsupportedVersion),
{
}

/// The hexadecimal and the raw style never fail and do not look at what the
/// blob holds, nor at the name.
pub proof fn lemma_blob_styles_total(blob: BlobView, pallet: Option<Seq<char>>)
    ensures
        inspect_spec(blob, pallet, OutputFormat::Hex) == Ok::<OutcomeView, InspectError>(
            OutcomeView::Rendered(RenderedView::Text(blob.hex)),
        ),
        inspect_spec(blob, pallet, OutputFormat::RawBytes) == Ok::<OutcomeView, InspectError>(
            OutcomeView::Rendered(RenderedView::Bytes(blob.bytes)),
        ),
{
}

} // verus!
