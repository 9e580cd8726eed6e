//! Rendering of a selection in an output style.

use crate::json::{
    metadata_text, print_metadata, print_v12_module, print_v13_module, print_v14_pallet,
    text_view, v12_module_text, v13_module_text, v14_pallet_text,
};
use crate::metadata::{
    Layout, MetadataVersion, MetadataView, ModuleDescriptor, ModuleView, VersionedMetadata,
};
use crate::text::str_eq;
use vstd::prelude::*;
use vstd::slice::*;

verus! {

/// The representation in which a selection is put out.
#[derive(Clone, Copy, Debug, PartialEq, Eq, Structural)]
pub enum OutputFormat {
    /// Human-readable structured text.
    Structured,
    /// The hexadecimal text of the blob, as it was received.
    Hex,
    /// The bytes of the blob.
    RawBytes,
}

/// A format name that is none of the known ones.
#[derive(Clone, Copy, Debug, PartialEq, Eq, Structural)]
pub enum ConfigError {
    UnknownFormat,
}

/// The format that a name selects: `json`, `hex` or `bytes`.
pub open spec fn format_named(name: Seq<char>) -> Option<OutputFormat> {
    if name == "json"@ {
        Some(OutputFormat::Structured)
    } else if name == "hex"@ {
        Some(OutputFormat::Hex)
    } else if name == "bytes"@ {
        Some(OutputFormat::RawBytes)
    } else {
        None
    }
}

impl OutputFormat {
    /// Reads a format name.  Names are matched exactly.
    pub fn from_name(name: &str) -> (result: Result<OutputFormat, ConfigError>)
        ensures
            match result {
                Ok(format) => format_named(name@) == Some(format),
                Err(ConfigError::UnknownFormat) => format_named(name@) is None,
            },
    {
        if str_eq(name, "json") {
            Ok(OutputFormat::Structured)
        } else if str_eq(name, "hex") {
            Ok(OutputFormat::Hex)
        } else if str_eq(name, "bytes") {
            Ok(OutputFormat::RawBytes)
        } else {
            Err(ConfigError::UnknownFormat)
        }
    }
}

/// What is to be rendered.
#[derive(Clone, Copy, Debug, PartialEq, Eq)]
pub enum Selection<'a> {
    /// The whole decoded metadata.
    Metadata(&'a VersionedMetadata),
    /// One module that a lookup found.
    Module(&'a ModuleDescriptor),
    /// The hexadecimal text of the blob.
    HexText(&'a str),
    /// The bytes of the blob.
    RawBytes(&'a [u8]),
}

/// The mathematical value of a [`Selection`].
pub enum SelectionView {
    Metadata(MetadataView),
    Module(ModuleView),
    HexText(Seq<char>),
    RawBytes(Seq<u8>),
}

impl<'a> View for Selection<'a> {
    type V = SelectionView;

    open spec fn view(&self) -> SelectionView {
        match self {
            Selection::Metadata(metadata) => SelectionView::Metadata(metadata@),
            Selection::Module(module) => SelectionView::Module(module@),
            Selection::HexText(text) => SelectionView::HexText(text@),
            Selection::RawBytes(bytes) => SelectionView::RawBytes(bytes@),
        }
    }
}

/// A rendered selection: text, or bytes for the raw style.
#[derive(Debug, PartialEq, Eq)]
pub enum Rendered {
    Text(String),
    Bytes(Vec<u8>),
}

/// The mathematical value of a [`Rendered`].
pub enum RenderedView {
    Text(Seq<char>),
    Bytes(Seq<u8>),
}

impl View for Rendered {
    type V = RenderedView;

    open spec fn view(&self) -> RenderedView {
        match self {
            Rendered::Text(text) => RenderedView::Text(text@),
            Rendered::Bytes(bytes) => RenderedView::Bytes(bytes@),
        }
    }
}

/// Why a selection could not be rendered.
#[derive(Clone, Copy, Debug, PartialEq, Eq, Structural)]
pub enum FormatError {
    /// The style cannot be produced from the selection.
    IncompatibleStyle,
    /// The printer gave no text for the selected value.
    Serialization,
}

/// The structured text of a module, by the printer of its layout.
pub open spec fn module_text(module: ModuleView) -> Option<Seq<char>> {
    match module.layout {
        Layout::V12 => v12_module_text(module.encoded),
        Layout::V13 => v13_module_text(module.encoded),
        Layout::V14 => v14_pallet_text(module.encoded),
    }
}

/// What the printer's answer amounts to as a rendering.
pub open spec fn structured_spec(text: Option<Seq<char>>) -> Result<RenderedView, FormatError> {
    match text {
        Some(text) => Ok(RenderedView::Text(text)),
        None => Err(FormatError::Serialization),
    }
}

/// What rendering a selection in a style gives.
///
/// Structured text is made of decoded values only, and only of versions with
/// a known layout; the hexadecimal style passes the hexadecimal text through,
/// the raw style the bytes.  Every other pairing is incompatible.
pub open spec fn format_spec(selection: SelectionView, style: OutputFormat) -> Result<
    RenderedView,
    FormatError,
> {
    match (selection, style) {
        (SelectionView::Metadata(metadata), OutputFormat::Structured) => {
            if metadata.version is Unsupported {
                Err(FormatError::IncompatibleStyle)
            } else {
                structured_spec(metadata_text(metadata.source()))
            }
        },
        (SelectionView::Module(module), OutputFormat::Structured) => structured_spec(
            module_text(module),
        ),
        (SelectionView::HexText(text), OutputFormat::Hex) => Ok(RenderedView::Text(text)),
        (SelectionView::RawBytes(bytes), OutputFormat::RawBytes) => Ok(
            RenderedView::Bytes(bytes),
        ),
        _ => Err(FormatError::IncompatibleStyle),
    }
}

/// The value of a rendering's result.
pub open spec fn rendered_view(result: Result<Rendered, FormatError>) -> Result<
    RenderedView,
    FormatError,
> {
    match result {
        Ok(rendered) => Ok(rendered@),
        Err(error) => Err(error),
    }
}

/// Turns the printer's answer into a rendering.
pub fn structured(text: Option<String>) -> (result: Result<Rendered, FormatError>)
    ensures
        rendered_view(result) == structured_spec(text_view(text)),
{
    match text {
        Some(text) => Ok(Rendered::Text(text)),
        None => Err(FormatError::Serialization),
    }
}

/// Renders a selection in a style.
pub fn format(selection: Selection<'_>, style: OutputFormat) -> (result: Result<
    Rendered,
    FormatError,
>)
    ensures
        rendered_view(result) == format_spec(selection@, style),
{
    match (selection, style) {
        (Selection::Metadata(metadata), OutputFormat::Structured) => {
            match metadata.version() {
                MetadataVersion::Unsupported(_) => Err(FormatError::IncompatibleStyle),
                _ => {
                    let source = metadata.to_bytes();
                    structured(print_metadata(source.as_slice()))
                },
            }
        },
        (Selection::Module(module), OutputFormat::Structured) => {
            let text = match module.layout {
                Layout::V12 => print_v12_module(module.encoded.as_slice()),
                Layout::V13 => print_v13_module(module.encoded.as_slice()),
                Layout::V14 => print_v14_pallet(module.encoded.as_slice()),
            };
            structured(text)
        },
        (Selection::HexText(text), OutputFormat::Hex) => Ok(Rendered::Text(text.to_owned())),
        (Selection::RawBytes(bytes), OutputFormat::RawBytes) => Ok(
            Rendered::Bytes(slice_to_vec(bytes)),
        ),
        _ => Err(FormatError::IncompatibleStyle),
    }
}

/// Rendering is a function of the selection and the style: whatever two
/// calls on the same input return has the same value, character for character.
pub proof fn lemma_format_deterministic(
    selection: SelectionView,
    style: OutputFormat,
    first: Result<Rendered, FormatError>,
    second: Result<Rendered, FormatError>,
)
    requires
        rendered_view(first) == format_spec(selection, style),
        rendered_view(second) == format_spec(selection, style),
    ensures
        rendered_view(first) == rendered_view(second),
{
}

/// Decoded values have no hexadecimal and no raw form: asking for either of
/// the whole metadata or of a module is a usage error.
pub proof fn lemma_decoded_selection_needs_structure(selection: SelectionView, style: OutputFormat)
    requires
        selection is Metadata || selection is Module,
        style != OutputFormat::Structured,
    ensures
        format_spec(selection, style) == Err::<RenderedView, FormatError>(
            FormatError::IncompatibleStyle,
        ),
{
}

/// The blob's own forms pass through unchanged in their own style.
pub proof fn lemma_blob_forms_pass_through(text: Seq<char>, bytes: Seq<u8>)
    ensures
        format_spec(SelectionView::HexText(text), OutputFormat::Hex) == Ok::<
            RenderedView,
            FormatError,
        >(RenderedView::Text(text)),
        format_spec(SelectionView::RawBytes(bytes), OutputFormat::RawBytes) == Ok::<
            RenderedView,
            FormatError,
        >(RenderedView::Bytes(bytes)),
{
}

} // verus!
