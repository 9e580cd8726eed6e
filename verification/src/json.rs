//! Structured text of decoded values, as `serde_json` prints what
//! `frame-metadata` decodes.  Nothing here is proved: each function below
//! decodes its bytes into the outside type, has it printed, and names the text.

use frame_metadata::RuntimeMetadataPrefixed;
use parity_scale_codec::Decode;
use scale_info::form::PortableForm;
use vstd::prelude::*;

verus! {

/// The value of a printer's answer.
pub open spec fn text_view(text: Option<String>) -> Option<Seq<char>> {
    match text {
        Some(text) => Some(text@),
        None => None,
    }
}

/// The pretty-printed JSON of the version 12 module with the given encoding,
/// or `None` where the bytes are no such module or it cannot be printed.
pub uninterp spec fn v12_module_text(encoded: Seq<u8>) -> Option<Seq<char>>;

/// The pretty-printed JSON of the version 13 module with the given encoding,
/// or `None` where the bytes are no such module or it cannot be printed.
pub uninterp spec fn v13_module_text(encoded: Seq<u8>) -> Option<Seq<char>>;

/// The pretty-printed JSON of the version 14 pallet with the given encoding,
/// or `None` where the bytes are no such pallet or it cannot be printed.
pub uninterp spec fn v14_pallet_text(encoded: Seq<u8>) -> Option<Seq<char>>;

/// The pretty-printed JSON of the whole metadata that a blob holds, or `None`
/// where the blob does not decode or it cannot be printed.
pub uninterp spec fn metadata_text(source: Seq<u8>) -> Option<Seq<char>>;

/// Decodes a `frame_metadata::v12::ModuleMetadata` and prints it with
/// `serde_json::to_string_pretty`.  Trusted: the text is a function of the
/// bytes alone, which `v12_module_text` names.
#[verifier::external_body]
pub(crate) fn print_v12_module(encoded: &[u8]) -> (text: Option<String>)
    ensures
        text_view(text) == v12_module_text(encoded@),
{
    let module = frame_metadata::v12::ModuleMetadata::decode(&mut &encoded[..]).ok()?;
    serde_json::to_string_pretty(&module).ok()
}

/// Decodes a `frame_metadata::v13::ModuleMetadata` and prints it with
/// `serde_json::to_string_pretty`.  Trusted: the text is a function of the
/// bytes alone, which `v13_module_text` names.
#[verifier::external_body]
pub(crate) fn print_v13_module(encoded: &[u8]) -> (text: Option<String>)
    ensures
        text_view(text) == v13_module_text(encoded@),
{
    let module = frame_metadata::v13::ModuleMetadata::decode(&mut &encoded[..]).ok()?;
    serde_json::to_string_pretty(&module).ok()
}

/// Decodes a `frame_metadata::v14::PalletMetadata` in its portable form and
/// prints it with `serde_json::to_string_pretty`.  Trusted: the text is a
/// function of the bytes alone, which `v14_pallet_text` names.
#[verifier::external_body]
pub(crate) fn print_v14_pallet(encoded: &[u8]) -> (text: Option<String>)
    ensures
        text_view(text) == v14_pallet_text(encoded@),
{
    let pallet =
        frame_metadata::v14::PalletMetadata::<PortableForm>::decode(&mut &encoded[..]).ok()?;
    serde_json::to_string_pretty(&pallet).ok()
}

/// Decodes a `frame_metadata::RuntimeMetadataPrefixed` and prints it with
/// `serde_json::to_string_pretty`.  Trusted: the text is a function of the
/// bytes alone, which `metadata_text` names.
#[verifier::external_body]
pub(crate) fn print_metadata(source: &[u8]) -> (text: Option<String>)
    ensures
        text_view(text) == metadata_text(source@),
{
    let metadata = RuntimeMetadataPrefixed::decode(&mut &source[..]).ok()?;
    serde_json::to_string_pretty(&metadata).ok()
}

} // verus!
