//! Decoding of a metadata blob: the magic prefix, the version discriminant,
//! and the module list of the layout that the discriminant selects.

use crate::metadata::{
    magic_seq, module_views, Layout, MetadataVersion, MetadataView, ModuleDescriptor, ModuleView,
    VersionView, VersionedMetadata, MAGIC,
};
use crate::scale::{
    entries_of, parse_v12, parse_v13, parse_v14, v12_modules, v13_modules, v14_pallets, Entries,
    Parsed, ParsedView,
};
use vstd::prelude::*;
use vstd::slice::*;

verus! {

/// Why a blob could not be decoded.
#[derive(Clone, Copy, Debug, PartialEq, Eq, Structural)]
pub enum DecodeError {
    /// The blob does not start with the magic prefix.
    BadMagic,
    /// The blob ends before its version discriminant, or its body does not
    /// follow the layout that the discriminant selects, or it leaves the
    /// module list in a form that is not decoded.
    Malformed,
    /// No parser exists for the version.  `decode` never gives this error: an
    /// unknown version decodes to the opaque variant and fails when queried.
    UnsupportedVersion,
}

/// Whether a blob starts with the magic prefix.
pub open spec fn has_magic(bytes: Seq<u8>) -> bool {
    bytes.len() >= 4 && bytes.subrange(0, 4) == magic_seq()
}

/// What the outside decoder of a layout makes of a payload.
pub open spec fn parsed_modules(layout: Layout, payload: Seq<u8>) -> ParsedView {
    match layout {
        Layout::V12 => v12_modules(payload),
        Layout::V13 => v13_modules(payload),
        Layout::V14 => v14_pallets(payload),
    }
}

/// The descriptors of a decoded module list, in the same order.
pub open spec fn descriptors_of(layout: Layout, entries: Entries) -> Seq<ModuleView> {
    Seq::new(
        entries.len(),
        |i: int| ModuleView { layout, name: entries[i].0, encoded: entries[i].1 },
    )
}

/// The metadata that a payload of a known layout and the answer of that
/// layout's decoder amount to: only a fully decoded module list gives any.
pub open spec fn assemble_spec(layout: Layout, payload: Seq<u8>, parsed: ParsedView) -> Result<
    MetadataView,
    DecodeError,
> {
    match parsed {
        ParsedView::Rejected => Err(DecodeError::Malformed),
        ParsedView::Undecoded => Err(DecodeError::Malformed),
        ParsedView::Modules(entries) => Ok(
            MetadataView {
                version: VersionView::known(layout, descriptors_of(layout, entries)),
                payload,
            },
        ),
    }
}

/// What a blob decodes to.
pub open spec fn decode_spec(bytes: Seq<u8>) -> Result<MetadataView, DecodeError> {
    if !has_magic(bytes) {
        Err(DecodeError::BadMagic)
    } else if bytes.len() == 4 {
        Err(DecodeError::Malformed)
    } else {
        let payload = bytes.skip(5);
        match Layout::of_tag(bytes[4]) {
            None => Ok(MetadataView { version: VersionView::Unsupported(bytes[4]), payload }),
            Some(layout) => assemble_spec(layout, payload, parsed_modules(layout, payload)),
        }
    }
}

/// The value of a decoding result.
pub open spec fn decoded_view(result: Result<VersionedMetadata, DecodeError>) -> Result<
    MetadataView,
    DecodeError,
> {
    match result {
        Ok(metadata) => Ok(metadata@),
        Err(error) => Err(error),
    }
}

/// Whether a slice starts with the magic prefix.
pub fn starts_with_magic(bytes: &[u8]) -> (found: bool)
    ensures
        found == has_magic(bytes@),
{
    if bytes.len() < 4 {
        return false;
    }
    let found = bytes[0] == MAGIC[0] && bytes[1] == MAGIC[1] && bytes[2] == MAGIC[2] && bytes[3]
        == MAGIC[3];
    proof {
        let head = bytes@.subrange(0, 4);
        if found {
            assert(head =~= magic_seq());
        } else {
            assert(head[0] == bytes@[0] && head[1] == bytes@[1] && head[2] == bytes@[2]
                && head[3] == bytes@[3]);
        }
    }
    found
}

/// Turns a decoded module list into descriptors of the given layout.
pub fn into_descriptors(layout: Layout, entries: Vec<(String, Vec<u8>)>) -> (modules: Vec<
    ModuleDescriptor,
>)
    ensures
        module_views(modules@) == descriptors_of(layout, entries_of(entries@)),
{
    let mut modules: Vec<ModuleDescriptor> = Vec::new();
    for entry in it: entries
        invariant
            it.seq() == entries@,
            modules@.len() == it.index(),
            forall|k: int|
                0 <= k < modules@.len() ==> (#[trigger] modules@[k])@ == (ModuleView {
                    layout,
                    name: entries@[k].0@,
                    encoded: entries@[k].1@,
                }),
    {
        modules.push(ModuleDescriptor { layout, name: entry.0, encoded: entry.1 });
    }
    assert(module_views(modules@) =~= descriptors_of(layout, entries_of(entries@)));
    modules
}

/// Builds the decoded value of a known layout from the payload and the
/// answer of that layout's decoder.
pub fn assemble(layout: Layout, payload: Vec<u8>, parsed: Parsed) -> (result: Result<
    VersionedMetadata,
    DecodeError,
>)
    ensures
        decoded_view(result) == assemble_spec(layout, payload@, parsed@),
        result matches Ok(metadata) ==> metadata@.version.wf(),
{
    match parsed {
        Parsed::Rejected => Err(DecodeError::Malformed),
        Parsed::Undecoded => Err(DecodeError::Malformed),
        Parsed::Modules(entries) => {
            let modules = into_descriptors(layout, entries);
            let version = match layout {
                Layout::V12 => MetadataVersion::V12(modules),
                Layout::V13 => MetadataVersion::V13(modules),
                Layout::V14 => MetadataVersion::V14(modules),
            };
            Ok(VersionedMetadata::new(version, payload))
        },
    }
}

/// Decodes a metadata blob.
///
/// A blob without the magic prefix is rejected before anything else is read.
/// An unknown version discriminant is no error: it gives the opaque variant.
/// A known one selects the layout by which the rest must decode.
pub fn decode(bytes: &[u8]) -> (result: Result<VersionedMetadata, DecodeError>)
    ensures
        decoded_view(result) == decode_spec(bytes@),
        !has_magic(bytes@) ==> result == Err::<VersionedMetadata, DecodeError>(
            DecodeError::BadMagic,
        ),
        result != Err::<VersionedMetadata, DecodeError>(DecodeError::UnsupportedVersion),
        result matches Ok(metadata) ==> metadata@.version.wf() && metadata@.source() == bytes@,
{
    if !starts_with_magic(bytes) {
        return Err(DecodeError::BadMagic);
    }
    if bytes.len() == 4 {
        return Err(DecodeError::Malformed);
    }
    let tag = bytes[4];
    let payload = slice_subrange(bytes, 5, bytes.len());
    assert(payload@ =~= bytes@.skip(5));
    let result = match Layout::from_tag(tag) {
        None => Ok(VersionedMetadata::new(MetadataVersion::Unsupported(tag), slice_to_vec(payload))),
        Some(layout) => {
            let parsed = match layout {
                Layout::V12 => parse_v12(payload),
                Layout::V13 => parse_v13(payload),
                Layout::V14 => parse_v14(payload),
            };
            assemble(layout, slice_to_vec(payload), parsed)
        },
    };
    proof {
        if result is Ok {
            assert(bytes@.subrange(0, 4) == magic_seq());
            assert(result->Ok_0@.source() =~= bytes@);
        }
    }
    result
}

/// Decoding is a function of the bytes: whatever two calls on the same bytes
/// return, success or error, has the same value.
pub proof fn lemma_decode_deterministic(
    bytes: Seq<u8>,
    first: Result<VersionedMetadata, DecodeError>,
    second: Result<VersionedMetadata, DecodeError>,
)
    requires
        decoded_view(first) == decode_spec(bytes),
        decoded_view(second) == decode_spec(bytes),
    ensures
        decoded_view(first) == decoded_view(second),
        first is Err ==> first == second,
{
}

/// A blob that is shorter than the magic prefix, or starts with other bytes,
/// is rejected for its magic, whatever follows.
pub proof fn lemma_bad_magic_rejected(bytes: Seq<u8>)
    requires
        bytes.len() < 4 || bytes.subrange(0, 4) != magic_seq(),
    ensures
        decode_spec(bytes) == Err::<MetadataView, DecodeError>(DecodeError::BadMagic),
{
}

/// A blob with the magic prefix and a discriminant without a known layout
/// decodes to the opaque variant, with everything after the discriminant
/// kept as it is.
pub proof fn lemma_unknown_version_is_opaque(bytes: Seq<u8>)
    requires
        has_magic(bytes),
        bytes.len() >= 5,
        Layout::of_tag(bytes[4]) is None,
    ensures
        decode_spec(bytes) == Ok::<MetadataView, DecodeError>(
            MetadataView { version: VersionView::Unsupported(bytes[4]), payload: bytes.skip(5) },
        ),
{
}

/// What decodes can be put out again: the decoded value still holds the blob,
/// byte for byte, and its version is well-formed.
pub proof fn lemma_decoded_keeps_source(bytes: Seq<u8>)
    requires
        decode_spec(bytes) is Ok,
    ensures
        decode_spec(bytes)->Ok_0.source() == bytes,
        decode_spec(bytes)->Ok_0.version.wf(),
        decode_spec(bytes)->Ok_0.version.tag() == bytes[4],
{
    let metadata = decode_spec(bytes)->Ok_0;
    assert(bytes.subrange(0, 4) == magic_seq());
    assert(metadata.source() =~= bytes);
}

/// No blob decodes to the error that stands for a missing parser.
pub proof fn lemma_decode_never_unsupported(bytes: Seq<u8>)
    ensures
        decode_spec(bytes) != Err::<MetadataView, DecodeError>(DecodeError::UnsupportedVersion),
{
}

} // verus!
