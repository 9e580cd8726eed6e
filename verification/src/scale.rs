//! The SCALE decoders of the three known layouts, as `frame-metadata` and
//! `parity-scale-codec` provide them.  Nothing here is proved: each function
//! below hands a payload to the outside decoder and names what comes back.

use frame_metadata::decode_different::DecodeDifferent;
use frame_metadata::v12::RuntimeMetadataV12;
use frame_metadata::v13::RuntimeMetadataV13;
use frame_metadata::v14::RuntimeMetadataV14;
use parity_scale_codec::{Decode, Encode};
use vstd::prelude::*;

verus! {

/// A decoded module list as plain values: for each module, in source order,
/// its name and its own SCALE encoding.
pub type Entries = Seq<(Seq<char>, Seq<u8>)>;

/// The values of a list of names and encodings, in the same order.
pub open spec fn entries_of(list: Seq<(String, Vec<u8>)>) -> Entries {
    Seq::new(list.len(), |i: int| (list[i].0@, list[i].1@))
}

/// What the decoder of a layout makes of a payload.
#[derive(Debug, PartialEq, Eq)]
pub enum Parsed {
    /// The decoder does not accept the payload.
    Rejected,
    /// The payload decodes, but its module list is left in its encoded form.
    Undecoded,
    /// The modules in source order: the name and the own encoding of each.
    Modules(Vec<(String, Vec<u8>)>),
}

/// The mathematical value of a [`Parsed`].
pub enum ParsedView {
    Rejected,
    Undecoded,
    Modules(Entries),
}

impl View for Parsed {
    type V = ParsedView;

    open spec fn view(&self) -> ParsedView {
        match self {
            Parsed::Rejected => ParsedView::Rejected,
            Parsed::Undecoded => ParsedView::Undecoded,
            Parsed::Modules(list) => ParsedView::Modules(entries_of(list@)),
        }
    }
}

/// What the version 12 decoder makes of a payload.
pub uninterp spec fn v12_modules(payload: Seq<u8>) -> ParsedView;

/// What the version 13 decoder makes of a payload.
pub uninterp spec fn v13_modules(payload: Seq<u8>) -> ParsedView;

/// What the version 14 decoder makes of a payload.
pub uninterp spec fn v14_pallets(payload: Seq<u8>) -> ParsedView;

/// Runs `<RuntimeMetadataV12 as Decode>::decode` on the payload and hands out
/// each module as its name and its re-encoding.  Trusted: the answer is a
/// function of the payload alone, which `v12_modules` names.
#[verifier::external_body]
pub(crate) fn parse_v12(payload: &[u8]) -> (parsed: Parsed)
    ensures
        parsed@ == v12_modules(payload@),
{
    let meta = match RuntimeMetadataV12::decode(&mut &payload[..]) {
        Ok(meta) => meta,
        Err(_) => return Parsed::Rejected,
    };
    let modules = match meta.modules {
        DecodeDifferent::Decoded(modules) => modules,
        DecodeDifferent::Encode(_) => return Parsed::Undecoded,
    };
    Parsed::Modules(modules.iter().map(|m| match &m.name {
        DecodeDifferent::Decoded(name) => (name.clone(), m.encode()),
        DecodeDifferent::Encode(name) => (name.to_string(), m.encode()),
    }).collect())
}

/// Runs `<RuntimeMetadataV13 as Decode>::decode` on the payload and hands out
/// each module as its name and its re-encoding.  Trusted: the answer is a
/// function of the payload alone, which `v13_modules` names.
#[verifier::external_body]
pub(crate) fn parse_v13(payload: &[u8]) -> (parsed: Parsed)
    ensures
        parsed@ == v13_modules(payload@),
{
    let meta = match RuntimeMetadataV13::decode(&mut &payload[..]) {
        Ok(meta) => meta,
        Err(_) => return Parsed::Rejected,
    };
    let modules = match meta.modules {
        DecodeDifferent::Decoded(modules) => modules,
        DecodeDifferent::Encode(_) => return Parsed::Undecoded,
    };
    Parsed::Modules(modules.iter().map(|m| match &m.name {
        DecodeDifferent::Decoded(name) => (name.clone(), m.encode()),
        DecodeDifferent::Encode(name) => (name.to_string(), m.encode()),
    }).collect())
}

/// Runs `<RuntimeMetadataV14 as Decode>::decode` on the payload and hands out
/// each pallet as its name and its re-encoding.  Trusted: the answer is a
/// function of the payload alone, which `v14_pallets` names.
#[verifier::external_body]
pub(crate) fn parse_v14(payload: &[u8]) -> (parsed: Parsed)
    ensures
        parsed@ == v14_pallets(payload@),
{
    match RuntimeMetadataV14::decode(&mut &payload[..]) {
        Ok(meta) => Parsed::Modules(
            meta.pallets.iter().map(|p| (p.name.clone(), p.encode())).collect(),
        ),
        Err(_) => Parsed::Rejected,
    }
}

} // verus!
