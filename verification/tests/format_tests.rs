use frame_metadata::decode_different::DecodeDifferent;
use frame_metadata::{RuntimeMetadata, RuntimeMetadataPrefixed};
use parity_scale_codec::Encode;
use subsee::blob::RawBlob;
use subsee::decoder::{decode, DecodeError};
use subsee::formatter::{
    structured, ConfigError, FormatError, OutputFormat, Rendered, Selection,
};
use subsee::locator::{locate, LookupResult, QueryError};
use subsee::metadata::{Layout, ModuleDescriptor};
use subsee::pipeline::{describe, inspect, InspectError, Outcome};

fn pallet(name: &'static str, index: u8) -> frame_metadata::v14::PalletMetadata {
    frame_metadata::v14::PalletMetadata {
        name,
        storage: None,
        calls: None,
        event: None,
        constants: vec![],
        error: None,
        index,
    }
}

fn v14(pallets: Vec<frame_metadata::v14::PalletMetadata>) -> RuntimeMetadataPrefixed {
    RuntimeMetadataPrefixed::from(frame_metadata::v14::RuntimeMetadataV14::new(
        pallets,
        frame_metadata::v14::ExtrinsicMetadata {
            ty: scale_info::meta_type::<()>(),
            version: 4,
            signed_extensions: vec![],
        },
        scale_info::meta_type::<()>(),
    ))
}

fn module12(name: &str, index: u8) -> frame_metadata::v12::ModuleMetadata {
    frame_metadata::v12::ModuleMetadata {
        name: DecodeDifferent::Decoded(name.to_string()),
        storage: None,
        calls: None,
        event: None,
        constants: DecodeDifferent::Decoded(vec![]),
        errors: DecodeDifferent::Decoded(vec![]),
        index,
    }
}

fn v12(modules: Vec<frame_metadata::v12::ModuleMetadata>) -> RuntimeMetadataPrefixed {
    RuntimeMetadataPrefixed(
        frame_metadata::v12::META_RESERVED,
        RuntimeMetadata::V12(frame_metadata::v12::RuntimeMetadataV12 {
            modules: DecodeDifferent::Decoded(modules),
            extrinsic: frame_metadata::v12::ExtrinsicMetadata {
                version: 4,
                signed_extensions: vec![],
            },
        }),
    )
}

fn module13(name: &str, index: u8) -> frame_metadata::v13::ModuleMetadata {
    frame_metadata::v13::ModuleMetadata {
        name: DecodeDifferent::Decoded(name.to_string()),
        storage: None,
        calls: None,
        event: None,
        constants: DecodeDifferent::Decoded(vec![]),
        errors: DecodeDifferent::Decoded(vec![]),
        index,
    }
}

fn v13(modules: Vec<frame_metadata::v13::ModuleMetadata>) -> RuntimeMetadataPrefixed {
    RuntimeMetadataPrefixed(
        frame_metadata::v13::META_RESERVED,
        RuntimeMetadata::V13(frame_metadata::v13::RuntimeMetadataV13 {
            modules: DecodeDifferent::Decoded(modules),
            extrinsic: frame_metadata::v13::ExtrinsicMetadata {
                version: 4,
                signed_extensions: vec![],
            },
        }),
    )
}

fn hex_of(bytes: &[u8]) -> String {
    format!("0x{}", hex::encode(bytes))
}

fn text(rendered: Rendered) -> String {
    match rendered {
        Rendered::Text(text) => text,
        Rendered::Bytes(bytes) => panic!("bytes where text was due: {:?}", bytes),
    }
}

#[test]
fn format_name_is_one_of_three() {
    assert_eq!(OutputFormat::from_name("json"), Ok(OutputFormat::Structured));
    assert_eq!(OutputFormat::from_name("hex"), Ok(OutputFormat::Hex));
    assert_eq!(OutputFormat::from_name("bytes"), Ok(OutputFormat::RawBytes));
    assert_eq!(OutputFormat::from_name("JSON"), Err(ConfigError::UnknownFormat));
    assert_eq!(OutputFormat::from_name("yaml"), Err(ConfigError::UnknownFormat));
    assert_eq!(OutputFormat::from_name(""), Err(ConfigError::UnknownFormat));
    assert_eq!(OutputFormat::from_name("json "), Err(ConfigError::UnknownFormat));
    assert_eq!(OutputFormat::from_name("structured"), Err(ConfigError::UnknownFormat));
}

#[test]
fn end_to_end_system_pallet() {
    let bytes = v14(vec![pallet("System", 0)]).encode();
    assert_eq!(&bytes[..4], b"meta");
    let metadata = decode(&bytes).unwrap();
    let module = match locate(&metadata, "System").unwrap() {
        LookupResult::Found(module) => module,
        LookupResult::NotFound => panic!("System is there"),
    };
    let out = text(subsee::formatter::format(Selection::Module(module), OutputFormat::Structured).unwrap());
    assert!(out.contains("\"name\": \"System\""), "{}", out);
}

#[test]
fn structured_pallet_is_what_the_printer_gives() {
    let prefixed = v14(vec![pallet("System", 0), pallet("Balances", 3)]);
    let expected = match &prefixed.1 {
        RuntimeMetadata::V14(meta) => serde_json::to_string_pretty(&meta.pallets[1]).unwrap(),
        _ => unreachable!(),
    };
    let metadata = decode(&prefixed.encode()).unwrap();
    let module = match locate(&metadata, "Balances").unwrap() {
        LookupResult::Found(module) => module,
        LookupResult::NotFound => panic!("Balances is there"),
    };
    let out = text(subsee::formatter::format(Selection::Module(module), OutputFormat::Structured).unwrap());
    assert_eq!(out, expected);
    assert!(out.contains("\"index\": 3"));
}

#[test]
fn structured_module_of_v12_and_v13() {
    let metadata = decode(&v12(vec![module12("System", 0), module12("Babe", 2)]).encode()).unwrap();
    let module = match locate(&metadata, "Babe").unwrap() {
        LookupResult::Found(module) => module,
        LookupResult::NotFound => panic!("Babe is there"),
    };
    let out = text(subsee::formatter::format(Selection::Module(module), OutputFormat::Structured).unwrap());
    assert_eq!(out, serde_json::to_string_pretty(&module12("Babe", 2)).unwrap());
    assert!(out.contains("\"name\": \"Babe\""));

    let metadata = decode(&v13(vec![module13("Grandpa", 4)]).encode()).unwrap();
    let module = match locate(&metadata, "Grandpa").unwrap() {
        LookupResult::Found(module) => module,
        LookupResult::NotFound => panic!("Grandpa is there"),
    };
    let out = text(subsee::formatter::format(Selection::Module(module), OutputFormat::Structured).unwrap());
    assert_eq!(out, serde_json::to_string_pretty(&module13("Grandpa", 4)).unwrap());
}

#[test]
fn structured_metadata_is_what_the_printer_gives() {
    for prefixed in [
        v14(vec![pallet("System", 0), pallet("Balances", 3)]),
        v12(vec![module12("System", 0)]),
        v13(vec![module13("System", 0), module13("Sudo", 1)]),
    ] {
        let expected = serde_json::to_string_pretty(&prefixed).unwrap();
        let metadata = decode(&prefixed.encode()).unwrap();
        let out = text(
            subsee::formatter::format(Selection::Metadata(&metadata), OutputFormat::Structured).unwrap(),
        );
        assert_eq!(out, expected);
        assert!(out.contains("1635018093"));
        assert!(out.contains("\"name\": \"System\""));
    }
}

#[test]
fn structured_keeps_the_order_of_the_source() {
    let metadata = decode(&v14(vec![pallet("Zeta", 0), pallet("Alpha", 1)]).encode()).unwrap();
    let out = text(
        subsee::formatter::format(Selection::Metadata(&metadata), OutputFormat::Structured).unwrap(),
    );
    let zeta = out.find("\"name\": \"Zeta\"").unwrap();
    let alpha = out.find("\"name\": \"Alpha\"").unwrap();
    assert!(zeta < alpha);
}

#[test]
fn structured_is_the_same_each_time() {
    let bytes = v14(vec![pallet("System", 0), pallet("Balances", 3)]).encode();
    let first = decode(&bytes).unwrap();
    let second = decode(&bytes).unwrap();
    assert_eq!(first, second);
    let a = subsee::formatter::format(Selection::Metadata(&first), OutputFormat::Structured);
    let b = subsee::formatter::format(Selection::Metadata(&first), OutputFormat::Structured);
    let c = subsee::formatter::format(Selection::Metadata(&second), OutputFormat::Structured);
    assert!(a.is_ok());
    assert_eq!(a, b);
    assert_eq!(a, c);
}

#[test]
fn decoded_selections_have_no_blob_style() {
    let metadata = decode(&v14(vec![pallet("System", 0)]).encode()).unwrap();
    let module = match locate(&metadata, "System").unwrap() {
        LookupResult::Found(module) => module,
        LookupResult::NotFound => panic!("System is there"),
    };
    assert_eq!(
        subsee::formatter::format(Selection::Metadata(&metadata), OutputFormat::Hex),
        Err(FormatError::IncompatibleStyle)
    );
    assert_eq!(
        subsee::formatter::format(Selection::Module(module), OutputFormat::RawBytes),
        Err(FormatError::IncompatibleStyle)
    );
    assert_eq!(
        subsee::formatter::format(Selection::Metadata(&metadata), OutputFormat::RawBytes),
        Err(FormatError::IncompatibleStyle)
    );
    assert_eq!(
        subsee::formatter::format(Selection::Module(module), OutputFormat::Hex),
        Err(FormatError::IncompatibleStyle)
    );
}

#[test]
fn blob_forms_pass_through_in_their_own_style() {
    assert_eq!(
        subsee::formatter::format(Selection::HexText("0xAbCd"), OutputFormat::Hex),
        Ok(Rendered::Text(String::from("0xAbCd")))
    );
    assert_eq!(
        subsee::formatter::format(Selection::RawBytes(&[0xab, 0xcd]), OutputFormat::RawBytes),
        Ok(Rendered::Bytes(vec![0xab, 0xcd]))
    );
    assert_eq!(
        subsee::formatter::format(Selection::RawBytes(&[]), OutputFormat::RawBytes),
        Ok(Rendered::Bytes(vec![]))
    );
}

#[test]
fn blob_forms_have_no_other_style() {
    for style in [OutputFormat::Structured, OutputFormat::RawBytes] {
        assert_eq!(
            subsee::formatter::format(Selection::HexText("0xabcd"), style),
            Err(FormatError::IncompatibleStyle)
        );
    }
    for style in [OutputFormat::Structured, OutputFormat::Hex] {
        assert_eq!(
            subsee::formatter::format(Selection::RawBytes(&[0xab, 0xcd]), style),
            Err(FormatError::IncompatibleStyle)
        );
    }
}

#[test]
fn unsupported_metadata_has_no_structured_text() {
    let metadata = decode(b"meta\x09\x01\x02").unwrap();
    assert_eq!(
        subsee::formatter::format(Selection::Metadata(&metadata), OutputFormat::Structured),
        Err(FormatError::IncompatibleStyle)
    );
    assert_eq!(metadata.to_bytes(), b"meta\x09\x01\x02");
}

#[test]
fn a_module_that_does_not_decode_has_no_text() {
    let broken = ModuleDescriptor { layout: Layout::V14, name: String::from("System"), encoded: vec![0xff] };
    assert_eq!(
        subsee::formatter::format(Selection::Module(&broken), OutputFormat::Structured),
        Err(FormatError::Serialization)
    );
    let broken = ModuleDescriptor { layout: Layout::V12, name: String::from("System"), encoded: vec![] };
    assert_eq!(
        subsee::formatter::format(Selection::Module(&broken), OutputFormat::Structured),
        Err(FormatError::Serialization)
    );
}

#[test]
fn a_module_is_printed_by_its_own_layout() {
    let encoded = module13("Sudo", 1).encode();
    let module = ModuleDescriptor { layout: Layout::V13, name: String::from("Sudo"), encoded };
    let out = text(subsee::formatter::format(Selection::Module(&module), OutputFormat::Structured).unwrap());
    assert_eq!(out, serde_json::to_string_pretty(&module13("Sudo", 1)).unwrap());
}

#[test]
fn structured_wraps_the_printers_answer() {
    assert_eq!(structured(Some(String::from("{}"))), Ok(Rendered::Text(String::from("{}"))));
    assert_eq!(structured(None), Err(FormatError::Serialization));
}

#[test]
fn inspect_renders_the_named_pallet() {
    let prefixed = v14(vec![pallet("System", 0), pallet("Balances", 3)]);
    let blob = RawBlob::from_hex(hex_of(&prefixed.encode())).unwrap();
    let out = inspect(&blob, Some("System"), OutputFormat::Structured).unwrap();
    match out {
        Outcome::Rendered(Rendered::Text(text)) => {
            assert!(text.contains("\"name\": \"System\""));
            assert!(!text.contains("Balances"));
        }
        other => panic!("{:?}", other),
    }
}

#[test]
fn inspect_renders_all_without_a_name() {
    let prefixed = v14(vec![pallet("System", 0), pallet("Balances", 3)]);
    let expected = serde_json::to_string_pretty(&prefixed).unwrap();
    let blob = RawBlob::from_hex(hex_of(&prefixed.encode())).unwrap();
    assert_eq!(
        inspect(&blob, None, OutputFormat::Structured),
        Ok(Outcome::Rendered(Rendered::Text(expected)))
    );
}

#[test]
fn inspect_tells_a_missing_pallet_from_a_failure() {
    let blob = RawBlob::from_hex(hex_of(&v14(vec![pallet("System", 0)]).encode())).unwrap();
    assert_eq!(inspect(&blob, Some("Balances"), OutputFormat::Structured), Ok(Outcome::NotFound));
    let blob = RawBlob::from_hex(String::from("0x6d65746109")).unwrap();
    assert_eq!(
        inspect(&blob, Some("Balances"), OutputFormat::Structured),
        Err(InspectError::Query(QueryError::UnsupportedVersion))
    );
    assert_eq!(
        inspect(&blob, None, OutputFormat::Structured),
        Err(InspectError::Format(FormatError::IncompatibleStyle))
    );
}

#[test]
fn inspect_reports_what_decoding_reports() {
    let blob = RawBlob::from_hex(String::from("0x00112233")).unwrap();
    assert_eq!(
        inspect(&blob, None, OutputFormat::Structured),
        Err(InspectError::Decode(DecodeError::BadMagic))
    );
    let blob = RawBlob::from_hex(String::from("6d6574610e")).unwrap();
    assert_eq!(
        inspect(&blob, Some("System"), OutputFormat::Structured),
        Err(InspectError::Decode(DecodeError::Malformed))
    );
}

#[test]
fn inspect_puts_the_blob_out_as_it_is() {
    let blob = RawBlob::from_hex(String::from("0x00FFab")).unwrap();
    assert_eq!(
        inspect(&blob, None, OutputFormat::Hex),
        Ok(Outcome::Rendered(Rendered::Text(String::from("0x00FFab"))))
    );
    assert_eq!(
        inspect(&blob, Some("System"), OutputFormat::Hex),
        Ok(Outcome::Rendered(Rendered::Text(String::from("0x00FFab"))))
    );
    assert_eq!(
        inspect(&blob, None, OutputFormat::RawBytes),
        Ok(Outcome::Rendered(Rendered::Bytes(vec![0x00, 0xff, 0xab])))
    );
}

#[test]
fn describe_selects_by_name() {
    let prefixed = v12(vec![module12("System", 0), module12("Babe", 2)]);
    let metadata = decode(&prefixed.encode()).unwrap();
    assert_eq!(
        describe(&metadata, Some("Babe")),
        Ok(Outcome::Rendered(Rendered::Text(
            serde_json::to_string_pretty(&module12("Babe", 2)).unwrap()
        )))
    );
    assert_eq!(describe(&metadata, Some("babe")), Ok(Outcome::NotFound));
    assert_eq!(
        describe(&metadata, None),
        Ok(Outcome::Rendered(Rendered::Text(serde_json::to_string_pretty(&prefixed).unwrap())))
    );
}
