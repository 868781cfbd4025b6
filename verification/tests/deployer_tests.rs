use chisel::ast::Module;
use chisel::deployer::{bootstrap_module, create_custom_deployer, create_memory_deployer,
    deployer_code, Deployer};
use chisel::encode::encode_module;
use chisel::ModuleError;

fn hx(s: &str) -> Vec<u8> {
    let t: String = s.split_whitespace().collect();
    rustc_hex::FromHex::from_hex(t.as_str()).unwrap()
}

#[test]
fn zero_payload() {
    let payload = vec![];
    let output = encode_module(&create_custom_deployer(&payload).unwrap());
    let expected = hx(
        "
        0061736d010000000113046000017f60037f7f7f0060027f7f00600000023e0308
        657468657265756d0b676574436f646553697a65000008657468657265756d0863
        6f6465436f7079000108657468657265756d0666696e6973680002030201030503
        010001071102066d656d6f72790200046d61696e00030a2c012a01037f10002100
        4100410020001001200041046b2802002102200041046b20026b21012001200210
        020b

        000d086465706c6f79657200000000
    ",
    );
    assert_eq!(output, expected);
}

#[test]
fn nonzero_payload() {
    let payload = hx("80ff007faa550011");
    let output = encode_module(&create_custom_deployer(&payload).unwrap());
    let expected = hx(
        "
        0061736d010000000113046000017f60037f7f7f0060027f7f00600000023e0308
        657468657265756d0b676574436f646553697a65000008657468657265756d0863
        6f6465436f7079000108657468657265756d0666696e6973680002030201030503
        010001071102066d656d6f72790200046d61696e00030a2c012a01037f10002100
        4100410020001001200041046b2802002102200041046b20026b21012001200210
        020b

        0015086465706c6f79657280ff007faa55001108000000
    ",
    );
    assert_eq!(output, expected);
}

#[test]
fn big_payload() {
    let payload = vec![0u8; 632232];
    let module = create_custom_deployer(&payload).unwrap();
    let memory_initial = module.memories[0].initial;
    assert_eq!(memory_initial, 10);
}

#[test]
fn memory_zero_payload() {
    let payload = vec![];
    let output = encode_module(&create_memory_deployer(&payload));
    let expected = hx(
        "
        0061736d0100000001090260027f7f0060000002130108657468657265756d0666
        696e697368000003030200010503010001071102046d61696e0002066d656d6f72
        7902000a0d0202000b08004100410010000b0b06010041000b00
    ",
    );
    assert_eq!(output, expected);
}

#[test]
fn memory_nonzero_payload() {
    let payload = hx("80ff007faa550011");
    let output = encode_module(&create_memory_deployer(&payload));
    let expected = hx(
        "
        0061736d0100000001090260027f7f0060000002130108657468657265756d0666
        696e697368000003030200010503010001071102046d61696e0002066d656d6f72
        7902000a0d0202000b08004100410810000b0b0e010041000b0880ff007faa5500
        11
    ",
    );
    assert_eq!(output, expected);
}

#[test]
fn memory_big_payload() {
    let payload = vec![0u8; 632232];
    let module = create_memory_deployer(&payload);
    let memory_initial = module.memories[0].initial;
    assert_eq!(memory_initial, 10);
}

#[test]
fn customsection_interface_test() {
    let payload = Module::empty();
    let module = Deployer::with_preset("customsection")
        .unwrap()
        .translate(&payload)
        .unwrap()
        .unwrap();
    let expected = hx(
        "
        0061736d010000000113046000017f60037f7f7f0060027f7f00600000023e0308
        657468657265756d0b676574436f646553697a65000008657468657265756d0863
        6f6465436f7079000108657468657265756d0666696e6973680002030201030503
        010001071102066d656d6f72790200046d61696e00030a2c012a01037f10002100
        4100410020001001200041046b2802002102200041046b20026b21012001200210
        020b0015086465706c6f7965720061736d0100000008000000
    ",
    );
    let output = encode_module(&module);
    assert_eq!(output, expected);
}

#[test]
fn memory_interface_test() {
    let payload = Module::empty();
    let module = Deployer::with_preset("memory").unwrap().translate(&payload).unwrap().unwrap();
    let expected = hx(
        "
        0061736d0100000001090260027f7f0060000002130108657468657265756d0666
        696e697368000003030200010503010001071102046d61696e0002066d656d6f72
        7902000a0d0202000b08004100410810000b0b0e010041000b080061736d010000
        00
    ",
    );
    let output = encode_module(&module);
    assert_eq!(output, expected);
}

#[test]
fn deployer_unknown_preset() {
    assert_eq!(Deployer::with_preset("bogus").err().unwrap(), ModuleError::NotSupported);
    assert_eq!(Deployer::with_defaults().err().unwrap(), ModuleError::NotSupported);
}

#[test]
fn deployer_config_map() {
    let cfg = vec![("preset".to_string(), "memory".to_string())];
    assert!(matches!(Deployer::with_config(&cfg), Ok(Deployer::Memory)));
    let empty: Vec<(String, String)> = Vec::new();
    assert_eq!(Deployer::with_config(&empty).err().unwrap(), ModuleError::NotSupported);
}

#[test]
fn bootstrap_round_trips_through_reference_codec() {
    // The library's own encoder must agree with the reference codec: the
    // encoded bootstrap wrapper decodes and re-encodes to the same bytes.
    let bytes = deployer_code();
    let pm = parity_wasm::elements::deserialize_buffer::<parity_wasm::elements::Module>(&bytes)
        .unwrap();
    let back = parity_wasm::elements::serialize(pm).unwrap();
    assert_eq!(bytes, back);
    let m = bootstrap_module();
    assert_eq!(encode_module(&m), bytes);
}

#[test]
fn custom_section_content_is_payload_and_trailer() {
    let payload = hx("deadbeef01");
    let module = create_custom_deployer(&payload).unwrap();
    let custom = &module.customs[0];
    assert_eq!(custom.name, "deployer");
    let mut expected = payload.clone();
    expected.extend_from_slice(&[0x05, 0x00, 0x00, 0x00]);
    assert_eq!(custom.payload, expected);
}

#[test]
fn negative_segment_offset_round_trips() {
    // A negative constant offset exercises the signed integer encoding;
    // the reference codec must read back exactly what was written.
    let mut m = Module::empty();
    m.memories.push(chisel::ast::Limits { initial: 1, maximum: Some(2) });
    m.data.push(chisel::ast::DataSegment { index: 0, offset: -123456, data: vec![1, 2, 3] });
    let bytes = encode_module(&m);
    let pm = parity_wasm::elements::deserialize_buffer::<parity_wasm::elements::Module>(&bytes)
        .unwrap();
    let seg = &pm.data_section().unwrap().entries()[0];
    let code = seg.offset().as_ref().unwrap().code();
    assert!(matches!(code[0], parity_wasm::elements::Instruction::I32Const(-123456)));
    assert_eq!(seg.value(), &[1, 2, 3]);
    let mems = pm.memory_section().unwrap().entries();
    assert_eq!(mems[0].limits().initial(), 1);
    assert_eq!(mems[0].limits().maximum(), Some(2));
}
