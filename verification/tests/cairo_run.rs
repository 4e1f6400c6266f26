use cairo_core::bigint::BigInt;
use cairo_core::cairo_run::{
    encode_memory, encode_memory_cell, encode_trace, encode_trace_entry, fuzzed_run_steps,
    loads_additional_data, pie_run_steps, run_steps, BuiltinName, CairoRunConfig, LayoutName,
    RelocatedTraceEntry, RunStep,
};
use cairo_core::errors::RunnerError;
use cairo_core::felt::Felt;

fn felt_from(s: &str) -> Felt {
    let n = num_bigint::BigInt::parse_bytes(s.as_bytes(), 10).unwrap();
    Felt::new(&BigInt::from_signed_bytes_le(n.to_signed_bytes_le()))
}

#[test]
fn default_configuration() {
    let config = CairoRunConfig::default();
    assert_eq!(config.entrypoint, "main");
    assert!(!config.trace_enabled);
    assert!(!config.relocate_mem);
    assert_eq!(config.layout, LayoutName::plain);
    assert!(!config.proof_mode);
    assert_eq!(config.secure_run, None);
    assert!(!config.disable_trace_padding);
    assert_eq!(config.allow_missing_builtins, None);
    assert_eq!(config.cairo_layout_params_file, None);
    assert!(config.is_secure_run());
    assert!(!config.allows_missing_builtins());
}

#[test]
fn steps_of_a_default_run() {
    let config = CairoRunConfig::default();
    assert_eq!(
        run_steps(&config),
        vec![
            RunStep::Initialize { allow_missing_builtins: false },
            RunStep::RunUntilPc,
            RunStep::EndRun { disable_trace_padding: false },
            RunStep::VerifyAutoDeductions,
            RunStep::ReadReturnValues { allow_missing_builtins: false },
            RunStep::VerifySecureRunner,
            RunStep::Relocate { relocate_mem: false },
        ]
    );
}

#[test]
fn steps_of_a_run_in_proof_mode() {
    let config = CairoRunConfig {
        proof_mode: true,
        relocate_mem: true,
        disable_trace_padding: true,
        ..CairoRunConfig::default()
    };
    assert!(!config.is_secure_run());
    assert!(config.allows_missing_builtins());
    assert_eq!(
        run_steps(&config),
        vec![
            RunStep::Initialize { allow_missing_builtins: true },
            RunStep::RunUntilPc,
            RunStep::RunForSteps(1),
            RunStep::EndRun { disable_trace_padding: true },
            RunStep::VerifyAutoDeductions,
            RunStep::ReadReturnValues { allow_missing_builtins: true },
            RunStep::FinalizeSegments,
            RunStep::Relocate { relocate_mem: true },
        ]
    );
    let secure = CairoRunConfig {
        proof_mode: true,
        secure_run: Some(true),
        allow_missing_builtins: Some(false),
        ..CairoRunConfig::default()
    };
    assert_eq!(
        run_steps(&secure),
        vec![
            RunStep::Initialize { allow_missing_builtins: false },
            RunStep::RunUntilPc,
            RunStep::RunForSteps(1),
            RunStep::EndRun { disable_trace_padding: false },
            RunStep::VerifyAutoDeductions,
            RunStep::ReadReturnValues { allow_missing_builtins: false },
            RunStep::FinalizeSegments,
            RunStep::VerifySecureRunner,
            RunStep::Relocate { relocate_mem: false },
        ]
    );
}

#[test]
fn steps_of_a_fuzzed_run() {
    let config = CairoRunConfig {
        disable_trace_padding: true,
        secure_run: Some(false),
        ..CairoRunConfig::default()
    };
    assert_eq!(
        fuzzed_run_steps(&config, 500),
        vec![
            RunStep::Initialize { allow_missing_builtins: false },
            RunStep::RunUntilSteps(500),
            RunStep::EndRun { disable_trace_padding: false },
            RunStep::VerifyAutoDeductions,
            RunStep::ReadReturnValues { allow_missing_builtins: false },
            RunStep::Relocate { relocate_mem: false },
        ]
    );
}

#[test]
fn steps_of_a_pie_run() {
    let config = CairoRunConfig::default();
    assert_eq!(
        pie_run_steps(&config, Some(12), 12),
        Ok(vec![
            RunStep::Initialize { allow_missing_builtins: false },
            RunStep::FinalizeSegmentsByPie,
            RunStep::LoadAdditionalData { secure_run: true },
            RunStep::LoadPieMemory,
            RunStep::RunUntilPc,
            RunStep::EndRun { disable_trace_padding: false },
            RunStep::VerifyAutoDeductions,
            RunStep::ReadReturnValues { allow_missing_builtins: false },
            RunStep::VerifySecureRunner,
            RunStep::CheckPieCompatibility,
            RunStep::Relocate { relocate_mem: false },
        ])
    );
    let insecure = CairoRunConfig {
        secure_run: Some(false),
        allow_missing_builtins: Some(true),
        ..CairoRunConfig::default()
    };
    assert_eq!(
        pie_run_steps(&insecure, Some(0), 0),
        Ok(vec![
            RunStep::Initialize { allow_missing_builtins: true },
            RunStep::FinalizeSegmentsByPie,
            RunStep::LoadAdditionalData { secure_run: false },
            RunStep::LoadPieMemory,
            RunStep::RunUntilPc,
            RunStep::EndRun { disable_trace_padding: false },
            RunStep::VerifyAutoDeductions,
            RunStep::ReadReturnValues { allow_missing_builtins: true },
            RunStep::Relocate { relocate_mem: false },
        ])
    );
}

#[test]
fn a_pie_run_needs_the_steps_of_the_previous_run() {
    let config = CairoRunConfig::default();
    assert_eq!(
        pie_run_steps(&config, None, 12),
        Err(RunnerError::PieNStepsVsRunResourcesNStepsMismatch)
    );
    assert_eq!(
        pie_run_steps(&config, Some(11), 12),
        Err(RunnerError::PieNStepsVsRunResourcesNStepsMismatch)
    );
}

#[test]
fn a_pie_run_cannot_prepare_a_proof() {
    let config = CairoRunConfig { proof_mode: true, ..CairoRunConfig::default() };
    assert_eq!(pie_run_steps(&config, Some(12), 12), Err(RunnerError::CairoPieProofMode));
    assert_eq!(pie_run_steps(&config, None, 12), Err(RunnerError::CairoPieProofMode));
}

#[test]
fn hash_data_is_not_trusted_in_a_secure_run() {
    assert!(!loads_additional_data(BuiltinName::pedersen, true));
    assert!(loads_additional_data(BuiltinName::pedersen, false));
    assert!(loads_additional_data(BuiltinName::ec_op, true));
    assert!(loads_additional_data(BuiltinName::output, false));
}

#[test]
fn trace_entry_is_three_little_endian_words() {
    let entry = RelocatedTraceEntry { pc: 0x0102, ap: 3, fp: 0x1122334455667788 };
    assert_eq!(
        encode_trace_entry(&entry),
        vec![
            3, 0, 0, 0, 0, 0, 0, 0, 0x88, 0x77, 0x66, 0x55, 0x44, 0x33, 0x22, 0x11, 2, 1, 0, 0,
            0, 0, 0, 0
        ]
    );
}

#[test]
fn trace_is_its_entries_in_order() {
    let trace = [
        RelocatedTraceEntry { pc: 1, ap: 4, fp: 4 },
        RelocatedTraceEntry { pc: 3, ap: 5, fp: 4 },
    ];
    let mut expected = encode_trace_entry(&trace[0]);
    expected.extend(encode_trace_entry(&trace[1]));
    assert_eq!(encode_trace(&trace), expected);
    assert_eq!(encode_trace(&trace).len(), 48);
    assert_eq!(encode_trace(&[]), Vec::<u8>::new());
}

#[test]
fn memory_cell_is_address_and_value() {
    let bytes = encode_memory_cell(258, &felt_from("513"));
    let mut expected = vec![2u8, 1, 0, 0, 0, 0, 0, 0, 1, 2];
    expected.extend(vec![0u8; 30]);
    assert_eq!(bytes, expected);
    // the largest field element: 2^251 + 17 * 2^192
    let largest = encode_memory_cell(0, &felt_from("-1"));
    assert_eq!(largest.len(), 40);
    assert_eq!(largest[8..32], [0u8; 24]);
    assert_eq!(largest[32], 17);
    assert_eq!(largest[33..39], [0u8; 6]);
    assert_eq!(largest[39], 8);
}

#[test]
fn memory_leaves_out_the_empty_cells() {
    let memory = [None, Some(felt_from("7")), None, Some(felt_from("9"))];
    let mut expected = encode_memory_cell(1, &felt_from("7"));
    expected.extend(encode_memory_cell(3, &felt_from("9")));
    assert_eq!(encode_memory(&memory), expected);
    assert_eq!(encode_memory(&[None, None]), Vec::<u8>::new());
}

#[test]
fn felt_bytes_are_little_endian() {
    let bytes = felt_from("65536").to_bytes_le();
    assert_eq!(bytes.len(), 32);
    assert_eq!(bytes[0], 0);
    assert_eq!(bytes[1], 0);
    assert_eq!(bytes[2], 1);
    assert!(bytes[3..].iter().all(|b| *b == 0));
}
