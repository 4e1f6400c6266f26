//! What a run is made of: its configuration, the order of its stages, and
//! the binary form of its trace and memory.
//!
//! The stages themselves (fetching and decoding instructions, taking
//! steps, relocating) belong to the runner; this module decides which of
//! them a configuration calls for and in which order.

use crate::errors::RunnerError;
use crate::felt::{le_byte, Felt};
use vstd::bytes::{spec_u64_to_le_bytes, u64_to_le_bytes};
use vstd::prelude::*;

verus! {

/// The layouts of builtins that a program can be run with.
#[allow(non_camel_case_types)]
#[derive(Debug, Clone, Copy, PartialEq, Eq, Structural)]
pub enum LayoutName {
    plain,
    small,
    dex,
    recursive,
    starknet,
    starknet_with_keccak,
    recursive_large_output,
    recursive_with_poseidon,
    all_solidity,
    all_cairo,
    dynamic,
}

/// The builtins of the catalogue.
#[allow(non_camel_case_types)]
#[derive(Debug, Clone, Copy, PartialEq, Eq, Structural)]
pub enum BuiltinName {
    output,
    range_check,
    pedersen,
    ecdsa,
    keccak,
    bitwise,
    ec_op,
    poseidon,
    segment_arena,
    range_check96,
    add_mod,
    mul_mod,
}

/// A path in the file system. It is carried through and never looked into.
#[verifier::external_type_specification]
#[verifier::external_body]
pub struct ExPathBuf(std::path::PathBuf);

pub struct CairoRunConfig<'a> {
    pub entrypoint: &'a str,
    pub trace_enabled: bool,
    pub relocate_mem: bool,
    pub layout: LayoutName,
    pub cairo_layout_params_file: Option<std::path::PathBuf>,
    pub proof_mode: bool,
    pub secure_run: Option<bool>,
    pub disable_trace_padding: bool,
    pub allow_missing_builtins: Option<bool>,
}

impl<'a> Default for CairoRunConfig<'a> {
    fn default() -> (r: Self)
        ensures
            r.entrypoint@ == "main"@,
            !r.trace_enabled,
            !r.relocate_mem,
            r.layout == LayoutName::plain,
            !r.proof_mode,
            r.secure_run is None,
            !r.disable_trace_padding,
            r.allow_missing_builtins is None,
            r.cairo_layout_params_file is None,
    {
        CairoRunConfig {
            entrypoint: "main",
            trace_enabled: false,
            relocate_mem: false,
            layout: LayoutName::plain,
            proof_mode: false,
            secure_run: None,
            disable_trace_padding: false,
            allow_missing_builtins: None,
            cairo_layout_params_file: None,
        }
    }
}

/// One stage of a run, for the runner to carry out.
#[derive(Debug, Clone, Copy, PartialEq, Eq, Structural)]
pub enum RunStep {
    Initialize { allow_missing_builtins: bool },
    /// Take over the sizes of the segments that a previous run recorded.
    FinalizeSegmentsByPie,
    /// Give the builtins the data that a previous run recorded for them.
    LoadAdditionalData { secure_run: bool },
    /// Load the memory that a previous run recorded.
    LoadPieMemory,
    /// Run until the program's end.
    RunUntilPc,
    /// Run until this many steps are taken; a program that ends earlier
    /// has run well.
    RunUntilSteps(usize),
    RunForSteps(usize),
    EndRun { disable_trace_padding: bool },
    VerifyAutoDeductions,
    ReadReturnValues { allow_missing_builtins: bool },
    FinalizeSegments,
    VerifySecureRunner,
    /// Check that what this run recorded agrees with the previous run.
    CheckPieCompatibility,
    Relocate { relocate_mem: bool },
}

impl<'a> CairoRunConfig<'a> {
    /// Whether the run is verified to be secure: as configured, and by
    /// default unless a proof is being prepared.
    pub open spec fn secure_run_spec(&self) -> bool {
        match self.secure_run {
            Some(secure) => secure,
            None => !self.proof_mode,
        }
    }

    /// Whether builtins that the layout lacks are tolerated: as configured,
    /// and by default when a proof is being prepared.
    pub open spec fn allow_missing_builtins_spec(&self) -> bool {
        match self.allow_missing_builtins {
            Some(allow) => allow,
            None => self.proof_mode,
        }
    }

    pub fn is_secure_run(&self) -> (r: bool)
        ensures
            r == self.secure_run_spec(),
    {
        match self.secure_run {
            Some(secure) => secure,
            None => !self.proof_mode,
        }
    }

    pub fn allows_missing_builtins(&self) -> (r: bool)
        ensures
            r == self.allow_missing_builtins_spec(),
    {
        match self.allow_missing_builtins {
            Some(allow) => allow,
            None => self.proof_mode,
        }
    }
}

/// The stages between the run itself and the relocation.
pub open spec fn closing_steps_spec(
    allow_missing_builtins: bool,
    finalize_segments: bool,
    secure_run: bool,
    compare_with_pie: bool,
    relocate_mem: bool,
) -> Seq<RunStep> {
    seq![RunStep::VerifyAutoDeductions, RunStep::ReadReturnValues { allow_missing_builtins }]
        + (if finalize_segments {
        seq![RunStep::FinalizeSegments]
    } else {
        Seq::empty()
    }) + (if secure_run {
        seq![RunStep::VerifySecureRunner]
    } else {
        Seq::empty()
    }) + (if secure_run && compare_with_pie {
        seq![RunStep::CheckPieCompatibility]
    } else {
        Seq::empty()
    }) + seq![RunStep::Relocate { relocate_mem }]
}

/// The stages of running a program to its end.
pub open spec fn run_steps_spec(config: &CairoRunConfig) -> Seq<RunStep> {
    seq![
        RunStep::Initialize { allow_missing_builtins: config.allow_missing_builtins_spec() },
        RunStep::RunUntilPc,
    ] + (if config.proof_mode {
        seq![RunStep::RunForSteps(1)]
    } else {
        Seq::empty()
    }) + seq![RunStep::EndRun { disable_trace_padding: config.disable_trace_padding }]
        + closing_steps_spec(
        config.allow_missing_builtins_spec(),
        config.proof_mode,
        config.secure_run_spec(),
        false,
        config.relocate_mem,
    )
}

/// The stages of running a program for a number of steps.
pub open spec fn fuzzed_run_steps_spec(config: &CairoRunConfig, steps_limit: usize) -> Seq<RunStep> {
    seq![
        RunStep::Initialize { allow_missing_builtins: config.allow_missing_builtins_spec() },
        RunStep::RunUntilSteps(steps_limit),
        RunStep::EndRun { disable_trace_padding: false },
    ] + closing_steps_spec(
        config.allow_missing_builtins_spec(),
        config.proof_mode,
        config.secure_run_spec(),
        false,
        config.relocate_mem,
    )
}

/// The stages of running again what a previous run recorded. Such a run
/// is secure unless configured otherwise, cannot prepare a proof, and must
/// be given as many steps as the previous run took.
pub open spec fn pie_run_steps_spec(
    config: &CairoRunConfig,
    n_steps: Option<usize>,
    pie_n_steps: usize,
) -> Result<Seq<RunStep>, RunnerError> {
    if config.proof_mode {
        Err(RunnerError::CairoPieProofMode)
    } else if n_steps != Some(pie_n_steps) {
        Err(RunnerError::PieNStepsVsRunResourcesNStepsMismatch)
    } else {
        let secure_run = config.secure_run.unwrap_or(true);
        let allow_missing_builtins = config.allow_missing_builtins.unwrap_or(false);
        Ok(
            seq![
                RunStep::Initialize { allow_missing_builtins },
                RunStep::FinalizeSegmentsByPie,
                RunStep::LoadAdditionalData { secure_run },
                RunStep::LoadPieMemory,
                RunStep::RunUntilPc,
                RunStep::EndRun { disable_trace_padding: config.disable_trace_padding },
            ] + closing_steps_spec(
                allow_missing_builtins,
                false,
                secure_run,
                true,
                config.relocate_mem,
            ),
        )
    }
}

/// Appends the stages between the run itself and the relocation.
fn push_closing_steps(
    steps: &mut Vec<RunStep>,
    allow_missing_builtins: bool,
    finalize_segments: bool,
    secure_run: bool,
    compare_with_pie: bool,
    relocate_mem: bool,
)
    ensures
        final(steps)@ == old(steps)@ + closing_steps_spec(
            allow_missing_builtins,
            finalize_segments,
            secure_run,
            compare_with_pie,
            relocate_mem,
        ),
{
    steps.push(RunStep::VerifyAutoDeductions);
    steps.push(RunStep::ReadReturnValues { allow_missing_builtins });
    if finalize_segments {
        steps.push(RunStep::FinalizeSegments);
    }
    if secure_run {
        steps.push(RunStep::VerifySecureRunner);
        if compare_with_pie {
            steps.push(RunStep::CheckPieCompatibility);
        }
    }
    steps.push(RunStep::Relocate { relocate_mem });
    assert(steps@ =~= old(steps)@ + closing_steps_spec(
        allow_missing_builtins,
        finalize_segments,
        secure_run,
        compare_with_pie,
        relocate_mem,
    ));
}

/// The stages of running a program to its end, in order.
pub fn run_steps(config: &CairoRunConfig) -> (r: Vec<RunStep>)
    ensures
        r@ == run_steps_spec(config),
{
    let secure_run = config.is_secure_run();
    let allow_missing_builtins = config.allows_missing_builtins();
    let mut steps: Vec<RunStep> = Vec::new();
    steps.push(RunStep::Initialize { allow_missing_builtins });
    steps.push(RunStep::RunUntilPc);
    if config.proof_mode {
        steps.push(RunStep::RunForSteps(1));
    }
    steps.push(RunStep::EndRun { disable_trace_padding: config.disable_trace_padding });
    push_closing_steps(
        &mut steps,
        allow_missing_builtins,
        config.proof_mode,
        secure_run,
        false,
        config.relocate_mem,
    );
    assert(steps@ =~= run_steps_spec(config));
    steps
}

/// The stages of running a program for `steps_limit` steps, in order.
pub fn fuzzed_run_steps(config: &CairoRunConfig, steps_limit: usize) -> (r: Vec<RunStep>)
    ensures
        r@ == fuzzed_run_steps_spec(config, steps_limit),
{
    let secure_run = config.is_secure_run();
    let allow_missing_builtins = config.allows_missing_builtins();
    let mut steps: Vec<RunStep> = Vec::new();
    steps.push(RunStep::Initialize { allow_missing_builtins });
    steps.push(RunStep::RunUntilSteps(steps_limit));
    steps.push(RunStep::EndRun { disable_trace_padding: false });
    push_closing_steps(
        &mut steps,
        allow_missing_builtins,
        config.proof_mode,
        secure_run,
        false,
        config.relocate_mem,
    );
    assert(steps@ =~= fuzzed_run_steps_spec(config, steps_limit));
    steps
}

/// The stages of running again what a previous run recorded, in order.
/// `n_steps` is the number of steps that the hint processor grants, and
/// `pie_n_steps` the number that the previous run took.
pub fn pie_run_steps(config: &CairoRunConfig, n_steps: Option<usize>, pie_n_steps: usize) -> (r:
    Result<Vec<RunStep>, RunnerError>)
    ensures
        match pie_run_steps_spec(config, n_steps, pie_n_steps) {
            Ok(steps) => r matches Ok(v) && v@ == steps,
            Err(e) => r == Err::<Vec<RunStep>, RunnerError>(e),
        },
{
    if config.proof_mode {
        return Err(RunnerError::CairoPieProofMode);
    }
    let granted = match n_steps {
        Some(steps) => steps == pie_n_steps,
        None => false,
    };
    if !granted {
        return Err(RunnerError::PieNStepsVsRunResourcesNStepsMismatch);
    }
    let secure_run = match config.secure_run {
        Some(secure) => secure,
        None => true,
    };
    let allow_missing_builtins = match config.allow_missing_builtins {
        Some(allow) => allow,
        None => false,
    };
    let mut steps: Vec<RunStep> = Vec::new();
    steps.push(RunStep::Initialize { allow_missing_builtins });
    steps.push(RunStep::FinalizeSegmentsByPie);
    steps.push(RunStep::LoadAdditionalData { secure_run });
    steps.push(RunStep::LoadPieMemory);
    steps.push(RunStep::RunUntilPc);
    steps.push(RunStep::EndRun { disable_trace_padding: config.disable_trace_padding });
    push_closing_steps(
        &mut steps,
        allow_missing_builtins,
        false,
        secure_run,
        true,
        config.relocate_mem,
    );
    assert(steps@ =~= pie_run_steps_spec(config, n_steps, pie_n_steps)->Ok_0);
    Ok(steps)
}

/// Whether a builtin is given the data that a previous run recorded for
/// it: the data of the hash builtin is not trusted in a secure run.
pub fn loads_additional_data(name: BuiltinName, secure_run: bool) -> (r: bool)
    ensures
        r == !(name == BuiltinName::pedersen && secure_run),
{
    !(matches!(name, BuiltinName::pedersen) && secure_run)
}

/// One entry of the relocated trace: the registers before a step.
#[derive(Debug, Clone, Copy, PartialEq, Eq, Structural)]
pub struct RelocatedTraceEntry {
    pub pc: usize,
    pub ap: usize,
    pub fp: usize,
}

/// The binary form of a trace entry: `ap`, `fp` and `pc`, each as eight
/// bytes, least significant first.
pub open spec fn trace_entry_bytes(entry: RelocatedTraceEntry) -> Seq<u8> {
    spec_u64_to_le_bytes(entry.ap as u64) + spec_u64_to_le_bytes(entry.fp as u64)
        + spec_u64_to_le_bytes(entry.pc as u64)
}

/// The binary form of the first `count` entries of a trace.
pub open spec fn trace_bytes(trace: Seq<RelocatedTraceEntry>, count: nat) -> Seq<u8>
    decreases count,
{
    if count == 0 {
        Seq::empty()
    } else {
        trace_bytes(trace, (count - 1) as nat) + trace_entry_bytes(trace[count - 1])
    }
}

/// The binary form of a memory cell: its address as eight bytes and its
/// value as 32 bytes, least significant first.
pub open spec fn memory_cell_bytes(address: usize, value: int) -> Seq<u8> {
    spec_u64_to_le_bytes(address as u64) + Seq::new(32, |i: int| le_byte(value, i as nat) as u8)
}

/// The binary form of the first `count` cells of a relocated memory; cells
/// that hold nothing are left out.
pub open spec fn memory_bytes(memory: Seq<Option<Felt>>, count: nat) -> Seq<u8>
    decreases count,
{
    if count == 0 {
        Seq::empty()
    } else {
        memory_bytes(memory, (count - 1) as nat) + match memory[count - 1] {
            Some(value) => memory_cell_bytes((count - 1) as usize, value@),
            None => Seq::empty(),
        }
    }
}

/// Appends `bytes` to `out`.
fn append_bytes(out: &mut Vec<u8>, bytes: &Vec<u8>)
    ensures
        final(out)@ == old(out)@ + bytes@,
{
    let mut i: usize = 0;
    while i < bytes.len()
        invariant
            i <= bytes@.len(),
            out@ == old(out)@ + bytes@.subrange(0, i as int),
        decreases bytes@.len() - i,
    {
        out.push(bytes[i]);
        assert(out@ =~= old(out)@ + bytes@.subrange(0, i + 1));
        i = i + 1;
    }
    assert(bytes@.subrange(0, bytes@.len() as int) =~= bytes@);
}

/// The binary form of a trace entry.
pub fn encode_trace_entry(entry: &RelocatedTraceEntry) -> (r: Vec<u8>)
    ensures
        r@ == trace_entry_bytes(*entry),
        r@.len() == 24,
{
    let mut out = u64_to_le_bytes(entry.ap as u64);
    append_bytes(&mut out, &u64_to_le_bytes(entry.fp as u64));
    append_bytes(&mut out, &u64_to_le_bytes(entry.pc as u64));
    out
}

/// The binary form of a trace: its entries one after the other.
pub fn encode_trace(relocated_trace: &[RelocatedTraceEntry]) -> (r: Vec<u8>)
    ensures
        r@ == trace_bytes(relocated_trace@, relocated_trace@.len()),
{
    let mut out: Vec<u8> = Vec::new();
    let mut i: usize = 0;
    while i < relocated_trace.len()
        invariant
            i <= relocated_trace@.len(),
            out@ == trace_bytes(relocated_trace@, i as nat),
        decreases relocated_trace@.len() - i,
    {
        let entry = encode_trace_entry(&relocated_trace[i]);
        append_bytes(&mut out, &entry);
        i = i + 1;
    }
    out
}

/// The binary form of a memory cell.
pub fn encode_memory_cell(address: usize, value: &Felt) -> (r: Vec<u8>)
    ensures
        r@ == memory_cell_bytes(address, value@),
        r@.len() == 40,
{
    let mut out = u64_to_le_bytes(address as u64);
    let bytes = value.to_bytes_le();
    assert(bytes@ =~= Seq::new(32, |i: int| le_byte(value@, i as nat) as u8));
    append_bytes(&mut out, &bytes);
    out
}

/// The binary form of a relocated memory: its written cells one after the
/// other.
pub fn encode_memory(relocated_memory: &[Option<Felt>]) -> (r: Vec<u8>)
    ensures
        r@ == memory_bytes(relocated_memory@, relocated_memory@.len()),
{
    let mut out: Vec<u8> = Vec::new();
    let mut i: usize = 0;
    while i < relocated_memory.len()
        invariant
            i <= relocated_memory@.len(),
            out@ == memory_bytes(relocated_memory@, i as nat),
        decreases relocated_memory@.len() - i,
    {
        match &relocated_memory[i] {
            None => {
                assert(out@ + Seq::<u8>::empty() =~= out@);
            },
            Some(value) => {
                let cell = encode_memory_cell(i, value);
                append_bytes(&mut out, &cell);
            },
        }
        i = i + 1;
    }
    out
}

} // verus!
