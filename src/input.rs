//! The compiler request document and its construction from a project
//! configuration.

use vstd::prelude::*;
use vstd::string::*;

use crate::error::Error;
use crate::paths::{file_name, file_name_of};
use crate::profile::ProfileType;
use crate::snapper_file::{self, EvmVersion, SnapperFile};

verus! {

#[derive(Debug, Clone, Copy, PartialEq, Eq, Structural)]
pub enum InputLanguage {
    Solidity,
    Yul,
}

impl Default for InputLanguage {
    fn default() -> (r: InputLanguage)
        ensures
            r == InputLanguage::Solidity,
    {
        InputLanguage::Solidity
    }
}

/// Where the compiler finds one source: an optional content hash and a list
/// of locators.
#[derive(Debug, Clone)]
pub struct SourceFile {
    pub keccak256: Option<String>,
    pub urls: Vec<String>,
}

#[derive(Debug, Clone, Copy, PartialEq, Eq, Structural)]
pub enum StopAfter {
    Parsing,
}

#[derive(Debug, Clone)]
pub struct YulDetails {
    pub stack_allocation: bool,
    pub optimizer_steps: Option<String>,
}

#[derive(Debug, Clone)]
pub struct OptimizerDetails {
    pub peephole: bool,
    pub inliner: bool,
    pub jumpdest_remover: bool,
    pub order_literals: bool,
    pub deduplicate: bool,
    pub cse: bool,
    pub constant_optimizer: bool,
    pub yul: bool,
    pub yul_details: YulDetails,
}

/// The optimizer block of a request.
#[derive(Debug, Clone)]
pub struct Optimizer {
    pub enabled: bool,
    pub runs: u32,
    pub details: OptimizerDetails,
}

#[derive(Debug, Clone, Copy, PartialEq, Eq, Structural)]
pub enum RevertStrings {
    Default,
    Strip,
    Debug,
    VerboseDebug,
}

#[derive(Debug, Clone, Copy, PartialEq, Eq, Structural)]
pub enum DebugInfo {
    Location,
    Snippet,
    All,
}

#[derive(Debug, Clone)]
pub struct SettingsDebug {
    pub revert_strings: RevertStrings,
    pub debug_info: Vec<DebugInfo>,
}

#[derive(Debug, Clone, Copy, PartialEq, Eq, Structural)]
pub enum BytecodeHash {
    /// No hash appended (`none` on the wire).
    Omitted,
    Ipfs,
    Bzzr1,
}

#[derive(Debug, Clone, Copy, PartialEq, Eq, Structural)]
pub struct Metadata {
    pub append_cbor: bool,
    pub use_literal_content: bool,
    pub bytecode_hash: BytecodeHash,
}

#[derive(Debug, Clone, Copy, PartialEq, Eq, Structural)]
pub enum Engine {
    All,
    Bmc,
    Chc,
    /// No engine runs (`none` on the wire).
    Disabled,
}

#[derive(Debug, Clone, Copy, PartialEq, Eq, Structural)]
pub enum ExtCalls {
    Trusted,
}

#[derive(Debug, Clone, Copy, PartialEq, Eq, Structural)]
pub enum Invariant {
    Contract,
    Reentrancy,
}

#[derive(Debug, Clone, Copy, PartialEq, Eq, Structural)]
pub enum Solver {
    Cvc4,
    Smtlib2,
    Z3,
}

#[derive(Debug, Clone, Copy, PartialEq, Eq, Structural)]
pub enum Target {
    ConstantCondition,
    Underflow,
    Overflow,
    DivByZero,
    Balance,
    Assert,
    PopEmptyArray,
    OutOfBounds,
}

/// The static-analysis block of a request.
#[derive(Debug, Clone)]
pub struct ModelChecker {
    pub contracts: Vec<(String, Vec<String>)>,
    pub div_mod_no_slacks: bool,
    pub engine: Engine,
    pub ext_calls: ExtCalls,
    pub invariants: Vec<Invariant>,
    pub show_proved: bool,
    pub show_unproved: bool,
    pub show_unsupported: bool,
    pub solvers: Vec<Solver>,
    pub targets: Vec<Target>,
    pub timeout: u32,
}

/// One artifact kind that a request asks the compiler to produce.
#[derive(Debug, Clone, Copy, PartialEq, Eq, Structural)]
pub enum OutputSelection {
    Ast,
    Abi,
    DevDoc,
    UserDoc,
    Metadata,
    IR,
    IROptimzed,
    StorageLayout,
    EvmAssembly,
    EvmLeacyAssembly,
    EvmBytecode,
    EvmBytecodeFunctionDebugData,
    EvmBytecodeObject,
    EvmBytecodeOpcodes,
    EvmBytecodeSourceMap,
    EvmBytecodeLinkReferences,
    EvmBytecodeGeneratedSources,
    EvmDeployedBytecode,
    EvmDeployedBytecodeImmutableReferences,
    EvmMethodIdentifiers,
    EvmGasEstimates,
    EWasmWast,
    EWasmWasm,
}

/// The settings block of a request. The maps of the wire form are lists of
/// pairs here, keyed uniquely.
#[derive(Debug, Clone)]
pub struct Settings {
    pub stop_after: Option<StopAfter>,
    pub remappings: Vec<String>,
    pub optimizer: Optimizer,
    pub evm_version: EvmVersion,
    pub via_ir: bool,
    pub debug: SettingsDebug,
    pub metadata: Option<Metadata>,
    pub libraries: Vec<(String, Vec<(String, String)>)>,
    pub output_selection: Vec<(String, Vec<(String, Vec<OutputSelection>)>)>,
    pub model_checker: Option<ModelChecker>,
}

/// A compilation request document.
#[derive(Debug, Clone)]
pub struct CompilerInput {
    pub language: InputLanguage,
    pub sources: Vec<(String, SourceFile)>,
    pub settings: Settings,
}

/// The optimizer block that a profile's optimizer settings map to: each
/// pass toggle goes to its own flag; the peephole pass stays on and literal
/// reordering off.
pub open spec fn request_optimizer(o: snapper_file::Optimizer) -> Optimizer {
    Optimizer {
        enabled: o.enable,
        runs: o.runs,
        details: OptimizerDetails {
            peephole: true,
            inliner: o.inliner,
            jumpdest_remover: o.remove_jumpdest,
            order_literals: false,
            deduplicate: o.deduplicate,
            cse: o.cse,
            constant_optimizer: o.constant,
            yul: o.yul,
            yul_details: YulDetails { stack_allocation: o.yul_stack, optimizer_steps: None },
        },
    }
}

/// The profile settings that a request's optimizer block carries.
pub open spec fn settings_of_request(r: Optimizer) -> snapper_file::Optimizer {
    snapper_file::Optimizer {
        enable: r.enabled,
        runs: r.runs,
        yul: r.details.yul,
        yul_stack: r.details.yul_details.stack_allocation,
        inliner: r.details.inliner,
        deduplicate: r.details.deduplicate,
        constant: r.details.constant_optimizer,
        remove_jumpdest: r.details.jumpdest_remover,
        cse: r.details.cse,
    }
}

/// Carrying optimizer settings into a request loses nothing.
pub proof fn lemma_optimizer_round_trip(o: snapper_file::Optimizer)
    ensures
        request_optimizer(o).enabled == o.enable,
        request_optimizer(o).runs == o.runs,
        settings_of_request(request_optimizer(o)) == o,
{
}

/// Revert strings are kept in full for debug profiles.
pub open spec fn revert_strings_for(debug: bool) -> RevertStrings {
    if debug {
        RevertStrings::Debug
    } else {
        RevertStrings::Default
    }
}

/// The artifact kinds requested for every contract: enough for the ABI,
/// bytecode, opcodes, source map, method identifiers and gas estimates.
pub open spec fn requested_outputs() -> Seq<OutputSelection> {
    seq![
        OutputSelection::Abi,
        OutputSelection::EvmBytecode,
        OutputSelection::EvmGasEstimates,
        OutputSelection::EvmMethodIdentifiers,
        OutputSelection::EvmBytecodeSourceMap,
        OutputSelection::EvmDeployedBytecode,
    ]
}

/// Library bindings as plain values.
pub open spec fn bindings_view(lib: Seq<(String, Vec<(String, String)>)>) -> Seq<
    (Seq<char>, Seq<(Seq<char>, Seq<char>)>),
> {
    lib.map_values(
        |e: (String, Vec<(String, String)>)|
            (e.0@, e.1@.map_values(|b: (String, String)| (b.0@, b.1@))),
    )
}

/// An output-selection matrix as plain values.
pub open spec fn selection_view(sel: Seq<(String, Vec<(String, Vec<OutputSelection>)>)>) -> Seq<
    (Seq<char>, Seq<(Seq<char>, Seq<OutputSelection>)>),
> {
    sel.map_values(
        |e: (String, Vec<(String, Vec<OutputSelection>)>)|
            (e.0@, e.1@.map_values(|c: (String, Vec<OutputSelection>)| (c.0@, c.1@))),
    )
}

/// The request optimizer block for a profile's optimizer settings.
pub fn optimizer_for(o: &snapper_file::Optimizer) -> (r: Optimizer)
    ensures
        r == request_optimizer(*o),
{
    Optimizer {
        enabled: o.enable,
        runs: o.runs,
        details: OptimizerDetails {
            peephole: true,
            inliner: o.inliner,
            jumpdest_remover: o.remove_jumpdest,
            order_literals: false,
            deduplicate: o.deduplicate,
            cse: o.cse,
            constant_optimizer: o.constant,
            yul: o.yul,
            yul_details: YulDetails { stack_allocation: o.yul_stack, optimizer_steps: None },
        },
    }
}

fn copy_pairs(v: &Vec<(String, String)>) -> (r: Vec<(String, String)>)
    ensures
        r@.map_values(|b: (String, String)| (b.0@, b.1@)) == v@.map_values(
            |b: (String, String)| (b.0@, b.1@),
        ),
{
    let mut r: Vec<(String, String)> = Vec::new();
    let mut i: usize = 0;
    while i < v.len()
        invariant
            i <= v@.len(),
            r@.len() == i,
            forall|k: int| 0 <= k < i ==> r@[k].0@ == v@[k].0@ && r@[k].1@ == v@[k].1@,
        decreases v@.len() - i,
    {
        r.push((v[i].0.clone(), v[i].1.clone()));
        i = i + 1;
    }
    assert(r@.map_values(|b: (String, String)| (b.0@, b.1@)) =~= v@.map_values(
        |b: (String, String)| (b.0@, b.1@),
    ));
    r
}

/// A copy of library bindings.
pub fn copy_bindings(lib: &Vec<(String, Vec<(String, String)>)>) -> (r: Vec<(String, Vec<(String, String)>)>)
    ensures
        bindings_view(r@) == bindings_view(lib@),
{
    let mut r: Vec<(String, Vec<(String, String)>)> = Vec::new();
    let mut i: usize = 0;
    while i < lib.len()
        invariant
            i <= lib@.len(),
            r@.len() == i,
            forall|k: int| 0 <= k < i ==> r@[k].0@ == lib@[k].0@ && r@[k].1@.map_values(
                |b: (String, String)| (b.0@, b.1@),
            ) == lib@[k].1@.map_values(|b: (String, String)| (b.0@, b.1@)),
        decreases lib@.len() - i,
    {
        r.push((lib[i].0.clone(), copy_pairs(&lib[i].1)));
        i = i + 1;
    }
    assert(bindings_view(r@) =~= bindings_view(lib@));
    r
}

/// Builds the request that compiles the source at `file` under the profile
/// `profile_type` of `config`. The source is named by its file name and
/// located by `file`; every contract in it gets `requested_outputs()`.
pub fn build_input(config: &SnapperFile, file: &str, profile_type: &ProfileType) -> (r: Result<
    CompilerInput,
    Error,
>)
    ensures
        r is Err <==> file_name_of(file@) is None,
        r is Err ==> r == Err::<CompilerInput, Error>(Error::FailedToParseFileName),
        r is Ok ==> {
            let i = r->Ok_0;
            let name = file_name_of(file@)->Some_0;
            let profile = config.spec_profile(*profile_type);
            &&& i.language == InputLanguage::Solidity
            &&& i.sources@.len() == 1
            &&& i.sources@[0].0@ == name
            &&& i.sources@[0].1.keccak256 is None
            &&& i.sources@[0].1.urls@.len() == 1
            &&& i.sources@[0].1.urls@[0]@ == file@
            &&& i.settings.stop_after is None
            &&& i.settings.remappings@.len() == 0
            &&& i.settings.optimizer == request_optimizer(profile.optimizer)
            &&& i.settings.evm_version == config.solidity.evm_version
            &&& i.settings.via_ir == config.solidity.via_ir
            &&& i.settings.debug.revert_strings == revert_strings_for(profile.debug)
            &&& i.settings.debug.debug_info@ == seq![DebugInfo::All]
            &&& i.settings.metadata is None
            &&& bindings_view(i.settings.libraries@) == bindings_view(config.library@)
            &&& selection_view(i.settings.output_selection@) == seq![
                (name, seq![("*"@, requested_outputs())]),
            ]
            &&& i.settings.model_checker is None
        },
{
    let filename = match file_name(file) {
        Some(f) => f,
        None => {
            return Err(Error::FailedToParseFileName);
        },
    };
    let sf = SourceFile { keccak256: None, urls: vec![String::from_str(file)] };
    let mut sources: Vec<(String, SourceFile)> = Vec::new();
    sources.push((filename.clone(), sf));

    let outputs = vec![
        OutputSelection::Abi,
        OutputSelection::EvmBytecode,
        OutputSelection::EvmGasEstimates,
        OutputSelection::EvmMethodIdentifiers,
        OutputSelection::EvmBytecodeSourceMap,
        OutputSelection::EvmDeployedBytecode,
    ];
    let mut contract_output: Vec<(String, Vec<OutputSelection>)> = Vec::new();
    contract_output.push((String::from_str("*"), outputs));
    let mut output_selection: Vec<(String, Vec<(String, Vec<OutputSelection>)>)> = Vec::new();
    output_selection.push((filename, contract_output));

    let profile = config.get_solidity_profile(profile_type);
    let revert_strings = if profile.debug {
        RevertStrings::Debug
    } else {
        RevertStrings::Default
    };
    let settings = Settings {
        stop_after: None,
        remappings: Vec::new(),
        optimizer: optimizer_for(&profile.optimizer),
        evm_version: config.solidity.evm_version,
        via_ir: config.solidity.via_ir,
        debug: SettingsDebug { revert_strings, debug_info: vec![DebugInfo::All] },
        metadata: None,
        libraries: copy_bindings(&config.library),
        output_selection,
        model_checker: None,
    };
    let input = CompilerInput { language: InputLanguage::Solidity, sources, settings };
    assert(input.settings.debug.debug_info@ =~= seq![DebugInfo::All]);
    assert(input.settings.output_selection@[0].1@[0].1@ =~= requested_outputs());
    assert(input.settings.output_selection@[0].1@.map_values(
        |c: (String, Vec<OutputSelection>)| (c.0@, c.1@),
    ) =~= seq![("*"@, requested_outputs())]);
    assert(selection_view(input.settings.output_selection@) =~= seq![
        (file_name_of(file@)->Some_0, seq![("*"@, requested_outputs())]),
    ]);
    Ok(input)
}

} // verus!
