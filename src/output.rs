//! The compiler response document, and the check that turns a response into
//! per-contract artifact records or a failure.

use vstd::prelude::*;

use crate::error::Error;
use crate::text::str_eq;

verus! {

/// `primitive_types::U256`, carried through unchanged as a gas value or a
/// storage quantity.
#[verifier::external_type_specification]
#[verifier::external_body]
pub struct ExU256(primitive_types::U256);

#[derive(Debug, Clone, PartialEq)]
pub struct SourceLocation {
    pub file: String,
    pub start: u32,
    pub end: u32,
}

#[derive(Debug, Clone, PartialEq)]
pub struct SecondarySourceLocations {
    pub location: SourceLocation,
    pub message: String,
}

#[derive(Debug, Clone, Copy, PartialEq, Eq, Structural)]
pub enum ErrorType {
    JSONError,
    IOError,
    ParserError,
    DocstringParsingError,
    SyntaxError,
    DeclarationError,
    TypeError,
    UnimplementedFeatureError,
    InternalCompilerError,
    Exception,
    CompilerError,
    FatalError,
    YulException,
    Warning,
    Info,
}

#[derive(Debug, Clone, Copy, PartialEq, Eq, Structural)]
pub enum Severity {
    Error,
    Warning,
    Info,
}

/// One diagnostic of a response.
#[derive(Debug, Clone, PartialEq)]
pub struct OutputError {
    pub source_location: Option<SourceLocation>,
    pub secondary_source_locations: Vec<SecondarySourceLocations>,
    pub ty: ErrorType,
    pub component: String,
    pub severity: Severity,
    pub error_code: Option<String>,
    pub message: String,
    pub formatted_message: String,
}

#[derive(Debug, Clone, PartialEq)]
pub struct Source {
    pub id: u32,
    pub ast: Vec<(String, String)>,
}

/// One entry of a contract's ABI.
#[derive(Debug, Clone, PartialEq)]
pub enum ABIInfo {
    Event { name: String, inputs: Vec<Value>, anonymous: bool },
    Error { name: String, inputs: Vec<Value> },
    Function {
        name: String,
        inputs: Vec<Value>,
        outputs: Vec<Value>,
        state_mutability: StateMutability,
    },
    Constructor { inputs: Vec<Value>, state_mutability: StateMutability },
    Receive { state_mutability: StateMutability },
    Fallback { state_mutability: StateMutability },
}

#[derive(Debug, Clone, PartialEq)]
pub struct Component {
    pub name: String,
    pub ty: String,
}

/// A parameter of an ABI entry.
#[derive(Debug, Clone, PartialEq)]
pub struct Value {
    pub name: String,
    pub ty: String,
    pub components: Vec<Component>,
    pub anonymous: bool,
    pub indexed: bool,
}

#[derive(Debug, Clone, Copy, PartialEq, Eq, Structural)]
pub enum StateMutability {
    Pure,
    View,
    Nonpayable,
    Payable,
}

impl Default for StateMutability {
    fn default() -> (r: StateMutability)
        ensures
            r == StateMutability::Nonpayable,
    {
        StateMutability::Nonpayable
    }
}

#[derive(Debug)]
pub struct Storage {
    pub ast_id: u64,
    pub contract: String,
    pub label: String,
    pub offset: u64,
    pub slot: primitive_types::U256,
    pub ty: String,
}

#[derive(Debug)]
pub enum StorageType {
    Inplace { label: String, number_of_bytes: primitive_types::U256, members: Vec<Storage> },
    Mapping {
        label: String,
        number_of_bytes: primitive_types::U256,
        key: String,
        value: String,
    },
    DynamicArray { label: String, number_of_bytes: primitive_types::U256, base: String },
    Bytes { label: String, number_of_bytes: primitive_types::U256 },
}

#[derive(Debug)]
pub struct StorageLayout {
    pub storage: Vec<Storage>,
    pub types: Vec<(String, StorageType)>,
}

#[derive(Debug, Clone, Copy, PartialEq, Eq, Structural)]
pub struct GeneratedSources {}

#[derive(Debug, Clone, Copy, PartialEq, Eq, Structural)]
pub struct LinkReferencePos {
    pub start: u64,
    pub length: u64,
}

#[derive(Debug, Clone, PartialEq)]
pub struct Bytecode {
    pub object: Vec<u8>,
    pub opcodes: String,
    pub source_map: String,
    pub generated_sources: Vec<GeneratedSources>,
    pub link_references: Vec<(String, Vec<(String, Vec<LinkReferencePos>)>)>,
}

#[derive(Debug, Clone, PartialEq)]
pub struct DeployedBytecode {
    pub immutable_references: Vec<(String, Vec<LinkReferencePos>)>,
}

/// A 4-byte function selector.
#[derive(Debug, Clone, Copy, PartialEq, Eq)]
pub struct Selector {
    pub value: [u8; 4],
}

/// A gas estimate: a number, or the compiler's marker for an unbounded cost.
#[derive(Debug)]
pub enum GasUsed {
    Value(primitive_types::U256),
    Infinite(String),
}

#[derive(Debug)]
pub struct GasEstimatesCreation {
    pub code_deposit_cost: GasUsed,
    pub execution_cost: GasUsed,
    pub total_cost: GasUsed,
}

#[derive(Debug)]
pub struct GasEstimates {
    pub creation: GasEstimatesCreation,
    pub external: Vec<(String, GasUsed)>,
    pub internal: Vec<(String, GasUsed)>,
}

#[derive(Debug, Clone, PartialEq)]
pub struct EWasm {
    pub wast: String,
    pub wasm: String,
}

/// The EVM block of a contract. A part that the request did not select is
/// `None`.
#[derive(Debug)]
pub struct Evm {
    pub assembly: Option<String>,
    pub bytecode: Option<Bytecode>,
    pub deployed_bytecode: Option<DeployedBytecode>,
    pub method_identifiers: Option<Vec<(String, Selector)>>,
    pub gas_estimates: Option<GasEstimates>,
}

/// What a response holds for one contract. A part that the request did not
/// select is `None`.
#[derive(Debug)]
pub struct Contract {
    pub abi: Option<Vec<ABIInfo>>,
    pub metadata: Option<String>,
    pub ir: Option<String>,
    pub storage_layout: Option<StorageLayout>,
    pub evm: Option<Evm>,
    pub ewasm: Option<EWasm>,
}

/// A response document: diagnostics, and per source file the contracts.
#[derive(Debug)]
pub struct CompilerOutput {
    pub errors: Vec<OutputError>,
    pub sources: Vec<(String, Source)>,
    pub contracts: Vec<(String, Vec<(String, Contract)>)>,
}

/// The artifacts kept of one compiled contract.
#[derive(Debug)]
pub struct Artifacts {
    pub name: String,
    pub abi: Vec<ABIInfo>,
    pub bytecode: Vec<u8>,
    pub opcodes: String,
    pub source_map: String,
    pub gas_estimates: GasEstimates,
}

/// What `str::trim` gives for a string.
pub uninterp spec fn trimmed(s: Seq<char>) -> Seq<char>;

/// Relies on `str::trim`: the string without leading and trailing
/// whitespace, a function of the characters alone.
#[verifier::external_body]
fn trim(s: &String) -> (r: String)
    ensures
        r@ == trimmed(s@),
{
    s.trim().to_string()
}

/// Some diagnostic has severity `error`.
pub open spec fn has_error(errors: Seq<OutputError>) -> bool {
    exists|i: int| 0 <= i < errors.len() && errors[i].severity == Severity::Error
}

/// The value of the first entry of `s` with key `k`.
pub open spec fn lookup<V>(s: Seq<(String, V)>, k: Seq<char>) -> Option<V>
    decreases s.len(),
{
    if s.len() == 0 {
        None
    } else if s[0].0@ == k {
        Some(s[0].1)
    } else {
        lookup(s.drop_first(), k)
    }
}

/// The contracts a response holds for `file`; none when it has no entry.
pub open spec fn contracts_of(output: CompilerOutput, file: Seq<char>) -> Seq<(String, Contract)> {
    match lookup(output.contracts@, file) {
        Some(v) => v@,
        None => Seq::empty(),
    }
}

/// A contract carries every part that artifacts are made of.
pub open spec fn complete(c: Contract) -> bool {
    &&& c.abi is Some
    &&& c.evm is Some
    &&& c.evm->Some_0.bytecode is Some
    &&& c.evm->Some_0.gas_estimates is Some
}

/// `a` holds the artifacts of the contract `c` named `name`: its ABI,
/// bytecode object and gas estimates, and its opcodes and source map trimmed.
pub open spec fn artifacts_of(a: Artifacts, name: Seq<char>, c: Contract) -> bool {
    let evm = c.evm->Some_0;
    let b = evm.bytecode->Some_0;
    &&& complete(c)
    &&& a.name@ == name
    &&& a.abi == c.abi->Some_0
    &&& a.bytecode@ == b.object@
    &&& a.opcodes@ == trimmed(b.opcodes@)
    &&& a.source_map@ == trimmed(b.source_map@)
    &&& a.gas_estimates == evm.gas_estimates->Some_0
}

/// Whether some diagnostic has severity `error`.
pub fn any_error(errors: &Vec<OutputError>) -> (r: bool)
    ensures
        r == has_error(errors@),
{
    let mut i: usize = 0;
    while i < errors.len()
        invariant
            i <= errors@.len(),
            forall|k: int| 0 <= k < i ==> errors@[k].severity != Severity::Error,
        decreases errors@.len() - i,
    {
        if errors[i].severity == Severity::Error {
            return true;
        }
        i = i + 1;
    }
    false
}

/// The artifacts of the contract `contract` named `name`, or `ParseError`
/// when a part that the request selected is missing.
pub fn artifacts_from(name: String, contract: Contract) -> (r: Result<Artifacts, Error>)
    ensures
        r is Ok <==> complete(contract),
        r is Ok ==> artifacts_of(r->Ok_0, name@, contract),
        r is Err ==> r == Err::<Artifacts, Error>(Error::ParseError),
{
    let ghost c = contract;
    let abi = match contract.abi {
        Some(a) => a,
        None => {
            return Err(Error::ParseError);
        },
    };
    let evm = match contract.evm {
        Some(e) => e,
        None => {
            return Err(Error::ParseError);
        },
    };
    let bytecode = match evm.bytecode {
        Some(b) => b,
        None => {
            return Err(Error::ParseError);
        },
    };
    let gas_estimates = match evm.gas_estimates {
        Some(g) => g,
        None => {
            return Err(Error::ParseError);
        },
    };
    let opcodes = trim(&bytecode.opcodes);
    let source_map = trim(&bytecode.source_map);
    Ok(Artifacts { name, abi, bytecode: bytecode.object, opcodes, source_map, gas_estimates })
}

/// Checks a response to the request for the source named `filename`.
///
/// A response with an error-severity diagnostic fails with all of its
/// diagnostics, and yields no artifacts. Otherwise each contract the
/// response holds for `filename` gives one artifact record, in order; a
/// file without an entry gives none.
pub fn parse_output(output: CompilerOutput, filename: &str) -> (r: Result<Vec<Artifacts>, Error>)
    ensures
        has_error(output.errors@) ==> r == Err::<Vec<Artifacts>, Error>(
            Error::CompileDiagnosticError(output.errors),
        ),
        !has_error(output.errors@) ==> {
            let cs = contracts_of(output, filename@);
            &&& r is Ok <==> forall|i: int| 0 <= i < cs.len() ==> complete(#[trigger] cs[i].1)
            &&& r is Err ==> r == Err::<Vec<Artifacts>, Error>(Error::ParseError)
            &&& r is Ok ==> {
                let a = r->Ok_0@;
                &&& a.len() == cs.len()
                &&& forall|i: int| 0 <= i < a.len() ==> artifacts_of(#[trigger] a[i], cs[i].0@, cs[i].1)
            }
        },
{
    let ghost out = output;
    if any_error(&output.errors) {
        return Err(Error::CompileDiagnosticError(output.errors));
    }
    let mut files = output.contracts;
    let n = files.len();
    let mut i: usize = 0;
    assert(out.contracts@.subrange(0, n as int) =~= out.contracts@);
    while i < n
        invariant
            out == output,
            !has_error(out.errors@),
            files@ == out.contracts@,
            n == files@.len(),
            i <= n,
            lookup(out.contracts@, filename@) == lookup(out.contracts@.subrange(i as int, n as int), filename@),
        ensures
            i <= n,
            i < n ==> files@[i as int].0@ == filename@,
        decreases n - i,
    {
        assert(out.contracts@.subrange(i as int, n as int).drop_first() =~= out.contracts@.subrange(i + 1, n as int));
        if str_eq(&files[i].0, filename) {
            break;
        }
        i = i + 1;
    }
    if i == n {
        assert(out.contracts@.subrange(n as int, n as int) =~= Seq::<(String, Vec<(String, Contract)>)>::empty());
        return Ok(Vec::new());
    }
    assert(out.contracts@.subrange(i as int, n as int)[0] == files@[i as int]);
    assert(files@[i as int].0@ == filename@);
    assert(lookup(out.contracts@, filename@) == Some(files@[i as int].1));
    let (_, mut contracts) = files.remove(i);
    let ghost cs = contracts@;
    assert(cs == contracts_of(out, filename@));
    let m = contracts.len();
    assert(cs.subrange(0, m as int) =~= cs);
    let mut result: Vec<Artifacts> = Vec::new();
    let mut j: usize = 0;
    while j < m
        invariant
            out == output,
            !has_error(out.errors@),
            cs == contracts_of(out, filename@),
            m == cs.len(),
            j <= m,
            contracts@ == cs.subrange(j as int, m as int),
            result@.len() == j,
            forall|k: int| 0 <= k < j ==> complete(#[trigger] cs[k].1),
            forall|k: int| 0 <= k < j ==> artifacts_of(#[trigger] result@[k], cs[k].0@, cs[k].1),
        decreases m - j,
    {
        let (name, contract) = contracts.remove(0);
        assert(cs[j as int] == (name, contract));
        match artifacts_from(name, contract) {
            Ok(a) => result.push(a),
            Err(e) => {
                return Err(e);
            },
        }
        assert(contracts@ =~= cs.subrange(j + 1, m as int));
        j = j + 1;
    }
    Ok(result)
}

} // verus!
