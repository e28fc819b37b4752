//! Where the artifacts of a compiled contract are written.

use vstd::prelude::*;
use vstd::string::*;

use crate::error::Error;
use crate::output::{artifacts_of, complete, contracts_of, has_error, parse_output, Artifacts, CompilerOutput};
use crate::paths::{join_path, joined};

verus! {

/// The files of one contract's artifacts.
#[derive(Debug, Clone)]
pub struct ArtifactPaths {
    /// The directory of the source file's artifacts.
    pub dir: String,
    pub abi: String,
    pub bytecode: String,
    pub opcodes: String,
    pub source_map: String,
    pub gas: String,
}

/// `p` names the artifact files of the contract `contract` of the source file
/// `filename` under `out_dir`.
pub open spec fn paths_of(p: ArtifactPaths, out_dir: Seq<char>, filename: Seq<char>, contract: Seq<char>) -> bool {
    &&& p.dir@ == joined(out_dir, filename)
    &&& p.abi@ == joined(p.dir@, contract + ".abi.json"@)
    &&& p.bytecode@ == joined(p.dir@, contract + ".bytecode"@)
    &&& p.opcodes@ == joined(p.dir@, contract + ".opcodes"@)
    &&& p.source_map@ == joined(p.dir@, contract + ".sourcemap"@)
    &&& p.gas@ == joined(p.dir@, contract + ".gas.json"@)
}

fn suffixed(dir: &str, name: &str, suffix: &str) -> (r: String)
    ensures
        r@ == joined(dir@, name@ + suffix@),
{
    let mut file = String::from_str(name);
    file.append(suffix);
    join_path(dir, &file)
}

/// The artifact files of the contract `contract` of the source file
/// `filename`, under `out_dir`: `{out_dir}/{filename}/{contract}` with the
/// suffixes `.abi.json`, `.bytecode`, `.opcodes`, `.sourcemap` and
/// `.gas.json`.
pub fn artifact_paths(out_dir: &str, filename: &str, contract: &str) -> (r: ArtifactPaths)
    ensures
        paths_of(r, out_dir@, filename@, contract@),
{
    let dir = join_path(out_dir, filename);
    let abi = suffixed(&dir, contract, ".abi.json");
    let bytecode = suffixed(&dir, contract, ".bytecode");
    let opcodes = suffixed(&dir, contract, ".opcodes");
    let source_map = suffixed(&dir, contract, ".sourcemap");
    let gas = suffixed(&dir, contract, ".gas.json");
    ArtifactPaths { dir, abi, bytecode, opcodes, source_map, gas }
}

/// The artifacts of one contract and the files they go to.
#[derive(Debug)]
pub struct ContractOutput {
    pub paths: ArtifactPaths,
    pub artifacts: Artifacts,
}

/// Everything a response gives to write for the source file `filename` under
/// `out_dir`: per contract its artifacts and their files, in order.
///
/// A response with an error-severity diagnostic gives nothing to write: the
/// result is the failure that carries the diagnostics.
pub fn contract_outputs(output: CompilerOutput, filename: &str, out_dir: &str) -> (r: Result<
    Vec<ContractOutput>,
    Error,
>)
    ensures
        has_error(output.errors@) ==> r == Err::<Vec<ContractOutput>, Error>(
            Error::CompileDiagnosticError(output.errors),
        ),
        !has_error(output.errors@) ==> {
            let cs = contracts_of(output, filename@);
            &&& r is Ok <==> forall|i: int| 0 <= i < cs.len() ==> complete(#[trigger] cs[i].1)
            &&& r is Err ==> r == Err::<Vec<ContractOutput>, Error>(Error::ParseError)
            &&& r is Ok ==> {
                let o = r->Ok_0@;
                &&& o.len() == cs.len()
                &&& forall|i: int|
                    0 <= i < o.len() ==> artifacts_of(#[trigger] o[i].artifacts, cs[i].0@, cs[i].1)
                        && paths_of(o[i].paths, out_dir@, filename@, cs[i].0@)
            }
        },
{
    let ghost cs = contracts_of(output, filename@);
    let mut artifacts = match parse_output(output, filename) {
        Ok(a) => a,
        Err(e) => {
            return Err(e);
        },
    };
    let ghost all = artifacts@;
    let n = artifacts.len();
    let mut result: Vec<ContractOutput> = Vec::new();
    let mut i: usize = 0;
    assert(all.subrange(0, n as int) =~= all);
    while i < n
        invariant
            n == all.len(),
            n == cs.len(),
            i <= n,
            artifacts@ == all.subrange(i as int, n as int),
            forall|k: int| 0 <= k < n ==> artifacts_of(#[trigger] all[k], cs[k].0@, cs[k].1),
            result@.len() == i,
            forall|k: int|
                0 <= k < i ==> (#[trigger] result@[k]).artifacts == all[k] && paths_of(
                    result@[k].paths,
                    out_dir@,
                    filename@,
                    cs[k].0@,
                ),
        decreases n - i,
    {
        let a = artifacts.remove(0);
        assert(a == all[i as int]);
        let paths = artifact_paths(out_dir, filename, &a.name);
        result.push(ContractOutput { paths, artifacts: a });
        assert(artifacts@ =~= all.subrange(i + 1, n as int));
        i = i + 1;
    }
    Ok(result)
}
} // verus!
