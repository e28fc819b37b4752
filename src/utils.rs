//! The layout of a project's output directory.

use vstd::prelude::*;
use vstd::string::*;

use crate::output::Selector;
use crate::paths::{join_path, joined};

verus! {

/// The file name a compiler binary of `version` is cached under.
pub open spec fn binary_name(version: Seq<char>) -> Seq<char> {
    "solc-v"@ + version
}

/// The path of the cached compiler binary of `version` in the directory `path`.
pub fn solc_path(path: &str, version: &str) -> (r: String)
    ensures
        r@ == joined(path@, binary_name(version@)),
{
    let mut name = String::from_str("solc-v");
    name.append(version);
    proof {
        reveal_strlit("solc-v");
    }
    join_path(path, &name)
}

/// The output directory under a build's target directory.
pub fn default_snapper_outdir(target: &str) -> (r: String)
    ensures
        r@ == joined(target@, "snapper"@),
{
    join_path(target, "snapper")
}

/// Where a project's contract sources are staged under the target directory.
pub fn default_snapper_contract_dir(target: &str) -> (r: String)
    ensures
        r@ == joined(joined(target@, "snapper"@), "contracts"@),
{
    join_path(&default_snapper_outdir(target), "contracts")
}

/// Where compiled artifacts go under the target directory.
pub fn default_snapper_artifacts_dir(target: &str) -> (r: String)
    ensures
        r@ == joined(joined(target@, "snapper"@), "artifacts"@),
{
    join_path(&default_snapper_outdir(target), "artifacts")
}

/// Where compiler binaries are cached under the target directory.
pub fn default_snapper_bins_dir(target: &str) -> (r: String)
    ensures
        r@ == joined(joined(target@, "snapper"@), "bin"@),
{
    join_path(&default_snapper_outdir(target), "bin")
}

/// The line of the method-identifier file for one method: the selector's
/// four bytes, the method signature in UTF-8, and a newline.
pub open spec fn identifier_line(name: Seq<char>, selector: Selector) -> Seq<u8> {
    selector.value@ + vstd::utf8::encode_utf8(name) + seq![10u8]
}

/// The method-identifier file for `mi`: one line per entry, in order.
pub open spec fn identifiers_content(mi: Seq<(String, Selector)>) -> Seq<u8>
    decreases mi.len(),
{
    if mi.len() == 0 {
        Seq::empty()
    } else {
        identifiers_content(mi.drop_last()) + identifier_line(mi.last().0@, mi.last().1)
    }
}

/// The bytes of the method-identifier file for `mi`.
pub fn method_identifiers_content(mi: &Vec<(String, Selector)>) -> (r: Vec<u8>)
    ensures
        r@ == identifiers_content(mi@),
{
    let mut out: Vec<u8> = Vec::new();
    let mut i: usize = 0;
    while i < mi.len()
        invariant
            i <= mi@.len(),
            out@ == identifiers_content(mi@.subrange(0, i as int)),
        decreases mi@.len() - i,
    {
        assert(mi@.subrange(0, i + 1).drop_last() =~= mi@.subrange(0, i as int));
        let ghost before = out@;
        let v = mi[i].1.value;
        out.push(v[0]);
        out.push(v[1]);
        out.push(v[2]);
        out.push(v[3]);
        let name: &str = &mi[i].0;
        let mut bytes = vstd::slice::slice_to_vec(name.as_bytes());
        out.append(&mut bytes);
        out.push(10u8);
        assert(out@ =~= before + identifier_line(mi@[i as int].0@, mi@[i as int].1));
        i = i + 1;
    }
    assert(mi@.subrange(0, mi@.len() as int) =~= mi@);
    out
}
} // verus!
