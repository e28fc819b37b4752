use primitive_types::U256;
use snapper::input::{build_input, DebugInfo, InputLanguage, OutputSelection, RevertStrings};
use snapper::output::{
    parse_output, ABIInfo, Bytecode, CompilerOutput, Contract, ErrorType, Evm, GasEstimates,
    GasEstimatesCreation, GasUsed, OutputError, Severity, StateMutability,
};
use snapper::output::Selector;
use snapper::utils::method_identifiers_content;
use snapper::{
    artifact_paths, contract_outputs, Error, EvmVersion, Optimizer, Profile, ProfileType, Profiles, Solidity,
    SnapperFile,
};

fn config() -> SnapperFile {
    SnapperFile {
        solidity: Solidity {
            version: "0.8.17".to_string(),
            via_ir: true,
            evm_version: EvmVersion::London,
            profiles: Profiles::default(),
        },
        library: vec![(
            "Lock.sol".to_string(),
            vec![("Math".to_string(), "0x0000000000000000000000000000000000000001".to_string())],
        )],
        networks: vec![],
    }
}

fn diagnostic(severity: Severity) -> OutputError {
    OutputError {
        source_location: None,
        secondary_source_locations: vec![],
        ty: match severity {
            Severity::Error => ErrorType::TypeError,
            Severity::Warning => ErrorType::Warning,
            Severity::Info => ErrorType::Info,
        },
        component: "general".to_string(),
        severity,
        error_code: Some("1234".to_string()),
        message: "message".to_string(),
        formatted_message: "formatted message".to_string(),
    }
}

fn gas() -> GasEstimates {
    GasEstimates {
        creation: GasEstimatesCreation {
            code_deposit_cost: GasUsed::Value(U256::from(21000u64)),
            execution_cost: GasUsed::Value(U256::from(150u64)),
            total_cost: GasUsed::Infinite("infinite".to_string()),
        },
        external: vec![("unlock()".to_string(), GasUsed::Value(U256::from(300u64)))],
        internal: vec![],
    }
}

fn contract(object: Vec<u8>) -> Contract {
    Contract {
        abi: Some(vec![ABIInfo::Function {
            name: "unlock".to_string(),
            inputs: vec![],
            outputs: vec![],
            state_mutability: StateMutability::Nonpayable,
        }]),
        metadata: None,
        ir: None,
        storage_layout: None,
        evm: Some(Evm {
            assembly: None,
            bytecode: Some(Bytecode {
                object,
                opcodes: "  PUSH1 0x80 PUSH1 0x40 MSTORE \n".to_string(),
                source_map: "\n1:2:0:-:0;;;\t".to_string(),
                generated_sources: vec![],
                link_references: vec![],
            }),
            deployed_bytecode: None,
            method_identifiers: None,
            gas_estimates: Some(gas()),
        }),
        ewasm: None,
    }
}

fn response(errors: Vec<OutputError>) -> CompilerOutput {
    CompilerOutput {
        errors,
        sources: vec![],
        contracts: vec![
            ("Other.sol".to_string(), vec![("Other".to_string(), contract(vec![1]))]),
            (
                "Lock.sol".to_string(),
                vec![
                    ("Lock".to_string(), contract(vec![0x60, 0x80, 0x60, 0x40])),
                    ("Key".to_string(), contract(vec![0x60])),
                ],
            ),
        ],
    }
}

#[test]
fn release_optimizer_settings_carry_over() {
    let input = build_input(&config(), "contracts/Lock.sol", &ProfileType::Release).unwrap();
    let o = &input.settings.optimizer;
    assert!(o.enabled);
    assert_eq!(o.runs, 300);
    assert!(o.details.yul && o.details.yul_details.stack_allocation);
    assert!(o.details.inliner && o.details.deduplicate && o.details.cse);
    assert!(o.details.constant_optimizer && o.details.jumpdest_remover);
    assert!(o.details.peephole && !o.details.order_literals);
    assert_eq!(o.details.yul_details.optimizer_steps, None);
    assert_eq!(input.settings.debug.revert_strings, RevertStrings::Default);
}

#[test]
fn custom_optimizer_settings_carry_over() {
    let mut c = config();
    c.solidity.profiles.release = Profile {
        debug: false,
        optimizer: Optimizer {
            enable: true,
            runs: 300,
            yul: false,
            yul_stack: true,
            inliner: false,
            deduplicate: true,
            constant: false,
            remove_jumpdest: true,
            cse: false,
        },
    };
    let input = build_input(&c, "Lock.sol", &ProfileType::Release).unwrap();
    let o = &input.settings.optimizer;
    assert!(o.enabled);
    assert_eq!(o.runs, 300);
    assert!(!o.details.yul);
    assert!(o.details.yul_details.stack_allocation);
    assert!(!o.details.inliner);
    assert!(o.details.deduplicate);
    assert!(!o.details.constant_optimizer);
    assert!(o.details.jumpdest_remover);
    assert!(!o.details.cse);
}

#[test]
fn debug_request_document() {
    let input = build_input(&config(), "contracts/Lock.sol", &ProfileType::Debug).unwrap();
    assert_eq!(input.language, InputLanguage::Solidity);
    assert_eq!(input.sources.len(), 1);
    assert_eq!(input.sources[0].0, "Lock.sol");
    assert_eq!(input.sources[0].1.keccak256, None);
    assert_eq!(input.sources[0].1.urls, vec!["contracts/Lock.sol".to_string()]);
    let s = &input.settings;
    assert!(!s.optimizer.enabled);
    assert_eq!(s.optimizer.runs, 0);
    assert_eq!(s.debug.revert_strings, RevertStrings::Debug);
    assert_eq!(s.debug.debug_info, vec![DebugInfo::All]);
    assert_eq!(s.evm_version, EvmVersion::London);
    assert!(s.via_ir);
    assert!(s.stop_after.is_none() && s.metadata.is_none() && s.model_checker.is_none());
    assert!(s.remappings.is_empty());
    assert_eq!(s.libraries, config().library);
    assert_eq!(s.output_selection.len(), 1);
    assert_eq!(s.output_selection[0].0, "Lock.sol");
    assert_eq!(s.output_selection[0].1.len(), 1);
    assert_eq!(s.output_selection[0].1[0].0, "*");
    assert_eq!(
        s.output_selection[0].1[0].1,
        vec![
            OutputSelection::Abi,
            OutputSelection::EvmBytecode,
            OutputSelection::EvmGasEstimates,
            OutputSelection::EvmMethodIdentifiers,
            OutputSelection::EvmBytecodeSourceMap,
            OutputSelection::EvmDeployedBytecode,
        ]
    );
}

#[test]
fn source_without_file_name_is_rejected() {
    let r = build_input(&config(), "contracts/..", &ProfileType::Debug);
    assert!(matches!(r, Err(Error::FailedToParseFileName)));
    let r = build_input(&config(), "", &ProfileType::Release);
    assert!(matches!(r, Err(Error::FailedToParseFileName)));
}

#[test]
fn clean_response_gives_one_artifact_set_per_contract() {
    let artifacts = parse_output(response(vec![]), "Lock.sol").unwrap();
    assert_eq!(artifacts.len(), 2);
    assert_eq!(artifacts[0].name, "Lock");
    assert_eq!(artifacts[1].name, "Key");
    assert_eq!(artifacts[0].bytecode, vec![0x60, 0x80, 0x60, 0x40]);
    assert!(!artifacts[0].abi.is_empty());
    assert_eq!(artifacts[0].opcodes, "PUSH1 0x80 PUSH1 0x40 MSTORE");
    assert_eq!(artifacts[0].source_map, "1:2:0:-:0;;;");
    assert_eq!(artifacts[0].gas_estimates.external.len(), 1);
}

#[test]
fn warnings_do_not_block_artifacts() {
    let artifacts =
        parse_output(response(vec![diagnostic(Severity::Warning), diagnostic(Severity::Info)]), "Lock.sol")
            .unwrap();
    assert_eq!(artifacts.len(), 2);
}

#[test]
fn error_diagnostic_fails_with_all_diagnostics() {
    let errors = vec![diagnostic(Severity::Warning), diagnostic(Severity::Error)];
    match parse_output(response(errors.clone()), "Lock.sol") {
        Err(Error::CompileDiagnosticError(d)) => assert_eq!(d, errors),
        other => panic!("unexpected {:?}", other),
    }
}

#[test]
fn file_without_contracts_gives_none() {
    let artifacts = parse_output(response(vec![]), "Empty.sol").unwrap();
    assert!(artifacts.is_empty());
}

#[test]
fn missing_selected_part_is_a_parse_error() {
    let mut out = response(vec![]);
    out.contracts[1].1[1].1.abi = None;
    assert!(matches!(parse_output(out, "Lock.sol"), Err(Error::ParseError)));
}

#[test]
fn artifact_file_layout() {
    let p = artifact_paths("out", "Lock.sol", "Lock");
    assert_eq!(p.dir, "out/Lock.sol");
    assert_eq!(p.abi, "out/Lock.sol/Lock.abi.json");
    assert_eq!(p.bytecode, "out/Lock.sol/Lock.bytecode");
    assert_eq!(p.opcodes, "out/Lock.sol/Lock.opcodes");
    assert_eq!(p.source_map, "out/Lock.sol/Lock.sourcemap");
    assert_eq!(p.gas, "out/Lock.sol/Lock.gas.json");
}

#[test]
fn outputs_pair_artifacts_with_their_files() {
    let outs = contract_outputs(response(vec![diagnostic(Severity::Warning)]), "Lock.sol", "out").unwrap();
    assert_eq!(outs.len(), 2);
    assert_eq!(outs[0].artifacts.name, "Lock");
    assert_eq!(outs[0].paths.abi, "out/Lock.sol/Lock.abi.json");
    assert_eq!(outs[1].paths.gas, "out/Lock.sol/Key.gas.json");
    assert_eq!(outs[1].artifacts.bytecode, vec![0x60]);
}

#[test]
fn error_response_gives_nothing_to_write() {
    let r = contract_outputs(response(vec![diagnostic(Severity::Error)]), "Lock.sol", "out");
    assert!(matches!(r, Err(Error::CompileDiagnosticError(d)) if d.len() == 1));
}

#[test]
fn method_identifier_file() {
    let mi = vec![
        ("unlock()".to_string(), Selector { value: [0xa6, 0x9d, 0xf4, 0xb5] }),
        ("é()".to_string(), Selector { value: [1, 2, 3, 4] }),
    ];
    let mut expected = vec![0xa6, 0x9d, 0xf4, 0xb5];
    expected.extend_from_slice(b"unlock()\n");
    expected.extend_from_slice(&[1, 2, 3, 4]);
    expected.extend_from_slice("é()\n".as_bytes());
    assert_eq!(method_identifiers_content(&mi), expected);
    assert!(method_identifiers_content(&vec![]).is_empty());
}
