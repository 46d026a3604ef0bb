use sapiens::tools::invocation::{collect_invocations, extract_from_yaml, find_yaml_blocks, Error, Invocation};
use sapiens::tools::toolbox::{complete_invocation, plan_invocation, InvokeResult};
use sapiens::tools::{choose_invocation, ToolInvocationInput, ToolUseError};
use serde_yaml::Value;

/// What a YAML value is as an invocation, the way the untagged enum of the
/// library's users reads it.
fn as_input(v: &Value) -> Option<ToolInvocationInput> {
    let m = v.as_mapping()?;
    let tool_name = m.get("tool_name")?.as_str()?.to_string();
    let parameters = m.get("parameters")?.clone();
    let mut junk = vec![];
    for (k, v) in m.iter() {
        let k = k.as_str()?;
        if k != "tool_name" && k != "parameters" {
            junk.push((k.to_string(), v.clone()));
        }
    }
    Some(ToolInvocationInput { tool_name, parameters, junk })
}

fn documents(block: &str) -> Vec<Result<Invocation<ToolInvocationInput>, String>> {
    let mut docs = vec![];
    for doc in serde_yaml::Deserializer::from_str(block) {
        let parsed = match <Value as serde::Deserialize>::deserialize(doc) {
            Ok(v) => match as_input(&v) {
                Some(i) => Ok(Invocation::Single(i)),
                None => match v.as_sequence().map(|s| s.iter().map(as_input).collect::<Option<Vec<_>>>()) {
                    Some(Some(items)) => Ok(Invocation::Multiple(items)),
                    _ => Err("data did not match any variant of untagged enum Invocation".to_string()),
                },
            },
            Err(e) => Err(e.to_string()),
        };
        let failed = parsed.is_err();
        docs.push(parsed);
        if failed {
            // the document stream does not recover from a syntax error
            break;
        }
    }
    docs
}

fn find_all(data: &str) -> Result<Vec<ToolInvocationInput>, Error> {
    let blocks = find_yaml_blocks(data);
    let extracted = blocks.iter().map(|b| extract_from_yaml(documents(b))).collect();
    collect_invocations(extracted).map(|x| x.invocations)
}

const ONE_YAML: &str = "# Some text\n```yaml\ntool_name: Search\nparameters:\n  q: Marcel Deneuve\n  excluded_terms: Resident Evil\n  num_results: 10\n```        \nSome other text\n";

const MULTIPLE_YAML: &str = "# Some text\n```yaml\ntool_name: Search1\nparameters:\n  q: Marcel Deneuve\n---\ntool_name: Search2\nparameters:\n  q: Marcel Deneuve\n```        \nSome other text\n```yaml\ntool_name: Search3\nparameters:\n  q: Marcel Deneuve\nsomething: else\n```        \nSome other text\n```yaml\n- tool_name: Search4\n  parameters:\n    q: Marcel Deneuve\n- tool_name: Search5\n  parameters:\n    q: Marcel Deneuve\n```                \nSome other text\n";

#[test]
fn finds_the_yaml_blocks() {
    let blocks = find_yaml_blocks(ONE_YAML);
    assert_eq!(
        blocks,
        vec!["tool_name: Search\nparameters:\n  q: Marcel Deneuve\n  excluded_terms: Resident Evil\n  num_results: 10".to_string()]
    );
    assert_eq!(find_yaml_blocks(MULTIPLE_YAML).len(), 3);
    assert!(find_yaml_blocks("no yaml here\n```\ncode\n```").is_empty());
    // a block that is not closed runs to the end
    assert_eq!(find_yaml_blocks("```yaml\na: 1\nb: 2"), vec!["a: 1\nb: 2".to_string()]);
}

#[test]
fn find_invocations_one_yaml() {
    let invocations = find_all(ONE_YAML).unwrap();
    assert_eq!(invocations.len(), 1);
    assert_eq!(invocations[0].tool_name, "Search");
    assert_eq!(invocations[0].parameters.get("q").unwrap(), "Marcel Deneuve");
}

#[test]
fn find_multiple_invocations() {
    let invocations = find_all(MULTIPLE_YAML).unwrap();
    let names: Vec<&str> = invocations.iter().map(|i| i.tool_name.as_str()).collect();
    assert_eq!(names, vec!["Search1", "Search2", "Search3", "Search4", "Search5"]);
    assert_eq!(invocations[2].junk.len(), 1);
}

#[test]
fn extraction_of_broken_yaml() {
    let data = "```yaml\ntool_name: [\n```\n";
    match find_all(data) {
        Err(Error::InvalidYaml(_)) => {},
        _ => panic!("the block is broken"),
    }
    match find_all("nothing to see") {
        Err(Error::NoInvocationFound) => {},
        _ => panic!("there is no block"),
    }
}

#[test]
fn extract_from_documents() {
    let input = || ToolInvocationInput { tool_name: "T".to_string(), parameters: Value::Null, junk: vec![] };
    let docs = vec![Ok(Invocation::Single(input())), Ok(Invocation::Multiple(vec![input(), input()]))];
    assert_eq!(extract_from_yaml(docs).map(|v| v.len()).ok(), Some(3));
    let docs = vec![Ok(Invocation::Single(input())), Err("bad".to_string())];
    match extract_from_yaml(docs) {
        Err(Error::InvalidYaml(m)) => assert_eq!(m, "bad"),
        _ => panic!("the second document is bad"),
    }
    let empty: Vec<Result<Invocation<ToolInvocationInput>, String>> = vec![Ok(Invocation::Multiple(vec![]))];
    assert!(matches!(extract_from_yaml(empty), Err(Error::NoInvocationFound)));
}

#[test]
fn collect_reports_the_last_error() {
    let blocks: Vec<Result<Vec<u8>, Error>> = vec![
        Err(Error::InvalidYaml("first".to_string())),
        Ok(vec![]),
        Err(Error::TooManyYamlBlocks(2)),
    ];
    assert!(matches!(collect_invocations(blocks), Err(Error::TooManyYamlBlocks(2))));
    let blocks: Vec<Result<Vec<u8>, Error>> = vec![Err(Error::InvalidYaml("x".to_string())), Ok(vec![1, 2]), Ok(vec![3])];
    let found = collect_invocations(blocks).ok().expect("invocations were found");
    assert_eq!(found.invocations, vec![1, 2, 3]);
    assert_eq!(found.yaml_block_count, 3);
}

#[test]
fn plan_and_complete_an_invocation() {
    let invocations = find_all(MULTIPLE_YAML).unwrap();
    let found = sapiens::tools::invocation::ExtractedInvocations { invocations, yaml_block_count: 3 };
    let plan = match plan_invocation(Ok(found)) {
        Ok(p) => p,
        Err(_) => panic!("there is an invocation"),
    };
    assert_eq!(plan.invocation_count, 5);
    assert_eq!(plan.tool_name, "Search1");
    assert_eq!(plan.extracted_input, "q: Marcel Deneuve\n");
    let output: Value = serde_yaml::from_str("stdout: 42").unwrap();
    match complete_invocation(plan, Ok(output)) {
        InvokeResult::Success { result, tool_name, invocation_count, .. } => {
            assert_eq!(result, "stdout: 42\n");
            assert_eq!(tool_name, "Search1");
            assert_eq!(invocation_count, 5);
        },
        _ => panic!("the tool succeeded"),
    }
    match plan_invocation(Err(Error::NoInvocationFound)) {
        Err(InvokeResult::NoInvocationsFound { e: Error::NoInvocationFound }) => {},
        _ => panic!("nothing was found"),
    }
}

#[test]
fn failed_invocation() {
    let found = sapiens::tools::invocation::ExtractedInvocations {
        invocations: vec![ToolInvocationInput { tool_name: "T".to_string(), parameters: Value::Null, junk: vec![] }],
        yaml_block_count: 1,
    };
    let plan = plan_invocation(Ok(found)).ok().expect("there is an invocation");
    match complete_invocation(plan, Err(ToolUseError::ToolNotFound("T".to_string()))) {
        InvokeResult::Error { e: ToolUseError::ToolNotFound(n), .. } => assert_eq!(n, "T"),
        _ => panic!("the tool was not found"),
    }
}

#[test]
fn choose_the_first_invocation() {
    assert!(matches!(choose_invocation(vec![]), Err(Error::NoInvocationFound)));
    let first = ToolInvocationInput {
        tool_name: "A".to_string(),
        parameters: Value::Null,
        junk: vec![("x".to_string(), Value::Null)],
    };
    let second = ToolInvocationInput { tool_name: "B".to_string(), parameters: Value::Null, junk: vec![] };
    let chosen = choose_invocation(vec![first, second]).ok().expect("one is chosen");
    assert_eq!(chosen.tool_name, "A");
    assert!(chosen.junk.is_empty());
}

#[test]
fn error_texts() {
    assert_eq!(Error::InvalidYaml("x\"y".to_string()).debug_string(), "InvalidYaml(\"x\\\"y\")");
    assert_eq!(Error::TooManyYamlBlocks(3).message(), "Too many (3) yaml blocks. Only one is expected.");
    assert_eq!(Error::NoValidInvocationFound("m".to_string()).message(), "No valid Action found: m");
    assert_eq!(Error::NoInvocationFound.debug_string(), "NoInvocationFound");
    let e = ToolUseError::InvalidInvocation(Error::NoInvocationFound);
    assert_eq!(e.debug_string(), "InvalidInvocation(NoInvocationFound)");
    assert_eq!(e.message(), "Invalid invocation: No Action found");
    assert_eq!(ToolUseError::InvocationFailed("boom".to_string()).message(), "Tool invocation failed: boom");
}
