use ce_core::compiler_explorer::compile_request_body;
use ce_core::compiler_explorer::execute_request_body;
use ce_core::compiler_explorer::join_args;
use ce_core::compiler_explorer::parse_asm;
use ce_core::compiler_explorer::parse_compilation;
use ce_core::compiler_explorer::parse_execution;
use ce_core::compiler_explorer::parse_stream;
use ce_core::compiler_explorer::parse_tag;
use ce_core::compiler_explorer::Error;
use ce_core::compiler_explorer::ExecutionResult;
use ce_core::json::Json;

fn obj(entries: Vec<(&str, Json)>) -> Json {
    Json::Obj(
        entries
            .into_iter()
            .map(|(k, v)| (String::from(k), v))
            .collect(),
    )
}

fn s(text: &str) -> Json {
    Json::Str(String::from(text))
}

fn get<'a>(j: &'a Json, key: &str) -> &'a Json {
    j.get(key).expect("missing member")
}

#[test]
fn tag_with_line_and_text_parses() {
    let j = obj(vec![("line", Json::Int(3)), ("text", s("error"))]);
    assert_eq!(parse_tag(&j), Some((3, String::from("error"))));
}

#[test]
fn tag_without_line_is_none() {
    let j = obj(vec![("text", s("error"))]);
    assert_eq!(parse_tag(&j), None);
    let j = obj(vec![("line", s("three")), ("text", s("error"))]);
    assert_eq!(parse_tag(&j), None);
}

#[test]
fn tag_of_non_object_is_none() {
    assert_eq!(parse_tag(&Json::Null), None);
    assert_eq!(parse_tag(&Json::Int(1)), None);
}

#[test]
fn stream_parses_lines_in_order() {
    let j = Json::Arr(vec![
        obj(vec![("text", s("first"))]),
        obj(vec![
            ("text", s("second")),
            ("tag", obj(vec![("line", Json::Int(7)), ("text", s("warning"))])),
        ]),
    ]);
    let lines = parse_stream(&j).expect("stream should parse");
    assert_eq!(lines.len(), 2);
    assert_eq!(lines[0].text, "first");
    assert_eq!(lines[0].tag, None);
    assert_eq!(lines[1].text, "second");
    assert_eq!(lines[1].tag, Some((7, String::from("warning"))));
}

#[test]
fn stream_of_null_reports_no_stream() {
    assert!(matches!(parse_stream(&Json::Null), Err(Error::NoStreamFound)));
}

#[test]
fn stream_of_wrong_shape_is_invalid() {
    assert!(matches!(parse_stream(&Json::Bool(true)), Err(Error::InvalidStream)));
    let j = Json::Arr(vec![obj(vec![("text", Json::Int(1))])]);
    assert!(matches!(parse_stream(&j), Err(Error::InvalidStream)));
}

#[test]
fn assembly_parses_text_and_source() {
    let j = Json::Arr(vec![
        obj(vec![("text", s("main:"))]),
        obj(vec![
            ("text", s("  ret")),
            (
                "source",
                obj(vec![("file", s("main.c")), ("line", Json::Int(2))]),
            ),
        ]),
        obj(vec![("text", s("  nop")), ("source", obj(vec![("line", Json::Int(4))]))]),
    ]);
    let lines = parse_asm(&j).expect("listing should parse");
    assert_eq!(lines.len(), 3);
    assert_eq!(lines[0].text, "main:");
    assert_eq!(lines[0].source, None);
    assert_eq!(lines[1].source, Some((Some(String::from("main.c")), 2)));
    assert_eq!(lines[2].source, Some((None, 4)));
}

#[test]
fn assembly_of_null_reports_none_found() {
    assert!(matches!(parse_asm(&Json::Null), Err(Error::NoAsmFound)));
}

#[test]
fn assembly_of_wrong_shape_is_invalid() {
    assert!(matches!(parse_asm(&s("text")), Err(Error::InvalidAsm)));
    let missing_text = Json::Arr(vec![obj(vec![("source", Json::Null)])]);
    assert!(matches!(parse_asm(&missing_text), Err(Error::InvalidAsm)));
    let bad_line = Json::Arr(vec![obj(vec![
        ("text", s("ret")),
        ("source", obj(vec![("line", s("two"))])),
    ])]);
    assert!(matches!(parse_asm(&bad_line), Err(Error::InvalidAsm)));
}

#[test]
fn compilation_requires_integer_code() {
    let j = obj(vec![("stdout", Json::Arr(vec![]))]);
    assert!(matches!(parse_compilation(&j, None), Err(Error::InvalidErrorCode)));
    let j = obj(vec![("code", s("0"))]);
    assert!(matches!(parse_compilation(&j, None), Err(Error::InvalidErrorCode)));
}

#[test]
fn compilation_parses_all_parts() {
    let j = obj(vec![
        ("code", Json::Int(1)),
        (
            "stdout",
            Json::Arr(vec![obj(vec![("text", s("out"))])]),
        ),
        (
            "stderr",
            Json::Arr(vec![obj(vec![(
                "text",
                s("error: expected ';'"),
            )])]),
        ),
        (
            "asm",
            Json::Arr(vec![obj(vec![("text", s("main: ret"))])]),
        ),
    ]);
    let c = parse_compilation(&j, None).expect("response should parse");
    assert_eq!(c.code, 1);
    assert_eq!(c.stdout.len(), 1);
    assert_eq!(c.stdout[0].text, "out");
    assert_eq!(c.stderr[0].text, "error: expected ';'");
    assert_eq!(c.assembly[0].text, "main: ret");
    assert!(c.execution.is_none());
}

#[test]
fn compilation_defaults_missing_streams_to_empty() {
    let j = obj(vec![("code", Json::Int(0))]);
    let c = parse_compilation(&j, None).expect("response should parse");
    assert!(c.stdout.is_empty());
    assert!(c.stderr.is_empty());
    assert!(c.assembly.is_empty());
}

#[test]
fn compilation_attaches_execution() {
    let j = obj(vec![("code", Json::Int(0))]);
    let execution = ExecutionResult {
        code: 3,
        stdout: vec![],
        stderr: vec![],
    };
    let c = parse_compilation(&j, Some(execution)).expect("response should parse");
    assert_eq!(c.execution.unwrap().code, 3);
}

#[test]
fn execution_parses_code_and_streams() {
    let j = obj(vec![
        ("code", Json::Int(2)),
        ("stdout", Json::Arr(vec![obj(vec![("text", s("ran"))])])),
    ]);
    let e = parse_execution(&j).expect("response should parse");
    assert_eq!(e.code, 2);
    assert_eq!(e.stdout[0].text, "ran");
    assert!(e.stderr.is_empty());
    let j = obj(vec![("stdout", Json::Arr(vec![]))]);
    assert!(matches!(parse_execution(&j), Err(Error::InvalidErrorCode)));
}

#[test]
fn join_args_separates_with_single_spaces() {
    assert_eq!(join_args(&vec![]), "");
    assert_eq!(join_args(&vec![String::from("-O2")]), "-O2");
    assert_eq!(
        join_args(&vec![String::from("-O2"), String::from("-Wall"), String::from("-std=c++17")]),
        "-O2 -Wall -std=c++17"
    );
}

#[test]
fn compile_request_holds_source_and_arguments() {
    let body = compile_request_body("int main(){}", "-O2 -Wall");
    match get(&body, "source") {
        Json::Str(text) => assert_eq!(text, "int main(){}"),
        _ => panic!("source should be a string"),
    }
    match get(get(&body, "options"), "userArguments") {
        Json::Str(text) => assert_eq!(text, "-O2 -Wall"),
        _ => panic!("userArguments should be a string"),
    }
    assert!(matches!(get(&body, "allowStoreCodeDebug"), Json::Bool(true)));
    assert!(get(&body, "options").get("compilerOptions").is_none());
}

#[test]
fn execute_request_asks_to_run() {
    let body = execute_request_body("int main(){}", "");
    let compiler_options = get(get(&body, "options"), "compilerOptions");
    assert!(matches!(get(compiler_options, "skipAsm"), Json::Bool(true)));
    assert!(matches!(get(compiler_options, "executorRequest"), Json::Bool(true)));
    match get(&body, "source") {
        Json::Str(text) => assert_eq!(text, "int main(){}"),
        _ => panic!("source should be a string"),
    }
}

#[test]
fn error_messages_read_as_documented() {
    assert_eq!(
        Error::InvalidStream.message(),
        "Invalid stream received as from compilation result"
    );
    assert_eq!(Error::NoStreamFound.message(), "No stream found");
    assert_eq!(Error::NoAsmFound.message(), "No assembly found in output");
    assert_eq!(Error::InvalidAsm.message(), "Error parsing assembly response");
    assert_eq!(Error::InvalidErrorCode.message(), "Error parsing error code");
    assert_eq!(
        Error::InvalidHttpResponse(String::from("busy")).message(),
        "Invalid HTTP response: busy"
    );
    assert_eq!(
        Error::HttpError(String::from("timed out")).message(),
        "HTTP Error: timed out"
    );
}
