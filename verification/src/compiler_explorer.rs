//! Data returned by the remote compile service, and the parsing of the JSON
//! shapes it arrives in.
//!
//! The service answers a compile request with a JSON object holding an exit
//! code, tagged stdout/stderr streams, an assembly listing, and optionally the
//! result of running the compiled program.  The functions here turn the
//! modelled JSON values (see [`crate::json`]) into these structures.

use crate::json::lemma_lookup_cons_hit;
use crate::json::lemma_lookup_cons_miss;
use crate::json::lookup;
use crate::json::Json;
use vstd::prelude::*;

verus! {

/// Outcome of running the compiled program (the optional second round trip).
#[derive(Debug, Clone)]
pub struct ExecutionResult {
    pub code: i64,
    pub stdout: Vec<StreamOutput>,
    pub stderr: Vec<StreamOutput>,
}

/// Outcome of one compilation, replaced wholesale on every new result.
#[derive(Debug, Clone)]
pub struct CompilationResult {
    pub code: i64,
    pub stdout: Vec<StreamOutput>,
    pub stderr: Vec<StreamOutput>,
    pub assembly: Vec<AsmOutput>,
    pub execution: Option<ExecutionResult>,
}

/// One line of a stdout/stderr stream, optionally tagged with the source
/// line it refers to and a label.
#[derive(Debug, Clone)]
pub struct StreamOutput {
    pub text: String,
    pub tag: Option<(i64, String)>,
}

/// One line of the assembly listing, optionally referring back to a source
/// file and line.
#[derive(Debug, Clone)]
pub struct AsmOutput {
    pub text: String,
    pub source: Option<(Option<String>, i64)>,
}

/// Everything that can go wrong between the service and a usable result.
#[derive(Debug, Clone)]
pub enum Error {
    /// A stream field was present but not an array of tagged lines.
    InvalidStream,
    /// A stream field was absent (JSON null).
    NoStreamFound,
    /// The assembly field was absent (JSON null).
    NoAsmFound,
    /// The assembly field was present but malformed.
    InvalidAsm,
    /// The exit code was absent or not an integer.
    InvalidErrorCode,
    /// The service answered with a non-OK HTTP status; holds the body text.
    InvalidHttpResponse(String),
    /// The transport itself failed; holds the reported message.
    HttpError(String),
}

/// The tag a stream line carries, read from its JSON form: the source line
/// number under `"line"` and the label under `"text"`, both required; any
/// other shape means no tag.
pub open spec fn spec_parse_tag(j: Json) -> Option<(i64, String)> {
    match j {
        Json::Obj(_) => match (lookup(j, "line"@), lookup(j, "text"@)) {
            (Json::Int(line), Json::Str(text)) => Option::Some((line, text)),
            _ => Option::None,
        },
        _ => Option::None,
    }
}

/// Read the optional tag of a stream line; exactly [`spec_parse_tag`].
pub fn parse_tag(json_map: &Json) -> (r: Option<(i64, String)>)
    ensures
        r == spec_parse_tag(*json_map),
{
    match json_map {
        Json::Obj(_) => {
            let line = match json_map.get("line") {
                Some(v) => v.as_int(),
                None => None,
            };
            let text = match json_map.get("text") {
                Some(v) => v.as_str(),
                None => None,
            };
            match (line, text) {
                (Some(l), Some(t)) => Some((l, t.clone())),
                _ => None,
            }
        },
        _ => None,
    }
}

/// One stream line, read from its JSON form: the text under `"text"`
/// (required) and the optional tag under `"tag"`.
pub open spec fn spec_parse_stream_item(j: Json) -> Result<StreamOutput, Error> {
    match lookup(j, "text"@) {
        Json::Str(text) => Result::Ok(
            StreamOutput { text, tag: spec_parse_tag(lookup(j, "tag"@)) },
        ),
        _ => Result::Err(Error::InvalidStream),
    }
}

/// All stream lines of an array, in order, stopping at the first bad one.
pub open spec fn spec_parse_stream_items(items: Seq<Json>) -> Result<Seq<StreamOutput>, Error>
    decreases items.len(),
{
    if items.len() == 0 {
        Result::Ok(Seq::empty())
    } else {
        match spec_parse_stream_item(items[0]) {
            Result::Ok(first) => match spec_parse_stream_items(items.drop_first()) {
                Result::Ok(rest) => Result::Ok(seq![first] + rest),
                Result::Err(e) => Result::Err(e),
            },
            Result::Err(e) => Result::Err(e),
        }
    }
}

/// A whole stream: an array of lines; null means the stream was absent, and
/// any other shape is malformed.
pub open spec fn spec_parse_stream(j: Json) -> Result<Seq<StreamOutput>, Error> {
    match j {
        Json::Arr(items) => spec_parse_stream_items(items@),
        Json::Null => Result::Err(Error::NoStreamFound),
        _ => Result::Err(Error::InvalidStream),
    }
}

/// `r` is the same parse outcome as `s`, with the parsed lines seen through
/// the vector's contents.
pub open spec fn stream_result_matches(
    r: Result<Vec<StreamOutput>, Error>,
    s: Result<Seq<StreamOutput>, Error>,
) -> bool {
    match (r, s) {
        (Result::Ok(v), Result::Ok(expected)) => v@ == expected,
        (Result::Err(a), Result::Err(b)) => a == b,
        _ => false,
    }
}

fn parse_stream_item(j: &Json) -> (r: Result<StreamOutput, Error>)
    ensures
        r == spec_parse_stream_item(*j),
{
    let text = match j.get("text") {
        Some(v) => v.as_str(),
        None => None,
    };
    match text {
        Some(t) => {
            let tag = match j.get("tag") {
                Some(v) => parse_tag(v),
                None => None,
            };
            Ok(StreamOutput { text: t.clone(), tag })
        },
        None => Err(Error::InvalidStream),
    }
}

/// Read a whole stdout/stderr stream from its JSON form; exactly
/// [`spec_parse_stream`].
pub fn parse_stream(json_array: &Json) -> (r: Result<Vec<StreamOutput>, Error>)
    ensures
        stream_result_matches(r, spec_parse_stream(*json_array)),
{
    match json_array {
        Json::Arr(items) => {
            let mut result: Vec<StreamOutput> = Vec::new();
            let mut i: usize = 0;
            proof {
                assert(items@.skip(0) =~= items@);
            }
            while i < items.len()
                invariant
                    i <= items.len(),
                    *json_array is Arr,
                    (*json_array)->Arr_0 == *items,
                    spec_parse_stream_items(items@) == match spec_parse_stream_items(
                        items@.skip(i as int),
                    ) {
                        Result::Ok(rest) => Result::Ok(result@ + rest),
                        Result::Err(e) => Result::Err(e),
                    },
                decreases items.len() - i,
            {
                proof {
                    assert(items@.skip(i as int)[0] == items@[i as int]);
                    assert(items@.skip(i as int).drop_first() =~= items@.skip(i as int + 1));
                }
                match parse_stream_item(&items[i]) {
                    Ok(line) => {
                        let ghost before = result@;
                        result.push(line);
                        proof {
                            assert(result@ =~= before + seq![line]);
                            assert(forall|rest: Seq<StreamOutput>|
                                (before + seq![line]) + rest =~= before + (seq![line] + rest));
                        }
                    },
                    Err(e) => {
                        return Err(e);
                    },
                }
                i = i + 1;
            }
            proof {
                assert(items@.skip(items@.len() as int) =~= Seq::<Json>::empty());
                assert(result@ + Seq::<StreamOutput>::empty() =~= result@);
            }
            Ok(result)
        },
        Json::Null => Err(Error::NoStreamFound),
        _ => Err(Error::InvalidStream),
    }
}

/// The string a value holds, if it holds one — the optional source file
/// name of an assembly line.
pub open spec fn spec_opt_str(j: Json) -> Option<String> {
    match j {
        Json::Str(s) => Option::Some(s),
        _ => Option::None,
    }
}

/// One assembly line, read from its JSON form: the text under `"text"`
/// (required); when `"source"` is an object it must carry an integer
/// `"line"`, and may carry a `"file"` string.
pub open spec fn spec_parse_asm_item(j: Json) -> Result<AsmOutput, Error> {
    match lookup(j, "text"@) {
        Json::Str(text) => match lookup(j, "source"@) {
            Json::Obj(_) => match lookup(lookup(j, "source"@), "line"@) {
                Json::Int(line) => Result::Ok(
                    AsmOutput {
                        text,
                        source: Option::Some(
                            (spec_opt_str(lookup(lookup(j, "source"@), "file"@)), line),
                        ),
                    },
                ),
                _ => Result::Err(Error::InvalidAsm),
            },
            _ => Result::Ok(AsmOutput { text, source: Option::None }),
        },
        _ => Result::Err(Error::InvalidAsm),
    }
}

/// All assembly lines of an array, in order, stopping at the first bad one.
pub open spec fn spec_parse_asm_items(items: Seq<Json>) -> Result<Seq<AsmOutput>, Error>
    decreases items.len(),
{
    if items.len() == 0 {
        Result::Ok(Seq::empty())
    } else {
        match spec_parse_asm_item(items[0]) {
            Result::Ok(first) => match spec_parse_asm_items(items.drop_first()) {
                Result::Ok(rest) => Result::Ok(seq![first] + rest),
                Result::Err(e) => Result::Err(e),
            },
            Result::Err(e) => Result::Err(e),
        }
    }
}

/// A whole assembly listing: an array of lines; null means the listing was
/// absent, and any other shape is malformed.
pub open spec fn spec_parse_asm(j: Json) -> Result<Seq<AsmOutput>, Error> {
    match j {
        Json::Arr(items) => spec_parse_asm_items(items@),
        Json::Null => Result::Err(Error::NoAsmFound),
        _ => Result::Err(Error::InvalidAsm),
    }
}

/// `r` is the same parse outcome as `s`, with the parsed lines seen through
/// the vector's contents.
pub open spec fn asm_result_matches(
    r: Result<Vec<AsmOutput>, Error>,
    s: Result<Seq<AsmOutput>, Error>,
) -> bool {
    match (r, s) {
        (Result::Ok(v), Result::Ok(expected)) => v@ == expected,
        (Result::Err(a), Result::Err(b)) => a == b,
        _ => false,
    }
}

fn parse_asm_item(j: &Json) -> (r: Result<AsmOutput, Error>)
    ensures
        r == spec_parse_asm_item(*j),
{
    let text = match j.get("text") {
        Some(v) => v.as_str(),
        None => None,
    };
    let text = match text {
        Some(t) => t.clone(),
        None => {
            return Err(Error::InvalidAsm);
        },
    };
    let null_value = Json::Null;
    let source_value = match j.get("source") {
        Some(v) => v,
        None => &null_value,
    };
    match source_value {
        Json::Obj(_) => {
            let line = match source_value.get("line") {
                Some(v) => v.as_int(),
                None => None,
            };
            match line {
                Some(line) => {
                    let file = match source_value.get("file") {
                        Some(v) => match v.as_str() {
                            Some(s) => Some(s.clone()),
                            None => None,
                        },
                        None => None,
                    };
                    Ok(AsmOutput { text, source: Some((file, line)) })
                },
                None => Err(Error::InvalidAsm),
            }
        },
        _ => Ok(AsmOutput { text, source: None }),
    }
}

/// Read a whole assembly listing from its JSON form; exactly
/// [`spec_parse_asm`].
pub fn parse_asm(json_array: &Json) -> (r: Result<Vec<AsmOutput>, Error>)
    ensures
        asm_result_matches(r, spec_parse_asm(*json_array)),
{
    match json_array {
        Json::Arr(items) => {
            let mut result: Vec<AsmOutput> = Vec::new();
            let mut i: usize = 0;
            proof {
                assert(items@.skip(0) =~= items@);
            }
            while i < items.len()
                invariant
                    i <= items.len(),
                    *json_array is Arr,
                    (*json_array)->Arr_0 == *items,
                    spec_parse_asm_items(items@) == match spec_parse_asm_items(
                        items@.skip(i as int),
                    ) {
                        Result::Ok(rest) => Result::Ok(result@ + rest),
                        Result::Err(e) => Result::Err(e),
                    },
                decreases items.len() - i,
            {
                proof {
                    assert(items@.skip(i as int)[0] == items@[i as int]);
                    assert(items@.skip(i as int).drop_first() =~= items@.skip(i as int + 1));
                }
                match parse_asm_item(&items[i]) {
                    Ok(line) => {
                        let ghost before = result@;
                        result.push(line);
                        proof {
                            assert(result@ =~= before + seq![line]);
                            assert(forall|rest: Seq<AsmOutput>|
                                (before + seq![line]) + rest =~= before + (seq![line] + rest));
                        }
                    },
                    Err(e) => {
                        return Err(e);
                    },
                }
                i = i + 1;
            }
            proof {
                assert(items@.skip(items@.len() as int) =~= Seq::<Json>::empty());
                assert(result@ + Seq::<AsmOutput>::empty() =~= result@);
            }
            Ok(result)
        },
        Json::Null => Err(Error::NoAsmFound),
        _ => Err(Error::InvalidAsm),
    }
}

/// The lines of a stream field, with every failure (absent, null or
/// malformed) collapsing to an empty stream — how a compile response treats
/// its optional streams.
pub open spec fn spec_stream_or_empty(j: Json) -> Seq<StreamOutput> {
    match spec_parse_stream(j) {
        Result::Ok(s) => s,
        Result::Err(_) => Seq::empty(),
    }
}

/// The lines of the assembly field, with every failure collapsing to an
/// empty listing.
pub open spec fn spec_assembly_or_empty(j: Json) -> Seq<AsmOutput> {
    match spec_parse_asm(j) {
        Result::Ok(s) => s,
        Result::Err(_) => Seq::empty(),
    }
}

fn stream_or_empty(json: &Json, key: &str) -> (r: Vec<StreamOutput>)
    ensures
        r@ == spec_stream_or_empty(lookup(*json, key@)),
{
    let parsed = match json.get(key) {
        Some(v) => parse_stream(v),
        None => Err(Error::NoStreamFound),
    };
    match parsed {
        Ok(v) => v,
        Err(_) => {
            let empty: Vec<StreamOutput> = Vec::new();
            proof {
                assert(empty@ =~= Seq::<StreamOutput>::empty());
            }
            empty
        },
    }
}

/// Put a compile response together from its JSON form: the exit code under
/// `"code"` is required, the two streams and the assembly listing default to
/// empty when absent or malformed, and the result of the optional run phase
/// is attached as given.
pub fn parse_compilation(json: &Json, execution: Option<ExecutionResult>) -> (r: Result<
    CompilationResult,
    Error,
>)
    ensures
        match lookup(*json, "code"@) {
            Json::Int(code) => r matches Ok(c) && c.code == code && c.stdout@
                == spec_stream_or_empty(lookup(*json, "stdout"@)) && c.stderr@
                == spec_stream_or_empty(lookup(*json, "stderr"@)) && c.assembly@
                == spec_assembly_or_empty(lookup(*json, "asm"@)) && c.execution == execution,
            _ => r == Err::<CompilationResult, Error>(Error::InvalidErrorCode),
        },
{
    let code = match json.get("code") {
        Some(v) => v.as_int(),
        None => None,
    };
    let code = match code {
        Some(c) => c,
        None => {
            return Err(Error::InvalidErrorCode);
        },
    };
    let stdout = stream_or_empty(json, "stdout");
    let stderr = stream_or_empty(json, "stderr");
    let assembly = match json.get("asm") {
        Some(v) => match parse_asm(v) {
            Ok(a) => a,
            Err(_) => Vec::new(),
        },
        None => Vec::new(),
    };
    Ok(CompilationResult { code, stdout, stderr, assembly, execution })
}

/// Put a run-phase response together from its JSON form: the exit code under
/// `"code"` is required and the two streams default to empty.
pub fn parse_execution(json: &Json) -> (r: Result<ExecutionResult, Error>)
    ensures
        match lookup(*json, "code"@) {
            Json::Int(code) => r matches Ok(e) && e.code == code && e.stdout@
                == spec_stream_or_empty(lookup(*json, "stdout"@)) && e.stderr@
                == spec_stream_or_empty(lookup(*json, "stderr"@)),
            _ => r == Err::<ExecutionResult, Error>(Error::InvalidErrorCode),
        },
{
    let code = match json.get("code") {
        Some(v) => v.as_int(),
        None => None,
    };
    let code = match code {
        Some(c) => c,
        None => {
            return Err(Error::InvalidErrorCode);
        },
    };
    let stdout = stream_or_empty(json, "stdout");
    let stderr = stream_or_empty(json, "stderr");
    Ok(ExecutionResult { code, stdout, stderr })
}

/// `" "`-prefixed concatenation of each part in turn.
pub open spec fn spec_join_rest(parts: Seq<Seq<char>>) -> Seq<char>
    decreases parts.len(),
{
    if parts.len() == 0 {
        Seq::empty()
    } else {
        " "@ + parts[0] + spec_join_rest(parts.drop_first())
    }
}

/// The parts joined with a single space between consecutive ones.
pub open spec fn spec_join(parts: Seq<Seq<char>>) -> Seq<char> {
    if parts.len() == 0 {
        Seq::empty()
    } else {
        parts[0] + spec_join_rest(parts.drop_first())
    }
}

/// Join the compiler arguments into the single space-separated string the
/// service expects.
pub fn join_args(arguments: &Vec<String>) -> (r: String)
    ensures
        r@ == spec_join(arguments.deep_view()),
{
    let ghost parts = arguments.deep_view();
    let mut r = String::new();
    let mut i: usize = 0;
    while i < arguments.len()
        invariant
            i <= arguments.len(),
            parts == arguments.deep_view(),
            parts.len() == arguments@.len(),
            forall|j: int| 0 <= j < parts.len() ==> parts[j] == arguments@[j]@,
            i == 0 ==> r@ == Seq::<char>::empty(),
            i > 0 ==> spec_join(parts) == r@ + spec_join_rest(parts.skip(i as int)),
        decreases arguments.len() - i,
    {
        proof {
            if i > 0 {
                assert(parts.skip(i as int)[0] == parts[i as int]);
                assert(parts.skip(i as int).drop_first() =~= parts.skip(i as int + 1));
            } else {
                assert(parts.drop_first() =~= parts.skip(1));
            }
        }
        if i > 0 {
            r.append(" ");
        }
        r.append(arguments[i].as_str());
        i = i + 1;
    }
    proof {
        if arguments@.len() == 0 {
        } else {
            assert(parts.skip(parts.len() as int) =~= Seq::<Seq<char>>::empty());
            assert(r@ + Seq::<char>::empty() =~= r@);
        }
    }
    r
}

/// Build the body of a plain compile request: the source text, the joined
/// compiler arguments under the options, and the flag that lets the service
/// keep the code for debugging.
pub fn compile_request_body(source_text: &str, user_arguments: &str) -> (r: Json)
    ensures
        r matches Json::Obj(entries) && entries@.len() == 3,
        lookup(r, "source"@) matches Json::Str(s) && s@ == source_text@,
        lookup(r, "options"@) matches Json::Obj(o) && o@.len() == 1,
        lookup(lookup(r, "options"@), "userArguments"@) matches Json::Str(a) && a@
            == user_arguments@,
        lookup(r, "allowStoreCodeDebug"@) == Json::Bool(true),
{
    let mut options: Vec<(String, Json)> = Vec::new();
    options.push(
        (String::from_str("userArguments"), Json::Str(String::from_str(user_arguments))),
    );
    let mut top: Vec<(String, Json)> = Vec::new();
    top.push((String::from_str("source"), Json::Str(String::from_str(source_text))));
    top.push((String::from_str("options"), Json::Obj(options)));
    top.push((String::from_str("allowStoreCodeDebug"), Json::Bool(true)));
    proof {
        reveal_strlit("source");
        reveal_strlit("options");
        reveal_strlit("userArguments");
        reveal_strlit("allowStoreCodeDebug");
        assert(top@[0].0@ == "source"@);
        assert(top@[1].0@ == "options"@);
        assert(top@[2].0@ == "allowStoreCodeDebug"@);
        assert("source"@ != "options"@);
        assert("source"@ != "allowStoreCodeDebug"@);
        assert("options"@ != "allowStoreCodeDebug"@);
        lemma_lookup_cons_hit(top@, "source"@);
        lemma_lookup_cons_miss(top@, "options"@);
        assert(top@.drop_first()[0] == top@[1]);
        lemma_lookup_cons_hit(top@.drop_first(), "options"@);
        lemma_lookup_cons_miss(top@, "allowStoreCodeDebug"@);
        lemma_lookup_cons_miss(top@.drop_first(), "allowStoreCodeDebug"@);
        assert(top@.drop_first().drop_first()[0] == top@[2]);
        lemma_lookup_cons_hit(top@.drop_first().drop_first(), "allowStoreCodeDebug"@);
        lemma_lookup_cons_hit(options@, "userArguments"@);
    }
    Json::Obj(top)
}

/// Build the body of a run request: like a compile request, but asking the
/// service to skip the assembly and run the program instead.
pub fn execute_request_body(source_text: &str, user_arguments: &str) -> (r: Json)
    ensures
        r matches Json::Obj(entries) && entries@.len() == 3,
        lookup(r, "source"@) matches Json::Str(s) && s@ == source_text@,
        lookup(r, "options"@) matches Json::Obj(o) && o@.len() == 2,
        lookup(lookup(r, "options"@), "userArguments"@) matches Json::Str(a) && a@
            == user_arguments@,
        lookup(lookup(r, "options"@), "compilerOptions"@) matches Json::Obj(co) && co@.len() == 2,
        lookup(lookup(lookup(r, "options"@), "compilerOptions"@), "skipAsm"@) == Json::Bool(true),
        lookup(lookup(lookup(r, "options"@), "compilerOptions"@), "executorRequest"@)
            == Json::Bool(true),
        lookup(r, "allowStoreCodeDebug"@) == Json::Bool(true),
{
    let mut compiler_options: Vec<(String, Json)> = Vec::new();
    compiler_options.push((String::from_str("skipAsm"), Json::Bool(true)));
    compiler_options.push((String::from_str("executorRequest"), Json::Bool(true)));
    let mut options: Vec<(String, Json)> = Vec::new();
    options.push(
        (String::from_str("userArguments"), Json::Str(String::from_str(user_arguments))),
    );
    options.push((String::from_str("compilerOptions"), Json::Obj(compiler_options)));
    let mut top: Vec<(String, Json)> = Vec::new();
    top.push((String::from_str("source"), Json::Str(String::from_str(source_text))));
    top.push((String::from_str("options"), Json::Obj(options)));
    top.push((String::from_str("allowStoreCodeDebug"), Json::Bool(true)));
    proof {
        reveal_strlit("source");
        reveal_strlit("options");
        reveal_strlit("userArguments");
        reveal_strlit("compilerOptions");
        reveal_strlit("skipAsm");
        reveal_strlit("executorRequest");
        reveal_strlit("allowStoreCodeDebug");
        assert(top@[0].0@ == "source"@);
        assert(top@[1].0@ == "options"@);
        assert(top@[2].0@ == "allowStoreCodeDebug"@);
        assert("source"@ != "options"@);
        assert("source"@ != "allowStoreCodeDebug"@);
        assert("options"@ != "allowStoreCodeDebug"@);
        assert(options@[0].0@ == "userArguments"@);
        assert(options@[1].0@ == "compilerOptions"@);
        assert("userArguments"@ != "compilerOptions"@);
        assert(compiler_options@[0].0@ == "skipAsm"@);
        assert(compiler_options@[1].0@ == "executorRequest"@);
        assert("skipAsm"@ != "executorRequest"@);
        lemma_lookup_cons_hit(top@, "source"@);
        lemma_lookup_cons_miss(top@, "options"@);
        assert(top@.drop_first()[0] == top@[1]);
        lemma_lookup_cons_hit(top@.drop_first(), "options"@);
        lemma_lookup_cons_miss(top@, "allowStoreCodeDebug"@);
        lemma_lookup_cons_miss(top@.drop_first(), "allowStoreCodeDebug"@);
        assert(top@.drop_first().drop_first()[0] == top@[2]);
        lemma_lookup_cons_hit(top@.drop_first().drop_first(), "allowStoreCodeDebug"@);
        lemma_lookup_cons_hit(options@, "userArguments"@);
        lemma_lookup_cons_miss(options@, "compilerOptions"@);
        assert(options@.drop_first()[0] == options@[1]);
        lemma_lookup_cons_hit(options@.drop_first(), "compilerOptions"@);
        lemma_lookup_cons_hit(compiler_options@, "skipAsm"@);
        lemma_lookup_cons_miss(compiler_options@, "executorRequest"@);
        assert(compiler_options@.drop_first()[0] == compiler_options@[1]);
        lemma_lookup_cons_hit(compiler_options@.drop_first(), "executorRequest"@);
    }
    Json::Obj(top)
}

/// What each failure reads as on the status line.
pub open spec fn spec_error_message(e: Error) -> Seq<char> {
    match e {
        Error::InvalidStream => "Invalid stream received as from compilation result"@,
        Error::NoStreamFound => "No stream found"@,
        Error::NoAsmFound => "No assembly found in output"@,
        Error::InvalidAsm => "Error parsing assembly response"@,
        Error::InvalidErrorCode => "Error parsing error code"@,
        Error::InvalidHttpResponse(body) => "Invalid HTTP response: "@ + body@,
        Error::HttpError(m) => "HTTP Error: "@ + m@,
    }
}

impl Error {
    /// The one-line description of this failure.
    pub fn message(&self) -> (r: String)
        ensures
            r@ == spec_error_message(*self),
    {
        match self {
            Error::InvalidStream => String::from_str(
                "Invalid stream received as from compilation result",
            ),
            Error::NoStreamFound => String::from_str("No stream found"),
            Error::NoAsmFound => String::from_str("No assembly found in output"),
            Error::InvalidAsm => String::from_str("Error parsing assembly response"),
            Error::InvalidErrorCode => String::from_str("Error parsing error code"),
            Error::InvalidHttpResponse(body) => String::from_str(
                "Invalid HTTP response: ",
            ).concat(body.as_str()),
            Error::HttpError(m) => String::from_str("HTTP Error: ").concat(m.as_str()),
        }
    }
}

} // verus!
