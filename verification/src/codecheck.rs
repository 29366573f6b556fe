//! Script-runner decisions: which interpreter a language tag picks,
//! and the verdict on a finished or failed run. The caller spawns the
//! interpreter and trims its streams; every decision about the result
//! stands here.

use vstd::prelude::*;
use crate::strutil::{concat2, concat3};
use crate::types::CodeValidationResponse;

verus! {

/// The interpreters a language tag can select.
#[derive(Debug, Clone, Copy, PartialEq, Eq, Structural)]
pub enum ScriptLanguage {
    Python,
    JavaScript,
    TypeScript,
}

/// Which interpreter runs code of this language; any other tag is
/// rejected with a message naming it.
pub fn script_language_for(language: String) -> (r: Result<ScriptLanguage, String>)
    ensures
        language@ == "python"@ ==> r == Ok::<ScriptLanguage, String>(ScriptLanguage::Python),
        language@ == "javascript"@ ==> r == Ok::<ScriptLanguage, String>(
            ScriptLanguage::JavaScript,
        ),
        language@ == "typescript"@ ==> r == Ok::<ScriptLanguage, String>(
            ScriptLanguage::TypeScript,
        ),
        language@ != "python"@ && language@ != "javascript"@ && language@ != "typescript"@ ==> (
        r matches Err(e) && e@ == "Unsupported language: "@ + language@),
{
    proof {
        reveal_strlit("python");
        reveal_strlit("javascript");
        reveal_strlit("typescript");
        assert("python"@.len() == 6);
        assert("javascript"@[0] == 'j');
        assert("typescript"@[0] == 't');
    }
    if language == "python".to_owned() {
        Ok(ScriptLanguage::Python)
    } else if language == "javascript".to_owned() {
        Ok(ScriptLanguage::JavaScript)
    } else if language == "typescript".to_owned() {
        Ok(ScriptLanguage::TypeScript)
    } else {
        Err(concat2("Unsupported language: ", language.as_str()))
    }
}

/// The verdict on a finished run, from its trimmed streams: anything on
/// standard error is a failure carrying that text, whatever the exit
/// status was; otherwise the run succeeded and is correct exactly when
/// the trimmed output equals the expected output.
pub fn code_validation_outcome(
    stdout_trimmed: String,
    stderr_trimmed: String,
    expected_output: &String,
) -> (r: CodeValidationResponse)
    ensures
        stderr_trimmed@.len() > 0 ==> !r.success && r.output == stderr_trimmed && (
        r.error matches Some(e) && e == stderr_trimmed) && !r.is_correct,
        stderr_trimmed@.len() == 0 ==> r.success && r.output == stdout_trimmed && r.error is None
            && r.is_correct == (stdout_trimmed@ == expected_output@),
{
    if !stderr_trimmed.as_str().is_empty() {
        let err = stderr_trimmed.clone();
        CodeValidationResponse {
            success: false,
            output: stderr_trimmed,
            error: Some(err),
            is_correct: false,
        }
    } else {
        let is_correct = stdout_trimmed == *expected_output;
        CodeValidationResponse {
            success: true,
            output: stdout_trimmed,
            error: None,
            is_correct,
        }
    }
}

/// The response when the interpreter could not be launched at all: no
/// output, the message as the error, nothing correct.
pub fn launch_failure_response(message: String) -> (r: CodeValidationResponse)
    ensures
        !r.success,
        r.output@.len() == 0,
        r.error matches Some(e) && e == message,
        !r.is_correct,
{
    CodeValidationResponse {
        success: false,
        output: String::new(),
        error: Some(message),
        is_correct: false,
    }
}

/// The message when the Python interpreter would not start.
pub fn python_launch_failure(detail: &str) -> (r: String)
    ensures
        r@ == "Nie można uruchomić Pythona: "@ + detail@
            + ". Upewnij się, że Python jest zainstalowany."@,
{
    concat3(
        "Nie można uruchomić Pythona: ",
        detail,
        ". Upewnij się, że Python jest zainstalowany.",
    )
}

/// The message when the Node.js interpreter would not start.
pub fn node_launch_failure(detail: &str) -> (r: String)
    ensures
        r@ == "Nie można uruchomić Node.js: "@ + detail@
            + ". Upewnij się, że Node.js jest zainstalowany."@,
{
    concat3(
        "Nie można uruchomić Node.js: ",
        detail,
        ". Upewnij się, że Node.js jest zainstalowany.",
    )
}

/// The message when the script could not be written out for the
/// TypeScript runner.
pub fn temp_file_failure(detail: &str) -> (r: String)
    ensures
        r@ == "Nie można zapisać pliku tymczasowego: "@ + detail@,
{
    concat2("Nie można zapisać pliku tymczasowego: ", detail)
}

/// The message when no ts-node candidate would start: it names the last
/// launch error, or `unknown error` when none was recorded.
pub fn ts_node_failure(last_err: Option<String>) -> (r: String)
    ensures
        match last_err {
            Some(e) => r@ == "Nie można znaleźć/uruchomić ts-node. Ostatni błąd: "@ + e@,
            None => r@ == "Nie można znaleźć/uruchomić ts-node. Ostatni błąd: "@
                + "unknown error"@,
        },
{
    match last_err {
        Some(e) => concat2("Nie można znaleźć/uruchomić ts-node. Ostatni błąd: ", e.as_str()),
        None => concat2("Nie można znaleźć/uruchomić ts-node. Ostatni błąd: ", "unknown error"),
    }
}

} // verus!
