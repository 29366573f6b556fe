use coursedesk::codecheck::{
    code_validation_outcome, launch_failure_response, node_launch_failure,
    python_launch_failure, script_language_for, temp_file_failure, ts_node_failure,
    ScriptLanguage,
};

#[test]
fn language_tags_select_their_interpreters() {
    assert_eq!(
        script_language_for("python".to_string()),
        Ok(ScriptLanguage::Python)
    );
    assert_eq!(
        script_language_for("javascript".to_string()),
        Ok(ScriptLanguage::JavaScript)
    );
    assert_eq!(
        script_language_for("typescript".to_string()),
        Ok(ScriptLanguage::TypeScript)
    );
}

#[test]
fn unknown_language_is_named_in_the_error() {
    assert_eq!(
        script_language_for("ruby".to_string()),
        Err("Unsupported language: ruby".to_string())
    );
}

#[test]
fn stderr_means_failure_whatever_the_output() {
    let r = code_validation_outcome(
        "42".to_string(),
        "Traceback: boom".to_string(),
        &"42".to_string(),
    );
    assert!(!r.success);
    assert_eq!(r.output, "Traceback: boom");
    assert_eq!(r.error.as_deref(), Some("Traceback: boom"));
    assert!(!r.is_correct);
}

#[test]
fn matching_output_is_correct() {
    let r = code_validation_outcome("42".to_string(), String::new(), &"42".to_string());
    assert!(r.success);
    assert_eq!(r.output, "42");
    assert!(r.error.is_none());
    assert!(r.is_correct);
}

#[test]
fn mismatched_output_succeeds_but_is_wrong() {
    let r = code_validation_outcome("41".to_string(), String::new(), &"42".to_string());
    assert!(r.success);
    assert_eq!(r.output, "41");
    assert!(r.error.is_none());
    assert!(!r.is_correct);
}

#[test]
fn launch_failure_carries_the_message() {
    let r = launch_failure_response("no interpreter".to_string());
    assert!(!r.success);
    assert_eq!(r.output, "");
    assert_eq!(r.error.as_deref(), Some("no interpreter"));
    assert!(!r.is_correct);
}

#[test]
fn launch_failure_messages_name_the_interpreter() {
    assert_eq!(
        python_launch_failure("not found"),
        "Nie można uruchomić Pythona: not found. Upewnij się, że Python jest zainstalowany."
    );
    assert_eq!(
        node_launch_failure("not found"),
        "Nie można uruchomić Node.js: not found. Upewnij się, że Node.js jest zainstalowany."
    );
    assert_eq!(
        temp_file_failure("disk full"),
        "Nie można zapisać pliku tymczasowego: disk full"
    );
    assert_eq!(
        ts_node_failure(Some("no such file".to_string())),
        "Nie można znaleźć/uruchomić ts-node. Ostatni błąd: no such file"
    );
    assert_eq!(
        ts_node_failure(None),
        "Nie można znaleźć/uruchomić ts-node. Ostatni błąd: unknown error"
    );
}
