use eucalyptus::repl::{KotlinREPL, HELP_TEXT};

fn texts(r: &KotlinREPL) -> Vec<String> {
    r.output().iter().map(|l| l.text.clone()).collect()
}

#[test]
fn new_repl_shows_banner() {
    let r = KotlinREPL::new();
    assert_eq!(
        texts(&r),
        vec![
            "Kotlin REPL - Ready".to_string(),
            "Type Kotlin expressions to test script functionality".to_string(),
            "Example: Input.isKeyPressed(KeyCode.W)".to_string(),
            "".to_string(),
        ]
    );
    assert!(r.output().iter().all(|l| !l.is_error && !l.is_input));
    assert!(r.history().is_empty());
    assert_eq!(r.input().as_str(), "");
}

#[test]
fn evaluator_replies() {
    let r = KotlinREPL::new();
    assert_eq!(
        r.execute_kotlin_code("  Input.isKeyPressed(KeyCode.W)").unwrap(),
        "boolean (check console for actual value)"
    );
    assert_eq!(
        r.execute_kotlin_code("Input.getMouseY()").unwrap(),
        "double (check console for actual value)"
    );
    assert_eq!(
        r.execute_kotlin_code("val t = Transform()").unwrap(),
        "Transform manipulation (check entity in viewport)"
    );
    assert_eq!(r.execute_kotlin_code(" help \n").unwrap(), HELP_TEXT);
    assert_eq!(r.execute_kotlin_code("clear").unwrap_err(), "CLEAR_SCREEN");
    assert_eq!(
        r.execute_kotlin_code("1 + 1").unwrap(),
        "Command received: 1 + 1\n(Full Kotlin evaluation not yet implemented)"
    );
}

#[test]
fn execute_logs_input_reply_and_blank_line() {
    let mut r = KotlinREPL::new();
    r.execute("help");
    let t = texts(&r);
    assert_eq!(t.len(), 7);
    assert_eq!(t[4], "> help");
    assert!(r.output()[4].is_input);
    assert_eq!(t[5], HELP_TEXT);
    assert_eq!(t[6], "");
    assert_eq!(r.history(), &vec!["help".to_string()]);
}

#[test]
fn execute_clear_is_an_error_line() {
    let mut r = KotlinREPL::new();
    r.execute("clear");
    let out = r.output();
    assert_eq!(out[5].text, "Error: CLEAR_SCREEN");
    assert!(out[5].is_error);
}

#[test]
fn blank_code_is_not_remembered() {
    let mut r = KotlinREPL::new();
    r.execute("   ");
    assert!(r.history().is_empty());
    assert_eq!(texts(&r)[4], ">    ");
    assert_eq!(texts(&r)[5], "Command received:    \n(Full Kotlin evaluation not yet implemented)");
}

#[test]
fn submit_clear_empties_the_log() {
    let mut r = KotlinREPL::new();
    r.execute("help");
    r.set_input(" clear ");
    r.submit();
    assert_eq!(texts(&r), vec!["Kotlin REPL - Ready".to_string()]);
    assert_eq!(r.input().as_str(), "");
    assert_eq!(r.history().len(), 1);
}

#[test]
fn execute_button_ignores_empty_input() {
    let mut r = KotlinREPL::new();
    r.execute_input();
    assert_eq!(r.output().len(), 4);
    r.set_input("x");
    r.execute_input();
    assert_eq!(r.output().len(), 7);
    assert_eq!(r.input().as_str(), "");
}

#[test]
fn history_navigation() {
    let mut r = KotlinREPL::new();
    r.execute("a");
    r.execute("b");
    r.history_up();
    assert_eq!(r.input().as_str(), "b");
    r.history_up();
    assert_eq!(r.input().as_str(), "a");
    r.history_up();
    assert_eq!(r.input().as_str(), "a");
    r.history_down();
    assert_eq!(r.input().as_str(), "b");
    r.history_down();
    assert_eq!(r.input().as_str(), "");
    r.history_down();
    assert_eq!(r.input().as_str(), "");
}

#[test]
fn history_up_on_empty_history_keeps_input() {
    let mut r = KotlinREPL::new();
    r.set_input("typing");
    r.history_up();
    assert_eq!(r.input().as_str(), "typing");
}

#[test]
fn clear_output_shows_ready_line() {
    let mut r = KotlinREPL::new();
    r.clear_output();
    assert_eq!(texts(&r), vec!["Kotlin REPL - Ready".to_string()]);
}

#[test]
fn repl_default_is_new() {
    let d = KotlinREPL::default();
    let n = KotlinREPL::new();
    let texts = |r: &KotlinREPL| r.output().iter().map(|l| (l.text.clone(), l.is_error, l.is_input)).collect::<Vec<_>>();
    assert_eq!(texts(&d), texts(&n));
    assert_eq!(d.output().len(), 4);
    assert_eq!(d.input(), "");
    assert!(d.history().is_empty());
}
