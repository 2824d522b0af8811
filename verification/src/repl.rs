//! A small Kotlin REPL panel: an output log, an input line and a command history.
use crate::text::{
    concat2, contains, is_blank_str, owned, same_text, starts_with, trim, contains_seq, trim_seq,
};
use vstd::prelude::*;

verus! {

/// One line of the REPL's output log.
pub struct ReplOutputLine {
    pub text: String,
    pub is_error: bool,
    pub is_input: bool,
}

impl View for ReplOutputLine {
    type V = (Seq<char>, bool, bool);

    open spec fn view(&self) -> (Seq<char>, bool, bool) {
        (self.text@, self.is_error, self.is_input)
    }
}

/// A simple Kotlin REPL interface for testing scripts
pub struct KotlinREPL {
    input: String,
    output: Vec<ReplOutputLine>,
    history: Vec<String>,
    history_index: Option<usize>,
}

/// The reply text for `help`.
pub open spec fn help_text() -> Seq<char> {
    HELP_TEXT@
}

/// The text the REPL answers `help` with.
pub const HELP_TEXT: &'static str = r#"Available APIs:
- Input.isKeyPressed(KeyCode.W) - Check if key is pressed
- Input.getMouseX() - Get mouse X position
- Input.getMouseY() - Get mouse Y position
- engine.getTransform() - Get current entity transform
- transform.position - Get/set position (Vector3D)
- transform.rotation - Get/set rotation (Quaternion)
- transform.scale - Get/set scale (Vector3D)

Note: This is a simplified REPL. Full script execution requires 
attaching a script to an entity and running the game."#;

/// What the simplified evaluator answers for `code`: `Ok` with a reply text,
/// or `Err` with an error message.
pub open spec fn kotlin_reply(code: Seq<char>) -> Result<Seq<char>, Seq<char>> {
    let t = trim_seq(code);
    if "Input.isKeyPressed"@.is_prefix_of(t) {
        Ok("boolean (check console for actual value)"@)
    } else if "Input.getMouseX"@.is_prefix_of(t) || "Input.getMouseY"@.is_prefix_of(t) {
        Ok("double (check console for actual value)"@)
    } else if contains_seq(code, "Transform"@) {
        Ok("Transform manipulation (check entity in viewport)"@)
    } else if t == "help"@ {
        Ok(help_text())
    } else if t == "clear"@ {
        Err("CLEAR_SCREEN"@)
    } else {
        Ok("Command received: "@ + code + "\n(Full Kotlin evaluation not yet implemented)"@)
    }
}

/// The output log after running `code` on a log `lines`: the echoed input,
/// the reply (if it is not empty) or the error, then a blank line.
pub open spec fn lines_after_execute(
    lines: Seq<(Seq<char>, bool, bool)>,
    code: Seq<char>,
) -> Seq<(Seq<char>, bool, bool)> {
    let echoed = lines.push(("> "@ + code, false, true));
    let replied = match kotlin_reply(code) {
        Ok(r) => if r.len() == 0 {
            echoed
        } else {
            echoed.push((r, false, false))
        },
        Err(e) => echoed.push(("Error: "@ + e, true, false)),
    };
    replied.push((""@, false, false))
}

/// The history after running `code`: non-blank code is remembered.
pub open spec fn history_after_execute(history: Seq<Seq<char>>, code: Seq<char>) -> Seq<Seq<char>> {
    if trim_seq(code).len() != 0 {
        history.push(code)
    } else {
        history
    }
}

/// The banner the log starts with.
pub open spec fn banner() -> Seq<(Seq<char>, bool, bool)> {
    seq![
        ("Kotlin REPL - Ready"@, false, false),
        ("Type Kotlin expressions to test script functionality"@, false, false),
        ("Example: Input.isKeyPressed(KeyCode.W)"@, false, false),
        (""@, false, false),
    ]
}

impl KotlinREPL {
    /// A recalled position always points into the history.
    pub closed spec fn wf(&self) -> bool {
        match self.history_index {
            Some(i) => i < self.history@.len(),
            None => true,
        }
    }

    /// The output log, line by line.
    pub closed spec fn lines(&self) -> Seq<(Seq<char>, bool, bool)> {
        self.output@.map_values(|l: ReplOutputLine| l@)
    }

    /// The remembered commands, oldest first.
    pub closed spec fn history_view(&self) -> Seq<Seq<char>> {
        self.history@.map_values(|h: String| h@)
    }

    /// The current input line.
    pub closed spec fn input_view(&self) -> Seq<char> {
        self.input@
    }

    /// The position in the history that the input line was recalled from, if any.
    pub closed spec fn cursor(&self) -> Option<usize> {
        self.history_index
    }

    /// A REPL showing its banner, with empty input and history.
    pub fn new() -> (r: Self)
        ensures
            r.lines() == banner(),
            r.history_view() == Seq::<Seq<char>>::empty(),
            r.input_view() == Seq::<char>::empty(),
            r.cursor() is None,
            r.wf(),
    {
        let mut repl = KotlinREPL {
            input: String::new(),
            output: Vec::new(),
            history: Vec::new(),
            history_index: None,
        };
        repl.add_output("Kotlin REPL - Ready", false, false);
        repl.add_output("Type Kotlin expressions to test script functionality", false, false);
        repl.add_output("Example: Input.isKeyPressed(KeyCode.W)", false, false);
        repl.add_output("", false, false);
        assert(repl.lines() =~= banner());
        assert(repl.history_view() =~= Seq::<Seq<char>>::empty());
        repl
    }

    /// Appends one line to the output log.
    pub fn add_output(&mut self, text: &str, is_error: bool, is_input: bool)
        ensures
            old(self).wf() ==> final(self).wf(),
            final(self).lines() == old(self).lines().push((text@, is_error, is_input)),
            final(self).history_view() == old(self).history_view(),
            final(self).input_view() == old(self).input_view(),
            final(self).cursor() == old(self).cursor(),
    {
        let line = ReplOutputLine { text: owned(text), is_error, is_input };
        self.output.push(line);
        assert(self.lines() =~= old(self).lines().push((text@, is_error, is_input)));
    }

    /// Appends an owned line to the output log.
    fn add_output_string(&mut self, text: String, is_error: bool, is_input: bool)
        ensures
            old(self).wf() ==> final(self).wf(),
            final(self).lines() == old(self).lines().push((text@, is_error, is_input)),
            final(self).history_view() == old(self).history_view(),
            final(self).input_view() == old(self).input_view(),
            final(self).cursor() == old(self).cursor(),
    {
        let ghost t = text@;
        self.output.push(ReplOutputLine { text, is_error, is_input });
        assert(self.lines() =~= old(self).lines().push((t, is_error, is_input)));
    }

    /// Evaluates `code` with the simplified evaluator.
    pub fn execute_kotlin_code(&self, code: &str) -> (r: Result<String, String>)
        ensures
            match (r, kotlin_reply(code@)) {
                (Ok(a), Ok(b)) => a@ == b,
                (Err(a), Err(b)) => a@ == b,
                _ => false,
            },
    {
        let t = trim(code);
        if starts_with(t.as_str(), "Input.isKeyPressed") {
            Ok(owned("boolean (check console for actual value)"))
        } else if starts_with(t.as_str(), "Input.getMouseX") || starts_with(
            t.as_str(),
            "Input.getMouseY",
        ) {
            Ok(owned("double (check console for actual value)"))
        } else if contains(code, "Transform") {
            Ok(owned("Transform manipulation (check entity in viewport)"))
        } else if same_text(t.as_str(), "help") {
            Ok(owned(HELP_TEXT))
        } else if same_text(t.as_str(), "clear") {
            Err(owned("CLEAR_SCREEN"))
        } else {
            let head = concat2("Command received: ", code);
            Ok(concat2(head.as_str(), "\n(Full Kotlin evaluation not yet implemented)"))
        }
    }

    /// Runs `code`: echoes it, remembers it when it is not blank, and logs the reply.
    pub fn execute(&mut self, code: &str)
        ensures
            old(self).wf() ==> final(self).wf(),
            final(self).lines() == lines_after_execute(old(self).lines(), code@),
            final(self).history_view() == history_after_execute(old(self).history_view(), code@),
            final(self).input_view() == old(self).input_view(),
            trim_seq(code@).len() != 0 ==> final(self).cursor() is None,
            trim_seq(code@).len() == 0 ==> final(self).cursor() == old(self).cursor(),
    {
        let echo = concat2("> ", code);
        self.add_output_string(echo, false, true);
        if !is_blank_str(code) {
            let ghost before = self.history_view();
            self.history.push(owned(code));
            self.history_index = None;
            assert(self.history_view() =~= before.push(code@));
        }
        match self.execute_kotlin_code(code) {
            Ok(result) => {
                if result.unicode_len() != 0 {
                    self.add_output_string(result, false, false);
                }
            },
            Err(e) => {
                let msg = concat2("Error: ", e.as_str());
                self.add_output_string(msg, true, false);
            },
        }
        self.add_output("", false, false);
    }

    /// Empties the log and shows the ready line again.
    pub fn clear_output(&mut self)
        ensures
            old(self).wf() ==> final(self).wf(),
            final(self).lines() == seq![("Kotlin REPL - Ready"@, false, false)],
            final(self).history_view() == old(self).history_view(),
            final(self).input_view() == old(self).input_view(),
            final(self).cursor() == old(self).cursor(),
    {
        self.output.clear();
        assert(self.lines() =~= Seq::<(Seq<char>, bool, bool)>::empty());
        self.add_output("Kotlin REPL - Ready", false, false);
        assert(self.lines() =~= seq![("Kotlin REPL - Ready"@, false, false)]);
    }

    /// Replaces the input line (what the user typed).
    pub fn set_input(&mut self, text: &str)
        ensures
            old(self).wf() ==> final(self).wf(),
            final(self).input_view() == text@,
            final(self).lines() == old(self).lines(),
            final(self).history_view() == old(self).history_view(),
            final(self).cursor() == old(self).cursor(),
    {
        self.input = owned(text);
    }

    /// The input line.
    pub fn input(&self) -> (r: &String)
        ensures
            r@ == self.input_view(),
    {
        &self.input
    }

    /// The output log.
    pub fn output(&self) -> (r: &Vec<ReplOutputLine>)
        ensures
            r@.map_values(|l: ReplOutputLine| l@) == self.lines(),
    {
        &self.output
    }

    /// The history of commands, oldest first.
    pub fn history(&self) -> (r: &Vec<String>)
        ensures
            r@.map_values(|h: String| h@) == self.history_view(),
    {
        &self.history
    }

    /// Enter in the input line: the line is taken out of the input; `clear`
    /// empties the log, anything else is executed.
    pub fn submit(&mut self)
        ensures
            old(self).wf() ==> final(self).wf(),
            final(self).input_view() == Seq::<char>::empty(),
            trim_seq(old(self).input_view()) == "clear"@ ==> {
                &&& final(self).lines() == seq![("Kotlin REPL - Ready"@, false, false)]
                &&& final(self).history_view() == old(self).history_view()
            },
            trim_seq(old(self).input_view()) != "clear"@ ==> {
                &&& final(self).lines() == lines_after_execute(
                    old(self).lines(),
                    old(self).input_view(),
                )
                &&& final(self).history_view() == history_after_execute(
                    old(self).history_view(),
                    old(self).input_view(),
                )
            },
    {
        let code = self.take_input();
        let t = trim(code.as_str());
        if same_text(t.as_str(), "clear") {
            self.clear_output();
        } else {
            self.execute(code.as_str());
        }
    }

    /// The Execute button: a non-empty input line is taken out and executed.
    pub fn execute_input(&mut self)
        ensures
            old(self).wf() ==> final(self).wf(),
            old(self).input_view().len() == 0 ==> final(self).lines() == old(self).lines()
                && final(self).history_view() == old(self).history_view()
                && final(self).input_view() == old(self).input_view(),
            old(self).input_view().len() != 0 ==> {
                &&& final(self).input_view() == Seq::<char>::empty()
                &&& final(self).lines() == lines_after_execute(
                    old(self).lines(),
                    old(self).input_view(),
                )
                &&& final(self).history_view() == history_after_execute(
                    old(self).history_view(),
                    old(self).input_view(),
                )
            },
    {
        if self.input.unicode_len() != 0 {
            let code = self.take_input();
            self.execute(code.as_str());
        }
    }

    fn take_input(&mut self) -> (code: String)
        ensures
            old(self).wf() ==> final(self).wf(),
            code@ == old(self).input_view(),
            final(self).input_view() == Seq::<char>::empty(),
            final(self).lines() == old(self).lines(),
            final(self).history_view() == old(self).history_view(),
            final(self).cursor() == old(self).cursor(),
    {
        let code = self.input.clone();
        self.input = String::new();
        code
    }

    /// Arrow up: recall the previous command (the newest one when nothing is recalled yet).
    pub fn history_up(&mut self)
        requires
            old(self).wf(),
        ensures
            final(self).wf(),
            final(self).lines() == old(self).lines(),
            final(self).history_view() == old(self).history_view(),
            old(self).history_view().len() == 0 ==> final(self).input_view() == old(self).input_view() && final(self).cursor() == old(self).cursor(),
            old(self).history_view().len() > 0 ==> match old(self).cursor() {
                None => {
                    &&& final(self).cursor() == Some((old(self).history_view().len() - 1) as usize)
                    &&& final(self).input_view() == old(self).history_view().last()
                },
                Some(i) => if i > 0 {
                    &&& final(self).cursor() == Some((i - 1) as usize)
                    &&& final(self).input_view() == old(self).history_view()[i - 1]
                } else {
                    &&& final(self).cursor() == old(self).cursor()
                    &&& final(self).input_view() == old(self).input_view()
                },
            },
    {
        if self.history.len() == 0 {
            return ;
        }
        match self.history_index {
            Some(idx) => {
                if idx > 0 && idx - 1 < self.history.len() {
                    self.history_index = Some(idx - 1);
                    self.input = self.history[idx - 1].clone();
                }
            },
            None => {
                let last = self.history.len() - 1;
                self.history_index = Some(last);
                self.input = self.history[last].clone();
            },
        }
    }

    /// Arrow down: recall the next command, or leave the history with an empty input line.
    pub fn history_down(&mut self)
        requires
            old(self).wf(),
        ensures
            final(self).wf(),
            final(self).lines() == old(self).lines(),
            final(self).history_view() == old(self).history_view(),
            match old(self).cursor() {
                None => final(self).cursor() is None && final(self).input_view() == old(self).input_view(),
                Some(i) => if i + 1 < old(self).history_view().len() {
                    &&& final(self).cursor() == Some((i + 1) as usize)
                    &&& final(self).input_view() == old(self).history_view()[i + 1]
                } else {
                    &&& final(self).cursor() is None
                    &&& final(self).input_view() == Seq::<char>::empty()
                },
            },
    {
        if let Some(idx) = self.history_index {
            if self.history.len() > 0 && idx < self.history.len() - 1 {
                self.history_index = Some(idx + 1);
                self.input = self.history[idx + 1].clone();
            } else {
                self.history_index = None;
                self.input = String::new();
            }
        }
    }
}

/// `clear` (around any whitespace) is answered with the clear-screen error,
/// `help` with the help text, and any reply is either one of the evaluator's
/// fixed answers or echoes the code back.
pub proof fn law_kotlin_reply(code: Seq<char>)
    ensures
        trim_seq(code) == "clear"@ && !contains_seq(code, "Transform"@) ==> kotlin_reply(code)
            == Err::<Seq<char>, Seq<char>>("CLEAR_SCREEN"@),
        trim_seq(code) == "help"@ && !contains_seq(code, "Transform"@) ==> kotlin_reply(code)
            == Ok::<Seq<char>, Seq<char>>(HELP_TEXT@),
        kotlin_reply(code) is Err ==> trim_seq(code) == "clear"@,
{
    reveal_strlit("clear");
    reveal_strlit("help");
    reveal_strlit("Input.isKeyPressed");
    reveal_strlit("Input.getMouseX");
    reveal_strlit("Input.getMouseY");
    let t = trim_seq(code);
    if t == "clear"@ || t == "help"@ {
        assert(!"Input.isKeyPressed"@.is_prefix_of(t));
        assert(!"Input.getMouseX"@.is_prefix_of(t));
        assert(!"Input.getMouseY"@.is_prefix_of(t));
    }
}

/// Running code keeps the log so far, then echoes the code as an input
/// line, then (for a non-empty reply) the reply or the error, then a blank
/// line; only non-blank code is remembered, and it goes last.
pub proof fn law_execute(lines: Seq<(Seq<char>, bool, bool)>, history: Seq<Seq<char>>, code: Seq<char>)
    ensures
        ({
            let out = lines_after_execute(lines, code);
            &&& out.len() == lines.len() + 2 || out.len() == lines.len() + 3
            &&& out.subrange(0, lines.len() as int) == lines
            &&& out[lines.len() as int] == ("> "@ + code, false, true)
            &&& out.last() == (""@, false, false)
            &&& (kotlin_reply(code) matches Err(e) ==> out.len() == lines.len() + 3
                && out[lines.len() + 1int] == ("Error: "@ + e, true, false))
        }),
        history_after_execute(history, code) == (if trim_seq(code).len() != 0 {
            history.push(code)
        } else {
            history
        }),
{
    let out = lines_after_execute(lines, code);
    assert(out.subrange(0, lines.len() as int) =~= lines);
}

impl Default for KotlinREPL {
    /// The same as [`KotlinREPL::new`]: the banner, with empty input and history.
    fn default() -> (r: Self)
        ensures
            r.lines() == banner(),
            r.history_view() == Seq::<Seq<char>>::empty(),
            r.input_view() == Seq::<char>::empty(),
            r.cursor() is None,
            r.wf(),
    {
        KotlinREPL::new()
    }
}

} // verus!
