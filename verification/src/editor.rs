//! The program that edits images. It is run without a shell: it must wait until
//! editing is over and write a PNG image to the output. No output means that
//! the edit was cancelled.
use crate::text;
use vstd::prelude::*;
use vstd::string::*;

verus! {

/// The argument that stands for the image to edit.
pub open spec fn input_placeholder() -> Seq<char> {
    "{input}"@
}

/// The argument that stands for the image to write.
pub open spec fn output_placeholder() -> Seq<char> {
    "{output}"@
}

/// How the editor is run: its program, then its arguments.
#[derive(Debug, PartialEq, Eq)]
pub struct ImageEditorCommand {
    pub argv: Vec<String>,
}

/// A program and its arguments.
#[derive(Debug, PartialEq, Eq)]
pub struct EditorCall {
    pub program: String,
    pub arguments: Vec<String>,
}

/// The words of a JSON array of strings, where the text is one.
pub uninterp spec fn json_words(text: Seq<char>) -> Option<Seq<Seq<char>>>;

/// `serde_json::from_str` into a list of strings: the words are a function of
/// the text.
#[verifier::external_body]
fn json_strings(value: &str) -> (words: Option<Vec<String>>)
    ensures
        match words {
            Some(words) => json_words(value@) == Some(text::contents(words@)),
            None => json_words(value@) is None,
        },
{
    serde_json::from_str(value).ok()
}

/// One of the arguments, which follow the program, is `word`.
pub open spec fn has_argument(argv: Seq<Seq<char>>, word: Seq<char>) -> bool {
    exists|i: int| 1 <= i < argv.len() && argv[i] == word
}

/// Why this is no way to run an editor, where it is none.
pub open spec fn command_refusal(argv: Seq<Seq<char>>) -> Option<Seq<char>> {
    if argv.len() == 0 || argv[0].len() == 0 {
        Some("command must name an executable"@)
    } else if !has_argument(argv, input_placeholder()) {
        Some("command is missing the {input} argument"@)
    } else if !has_argument(argv, output_placeholder()) {
        Some("command is missing the {output} argument"@)
    } else {
        None
    }
}

/// The argument with the paths in the places of their placeholders.
pub open spec fn substituted(word: Seq<char>, input: Seq<char>, output: Seq<char>) -> Seq<char> {
    if word == input_placeholder() {
        input
    } else if word == output_placeholder() {
        output
    } else {
        word
    }
}

/// Whether one of the arguments is `word`.
fn names(argv: &Vec<String>, word: &str) -> (named: bool)
    ensures
        named == has_argument(text::contents(argv@), word@),
{
    let mut at: usize = 1;
    while at < argv.len()
        invariant
            1 <= at,
            forall|i: int| 1 <= i < at && i < argv@.len() ==> (#[trigger] argv@[i])@ != word@,
        decreases argv@.len() - at,
    {
        if text::same(argv[at].as_str(), word) {
            assert(text::contents(argv@)[at as int] == word@);
            return true;
        }
        at = at + 1;
    }
    assert forall|i: int| 1 <= i < argv@.len() implies text::contents(argv@)[i] != word@ by {
        assert(argv@[i]@ != word@);
    }
    false
}

impl ImageEditorCommand {
    /// The program is named, and both placeholders are among its arguments.
    pub open spec fn wf(self) -> bool {
        command_refusal(text::contents(self.argv@)) is None
    }

    /// Accepts the words of a command.
    pub fn new(argv: Vec<String>) -> (command: Result<Self, String>)
        ensures
            match command {
                Ok(command) => command.wf() && command.argv == argv,
                Err(message) => command_refusal(text::contents(argv@)) == Some(message@),
            },
    {
        if argv.len() == 0 || text::same(argv[0].as_str(), "") {
            proof {
                reveal_strlit("");
                if argv@.len() > 0 {
                    assert(text::contents(argv@)[0].len() == 0);
                }
            }
            return Err("command must name an executable".to_owned());
        }
        proof {
            reveal_strlit("");
            if text::contents(argv@)[0].len() == 0 {
                assert(argv@[0]@ =~= ""@);
            }
        }
        if !names(&argv, "{input}") {
            return Err("command is missing the {input} argument".to_owned());
        }
        if !names(&argv, "{output}") {
            return Err("command is missing the {output} argument".to_owned());
        }
        Ok(ImageEditorCommand { argv })
    }

    /// Accepts the words of a command, where there are any.
    pub fn from_words(words: Option<Vec<String>>) -> (command: Result<Self, String>)
        ensures
            match (words, command) {
                (Some(words), Ok(command)) => command.wf() && command.argv == words,
                (Some(words), Err(message)) => command_refusal(text::contents(words@)) == Some(
                    message@,
                ),
                (None, command) => command matches Err(message) && message@
                    == "command must be a JSON array of strings"@,
            },
    {
        match words {
            Some(words) => ImageEditorCommand::new(words),
            None => Err("command must be a JSON array of strings".to_owned()),
        }
    }

    /// Reads a command from a JSON array.
    pub fn from_json(value: &str) -> (command: Result<Self, String>)
        ensures
            match (json_words(value@), command) {
                (Some(words), Ok(command)) => command.wf() && text::contents(command.argv@)
                    == words,
                (Some(words), Err(message)) => command_refusal(words) == Some(message@),
                (None, command) => command matches Err(message) && message@
                    == "command must be a JSON array of strings"@,
            },
    {
        ImageEditorCommand::from_words(json_strings(value))
    }

    /// The command that is configured, where it is one, else the default.
    /// `value` is what the configuration holds; nothing where it is no text.
    pub fn configured(value: Option<&str>) -> (command: Self)
        ensures
            command.wf(),
            ({
                let words = match value {
                    Some(value) => json_words(value@),
                    None => None,
                };
                if words is Some && command_refusal(words->0) is None {
                    text::contents(command.argv@) == words->0
                } else {
                    text::contents(command.argv@) == default_argv()
                }
            }),
    {
        if let Some(value) = value {
            if let Ok(command) = ImageEditorCommand::from_json(value) {
                return command;
            }
        }
        ImageEditorCommand::default()
    }

    /// What is run to edit `input` into `output`: each path is one argument,
    /// whatever it holds.
    pub fn command(&self, input: &str, output: &str) -> (call: EditorCall)
        requires
            self.wf(),
        ensures
            call.program == self.argv@[0],
            text::contents(call.arguments@) == Seq::new(
                (self.argv@.len() - 1) as nat,
                |i: int| substituted(self.argv@[i + 1]@, input@, output@),
            ),
    {
        let mut arguments: Vec<String> = Vec::new();
        let mut at: usize = 1;
        while at < self.argv.len()
            invariant
                1 <= at <= self.argv@.len(),
                arguments@.len() == at - 1,
                forall|i: int|
                    0 <= i < at - 1 ==> (#[trigger] arguments@[i])@ == substituted(
                        self.argv@[i + 1]@,
                        input@,
                        output@,
                    ),
            decreases self.argv@.len() - at,
        {
            let word = self.argv[at].as_str();
            if text::same(word, "{input}") {
                arguments.push(input.to_owned());
            } else if text::same(word, "{output}") {
                arguments.push(output.to_owned());
            } else {
                arguments.push(word.to_owned());
            }
            at = at + 1;
        }
        assert(text::contents(arguments@) =~= Seq::new(
            (self.argv@.len() - 1) as nat,
            |i: int| substituted(self.argv@[i + 1]@, input@, output@),
        ));
        EditorCall { program: self.argv[0].clone(), arguments }
    }
}

/// The words of the command where none is configured. Its copy button writes
/// the output without taking over the clipboard.
pub open spec fn default_argv() -> Seq<Seq<char>> {
    seq![
        "satty"@,
        "--filename"@,
        "{input}"@,
        "--output-filename"@,
        "{output}"@,
        "--resize"@,
        "smart"@,
        "--early-exit"@,
        "--actions-on-enter"@,
        "save-to-file"@,
        "--actions-on-escape"@,
        "exit"@,
        "--actions-on-right-click"@,
        "save-to-file"@,
        "--save-after-copy"@,
        "--copy-command"@,
        "cat >/dev/null"@,
    ]
}

impl Default for ImageEditorCommand {
    fn default() -> (command: Self)
        ensures
            command.wf(),
            text::contents(command.argv@) == default_argv(),
    {
        let argv: Vec<String> = vec![
            "satty".to_owned(),
            "--filename".to_owned(),
            "{input}".to_owned(),
            "--output-filename".to_owned(),
            "{output}".to_owned(),
            "--resize".to_owned(),
            "smart".to_owned(),
            "--early-exit".to_owned(),
            "--actions-on-enter".to_owned(),
            "save-to-file".to_owned(),
            "--actions-on-escape".to_owned(),
            "exit".to_owned(),
            "--actions-on-right-click".to_owned(),
            "save-to-file".to_owned(),
            "--save-after-copy".to_owned(),
            "--copy-command".to_owned(),
            "cat >/dev/null".to_owned(),
        ];
        proof {
            reveal_strlit("satty");
            assert(text::contents(argv@) =~= default_argv());
            assert(default_argv()[2] == input_placeholder());
            assert(default_argv()[4] == output_placeholder());
        }
        ImageEditorCommand { argv }
    }
}

/// Every command hands the editor both paths.
pub proof fn both_paths_reach_the_editor(
    argv: Seq<Seq<char>>,
    input: Seq<char>,
    output: Seq<char>,
)
    requires
        command_refusal(argv) is None,
    ensures
        exists|i: int| 1 <= i < argv.len() && #[trigger] substituted(argv[i], input, output) == input,
        exists|i: int| 1 <= i < argv.len() && #[trigger] substituted(argv[i], input, output) == output,
{
    let i = choose|i: int| 1 <= i < argv.len() && argv[i] == input_placeholder();
    assert(substituted(argv[i], input, output) == input);
    let j = choose|j: int| 1 <= j < argv.len() && argv[j] == output_placeholder();
    reveal_strlit("{input}");
    reveal_strlit("{output}");
    assert(input_placeholder().len() != output_placeholder().len());
    assert(substituted(argv[j], input, output) == output);
}

} // verus!
