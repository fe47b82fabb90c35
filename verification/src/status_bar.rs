//! Status bar data: the cursor display, language detection from a file
//! extension, and document counts. Painting the bar is the host view's
//! business.

use vstd::prelude::*;
use crate::casefold::fold_chars;
use crate::casefold::fold_seq;
use crate::cursor::CursorPosition;
use crate::text::chars_eq_str;
use crate::text::str_to_chars;
use vstd::string::StringExecFns;

verus! {

/// The language label chosen for a case-folded file extension.
pub open spec fn language_spec(lower: Seq<char>) -> Seq<char> {
    if lower == "rs"@ {
        "Rust"@
    } else if lower == "js"@ {
        "JavaScript"@
    } else if lower == "ts"@ {
        "TypeScript"@
    } else if lower == "jsx"@ {
        "JavaScript React"@
    } else if lower == "tsx"@ {
        "TypeScript React"@
    } else if lower == "py"@ {
        "Python"@
    } else if lower == "json"@ {
        "JSON"@
    } else if lower == "toml"@ {
        "TOML"@
    } else if lower == "yaml"@ || lower == "yml"@ {
        "YAML"@
    } else if lower == "md"@ {
        "Markdown"@
    } else if lower == "html"@ {
        "HTML"@
    } else if lower == "css"@ {
        "CSS"@
    } else if lower == "scss"@ || lower == "sass"@ {
        "SCSS"@
    } else if lower == "java"@ {
        "Java"@
    } else if lower == "c"@ {
        "C"@
    } else if lower == "cpp"@ || lower == "cc"@ || lower == "cxx"@ {
        "C++"@
    } else if lower == "h"@ || lower == "hpp"@ {
        "C/C++ Header"@
    } else if lower == "go"@ {
        "Go"@
    } else if lower == "rb"@ {
        "Ruby"@
    } else if lower == "php"@ {
        "PHP"@
    } else if lower == "sh"@ || lower == "bash"@ {
        "Shell Script"@
    } else if lower == "sql"@ {
        "SQL"@
    } else if lower == "xml"@ {
        "XML"@
    } else if lower == "txt"@ {
        "Plain Text"@
    } else {
        "Plain Text"@
    }
}

/// Detect the language label from a file extension; the lookup is
/// case-insensitive.
pub fn detect_language(ext: &str) -> (r: &'static str)
    ensures
        r@ == language_spec(fold_seq(ext@, false)),
{
    let chars = str_to_chars(ext);
    let lower = fold_chars(&chars, false);
    if chars_eq_str(&lower, "rs") {
        "Rust"
    } else if chars_eq_str(&lower, "js") {
        "JavaScript"
    } else if chars_eq_str(&lower, "ts") {
        "TypeScript"
    } else if chars_eq_str(&lower, "jsx") {
        "JavaScript React"
    } else if chars_eq_str(&lower, "tsx") {
        "TypeScript React"
    } else if chars_eq_str(&lower, "py") {
        "Python"
    } else if chars_eq_str(&lower, "json") {
        "JSON"
    } else if chars_eq_str(&lower, "toml") {
        "TOML"
    } else if chars_eq_str(&lower, "yaml") || chars_eq_str(&lower, "yml") {
        "YAML"
    } else if chars_eq_str(&lower, "md") {
        "Markdown"
    } else if chars_eq_str(&lower, "html") {
        "HTML"
    } else if chars_eq_str(&lower, "css") {
        "CSS"
    } else if chars_eq_str(&lower, "scss") || chars_eq_str(&lower, "sass") {
        "SCSS"
    } else if chars_eq_str(&lower, "java") {
        "Java"
    } else if chars_eq_str(&lower, "c") {
        "C"
    } else if chars_eq_str(&lower, "cpp") || chars_eq_str(&lower, "cc") || chars_eq_str(&lower, "cxx") {
        "C++"
    } else if chars_eq_str(&lower, "h") || chars_eq_str(&lower, "hpp") {
        "C/C++ Header"
    } else if chars_eq_str(&lower, "go") {
        "Go"
    } else if chars_eq_str(&lower, "rb") {
        "Ruby"
    } else if chars_eq_str(&lower, "php") {
        "PHP"
    } else if chars_eq_str(&lower, "sh") || chars_eq_str(&lower, "bash") {
        "Shell Script"
    } else if chars_eq_str(&lower, "sql") {
        "SQL"
    } else if chars_eq_str(&lower, "xml") {
        "XML"
    } else if chars_eq_str(&lower, "txt") {
        "Plain Text"
    } else {
        "Plain Text"
    }
}

/// Information displayed in the status bar.
pub struct StatusBarInfo {
    pub cursor: CursorPosition,
    pub language: String,
    pub encoding: String,
    pub line_ending: String,
    pub total_lines: usize,
    pub total_chars: usize,
}

impl Default for StatusBarInfo {
    fn default() -> (r: Self)
        ensures
            r.cursor == (CursorPosition { line: 0, column: 0, offset: 0 }),
            r.language@ == "Plain Text"@,
            r.encoding@ == "UTF-8"@,
            r.line_ending@ == "LF"@,
            r.total_lines == 0,
            r.total_chars == 0,
    {
        StatusBarInfo {
            cursor: CursorPosition::default(),
            language: String::from_str("Plain Text"),
            encoding: String::from_str("UTF-8"),
            line_ending: String::from_str("LF"),
            total_lines: 0,
            total_chars: 0,
        }
    }
}

/// The status bar widget's data; the host view paints it.
pub struct StatusBar {
    pub info: StatusBarInfo,
    pub file_name: Option<String>,
}

impl StatusBar {
    pub fn new(info: StatusBarInfo) -> (r: Self)
        ensures
            r.info == info,
            r.file_name is None,
    {
        StatusBar { info, file_name: None }
    }

    pub fn file_name(self, name: Option<String>) -> (r: Self)
        ensures
            r.info == self.info,
            r.file_name == name,
    {
        StatusBar { info: self.info, file_name: name }
    }
}

} // verus!
