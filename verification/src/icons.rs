//! File icons for the explorer and the tab bar: a pure lookup from the
//! case-folded file name to a small glyph.

use vstd::prelude::*;
use crate::casefold::fold_chars;
use crate::casefold::fold_seq;
use crate::text::chars_ends_with;
use crate::text::chars_eq_str;
use crate::text::chars_starts_with;
use crate::text::seq_ends_with;
use crate::text::seq_starts_with;
use crate::text::str_to_chars;

verus! {

pub const FOLDER_ICON: &'static str = "📁";

/// The icon chosen for a case-folded file name.
pub open spec fn icon_spec(lower: Seq<char>) -> Seq<char> {
    if seq_ends_with(lower, ".rs"@) {
        "🦀"@
    } else if seq_ends_with(lower, ".toml"@) {
        "⚙️"@
    } else if seq_ends_with(lower, ".yaml"@) || seq_ends_with(lower, ".yml"@) {
        "⚙️"@
    } else if seq_ends_with(lower, ".json"@) {
        "{ }"@
    } else if seq_ends_with(lower, ".xml"@) {
        "📋"@
    } else if seq_ends_with(lower, ".ini"@) || seq_ends_with(lower, ".cfg"@) {
        "⚙️"@
    } else if seq_ends_with(lower, ".env"@) {
        "🔐"@
    } else if seq_ends_with(lower, ".html"@) || seq_ends_with(lower, ".htm"@) {
        "🌐"@
    } else if seq_ends_with(lower, ".css"@) || seq_ends_with(lower, ".scss"@) || seq_ends_with(lower, ".sass"@) {
        "🎨"@
    } else if seq_ends_with(lower, ".js"@) {
        "JS"@
    } else if seq_ends_with(lower, ".ts"@) {
        "TS"@
    } else if seq_ends_with(lower, ".jsx"@) || seq_ends_with(lower, ".tsx"@) {
        "⚛️"@
    } else if seq_ends_with(lower, ".vue"@) {
        "V"@
    } else if seq_ends_with(lower, ".svelte"@) {
        "S"@
    } else if seq_ends_with(lower, ".py"@) {
        "🐍"@
    } else if seq_ends_with(lower, ".go"@) {
        "Go"@
    } else if seq_ends_with(lower, ".java"@) {
        "☕"@
    } else if seq_ends_with(lower, ".kt"@) || seq_ends_with(lower, ".kts"@) {
        "K"@
    } else if seq_ends_with(lower, ".c"@) || seq_ends_with(lower, ".h"@) {
        "C"@
    } else if seq_ends_with(lower, ".cpp"@) || seq_ends_with(lower, ".hpp"@) || seq_ends_with(lower, ".cc"@) {
        "C+"@
    } else if seq_ends_with(lower, ".cs"@) {
        "C#"@
    } else if seq_ends_with(lower, ".rb"@) {
        "💎"@
    } else if seq_ends_with(lower, ".php"@) {
        "🐘"@
    } else if seq_ends_with(lower, ".swift"@) {
        "🐦"@
    } else if seq_ends_with(lower, ".sh"@) || seq_ends_with(lower, ".bash"@) {
        "🐚"@
    } else if seq_ends_with(lower, ".ps1"@) {
        "PS"@
    } else if seq_ends_with(lower, ".sql"@) {
        "🗃️"@
    } else if seq_ends_with(lower, ".md"@) || seq_ends_with(lower, ".markdown"@) {
        "📝"@
    } else if seq_ends_with(lower, ".txt"@) {
        "📄"@
    } else if seq_ends_with(lower, ".pdf"@) {
        "📕"@
    } else if seq_ends_with(lower, ".doc"@) || seq_ends_with(lower, ".docx"@) {
        "📘"@
    } else if seq_ends_with(lower, ".csv"@) {
        "📊"@
    } else if seq_ends_with(lower, ".xlsx"@) || seq_ends_with(lower, ".xls"@) {
        "📊"@
    } else if seq_ends_with(lower, ".png"@) || seq_ends_with(lower, ".jpg"@) || seq_ends_with(lower, ".jpeg"@) || seq_ends_with(lower, ".gif"@) || seq_ends_with(lower, ".svg"@) || seq_ends_with(lower, ".ico"@) {
        "🖼️"@
    } else if seq_ends_with(lower, ".lock"@) {
        "🔒"@
    } else if lower == "cargo.lock"@ {
        "🔒"@
    } else if lower == ".gitignore"@ || lower == ".gitattributes"@ {
        "🔀"@
    } else if lower == "dockerfile"@ || seq_ends_with(lower, ".dockerfile"@) {
        "🐳"@
    } else if seq_starts_with(lower, "docker-compose"@) {
        "🐳"@
    } else {
        "📄"@
    }
}

/// The icon shown for a file name; the lookup is case-insensitive.
pub fn get_icon(filename: &str) -> (r: &'static str)
    ensures
        r@ == icon_spec(fold_seq(filename@, false)),
{
    let chars = str_to_chars(filename);
    let lower = fold_chars(&chars, false);
    if chars_ends_with(&lower, ".rs") {
        "🦀"
    } else if chars_ends_with(&lower, ".toml") {
        "⚙️"
    } else if chars_ends_with(&lower, ".yaml") || chars_ends_with(&lower, ".yml") {
        "⚙️"
    } else if chars_ends_with(&lower, ".json") {
        "{ }"
    } else if chars_ends_with(&lower, ".xml") {
        "📋"
    } else if chars_ends_with(&lower, ".ini") || chars_ends_with(&lower, ".cfg") {
        "⚙️"
    } else if chars_ends_with(&lower, ".env") {
        "🔐"
    } else if chars_ends_with(&lower, ".html") || chars_ends_with(&lower, ".htm") {
        "🌐"
    } else if chars_ends_with(&lower, ".css") || chars_ends_with(&lower, ".scss") || chars_ends_with(&lower, ".sass") {
        "🎨"
    } else if chars_ends_with(&lower, ".js") {
        "JS"
    } else if chars_ends_with(&lower, ".ts") {
        "TS"
    } else if chars_ends_with(&lower, ".jsx") || chars_ends_with(&lower, ".tsx") {
        "⚛️"
    } else if chars_ends_with(&lower, ".vue") {
        "V"
    } else if chars_ends_with(&lower, ".svelte") {
        "S"
    } else if chars_ends_with(&lower, ".py") {
        "🐍"
    } else if chars_ends_with(&lower, ".go") {
        "Go"
    } else if chars_ends_with(&lower, ".java") {
        "☕"
    } else if chars_ends_with(&lower, ".kt") || chars_ends_with(&lower, ".kts") {
        "K"
    } else if chars_ends_with(&lower, ".c") || chars_ends_with(&lower, ".h") {
        "C"
    } else if chars_ends_with(&lower, ".cpp") || chars_ends_with(&lower, ".hpp") || chars_ends_with(&lower, ".cc") {
        "C+"
    } else if chars_ends_with(&lower, ".cs") {
        "C#"
    } else if chars_ends_with(&lower, ".rb") {
        "💎"
    } else if chars_ends_with(&lower, ".php") {
        "🐘"
    } else if chars_ends_with(&lower, ".swift") {
        "🐦"
    } else if chars_ends_with(&lower, ".sh") || chars_ends_with(&lower, ".bash") {
        "🐚"
    } else if chars_ends_with(&lower, ".ps1") {
        "PS"
    } else if chars_ends_with(&lower, ".sql") {
        "🗃️"
    } else if chars_ends_with(&lower, ".md") || chars_ends_with(&lower, ".markdown") {
        "📝"
    } else if chars_ends_with(&lower, ".txt") {
        "📄"
    } else if chars_ends_with(&lower, ".pdf") {
        "📕"
    } else if chars_ends_with(&lower, ".doc") || chars_ends_with(&lower, ".docx") {
        "📘"
    } else if chars_ends_with(&lower, ".csv") {
        "📊"
    } else if chars_ends_with(&lower, ".xlsx") || chars_ends_with(&lower, ".xls") {
        "📊"
    } else if chars_ends_with(&lower, ".png") || chars_ends_with(&lower, ".jpg") || chars_ends_with(&lower, ".jpeg") || chars_ends_with(&lower, ".gif") || chars_ends_with(&lower, ".svg") || chars_ends_with(&lower, ".ico") {
        "🖼️"
    } else if chars_ends_with(&lower, ".lock") {
        "🔒"
    } else if chars_eq_str(&lower, "cargo.lock") {
        "🔒"
    } else if chars_eq_str(&lower, ".gitignore") || chars_eq_str(&lower, ".gitattributes") {
        "🔀"
    } else if chars_eq_str(&lower, "dockerfile") || chars_ends_with(&lower, ".dockerfile") {
        "🐳"
    } else if chars_starts_with(&lower, "docker-compose") {
        "🐳"
    } else {
        "📄"
    }
}

} // verus!
