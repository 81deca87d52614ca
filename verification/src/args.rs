//! The parsed command-line arguments and the script that forwards them.
//!
//! The GUI shell hands the two optional argument values to this module,
//! which renders them as a JSON object and as the one-line script that
//! assigns that object to the web view's `window.__CLI_ARGS__` global.

use vstd::prelude::*;

use crate::json::json_string;

verus! {

/// The two optional command-line arguments the shell accepts.
pub struct CliArgs {
    pub file: Option<String>,
    pub theme: Option<String>,
}

/// The mathematical value of [`CliArgs`]: each argument as an optional
/// character sequence.
pub struct CliArgsView {
    pub file: Option<Seq<char>>,
    pub theme: Option<Seq<char>>,
}

impl View for CliArgs {
    type V = CliArgsView;

    open spec fn view(&self) -> CliArgsView {
        CliArgsView { file: self.file.deep_view(), theme: self.theme.deep_view() }
    }
}

/// An optional string as a JSON value: the string literal, or `null`.
pub open spec fn json_opt_string(v: Option<Seq<char>>) -> Seq<char> {
    match v {
        Option::Some(s) => json_string(s),
        Option::None => "null"@,
    }
}

/// The JSON object for the arguments, with fixed keys `file` and `theme`
/// in that order.
pub open spec fn cli_args_json(a: CliArgsView) -> Seq<char> {
    "{\"file\":"@ + json_opt_string(a.file) + ",\"theme\":"@ + json_opt_string(a.theme) + "}"@
}

/// The script that assigns the arguments' JSON object to the web view's
/// global scope.
pub open spec fn startup_script_for(a: CliArgsView) -> Seq<char> {
    "window.__CLI_ARGS__ = "@ + cli_args_json(a) + ";"@
}

/// Appends the JSON value for one optional argument: its string literal,
/// or `null`.
fn append_json_opt(out: &mut String, v: &Option<String>)
    ensures
        final(out)@ == old(out)@ + json_opt_string(v.deep_view()),
{
    match v {
        Option::Some(s) => {
            let lit = crate::json::encode_json_string(s.as_str());
            out.append(lit.as_str());
        },
        Option::None => {
            out.append("null");
        },
    }
}

impl CliArgs {
    /// Bundles the two argument values.
    pub fn new(file: Option<String>, theme: Option<String>) -> (r: CliArgs)
        ensures
            r.file == file,
            r.theme == theme,
    {
        CliArgs { file, theme }
    }

    /// Renders the arguments as a JSON object with the keys `file` and
    /// `theme`.
    pub fn to_json(&self) -> (r: String)
        ensures
            r@ == cli_args_json(self@),
    {
        let mut out = String::from_str("{\"file\":");
        append_json_opt(&mut out, &self.file);
        out.append(",\"theme\":");
        append_json_opt(&mut out, &self.theme);
        out.append("}");
        proof {
            assert(out@ =~= cli_args_json(self@));
        }
        out
    }

    /// Renders the one-line script that assigns the arguments' JSON object
    /// to `window.__CLI_ARGS__`.
    pub fn startup_script(&self) -> (r: String)
        ensures
            r@ == startup_script_for(self@),
    {
        let mut out = String::from_str("window.__CLI_ARGS__ = ");
        out.append(self.to_json().as_str());
        out.append(";");
        proof {
            assert(out@ =~= startup_script_for(self@));
        }
        out
    }
}

} // verus!
