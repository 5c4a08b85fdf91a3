use vstd::prelude::*;
use vstd::string::StringExecFns;

verus! {

/// The description attached to a generated alias: the website hint, when
/// present, followed by the fixed attribution sentence.
pub open spec fn description_of(website: Option<Seq<char>>) -> Seq<char> {
    match website {
        Some(w) => "Website: "@ + w + ". Generated by Bitwarden."@,
        None => "Generated by Bitwarden."@,
    }
}

/// Formats the alias description from an optional website hint.
pub fn format_description(website: &Option<String>) -> (r: String)
    ensures
        r@ == description_of(website.deep_view()),
{
    match website {
        Some(w) => {
            let mut text = String::from_str("Website: ");
            text.append(w.as_str());
            text.append(". Generated by Bitwarden.");
            text
        },
        None => String::from_str("Generated by Bitwarden."),
    }
}

} // verus!
