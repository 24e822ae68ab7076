//! Endpoint discovery: which OS-enumerated audio device names belong to the
//! appliance's virtual sound card, for each direction.

use vstd::prelude::*;

verus! {

/// What the regex engine answers for a pattern and a text: a function of the
/// two strings alone. A pattern that does not compile matches nothing.
pub uninterp spec fn regex_match(pattern: Seq<char>, text: Seq<char>) -> bool;

/// Relies on `regex::Regex::new` and `regex::Regex::is_match`: whether
/// `text` matches `pattern`. Both depend only on their string arguments; a
/// pattern that does not compile is treated as matching nothing.
#[verifier::external_body]
fn regex_is_match(pattern: &str, text: &str) -> (r: bool)
    ensures
        r == regex_match(pattern@, text@),
{
    regex::Regex::new(pattern).map_or(false, |re| re.is_match(text))
}

/// Whether a device name names the appliance's playback endpoint: the real
/// hardware output or the virtual sampler output, first set of known names.
pub open spec fn output_device_matches(name: Seq<char>) -> bool {
    ||| regex_match("goxlr_sample"@, name)
    ||| regex_match("GoXLR_0_8_9"@, name)
    ||| regex_match("CoreAudio\\*Sample"@, name)
}

/// Whether a device name names the appliance's recording endpoint.
pub open spec fn input_device_matches(name: Seq<char>) -> bool {
    ||| regex_match("goxlr_sampler.*source"@, name)
    ||| regex_match("GoXLR_0_4_5.*source"@, name)
}

/// Test a device name against the known playback endpoint names.
pub fn matches_output_device(name: &str) -> (r: bool)
    ensures
        r == output_device_matches(name@),
{
    regex_is_match("goxlr_sample", name) || regex_is_match("GoXLR_0_8_9", name)
        || regex_is_match("CoreAudio\\*Sample", name)
}

/// Test a device name against the known recording endpoint names.
pub fn matches_input_device(name: &str) -> (r: bool)
    ensures
        r == input_device_matches(name@),
{
    regex_is_match("goxlr_sampler.*source", name) || regex_is_match("GoXLR_0_4_5.*source", name)
}

} // verus!
