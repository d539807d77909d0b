//! The line logged once the main window has been found at startup.

use vstd::prelude::*;
use vstd::string::*;

verus! {

/// What `{:?}` renders for a string: the text quoted and escaped.
pub uninterp spec fn debug_rendering(s: Seq<char>) -> Seq<char>;

/// Relies on `<str as Debug>::fmt` (through `format!("{:?}")`) to quote and
/// escape a window label; the rendering depends on the text alone.
#[verifier::external_body]
fn render_debug(s: &str) -> (r: String)
    ensures
        r@ == debug_rendering(s@),
{
    format!("{:?}", s)
}

/// The prefix of the startup confirmation.
pub open spec fn window_ready_prefix() -> Seq<char> {
    "✓ 窗口已初始化: "@
}

/// The startup confirmation around an already rendered label.
pub fn window_ready_line(rendered_label: &str) -> (line: String)
    ensures
        line@ == window_ready_prefix() + rendered_label@,
{
    let prefix = String::from_str("✓ 窗口已初始化: ");
    prefix.concat(rendered_label)
}

/// The startup confirmation for the window labelled `label`, with the label
/// in its debug rendering (`✓ 窗口已初始化: "main"`).
pub fn window_ready_message(label: &str) -> (line: String)
    ensures
        line@ == window_ready_prefix() + debug_rendering(label@),
{
    let rendered = render_debug(label);
    window_ready_line(rendered.as_str())
}

} // verus!
