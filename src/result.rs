use vstd::prelude::*;

verus! {

/// The single normalised outcome of a tool execution.
///
/// `success` alone decides how a caller proceeds: a successful result carries
/// its text in `output` and no `error`; a failed one carries an empty
/// `output` and a message in `error`.
pub struct ToolResult {
    pub success: bool,
    pub output: String,
    pub error: Option<String>,
}

impl ToolResult {
    /// Exactly one of `output` and `error` is active, as `success` says.
    pub open spec fn wf(&self) -> bool {
        if self.success {
            self.error is None
        } else {
            self.output@.len() == 0 && self.error is Some
        }
    }

    /// A failed outcome whose error message is `message`.
    pub open spec fn fails_with(&self, message: Seq<char>) -> bool {
        &&& !self.success
        &&& self.output@.len() == 0
        &&& self.error matches Some(e) && e@ == message
    }

    /// A successful outcome carrying `output`.
    pub fn succeeded(output: String) -> (r: Self)
        ensures
            r.success,
            r.output@ == output@,
            r.error is None,
            r.wf(),
    {
        ToolResult { success: true, output, error: None }
    }

    /// A failed outcome with the message `message` and no output.
    pub fn failed(message: String) -> (r: Self)
        ensures
            r.fails_with(message@),
            r.wf(),
    {
        ToolResult { success: false, output: String::new(), error: Some(message) }
    }
}

} // verus!
