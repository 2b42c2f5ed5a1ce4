use vstd::prelude::*;
use crate::args::{ArgValue, ArgumentBundle};
use crate::json::{json_accepts, pretty_json_of, reformat_json};
use crate::result::ToolResult;
use crate::schema::{ParamDefault, ParamSpec, ParamType, ParameterSchema};
use crate::status::{append_status_line, is_success_status, status_line};
use crate::text::{decode_lossy, lossy_text_of};

verus! {

/// How many results are asked for when the caller does not say.
pub const DEFAULT_NUM_RESULTS: u64 = 5;

/// Whether autoprompt is asked for when the caller does not say.
pub const DEFAULT_USE_AUTOPROMPT: bool = true;

/// The query a bundle supplies: its `query` text, or empty.
pub open spec fn query_of(args: &ArgumentBundle) -> Seq<char> {
    match args.lookup("query"@) {
        Some(ArgValue::Text(s)) => s@,
        _ => Seq::empty(),
    }
}

/// The result count a bundle supplies: its `num_results` if that is an
/// integer that fits in a `u64`, else the default.
pub open spec fn num_results_of(args: &ArgumentBundle) -> u64 {
    match args.lookup("num_results"@) {
        Some(ArgValue::Integer(n)) => if 0 <= n <= u64::MAX {
            n as u64
        } else {
            DEFAULT_NUM_RESULTS
        },
        _ => DEFAULT_NUM_RESULTS,
    }
}

/// The autoprompt flag a bundle supplies: its `use_autoprompt` if that is a
/// boolean, else the default.
pub open spec fn use_autoprompt_of(args: &ArgumentBundle) -> bool {
    match args.lookup("use_autoprompt"@) {
        Some(ArgValue::Boolean(b)) => b,
        _ => DEFAULT_USE_AUTOPROMPT,
    }
}

/// `part` occurs in `s` as a contiguous run.
pub open spec fn contains(s: Seq<char>, part: Seq<char>) -> bool {
    exists|i: int| 0 <= i <= s.len() - part.len() && #[trigger] s.subrange(i, i + part.len()) == part
}

/// The configuration setting that holds the credential.
pub open spec fn credential_setting() -> Seq<char> {
    "exa_api_key"@
}

/// The error reported when no credential is configured.
pub open spec fn missing_credential_message() -> Seq<char> {
    "Exa API key is not configured. Please add '"@ + credential_setting()
        + "' to [search] in your config.toml."@
}

/// The error reported when the upstream answers with a non-2xx status.
pub open spec fn rejection_message(code: u16, body: Seq<char>) -> Seq<char> {
    "Exa AI API error ("@ + status_line(code) + "): "@ + body
}

/// The arguments of one search, each one read from the bundle or defaulted.
pub struct SearchArgs {
    pub query: String,
    pub num_results: u64,
    pub use_autoprompt: bool,
}

impl SearchArgs {
    pub open spec fn extracted_from(&self, args: &ArgumentBundle) -> bool {
        &&& self.query@ == query_of(args)
        &&& self.num_results == num_results_of(args)
        &&& self.use_autoprompt == use_autoprompt_of(args)
    }

    /// Reads each argument by name and type; a missing or wrong-shaped one
    /// takes its default, and names the tool does not know are ignored.
    pub fn from_bundle(args: &ArgumentBundle) -> (r: Self)
        ensures
            r.extracted_from(args),
    {
        let query = match args.get("query") {
            Some(ArgValue::Text(s)) => s.clone(),
            _ => String::new(),
        };
        let num_results = match args.get("num_results") {
            Some(ArgValue::Integer(n)) => if 0 <= *n && *n <= u64::MAX as i128 {
                *n as u64
            } else {
                DEFAULT_NUM_RESULTS
            },
            _ => DEFAULT_NUM_RESULTS,
        };
        let use_autoprompt = match args.get("use_autoprompt") {
            Some(ArgValue::Boolean(b)) => *b,
            _ => DEFAULT_USE_AUTOPROMPT,
        };
        SearchArgs { query, num_results, use_autoprompt }
    }
}

/// The one upstream call an execution makes.
pub struct SearchRequest {
    pub api_key: String,
    pub query: String,
    pub num_results: u64,
    pub use_autoprompt: bool,
}

impl SearchRequest {
    /// Where the request is posted.
    pub fn endpoint(&self) -> (r: &'static str)
        ensures
            r@ == "https://api.exa.ai/search"@,
    {
        "https://api.exa.ai/search"
    }
}

/// What an execution does once its arguments are read.
pub enum Step {
    /// It is over, with this outcome, and nothing is sent.
    Finish(ToolResult),
    /// This request is to be sent; `ExaSearchTool::complete` takes the answer.
    Send(SearchRequest),
}

/// A failure that the calling loop cannot recover from by changing arguments.
pub enum ExecError {
    /// A 2xx answer whose body is not JSON.
    Decode(serde_json::Error),
}

/// `r` is what an upstream answer of `status` and `body` comes to: a failed
/// outcome quoting the status and the body's text when the status is not
/// 2xx; else the body's indented JSON text as a success, or a hard failure
/// where the body is not JSON.
pub open spec fn completes_as(r: &Result<ToolResult, ExecError>, status: u16, body: Seq<u8>) -> bool {
    if !is_success_status(status) {
        r matches Ok(t) && t.fails_with(rejection_message(status, lossy_text_of(body)))
    } else if json_accepts(body) {
        r matches Ok(t) && t.success && t.error is None && t.output@ == pretty_json_of(body)
    } else {
        r matches Err(ExecError::Decode(_))
    }
}

/// Web search through the Exa API, configured with an API key.
pub struct ExaSearchTool {
    api_key: String,
}

impl ExaSearchTool {
    /// The configured API key; empty means unconfigured.
    pub closed spec fn credential(&self) -> Seq<char> {
        self.api_key@
    }

    /// `req` is the request that `args` asks of this tool.
    pub open spec fn sends(&self, args: &ArgumentBundle, req: &SearchRequest) -> bool {
        &&& req.api_key@ == self.credential()
        &&& req.query@ == query_of(args)
        &&& req.num_results == num_results_of(args)
        &&& req.use_autoprompt == use_autoprompt_of(args)
    }

    /// Stores the key; an empty key is reported at execution, not here.
    pub fn new(api_key: String) -> (r: Self)
        ensures
            r.credential() == api_key@,
    {
        ExaSearchTool { api_key }
    }

    pub fn name(&self) -> (r: &'static str)
        ensures
            r@ == "exa_search"@,
    {
        "exa_search"
    }

    pub fn description(&self) -> (r: &'static str)
        ensures
            r@ == "Search the web using Exa AI for real-time information and high-quality links"@,
    {
        "Search the web using Exa AI for real-time information and high-quality links"
    }

    /// The parameters this tool accepts; the same on every call.
    pub open spec fn is_search_schema(s: &ParameterSchema) -> bool {
        &&& s.params@.len() == 3
        &&& s.params@[0].is("query"@, ParamType::Text, "The search query"@, None, true)
        &&& s.params@[1].is(
            "num_results"@,
            ParamType::Integer,
            "Number of results to return (default 5)"@,
            Some(ParamDefault::Integer(DEFAULT_NUM_RESULTS)),
            false,
        )
        &&& s.params@[2].is(
            "use_autoprompt"@,
            ParamType::Boolean,
            "Whether to use Exa's autoprompt feature"@,
            Some(ParamDefault::Boolean(DEFAULT_USE_AUTOPROMPT)),
            false,
        )
    }

    pub fn parameters_schema(&self) -> (r: ParameterSchema)
        ensures
            Self::is_search_schema(&r),
    {
        let mut params: Vec<ParamSpec> = Vec::new();
        params.push(ParamSpec::new("query", ParamType::Text, "The search query", None, true));
        params.push(
            ParamSpec::new(
                "num_results",
                ParamType::Integer,
                "Number of results to return (default 5)",
                Some(ParamDefault::Integer(DEFAULT_NUM_RESULTS)),
                false,
            ),
        );
        params.push(
            ParamSpec::new(
                "use_autoprompt",
                ParamType::Boolean,
                "Whether to use Exa's autoprompt feature",
                Some(ParamDefault::Boolean(DEFAULT_USE_AUTOPROMPT)),
                false,
            ),
        );
        ParameterSchema { params }
    }

    /// The first half of an execution: read the arguments, then either stop
    /// (no credential) or name the request to send.
    pub fn start(&self, args: &ArgumentBundle) -> (r: Step)
        ensures
            self.credential().len() == 0 ==> (r matches Step::Finish(t) && t.fails_with(
                missing_credential_message(),
            )),
            self.credential().len() > 0 ==> (r matches Step::Send(req) && self.sends(args, &req)),
    {
        let parsed = SearchArgs::from_bundle(args);
        if self.api_key.as_str().is_empty() {
            let mut message = String::from_str("Exa API key is not configured. Please add '");
            message.append("exa_api_key");
            message.append("' to [search] in your config.toml.");
            return Step::Finish(ToolResult::failed(message));
        }
        Step::Send(
            SearchRequest {
                api_key: self.api_key.clone(),
                query: parsed.query,
                num_results: parsed.num_results,
                use_autoprompt: parsed.use_autoprompt,
            },
        )
    }

    /// The second half of an execution: the upstream answered with `status`
    /// and the bytes `body`. A non-2xx status is an ordinary failed outcome
    /// that quotes the body; a 2xx body is parsed as JSON and written back
    /// out as indented text, and a body that is not JSON is a hard failure.
    pub fn complete(&self, status: u16, body: &[u8]) -> (r: Result<ToolResult, ExecError>)
        requires
            100 <= status <= 999,
        ensures
            completes_as(&r, status, body@),
    {
        if !(200 <= status && status <= 299) {
            let text = decode_lossy(body);
            let mut message = String::from_str("Exa AI API error (");
            append_status_line(&mut message, status);
            message.append("): ");
            message.append(text.as_str());
            assert(message@ =~= rejection_message(status, lossy_text_of(body@)));
            return Ok(ToolResult::failed(message));
        }
        Self::decode_body(body)
    }

    /// A 2xx body: parsed as JSON and written back out as indented text.
    pub fn decode_body(body: &[u8]) -> (r: Result<ToolResult, ExecError>)
        ensures
            json_accepts(body@) ==> (r matches Ok(t) && t.success && t.error is None && t.output@
                == pretty_json_of(body@)),
            !json_accepts(body@) ==> (r matches Err(ExecError::Decode(_))),
    {
        match reformat_json(body) {
            Err(e) => Err(ExecError::Decode(e)),
            Ok(text) => Ok(ToolResult::succeeded(text)),
        }
    }
}

} // verus!
