use vstd::prelude::*;
use crate::args::{ArgValue, ArgumentBundle};
use crate::search::{
    contains,
    completes_as,
    credential_setting,
    missing_credential_message,
    num_results_of,
    query_of,
    rejection_message,
    use_autoprompt_of,
    ExaSearchTool,
    SearchRequest,
    ExecError,
    DEFAULT_NUM_RESULTS,
    DEFAULT_USE_AUTOPROMPT,
};
use crate::result::ToolResult;
use crate::schema::ParameterSchema;
use crate::status::decimal;

verus! {

/// Leaving out `num_results` or `use_autoprompt` is the same as supplying
/// the defaults (5 and true): a bundle `given` that lacks either, and a
/// bundle `filled` that agrees with it but supplies the default where
/// `given` is silent, ask for the same request.
pub proof fn lemma_missing_options_take_defaults(
    tool: &ExaSearchTool,
    given: &ArgumentBundle,
    filled: &ArgumentBundle,
    req: &SearchRequest,
)
    requires
        filled.lookup("query"@) == given.lookup("query"@),
        given.lookup("num_results"@) is None ==> filled.lookup("num_results"@) == Some(
            ArgValue::Integer(DEFAULT_NUM_RESULTS as i128),
        ),
        given.lookup("num_results"@) is Some ==> filled.lookup("num_results"@) == given.lookup(
            "num_results"@,
        ),
        given.lookup("use_autoprompt"@) is None ==> filled.lookup("use_autoprompt"@) == Some(
            ArgValue::Boolean(DEFAULT_USE_AUTOPROMPT),
        ),
        given.lookup("use_autoprompt"@) is Some ==> filled.lookup("use_autoprompt"@)
            == given.lookup("use_autoprompt"@),
    ensures
        query_of(given) == query_of(filled),
        num_results_of(given) == num_results_of(filled),
        use_autoprompt_of(given) == use_autoprompt_of(filled),
        tool.sends(given, req) <==> tool.sends(filled, req),
{
}

/// Without a credential nothing is sent, and the message reported names the
/// setting to configure.
pub proof fn lemma_unconfigured_reports_setting()
    ensures
        contains(missing_credential_message(), credential_setting()),
{
    let prefix = "Exa API key is not configured. Please add '"@;
    let m = missing_credential_message();
    let k = credential_setting();
    assert(m.subrange(prefix.len() as int, (prefix.len() + k.len()) as int) =~= k);
}

/// A rejection by the upstream reports both the numeric status and the text
/// of the body it came with, unchanged.
pub proof fn lemma_rejection_reports_status_and_body(code: u16, body: Seq<char>)
    requires
        100 <= code <= 999,
    ensures
        contains(rejection_message(code, body), decimal(code as nat)),
        contains(rejection_message(code, body), body),
{
    let head = "Exa AI API error ("@;
    let m = rejection_message(code, body);
    let d = decimal(code as nat);
    assert(m.subrange(head.len() as int, (head.len() + d.len()) as int) =~= d);
    assert(m.subrange(m.len() - body.len(), m.len() - body.len() + body.len()) =~= body);
}

/// Independent calls do not mix: each request carries exactly the query of
/// the bundle it was asked for, so bundles with different queries never give
/// the same request.
pub proof fn lemma_requests_follow_own_arguments(
    tool: &ExaSearchTool,
    a: &ArgumentBundle,
    b: &ArgumentBundle,
    ra: &SearchRequest,
    rb: &SearchRequest,
)
    requires
        tool.sends(a, ra),
        tool.sends(b, rb),
        query_of(a) != query_of(b),
    ensures
        ra.query@ == query_of(a),
        rb.query@ == query_of(b),
        ra.query@ != rb.query@,
{
}

/// The schema is fixed: any two results of `parameters_schema`, whatever
/// ran in between, describe the same parameters, field for field.
pub proof fn lemma_schema_is_fixed(first: &ParameterSchema, second: &ParameterSchema)
    requires
        ExaSearchTool::is_search_schema(first),
        ExaSearchTool::is_search_schema(second),
    ensures
        first.params@.len() == second.params@.len(),
        forall|i: int|
            0 <= i < first.params@.len() ==> {
                &&& (#[trigger] first.params@[i]).name@ == second.params@[i].name@
                &&& first.params@[i].kind == second.params@[i].kind
                &&& first.params@[i].description@ == second.params@[i].description@
                &&& first.params@[i].default == second.params@[i].default
                &&& first.params@[i].required == second.params@[i].required
            },
{
    assert forall|i: int| 0 <= i < first.params@.len() implies {
        &&& (#[trigger] first.params@[i]).name@ == second.params@[i].name@
        &&& first.params@[i].kind == second.params@[i].kind
        &&& first.params@[i].description@ == second.params@[i].description@
        &&& first.params@[i].default == second.params@[i].default
        &&& first.params@[i].required == second.params@[i].required
    } by {
        assert(i == 0 || i == 1 || i == 2);
    }
}

/// `a` and `b` are the same outcome, field for field.
pub open spec fn same_outcome(a: &ToolResult, b: &ToolResult) -> bool {
    &&& a.success == b.success
    &&& a.output@ == b.output@
    &&& match (a.error, b.error) {
        (Some(x), Some(y)) => x@ == y@,
        (None, None) => true,
        _ => false,
    }
}

/// An outcome depends on the upstream answer alone: two completions of the
/// same status and body, whatever bundles or other calls led to them, both
/// fail hard or both give the same result.
pub proof fn lemma_same_answer_same_outcome(
    first: &Result<ToolResult, ExecError>,
    second: &Result<ToolResult, ExecError>,
    status: u16,
    body: Seq<u8>,
)
    requires
        completes_as(first, status, body),
        completes_as(second, status, body),
    ensures
        first is Ok <==> second is Ok,
        first matches Ok(a) ==> (second matches Ok(b) && same_outcome(&a, &b)),
{
    if let (Ok(a), Ok(b)) = (first, second) {
        if !crate::status::is_success_status(status) {
            assert(a.output@ =~= b.output@);
        }
    }
}

} // verus!
