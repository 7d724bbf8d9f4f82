//! Descriptions of what went wrong with a request.
use http_api_problem::HttpApiProblem;
use vstd::prelude::*;

verus! {

/// A description of a problem, as the `http_api_problem` crate holds it.
#[verifier::external_type_specification]
#[verifier::external_body]
pub struct ExHttpApiProblem(HttpApiProblem);

/// The description with the given status code and title and nothing else.
pub uninterp spec fn problem_of(status: u16, title: Seq<char>) -> HttpApiProblem;

/// Describes a problem with `HttpApiProblem::try_new` and `HttpApiProblem::title`.
///
/// The description is a function of the status code and the title. The crate takes every status
/// code from 100 to 999.
#[verifier::external_body]
pub(crate) fn new_problem(status: u16, title: String) -> (problem: HttpApiProblem)
    requires
        100 <= status <= 999,
    ensures
        problem == problem_of(status, title@),
{
    HttpApiProblem::try_new(status).unwrap().title(title)
}

/// `HttpApiProblem::clone`, which gives back an equal description.
pub assume_specification[ <HttpApiProblem as Clone>::clone ](problem: &HttpApiProblem) -> (copy:
    HttpApiProblem)
    ensures
        copy == *problem,
;

} // verus!
