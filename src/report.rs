//! Rendering an error into its reports and into an API payload.
use vstd::prelude::*;
use poem_openapi::payload::Json;
use crate::diagnostic::{DiagnosticError, opt_view, views};
use crate::text::{join, numbered_lines, singleline, multiline};

verus! {

/// Relies on poem_openapi::payload::Json: the JSON body that an API handler
/// returns, a tuple struct whose one public field is the value it wraps.
#[verifier::external_type_specification]
#[verifier::reject_recursive_types(T)]
pub struct ExJson<T>(Json<T>);

/// The structured payload of an error for an API response body.
pub struct PoemResponse {
    pub code: String,
    pub message: String,
    pub detail: String,
    pub help: Option<String>,
    pub doc: Option<String>,
}

/// A payload wrapped as a JSON response body.
pub type HaoyongPoemResponse = Json<PoemResponse>;

/// Reports on an error value: its primary message, the messages of its cause
/// chain (nearest first), and its optional code, help text and documentation
/// link.
pub trait HaoyongError: Sized {
    /// The primary message.
    spec fn message_view(&self) -> Seq<char>;

    /// The messages of the causes, nearest first.
    spec fn causes_view(&self) -> Seq<Seq<char>>;

    /// The categorical code, if any.
    spec fn code_view(&self) -> Option<Seq<char>>;

    /// The help text, if any.
    spec fn help_view(&self) -> Option<Seq<char>>;

    /// The documentation link, if any.
    spec fn url_view(&self) -> Option<Seq<char>>;

    /// The primary message, unchanged.
    fn to_brief_report(&self) -> (r: String)
        ensures
            r@ == self.message_view(),
    ;

    /// `"{message} | {c0} <<< {c1} <<< ... <<< {cN}"`.
    fn to_detailed_singleline_report(&self) -> (r: String)
        ensures
            r@ == singleline(self.message_view(), self.causes_view()),
    ;

    /// The message, a blank line, `Caused By:`, then `"    [k] {cause}"` for
    /// each cause, numbered from 1, one per line.
    fn to_detailed_multiline_report(&self) -> (r: String)
        ensures
            r@ == multiline(self.message_view(), self.causes_view()),
    ;

    /// The payload for an API response: the code, the brief report, the
    /// single-line report as detail, the help text and the documentation link.
    /// An error without a code has no payload.
    fn into_poem_response(self) -> (r: PoemResponse)
        requires
            self.code_view() is Some,
        ensures
            self.code_view() == Some(r.code@),
            r.message@ == self.message_view(),
            r.detail@ == singleline(self.message_view(), self.causes_view()),
            opt_view(r.help) == self.help_view(),
            opt_view(r.doc) == self.url_view(),
    ;
}

/// `p` is the payload that the error `e` renders to.
pub open spec fn is_payload_of<E: HaoyongError>(p: PoemResponse, e: E) -> bool {
    &&& e.code_view() == Some(p.code@)
    &&& p.message@ == e.message_view()
    &&& p.detail@ == singleline(e.message_view(), e.causes_view())
    &&& opt_view(p.help) == e.help_view()
    &&& opt_view(p.doc) == e.url_view()
}

impl HaoyongError for DiagnosticError {
    open spec fn message_view(&self) -> Seq<char> {
        self.message@
    }

    open spec fn causes_view(&self) -> Seq<Seq<char>> {
        self.causes()
    }

    open spec fn code_view(&self) -> Option<Seq<char>> {
        opt_view(self.code)
    }

    open spec fn help_view(&self) -> Option<Seq<char>> {
        opt_view(self.help)
    }

    open spec fn url_view(&self) -> Option<Seq<char>> {
        opt_view(self.url)
    }

    fn to_brief_report(&self) -> (r: String) {
        self.message.clone()
    }

    fn to_detailed_singleline_report(&self) -> (r: String) {
        let mut r = self.message.clone();
        r.append(" | ");
        r.append(join(&self.cause_chain(), " <<< ").as_str());
        r
    }

    fn to_detailed_multiline_report(&self) -> (r: String) {
        let mut r = self.message.clone();
        r.append("\n\nCaused By:\n");
        r.append(join(&numbered_lines(&self.cause_chain()), "\n").as_str());
        r
    }

    fn into_poem_response(self) -> (r: PoemResponse) {
        let message = self.to_brief_report();
        let detail = self.to_detailed_singleline_report();
        PoemResponse {
            code: self.code.unwrap(),
            message,
            detail,
            help: self.help,
            doc: self.url,
        }
    }
}

/// Turns the error of a `Result` into a JSON API payload.
pub trait IntoPoemResult<T, E>: Sized {
    /// The value can be turned: an error it holds has a code.
    spec fn has_payload(&self) -> bool;

    /// `r` is what this value turns into.
    spec fn maps_to(&self, r: Result<T, HaoyongPoemResponse>) -> bool;

    /// Keeps a success value; replaces an error by its payload, wrapped as a
    /// JSON body.
    fn map_err_to_poem_response(self) -> (r: Result<T, HaoyongPoemResponse>)
        requires
            self.has_payload(),
        ensures
            self.maps_to(r),
    ;
}

impl<T, E: HaoyongError> IntoPoemResult<T, E> for Result<T, E> {
    open spec fn has_payload(&self) -> bool {
        match self {
            Ok(_) => true,
            Err(e) => e.code_view() is Some,
        }
    }

    open spec fn maps_to(&self, r: Result<T, HaoyongPoemResponse>) -> bool {
        match (self, r) {
            (Ok(v), Ok(w)) => w == v,
            (Err(e), Err(j)) => is_payload_of(j.0, *e),
            _ => false,
        }
    }

    fn map_err_to_poem_response(self) -> (r: Result<T, HaoyongPoemResponse>) {
        match self {
            Ok(v) => Ok(v),
            Err(e) => Err(Json(e.into_poem_response())),
        }
    }
}

} // verus!
