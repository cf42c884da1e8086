//! The error value that reports are rendered from.
use vstd::prelude::*;

verus! {

/// An error with a primary message, an optional cause (the error it arose
/// from), and optional diagnostic details: a short categorical code, a help
/// text and a documentation link.
///
/// The causes form a finite singly-linked chain: each error holds at most one
/// direct cause, and the chain ends at an error without one.
pub struct DiagnosticError {
    pub message: String,
    pub cause: Option<Box<DiagnosticError>>,
    pub code: Option<String>,
    pub help: Option<String>,
    pub url: Option<String>,
}

/// The text an optional string holds, if any.
pub open spec fn opt_view(o: Option<String>) -> Option<Seq<char>> {
    match o {
        Some(s) => Some(s@),
        None => None,
    }
}

/// The texts of a sequence of strings.
pub open spec fn views(v: Seq<String>) -> Seq<Seq<char>> {
    v.map_values(|s: String| s@)
}

impl DiagnosticError {
    /// The messages of the causes, nearest first; the error's own message is
    /// not among them.
    pub open spec fn causes(self) -> Seq<Seq<char>>
        decreases self,
    {
        match self.cause {
            None => Seq::empty(),
            Some(c) => seq![c.message@] + c.causes(),
        }
    }

    /// The number of errors in the cause chain below this one.
    pub open spec fn depth(self) -> nat {
        self.causes().len()
    }

    /// An error with this message and nothing else.
    pub fn new(message: String) -> (r: DiagnosticError)
        ensures
            r.message == message,
            r.cause is None,
            r.code is None,
            r.help is None,
            r.url is None,
    {
        DiagnosticError { message, cause: None, code: None, help: None, url: None }
    }

    /// The same error, arisen from `cause`: its chain is `cause`'s message
    /// followed by `cause`'s own chain.
    pub fn with_cause(self, cause: DiagnosticError) -> (r: DiagnosticError)
        ensures
            r.message == self.message,
            r.code == self.code,
            r.help == self.help,
            r.url == self.url,
            r.cause == Some(Box::new(cause)),
            r.causes() == seq![cause.message@] + cause.causes(),
            r.depth() == cause.depth() + 1,
    {
        DiagnosticError { cause: Some(Box::new(cause)), ..self }
    }

    /// The same error with this categorical code.
    pub fn with_code(self, code: String) -> (r: DiagnosticError)
        ensures
            r.message == self.message,
            r.cause == self.cause,
            r.code == Some(code),
            r.help == self.help,
            r.url == self.url,
    {
        DiagnosticError { code: Some(code), ..self }
    }

    /// The same error with this help text.
    pub fn with_help(self, help: String) -> (r: DiagnosticError)
        ensures
            r.message == self.message,
            r.cause == self.cause,
            r.code == self.code,
            r.help == Some(help),
            r.url == self.url,
    {
        DiagnosticError { help: Some(help), ..self }
    }

    /// The same error with this documentation link.
    pub fn with_url(self, url: String) -> (r: DiagnosticError)
        ensures
            r.message == self.message,
            r.cause == self.cause,
            r.code == self.code,
            r.help == self.help,
            r.url == Some(url),
    {
        DiagnosticError { url: Some(url), ..self }
    }

    /// Walks the cause chain, nearest cause first, and returns the message of
    /// each cause that it visits. The error's own message is not included.
    pub fn cause_chain(&self) -> (r: Vec<String>)
        ensures
            views(r@) == self.causes(),
            r@.len() == self.depth(),
    {
        let mut out: Vec<String> = Vec::new();
        let mut cur: &DiagnosticError = self;
        while cur.cause.is_some()
            invariant
                views(out@) + cur.causes() == self.causes(),
            decreases cur.causes().len(),
        {
            let ghost before = out@;
            let next: &DiagnosticError = cur.cause.as_ref().unwrap();
            out.push(next.message.clone());
            assert(views(out@) =~= views(before) + seq![next.message@]);
            assert(cur.causes() =~= seq![next.message@] + next.causes());
            cur = next;
        }
        out
    }
}

} // verus!
