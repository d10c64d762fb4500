//! The handler that maps a request onto a file beneath its root directory.

use crate::decode::{escapes_well_formed, percent_decode, percent_decoded, DecodeError};
use crate::path::{
    is_safe_path, join_path, joined_path, lemma_path_safety, path_component_kinds, safe_path,
    ComponentKind,
};
use vstd::prelude::*;
use vstd::string::*;
use vstd::utf8::*;

verus! {

/// The request methods that the handler tells apart.
#[derive(Clone, Copy, Debug, PartialEq, Eq, Structural)]
pub enum Method {
    Get,
    Head,
    /// Any method other than GET and HEAD.
    Other,
}

impl Method {
    /// Only GET and HEAD requests can be answered with a file.
    pub open spec fn eligible(self) -> bool {
        self == Method::Get || self == Method::Head
    }

    /// Tests whether a request with this method can be answered with a file.
    pub fn is_eligible(&self) -> (yes: bool)
        ensures
            yes == self.eligible(),
    {
        match self {
            Method::Get | Method::Head => true,
            Method::Other => false,
        }
    }
}

/// Why a request is refused as a bad request.
#[derive(Clone, Debug, PartialEq, Eq)]
pub enum Rejection {
    /// The candidate path could not be decoded.
    Decode(DecodeError),
    /// The decoded path, held here, has a component that is not allowed.
    PathDenied(String),
}

impl Rejection {
    /// The HTTP status that every rejection is answered with: 400, bad
    /// request.
    pub fn status_code(&self) -> (code: u16)
        ensures
            code == 400,
    {
        400
    }
}

/// What the handler decides before the filesystem is looked at.
#[derive(Clone, Debug, PartialEq, Eq)]
pub enum Resolution {
    /// The file at this path, the root joined with the requested path, is to
    /// be looked up.
    Candidate(String),
    /// The request is left to the next handler.
    PassThrough,
    /// The request is refused.
    Reject(Rejection),
}

/// What a single metadata lookup of the candidate file found.
#[derive(Clone, Copy, Debug, PartialEq, Eq, Structural)]
pub enum Probe {
    /// The path names a regular file.
    RegularFile,
    /// The path names something else, such as a directory.
    NotRegularFile,
    /// Nothing exists at the path.
    NotFound,
    /// The lookup failed for another reason.
    Failed,
}

/// The answer to one request.
#[derive(Clone, Debug, PartialEq, Eq)]
pub enum Outcome {
    /// The file at this path is sent.
    Serve(String),
    /// The request is left to the next handler.
    PassThrough,
    /// The request is refused.
    Reject(Rejection),
}

/// A resolution with each text replaced by its characters.
pub enum ResolutionView {
    Candidate(Seq<char>),
    PassThrough,
    RejectDecode(DecodeError),
    RejectPathDenied(Seq<char>),
}

impl View for Resolution {
    type V = ResolutionView;

    open spec fn view(&self) -> ResolutionView {
        match *self {
            Resolution::Candidate(p) => ResolutionView::Candidate(p@),
            Resolution::PassThrough => ResolutionView::PassThrough,
            Resolution::Reject(Rejection::Decode(e)) => ResolutionView::RejectDecode(e),
            Resolution::Reject(Rejection::PathDenied(p)) => ResolutionView::RejectPathDenied(p@),
        }
    }
}

/// An outcome with each text replaced by its characters.
pub enum OutcomeView {
    Serve(Seq<char>),
    PassThrough,
    RejectDecode(DecodeError),
    RejectPathDenied(Seq<char>),
}

impl View for Outcome {
    type V = OutcomeView;

    open spec fn view(&self) -> OutcomeView {
        match *self {
            Outcome::Serve(p) => OutcomeView::Serve(p@),
            Outcome::PassThrough => OutcomeView::PassThrough,
            Outcome::Reject(Rejection::Decode(e)) => OutcomeView::RejectDecode(e),
            Outcome::Reject(Rejection::PathDenied(p)) => OutcomeView::RejectPathDenied(p@),
        }
    }
}

/// The candidate path of a URL path: `index.html` for `/`, else the URL path
/// without its first character.
pub open spec fn candidate_path(url_path: Seq<char>) -> Seq<char>
    recommends
        url_path.len() >= 1,
{
    if url_path == seq!['/'] {
        seq!['i', 'n', 'd', 'e', 'x', '.', 'h', 't', 'm', 'l']
    } else {
        url_path.skip(1)
    }
}

/// What becomes of a decoded path under the root: denied where it is not
/// safe, else the candidate file that the root and the path join to.
pub open spec fn resolved_file(root: Seq<char>, path: Seq<char>) -> ResolutionView {
    if is_safe_path(path) {
        ResolutionView::Candidate(joined_path(root, path))
    } else {
        ResolutionView::RejectPathDenied(path)
    }
}

/// What the handler decides for a request, before any lookup.
pub open spec fn resolved_request(
    root: Seq<char>,
    method: Method,
    url_path: Option<Seq<char>>,
) -> ResolutionView {
    if !method.eligible() {
        ResolutionView::PassThrough
    } else {
        match url_path {
            None => ResolutionView::PassThrough,
            Some(p) => match percent_decoded(candidate_path(p)) {
                Err(e) => ResolutionView::RejectDecode(e),
                Ok(decoded) => resolved_file(root, decoded),
            },
        }
    }
}

/// The answer for a candidate file once it was looked up: it is served if it
/// is a regular file, and left to the next handler in every other case.
pub open spec fn probed_outcome(file: Seq<char>, probe: Probe) -> OutcomeView {
    if probe == Probe::RegularFile {
        OutcomeView::Serve(file)
    } else {
        OutcomeView::PassThrough
    }
}

/// Serves static files from within a root directory.
#[derive(Clone, Debug)]
pub struct StaticFilesHandler {
    root_path: String,
}

impl StaticFilesHandler {
    /// The root directory, as given at construction.
    pub closed spec fn root(&self) -> Seq<char> {
        self.root_path@
    }

    /// Creates a handler that serves files from within `root_path`.
    pub fn new(root_path: &str) -> (handler: StaticFilesHandler)
        ensures
            handler.root() == root_path@,
    {
        StaticFilesHandler { root_path: root_path.to_owned() }
    }

    /// The root directory that the handler was made with.
    pub fn root_path(&self) -> (root: &str)
        ensures
            root@ == self.root(),
    {
        self.root_path.as_str()
    }

    /// Derives the candidate path from the URL path of a request, if the
    /// request has one.
    pub fn extract_path<'a>(&self, url_path: Option<&'a str>) -> (candidate: Option<&'a str>)
        requires
            url_path matches Some(p) ==> p@.len() >= 1,
        ensures
            url_path is None ==> candidate is None,
            url_path matches Some(p) ==> candidate matches Some(c) && c@ == candidate_path(p@),
    {
        match url_path {
            None => None,
            Some(path) => {
                let n: usize = path.unicode_len();
                if n == 1 && path.get_char(0) == '/' {
                    let index = "index.html";
                    proof {
                        reveal_strlit("index.html");
                        assert(path@ =~= seq!['/']);
                        assert(index@ =~= candidate_path(path@));
                    }
                    Some(index)
                } else {
                    assert(seq!['/'].len() == 1 && seq!['/'][0] == '/');
                    Some(path.substring_char(1, n))
                }
            },
        }
    }

    /// Validates a decoded path and, where it is safe, joins it onto the
    /// root; the filesystem is not touched.
    pub fn with_file(&self, path: &str) -> (r: Resolution)
        ensures
            r@ == resolved_file(self.root(), path@),
    {
        if !safe_path(path) {
            return Resolution::Reject(Rejection::PathDenied(path.to_owned()));
        }
        Resolution::Candidate(join_path(self.root_path.as_str(), path))
    }

    /// Decides what to do with a request before any lookup: leave it to the
    /// next handler, refuse it, or look up one candidate file.
    pub fn invoke(&self, method: Method, url_path: Option<&str>) -> (r: Resolution)
        requires
            method.eligible() ==> (url_path matches Some(p) ==> p@.len() >= 1),
        ensures
            r@ == resolved_request(
                self.root(),
                method,
                match url_path {
                    Some(p) => Some(p@),
                    None => None,
                },
            ),
    {
        if !method.is_eligible() {
            return Resolution::PassThrough;
        }
        match self.extract_path(url_path) {
            None => Resolution::PassThrough,
            Some(candidate) => match percent_decode(candidate) {
                Ok(decoded) => self.with_file(decoded.as_str()),
                Err(e) => Resolution::Reject(Rejection::Decode(e)),
            },
        }
    }

    /// Turns the result of looking up a candidate file into the answer.
    pub fn conclude(file: String, probe: Probe) -> (outcome: Outcome)
        ensures
            outcome@ == probed_outcome(file@, probe),
    {
        match probe {
            Probe::RegularFile => Outcome::Serve(file),
            _ => Outcome::PassThrough,
        }
    }
}

/// A request whose method is neither GET nor HEAD is left to the next
/// handler, whatever its path and the root are.
pub proof fn lemma_other_methods_pass_through(root: Seq<char>, url_path: Option<Seq<char>>)
    ensures
        resolved_request(root, Method::Other, url_path) == ResolutionView::PassThrough,
{
}

/// A request for `/` is resolved as a request for `/index.html` is.
pub proof fn lemma_root_request_is_index(root: Seq<char>, method: Method)
    ensures
        candidate_path(seq!['/']) == candidate_path(
            seq!['/', 'i', 'n', 'd', 'e', 'x', '.', 'h', 't', 'm', 'l'],
        ),
        resolved_request(root, method, Some(seq!['/'])) == resolved_request(
            root,
            method,
            Some(seq!['/', 'i', 'n', 'd', 'e', 'x', '.', 'h', 't', 'm', 'l']),
        ),
{
    let long = seq!['/', 'i', 'n', 'd', 'e', 'x', '.', 'h', 't', 'm', 'l'];
    assert(long.len() == 11);
    assert(seq!['/'].len() == 1);
    assert(long != seq!['/']);
    assert(long.skip(1) =~= seq!['i', 'n', 'd', 'e', 'x', '.', 'h', 't', 'm', 'l']);
}

/// A GET or HEAD request whose candidate path cannot be decoded is refused
/// with the decoding error; in particular one whose path holds a `%` that is
/// not followed by two hexadecimal digits.
pub proof fn lemma_undecodable_path_rejected(root: Seq<char>, method: Method, url_path: Seq<char>)
    requires
        method.eligible(),
    ensures
        percent_decoded(candidate_path(url_path)) matches Err(e) ==> resolved_request(
            root,
            method,
            Some(url_path),
        ) == ResolutionView::RejectDecode(e),
        !escapes_well_formed(encode_utf8(candidate_path(url_path))) ==> resolved_request(
            root,
            method,
            Some(url_path),
        ) == ResolutionView::RejectDecode(DecodeError::MalformedEscape),
{
}

/// A GET or HEAD request whose decoded path has a parent-directory marker
/// among its components is refused, and that path is named in the refusal.
pub proof fn lemma_parent_dir_request_rejected(
    root: Seq<char>,
    method: Method,
    url_path: Seq<char>,
    decoded: Seq<char>,
)
    requires
        method.eligible(),
        percent_decoded(candidate_path(url_path)) == Ok::<Seq<char>, DecodeError>(decoded),
    ensures
        path_component_kinds(decoded).contains(ComponentKind::ParentDir) ==> resolved_request(
            root,
            method,
            Some(url_path),
        ) == ResolutionView::RejectPathDenied(decoded),
{
    lemma_path_safety(decoded);
}

/// A candidate file is never taken from a path that is not safe, and a
/// request is refused only for a path that cannot be decoded or is not safe.
pub proof fn lemma_candidate_only_from_safe_path(
    root: Seq<char>,
    method: Method,
    url_path: Seq<char>,
)
    ensures
        resolved_request(root, method, Some(url_path)) is Candidate ==> method.eligible()
            && percent_decoded(candidate_path(url_path)) is Ok && is_safe_path(
            percent_decoded(candidate_path(url_path))->Ok_0,
        ),
        resolved_request(root, method, Some(url_path)) is RejectPathDenied ==> !is_safe_path(
            percent_decoded(candidate_path(url_path))->Ok_0,
        ),
{
}

} // verus!
