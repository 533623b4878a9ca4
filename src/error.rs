use vstd::prelude::*;
use crate::json::{Json, JsonValue};

verus! {

/// One step of the path from the top of a response to a failing field.
#[derive(Clone, Debug, PartialEq)]
pub enum PathStep {
    Key(String),
    Index(usize),
}

/// The model of a path step.
pub enum Step {
    Key(Seq<char>),
    Index(int),
}

impl PathStep {
    pub open spec fn view(&self) -> Step {
        match self {
            PathStep::Key(k) => Step::Key(k@),
            PathStep::Index(i) => Step::Index(*i as int),
        }
    }
}

/// What stood where a decode failed: nothing, a value of the wrong kind, or
/// text that is not JSON at all.
#[derive(Debug, PartialEq)]
pub enum Fragment {
    Missing,
    Found(JsonValue),
    Text(String),
}

/// The model of a fragment.
pub enum FragmentModel {
    Missing,
    Found(Json),
    Text(Seq<char>),
}

impl Fragment {
    pub open spec fn view(&self) -> FragmentModel {
        match self {
            Fragment::Missing => FragmentModel::Missing,
            Fragment::Found(j) => FragmentModel::Found(j@),
            Fragment::Text(t) => FragmentModel::Text(t@),
        }
    }
}

/// A response that did not have the shape of the record asked for.
#[derive(Debug, PartialEq)]
pub struct DecodeError {
    pub path: Vec<PathStep>,
    pub fragment: Fragment,
}

/// The model of a decode error.
pub struct DecodeFailure {
    pub path: Seq<Step>,
    pub fragment: FragmentModel,
}

pub open spec fn steps_view(path: Seq<PathStep>) -> Seq<Step> {
    path.map_values(|s: PathStep| s@)
}

impl DecodeError {
    pub open spec fn view(&self) -> DecodeFailure {
        DecodeFailure { path: steps_view(self.path@), fragment: self.fragment@ }
    }
}

/// A failure with `step` put in front of its path.
pub open spec fn nested(e: DecodeFailure, step: Step) -> DecodeFailure {
    DecodeFailure { path: seq![step].add(e.path), fragment: e.fragment }
}

/// The failure of a single field of an object.
pub open spec fn field_failure(key: Seq<char>, fragment: FragmentModel) -> DecodeFailure {
    DecodeFailure { path: seq![Step::Key(key)], fragment }
}

impl DecodeError {
    /// Puts `step` in front of the path of the failure.
    pub fn within(self, step: PathStep) -> (r: DecodeError)
        ensures
            r@ == nested(self@, step@),
    {
        let DecodeError { path, fragment } = self;
        let mut path = path;
        path.insert(0, step);
        let r = DecodeError { path, fragment };
        assert(r@.path =~= nested(self@, step@).path);
        r
    }

    /// The failure of the field `key` of an object.
    pub fn at_field(key: &str, fragment: Fragment) -> (r: DecodeError)
        ensures
            r@ == field_failure(key@, fragment@),
    {
        let mut path: Vec<PathStep> = Vec::new();
        path.push(PathStep::Key(key.to_owned()));
        let r = DecodeError { path, fragment };
        assert(r@.path =~= seq![Step::Key(key@)]);
        r
    }
}

/// Everything that can go wrong with a call to the service.
#[derive(Debug, PartialEq)]
pub enum SapiError {
    /// The request did not complete: refused connection, name lookup, timeout, TLS.
    Transport(String),
    /// A status outside 2xx, with the body that came with it.
    HttpStatus { status: u16, body: String },
    /// Status 404: the resource asked for does not exist.
    NotFound { body: String },
    /// The body did not decode into the record asked for.
    Decode(DecodeError),
}

/// The model of a client error.
pub enum SapiFailure {
    Transport(Seq<char>),
    HttpStatus { status: u16, body: Seq<char> },
    NotFound { body: Seq<char> },
    Decode(DecodeFailure),
}

impl SapiError {
    pub open spec fn view(&self) -> SapiFailure {
        match self {
            SapiError::Transport(m) => SapiFailure::Transport(m@),
            SapiError::HttpStatus { status, body } => SapiFailure::HttpStatus { status: *status, body: body@ },
            SapiError::NotFound { body } => SapiFailure::NotFound { body: body@ },
            SapiError::Decode(e) => SapiFailure::Decode(e@),
        }
    }
}

} // verus!
