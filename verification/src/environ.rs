//! The environment that a request is handed to the application in: an
//! ordered list of keys and values. Where it is turned into a mapping, a
//! later entry replaces an earlier one with the same key.

use vstd::prelude::*;
use vstd::string::*;
use crate::request::{BussardRequest, RequestView};

verus! {

/// A value of the environment.
#[derive(Debug)]
pub enum EnvValue {
    /// A string.
    Text(String),
    /// A number of bytes.
    Length(usize),
    /// A boolean marker.
    Flag(bool),
    /// A version: major and minor number.
    Version(u8, u8),
    /// The request itself, from which the application reads the body.
    Input(BussardRequest),
}

/// A value of the environment, as mathematical data.
pub enum EnvValueView {
    Text(Seq<char>),
    Length(nat),
    Flag(bool),
    Version(nat, nat),
    Input(RequestView),
}

impl View for EnvValue {
    type V = EnvValueView;

    open spec fn view(&self) -> EnvValueView {
        match *self {
            EnvValue::Text(s) => EnvValueView::Text(s@),
            EnvValue::Length(n) => EnvValueView::Length(n as nat),
            EnvValue::Flag(b) => EnvValueView::Flag(b),
            EnvValue::Version(major, minor) => EnvValueView::Version(major as nat, minor as nat),
            EnvValue::Input(req) => EnvValueView::Input(req@),
        }
    }
}

/// One entry of the environment.
#[derive(Debug)]
pub struct EnvEntry {
    pub key: String,
    pub value: EnvValue,
}

impl View for EnvEntry {
    type V = (Seq<char>, EnvValueView);

    open spec fn view(&self) -> (Seq<char>, EnvValueView) {
        (self.key@, self.value@)
    }
}

/// A variable of the process environment: its name and its value.
#[derive(Debug, Clone, PartialEq, Eq)]
pub struct EnvVar {
    pub name: String,
    pub value: String,
}

/// The keys and values that a list of entries holds, in order.
pub open spec fn entries_of(entries: Seq<EnvEntry>) -> Seq<(Seq<char>, EnvValueView)> {
    Seq::new(entries.len(), |i: int| entries[i]@)
}

/// The inherited variables, each as a text entry.
pub open spec fn inherited_entries(inherited: Seq<EnvVar>) -> Seq<(Seq<char>, EnvValueView)> {
    Seq::new(inherited.len(), |i: int| (inherited[i].name@, EnvValueView::Text(inherited[i].value@)))
}

/// The entries that describe the request itself.
pub open spec fn request_entries(req: RequestView) -> Seq<(Seq<char>, EnvValueView)> {
    seq![
        ("wsgi.url_scheme"@, EnvValueView::Text("http"@)),
        ("HTTP_HOST"@, EnvValueView::Text("localhost"@)),
        ("REQUEST_METHOD"@, EnvValueView::Text(req.method)),
    ] + (if req.path.len() > 0 {
        seq![("PATH_INFO"@, EnvValueView::Text(req.path))]
    } else {
        Seq::empty()
    }) + seq![
        ("CONTENT_LENGTH"@, EnvValueView::Length(req.body.len())),
        ("wsgi.input"@, EnvValueView::Input(req)),
        ("wsgi.version"@, EnvValueView::Version(1, 0)),
        ("wsgi.run_once"@, EnvValueView::Flag(false)),
    ]
}

/// The environment of a request: the inherited variables first, then the
/// entries of the request, so that these win over an inherited variable of
/// the same name.
pub open spec fn environ_of(req: RequestView, inherited: Seq<EnvVar>) -> Seq<
    (Seq<char>, EnvValueView),
> {
    inherited_entries(inherited) + request_entries(req)
}

fn text_entry(key: &str, value: &str) -> (r: EnvEntry)
    ensures
        r@ == (key@, EnvValueView::Text(value@)),
{
    EnvEntry { key: String::from_str(key), value: EnvValue::Text(String::from_str(value)) }
}

/// Builds the environment for one request. The request moves into the
/// environment, as the value of `wsgi.input`. `PATH_INFO` is left out where
/// the path is empty; `CONTENT_LENGTH` is the length of the whole body.
pub fn add_per_request_environ(req: BussardRequest, inherited: &Vec<EnvVar>) -> (r: Vec<EnvEntry>)
    ensures
        entries_of(r@) == environ_of(req@, inherited@),
{
    let mut env: Vec<EnvEntry> = Vec::new();
    let mut i: usize = 0;
    while i < inherited.len()
        invariant
            i <= inherited.len(),
            env.len() == i,
            forall|j: int|
                0 <= j < i ==> (#[trigger] env[j])@ == (
                    inherited[j].name@,
                    EnvValueView::Text(inherited[j].value@),
                ),
        decreases inherited.len() - i,
    {
        let var = &inherited[i];
        env.push(text_entry(var.name.as_str(), var.value.as_str()));
        i += 1;
    }
    assert(entries_of(env@) =~= inherited_entries(inherited@));
    let ghost head = entries_of(env@);
    env.push(text_entry("wsgi.url_scheme", "http"));
    env.push(text_entry("HTTP_HOST", "localhost"));
    env.push(text_entry("REQUEST_METHOD", req.method()));
    if !req.path().is_empty() {
        env.push(text_entry("PATH_INFO", req.path()));
    }
    env.push(
        EnvEntry {
            key: String::from_str("CONTENT_LENGTH"),
            value: EnvValue::Length(req.body().len()),
        },
    );
    let ghost view = req@;
    env.push(EnvEntry { key: String::from_str("wsgi.input"), value: EnvValue::Input(req) });
    env.push(EnvEntry { key: String::from_str("wsgi.version"), value: EnvValue::Version(1, 0) });
    env.push(EnvEntry { key: String::from_str("wsgi.run_once"), value: EnvValue::Flag(false) });
    assert(entries_of(env@) =~= head + request_entries(view));
    env
}

} // verus!
