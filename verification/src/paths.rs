//! The names and paths that a manifest goes by.

use crate::manifest::{BuildArtifact, BuildArtifactView};
use vstd::prelude::*;
use vstd::string::StringExecFns;

verus! {

/// The marker `\\?\` that Windows puts before a verbatim path. Scoop cannot
/// read a URL that holds it.
pub open spec fn verbatim_marker() -> Seq<char> {
    seq!['\\', '\\', '?', '\\']
}

/// Whether `path` begins with the verbatim marker.
pub open spec fn begins_with_marker(path: Seq<char>) -> bool {
    path.len() >= 4 && path.take(4) == verbatim_marker()
}

/// `path` without the verbatim markers in it, found from left to right.
pub open spec fn without_marker(path: Seq<char>) -> Seq<char>
    decreases path.len(),
{
    if path.len() == 0 {
        path
    } else if begins_with_marker(path) {
        without_marker(path.skip(4))
    } else {
        seq![path[0]] + without_marker(path.skip(1))
    }
}

/// The manifest file of the package `name`: `<name>.json`.
pub open spec fn manifest_file(name: Seq<char>) -> Seq<char> {
    name + ".json"@
}

/// Where cargo puts the released binary of the crate `name`, from the
/// crate's directory: `target/release/<name>.exe`.
pub open spec fn release_file(name: Seq<char>) -> Seq<char> {
    "target/release/"@ + name + ".exe"@
}

/// Where the local bucket of Scoop lies, from the home directory.
pub open spec fn local_bucket() -> Seq<char> {
    "scoop/buckets/local"@
}

/// `String::push`, which appends one character to the text.
#[verifier::external_body]
fn push_char(text: &mut String, c: char)
    ensures
        final(text)@ == old(text)@.push(c),
{
    text.push(c)
}

/// The characters of a text.
fn chars_of(text: &str) -> (chars: Vec<char>)
    ensures
        chars@ == text@,
{
    let mut chars: Vec<char> = Vec::new();
    for c in it: text.chars()
        invariant
            it.seq() == text@,
            chars@ == text@.take(it.index() as int),
    {
        chars.push(c);
    }
    chars
}

/// The URL of an artifact: its path without the verbatim markers.
pub fn artifact_url(path: &str) -> (url: String)
    ensures
        url@ == without_marker(path@),
{
    let chars = chars_of(path);
    let len = chars.len();
    let mut url = String::new();
    let mut at: usize = 0;
    assert(url@ + without_marker(chars@.skip(0)) =~= without_marker(chars@)) by {
        assert(chars@.skip(0) =~= chars@);
    }
    while at < len
        invariant
            len == chars@.len(),
            at <= len,
            without_marker(chars@) == url@ + without_marker(chars@.skip(at as int)),
        decreases len - at,
    {
        let ghost rest = chars@.skip(at as int);
        if len - at >= 4 && chars[at] == '\\' && chars[at + 1] == '\\' && chars[at + 2] == '?'
            && chars[at + 3] == '\\' {
            assert(rest.take(4) =~= verbatim_marker());
            assert(rest.skip(4) =~= chars@.skip(at + 4));
            at += 4;
        } else {
            assert(!begins_with_marker(rest)) by {
                if rest.len() >= 4 {
                    assert(rest.take(4)[0] == rest[0]);
                    assert(rest.take(4)[1] == rest[1]);
                    assert(rest.take(4)[2] == rest[2]);
                    assert(rest.take(4)[3] == rest[3]);
                }
            }
            assert(rest.skip(1) =~= chars@.skip(at + 1));
            assert(url@.push(rest[0]) + without_marker(rest.skip(1)) =~= url@ + (seq![rest[0]]
                + without_marker(rest.skip(1))));
            push_char(&mut url, chars[at]);
            at += 1;
        }
    }
    assert(url@ + without_marker(chars@.skip(len as int)) =~= url@);
    url
}

/// The name of the manifest file of the package `name`.
pub fn manifest_file_name(name: &str) -> (file: String)
    ensures
        file@ == manifest_file(name@),
{
    let mut file = name.to_owned();
    file.append(".json");
    file
}

/// The path of the released binary of the crate `name`, from the crate's
/// directory.
pub fn release_file_path(name: &str) -> (path: String)
    ensures
        path@ == release_file(name@),
{
    let mut path = "target/release/".to_owned();
    path.append(name);
    path.append(".exe");
    path
}

/// The path of the local bucket of Scoop, from the home directory.
pub fn local_bucket_path() -> (path: String)
    ensures
        path@ == local_bucket(),
{
    "scoop/buckets/local".to_owned()
}

impl BuildArtifact {
    /// The artifact at `path`, whose content has the digest `digest`. The
    /// path is kept as the URL that the manifest gives.
    pub fn new(path: &str, digest: &str) -> (artifact: Self)
        ensures
            artifact@ == (BuildArtifactView { path: without_marker(path@), digest: digest@ }),
    {
        Self { path: artifact_url(path), digest: digest.to_owned() }
    }
}

} // verus!
