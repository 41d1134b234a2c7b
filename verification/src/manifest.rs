//! The manifest record and how it is assembled from a finished build.

use crate::json::{alias_table, Json, JsonView, Member, MemberView};
use vstd::prelude::*;

verus! {

/// What the package section of a crate's `Cargo.toml` says of it.
#[derive(Clone, Debug, PartialEq, Eq)]
pub struct CargoToml {
    pub version: String,
    pub name: String,
    pub license: String,
}

/// The mathematical value of a [`CargoToml`].
pub ghost struct CargoTomlView {
    pub version: Seq<char>,
    pub name: Seq<char>,
    pub license: Seq<char>,
}

impl View for CargoToml {
    type V = CargoTomlView;

    open spec fn view(&self) -> CargoTomlView {
        CargoTomlView { version: self.version@, name: self.name@, license: self.license@ }
    }
}

/// The released binary: where it lies and the digest of its content.
#[derive(Clone, Debug, PartialEq, Eq)]
pub struct BuildArtifact {
    pub path: String,
    pub digest: String,
}

/// The mathematical value of a [`BuildArtifact`].
pub ghost struct BuildArtifactView {
    pub path: Seq<char>,
    pub digest: Seq<char>,
}

impl View for BuildArtifact {
    type V = BuildArtifactView;

    open spec fn view(&self) -> BuildArtifactView {
        BuildArtifactView { path: self.path@, digest: self.digest@ }
    }
}

/// How the binary is presented to Scoop: under which alias and name, and
/// whether as a shim or as a shortcut.
#[derive(Clone, Debug, PartialEq, Eq)]
pub struct PresentationOptions {
    pub alias: String,
    pub display_binary_name: String,
    pub is_gui_app: bool,
}

/// The mathematical value of a [`PresentationOptions`].
pub ghost struct PresentationOptionsView {
    pub alias: Seq<char>,
    pub display_binary_name: Seq<char>,
    pub is_gui_app: bool,
}

impl View for PresentationOptions {
    type V = PresentationOptionsView;

    open spec fn view(&self) -> PresentationOptionsView {
        PresentationOptionsView {
            alias: self.alias@,
            display_binary_name: self.display_binary_name@,
            is_gui_app: self.is_gui_app,
        }
    }
}

/// Pseudo manifest for Scoop.
#[derive(Debug, PartialEq, Eq)]
pub struct Manifest {
    pub version: String,
    pub url: String,
    pub hash: String,
    pub bin: Json,
    pub shortcuts: Json,
    pub license: String,
    pub architecture: Json,
}

/// The mathematical value of a [`Manifest`].
pub ghost struct ManifestView {
    pub version: Seq<char>,
    pub url: Seq<char>,
    pub hash: Seq<char>,
    pub bin: JsonView,
    pub shortcuts: JsonView,
    pub license: Seq<char>,
    pub architecture: JsonView,
}

impl View for Manifest {
    type V = ManifestView;

    open spec fn view(&self) -> ManifestView {
        ManifestView {
            version: self.version@,
            url: self.url@,
            hash: self.hash@,
            bin: self.bin@,
            shortcuts: self.shortcuts@,
            license: self.license@,
            architecture: self.architecture@,
        }
    }
}

/// The object `{ "url": url, "hash": hash }`.
pub open spec fn download(url: Seq<char>, hash: Seq<char>) -> JsonView {
    JsonView::Object(
        seq![
            MemberView { key: "url"@, value: JsonView::Text(url) },
            MemberView { key: "hash"@, value: JsonView::Text(hash) },
        ],
    )
}

/// The architecture table: the one download, under the key `64bit`.
pub open spec fn architecture_table(url: Seq<char>, hash: Seq<char>) -> JsonView {
    JsonView::Object(seq![MemberView { key: "64bit"@, value: download(url, hash) }])
}

/// The manifest of a build. A command line tool gets a shim, `bin` being
/// `[[name, alias]]`, and no shortcut; a GUI app gets the bare name as `bin`
/// and `[[name, alias]]` as its shortcuts.
pub open spec fn manifest_of(
    metadata: CargoTomlView,
    artifact: BuildArtifactView,
    options: PresentationOptionsView,
) -> ManifestView {
    let shim = alias_table(options.display_binary_name, options.alias);
    ManifestView {
        version: metadata.version,
        url: artifact.path,
        hash: artifact.digest,
        bin: if options.is_gui_app {
            JsonView::Text(options.display_binary_name)
        } else {
            shim
        },
        shortcuts: if options.is_gui_app {
            shim
        } else {
            JsonView::List(Seq::empty())
        },
        license: metadata.license,
        architecture: architecture_table(artifact.path, artifact.digest),
    }
}

/// The name under which the binary is installed: the one asked for, or else
/// the file name of the artifact.
pub open spec fn display_name(explicit: Option<Seq<char>>, file_name: Seq<char>) -> Seq<char> {
    match explicit {
        Some(name) => name,
        None => file_name,
    }
}

impl PresentationOptions {
    /// The options of a run. Without an explicit name the binary is
    /// installed under the file name of the artifact.
    pub fn new(
        alias: String,
        explicit_name: Option<String>,
        artifact_file_name: String,
        is_gui_app: bool,
    ) -> (options: Self)
        ensures
            options@ == (PresentationOptionsView {
                alias: alias@,
                display_binary_name: display_name(
                    match explicit_name {
                        Some(name) => Some(name@),
                        None => None,
                    },
                    artifact_file_name@,
                ),
                is_gui_app,
            }),
    {
        let display_binary_name = match explicit_name {
            Some(name) => name,
            None => artifact_file_name,
        };
        Self { alias, display_binary_name, is_gui_app }
    }
}

/// The architecture table of a download.
fn architecture_of(url: &str, hash: &str) -> (json: Json)
    ensures
        json@ == architecture_table(url@, hash@),
{
    let mut fields: Vec<Member> = Vec::new();
    fields.push(Member { key: "url".to_owned(), value: Json::text(url) });
    fields.push(Member { key: "hash".to_owned(), value: Json::text(hash) });
    let inner = Json::object(fields);
    assert(inner@->Object_0 =~= download(url@, hash@)->Object_0);
    let mut targets: Vec<Member> = Vec::new();
    targets.push(Member { key: "64bit".to_owned(), value: inner });
    let json = Json::object(targets);
    assert(json@->Object_0 =~= architecture_table(url@, hash@)->Object_0);
    json
}

/// Assembles the manifest of a build.
pub fn build(
    metadata: &CargoToml,
    artifact: &BuildArtifact,
    options: &PresentationOptions,
) -> (manifest: Manifest)
    ensures
        manifest@ == manifest_of(metadata@, artifact@, options@),
{
    let name = options.display_binary_name.as_str();
    let alias = options.alias.as_str();
    let bin = if !options.is_gui_app {
        Json::alias_table(name, alias)
    } else {
        Json::text(name)
    };
    let shortcuts = if options.is_gui_app {
        Json::alias_table(name, alias)
    } else {
        let none = Json::list(Vec::new());
        assert(none@->List_0 =~= Seq::<JsonView>::empty());
        none
    };
    Manifest {
        version: metadata.version.clone(),
        url: artifact.path.clone(),
        hash: artifact.digest.clone(),
        bin,
        shortcuts,
        license: metadata.license.clone(),
        architecture: architecture_of(artifact.path.as_str(), artifact.digest.as_str()),
    }
}

} // verus!
