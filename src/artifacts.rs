//! Names of the build artifacts: the compiled script and the linked plugin.
use vstd::prelude::*;

verus! {

/// The platforms whose shared-library naming conventions the pipeline knows.
#[derive(Clone, Copy, Debug, PartialEq, Eq, Structural)]
pub enum Platform {
    Linux,
    MacOs,
}

/// The extension of a shared library on `p`, without the dot.
pub open spec fn shared_library_extension_of(p: Platform) -> Seq<char> {
    match p {
        Platform::Linux => "so"@,
        Platform::MacOs => "dylib"@,
    }
}

/// The file name, extension aside, that the linked plugin takes beside the host artifact.
pub open spec fn linked_plugin_name() -> Seq<char> {
    "liblinked"@
}

/// What `Path::with_extension` makes of a path and an extension.
pub uninterp spec fn path_with_extension(path: Seq<char>, extension: Seq<char>) -> Seq<char>;

/// What `Path::with_file_name` makes of a path and a file name.
pub uninterp spec fn path_with_file_name(path: Seq<char>, name: Seq<char>) -> Seq<char>;

/// Relies on `std::path::Path::with_extension`: the path with the extension of
/// its last component replaced by (or extended with) `extension`. The result
/// depends on the two strings alone; a path built from UTF-8 text stays UTF-8.
/// An extension that holds a path separator makes the call panic, so it is
/// ruled out.
#[verifier::external_body]
fn with_extension(path: &str, extension: &str) -> (r: String)
    requires
        forall|i: int| 0 <= i < extension@.len() ==> extension@[i] != '/' && extension@[i] != '\\',
    ensures
        r@ == path_with_extension(path@, extension@),
{
    std::path::Path::new(path).with_extension(extension).to_string_lossy().into_owned()
}

/// Relies on `std::path::Path::with_file_name`: the path with its last
/// component replaced by `name`. The result depends on the two strings alone.
#[verifier::external_body]
fn with_file_name(path: &str, name: &str) -> (r: String)
    ensures
        r@ == path_with_file_name(path@, name@),
{
    std::path::Path::new(path).with_file_name(name).to_string_lossy().into_owned()
}

impl Platform {
    /// The shared-library extension of this platform: `so` on Linux, `dylib` on macOS.
    pub fn shared_library_extension(self) -> (r: &'static str)
        ensures
            r@ == shared_library_extension_of(self),
            forall|i: int| 0 <= i < r@.len() ==> r@[i] != '/' && r@[i] != '\\',
    {
        proof {
            reveal_strlit("so");
            reveal_strlit("dylib");
        }
        match self {
            Platform::Linux => "so",
            Platform::MacOs => "dylib",
        }
    }
}

/// The artifact that compiling `script` leaves: the script path with its
/// extension replaced by the platform's shared-library extension.
pub open spec fn script_artifact_of(script: Seq<char>, p: Platform) -> Seq<char> {
    path_with_extension(script, shared_library_extension_of(p))
}

/// The plugin that linking produces: beside the host artifact, named
/// `liblinked` with the platform's shared-library extension.
pub open spec fn linked_plugin_of(host: Seq<char>, p: Platform) -> Seq<char> {
    path_with_extension(path_with_file_name(host, linked_plugin_name()), shared_library_extension_of(p))
}

/// Derives the script artifact's path from the script's path.
pub fn script_artifact_path(script: &str, p: Platform) -> (r: String)
    ensures
        r@ == script_artifact_of(script@, p),
{
    with_extension(script, p.shared_library_extension())
}

/// Derives the linked plugin's path from the host artifact's path.
pub fn linked_plugin_path(host: &str, p: Platform) -> (r: String)
    ensures
        r@ == linked_plugin_of(host@, p),
{
    let named = with_file_name(host, "liblinked");
    with_extension(named.as_str(), p.shared_library_extension())
}

/// The inputs of a run and the artifacts derived from them.
pub struct ArtifactPaths {
    /// The script source to compile.
    pub script: String,
    /// The prebuilt host artifact.
    pub host: String,
    /// Where the compiler leaves the script's shared library.
    pub script_artifact: String,
    /// Where the linker writes the merged plugin.
    pub linked_plugin: String,
}

/// The four paths of an [`ArtifactPaths`], as text.
pub struct ArtifactPathsView {
    pub script: Seq<char>,
    pub host: Seq<char>,
    pub script_artifact: Seq<char>,
    pub linked_plugin: Seq<char>,
}

impl View for ArtifactPaths {
    type V = ArtifactPathsView;

    open spec fn view(&self) -> ArtifactPathsView {
        ArtifactPathsView {
            script: self.script@,
            host: self.host@,
            script_artifact: self.script_artifact@,
            linked_plugin: self.linked_plugin@,
        }
    }
}

/// The paths that resolving `script` and `host` on `p` yields.
pub open spec fn resolved_paths(script: Seq<char>, host: Seq<char>, p: Platform) -> ArtifactPathsView {
    ArtifactPathsView {
        script,
        host,
        script_artifact: script_artifact_of(script, p),
        linked_plugin: linked_plugin_of(host, p),
    }
}

impl ArtifactPaths {
    /// Derives every artifact path of a run from the script and host paths.
    pub fn resolve(script: &str, host: &str, p: Platform) -> (r: ArtifactPaths)
        ensures
            r@ == resolved_paths(script@, host@, p),
    {
        ArtifactPaths {
            script: String::from_str(script),
            host: String::from_str(host),
            script_artifact: script_artifact_path(script, p),
            linked_plugin: linked_plugin_path(host, p),
        }
    }
}

/// Resolution is deterministic: any two resolutions of the same script and
/// host paths on the same platform name the same artifacts.
pub proof fn lemma_resolution_deterministic(
    script: Seq<char>,
    host: Seq<char>,
    p: Platform,
    first: ArtifactPaths,
    second: ArtifactPaths,
)
    requires
        first@ == resolved_paths(script, host, p),
        second@ == resolved_paths(script, host, p),
    ensures
        first@ == second@,
        first.script_artifact@ == second.script_artifact@,
        first.linked_plugin@ == second.linked_plugin@,
{
}

} // verus!
