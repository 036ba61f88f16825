//! Where the backend's files are looked for, relative to the directory the
//! application is installed in.
//!
//! Nothing here touches the filesystem. The caller looks at each candidate
//! and records what it saw in an [`Installation`]; the functions of this
//! module decide from that record.

use vstd::prelude::*;

verus! {

/// A path below the install directory: the names to descend through,
/// outermost first.
#[derive(Clone, Debug, PartialEq, Eq)]
pub struct InstallPath {
    pub names: Vec<&'static str>,
}

impl View for InstallPath {
    type V = Seq<Seq<char>>;

    open spec fn view(&self) -> Seq<Seq<char>> {
        Seq::new(self.names@.len(), |i: int| self.names@[i]@)
    }
}

/// The program that runs the server archive.
#[derive(Clone, Debug, PartialEq, Eq)]
pub enum JavaBin {
    /// A launcher below the install directory.
    Installed(InstallPath),
    /// A bare program name, left to the search path of the environment when
    /// the process is started.
    SearchPath(&'static str),
}

/// What a [`JavaBin`] says, as text.
pub enum JavaBinView {
    Installed(Seq<Seq<char>>),
    SearchPath(Seq<char>),
}

impl View for JavaBin {
    type V = JavaBinView;

    open spec fn view(&self) -> JavaBinView {
        match self {
            JavaBin::Installed(path) => JavaBinView::Installed(path@),
            JavaBin::SearchPath(name) => JavaBinView::SearchPath(name@),
        }
    }
}

/// What was seen on this machine just before a launch.
#[derive(Clone, Copy, Debug, PartialEq, Eq)]
pub struct Installation {
    /// `resources/backend/server.jar` below the install directory is a file.
    pub bundled_jar: bool,
    /// `server.jar` in the install directory is a file.
    pub portable_jar: bool,
    /// `resources/jre/bin/javaw.exe` below the install directory is a file.
    pub bundled_java: bool,
    /// The application was built for Windows.
    pub windows: bool,
}

/// The archive and the program that runs it, as found for one launch.
#[derive(Clone, Debug, PartialEq, Eq)]
pub struct BackendLocation {
    pub artifact: InstallPath,
    pub runtime: JavaBin,
}

/// What a [`BackendLocation`] says, as text.
pub struct BackendLocationView {
    pub artifact: Seq<Seq<char>>,
    pub runtime: JavaBinView,
}

impl View for BackendLocation {
    type V = BackendLocationView;

    open spec fn view(&self) -> BackendLocationView {
        BackendLocationView { artifact: self.artifact@, runtime: self.runtime@ }
    }
}

/// The directory the application is installed in.
#[derive(Clone, Debug, PartialEq, Eq)]
pub enum InstallDir<P> {
    /// A directory that the system named.
    Named(P),
    /// The directory `.`, when the system named none.
    Dot,
}

/// The server archive as the installer lays it out.
pub open spec fn bundled_jar_path() -> Seq<Seq<char>> {
    seq!["resources"@, "backend"@, "server.jar"@]
}

/// The server archive beside the executable, as in a portable copy.
pub open spec fn portable_jar_path() -> Seq<Seq<char>> {
    seq!["server.jar"@]
}

/// The Java launcher that is shipped with the application.
pub open spec fn bundled_java_path() -> Seq<Seq<char>> {
    seq!["resources"@, "jre"@, "bin"@, "javaw.exe"@]
}

/// The first of `candidates` that is a file, where `is_file[i]` says whether
/// `candidates[i]` is one.
pub open spec fn first_existing<A>(candidates: Seq<A>, is_file: Seq<bool>) -> Option<A>
    decreases candidates.len(),
{
    if candidates.len() == 0 || is_file.len() == 0 {
        None
    } else if is_file[0] {
        Some(candidates[0])
    } else {
        first_existing(candidates.drop_first(), is_file.drop_first())
    }
}

/// The places where the server archive is looked for, first choice first.
pub open spec fn jar_candidates() -> Seq<Seq<Seq<char>>> {
    seq![bundled_jar_path(), portable_jar_path()]
}

/// Which of `jar_candidates` are files on this machine, in the same order.
pub open spec fn jar_findings(inst: Installation) -> Seq<bool> {
    seq![inst.bundled_jar, inst.portable_jar]
}

/// The places where a shipped Java launcher is looked for.
pub open spec fn java_candidates() -> Seq<Seq<Seq<char>>> {
    seq![bundled_java_path()]
}

/// Which of `java_candidates` are files on this machine.
pub open spec fn java_findings(inst: Installation) -> Seq<bool> {
    seq![inst.bundled_java]
}

/// The server archive that a launch uses, if the machine has one: the
/// bundled one where that is a file, else the portable one where that is a
/// file.
pub open spec fn located_jar(inst: Installation) -> Option<Seq<Seq<char>>> {
    if inst.bundled_jar {
        Some(bundled_jar_path())
    } else if inst.portable_jar {
        Some(portable_jar_path())
    } else {
        None
    }
}

/// The name under which Java is asked of the search path.
pub open spec fn java_on_search_path(windows: bool) -> Seq<char> {
    if windows {
        "javaw.exe"@
    } else {
        "java"@
    }
}

/// The program that a launch runs the archive with: the shipped launcher
/// where that is a file, else a bare name, so that a program is named on
/// every machine.
pub open spec fn located_java(inst: Installation) -> JavaBinView {
    if inst.bundled_java {
        JavaBinView::Installed(bundled_java_path())
    } else {
        JavaBinView::SearchPath(java_on_search_path(inst.windows))
    }
}

/// The archive and the program of a launch, if the machine has the archive.
pub open spec fn located_backend(inst: Installation) -> Option<BackendLocationView> {
    match located_jar(inst) {
        Some(artifact) => Some(BackendLocationView { artifact, runtime: located_java(inst) }),
        None => None,
    }
}

/// The install directory, from what the system could name: the directory of
/// the running executable first, the working directory second, `.` last.
pub open spec fn chosen_install_dir<P>(exe_parent: Option<P>, working_dir: Option<P>) -> InstallDir<P> {
    match exe_parent {
        Some(dir) => InstallDir::Named(dir),
        None => match working_dir {
            Some(dir) => InstallDir::Named(dir),
            None => InstallDir::Dot,
        },
    }
}

/// The first existing candidate wins, and none is found only where none
/// exists: whatever the candidates are and whichever of them exist,
/// `first_existing` gives a candidate that is a file and has no file before
/// it in the list, and it gives nothing exactly when no candidate is a file.
pub proof fn lemma_first_existing_wins<A>(candidates: Seq<A>, is_file: Seq<bool>)
    requires
        candidates.len() == is_file.len(),
    ensures
        match first_existing(candidates, is_file) {
            Some(found) => exists|i: int|
                0 <= i < candidates.len() && is_file[i] && found == candidates[i] && forall|j: int|
                    0 <= j < i ==> !is_file[j],
            None => forall|j: int| 0 <= j < candidates.len() ==> !is_file[j],
        },
    decreases candidates.len(),
{
    if candidates.len() > 0 && !is_file[0] {
        let rest = candidates.drop_first();
        let rest_is_file = is_file.drop_first();
        lemma_first_existing_wins(rest, rest_is_file);
        match first_existing(rest, rest_is_file) {
            Some(found) => {
                let i = choose|i: int|
                    0 <= i < rest.len() && rest_is_file[i] && found == rest[i] && forall|j: int|
                        0 <= j < i ==> !rest_is_file[j];
                assert forall|j: int| 0 <= j < i + 1 implies !is_file[j] by {
                    if j > 0 {
                        assert(is_file[j] == rest_is_file[j - 1]);
                    }
                }
            },
            None => {
                assert forall|j: int| 0 <= j < candidates.len() implies !is_file[j] by {
                    if j > 0 {
                        assert(is_file[j] == rest_is_file[j - 1]);
                    }
                }
            },
        }
    }
}

/// The archive that a launch uses is the first of `jar_candidates` that is
/// a file, and there is none exactly where no candidate is a file.
pub proof fn lemma_located_jar_is_first_existing(inst: Installation)
    ensures
        located_jar(inst) == first_existing(jar_candidates(), jar_findings(inst)),
        located_jar(inst) is None <==> !inst.bundled_jar && !inst.portable_jar,
{
    reveal_with_fuel(first_existing, 3);
}

/// The program that a launch runs is the first of `java_candidates` that is
/// a file, and the name for the search path where none is.
pub proof fn lemma_located_java_is_first_existing(inst: Installation)
    ensures
        located_java(inst) == match first_existing(java_candidates(), java_findings(inst)) {
            Some(path) => JavaBinView::Installed(path),
            None => JavaBinView::SearchPath(java_on_search_path(inst.windows)),
        },
{
    reveal_with_fuel(first_existing, 2);
}

/// `resources/backend/server.jar`
pub fn bundled_jar() -> (path: InstallPath)
    ensures
        path@ == bundled_jar_path(),
{
    let path = InstallPath { names: vec!["resources", "backend", "server.jar"] };
    path
}

/// `server.jar`
pub fn portable_jar() -> (path: InstallPath)
    ensures
        path@ == portable_jar_path(),
{
    let path = InstallPath { names: vec!["server.jar"] };
    path
}

/// `resources/jre/bin/javaw.exe`
pub fn bundled_java() -> (path: InstallPath)
    ensures
        path@ == bundled_java_path(),
{
    let path = InstallPath { names: vec!["resources", "jre", "bin", "javaw.exe"] };
    path
}

/// Chooses the install directory from what the system could name.
pub fn install_dir<P>(exe_parent: Option<P>, working_dir: Option<P>) -> (dir: InstallDir<P>)
    ensures
        dir == chosen_install_dir(exe_parent, working_dir),
{
    match exe_parent {
        Some(dir) => InstallDir::Named(dir),
        None => match working_dir {
            Some(dir) => InstallDir::Named(dir),
            None => InstallDir::Dot,
        },
    }
}

/// Finds the server archive: the first candidate that is a file, in the
/// order of `jar_candidates`; nothing where no candidate is one.
pub fn locate_server_jar(inst: &Installation) -> (found: Option<InstallPath>)
    ensures
        match found {
            Some(path) => located_jar(*inst) == Some(path@),
            None => located_jar(*inst) is None,
        },
{
    if inst.bundled_jar {
        Some(bundled_jar())
    } else if inst.portable_jar {
        Some(portable_jar())
    } else {
        None
    }
}

/// Finds the program that runs the archive: the shipped launcher where it is
/// a file, else the name that the search path is asked for.
pub fn locate_java_bin(inst: &Installation) -> (bin: JavaBin)
    ensures
        bin@ == located_java(*inst),
{
    if inst.bundled_java {
        JavaBin::Installed(bundled_java())
    } else if inst.windows {
        JavaBin::SearchPath("javaw.exe")
    } else {
        JavaBin::SearchPath("java")
    }
}

/// Finds what a launch needs: the archive, and the program to run it with.
/// There is a result exactly where the archive is found.
pub fn locate_backend(inst: &Installation) -> (found: Option<BackendLocation>)
    ensures
        match found {
            Some(location) => located_backend(*inst) == Some(location@),
            None => located_backend(*inst) is None,
        },
{
    match locate_server_jar(inst) {
        Some(artifact) => Some(BackendLocation { artifact, runtime: locate_java_bin(inst) }),
        None => None,
    }
}

} // verus!
