//! The entry in the desktop's launcher.

use vstd::prelude::*;
use vstd::string::*;

use crate::config::home_dir;
use crate::path;
use crate::text;

verus! {

/// The icon. Themes often have a microphone in symbolic form only, and a name that is not
/// found shows as a gear wheel.
pub const ICON_SVG: &'static str = r##"<svg xmlns="http://www.w3.org/2000/svg" viewBox="0 0 64 64">
  <circle cx="32" cy="32" r="30" fill="#e95420"/>
  <rect x="26" y="13" width="12" height="23" rx="6" fill="#ffffff"/>
  <path d="M20 30v3a12 12 0 0 0 24 0v-3" stroke="#ffffff" stroke-width="4" fill="none" stroke-linecap="round"/>
  <path d="M32 45v5M25 50h14" stroke="#ffffff" stroke-width="4" stroke-linecap="round"/>
</svg>
"##;

// ---------------------------------------------------------------------------
// Files
// ---------------------------------------------------------------------------

/// Where the launcher's files go.
#[derive(Debug, PartialEq)]
pub struct DesktopPaths {
    /// The directory of the launcher's entries.
    pub apps: Vec<u8>,
    /// The entry.
    pub entry: Vec<u8>,
    /// The directory of the icon.
    pub icons: Vec<u8>,
    /// The icon.
    pub icon: Vec<u8>,
}

#[verifier::ext_equal]
pub struct Files {
    pub apps: Seq<u8>,
    pub entry: Seq<u8>,
    pub icons: Seq<u8>,
    pub icon: Seq<u8>,
}

impl View for DesktopPaths {
    type V = Files;

    open spec fn view(&self) -> Files {
        Files {
            apps: self.apps@,
            entry: self.entry@,
            icons: self.icons@,
            icon: self.icon@,
        }
    }
}

/// The directory of the user's data, for the values of `XDG_DATA_HOME` and `HOME`.
pub open spec fn data_dir(data_home: Option<&[u8]>, home: Option<&[u8]>) -> Seq<u8> {
    path::directory_or(data_home, path::joined(home->0@, ".local/share".spec_bytes()))
}

/// Where the launcher's files go in a directory of data.
pub open spec fn files_in(data: Seq<u8>) -> Files {
    let apps = path::joined(data, "applications".spec_bytes());
    let icons = path::joined(data, "icons/hicolor/scalable/apps".spec_bytes());
    Files {
        apps,
        entry: path::joined(apps, "micloop.desktop".spec_bytes()),
        icons,
        icon: path::joined(icons, "micloop.svg".spec_bytes()),
    }
}

/// Where the launcher's files go, for the values of `XDG_DATA_HOME` and `HOME`.
pub fn desktop_paths(data_home: Option<&[u8]>, home: Option<&[u8]>) -> (paths: DesktopPaths)
    requires
        data_home is Some || home is Some,
    ensures
        paths@ == files_in(data_dir(data_home, home)),
{
    let data = match data_home {
        Some(dir) => path::copy(dir),
        None => path::join(home_dir(home).as_slice(), ".local/share"),
    };
    let apps = path::join(data.as_slice(), "applications");
    let entry = path::join(apps.as_slice(), "micloop.desktop");
    let icons = path::join(data.as_slice(), "icons/hicolor/scalable/apps");
    let icon = path::join(icons.as_slice(), "micloop.svg");
    DesktopPaths { apps, entry, icons, icon }
}

/// The text of the entry, which starts the program at `exe`.
pub open spec fn entry_text(exe: Seq<char>) -> Seq<char> {
    "[Desktop Entry]\nType=Application\nName=Micloop\nComment=マイクループバック (ホットキー制御)\nExec="@
        + exe
        + "\nIcon=micloop\nTerminal=false\nCategories=AudioVideo;Audio;\nKeywords=micloop;loopback;mic;\n"@
}

/// The entry in the launcher that starts the program at `exe`.
pub fn desktop_entry(exe: &str) -> (entry: String)
    ensures
        entry@ == entry_text(exe@),
{
    "[Desktop Entry]\nType=Application\nName=Micloop\nComment=マイクループバック (ホットキー制御)\nExec=".to_string().concat(
        exe,
    ).concat(
        "\nIcon=micloop\nTerminal=false\nCategories=AudioVideo;Audio;\nKeywords=micloop;loopback;mic;\n",
    )
}

// ---------------------------------------------------------------------------
// Installing and removing
// ---------------------------------------------------------------------------

/// What is being done.
#[derive(Clone, Copy, Debug, PartialEq, Eq, Structural)]
pub enum DesktopPhase {
    WritingIcon,
    /// The user is being told that there is no icon.
    ReportingIcon,
    WritingEntry,
    /// The user is being told that there is no entry.
    ReportingEntry,
    UpdatingDatabase,
    RemovingEntry,
    RemovingIcon,
    /// The user is being told of the success.
    Telling,
    Finished,
}

/// What is to be done next.
#[derive(Debug, PartialEq)]
pub enum DesktopAction {
    /// Make the directory, with those above it, and write the file.
    Write { dir: Vec<u8>, path: Vec<u8>, contents: String },
    /// Remove the file, if it is there.
    Remove(Vec<u8>),
    /// Have the launcher read the directory again, whatever comes of it.
    UpdateDatabase(Vec<u8>),
    /// Tell the user that something failed.
    Report(String),
    /// Tell the user.
    Tell(String),
    /// End with this exit code.
    Exit(i32),
}

#[verifier::ext_equal]
pub enum DesktopStep {
    Write { dir: Seq<u8>, path: Seq<u8>, contents: Seq<char> },
    Remove(Seq<u8>),
    UpdateDatabase(Seq<u8>),
    Report(Seq<char>),
    Tell(Seq<char>),
    Exit(i32),
}

impl View for DesktopAction {
    type V = DesktopStep;

    open spec fn view(&self) -> DesktopStep {
        match self {
            DesktopAction::Write { dir, path, contents } => DesktopStep::Write {
                dir: dir@,
                path: path@,
                contents: contents@,
            },
            DesktopAction::Remove(path) => DesktopStep::Remove(path@),
            DesktopAction::UpdateDatabase(dir) => DesktopStep::UpdateDatabase(dir@),
            DesktopAction::Report(message) => DesktopStep::Report(message@),
            DesktopAction::Tell(message) => DesktopStep::Tell(message@),
            DesktopAction::Exit(code) => DesktopStep::Exit(*code),
        }
    }
}

#[verifier::ext_equal]
pub struct Installation {
    pub files: Files,
    /// The program that the entry starts.
    pub exe: Seq<char>,
    /// The entry's path, as the user is shown it.
    pub shown: Seq<char>,
    pub phase: DesktopPhase,
    pub code: i32,
}

impl Installation {
    pub open spec fn write_entry(self) -> (Installation, DesktopStep) {
        (
            Installation { phase: DesktopPhase::WritingEntry, ..self },
            DesktopStep::Write {
                dir: self.files.apps,
                path: self.files.entry,
                contents: entry_text(self.exe),
            },
        )
    }

    pub open spec fn tell(self, message: Seq<char>) -> (Installation, DesktopStep) {
        (
            Installation { phase: DesktopPhase::Telling, ..self },
            DesktopStep::Tell(message + self.shown),
        )
    }

    pub open spec fn exit(self, code: i32) -> (Installation, DesktopStep) {
        (
            Installation { phase: DesktopPhase::Finished, code, ..self },
            DesktopStep::Exit(code),
        )
    }

    /// The first step.
    pub open spec fn begin(files: Files, exe: Seq<char>, shown: Seq<char>, uninstall: bool) -> (
        Installation,
        DesktopStep,
    ) {
        if uninstall {
            (
                Installation { files, exe, shown, phase: DesktopPhase::RemovingEntry, code: 0 },
                DesktopStep::Remove(files.entry),
            )
        } else {
            (
                Installation { files, exe, shown, phase: DesktopPhase::WritingIcon, code: 0 },
                DesktopStep::Write { dir: files.icons, path: files.icon, contents: ICON_SVG@ },
            )
        }
    }

    /// What follows on what came of the last step: nothing, or what failed.
    pub open spec fn after(self, failure: Option<Seq<char>>) -> (Installation, DesktopStep) {
        match self.phase {
            DesktopPhase::WritingIcon => match failure {
                Some(failure) => (
                    Installation { phase: DesktopPhase::ReportingIcon, ..self },
                    DesktopStep::Report("アイコンの生成に失敗: "@ + failure),
                ),
                None => self.write_entry(),
            },
            DesktopPhase::ReportingIcon => self.write_entry(),
            DesktopPhase::WritingEntry => match failure {
                Some(failure) => (
                    Installation { phase: DesktopPhase::ReportingEntry, ..self },
                    DesktopStep::Report(".desktop の生成に失敗: "@ + failure),
                ),
                None => (
                    Installation { phase: DesktopPhase::UpdatingDatabase, ..self },
                    DesktopStep::UpdateDatabase(self.files.apps),
                ),
            },
            DesktopPhase::ReportingEntry => self.exit(1),
            DesktopPhase::UpdatingDatabase => self.tell("生成しました: "@),
            DesktopPhase::RemovingEntry => (
                Installation { phase: DesktopPhase::RemovingIcon, ..self },
                DesktopStep::Remove(self.files.icon),
            ),
            DesktopPhase::RemovingIcon => self.tell("削除しました: "@),
            DesktopPhase::Telling => self.exit(0),
            DesktopPhase::Finished => (self, DesktopStep::Exit(self.code)),
        }
    }

    /// How many answers are still to come, at most.
    pub open spec fn answers_left(self) -> nat {
        match self.phase {
            DesktopPhase::WritingIcon => 5,
            DesktopPhase::ReportingIcon => 4,
            DesktopPhase::WritingEntry => 3,
            DesktopPhase::UpdatingDatabase => 2,
            DesktopPhase::RemovingEntry => 3,
            DesktopPhase::RemovingIcon => 2,
            DesktopPhase::ReportingEntry => 1,
            DesktopPhase::Telling => 1,
            DesktopPhase::Finished => 0,
        }
    }
}

/// Puts micloop into the launcher, or takes it out, step by step.
#[derive(Debug)]
pub struct Desktop {
    paths: DesktopPaths,
    exe: String,
    shown: String,
    phase: DesktopPhase,
    code: i32,
}

impl View for Desktop {
    type V = Installation;

    closed spec fn view(&self) -> Installation {
        Installation {
            files: self.paths@,
            exe: self.exe@,
            shown: self.shown@,
            phase: self.phase,
            code: self.code,
        }
    }
}

/// Starts to put the program at `exe` into the launcher, or to take it out; the user is
/// shown the entry's path as `shown`.
pub fn begin_desktop(
    paths: DesktopPaths,
    exe: String,
    shown: String,
    uninstall: bool,
) -> (r: (Desktop, DesktopAction))
    ensures
        (r.0@, r.1@) == Installation::begin(paths@, exe@, shown@, uninstall),
{
    if uninstall {
        let entry = path::copy(paths.entry.as_slice());
        (
            Desktop { paths, exe, shown, phase: DesktopPhase::RemovingEntry, code: 0 },
            DesktopAction::Remove(entry),
        )
    } else {
        let dir = path::copy(paths.icons.as_slice());
        let icon = path::copy(paths.icon.as_slice());
        (
            Desktop { paths, exe, shown, phase: DesktopPhase::WritingIcon, code: 0 },
            DesktopAction::Write { dir, path: icon, contents: ICON_SVG.to_string() },
        )
    }
}

/// Starts to put the program at the path `exe` into the launcher, or to take it out. Paths
/// are read as text; that of the program is written into the entry.
pub fn desktop(paths: DesktopPaths, exe: &[u8], uninstall: bool) -> (r: (Desktop, DesktopAction))
    ensures
        (r.0@, r.1@) == Installation::begin(
            paths@,
            text::lossy_text(exe@),
            text::lossy_text(paths@.entry),
            uninstall,
        ),
        vstd::utf8::valid_utf8(exe@) && vstd::utf8::valid_utf8(paths@.entry) ==> (r.0@, r.1@)
            == Installation::begin(
            paths@,
            vstd::utf8::decode_utf8(exe@),
            vstd::utf8::decode_utf8(paths@.entry),
            uninstall,
        ),
        !uninstall ==> r.0@.after(None).1 == (DesktopStep::Write {
            dir: paths@.apps,
            path: paths@.entry,
            contents: entry_text(text::lossy_text(exe@)),
        }),
{
    let program = text::read_lossy(exe);
    let shown = text::read_lossy(paths.entry.as_slice());
    begin_desktop(paths, program, shown, uninstall)
}

impl Desktop {
    fn write_entry(&mut self) -> (action: DesktopAction)
        ensures
            (final(self)@, action@) == old(self)@.write_entry(),
    {
        self.phase = DesktopPhase::WritingEntry;
        DesktopAction::Write {
            dir: path::copy(self.paths.apps.as_slice()),
            path: path::copy(self.paths.entry.as_slice()),
            contents: desktop_entry(self.exe.as_str()),
        }
    }

    fn tell(&mut self, message: &str) -> (action: DesktopAction)
        ensures
            (final(self)@, action@) == old(self)@.tell(message@),
    {
        self.phase = DesktopPhase::Telling;
        DesktopAction::Tell(message.to_string().concat(self.shown.as_str()))
    }

    fn exit(&mut self, code: i32) -> (action: DesktopAction)
        ensures
            (final(self)@, action@) == old(self)@.exit(code),
    {
        self.phase = DesktopPhase::Finished;
        self.code = code;
        DesktopAction::Exit(code)
    }

    /// Goes on with what came of the last action: nothing, or what failed.
    pub fn resume(&mut self, failure: Option<String>) -> (action: DesktopAction)
        ensures
            (final(self)@, action@) == old(self)@.after(crate::config::optional_text(failure)),
    {
        match self.phase {
            DesktopPhase::WritingIcon => match failure {
                Some(failure) => {
                    self.phase = DesktopPhase::ReportingIcon;
                    DesktopAction::Report(
                        "アイコンの生成に失敗: ".to_string().concat(failure.as_str()),
                    )
                },
                None => self.write_entry(),
            },
            DesktopPhase::ReportingIcon => self.write_entry(),
            DesktopPhase::WritingEntry => match failure {
                Some(failure) => {
                    self.phase = DesktopPhase::ReportingEntry;
                    DesktopAction::Report(
                        ".desktop の生成に失敗: ".to_string().concat(failure.as_str()),
                    )
                },
                None => {
                    self.phase = DesktopPhase::UpdatingDatabase;
                    DesktopAction::UpdateDatabase(path::copy(self.paths.apps.as_slice()))
                },
            },
            DesktopPhase::ReportingEntry => self.exit(1),
            DesktopPhase::UpdatingDatabase => self.tell("生成しました: "),
            DesktopPhase::RemovingEntry => {
                self.phase = DesktopPhase::RemovingIcon;
                DesktopAction::Remove(path::copy(self.paths.icon.as_slice()))
            },
            DesktopPhase::RemovingIcon => self.tell("削除しました: "),
            DesktopPhase::Telling => self.exit(0),
            DesktopPhase::Finished => DesktopAction::Exit(self.code),
        }
    }
}

/// Installing and removing come to their end: each answer leaves fewer to come, and the
/// step that ends it gives the exit code.
pub proof fn law_installation_ends(i: Installation, failure: Option<Seq<char>>)
    ensures
        i.answers_left() <= 5,
        i.phase != DesktopPhase::Finished ==> i.after(failure).0.answers_left() < i.answers_left(),
        i.after(failure).1 is Exit <==> i.after(failure).0.phase == DesktopPhase::Finished,
{
}

/// Only an entry that cannot be written makes the installation fail; without an icon it
/// goes on, and removing always succeeds.
pub proof fn law_only_the_entry_matters(i: Installation, failure: Option<Seq<char>>)
    requires
        i.phase != DesktopPhase::Finished,
    ensures
        i.after(failure).1 matches DesktopStep::Exit(code) ==> (code == 1 <==> i.phase
            == DesktopPhase::ReportingEntry) && (code == 0 <==> i.phase == DesktopPhase::Telling),
        i.after(failure).0.phase == DesktopPhase::ReportingEntry <==> i.phase
            == DesktopPhase::WritingEntry && failure is Some,
        i.phase == DesktopPhase::WritingIcon && failure is Some ==> i.after(failure).0.after(
            None,
        ).0.phase == DesktopPhase::WritingEntry,
{
}

/// What is installed is what is removed: the same entry and the same icon.
pub proof fn law_removal_undoes_installation(files: Files, exe: Seq<char>, shown: Seq<char>)
    ensures
        ({
            let (install, first) = Installation::begin(files, exe, shown, false);
            let (remove, undone) = Installation::begin(files, exe, shown, true);
            &&& first == (DesktopStep::Write {
                dir: files.icons,
                path: files.icon,
                contents: ICON_SVG@,
            })
            &&& install.after(None).1 == (DesktopStep::Write {
                dir: files.apps,
                path: files.entry,
                contents: entry_text(exe),
            })
            &&& undone == DesktopStep::Remove(files.entry)
            &&& remove.after(None).1 == DesktopStep::Remove(files.icon)
        }),
{
}

/// The launcher's files stand in the directory that `XDG_DATA_HOME` names, whatever `HOME`
/// is, and in `.local/share` below `HOME` where it is not set.
pub proof fn law_data_directory(dir: &[u8], home: Option<&[u8]>, own: &[u8])
    ensures
        data_dir(Some(dir), home) == dir@,
        data_dir(None, Some(own)) == path::joined(own@, ".local/share".spec_bytes()),
        own@.len() > 0 && own@.last() != 47 ==> data_dir(None, Some(own)) == own@ + seq![47u8]
            + ".local/share".spec_bytes(),
{
    path::lemma_literal_parts();
}

/// Entry and icon each stand in their own directory below that of the data.
pub proof fn law_launcher_files(data: Seq<u8>)
    ensures
        files_in(data).apps == path::joined(data, "applications".spec_bytes()),
        files_in(data).icons == path::joined(data, "icons/hicolor/scalable/apps".spec_bytes()),
        data.len() > 0 && data.last() != 47 ==> {
            &&& files_in(data).apps == data + seq![47u8] + "applications".spec_bytes()
            &&& files_in(data).icons == data + seq![47u8]
                + "icons/hicolor/scalable/apps".spec_bytes()
        },
        files_in(data).entry == files_in(data).apps + seq![47u8] + "micloop.desktop".spec_bytes(),
        files_in(data).icon == files_in(data).icons + seq![47u8] + "micloop.svg".spec_bytes(),
{
    path::lemma_literal_parts();
    path::law_join_keeps_base(data, "applications".spec_bytes());
    path::law_join_keeps_base(data, "icons/hicolor/scalable/apps".spec_bytes());
    let apps = files_in(data).apps;
    let icons = files_in(data).icons;
    assert(apps.last() == "applications".spec_bytes().last());
    assert(icons.last() == "icons/hicolor/scalable/apps".spec_bytes().last());
}

/// The entry starts the program that it was made for, and nothing else in it depends on
/// the program: it differs for two programs exactly if they do.
pub proof fn law_entry_starts_its_program(exe: Seq<char>, other: Seq<char>)
    ensures
        entry_text(exe)
            == "[Desktop Entry]\nType=Application\nName=Micloop\nComment=マイクループバック (ホットキー制御)\nExec="@
            + exe
            + "\nIcon=micloop\nTerminal=false\nCategories=AudioVideo;Audio;\nKeywords=micloop;loopback;mic;\n"@,
        entry_text(exe) == entry_text(other) ==> exe == other,
{
    let head =
        "[Desktop Entry]\nType=Application\nName=Micloop\nComment=マイクループバック (ホットキー制御)\nExec="@;
    let tail =
        "\nIcon=micloop\nTerminal=false\nCategories=AudioVideo;Audio;\nKeywords=micloop;loopback;mic;\n"@;
    if entry_text(exe) == entry_text(other) {
        assert(entry_text(exe).len() == head.len() + exe.len() + tail.len());
        assert(entry_text(other).len() == head.len() + other.len() + tail.len());
        assert(entry_text(exe).subrange(head.len() as int, (head.len() + exe.len()) as int)
            =~= exe);
        assert(entry_text(other).subrange(head.len() as int, (head.len() + other.len()) as int)
            =~= other);
    }
}

/// An installation without failures writes the icon, then the entry, has the launcher read
/// its directory again, and says where the entry is.
pub proof fn law_installation(files: Files, exe: Seq<char>, shown: Seq<char>)
    ensures
        ({
            let (a, icon) = Installation::begin(files, exe, shown, false);
            let (b, entry) = a.after(None);
            let (c, update) = b.after(None);
            let (d, tell) = c.after(None);
            let (e, exit) = d.after(None);
            &&& icon == (DesktopStep::Write {
                dir: files.icons,
                path: files.icon,
                contents: ICON_SVG@,
            })
            &&& entry == (DesktopStep::Write {
                dir: files.apps,
                path: files.entry,
                contents: entry_text(exe),
            })
            &&& update == DesktopStep::UpdateDatabase(files.apps)
            &&& tell == DesktopStep::Tell("生成しました: "@ + shown)
            &&& exit == DesktopStep::Exit(0)
            &&& e.after(None) == (e, DesktopStep::Exit(0))
        }),
{
}

/// A failure to write is told in full. Without its icon the entry is written all the same;
/// without the entry the installation ends with exit code one, and nothing more is done.
pub proof fn law_installation_failures(
    files: Files,
    exe: Seq<char>,
    shown: Seq<char>,
    failure: Seq<char>,
    any: Option<Seq<char>>,
)
    ensures
        ({
            let begun = Installation::begin(files, exe, shown, false).0;
            let (reporting, report) = begun.after(Some(failure));
            let (writing, entry) = reporting.after(any);
            let (telling, told) = writing.after(Some(failure));
            let (end, exit) = telling.after(any);
            &&& report == DesktopStep::Report("アイコンの生成に失敗: "@ + failure)
            &&& entry == begun.after(None).1
            &&& told == DesktopStep::Report(".desktop の生成に失敗: "@ + failure)
            &&& exit == DesktopStep::Exit(1)
            &&& end.after(any) == (end, DesktopStep::Exit(1))
        }),
{
}

/// Taking micloop out of the launcher removes the entry and the icon, whether or not they
/// are there, says where the entry was, and succeeds.
pub proof fn law_removal(
    files: Files,
    exe: Seq<char>,
    shown: Seq<char>,
    a: Option<Seq<char>>,
    b: Option<Seq<char>>,
    c: Option<Seq<char>>,
)
    ensures
        ({
            let (first, entry) = Installation::begin(files, exe, shown, true);
            let (second, icon) = first.after(a);
            let (third, tell) = second.after(b);
            &&& entry == DesktopStep::Remove(files.entry)
            &&& icon == DesktopStep::Remove(files.icon)
            &&& tell == DesktopStep::Tell("削除しました: "@ + shown)
            &&& third.after(c).1 == DesktopStep::Exit(0)
        }),
{
}

/// What is asked for is what is stated of it.
pub proof fn law_desktop_actions_are_what_they_say(action: DesktopAction, paths: DesktopPaths)
    ensures
        action matches DesktopAction::Write { dir, path, contents } ==> action@ == (
        DesktopStep::Write { dir: dir@, path: path@, contents: contents@ }),
        action matches DesktopAction::Remove(path) ==> action@ == DesktopStep::Remove(path@),
        action matches DesktopAction::UpdateDatabase(dir) ==> action@
            == DesktopStep::UpdateDatabase(dir@),
        action matches DesktopAction::Report(message) ==> action@ == DesktopStep::Report(message@),
        action matches DesktopAction::Tell(message) ==> action@ == DesktopStep::Tell(message@),
        action matches DesktopAction::Exit(code) ==> action@ == DesktopStep::Exit(code),
        paths@.apps == paths.apps@,
        paths@.entry == paths.entry@,
        paths@.icons == paths.icons@,
        paths@.icon == paths.icon@,
{
}

} // verus!
