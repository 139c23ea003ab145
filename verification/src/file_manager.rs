//! Showing a file in the platform's own file manager, with the file selected.
//!
//! Each platform is named the way that platform names it. It must never be a
//! dead button: where nothing opens, the caller is told why and shows the path.
//!
//! Starting programs is done elsewhere; which one, with what, and what is made
//! of how it went, is decided here.

use vstd::prelude::*;

use crate::text::{trim, trimmed};

verus! {

/// The desktops a file can be shown on.
#[derive(Debug, Clone, Copy, PartialEq, Eq, Structural)]
pub enum Desktop {
    MacOs,
    Windows,
    /// Anything that speaks the freedesktop file manager interface, or at least
    /// opens folders.
    Other,
}

/// Every wording the button can carry, macOS then Windows then the rest.
pub const LABELS: [&'static str; 3] = ["Reveal in Finder", "Show in File Explorer", "Show in Files"];

impl Desktop {
    /// What the button that shows a file is called here.
    pub open spec fn wording(self) -> Seq<char> {
        match self {
            Desktop::MacOs => "Reveal in Finder"@,
            Desktop::Windows => "Show in File Explorer"@,
            Desktop::Other => "Show in Files"@,
        }
    }

    /// What the button that shows a file is called here.
    pub fn label(&self) -> (s: &'static str)
        ensures
            s@ == self.wording(),
            match self {
                Desktop::MacOs => s@ == "Reveal in Finder"@,
                Desktop::Windows => s@ == "Show in File Explorer"@,
                Desktop::Other => s@ == "Show in Files"@,
            },
    {
        match self {
            Desktop::MacOs => "Reveal in Finder",
            Desktop::Windows => "Show in File Explorer",
            Desktop::Other => "Show in Files",
        }
    }
}

/// A program to start.
#[derive(Debug, PartialEq, Eq)]
pub struct Launch {
    pub program: &'static str,
    pub args: Vec<String>,
    /// Whether to wait for it and judge how it went. One that is not waited on
    /// can only fail to start.
    pub waited: bool,
}

#[verifier::ext_equal]
pub struct LaunchModel {
    pub program: Seq<char>,
    pub args: Seq<Seq<char>>,
    pub waited: bool,
}

impl DeepView for Launch {
    type V = LaunchModel;

    open spec fn deep_view(&self) -> LaunchModel {
        LaunchModel {
            program: self.program@,
            args: self.args.deep_view(),
            waited: self.waited,
        }
    }
}

/// The argument that has Explorer select a file.
pub open spec fn select_text(path: Seq<char>) -> Seq<char> {
    "/select,"@ + path
}

/// No space after the comma: Explorer takes the rest of the argument as the
/// path, and a space makes it open Documents instead.
pub fn select_argument(path: &str) -> (s: String)
    ensures
        s@ == select_text(path@),
{
    let mut s = "/select,".to_owned();
    s.append(path);
    s
}

/// The program that shows the file at `path`, selected.
pub open spec fn first_launch(desktop: Desktop, path: Seq<char>) -> LaunchModel {
    match desktop {
        Desktop::MacOs => LaunchModel {
            program: "open"@,
            args: seq!["-R"@, path],
            waited: true,
        },
        // Explorer's exit code says nothing: it is 1 even when the window opens.
        Desktop::Windows => LaunchModel {
            program: "explorer"@,
            args: seq![select_text(path)],
            waited: false,
        },
        Desktop::Other => LaunchModel {
            program: "gdbus"@,
            args: seq![
                "call"@,
                "--session"@,
                "--dest"@,
                "org.freedesktop.FileManager1"@,
                "--object-path"@,
                "/org/freedesktop/FileManager1"@,
                "--method"@,
                "org.freedesktop.FileManager1.ShowItems"@,
                "['file://"@ + path + "']"@,
                ""@,
            ],
            waited: true,
        },
    }
}

/// Shows the file at `path`: the program to start, unless the file is gone.
pub fn show(path: &str, exists: bool, desktop: Desktop) -> (r: Result<Launch, String>)
    ensures
        match r {
            Ok(launch) => exists && launch.deep_view() == first_launch(desktop, path@),
            Err(reason) => !exists && reason@ == path@ + " is not there any more"@,
        },
        r matches Ok(launch) ==> (match desktop {
            Desktop::MacOs => launch.program@ == "open"@ && launch.waited
                && launch.args.deep_view() == seq!["-R"@, path@],
            Desktop::Windows => launch.program@ == "explorer"@ && !launch.waited
                && launch.args.deep_view() == seq!["/select,"@ + path@],
            Desktop::Other => launch.program@ == "gdbus"@ && launch.waited
                && launch.args.deep_view().len() == 10 && launch.args.deep_view()[7]
                == "org.freedesktop.FileManager1.ShowItems"@ && launch.args.deep_view()[8]
                == "['file://"@ + path@ + "']"@,
        }),
{
    if !exists {
        let mut reason = path.to_owned();
        reason.append(" is not there any more");
        return Err(reason);
    }
    let mut args: Vec<String> = Vec::new();
    let launch = match desktop {
        Desktop::MacOs => {
            // -R reveals and selects in Finder rather than opening the file.
            args.push("-R".to_owned());
            args.push(path.to_owned());
            Launch { program: "open", args, waited: true }
        },
        Desktop::Windows => {
            args.push(select_argument(path));
            Launch { program: "explorer", args, waited: false }
        },
        Desktop::Other => {
            // The only call that selects the file rather than just opening its
            // folder.
            args.push("call".to_owned());
            args.push("--session".to_owned());
            args.push("--dest".to_owned());
            args.push("org.freedesktop.FileManager1".to_owned());
            args.push("--object-path".to_owned());
            args.push("/org/freedesktop/FileManager1".to_owned());
            args.push("--method".to_owned());
            args.push("org.freedesktop.FileManager1.ShowItems".to_owned());
            let mut uris = "['file://".to_owned();
            uris.append(path);
            uris.append("']");
            args.push(uris);
            args.push("".to_owned());
            Launch { program: "gdbus", args, waited: true }
        },
    };
    assert(launch.deep_view() =~= first_launch(desktop, path@));
    Ok(launch)
}

/// How a program that was started went.
#[derive(Debug, PartialEq, Eq)]
pub enum Ran {
    NotStarted(String),
    Succeeded,
    /// It failed, with this on its error output.
    Failed(String),
}

/// What the platform said, as the caller is told.
pub open spec fn report(name: Seq<char>, ran: Ran) -> Result<(), Seq<char>> {
    match ran {
        Ran::NotStarted(err) => Err(name + " could not be started: "@ + err@),
        Ran::Succeeded => Ok(()),
        Ran::Failed(said) => if trimmed(said@).len() == 0 {
            Err(name + " failed"@)
        } else {
            Err(name + ": "@ + trimmed(said@))
        },
    }
}

/// What came of it, with the refusal as text.
pub open spec fn told(r: Result<(), String>) -> Result<(), Seq<char>> {
    match r {
        Ok(()) => Ok(()),
        Err(reason) => Err(reason@),
    }
}

/// Reports what the platform said of a program that was run.
pub fn run(name: &str, ran: Ran) -> (r: Result<(), String>)
    ensures
        told(r) == report(name@, ran),
        match ran {
            Ran::NotStarted(err) => r matches Err(text) && text@ == name@
                + " could not be started: "@ + err@,
            Ran::Succeeded => r is Ok,
            Ran::Failed(output) => r matches Err(text) && text@ == (if trimmed(output@).len() == 0 {
                name@ + " failed"@
            } else {
                name@ + ": "@ + trimmed(output@)
            }),
        },
{
    let mut reason = name.to_owned();
    match ran {
        Ran::NotStarted(err) => {
            reason.append(" could not be started: ");
            reason.append(err.as_str());
            Err(reason)
        },
        Ran::Succeeded => Ok(()),
        Ran::Failed(said) => {
            let said = trim(said.as_str());
            if said.as_str().is_empty() {
                reason.append(" failed");
            } else {
                reason.append(": ");
                reason.append(said.as_str());
            }
            Err(reason)
        },
    }
}

/// What follows the first program.
#[derive(Debug, PartialEq, Eq)]
pub enum Next {
    Done(Result<(), String>),
    /// Nothing answered: open the folder, with nothing highlighted. That is the
    /// honest ceiling there, and still better than a refusal.
    OpenFolder(Launch),
}

/// What follows the first program, once it ran.
pub fn after_first(desktop: Desktop, folder: &str, ran: Ran) -> (next: Next)
    ensures
        match desktop {
            Desktop::MacOs => next matches Next::Done(r) && told(r) == report("open"@, ran),
            // Only starting it can fail.
            Desktop::Windows => next matches Next::Done(r) && told(r) == (match ran {
                Ran::NotStarted(err) => Err(
                    "explorer could not be started: "@ + err@,
                ),
                _ => Ok(()),
            }),
            Desktop::Other => if ran is Succeeded {
                next == Next::Done(Ok(()))
            } else {
                next matches Next::OpenFolder(launch) && launch.deep_view() == folder_launch(
                    folder@,
                ) && launch.program@ == "xdg-open"@ && launch.waited && launch.args.deep_view()
                    == seq![folder@]
            },
        },
{
    match desktop {
        Desktop::MacOs => Next::Done(run("open", ran)),
        Desktop::Windows => match ran {
            Ran::NotStarted(err) => {
                let mut reason = "explorer could not be started: ".to_owned();
                reason.append(err.as_str());
                Next::Done(Err(reason))
            },
            Ran::Succeeded => Next::Done(Ok(())),
            Ran::Failed(said) => Next::Done(Ok(())),
        },
        Desktop::Other => {
            if let Ran::Succeeded = ran {
                return Next::Done(Ok(()));
            }
            let mut args: Vec<String> = Vec::new();
            args.push(folder.to_owned());
            let launch = Launch { program: "xdg-open", args, waited: true };
            assert(launch.deep_view() =~= folder_launch(folder@));
            Next::OpenFolder(launch)
        },
    }
}

/// The program that opens a folder.
pub open spec fn folder_launch(folder: Seq<char>) -> LaunchModel {
    LaunchModel { program: "xdg-open"@, args: seq![folder], waited: true }
}

/// What the caller is told once the folder was opened, or was not.
pub fn after_folder(ran: Ran) -> (r: Result<(), String>)
    ensures
        told(r) == (match report("xdg-open"@, ran) {
            Ok(()) => Ok(()),
            Err(err) => Err(
                err
                    + ". No file manager answered on the session bus either, so the folder could not be opened"@,
            ),
        }),
{
    match run("xdg-open", ran) {
        Ok(()) => Ok(()),
        Err(err) => {
            let mut err = err;
            err.append(
                ". No file manager answered on the session bus either, so the folder could not be opened",
            );
            Err(err)
        },
    }
}

/// The button is never dead: where nothing opened, there is a reason to show.
pub proof fn a_refusal_says_why(name: Seq<char>, ran: Ran)
    ensures
        report(name, ran) is Ok <==> ran is Succeeded,
        report(name, ran) matches Err(reason) ==> reason.len() > name.len(),
{
    reveal_strlit(" could not be started: ");
    reveal_strlit(" failed");
    reveal_strlit(": ");
}

/// Explorer's argument is the switch and the path with nothing between them.
pub proof fn the_switch_takes_the_path_as_it_is(path: Seq<char>)
    ensures
        select_text(path).len() == 8 + path.len(),
        select_text(path).skip(8) == path,
{
    reveal_strlit("/select,");
    assert(select_text(path).skip(8) =~= path);
}

} // verus!
