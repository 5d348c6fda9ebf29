//! Rules for registering qmpo as the handler of `directory://` URIs.

use vstd::prelude::*;
use vstd::string::StringExecFns;

use crate::platform::Platform;
use crate::text::{contains_char, text_eq};

verus! {

/// Errors that can occur while qmpo is registered or unregistered.
#[derive(Debug)]
pub enum LauError {
    /// The directories of the user could not be determined.
    NoUserDirectories,
    /// No qmpo executable is at the path that was given.
    ExecutableNotFound(String),
    /// No qmpo executable was found in the usual places.
    ExecutableNotLocated,
    /// The path of the executable cannot be written into a command.
    InvalidPath(String),
    /// A command of the system could not be run.
    CommandFailed(String),
    /// The Windows registry refused an operation.
    Registry(String),
    /// Launch Services of macOS refused an operation.
    LaunchServices(String),
    /// The MIME database of the desktop refused an operation.
    XdgMime(String),
}

impl LauError {
    /// The text of the diagnostic that [`LauError::message`] builds.
    pub open spec fn message_text(&self) -> Seq<char> {
        match self {
            LauError::NoUserDirectories => "could not determine user directories"@,
            LauError::ExecutableNotFound(path) => "qmpo executable not found at: "@ + path@,
            LauError::ExecutableNotLocated =>
                "could not find qmpo executable; please specify --path"@,
            LauError::InvalidPath(reason) => "path contains invalid characters: "@ + reason@,
            LauError::CommandFailed(reason) => "command failed: "@ + reason@,
            LauError::Registry(reason) => "registry error: "@ + reason@,
            LauError::LaunchServices(reason) => "launch services error: "@ + reason@,
            LauError::XdgMime(reason) => "XDG MIME error: "@ + reason@,
        }
    }

    /// A human-readable description of the error.
    pub fn message(&self) -> (text: String)
        ensures
            text@ == self.message_text(),
    {
        match self {
            LauError::NoUserDirectories => String::from_str("could not determine user directories"),
            LauError::ExecutableNotFound(path) => String::from_str(
                "qmpo executable not found at: ",
            ).concat(path.as_str()),
            LauError::ExecutableNotLocated => String::from_str(
                "could not find qmpo executable; please specify --path",
            ),
            LauError::InvalidPath(reason) => String::from_str(
                "path contains invalid characters: ",
            ).concat(reason.as_str()),
            LauError::CommandFailed(reason) => String::from_str("command failed: ").concat(
                reason.as_str(),
            ),
            LauError::Registry(reason) => String::from_str("registry error: ").concat(
                reason.as_str(),
            ),
            LauError::LaunchServices(reason) => String::from_str("launch services error: ").concat(
                reason.as_str(),
            ),
            LauError::XdgMime(reason) => String::from_str("XDG MIME error: ").concat(
                reason.as_str(),
            ),
        }
    }
}

/// The file name of the qmpo executable on a platform.
pub fn qmpo_executable_name(platform: Platform) -> (name: &'static str)
    ensures
        name@ == if platform == Platform::Windows {
            "qmpo.exe"@
        } else {
            "qmpo"@
        },
{
    match platform {
        Platform::Windows => "qmpo.exe",
        _ => "qmpo",
    }
}

/// The command that the Windows registry holds for the `directory` protocol: the path
/// of the executable in double quotes, then the URI, `%1`, in double quotes.
pub open spec fn registry_command_text(path: Seq<char>) -> Seq<char> {
    seq!['"'] + path + "\" \"%1\""@
}

/// Builds the command for the Windows registry. A path that holds a double quote would
/// break the command, and is refused.
pub fn registry_command(path: &str) -> (r: Result<String, LauError>)
    ensures
        match r {
            Ok(command) => !path@.contains('"') && command@ == registry_command_text(path@),
            Err(e) => path@.contains('"') && (e matches LauError::InvalidPath(reason) && reason@
                == "contains double quote"@),
        },
{
    if contains_char(path, '"') {
        return Err(LauError::InvalidPath(String::from_str("contains double quote")));
    }
    let mut command = String::new();
    command.push('"');
    command.append(path);
    command.append("\" \"%1\"");
    Ok(command)
}

/// The desktop entry that makes qmpo the handler of `directory://` URIs on Linux.
pub open spec fn desktop_entry_text(exec_path: Seq<char>) -> Seq<char> {
    "[Desktop Entry]\nType=Application\nName=qmpo\nComment=Directory URI Handler\nExec=\""@
        + exec_path
        + "\" %u\nTerminal=false\nNoDisplay=true\nMimeType=x-scheme-handler/directory;\n"@
}

/// Builds the content of the desktop entry for the installed executable.
pub fn desktop_entry(exec_path: &str) -> (content: String)
    ensures
        content@ == desktop_entry_text(exec_path@),
{
    let mut content = String::from_str(
        "[Desktop Entry]\nType=Application\nName=qmpo\nComment=Directory URI Handler\nExec=\"",
    );
    content.append(exec_path);
    content.append(
        "\" %u\nTerminal=false\nNoDisplay=true\nMimeType=x-scheme-handler/directory;\n",
    );
    content
}

/// What the desktop reports as the handler of `directory://` URIs.
#[derive(Clone, Copy, Debug, PartialEq, Eq, Structural)]
pub enum MimeHandler {
    /// The desktop entry of qmpo is the handler.
    Registered,
    /// No handler is set.
    NotSet,
    /// Another application is the handler.
    Different,
}

/// Reads the answer of the desktop to the question which entry handles the URIs: the
/// name of a desktop entry, or nothing.
pub fn mime_handler(answer: &str) -> (handler: MimeHandler)
    ensures
        handler == if answer@ == "qmpo.desktop"@ {
            MimeHandler::Registered
        } else if answer@.len() == 0 {
            MimeHandler::NotSet
        } else {
            MimeHandler::Different
        },
{
    if text_eq(answer, "qmpo.desktop") {
        MimeHandler::Registered
    } else if answer.is_empty() {
        MimeHandler::NotSet
    } else {
        MimeHandler::Different
    }
}

} // verus!
