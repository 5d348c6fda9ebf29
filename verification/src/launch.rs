//! Which command shows a path in the file manager of each platform.

use vstd::prelude::*;
use vstd::string::StringExecFns;

use crate::platform::Platform;

verus! {

/// A command to start: a program and its arguments.
#[derive(Debug)]
pub struct Launch {
    pub program: String,
    pub args: Vec<String>,
}

/// The texts of a list of strings.
pub open spec fn texts(strings: Seq<String>) -> Seq<Seq<char>> {
    Seq::new(strings.len(), |i: int| strings[i]@)
}

impl Launch {
    /// The text of the program.
    pub open spec fn program_text(&self) -> Seq<char> {
        self.program@
    }

    /// The texts of the arguments, in their order.
    pub open spec fn arg_texts(&self) -> Seq<Seq<char>> {
        texts(self.args@)
    }
}

/// The program that shows a path on a platform. A file is shown selected in its
/// directory; on Linux that is asked of the file manager over D-Bus.
pub open spec fn launch_program(platform: Platform, is_file: bool) -> Seq<char> {
    match platform {
        Platform::Windows => "explorer.exe"@,
        Platform::MacOs => "open"@,
        _ => if is_file {
            "dbus-send"@
        } else {
            "xdg-open"@
        },
    }
}

/// The arguments with which that program shows the path.
pub open spec fn launch_args(platform: Platform, path: Seq<char>, is_file: bool) -> Seq<
    Seq<char>,
> {
    match platform {
        Platform::Windows => if is_file {
            seq!["/select,"@ + path]
        } else {
            seq![path]
        },
        Platform::MacOs => if is_file {
            seq!["-R"@, path]
        } else {
            seq![path]
        },
        _ => if is_file {
            seq![
                "--session"@,
                "--dest=org.freedesktop.FileManager1"@,
                "--type=method_call"@,
                "/org/freedesktop/FileManager1"@,
                "org.freedesktop.FileManager1.ShowItems"@,
                "array:string:file://"@ + path,
                "string:"@,
            ]
        } else {
            seq![path]
        },
    }
}

/// The command that shows `path` in the file manager of a platform; `is_file` tells
/// whether the path is a file rather than a directory. `None` on a platform without a
/// known file manager.
pub fn file_manager_launch(platform: Platform, path: &str, is_file: bool) -> (r: Option<Launch>)
    ensures
        match r {
            Some(launch) => platform != Platform::Other && launch.program_text()
                == launch_program(platform, is_file) && launch.arg_texts() == launch_args(
                platform,
                path@,
                is_file,
            ),
            None => platform == Platform::Other,
        },
{
    let mut args: Vec<String> = Vec::new();
    match platform {
        Platform::Windows => {
            if is_file {
                args.push(String::from_str("/select,").concat(path));
            } else {
                args.push(String::from_str(path));
            }
            let launch = Launch { program: String::from_str("explorer.exe"), args };
            Some(launch)
        },
        Platform::MacOs => {
            if is_file {
                args.push(String::from_str("-R"));
            }
            args.push(String::from_str(path));
            let launch = Launch { program: String::from_str("open"), args };
            Some(launch)
        },
        Platform::Linux => {
            if is_file {
                args.push(String::from_str("--session"));
                args.push(String::from_str("--dest=org.freedesktop.FileManager1"));
                args.push(String::from_str("--type=method_call"));
                args.push(String::from_str("/org/freedesktop/FileManager1"));
                args.push(String::from_str("org.freedesktop.FileManager1.ShowItems"));
                args.push(String::from_str("array:string:file://").concat(path));
                args.push(String::from_str("string:"));
                let launch = Launch { program: String::from_str("dbus-send"), args };
                Some(launch)
            } else {
                args.push(String::from_str(path));
                let launch = Launch { program: String::from_str("xdg-open"), args };
                Some(launch)
            }
        },
        Platform::Other => None,
    }
}

/// What to do once the command for a path could not be started.
#[derive(Debug)]
pub enum Recovery {
    /// Start this command instead.
    Retry(Launch),
    /// Nothing more can be done, and the failure is not reported.
    Ignore,
    /// Report the failure.
    Fail,
}

/// Decides what follows a command that could not be started. On Linux the file
/// manager may not answer over D-Bus: the directory of the file is then opened, if the
/// file has one, and the failure is passed over in silence. Every other failure is
/// reported.
pub fn after_failed_launch(platform: Platform, is_file: bool, parent: Option<&str>) -> (r:
    Recovery)
    ensures
        match r {
            Recovery::Retry(launch) => platform == Platform::Linux && is_file && parent.is_some()
                && launch.program_text() == "xdg-open"@ && launch.arg_texts() == seq![
                parent.unwrap()@,
            ],
            Recovery::Ignore => platform == Platform::Linux && is_file && parent.is_none(),
            Recovery::Fail => platform != Platform::Linux || !is_file,
        },
{
    match platform {
        Platform::Linux => {
            if !is_file {
                return Recovery::Fail;
            }
            match parent {
                Some(directory) => {
                    let mut args: Vec<String> = Vec::new();
                    args.push(String::from_str(directory));
                    let launch = Launch { program: String::from_str("xdg-open"), args };
                    Recovery::Retry(launch)
                },
                None => Recovery::Ignore,
            }
        },
        _ => Recovery::Fail,
    }
}

} // verus!
