use vstd::prelude::*;
use vstd::string::StringExecFns;

verus! {

/// Whether a text holds another at a given place.
pub open spec fn occurs_at(text: Seq<char>, part: Seq<char>, at: int) -> bool {
    0 <= at && at + part.len() <= text.len() && text.subrange(at, at + part.len()) == part
}

/// Whether a text holds another somewhere.
pub open spec fn occurs_in(text: Seq<char>, part: Seq<char>) -> bool {
    exists|at: int| occurs_at(text, part, at)
}

/// Whether a text holds another somewhere.
pub fn contains(text: &str, part: &str) -> (found: bool)
    ensures
        found == occurs_in(text@, part@),
{
    let text_len = text.unicode_len();
    let part_len = part.unicode_len();
    if part_len > text_len {
        assert(!occurs_in(text@, part@)) by {
            assert forall|at: int| !occurs_at(text@, part@, at) by {}
        }
        return false;
    }
    let wanted = String::from_str(part);
    let last: usize = text_len - part_len;
    let mut at: usize = 0;
    while at < last
        invariant
            at <= last,
            last == text_len - part_len,
            text_len == text@.len(),
            part_len == part@.len(),
            wanted@ == part@,
            forall|earlier: int| 0 <= earlier < at ==> !occurs_at(text@, part@, earlier),
        decreases last - at,
    {
        let window = String::from_str(text.substring_char(at, at + part_len));
        if window == wanted {
            assert(occurs_at(text@, part@, at as int));
            return true;
        }
        at = at + 1;
    }
    let window = String::from_str(text.substring_char(last, last + part_len));
    if window == wanted {
        assert(occurs_at(text@, part@, last as int));
        return true;
    }
    assert(!occurs_in(text@, part@)) by {
        assert forall|place: int| !occurs_at(text@, part@, place) by {}
    }
    false
}

/// The file managers that are known on Linux.
#[derive(Debug, Eq, PartialEq, Clone, Copy, Structural)]
pub enum LinuxFileManagers {
    Nautilus,
    Dolphin,
    Thunar,
    Pcmanfm,
    Caja,
    Unknown,
}

/// The file manager that the name of a desktop file stands for: the first
/// of Nautilus, Dolphin, Thunar, Pcmanfm and Caja whose name it holds.
pub open spec fn file_manager_of(desktop_file_name: Seq<char>) -> LinuxFileManagers {
    if occurs_in(desktop_file_name, "Nautilus"@) {
        LinuxFileManagers::Nautilus
    } else if occurs_in(desktop_file_name, "Dolphin"@) {
        LinuxFileManagers::Dolphin
    } else if occurs_in(desktop_file_name, "Thunar"@) {
        LinuxFileManagers::Thunar
    } else if occurs_in(desktop_file_name, "Pcmanfm"@) {
        LinuxFileManagers::Pcmanfm
    } else if occurs_in(desktop_file_name, "Caja"@) {
        LinuxFileManagers::Caja
    } else {
        LinuxFileManagers::Unknown
    }
}

/// Tells the default file manager from the outcome of asking the desktop
/// for the program that opens directories: whether asking succeeded, and
/// the name of the desktop file it gave.
pub fn get_default_file_manager(success: bool, desktop_file_name: &str) -> (manager:
    LinuxFileManagers)
    ensures
        manager == if success {
            file_manager_of(desktop_file_name@)
        } else {
            LinuxFileManagers::Unknown
        },
{
    if !success {
        LinuxFileManagers::Unknown
    } else if contains(desktop_file_name, "Nautilus") {
        LinuxFileManagers::Nautilus
    } else if contains(desktop_file_name, "Dolphin") {
        LinuxFileManagers::Dolphin
    } else if contains(desktop_file_name, "Thunar") {
        LinuxFileManagers::Thunar
    } else if contains(desktop_file_name, "Pcmanfm") {
        LinuxFileManagers::Pcmanfm
    } else if contains(desktop_file_name, "Caja") {
        LinuxFileManagers::Caja
    } else {
        LinuxFileManagers::Unknown
    }
}

/// The systems that the program runs on.
#[derive(Debug, Eq, PartialEq, Clone, Copy, Structural)]
pub enum System {
    Windows,
    MacOs,
    Linux,
    Other,
}

/// Why a file cannot be shown in its folder.
#[derive(Debug, Eq, PartialEq, Clone, Copy, Structural)]
pub enum OpenError {
    UnknownFileManager,
    UnsupportedSystem,
}

/// A program to start, with its arguments.
#[derive(Debug)]
pub struct Command {
    pub program: String,
    pub args: Vec<String>,
}

/// `Command` as a value of texts, sequences and numbers.
pub struct CommandView {
    pub program: Seq<char>,
    pub args: Seq<Seq<char>>,
}

impl View for Command {
    type V = CommandView;

    open spec fn view(&self) -> CommandView {
        CommandView {
            program: self.program@,
            args: self.args@.map_values(|arg: String| arg@),
        }
    }
}

/// How to show a file in its folder: the program to start, and the one to
/// start instead if the first cannot be run.
#[derive(Debug)]
pub struct Reveal {
    pub command: Command,
    pub fallback: Option<Command>,
}

/// `Reveal` as a value of texts, sequences and numbers.
pub struct RevealView {
    pub command: CommandView,
    pub fallback: Option<CommandView>,
}

impl View for Reveal {
    type V = RevealView;

    open spec fn view(&self) -> RevealView {
        RevealView {
            command: self.command@,
            fallback: match self.fallback {
                Some(command) => Some(command@),
                None => None,
            },
        }
    }
}

/// The separator of path components on a system.
pub open spec fn separator(system: System) -> Seq<char> {
    if system == System::Windows {
        seq!['\\']
    } else {
        seq!['/']
    }
}

/// A command without a fallback.
pub open spec fn single(program: Seq<char>, args: Seq<Seq<char>>) -> RevealView {
    RevealView { command: CommandView { program, args }, fallback: None }
}

/// How a file is shown in its folder on a system: Explorer and Finder
/// select the file, as do Nautilus (or `gio` where it cannot be run),
/// Dolphin and Caja; Thunar and Pcmanfm only open the folder.
pub open spec fn reveal_plan(
    system: System,
    manager: LinuxFileManagers,
    folder_path: Seq<char>,
    file_name: Seq<char>,
) -> Result<RevealView, OpenError> {
    let full_path = folder_path + separator(system) + file_name;
    match system {
        System::Windows => Ok(single("explorer"@, seq!["/select,"@, full_path])),
        System::MacOs => Ok(single("open"@, seq!["-R"@, full_path])),
        System::Linux => match manager {
            LinuxFileManagers::Nautilus => Ok(
                RevealView {
                    command: CommandView {
                        program: "nautilus"@,
                        args: seq!["--select"@, full_path],
                    },
                    fallback: Some(
                        CommandView {
                            program: "gio"@,
                            args: seq!["open"@, folder_path, "--select"@, full_path],
                        },
                    ),
                },
            ),
            LinuxFileManagers::Dolphin => Ok(single("dolphin"@, seq!["--select"@, full_path])),
            LinuxFileManagers::Thunar => Ok(single("thunar"@, seq![folder_path])),
            LinuxFileManagers::Pcmanfm => Ok(single("pcmanfm"@, seq![folder_path])),
            LinuxFileManagers::Caja => Ok(single("caja"@, seq!["--select"@, full_path])),
            LinuxFileManagers::Unknown => Err(OpenError::UnknownFileManager),
        },
        System::Other => Err(OpenError::UnsupportedSystem),
    }
}

fn command1(program: &str, first: String) -> (command: Command)
    ensures
        command@ == (CommandView { program: program@, args: seq![first@] }),
{
    let mut args: Vec<String> = Vec::new();
    args.push(first);
    let command = Command { program: String::from_str(program), args };
    assert(command@.args =~= seq![first@]);
    command
}

fn command2(program: &str, first: &str, second: String) -> (command: Command)
    ensures
        command@ == (CommandView { program: program@, args: seq![first@, second@] }),
{
    let mut args: Vec<String> = Vec::new();
    args.push(String::from_str(first));
    args.push(second);
    let command = Command { program: String::from_str(program), args };
    assert(command@.args =~= seq![first@, second@]);
    command
}

/// Says how to show a file in its folder: which program to start with which
/// arguments. The file manager is asked for on Linux only.
pub fn open_folder_and_select_file(
    system: System,
    manager: LinuxFileManagers,
    folder_path: &String,
    file_name: &String,
) -> (plan: Result<Reveal, OpenError>)
    ensures
        match plan {
            Ok(reveal) => reveal_plan(system, manager, folder_path@, file_name@) == Ok::<
                RevealView,
                OpenError,
            >(reveal@),
            Err(error) => reveal_plan(system, manager, folder_path@, file_name@) == Err::<
                RevealView,
                OpenError,
            >(error),
        },
{
    let mut full_path = folder_path.clone();
    proof {
        reveal_strlit("\\");
        reveal_strlit("/");
    }
    match system {
        System::Windows => full_path.append("\\"),
        _ => full_path.append("/"),
    }
    full_path.append(file_name.as_str());
    assert(full_path@ =~= folder_path@ + separator(system) + file_name@);
    match system {
        System::Windows => Ok(
            Reveal { command: command2("explorer", "/select,", full_path), fallback: None },
        ),
        System::MacOs => Ok(Reveal { command: command2("open", "-R", full_path), fallback: None }),
        System::Linux => match manager {
            LinuxFileManagers::Nautilus => {
                let mut args: Vec<String> = Vec::new();
                args.push(String::from_str("open"));
                args.push(folder_path.clone());
                args.push(String::from_str("--select"));
                args.push(full_path.clone());
                let fallback = Command { program: String::from_str("gio"), args };
                assert(fallback@.args =~= seq![
                    "open"@,
                    folder_path@,
                    "--select"@,
                    full_path@,
                ]);
                Ok(
                    Reveal {
                        command: command2("nautilus", "--select", full_path),
                        fallback: Some(fallback),
                    },
                )
            },
            LinuxFileManagers::Dolphin => Ok(
                Reveal { command: command2("dolphin", "--select", full_path), fallback: None },
            ),
            LinuxFileManagers::Thunar => Ok(
                Reveal { command: command1("thunar", folder_path.clone()), fallback: None },
            ),
            LinuxFileManagers::Pcmanfm => Ok(
                Reveal { command: command1("pcmanfm", folder_path.clone()), fallback: None },
            ),
            LinuxFileManagers::Caja => Ok(
                Reveal { command: command2("caja", "--select", full_path), fallback: None },
            ),
            LinuxFileManagers::Unknown => Err(OpenError::UnknownFileManager),
        },
        System::Other => Err(OpenError::UnsupportedSystem),
    }
}

} // verus!
