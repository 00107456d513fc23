//! The command lines of the external programs that the indicator starts.

use vstd::prelude::*;
use vstd::string::*;
use crate::config::ids_of;
use crate::ui::Tool;

verus! {

/// The words of each command line in a list of them.
pub open spec fn words_of(commands: Seq<Vec<String>>) -> Seq<Seq<Seq<char>>> {
    commands.map_values(|c: Vec<String>| ids_of(c@))
}

/// The command line that opens a terminal tab: plain, or under a profile
/// whose distribution runs the shell.
pub open spec fn tab_words(profile: Option<Seq<char>>, script: Seq<char>) -> Seq<Seq<char>> {
    match profile {
        None => seq![
            "wt"@,
            "new-tab"@,
            "C:\\Program Files\\PowerShell\\7\\pwsh.exe"@,
            "-c"@,
            script,
        ],
        Some(name) => seq![
            "wt"@,
            "new-tab"@,
            "--profile"@,
            name,
            "C:\\WINDOWS\\system32\\wsl.exe"@,
            "-d"@,
            name,
            "zsh"@,
            "-c"@,
            script,
        ],
    }
}

/// The command lines that a tool is started with, program first.
pub open spec fn commands_of(tool: Tool) -> Seq<Seq<Seq<char>>> {
    match tool {
        Tool::DiskAnalyzer => seq![seq!["C:\\Users\\fenhl\\scoop\\shims\\windirstat.exe"@]],
        Tool::CleanupSessions => seq![
            tab_words(None, "cd C:\\Users\\fenhl\\git && cargo sweep -ir"@),
            tab_words(
                Some("debian-m2"@),
                "cd wslgit && cargo sweep -ir && cd /opt/git && cargo sweep -ir"@,
            ),
            tab_words(
                Some("ubuntu-m2"@),
                "cd wslgit && cargo sweep -ir && cd /opt/git && cargo sweep -ir"@,
            ),
        ],
    }
}

fn tab_command(profile: Option<&str>, script: &str) -> (words: Vec<String>)
    ensures
        ids_of(words@) == tab_words(
            match profile {
                Some(p) => Some(p@),
                None => None,
            },
            script@,
        ),
{
    let mut words: Vec<String> = Vec::new();
    words.push(String::from_str("wt"));
    words.push(String::from_str("new-tab"));
    match profile {
        None => {
            words.push(String::from_str("C:\\Program Files\\PowerShell\\7\\pwsh.exe"));
            words.push(String::from_str("-c"));
            words.push(String::from_str(script));
            assert(ids_of(words@) =~= tab_words(None, script@));
        },
        Some(name) => {
            words.push(String::from_str("--profile"));
            words.push(String::from_str(name));
            words.push(String::from_str("C:\\WINDOWS\\system32\\wsl.exe"));
            words.push(String::from_str("-d"));
            words.push(String::from_str(name));
            words.push(String::from_str("zsh"));
            words.push(String::from_str("-c"));
            words.push(String::from_str(script));
            assert(ids_of(words@) =~= tab_words(Some(name@), script@));
        },
    }
    words
}

/// Lists the command lines to start for a tool, each to be spawned without
/// waiting for it.
pub fn launch_commands(tool: Tool) -> (commands: Vec<Vec<String>>)
    ensures
        words_of(commands@) == commands_of(tool),
{
    let mut commands: Vec<Vec<String>> = Vec::new();
    match tool {
        Tool::DiskAnalyzer => {
            let mut words: Vec<String> = Vec::new();
            words.push(String::from_str("C:\\Users\\fenhl\\scoop\\shims\\windirstat.exe"));
            assert(ids_of(words@) =~= seq!["C:\\Users\\fenhl\\scoop\\shims\\windirstat.exe"@]);
            commands.push(words);
        },
        Tool::CleanupSessions => {
            commands.push(tab_command(None, "cd C:\\Users\\fenhl\\git && cargo sweep -ir"));
            commands.push(
                tab_command(
                    Some("debian-m2"),
                    "cd wslgit && cargo sweep -ir && cd /opt/git && cargo sweep -ir",
                ),
            );
            commands.push(
                tab_command(
                    Some("ubuntu-m2"),
                    "cd wslgit && cargo sweep -ir && cd /opt/git && cargo sweep -ir",
                ),
            );
        },
    }
    assert(words_of(commands@) =~= commands_of(tool));
    commands
}

} // verus!
