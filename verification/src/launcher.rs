//! What is handed to the operating system for a new server: the link to the
//! shared resources and the command that starts the server.

use vstd::prelude::*;
use vstd::string::StrSliceExecFns;
use vstd::string::StringExecFns;
use crate::config::Config;
use crate::text::decimal;
use crate::text::port_text;
use crate::workspace::child_path;
use crate::workspace::join_path;

verus! {

/// The helper that starts a server and detaches it.
pub const LAUNCHER: &'static str = "./run_detached_process.sh";

/// A symbolic link that gives a workspace the resources all servers share.
pub struct ResourcesLink {
    /// What the link points at.
    pub target: String,
    /// Where the link is made.
    pub link: String,
}

/// A command line.
pub struct LaunchCommand {
    /// The program to run.
    pub program: String,
    /// Its arguments, in order.
    pub arguments: Vec<String>,
}

/// The directory of the resources that come with the server.
pub open spec fn resources_of(dedicated_server_dir: Seq<char>) -> Seq<char> {
    dedicated_server_dir + "/resources"@
}

/// The server's executable file.
pub open spec fn executable_of(dedicated_server_dir: Seq<char>) -> Seq<char> {
    dedicated_server_dir + "/DedicatedServer"@
}

/// The arguments of the launcher: the workspace, the executable, and the port
/// to open, the last as a single argument.
pub open spec fn launch_arguments(
    port: u16,
    working_dir: Seq<char>,
    dedicated_server_dir: Seq<char>,
) -> Seq<Seq<char>> {
    seq![
        working_dir,
        executable_of(dedicated_server_dir),
        "--open-port "@ + decimal(port as nat),
    ]
}

/// Says which link a new workspace needs: `resources` inside the workspace,
/// pointing at the resources of the server.
pub fn resources_link(working_dir: &str, dedicated_server_dir: &str) -> (plan:
    ResourcesLink)
    ensures
        plan.target@ == resources_of(dedicated_server_dir@),
        plan.link@ == child_path(working_dir@, "resources"@),
{
    let mut target = dedicated_server_dir.to_owned();
    target.append("/resources");
    ResourcesLink { target, link: join_path(working_dir, "resources") }
}

/// Builds the command that starts a server on `port` in the workspace
/// `working_dir`.
pub fn launch_command(port: u16, working_dir: &str, dedicated_server_dir: &str) -> (command:
    LaunchCommand)
    ensures
        command.program@ == LAUNCHER@,
        command.arguments.deep_view() == launch_arguments(
            port,
            working_dir@,
            dedicated_server_dir@,
        ),
{
    let mut executable = dedicated_server_dir.to_owned();
    executable.append("/DedicatedServer");
    let mut open_port = "--open-port ".to_owned();
    open_port.append(port_text(port).as_str());
    let mut arguments: Vec<String> = Vec::new();
    arguments.push(working_dir.to_owned());
    arguments.push(executable);
    arguments.push(open_port);
    assert(arguments.deep_view() =~= launch_arguments(port, working_dir@, dedicated_server_dir@));
    LaunchCommand { program: LAUNCHER.to_owned(), arguments }
}

/// A path that starts at the root of the file system.
pub open spec fn is_absolute(path: Seq<char>) -> bool {
    path.len() > 0 && path[0] == '/'
}

/// A path whose first component is `..`: it steps up one directory.
pub open spec fn starts_with_parent(path: Seq<char>) -> bool {
    &&& path.len() >= 2
    &&& path[0] == '.'
    &&& path[1] == '.'
    &&& (path.len() == 2 || path[2] == '/')
}

/// A path without the components that it starts with and that name
/// nothing: the empty ones, which repeated `/` leave, and `.`.
pub open spec fn trim_start(path: Seq<char>) -> Seq<char>
    decreases path.len(),
{
    if path.len() > 0 && path[0] == '/' {
        trim_start(path.skip(1))
    } else if path.len() == 1 && path[0] == '.' {
        Seq::empty()
    } else if path.len() >= 2 && path[0] == '.' && path[1] == '/' {
        trim_start(path.skip(2))
    } else {
        path
    }
}

/// A path without the components that it ends with and that name nothing.
pub open spec fn trim_end(path: Seq<char>) -> Seq<char>
    decreases path.len(),
{
    if path.len() > 0 && path.last() == '/' {
        trim_end(path.drop_last())
    } else if path.len() >= 2 && path.last() == '.' && path[path.len() - 2] == '/' {
        trim_end(path.take(path.len() - 2))
    } else {
        path
    }
}

/// What a path that steps up one directory names after that step: the path
/// from its second component on, up to its last one.
pub open spec fn below_parent(path: Seq<char>) -> Seq<char> {
    trim_end(trim_start(path.skip(2)))
}

/// Where the server's executable is looked for before the service starts.
///
/// An absolute server directory holds it. A relative one is written as seen
/// from a workspace, one level below the root of the working directories:
/// its first component has to be `..`, and what follows is taken from that
/// root.
pub open spec fn executable_location(
    working_directories_path: Seq<char>,
    dedicated_server_dir: Seq<char>,
) -> Option<Seq<char>> {
    if is_absolute(dedicated_server_dir) {
        Some(child_path(dedicated_server_dir, "DedicatedServer"@))
    } else if starts_with_parent(dedicated_server_dir) {
        Some(
            child_path(
                child_path(working_directories_path, below_parent(dedicated_server_dir)),
                "DedicatedServer"@,
            ),
        )
    } else {
        None
    }
}

/// Takes the first component off a path that steps up one directory.
pub fn strip_parent(path: &str) -> (below: Option<String>)
    ensures
        starts_with_parent(path@) ==> below is Some && below->0@ == below_parent(path@),
        !starts_with_parent(path@) ==> below is None,
{
    let ghost s = path@;
    let length = path.unicode_len();
    if length < 2 || path.get_char(0) != '.' || path.get_char(1) != '.' {
        return None;
    }
    if length > 2 && path.get_char(2) != '/' {
        return None;
    }
    let mut from: usize = 2;
    let mut settled = false;
    while from < length && !settled
        invariant
            s == path@,
            length == s.len(),
            2 <= from <= length,
            trim_start(s.skip(2)) == trim_start(s.skip(from as int)),
            settled ==> trim_start(s.skip(from as int)) == s.skip(from as int),
        decreases length - from + if settled { 0int } else { 1int },
    {
        let ghost rest = s.skip(from as int);
        assert(rest[0] == s[from as int]);
        assert(rest.skip(1) =~= s.skip(from + 1));
        let c = path.get_char(from);
        if c == '/' {
            from = from + 1;
        } else if c == '.' && from + 1 == length {
            assert(s.skip(from + 1) =~= Seq::<char>::empty());
            from = from + 1;
        } else if c == '.' && path.get_char(from + 1) == '/' {
            assert(rest[1] == s[from + 1]);
            assert(rest.skip(2) =~= s.skip(from + 2));
            from = from + 2;
        } else {
            if c == '.' {
                assert(rest[1] == s[from + 1]);
            }
            settled = true;
        }
    }
    let ghost lead = s.skip(from as int);
    assert(lead =~= s.subrange(from as int, length as int));
    let mut to: usize = length;
    let mut settled = false;
    while to > from && !settled
        invariant
            s == path@,
            length == s.len(),
            from <= to <= length,
            trim_end(s.subrange(from as int, length as int)) == trim_end(
                s.subrange(from as int, to as int),
            ),
            settled ==> trim_end(s.subrange(from as int, to as int)) == s.subrange(
                from as int,
                to as int,
            ),
        decreases to - from + if settled { 0int } else { 1int },
    {
        let ghost held = s.subrange(from as int, to as int);
        assert(held.last() == s[to - 1]);
        assert(held.drop_last() =~= s.subrange(from as int, to - 1));
        let c = path.get_char(to - 1);
        if c == '/' {
            to = to - 1;
        } else if c == '.' && to - from >= 2 && path.get_char(to - 2) == '/' {
            assert(held[held.len() - 2] == s[to - 2]);
            assert(held.take(held.len() - 2) =~= s.subrange(from as int, to - 2));
            to = to - 2;
        } else {
            if to - from >= 2 {
                assert(held[held.len() - 2] == s[to - 2]);
            }
            settled = true;
        }
    }
    Some(path.substring_char(from, to).to_owned())
}

/// Names the file that has to exist for the configuration to be usable.
/// There is none where the server directory is relative and does not step
/// up one directory first.
pub fn dedicated_server_executable(config: &Config) -> (path: Option<String>)
    ensures
        match executable_location(config@.working_directiries_path, config@.dedicated_server_dir) {
            Some(location) => path is Some && path->0@ == location,
            None => path is None,
        },
{
    let dir = config.dedicated_server_dir.as_str();
    if dir.unicode_len() > 0 && dir.get_char(0) == '/' {
        return Some(join_path(dir, "DedicatedServer"));
    }
    match strip_parent(dir) {
        Some(below) => {
            let folder = join_path(config.working_directiries_path.as_str(), below.as_str());
            Some(join_path(folder.as_str(), "DedicatedServer"))
        },
        None => None,
    }
}

} // verus!
