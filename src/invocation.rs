//! How a request to run a command becomes a child process invocation on each
//! platform family.

use vstd::prelude::*;
use vstd::string::StringExecFns;

use crate::text::{append_spaced, join_spaced};

verus! {

/// The platform family that decides how commands are run.
#[derive(Clone, Copy, Debug, PartialEq, Eq, Structural)]
pub enum PlatformFamily {
    Windows,
    Other,
}

/// Which of the two operations a request belongs to.
#[derive(Clone, Copy, Debug, PartialEq, Eq, Structural)]
pub enum ShellKind {
    /// The platform's command interpreter (`cmd` or `sh`).
    Native,
    /// The scripting shell (PowerShell), on the Windows family only.
    Script,
}

/// The start of the message that reports a failed spawn for `kind`.
pub open spec fn failure_prefix(kind: ShellKind) -> Seq<char> {
    match kind {
        ShellKind::Native => "Failed to execute command: "@,
        ShellKind::Script => "Failed to execute PowerShell command: "@,
    }
}

/// A program to start and the arguments to hand it, each kept whole.
pub struct Invocation {
    pub program: String,
    pub args: Vec<String>,
}

impl Invocation {
    /// The program's name, as characters.
    pub open spec fn program_view(&self) -> Seq<char> {
        self.program@
    }

    /// The arguments, each as characters, in order.
    pub open spec fn args_view(&self) -> Seq<Seq<char>> {
        self.args.deep_view()
    }
}

/// The one command line that the non-Windows path hands to `sh -c`: the
/// command and then each argument, separated by single spaces.
pub open spec fn shell_line(command: Seq<char>, args: Seq<Seq<char>>) -> Seq<char> {
    join_spaced(seq![command] + args)
}

/// Putting a word before at least one other adds it and one space in front.
proof fn lemma_join_spaced_prepend(first: Seq<char>, rest: Seq<Seq<char>>)
    requires
        rest.len() > 0,
    ensures
        join_spaced(seq![first] + rest) == first + " "@ + join_spaced(rest),
    decreases rest.len(),
{
    let all = seq![first] + rest;
    assert(all.drop_last() =~= seq![first] + rest.drop_last());
    assert(all.last() == rest.last());
    assert(join_spaced(all) == join_spaced(all.drop_last()) + " "@ + all.last());
    if rest.len() == 1 {
        assert(all.drop_last() =~= seq![first]);
        assert(join_spaced(seq![first]) == first);
        assert(join_spaced(rest) == rest.last());
    } else {
        lemma_join_spaced_prepend(first, rest.drop_last());
        assert(first + " "@ + join_spaced(rest.drop_last()) + " "@ + rest.last() =~= first + " "@
            + (join_spaced(rest.drop_last()) + " "@ + rest.last()));
    }
}

/// The error for a scripting-shell request on a platform that has none.
pub open spec fn script_shell_unavailable() -> Seq<char> {
    "PowerShell is only available on Windows"@
}

impl PlatformFamily {
    /// The family of the operating system named `os` (as Rust names target
    /// operating systems): the Windows family exactly for `"windows"`.
    pub fn from_os_name(os: &str) -> (r: PlatformFamily)
        ensures
            r == PlatformFamily::Windows <==> os@ == "windows"@,
    {
        let windows = "windows";
        assert(windows@ == "windows"@);
        let n: usize = os.unicode_len();
        if n != windows.unicode_len() {
            return PlatformFamily::Other;
        }
        let mut i: usize = 0;
        while i < n
            invariant
                n == os@.len(),
                n == windows@.len(),
                windows@ == "windows"@,
                i <= n,
                os@.take(i as int) == windows@.take(i as int),
            decreases n - i,
        {
            let a = os.get_char(i);
            let b = windows.get_char(i);
            if a != b {
                proof {
                    assert(os@[i as int] != windows@[i as int]);
                }
                return PlatformFamily::Other;
            }
            proof {
                assert(os@.take(i + 1) =~= os@.take(i as int).push(os@[i as int]));
                assert(windows@.take(i + 1) =~= windows@.take(i as int).push(windows@[i as int]));
            }
            i = i + 1;
        }
        proof {
            assert(os@.take(n as int) =~= os@);
            assert(windows@.take(n as int) =~= windows@);
        }
        PlatformFamily::Windows
    }
}

/// How the native command interpreter runs `command` with `args`.
///
/// On the Windows family, `cmd /C` receives the command and every argument
/// as separate arguments, so their boundaries are kept. Elsewhere they are
/// joined by single spaces into one line for `sh -c` (the command alone when
/// there are no arguments), so the shell splits and
/// interprets that line again: arguments that hold spaces or shell syntax
/// may not reach the command as they were given.
pub fn native_shell_invocation(
    platform: PlatformFamily,
    command: String,
    args: Vec<String>,
) -> (r: Invocation)
    ensures
        platform == PlatformFamily::Windows ==> {
            &&& r.program_view() == "cmd"@
            &&& r.args_view() == seq!["/C"@, command@] + args.deep_view()
        },
        platform == PlatformFamily::Other ==> {
            &&& r.program_view() == "sh"@
            &&& r.args_view() == seq!["-c"@, shell_line(command@, args.deep_view())]
        },
{
    match platform {
        PlatformFamily::Windows => {
            let ghost given = args.deep_view();
            let mut list: Vec<String> = Vec::new();
            list.push(String::from_str("/C"));
            list.push(command);
            let ghost head = list.deep_view();
            let mut i: usize = 0;
            while i < args.len()
                invariant
                    i <= args.len(),
                    given == args.deep_view(),
                    given.len() == args@.len(),
                    list.deep_view() == head + given.take(i as int),
                decreases args.len() - i,
            {
                let ghost before = list.deep_view();
                list.push(args[i].clone());
                proof {
                    assert(list.deep_view() =~= before.push(given[i as int]));
                    assert(given.take(i + 1) =~= given.take(i as int).push(given[i as int]));
                    assert(list.deep_view() =~= head + given.take(i + 1));
                }
                i = i + 1;
            }
            proof {
                assert(given.take(i as int) =~= given);
                assert(head =~= seq!["/C"@, command@]);
            }
            Invocation { program: String::from_str("cmd"), args: list }
        },
        PlatformFamily::Other => {
            let mut line = command;
            if args.len() > 0 {
                line.append(" ");
            }
            append_spaced(&mut line, &args);
            proof {
                if args.len() > 0 {
                    lemma_join_spaced_prepend(command@, args.deep_view());
                } else {
                    assert(seq![command@] + args.deep_view() =~= seq![command@]);
                    assert(args.deep_view() =~= Seq::<Seq<char>>::empty());
                    assert(line@ =~= command@);
                }
            }
            let mut list: Vec<String> = Vec::new();
            list.push(String::from_str("-c"));
            list.push(line);
            proof {
                assert(list.deep_view() =~= seq!["-c"@, shell_line(command@, args.deep_view())]);
            }
            Invocation { program: String::from_str("sh"), args: list }
        },
    }
}

/// How the scripting shell runs the instruction `command`: `powershell
/// -Command` on the Windows family. Elsewhere there is no scripting shell,
/// and the request fails at once, whatever `command` holds, with nothing to
/// start.
pub fn script_shell_invocation(platform: PlatformFamily, command: String) -> (r: Result<
    Invocation,
    String,
>)
    ensures
        platform == PlatformFamily::Windows ==> match r {
            Ok(inv) => {
                &&& inv.program_view() == "powershell"@
                &&& inv.args_view() == seq!["-Command"@, command@]
            },
            Err(_) => false,
        },
        platform == PlatformFamily::Other ==> match r {
            Ok(_) => false,
            Err(message) => message@ == script_shell_unavailable(),
        },
{
    match platform {
        PlatformFamily::Windows => {
            let mut list: Vec<String> = Vec::new();
            list.push(String::from_str("-Command"));
            list.push(command);
            proof {
                assert(list.deep_view() =~= seq!["-Command"@, command@]);
            }
            Ok(Invocation { program: String::from_str("powershell"), args: list })
        },
        PlatformFamily::Other => Err(String::from_str("PowerShell is only available on Windows")),
    }
}

} // verus!
