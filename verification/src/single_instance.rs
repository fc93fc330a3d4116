//! What a second launch hands to the running instance.

use vstd::prelude::*;

verus! {

broadcast use vstd::string::group_string_axioms;

/// A command passed from a second launch to the running instance.
#[derive(Debug, Clone)]
pub struct IpcCommand {
    /// Switch to the GreenLuma tab (and route the path there, if any).
    pub greenluma: bool,
    /// A file from "Send to" or the command line.
    pub path: Option<String>,
    /// Bring the main window to the front.
    pub show: bool,
}

/// What a second launch forwards to the running instance: nothing for a
/// quiet `--tray` start without a path or the GreenLuma switch, else its
/// command with the window brought to the front.
pub fn forward_command(cmd: &IpcCommand, quiet_tray: bool) -> (r: Option<IpcCommand>)
    ensures
        (quiet_tray && cmd.path is None && !cmd.greenluma) ==> r is None,
        !(quiet_tray && cmd.path is None && !cmd.greenluma) ==> (r matches Some(f) && f.show
            && f.greenluma == cmd.greenluma && f.path == cmd.path),
{
    if quiet_tray && cmd.path.is_none() && !cmd.greenluma {
        return None;
    }
    let path = match &cmd.path {
        Some(p) => Some(p.clone()),
        None => None,
    };
    Some(IpcCommand { greenluma: cmd.greenluma, path, show: true })
}

/// What the command line asks for.
#[derive(Debug, Clone)]
pub struct LaunchArgs {
    /// `--tray` or `-tray`: start hidden in the tray.
    pub start_in_tray: bool,
    /// `--greenluma` or `-greenluma`: open the GreenLuma tab.
    pub open_greenluma: bool,
    /// The first argument not starting with `-`: a file to open.
    pub initial_path: Option<String>,
}

/// The command line's flags and path after the first `k` arguments.
pub open spec fn args_fold(args: Seq<Seq<char>>, k: int) -> (bool, bool, Option<Seq<char>>)
    decreases k,
{
    if k <= 0 {
        (false, false, None)
    } else {
        let acc = args_fold(args, k - 1);
        let a = args[k - 1];
        if a == "--tray"@ || a == "-tray"@ {
            (true, acc.1, acc.2)
        } else if a == "--greenluma"@ || a == "-greenluma"@ {
            (acc.0, true, acc.2)
        } else if !(a.len() > 0 && a[0] == '-') && acc.2 is None {
            (acc.0, acc.1, Some(a))
        } else {
            acc
        }
    }
}

/// Reads the command line (without the program name).
pub fn parse_launch_args(args: &Vec<String>) -> (r: LaunchArgs)
    ensures
        (r.start_in_tray, r.open_greenluma, match r.initial_path {
            Some(p) => Some(p@),
            None => None,
        }) == args_fold(crate::steam::strings_view(args@), args@.len() as int),
{
    let ghost sv = crate::steam::strings_view(args@);
    let mut tray = false;
    let mut gl = false;
    let mut path: Option<String> = None;
    let mut k: usize = 0;
    while k < args.len()
        invariant
            k <= args.len(),
            sv == crate::steam::strings_view(args@),
            (tray, gl, match path {
                Some(p) => Some(p@),
                None => None,
            }) == args_fold(sv, k as int),
        decreases args.len() - k,
    {
        let a = crate::text::chars_of(args[k].as_str());
        assert(sv[k as int] == a@);
        let eq = |lit: &str| -> (b: bool)
            ensures
                b == (a@ == lit@),
            { crate::text::eq_chars(&a, &crate::text::chars_of(lit)) };
        if eq("--tray") || eq("-tray") {
            tray = true;
        } else if eq("--greenluma") || eq("-greenluma") {
            gl = true;
        } else if !(a.len() > 0 && a[0] == '-') && path.is_none() {
            path = Some(args[k].clone());
        }
        k = k + 1;
    }
    LaunchArgs { start_in_tray: tray, open_greenluma: gl, initial_path: path }
}

/// The command handed to a running instance for this launch, and whether
/// the launch is a quiet tray start (tray, no path, no GreenLuma): the
/// window is shown unless it is a tray start without a path or GreenLuma.
pub fn launch_command(args: &LaunchArgs) -> (r: (IpcCommand, bool))
    ensures
        r.0.greenluma == args.open_greenluma,
        r.0.path == args.initial_path,
        r.0.show == (!args.start_in_tray || args.initial_path is Some || args.open_greenluma),
        r.1 == (args.start_in_tray && args.initial_path is None && !args.open_greenluma),
{
    let path = match &args.initial_path {
        Some(p) => Some(p.clone()),
        None => None,
    };
    let show = !args.start_in_tray || args.initial_path.is_some() || args.open_greenluma;
    let quiet = args.start_in_tray && args.initial_path.is_none() && !args.open_greenluma;
    (IpcCommand { greenluma: args.open_greenluma, path, show }, quiet)
}

} // verus!
