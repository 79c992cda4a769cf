//! The port on which the tracker listens, as the command line gives it.

use vstd::prelude::*;

verus! {

/// The port used where the command line names none.
pub const DEFAULT_PORT: u16 = 3000;

/// The lowest port that is accepted.
pub const MIN_PORT: u16 = 80;

/// What `str::parse::<u16>` makes of `text`: the number it reads, or
/// nothing where it reports an error.
pub uninterp spec fn parsed_u16(text: Seq<char>) -> Option<u16>;

/// `str::parse::<u16>`, with its error dropped.
#[verifier::external_body]
fn parse_u16(text: &str) -> (r: Option<u16>)
    ensures
        r == parsed_u16(text@),
{
    match text.parse::<u16>() {
        Ok(n) => Some(n),
        Err(_) => None,
    }
}

/// Whether the argument announces the port.
pub open spec fn is_port_flag(arg: Seq<char>) -> bool {
    arg == "--port"@ || arg == "-p"@
}

/// The index of the first argument that announces the port, or the number
/// of arguments where none does.
pub open spec fn first_flag(args: Seq<String>) -> int
    decreases args.len(),
{
    if args.len() == 0 {
        0
    } else if is_port_flag(args[0]@) {
        0
    } else {
        1 + first_flag(args.subrange(1, args.len() as int))
    }
}

/// The message for a port below `MIN_PORT`.
pub open spec fn too_low() -> Seq<char> {
    "Error : port must be greater than 79."@
}

/// The message for a port that is no number.
pub open spec fn not_a_port() -> Seq<char> {
    "Erreur : invalid port."@
}

/// The message for a flag that nothing follows.
pub open spec fn no_port_given() -> Seq<char> {
    "Erreur : no port given after --port or -p."@
}

/// The port that a parsed argument stands for, or the message that refuses
/// it.
pub open spec fn port_of(parsed: Option<u16>) -> Result<u16, Seq<char>> {
    match parsed {
        Some(port) => if port >= MIN_PORT {
            Ok(port)
        } else {
            Err(too_low())
        },
        None => Err(not_a_port()),
    }
}

/// The port that the arguments choose: the default where no argument
/// announces one, else what follows the first flag.
pub open spec fn chosen_port(args: Seq<String>) -> Result<u16, Seq<char>> {
    let at = first_flag(args);
    if at >= args.len() {
        Ok(DEFAULT_PORT)
    } else if at + 1 >= args.len() {
        Err(no_port_given())
    } else {
        port_of(parsed_u16(args[at + 1]@))
    }
}

/// Whether `r` is the outcome `expected`, the message taken by its
/// characters.
pub open spec fn is_outcome(r: Result<u16, String>, expected: Result<u16, Seq<char>>) -> bool {
    match r {
        Ok(port) => expected == Ok::<u16, Seq<char>>(port),
        Err(message) => expected == Err::<u16, Seq<char>>(message@),
    }
}

/// Accepts or refuses the port that an argument was parsed to.
pub fn check_port(parsed: Option<u16>) -> (r: Result<u16, String>)
    ensures
        is_outcome(r, port_of(parsed)),
{
    match parsed {
        Some(port) => if port > 79 {
            Ok(port)
        } else {
            Err("Error : port must be greater than 79.".to_owned())
        },
        None => Err("Erreur : invalid port.".to_owned()),
    }
}

/// Where the first port flag stands among the arguments.
fn find_flag(args: &Vec<String>) -> (at: usize)
    ensures
        at == first_flag(args@),
        at <= args@.len(),
{
    let long = "--port".to_owned();
    let short = "-p".to_owned();
    let mut i: usize = 0;
    assert(args@.subrange(0, args@.len() as int) =~= args@);
    while i < args.len()
        invariant
            0 <= i <= args@.len(),
            long@ == "--port"@,
            short@ == "-p"@,
            first_flag(args@) == i + first_flag(args@.subrange(i as int, args@.len() as int)),
        decreases args@.len() - i,
    {
        let ghost rest = args@.subrange(i as int, args@.len() as int);
        assert(rest.subrange(1, rest.len() as int) =~= args@.subrange(
            i + 1,
            args@.len() as int,
        ));
        if args[i] == long || args[i] == short {
            return i;
        }
        i += 1;
    }
    i
}

/// Reads the port from the arguments of the command line. Without a
/// `--port` or `-p` the port is the default; with one, the argument after
/// the first of them must be a number of at least `MIN_PORT`.
pub fn get_port_from_args(args: &Vec<String>) -> (r: Result<u16, String>)
    ensures
        is_outcome(r, chosen_port(args@)),
{
    let at = find_flag(args);
    if at >= args.len() {
        Ok(3000)
    } else if at + 1 >= args.len() {
        Err("Erreur : no port given after --port or -p.".to_owned())
    } else {
        check_port(parse_u16(args[at + 1].as_str()))
    }
}

} // verus!
