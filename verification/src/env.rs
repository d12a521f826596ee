//! What the command line says of the environment file.

use vstd::prelude::*;
use vstd::string::StringExecFns;

verus! {

/// The texts of a list of strings.
pub open spec fn texts(strings: Seq<String>) -> Seq<Seq<char>> {
    Seq::new(strings.len(), |i: int| strings[i]@)
}

/// The position of the first argument at or after `from` that is one of
/// `aliases`; the number of arguments if there is none.
pub open spec fn first_alias(args: Seq<Seq<char>>, aliases: Seq<Seq<char>>, from: int) -> int
    decreases args.len() - from,
{
    if from >= args.len() {
        args.len() as int
    } else if from >= 0 && aliases.contains(args[from]) {
        from
    } else {
        first_alias(args, aliases, from + 1)
    }
}

/// The value of an option: the argument that follows the first argument
/// that is one of `aliases`, the name of the program not counted.
pub open spec fn arg_value(args: Seq<Seq<char>>, aliases: Seq<Seq<char>>) -> Option<Seq<char>> {
    let at = first_alias(args, aliases, 1);
    if at + 1 < args.len() {
        Some(args[at + 1])
    } else {
        None
    }
}

fn matches_alias(aliases: &Vec<String>, arg: &String) -> (found: bool)
    ensures
        found == texts(aliases@).contains(arg@),
{
    let mut j: usize = 0;
    while j < aliases.len()
        invariant
            j <= aliases.len(),
            forall|k: int| 0 <= k < j ==> (#[trigger] texts(aliases@)[k]) != arg@,
        decreases aliases.len() - j,
    {
        if aliases[j] == *arg {
            assert(texts(aliases@)[j as int] == arg@);
            return true;
        }
        j += 1;
    }
    false
}

/// The value that the command line `args` gives to the option that goes by
/// any of the names `aliases`: the argument after the first of these names.
/// The first argument is the name of the program and is passed over.
pub fn parse_arg(args: &Vec<String>, aliases: &Vec<String>) -> (value: Option<String>)
    ensures
        match value {
            Some(value) => arg_value(texts(args@), texts(aliases@)) == Some(value@),
            None => arg_value(texts(args@), texts(aliases@)) is None,
        },
{
    let mut i: usize = 1;
    while i < args.len()
        invariant
            1 <= i,
            first_alias(texts(args@), texts(aliases@), 1) == first_alias(
                texts(args@),
                texts(aliases@),
                i as int,
            ),
        decreases args.len() - i,
    {
        if matches_alias(aliases, &args[i]) {
            if i + 1 < args.len() {
                return Some(args[i + 1].clone());
            } else {
                return None;
            }
        }
        i += 1;
    }
    None
}

/// The names of the option that names the environment file.
pub open spec fn env_aliases() -> Seq<Seq<char>> {
    seq!["--env"@, "-e"@]
}

/// The name of the environment file: what follows `--env` or `-e` on the
/// command line, and `.env` where neither is given a value.
pub fn env_filename(args: &Vec<String>) -> (name: String)
    ensures
        name@ == match arg_value(texts(args@), env_aliases()) {
            Some(value) => value,
            None => ".env"@,
        },
{
    let mut aliases: Vec<String> = Vec::new();
    aliases.push(String::from_str("--env"));
    aliases.push(String::from_str("-e"));
    assert(texts(aliases@) =~= env_aliases());
    match parse_arg(args, &aliases) {
        Some(value) => value,
        None => String::from_str(".env"),
    }
}

} // verus!
