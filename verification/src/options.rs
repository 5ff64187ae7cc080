//! The one option of a connector program: where its configuration file is.
//!
//! The synthesized program looks through its arguments for `--config` and
//! takes the argument after it. This module states that rule on plain
//! argument lists and implements it. An argument is a sequence of bytes, as
//! the operating system hands it over: it need not be Unicode.

use vstd::prelude::*;
use vstd::string::StringSliceAdditionalSpecFns;

verus! {

/// The flag that names the configuration file on the command line.
pub const CONFIG_FLAG: &'static str = "--config";

/// What a program prints to standard error when the flag or its value is
/// missing.
pub const MISSING_CONFIG: &'static str =
    "error: The following required arguments were not provided:\n  --config <PATH>";

/// The exit code of a program that was started without a configuration path.
pub const MISSING_CONFIG_EXIT_CODE: u8 = 1;

/// The options of a connector program.
#[derive(Debug)]
pub struct ConnectorOpt {
    /// The path of the configuration file, as it was given.
    pub config: Vec<u8>,
}

/// The bytes of the flag.
pub open spec fn flag_bytes() -> Seq<u8> {
    CONFIG_FLAG.spec_bytes()
}

/// The flag stands at `i`, and nowhere before.
pub open spec fn is_flag_position(args: Seq<Seq<u8>>, i: int) -> bool {
    &&& 0 <= i < args.len()
    &&& args[i] == flag_bytes()
    &&& forall|j: int| 0 <= j < i ==> args[j] != flag_bytes()
}

/// Where the path stands in an argument list: right after the first
/// `--config`. It stands nowhere when the flag is absent, and nowhere when
/// the first occurrence of the flag is the last argument.
pub open spec fn path_position(args: Seq<Seq<u8>>) -> Option<int> {
    if exists|i: int| is_flag_position(args, i) && i + 1 < args.len() {
        Some((choose|i: int| is_flag_position(args, i) && i + 1 < args.len()) + 1)
    } else {
        None
    }
}

/// The path that an argument list names, byte for byte.
pub open spec fn config_path(args: Seq<Seq<u8>>) -> Option<Seq<u8>> {
    match path_position(args) {
        Some(position) => Some(args[position]),
        None => None,
    }
}

/// The flag first stands at one place at most.
pub proof fn lemma_flag_position_unique(args: Seq<Seq<u8>>, i: int, j: int)
    requires
        is_flag_position(args, i),
        is_flag_position(args, j),
    ensures
        i == j,
{
    if i < j {
        assert(args[i] != flag_bytes());
    } else if j < i {
        assert(args[j] != flag_bytes());
    }
}

/// Where the flag first stands with an argument after it, that argument is
/// the path.
pub proof fn lemma_path_follows_flag(args: Seq<Seq<u8>>, i: int)
    requires
        is_flag_position(args, i),
        i + 1 < args.len(),
    ensures
        path_position(args) == Some(i + 1),
        config_path(args) == Some(args[i + 1]),
{
    let k = choose|k: int| is_flag_position(args, k) && k + 1 < args.len();
    lemma_flag_position_unique(args, i, k);
}

/// The path is found whatever stands around the flag and its value: any
/// arguments before them that are not the flag, and any arguments after.
/// The path itself may hold any bytes.
pub proof fn lemma_path_among_other_arguments(
    before: Seq<Seq<u8>>,
    path: Seq<u8>,
    after: Seq<Seq<u8>>,
)
    requires
        forall|j: int| 0 <= j < before.len() ==> before[j] != flag_bytes(),
    ensures
        config_path(before + seq![flag_bytes(), path] + after) == Some(path),
{
    let args = before + seq![flag_bytes(), path] + after;
    let i = before.len() as int;
    assert(args[i] == flag_bytes());
    assert(args[i + 1] == path);
    assert forall|j: int| 0 <= j < i implies args[j] != flag_bytes() by {
        assert(args[j] == before[j]);
    }
    lemma_path_follows_flag(args, i);
}

/// Arguments without the flag name no path.
pub proof fn lemma_no_flag_no_path(args: Seq<Seq<u8>>)
    requires
        forall|j: int| 0 <= j < args.len() ==> args[j] != flag_bytes(),
    ensures
        config_path(args) is None,
{
}

/// A flag that nothing follows names no path, as if it were absent.
pub proof fn lemma_flag_without_value(before: Seq<Seq<u8>>)
    requires
        forall|j: int| 0 <= j < before.len() ==> before[j] != flag_bytes(),
    ensures
        config_path(before.push(flag_bytes())) is None,
        config_path(before.push(flag_bytes())) == config_path(before),
{
    let args = before.push(flag_bytes());
    let last = before.len() as int;
    assert(args[last] == flag_bytes());
    assert forall|j: int| 0 <= j < last implies args[j] != flag_bytes() by {
        assert(args[j] == before[j]);
    }
    assert(is_flag_position(args, last));
    assert forall|k: int| is_flag_position(args, k) implies !(k + 1 < args.len()) by {
        lemma_flag_position_unique(args, last, k);
    }
    lemma_no_flag_no_path(before);
}

/// Whether an argument is the flag: the same bytes, no more and no fewer.
pub fn is_flag(arg: &Vec<u8>) -> (same: bool)
    ensures
        same == (arg@ == flag_bytes()),
{
    let flag = CONFIG_FLAG.as_bytes();
    if arg.len() != flag.len() {
        return false;
    }
    let mut k: usize = 0;
    while k < arg.len()
        invariant
            k <= arg.len(),
            arg.len() == flag.len(),
            flag@ == flag_bytes(),
            forall|j: int| 0 <= j < k ==> arg@[j] == flag@[j],
        decreases arg.len() - k,
    {
        if arg[k] != flag[k] {
            return false;
        }
        k += 1;
    }
    assert(arg@ =~= flag@);
    true
}

/// Finds where the path stands: the first argument that is exactly
/// `--config` decides, and the path is the argument that follows it.
pub fn find_config(args: &Vec<Vec<u8>>) -> (position: Option<usize>)
    ensures
        match position {
            Some(found) => path_position(args.deep_view()) == Some(found as int),
            None => path_position(args.deep_view()) is None,
        },
{
    let ghost views = args.deep_view();
    let mut i: usize = 0;
    while i < args.len()
        invariant
            i <= args.len(),
            views == args.deep_view(),
            forall|j: int| 0 <= j < i ==> views[j] != flag_bytes(),
        decreases args.len() - i,
    {
        assert(views[i as int] == args@[i as int]@);
        if is_flag(&args[i]) {
            assert(is_flag_position(views, i as int));
            if i + 1 < args.len() {
                proof {
                    lemma_path_follows_flag(views, i as int);
                }
                return Some(i + 1);
            } else {
                assert forall|k: int| is_flag_position(views, k) implies !(k + 1
                    < views.len()) by {
                    lemma_flag_position_unique(views, i as int, k);
                }
                return None;
            }
        }
        i += 1;
    }
    None
}

impl ConnectorOpt {
    /// Parses an argument list. `None` means that the program must print
    /// [`MISSING_CONFIG`] and end with [`MISSING_CONFIG_EXIT_CODE`].
    pub fn parse_from(args: &Vec<Vec<u8>>) -> (opt: Option<ConnectorOpt>)
        ensures
            match opt {
                Some(found) => config_path(args.deep_view()) == Some(found.config@),
                None => config_path(args.deep_view()) is None,
            },
    {
        match find_config(args) {
            Some(position) => {
                assert(args.deep_view()[position as int] == args@[position as int]@);
                Some(ConnectorOpt { config: args[position].clone() })
            },
            None => None,
        }
    }
}

} // verus!
