use vstd::prelude::*;

verus! {

/// How many paths the conduit holds per hashing job.
pub const BUFFER_PPN: usize = 3;

/// Conduit capacity for `n_jobs` hashing jobs: `n_jobs * BUFFER_PPN`,
/// capped at `usize::MAX`.
pub fn queue_length(n_jobs: usize) -> (r: usize)
    ensures
        r as int == if n_jobs * BUFFER_PPN <= usize::MAX {
            n_jobs * BUFFER_PPN
        } else {
            usize::MAX as int
        },
{
    if n_jobs <= usize::MAX / BUFFER_PPN {
        n_jobs * BUFFER_PPN
    } else {
        usize::MAX
    }
}

/// Relies on num_cpus::get: the number of available CPUs, documented to be
/// at least one.
#[verifier::external_body]
fn cpu_count() -> (r: usize)
    ensures
        r >= 1,
{
    num_cpus::get()
}

/// A given worker count, else the number of available CPUs.
pub fn or_num_cpus(opt: Option<usize>) -> (r: usize)
    ensures
        opt is Some ==> r == opt->Some_0,
        opt is None ==> r >= 1,
{
    match opt {
        Some(n) => n,
        None => cpu_count(),
    }
}

/// How the inputs of a run are read.
#[derive(Clone, Copy, Debug, PartialEq, Eq)]
pub enum InputPlan {
    /// Paths come one per line from standard input.
    Stdin,
    /// The one input is a directory, walked recursively.
    Directory,
    /// The one input is a plain file, hashed directly.
    SingleFile,
    /// Several inputs, hashed in the order given.
    Files,
}

/// Why the inputs of a run cannot be used.
#[derive(Clone, Copy, Debug, PartialEq, Eq)]
pub enum InputError {
    /// No input was given.
    NoInput,
    /// The one input is neither `-`, a directory nor a file.
    NotFileOrDirectory,
}

/// The plan for `n_inputs` inputs; the three flags describe the first
/// input and matter only when it is the only one: whether it is the
/// marker `-`, a directory, a plain file.
pub open spec fn plan_of(n_inputs: nat, is_marker: bool, is_dir: bool, is_file: bool) -> Result<
    InputPlan,
    InputError,
> {
    if n_inputs == 0 {
        Err(InputError::NoInput)
    } else if n_inputs > 1 {
        Ok(InputPlan::Files)
    } else if is_marker {
        Ok(InputPlan::Stdin)
    } else if is_dir {
        Ok(InputPlan::Directory)
    } else if is_file {
        Ok(InputPlan::SingleFile)
    } else {
        Err(InputError::NotFileOrDirectory)
    }
}

/// Chooses the path source (or the single-file fast path) for the inputs.
pub fn plan_input(n_inputs: usize, is_marker: bool, is_dir: bool, is_file: bool) -> (r: Result<
    InputPlan,
    InputError,
>)
    ensures
        r == plan_of(n_inputs as nat, is_marker, is_dir, is_file),
{
    if n_inputs == 0 {
        Err(InputError::NoInput)
    } else if n_inputs > 1 {
        Ok(InputPlan::Files)
    } else if is_marker {
        Ok(InputPlan::Stdin)
    } else if is_dir {
        Ok(InputPlan::Directory)
    } else if is_file {
        Ok(InputPlan::SingleFile)
    } else {
        Err(InputError::NotFileOrDirectory)
    }
}

/// Whether an input argument is the marker `-` for standard input.
pub fn is_stdin_marker(arg: &str) -> (r: bool)
    ensures
        r == (arg@ == seq!['-']),
{
    if arg.unicode_len() != 1 {
        proof {
            assert(arg@.len() != seq!['-'].len());
        }
        false
    } else {
        let r = arg.get_char(0) == '-';
        if r {
            assert(arg@ =~= seq!['-']);
        } else {
            assert(arg@[0] != seq!['-'][0]);
        }
        r
    }
}

} // verus!
