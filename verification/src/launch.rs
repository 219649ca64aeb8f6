//! What a run of the program is to do, decided from its arguments.

use vstd::prelude::*;
use vstd::string::StringExecFns;

verus! {

/// What a run is to do.
#[derive(Debug, PartialEq, Eq)]
pub enum Launch {
    /// Print the file at the path as text and leave; with no path, print
    /// nothing but the closing line feed.
    Dump(Option<String>),
    /// Open a session over the file at the path.
    Open { path: String, read_only: bool },
    /// Open a session over a fresh buffer of the given length.
    Create { length: usize, read_only: bool },
}

/// The arguments name neither a file nor a length.
#[derive(Clone, Copy, Debug, PartialEq, Eq)]
pub struct ConfigurationError;

/// A `Launch` as plain mathematical values.
pub enum LaunchView {
    Dump(Option<Seq<char>>),
    Open { path: Seq<char>, read_only: bool },
    Create { length: usize, read_only: bool },
}

impl View for Launch {
    type V = LaunchView;

    open spec fn view(&self) -> LaunchView {
        match self {
            Launch::Dump(None) => LaunchView::Dump(None),
            Launch::Dump(Some(path)) => LaunchView::Dump(Some(path@)),
            Launch::Open { path, read_only } => LaunchView::Open { path: path@, read_only: *read_only },
            Launch::Create { length, read_only } => LaunchView::Create {
                length: *length,
                read_only: *read_only,
            },
        }
    }
}

/// The file that the arguments name: the one given by flag, else the one
/// given by position.
pub open spec fn named_input(input_flag: Option<Seq<char>>, input_pos: Option<Seq<char>>) -> Option<
    Seq<char>,
> {
    if input_flag is Some {
        input_flag
    } else {
        input_pos
    }
}

/// What the arguments ask for. Without a file and without a length there is
/// nothing to do. A dump comes before everything else; a file then comes
/// before a length.
pub open spec fn planned(
    input_flag: Option<Seq<char>>,
    input_pos: Option<Seq<char>>,
    create: Option<usize>,
    read_only: bool,
    dump: bool,
) -> Result<LaunchView, ConfigurationError> {
    let input = named_input(input_flag, input_pos);
    if input is None && create is None {
        Err(ConfigurationError)
    } else if dump {
        Ok(LaunchView::Dump(input))
    } else if input is Some {
        Ok(LaunchView::Open { path: input->0, read_only })
    } else {
        Ok(LaunchView::Create { length: create->0, read_only })
    }
}

/// The view of an optional text.
pub open spec fn text_view(text: Option<&str>) -> Option<Seq<char>> {
    match text {
        Some(t) => Some(t@),
        None => None,
    }
}

/// Decides what a run is to do.
pub fn plan(
    input_flag: Option<&str>,
    input_pos: Option<&str>,
    create: Option<usize>,
    read_only: bool,
    dump: bool,
) -> (launch: Result<Launch, ConfigurationError>)
    ensures
        match launch {
            Ok(run) => planned(text_view(input_flag), text_view(input_pos), create, read_only, dump) == Ok::<
                LaunchView,
                ConfigurationError,
            >(run@),
            Err(error) => planned(text_view(input_flag), text_view(input_pos), create, read_only, dump)
                == Err::<LaunchView, ConfigurationError>(error),
        },
{
    let input: Option<&str> = if input_flag.is_some() { input_flag } else { input_pos };
    match (input, create) {
        (None, None) => Err(ConfigurationError),
        (Some(path), _) => {
            if dump {
                Ok(Launch::Dump(Some(String::from_str(path))))
            } else {
                Ok(Launch::Open { path: String::from_str(path), read_only })
            }
        },
        (None, Some(length)) => {
            if dump {
                Ok(Launch::Dump(None))
            } else {
                Ok(Launch::Create { length, read_only })
            }
        },
    }
}

/// The status that the process leaves with: 1 where the arguments name
/// nothing to work on, 0 after every run.
pub fn exit_status(launch: &Result<Launch, ConfigurationError>) -> (status: i32)
    ensures
        status == (if launch is Err { 1i32 } else { 0i32 }),
{
    match launch {
        Ok(_) => 0,
        Err(_) => 1,
    }
}

impl ConfigurationError {
    /// The words that the error is reported with.
    pub fn message(&self) -> (words: String)
        ensures
            words@ == "Error: input file is required unless using --create\nUsage: see --help for usage"@,
    {
        String::from_str("Error: input file is required unless using --create\nUsage: see --help for usage")
    }
}

} // verus!
