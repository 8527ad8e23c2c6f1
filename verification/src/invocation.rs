//! Startup decisions: which work a command-line invocation asks for, and
//! which flag combinations abort the run before any conversion begins.
//!
//! A fatal startup condition — an unsupported target format, a folder
//! without a way to select its files, or no input at all — aborts the whole
//! run; everything later is a per-item matter.

use vstd::prelude::*;
use crate::registry::spec_lookup;
use crate::registry::lookup;
use crate::resolve::opt_string_view;

verus! {

/// How candidates of a folder run are selected.
#[derive(Debug)]
pub enum SelectionMode {
    /// Every regular file whose extension equals this one.
    Explicit(String),
    /// Every recognized image file not already in the target format.
    AnyEligible,
}

/// One unit of work an invocation asks for.
#[derive(Debug)]
pub enum Action {
    /// Convert the single named file.
    ConvertFile(String),
    /// Scan the named folder, non-recursively, and convert what the mode
    /// selects.
    ScanFolder { folder: String, mode: SelectionMode },
}

/// Why a run aborts at startup, before any conversion work.
#[derive(Debug)]
pub enum StartupError {
    /// The target extension names no supported format.
    UnsupportedTarget(String),
    /// A folder was given with neither an explicit source extension nor the
    /// any-eligible switch.
    MissingFrom,
    /// Neither a file nor a folder was given.
    NoInput,
}

/// The specification-level image of a selection mode.
pub enum SpecSelection {
    Explicit(Seq<char>),
    AnyEligible,
}

/// The specification-level image of an action.
pub enum SpecAction {
    ConvertFile(Seq<char>),
    ScanFolder { folder: Seq<char>, mode: SpecSelection },
}

/// The specification-level image of a startup error.
pub enum SpecStartupError {
    UnsupportedTarget(Seq<char>),
    MissingFrom,
    NoInput,
}

impl View for SelectionMode {
    type V = SpecSelection;

    open spec fn view(&self) -> SpecSelection {
        match self {
            SelectionMode::Explicit(from) => SpecSelection::Explicit(from@),
            SelectionMode::AnyEligible => SpecSelection::AnyEligible,
        }
    }
}

impl View for Action {
    type V = SpecAction;

    open spec fn view(&self) -> SpecAction {
        match self {
            Action::ConvertFile(f) => SpecAction::ConvertFile(f@),
            Action::ScanFolder { folder, mode } => SpecAction::ScanFolder {
                folder: folder@,
                mode: mode@,
            },
        }
    }
}

impl View for StartupError {
    type V = SpecStartupError;

    open spec fn view(&self) -> SpecStartupError {
        match self {
            StartupError::UnsupportedTarget(e) => SpecStartupError::UnsupportedTarget(e@),
            StartupError::MissingFrom => SpecStartupError::MissingFrom,
            StartupError::NoInput => SpecStartupError::NoInput,
        }
    }
}

/// The actions a valid invocation performs, in order: the single file, if
/// given, then the folder scan, if given. The any-eligible switch takes
/// precedence over an explicit source extension.
pub open spec fn spec_actions(
    file: Option<Seq<char>>,
    folder: Option<Seq<char>>,
    from: Option<Seq<char>>,
    all: bool,
) -> Seq<SpecAction> {
    let head: Seq<SpecAction> = match file {
        Some(f) => seq![SpecAction::ConvertFile(f)],
        None => seq![],
    };
    let tail: Seq<SpecAction> = match folder {
        Some(d) => seq![
            SpecAction::ScanFolder {
                folder: d,
                mode: if all {
                    SpecSelection::AnyEligible
                } else {
                    SpecSelection::Explicit(from->0)
                },
            },
        ],
        None => seq![],
    };
    head + tail
}

/// What an invocation decides: an unsupported target aborts first; then an
/// empty invocation; then a folder with no selection policy; what remains
/// is valid and yields its actions.
pub open spec fn spec_invocation(
    file: Option<Seq<char>>,
    folder: Option<Seq<char>>,
    from: Option<Seq<char>>,
    to: Seq<char>,
    all: bool,
) -> Result<Seq<SpecAction>, SpecStartupError> {
    if spec_lookup(to) is None {
        Err(SpecStartupError::UnsupportedTarget(to))
    } else if file is None && folder is None {
        Err(SpecStartupError::NoInput)
    } else if folder is Some && !all && from is None {
        Err(SpecStartupError::MissingFrom)
    } else {
        Ok(spec_actions(file, folder, from, all))
    }
}

/// Validates an invocation and lists its work.
pub fn plan_invocation(
    file: &Option<String>,
    folder: &Option<String>,
    from: &Option<String>,
    to: &str,
    all: bool,
) -> (r: Result<Vec<Action>, StartupError>)
    ensures
        ({
            let s = spec_invocation(
                opt_string_view(*file),
                opt_string_view(*folder),
                opt_string_view(*from),
                to@,
                all,
            );
            match r {
                Ok(actions) => s == Ok::<_, SpecStartupError>(
                    actions@.map_values(|a: Action| a@),
                ),
                Err(e) => s == Err::<Seq<SpecAction>, _>(e@),
            }
        }),
{
    if let Err(e) = lookup(to) {
        return Err(StartupError::UnsupportedTarget(e.extension));
    }
    if file.is_none() && folder.is_none() {
        return Err(StartupError::NoInput);
    }
    if folder.is_some() && !all && from.is_none() {
        return Err(StartupError::MissingFrom);
    }
    let mut actions: Vec<Action> = Vec::new();
    match file {
        Some(f) => {
            actions.push(Action::ConvertFile(f.clone()));
        },
        None => {},
    }
    match folder {
        Some(d) => {
            let mode = if all {
                SelectionMode::AnyEligible
            } else {
                match from {
                    Some(x) => SelectionMode::Explicit(x.clone()),
                    // A folder with neither policy was rejected above.
                    None => SelectionMode::AnyEligible,
                }
            };
            actions.push(Action::ScanFolder { folder: d.clone(), mode });
        },
        None => {},
    }
    proof {
        assert(actions@.map_values(|a: Action| a@) =~= spec_actions(
            opt_string_view(*file),
            opt_string_view(*folder),
            opt_string_view(*from),
            all,
        ));
    }
    Ok(actions)
}

} // verus!
