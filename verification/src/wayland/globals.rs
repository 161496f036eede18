//! The globals of the compositor, and what can go wrong with them.

use vstd::prelude::*;

verus! {

/// Why a global could not be bound.
#[derive(Clone, Copy, Debug, PartialEq, Eq, Structural)]
pub enum BindError {
    /// The compositor has the global, but in no version that is supported.
    UnsupportedVersion,
    /// The compositor does not have the global.
    NotPresent,
}

/// A global that the compositor need not have.
pub open spec fn optional<T>(bound: Result<T, BindError>) -> Result<Option<T>, BindError> {
    match bound {
        Ok(global) => Ok(Some(global)),
        Err(BindError::NotPresent) => Ok(None),
        Err(BindError::UnsupportedVersion) => Err(BindError::UnsupportedVersion),
    }
}

/// Binds a global that the compositor need not have, but if it has it, then in a version that is
/// supported.
pub fn optional_global<T>(bound: Result<T, BindError>) -> (global: Result<Option<T>, BindError>)
    ensures
        global == optional(bound),
{
    match bound {
        Ok(global) => Ok(Some(global)),
        Err(error) => match error {
            BindError::UnsupportedVersion => Err(BindError::UnsupportedVersion),
            BindError::NotPresent => Ok(None),
        },
    }
}

/// The outputs that there are at first. Without ones in a version that is supported there are none.
/// That there are no outputs at all is not an error of binding.
pub fn initial_outputs<T>(bound: Result<Vec<T>, BindError>) -> (outputs: Vec<T>)
    requires
        bound != Err::<Vec<T>, BindError>(BindError::NotPresent),
    ensures
        match bound {
            Ok(bound) => outputs == bound,
            Err(_) => outputs@.len() == 0,
        },
{
    match bound {
        Ok(outputs) => outputs,
        Err(_) => Vec::new(),
    }
}

/// Something went wrong with the compositor, with the reason.
#[derive(Debug)]
pub enum Error {
    Connect(String),
    Bind(String),
    Calloop(String),
}

impl Error {
    /// What went wrong, in words.
    pub open spec fn said(self) -> Seq<char> {
        match self {
            Error::Connect(reason) => "could not connect to the wayland server: "@ + reason@,
            Error::Bind(reason) => "could not bind a wayland global: "@ + reason@,
            Error::Calloop(reason) => "calloop failed: "@ + reason@,
        }
    }

    /// The reason that was given.
    pub open spec fn reason(self) -> Seq<char> {
        match self {
            Error::Connect(reason) => reason@,
            Error::Bind(reason) => reason@,
            Error::Calloop(reason) => reason@,
        }
    }

    /// What is said ends with the reason, after words that tell the errors apart.
    pub proof fn law_reasons_are_given(self, other: Error)
        ensures
            self.reason().is_suffix_of(self.said()),
            self.said().len() > self.reason().len(),
            self.said() == other.said() ==> self is Connect == other is Connect && self is Bind
                == other is Bind && self is Calloop == other is Calloop && self.reason()
                == other.reason(),
    {
        reveal_strlit("could not connect to the wayland server: ");
        reveal_strlit("could not bind a wayland global: ");
        reveal_strlit("calloop failed: ");
        if self.said() == other.said() {
            assert(self.said()[10] == other.said()[10]);
            assert(self.said()[1] == other.said()[1]);
            let start = self.said().len() - self.reason().len();
            assert(self.reason() =~= self.said().skip(start));
            assert(other.reason() =~= other.said().skip(start));
        }
        assert(self.reason() =~= self.said().skip(self.said().len() - self.reason().len()));
    }

    /// Says what went wrong.
    pub fn text(&self) -> (text: String)
        ensures
            text@ == self.said(),
    {
        let (start, reason) = match self {
            Error::Connect(reason) => ("could not connect to the wayland server: ", reason),
            Error::Bind(reason) => ("could not bind a wayland global: ", reason),
            Error::Calloop(reason) => ("calloop failed: ", reason),
        };
        let mut text = start.to_owned();
        text.append(reason.as_str());
        text
    }
}

/// A global that the compositor has is used if it can be, and only one that is too old is an error;
/// doing without one that is not there is none.
pub proof fn law_missing_globals_are_no_error<T>(bound: Result<T, BindError>)
    ensures
        optional(bound) is Err <==> bound == Err::<T, BindError>(BindError::UnsupportedVersion),
        optional(bound) matches Ok(global) ==> (global is Some <==> bound is Ok),
        bound matches Ok(global) ==> optional(bound) == Ok::<Option<T>, BindError>(Some(global)),
{
}

/// That a global is not there is forgiven, and nothing else is: one that was bound is used, and an
/// error of any other kind stays what it is.
pub proof fn law_only_absence_is_forgiven<T>(bound: Result<T, BindError>, global: T)
    ensures
        optional(bound) is Err <==> bound is Err && bound->Err_0 is UnsupportedVersion,
        optional(bound) is Err ==> optional(bound)->Err_0 == bound->Err_0,
        optional(bound) == Ok::<Option<T>, BindError>(Some(global)) <==> bound == Ok::<T, BindError>(
            global,
        ),
        optional(bound) == Ok::<Option<T>, BindError>(None) <==> bound is Err
            && bound->Err_0 is NotPresent,
{
}

} // verus!
