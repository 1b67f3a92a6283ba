//! The errors of a command.

use vstd::prelude::*;

verus! {

/// Declares `zbus::Error`, the bus library's error, so that a failed remote
/// exchange can carry it as its cause. Nothing inside it is read.
#[verifier::external_type_specification]
#[verifier::external_body]
pub struct ExZbusError(zbus::Error);

/// Why a command failed.
#[derive(Debug)]
pub enum PpdError {
    /// The remote exchange could not complete.
    DBusError(zbus::Error),
    /// The profile name is not recognised or not offered by the service.
    InvalidProfile(String),
    /// The flags given to a command do not make sense together.
    InvalidConfig(String),
    /// The command is recognised but not implemented.
    Unimplemented(String),
}

/// An error with its message as characters.
pub enum PpdErrorView {
    DBusError(zbus::Error),
    InvalidProfile(Seq<char>),
    InvalidConfig(Seq<char>),
    Unimplemented(Seq<char>),
}

impl View for PpdError {
    type V = PpdErrorView;

    open spec fn view(&self) -> PpdErrorView {
        match self {
            PpdError::DBusError(e) => PpdErrorView::DBusError(*e),
            PpdError::InvalidProfile(s) => PpdErrorView::InvalidProfile(s@),
            PpdError::InvalidConfig(s) => PpdErrorView::InvalidConfig(s@),
            PpdError::Unimplemented(s) => PpdErrorView::Unimplemented(s@),
        }
    }
}

} // verus!
