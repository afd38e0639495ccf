//! Warnings: what the router reports about its own work, beside the request
//! log.

use vstd::prelude::*;

verus! {

/// The model of a warning.
pub struct WarningModel {
    pub endpoint: Seq<char>,
    pub message: Seq<char>,
}

/// One line for the service log. Warnings are for the operator only: none
/// changes what the client is sent.
#[derive(Debug, PartialEq, Eq)]
pub struct Warning {
    /// The channel that takes the line.
    pub endpoint: String,
    pub message: String,
}

impl View for Warning {
    type V = WarningModel;

    open spec fn view(&self) -> WarningModel {
        WarningModel { endpoint: self.endpoint@, message: self.message@ }
    }
}

impl Clone for Warning {
    fn clone(&self) -> (copy: Self)
        ensures
            copy@ == self@,
    {
        Warning { endpoint: self.endpoint.clone(), message: self.message.clone() }
    }
}

/// The model of a warning that may be absent.
pub open spec fn warning_model(warning: Option<Warning>) -> Option<WarningModel> {
    match warning {
        Some(warning) => Some(warning@),
        None => None,
    }
}

} // verus!
