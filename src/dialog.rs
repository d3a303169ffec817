//! The modal decision gate: a pending decision held as plain data, and the
//! yes/no state of the dialog that asks for it.

use vstd::prelude::*;

use crate::network::IpAddress;
use crate::protocol::{File, ProtocolError};

verus! {

/// Whether a dialog asks for a decision or only shows a notice.
#[derive(Debug, Clone, Copy, PartialEq, Eq, Structural)]
pub enum DialogBoxType {
    Info,
    Decision,
}

/// What a dialog waits on the user for.
#[derive(Debug)]
pub enum PendingDecision {
    /// Accept or refuse the inbound peer `id` at `ip`.
    ConnectApproval { id: u32, ip: IpAddress },
    /// Save or discard a file that the peer sent.
    FileApproval(File),
    /// Acknowledge that connecting to a peer failed with this error.
    Acknowledge(ProtocolError),
}

impl PendingDecision {
    pub open spec fn spec_kind(&self) -> DialogBoxType {
        match self {
            PendingDecision::Acknowledge(_) => DialogBoxType::Info,
            _ => DialogBoxType::Decision,
        }
    }

    /// The kind of dialog that asks for this decision.
    pub fn kind(&self) -> (r: DialogBoxType)
        ensures
            r == self.spec_kind(),
    {
        match self {
            PendingDecision::Acknowledge(_) => DialogBoxType::Info,
            _ => DialogBoxType::Decision,
        }
    }
}

/// A dialog on screen: the decision it asks for and the answer now selected.
#[derive(Debug)]
pub struct DialogState {
    is_yes: bool,
    decision: PendingDecision,
}

impl View for DialogState {
    type V = (bool, PendingDecision);

    closed spec fn view(&self) -> (bool, PendingDecision) {
        (self.is_yes, self.decision)
    }
}

impl DialogState {
    /// A dialog for `decision`, with "no" selected.
    pub fn new(decision: PendingDecision) -> (r: Self)
        ensures
            r@ == (false, decision),
    {
        DialogState { is_yes: false, decision }
    }

    pub fn is_yes(&self) -> (r: bool)
        ensures
            r == self@.0,
    {
        self.is_yes
    }

    /// Selects the other answer.
    pub fn toggle(&mut self)
        ensures
            final(self)@ == (!old(self)@.0, old(self)@.1),
    {
        self.is_yes = !self.is_yes;
    }

    pub fn decision(&self) -> (r: &PendingDecision)
        ensures
            *r == self@.1,
    {
        &self.decision
    }

    /// The decision and the selected answer, taking the dialog apart.
    pub fn into_parts(self) -> (r: (bool, PendingDecision))
        ensures
            r == self@,
    {
        (self.is_yes, self.decision)
    }
}

/// The text and kind of a dialog, as drawn on screen.
#[derive(Debug)]
pub struct DialogBox {
    msg: String,
    d_type: DialogBoxType,
}

impl DialogBox {
    pub closed spec fn spec_msg(&self) -> Seq<char> {
        self.msg@
    }

    pub closed spec fn spec_type(&self) -> DialogBoxType {
        self.d_type
    }

    pub fn new(msg: String, d_type: DialogBoxType) -> (r: Self)
        ensures
            r.spec_msg() == msg@,
            r.spec_type() == d_type,
    {
        Self { msg, d_type }
    }

    pub fn msg(&self) -> (r: &String)
        ensures
            r@ == self.spec_msg(),
    {
        &self.msg
    }

    pub fn d_type(&self) -> (r: DialogBoxType)
        ensures
            r == self.spec_type(),
    {
        self.d_type
    }
}

} // verus!
