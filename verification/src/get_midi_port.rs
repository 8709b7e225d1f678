//! The choice of the input port, as a decision on plain values: the caller
//! lists the ports, asks the user where that is called for, and opens the
//! port that is chosen.

use crate::error::{message_of, Menu, StartupError};
use vstd::prelude::*;

verus! {

/// What to do about the input port.
#[derive(Clone, Copy, Debug, PartialEq, Eq, Structural)]
pub enum PortChoice {
    /// There is one port only: announce it and use it.
    Only,
    /// There are several ports and none was picked yet: ask the user.
    Ask,
    /// Use the port at this index of the list.
    Picked(usize),
}

/// The decision for `port_count` ports and what the user picked, if asked.
pub open spec fn port_choice(port_count: nat, selection: Option<usize>) -> Result<
    PortChoice,
    StartupError,
> {
    if port_count == 0 {
        Err(StartupError::NoDeviceFound)
    } else if port_count == 1 {
        Ok(PortChoice::Only)
    } else {
        match selection {
            None => Ok(PortChoice::Ask),
            Some(index) => if index < port_count {
                Ok(PortChoice::Picked(index))
            } else {
                Err(StartupError::InvalidSelection(Menu::Ports))
            },
        }
    }
}

/// The index of the port to open, where the decision names one.
pub open spec fn port_index(choice: PortChoice) -> Option<usize> {
    match choice {
        PortChoice::Only => Some(0usize),
        PortChoice::Ask => None,
        PortChoice::Picked(index) => Some(index),
    }
}

/// Decides on the input port. With no port it fails; a single port is taken
/// without asking; among several the user's pick counts, once there is one,
/// and fails as an invalid pick from the ports where it names no port.
pub fn get_midi_port(port_count: usize, selection: Option<usize>) -> (decision: Result<
    PortChoice,
    StartupError,
>)
    ensures
        decision == port_choice(port_count as nat, selection),
{
    if port_count == 0 {
        Err(StartupError::NoDeviceFound)
    } else if port_count == 1 {
        Ok(PortChoice::Only)
    } else {
        match selection {
            None => Ok(PortChoice::Ask),
            Some(index) => if index < port_count {
                Ok(PortChoice::Picked(index))
            } else {
                Err(StartupError::InvalidSelection(Menu::Ports))
            },
        }
    }
}

impl PortChoice {
    /// The index of the port to open, if the decision names one.
    pub fn index(&self) -> (index: Option<usize>)
        ensures
            index == port_index(*self),
    {
        match self {
            PortChoice::Only => Some(0),
            PortChoice::Ask => None,
            PortChoice::Picked(index) => Some(*index),
        }
    }
}

/// The decision fails in two ways only, each with its own message: there is
/// no port at all, or there are several and the pick names none of them.
pub proof fn lemma_port_failures(port_count: nat, selection: Option<usize>)
    ensures
        port_choice(port_count, selection) matches Err(error) ==> if port_count == 0 {
            error == StartupError::NoDeviceFound && message_of(error) == "no input port found"@
        } else {
            &&& port_count >= 2
            &&& selection matches Some(index) && index >= port_count
            &&& error == StartupError::InvalidSelection(Menu::Ports)
            &&& message_of(error) == "invalid input port selected"@
        },
{
}

/// A decision that names a port names one of the list.
pub proof fn lemma_port_in_range(port_count: nat, selection: Option<usize>)
    ensures
        port_choice(port_count, selection) matches Ok(choice) ==> (port_index(choice) matches Some(
            index,
        ) ==> index < port_count),
{
}

} // verus!
