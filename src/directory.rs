//! Destinations as seen in a directory snapshot of a guild.
use vstd::prelude::*;

verus! {

/// The kinds of channel the platform reports.
#[derive(Clone, Copy, Debug, PartialEq, Eq, Structural)]
pub enum ChannelKind {
    Text,
    News,
    Other,
}

/// One entry of a directory snapshot: a channel or an active thread.
#[derive(Clone, Debug)]
pub enum Destination {
    Channel { id: u64, name: String, kind: ChannelKind },
    Thread { id: u64, name: String },
}

impl Destination {
    /// The name of the destination, as characters.
    pub open spec fn name_view(&self) -> Seq<char> {
        match self {
            Destination::Channel { name, .. } => name@,
            Destination::Thread { name, .. } => name@,
        }
    }

    /// The platform identifier of the destination.
    pub open spec fn id_view(&self) -> u64 {
        match self {
            Destination::Channel { id, .. } => *id,
            Destination::Thread { id, .. } => *id,
        }
    }

    pub fn channel(id: u64, name: String, kind: ChannelKind) -> (r: Destination)
        ensures
            r == (Destination::Channel { id, name, kind }),
    {
        Destination::Channel { id, name, kind }
    }

    pub fn thread(id: u64, name: String) -> (r: Destination)
        ensures
            r == (Destination::Thread { id, name }),
    {
        Destination::Thread { id, name }
    }

    pub fn id(&self) -> (r: u64)
        ensures
            r == self.id_view(),
    {
        match self {
            Destination::Channel { id, .. } => *id,
            Destination::Thread { id, .. } => *id,
        }
    }

    pub fn name(&self) -> (r: &String)
        ensures
            r@ == self.name_view(),
    {
        match self {
            Destination::Channel { name, .. } => name,
            Destination::Thread { name, .. } => name,
        }
    }
}

} // verus!
