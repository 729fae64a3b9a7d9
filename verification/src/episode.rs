//! Episode actions: the kinds of action the service records for an
//! episode.
//!
//! This module is data only: it supplies the `status` enumeration that
//! episode updates carry.

use vstd::prelude::*;

verus! {

use crate::order::str_eq;

/// The kind of action last reported for an episode.
#[derive(Clone, Copy, Debug, PartialEq, Eq, Hash, Structural)]
pub enum EpisodeActionType {
    /// the episode was marked new
    New,
    /// the episode was downloaded
    Download,
    /// the episode was played
    Play,
    /// the episode was deleted
    Delete,
}

/// The name an episode action is written as on the wire: the variant name
/// in lower case.
pub open spec fn spec_action_wire_name(a: EpisodeActionType) -> Seq<char> {
    match a {
        EpisodeActionType::New => "new"@,
        EpisodeActionType::Download => "download"@,
        EpisodeActionType::Play => "play"@,
        EpisodeActionType::Delete => "delete"@,
    }
}

/// The episode action a wire name denotes, if any.
pub open spec fn spec_action_of_wire(s: Seq<char>) -> Option<EpisodeActionType> {
    if s == "new"@ {
        Some(EpisodeActionType::New)
    } else if s == "download"@ {
        Some(EpisodeActionType::Download)
    } else if s == "play"@ {
        Some(EpisodeActionType::Play)
    } else if s == "delete"@ {
        Some(EpisodeActionType::Delete)
    } else {
        None
    }
}

/// Reading a wire name back yields the episode action it was written
/// from.
pub proof fn lemma_action_wire_round_trip(a: EpisodeActionType)
    ensures
        spec_action_of_wire(spec_action_wire_name(a)) == Some(a),
{
    reveal_strlit("new");
    reveal_strlit("download");
    reveal_strlit("play");
    reveal_strlit("delete");
    assert("new"@.len() == 3);
    assert("download"@.len() == 8);
    assert("play"@.len() == 4);
    assert("delete"@.len() == 6);
}

impl EpisodeActionType {
    /// The lower-case name this action is written as on the wire.
    pub fn wire_name(&self) -> (r: &'static str)
        ensures
            r@ == spec_action_wire_name(*self),
    {
        match self {
            EpisodeActionType::New => "new",
            EpisodeActionType::Download => "download",
            EpisodeActionType::Play => "play",
            EpisodeActionType::Delete => "delete",
        }
    }

    /// The episode action a wire name denotes, if any.
    pub fn from_wire(s: &str) -> (r: Option<EpisodeActionType>)
        ensures
            r == spec_action_of_wire(s@),
    {
        if str_eq(s, "new") {
            Some(EpisodeActionType::New)
        } else if str_eq(s, "download") {
            Some(EpisodeActionType::Download)
        } else if str_eq(s, "play") {
            Some(EpisodeActionType::Play)
        } else if str_eq(s, "delete") {
            Some(EpisodeActionType::Delete)
        } else {
            None
        }
    }
}

} // verus!
