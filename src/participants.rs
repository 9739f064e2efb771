//! Participant contexts and their configuration, as sent to the management API.
use vstd::prelude::*;
use std::collections::HashMap;

verus! {

pub open spec fn participant_context_type() -> Seq<char> {
    "ParticipantContext"@
}

pub open spec fn participant_context_config_type() -> Seq<char> {
    "ParticipantContextConfig"@
}

/// A participant context to create: an optional id, the identity, and its type.
pub struct NewParticipantContext {
    pub id: Option<String>,
    pub identity: String,
    pub ty: String,
}

/// The configuration of a participant context: its type, its public entries
/// and its private ones.
pub struct ParticipantContextConfig {
    pub ty: String,
    pub entries: HashMap<String, String>,
    pub private_entries: HashMap<String, String>,
}

impl NewParticipantContext {
    /// A participant context of the standard type.
    pub fn new(identity: String, id: Option<String>) -> (r: NewParticipantContext)
        ensures
            r.identity@ == identity@,
            r.id == id,
            r.ty@ == participant_context_type(),
    {
        proof {
            reveal_strlit("ParticipantContext");
        }
        NewParticipantContext { id, identity, ty: String::from_str("ParticipantContext") }
    }
}

impl ParticipantContextConfig {
    /// A configuration of the standard type with the given public entries and
    /// no private ones.
    pub fn new(entries: HashMap<String, String>) -> (r: ParticipantContextConfig)
        ensures
            r.entries == entries,
            r.private_entries@.len() == 0,
            r.ty@ == participant_context_config_type(),
    {
        proof {
            reveal_strlit("ParticipantContextConfig");
        }
        ParticipantContextConfig {
            ty: String::from_str("ParticipantContextConfig"),
            entries,
            private_entries: HashMap::new(),
        }
    }

    /// The same configuration with the given private entries.
    pub fn with_private_entries(self, private_entries: HashMap<String, String>) -> (r: ParticipantContextConfig)
        ensures
            r.ty == self.ty,
            r.entries == self.entries,
            r.private_entries == private_entries,
    {
        ParticipantContextConfig { private_entries, ..self }
    }
}

} // verus!
