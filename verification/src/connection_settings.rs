//! Decisions taken before saved connection profiles are looked up.

use vstd::prelude::*;
use crate::text::{is_blank, str_equals, str_is_blank};

verus! {

/// Returns `true` when a lookup of saved profiles by `name` is skipped:
/// an empty or white-space-only name matches no profile. Names longer than
/// an SSID's 32 bytes (VPN profile names, for instance) are looked up.
pub fn should_skip_lookup(name: &str) -> (skip: bool)
    ensures
        skip == is_blank(name@),
{
    str_is_blank(name)
}

/// What was read of one saved profile: its object path, and its
/// `connection.id` and `connection.uuid` where each is present as a string.
#[derive(Debug, Clone)]
pub struct SavedProfile {
    /// The profile's D-Bus object path.
    pub path: String,
    /// `connection.id`, when present as a string.
    pub id: Option<String>,
    /// `connection.uuid`, when present as a string.
    pub uuid: Option<String>,
}

/// A profile answers a lookup of `name` when its id is exactly `name` and
/// it has a uuid.
pub open spec fn answers(p: SavedProfile, name: Seq<char>) -> bool {
    &&& p.id matches Some(id) && id@ == name
    &&& p.uuid is Some
}

/// `i` is the first profile that answers a lookup of `name`.
pub open spec fn is_first_answer(profiles: Seq<SavedProfile>, name: Seq<char>, i: int) -> bool {
    &&& 0 <= i < profiles.len()
    &&& answers(profiles[i], name)
    &&& forall|j: int| 0 <= j < i ==> !answers(#[trigger] profiles[j], name)
}

/// The path and uuid of the first saved profile, in the order
/// `ListConnections` gave them, whose `connection.id` is exactly `name` and
/// that has a `connection.uuid`; `None` when there is none.
pub fn find_saved_by_id(profiles: &Vec<SavedProfile>, name: &str) -> (r: Option<(String, String)>)
    ensures
        r is None <==> forall|i: int| 0 <= i < profiles@.len() ==> !answers(#[trigger] profiles@[i], name@),
        r matches Some((path, uuid)) ==> exists|i: int|
            is_first_answer(profiles@, name@, i) && #[trigger] profiles@[i].path == path && profiles@[i].uuid
                == Some(uuid),
{
    let mut i: usize = 0;
    while i < profiles.len()
        invariant
            i <= profiles@.len(),
            forall|j: int| 0 <= j < i ==> !answers(#[trigger] profiles@[j], name@),
        decreases profiles@.len() - i,
    {
        let p = &profiles[i];
        let id_matches = match &p.id {
            Some(id) => str_equals(id.as_str(), name),
            None => false,
        };
        if id_matches {
            if let Some(uuid) = &p.uuid {
                assert(is_first_answer(profiles@, name@, i as int));
                return Some((p.path.clone(), uuid.clone()));
            }
        }
        i = i + 1;
    }
    None
}

} // verus!
