//! Project records as the registry serves them, and the access rule.

use vstd::prelude::*;
use vstd::string::*;
use crate::project::error::AccessError;
use crate::project::origin::{Origin, OriginView};
use crate::text::str_eq;

verus! {

#[derive(Debug, Clone, PartialEq, Eq, Hash)]
pub struct ProjectKey {
    pub value: String,
    pub is_valid: bool,
}

#[derive(Debug, Clone, PartialEq, Eq, Hash)]
pub struct ProjectData {
    pub uuid: String,
    pub creator: String,
    pub name: String,
    pub push_url: Option<String>,
    pub keys: Vec<ProjectKey>,
    pub is_enabled: bool,
    pub allowed_origins: Vec<String>,
    pub verified_domains: Vec<String>,
}

impl ProjectData {
    /// Some key of the project has the value `id` and is valid.
    pub open spec fn has_valid_key(self, id: Seq<char>) -> bool {
        exists|i: int|
            0 <= i < self.keys.len() && (#[trigger] self.keys[i]).value@ == id && self.keys[i].is_valid
    }

    /// An origin on the local machine is always allowed.
    pub open spec fn is_local(hostname: Seq<char>) -> bool {
        hostname == "localhost"@ || hostname == "127.0.0.1"@
    }

    /// Some entry of the allow list is a well-written origin that `origin`
    /// is an instance of. Entries that are not well written are ignored.
    pub open spec fn allows(self, origin: OriginView) -> bool {
        exists|i: int|
            0 <= i < self.allowed_origins.len() && allowed_by(
                #[trigger] self.allowed_origins[i]@,
                origin,
            )
    }

    /// The access rule. A disabled project is inactive; otherwise the key
    /// must be known and valid; otherwise access is granted if the allow list
    /// is empty or no origin is given; otherwise the origin must be well
    /// written and either local or an instance of an entry of the allow list.
    pub open spec fn access(self, id: Seq<char>, auth_origin: Option<Seq<char>>) -> Result<
        (),
        AccessError,
    > {
        if !self.is_enabled {
            Err(AccessError::ProjectInactive)
        } else if !self.has_valid_key(id) {
            Err(AccessError::KeyInvalid)
        } else if self.allowed_origins.len() == 0 {
            Ok(())
        } else {
            match auth_origin {
                None => Ok(()),
                Some(text) => match OriginView::parse(text) {
                    Err(_) => Err(AccessError::OriginNotAllowed),
                    Ok(origin) => if Self::is_local(origin.hostname) || self.allows(origin) {
                        Ok(())
                    } else {
                        Err(AccessError::OriginNotAllowed)
                    },
                },
            }
        }
    }

    pub fn validate_access(&self, id: &str, auth_origin: Option<&str>) -> (r: Result<
        (),
        AccessError,
    >)
        ensures
            r == self.access(
                id@,
                match auth_origin {
                    Some(text) => Some(text@),
                    None => None,
                },
            ),
    {
        // Make sure the project is not disabled globally.
        if !self.is_enabled {
            return Err(AccessError::ProjectInactive);
        }
        // Make sure the key is valid.
        if !self.find_valid_key(id) {
            return Err(AccessError::KeyInvalid);
        }
        // Allow all origins if the list is empty.
        if self.allowed_origins.len() == 0 {
            return Ok(());
        }
        let text = match auth_origin {
            Some(text) => text,
            // Origin was not provided. Grant access.
            None => {
                return Ok(());
            },
        };
        let requester = match Origin::try_from(text) {
            Ok(origin) => origin,
            Err(_) => {
                return Err(AccessError::OriginNotAllowed);
            },
        };
        let host = requester.hostname();
        if str_eq(host, "localhost") || str_eq(host, "127.0.0.1") {
            return Ok(());
        }
        let mut i: usize = 0;
        while i < self.allowed_origins.len()
            invariant
                i <= self.allowed_origins.len(),
                auth_origin == Some(text),
                self.access(id@, Some(text@)) == if self.allows(requester@) {
                    Ok::<(), AccessError>(())
                } else {
                    Err::<(), AccessError>(AccessError::OriginNotAllowed)
                },
                forall|j: int| 0 <= j < i ==> !allowed_by(
                    #[trigger] self.allowed_origins[j]@,
                    requester@,
                ),
            decreases self.allowed_origins.len() - i,
        {
            // Having a malformed entry in the allow list is okay. We'll just ignore it.
            match Origin::try_from(self.allowed_origins[i].as_str()) {
                Ok(origin) => {
                    if origin.matches(&requester) {
                        // Found a match, grant access.
                        assert(allowed_by(self.allowed_origins[i as int]@, requester@));
                        assert(self.allows(requester@));
                        return Ok(());
                    }
                },
                Err(_) => {},
            }
            i = i + 1;
        }
        // Origin did not match the allow list. Deny access.
        Err(AccessError::OriginNotAllowed)
    }

    fn find_valid_key(&self, id: &str) -> (found: bool)
        ensures
            found == self.has_valid_key(id@),
    {
        let mut i: usize = 0;
        while i < self.keys.len()
            invariant
                i <= self.keys.len(),
                forall|j: int|
                    0 <= j < i ==> !((#[trigger] self.keys[j]).value@ == id@ && self.keys[j].is_valid),
            decreases self.keys.len() - i,
        {
            if self.keys[i].is_valid && str_eq(self.keys[i].value.as_str(), id) {
                return true;
            }
            i = i + 1;
        }
        false
    }
}

/// The allow-list entry `entry` is a well-written origin that `origin` is an
/// instance of.
pub open spec fn allowed_by(entry: Seq<char>, origin: OriginView) -> bool {
    match OriginView::parse(entry) {
        Ok(pattern) => pattern.matches(origin),
        Err(_) => false,
    }
}

} // verus!
