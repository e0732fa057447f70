//! Changes to the operator's published profile.

use vstd::prelude::*;

verus! {

/// The fields of a profile that the operator asks to change.
#[derive(Debug)]
pub struct ProfileEdit {
    pub name: Option<String>,
    pub display_name: Option<String>,
    pub about: Option<String>,
    pub picture: Option<String>,
    pub lud16: Option<String>,
    pub lud06: Option<String>,
    pub nip05: Option<String>,
    pub banner: Option<String>,
    pub website: Option<String>,
}

impl ProfileEdit {
    /// Whether no field is named: such an edit is refused.
    pub fn is_empty(&self) -> (empty: bool)
        ensures
            empty == (self.name is None && self.display_name is None && self.about is None
                && self.picture is None && self.lud16 is None && self.lud06 is None
                && self.nip05 is None && self.banner is None && self.website is None),
    {
        self.name.is_none() && self.display_name.is_none() && self.about.is_none()
            && self.picture.is_none() && self.lud16.is_none() && self.lud06.is_none()
            && self.nip05.is_none() && self.banner.is_none() && self.website.is_none()
    }

    /// What the operator is told when no field is named.
    pub fn refusal() -> (text: String)
        ensures
            text@
                == "At least one field must be specified (--name, --display-name, --about, --picture, --lud16, --lud06, --nip05, --banner, --website)"@,
    {
        "At least one field must be specified (--name, --display-name, --about, --picture, --lud16, --lud06, --nip05, --banner, --website)".to_owned()
    }
}

} // verus!
