//! Pages below `/settings`.

use vstd::prelude::*;
use vstd::string::*;

use crate::text::{after_prefix, is_clean_path, lemma_after_prefix_concat, spells, strip_prefix};

verus! {

/// A page below `/settings`.
#[derive(Debug, Clone, Copy, PartialEq, Eq, Structural)]
pub enum SettingsPage {
    Profile,
    Password,
}

impl SettingsPage {
    /// The name of this page, as a path segment and as a label.
    pub open spec fn spec_name(self) -> Seq<char> {
        match self {
            SettingsPage::Profile => "profile"@,
            SettingsPage::Password => "password"@,
        }
    }

    /// The page that the sub-path `path` denotes: `/` followed by exactly the
    /// name of a page is that page, anything else is no page.
    pub open spec fn spec_parse(path: Seq<char>) -> Option<SettingsPage> {
        match after_prefix(path, "/"@) {
            Some(name) => if name == "profile"@ {
                Some(SettingsPage::Profile)
            } else if name == "password"@ {
                Some(SettingsPage::Password)
            } else {
                None
            },
            None => None,
        }
    }

    /// The canonical sub-path of this page.
    pub open spec fn spec_url(self) -> Seq<char> {
        "/"@ + self.spec_name()
    }

    /// Parsing the canonical sub-path of a page gives the page back.
    pub proof fn lemma_round_trip(self)
        ensures
            Self::spec_parse(self.spec_url()) == Some(self),
    {
        reveal_strlit("profile");
        reveal_strlit("password");
        lemma_after_prefix_concat("/"@, self.spec_name());
    }

    /// The canonical sub-path of a page begins with `/` and holds no two `/`
    /// in a row.
    pub proof fn lemma_url_shape(self)
        ensures
            is_clean_path(self.spec_url()),
    {
        reveal_strlit("/");
        reveal_strlit("profile");
        reveal_strlit("password");
    }

    pub(crate) fn parse_chars(path: &[char]) -> (page: Option<SettingsPage>)
        ensures
            page == Self::spec_parse(path@),
    {
        match strip_prefix(path, "/") {
            Some(name) => if spells(name, "profile") {
                Some(SettingsPage::Profile)
            } else if spells(name, "password") {
                Some(SettingsPage::Password)
            } else {
                None
            },
            None => None,
        }
    }

    pub(crate) fn name(&self) -> (name: &'static str)
        ensures
            name@ == self.spec_name(),
    {
        match self {
            SettingsPage::Profile => "profile",
            SettingsPage::Password => "password",
        }
    }

    /// Writes a label for this page, for people to read.
    pub fn describe(&self) -> (label: String)
        ensures
            label@ == self.spec_name(),
            label@.len() > 0,
    {
        proof {
            reveal_strlit("profile");
            reveal_strlit("password");
        }
        self.name().to_owned()
    }
}

} // verus!
