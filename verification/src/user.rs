//! The route of one user.

use vstd::prelude::*;
use vstd::string::*;

use crate::decimal::{
    decimal, lemma_decimal_round_trip, lemma_decimal_value, parse_u64, push_decimal,
    spec_parse_u64,
};
use crate::text::{after_prefix, is_clean_path, lemma_after_prefix_concat, strip_prefix};

verus! {

/// The route `/users/{user_id}`.
#[derive(Debug, Clone, Copy, PartialEq, Eq, Structural)]
pub struct UserRoute {
    pub user_id: u64,
}

impl UserRoute {
    /// The route that the sub-path `path` denotes: `/` followed by a numeral
    /// is the user of that id, anything else is no route.
    pub open spec fn spec_parse(path: Seq<char>) -> Option<UserRoute> {
        match after_prefix(path, "/"@) {
            Some(id) => match spec_parse_u64(id) {
                Some(user_id) => Some(UserRoute { user_id }),
                None => None,
            },
            None => None,
        }
    }

    /// The canonical sub-path of this route.
    pub open spec fn spec_url(self) -> Seq<char> {
        "/"@ + decimal(self.user_id as nat)
    }

    /// Parsing the canonical sub-path of a route gives the route back.
    pub proof fn lemma_round_trip(self)
        ensures
            Self::spec_parse(self.spec_url()) == Some(self),
    {
        lemma_after_prefix_concat("/"@, decimal(self.user_id as nat));
        lemma_decimal_round_trip(self.user_id);
    }

    /// The canonical sub-path of a route begins with `/` and holds no two `/`
    /// in a row.
    pub proof fn lemma_url_shape(self)
        ensures
            is_clean_path(self.spec_url()),
    {
        reveal_strlit("/");
        lemma_decimal_value(self.user_id as nat);
    }

    pub(crate) fn parse_chars(path: &[char]) -> (route: Option<UserRoute>)
        ensures
            route == Self::spec_parse(path@),
    {
        match strip_prefix(path, "/") {
            Some(id) => match parse_u64(id) {
                Some(user_id) => Some(UserRoute { user_id }),
                None => None,
            },
            None => None,
        }
    }

    pub(crate) fn push_url(&self, out: &mut String)
        ensures
            final(out)@ == old(out)@ + self.spec_url(),
    {
        out.append("/");
        push_decimal(out, self.user_id);
    }
}

} // verus!
