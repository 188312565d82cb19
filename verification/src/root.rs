//! The routes of the application, from the root of the path.

use vstd::prelude::*;
use vstd::string::*;

use crate::decimal::{decimal, push_decimal};
use crate::order::OrderRouter;
use crate::settings::SettingsPage;
use crate::text::{after_prefix, chars_of, is_clean_path, lemma_after_prefix_concat, strip_prefix};
use crate::user::UserRoute;

verus! {

/// A fully parsed navigation target.
#[derive(Debug, Clone, Copy, PartialEq, Eq, Structural)]
pub enum RootRouter {
    /// `/settings`, with a page or without one.
    Settings(Option<SettingsPage>),
    /// `/orders` followed by an order route.
    Orders(OrderRouter),
    /// `/users/{user_id}`
    User(UserRoute),
}

impl RootRouter {
    /// The route that `path` denotes. The prefixes `/settings`, `/orders` and
    /// `/users` are tried in this order and the first that `path` begins with
    /// decides; what follows it is read by the route below.
    ///
    /// After `/settings`, a sub-path that names no page is read as the
    /// settings route without a page. After `/orders` and `/users`, a sub-path
    /// that denotes no route below makes `path` denote no route.
    pub open spec fn spec_parse(path: Seq<char>) -> Option<RootRouter> {
        if let Some(rest) = after_prefix(path, "/settings"@) {
            Some(RootRouter::Settings(SettingsPage::spec_parse(rest)))
        } else if let Some(rest) = after_prefix(path, "/orders"@) {
            match OrderRouter::spec_parse(rest) {
                Some(order) => Some(RootRouter::Orders(order)),
                None => None,
            }
        } else if let Some(rest) = after_prefix(path, "/users"@) {
            match UserRoute::spec_parse(rest) {
                Some(user) => Some(RootRouter::User(user)),
                None => None,
            }
        } else {
            None
        }
    }

    /// The canonical path of this route: the prefix of its kind, then the
    /// canonical sub-path of the route below.
    pub open spec fn spec_url(self) -> Seq<char> {
        match self {
            RootRouter::Settings(None) => "/settings"@,
            RootRouter::Settings(Some(page)) => "/settings"@ + page.spec_url(),
            RootRouter::Orders(order) => "/orders"@ + order.spec_url(),
            RootRouter::User(user) => "/users"@ + user.spec_url(),
        }
    }

    /// The label of this route.
    pub open spec fn spec_describe(self) -> Seq<char> {
        match self {
            RootRouter::Settings(None) => "settings page"@,
            RootRouter::Settings(Some(page)) => "settings page"@ + " - "@ + page.spec_name(),
            RootRouter::Orders(order) => "orders page"@ + " - "@ + order.spec_describe(),
            RootRouter::User(user) => "user page"@ + " - "@ + decimal(user.user_id as nat),
        }
    }

    /// Parsing the canonical path of a route gives the route back.
    pub proof fn lemma_round_trip(self)
        ensures
            Self::spec_parse(self.spec_url()) == Some(self),
    {
        reveal_strlit("/settings");
        reveal_strlit("/orders");
        reveal_strlit("/users");
        let url = self.spec_url();
        match self {
            RootRouter::Settings(None) => {
                reveal_strlit("/");
                assert(url.skip(url.len() as int).len() == 0);
            },
            RootRouter::Settings(Some(page)) => {
                lemma_after_prefix_concat("/settings"@, page.spec_url());
                page.lemma_round_trip();
            },
            RootRouter::Orders(order) => {
                assert(url[1] != "/settings"@[1]);
                lemma_after_prefix_concat("/orders"@, order.spec_url());
                order.lemma_round_trip();
            },
            RootRouter::User(user) => {
                assert(url[1] != "/settings"@[1] && url[1] != "/orders"@[1]);
                lemma_after_prefix_concat("/users"@, user.spec_url());
                user.lemma_round_trip();
            },
        }
    }

    /// The canonical path of a route begins with `/` and holds no two `/` in
    /// a row.
    pub proof fn lemma_url_shape(self)
        ensures
            is_clean_path(self.spec_url()),
    {
        reveal_strlit("/settings");
        reveal_strlit("/orders");
        reveal_strlit("/users");
        match self {
            RootRouter::Settings(None) => {},
            RootRouter::Settings(Some(page)) => {
                page.lemma_url_shape();
            },
            RootRouter::Orders(order) => {
                order.lemma_url_shape();
            },
            RootRouter::User(user) => {
                user.lemma_url_shape();
            },
        }
    }

    /// Reads a path as a route.
    pub fn parse_url(url: &str) -> (route: Option<RootRouter>)
        ensures
            route == Self::spec_parse(url@),
    {
        let chars = chars_of(url);
        let path = chars.as_slice();
        if let Some(rest) = strip_prefix(path, "/settings") {
            Some(RootRouter::Settings(SettingsPage::parse_chars(rest)))
        } else if let Some(rest) = strip_prefix(path, "/orders") {
            match OrderRouter::parse_chars(rest) {
                Some(order) => Some(RootRouter::Orders(order)),
                None => None,
            }
        } else if let Some(rest) = strip_prefix(path, "/users") {
            match UserRoute::parse_chars(rest) {
                Some(user) => Some(RootRouter::User(user)),
                None => None,
            }
        } else {
            None
        }
    }

    /// Writes the canonical path of this route, which `parse_url` reads back
    /// as this route.
    pub fn to_url(&self) -> (url: String)
        ensures
            url@ == self.spec_url(),
            Self::spec_parse(url@) == Some(*self),
            is_clean_path(url@),
    {
        let mut url: String;
        match self {
            RootRouter::Settings(page) => {
                url = "/settings".to_owned();
                if let Some(page) = page {
                    url.append("/");
                    url.append(page.name());
                }
            },
            RootRouter::Orders(order) => {
                url = "/orders".to_owned();
                url.append(order.to_url().as_str());
            },
            RootRouter::User(user) => {
                url = "/users".to_owned();
                user.push_url(&mut url);
            },
        }
        proof {
            assert(url@ =~= self.spec_url());
            self.lemma_round_trip();
            self.lemma_url_shape();
        }
        url
    }

    /// Writes a label for this route, for people to read.
    pub fn describe(&self) -> (label: String)
        ensures
            label@ == self.spec_describe(),
            label@.len() > 0,
    {
        let mut label: String;
        match self {
            RootRouter::Settings(page) => {
                proof {
                    reveal_strlit("settings page");
                }
                label = "settings page".to_owned();
                if let Some(page) = page {
                    label.append(" - ");
                    label.append(page.name());
                }
            },
            RootRouter::Orders(order) => {
                proof {
                    reveal_strlit("orders page");
                }
                label = "orders page".to_owned();
                label.append(" - ");
                label.append(order.describe().as_str());
            },
            RootRouter::User(user) => {
                proof {
                    reveal_strlit("user page");
                }
                label = "user page".to_owned();
                label.append(" - ");
                push_decimal(&mut label, user.user_id);
            },
        }
        assert(label@ =~= self.spec_describe());
        label
    }
}

} // verus!
