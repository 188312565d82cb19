//! Routes below `/orders`.

use vstd::prelude::*;
use vstd::string::*;

use crate::decimal::{
    decimal, lemma_decimal_round_trip, lemma_decimal_value, parse_u64, push_decimal,
    spec_parse_u64,
};
use crate::text::{after_prefix, chars_of, is_clean_path, lemma_after_prefix_concat, strip_prefix};

verus! {

/// A route below `/orders`.
#[derive(Debug, Clone, Copy, PartialEq, Eq, Structural)]
pub enum OrderRouter {
    /// `/`
    Overview,
    /// `/{order_id}`
    Details(u64),
}

impl OrderRouter {
    /// The route that the sub-path `path` denotes: `/` is the overview, `/`
    /// followed by a numeral is the details of that order, anything else is
    /// no route.
    pub open spec fn spec_parse(path: Seq<char>) -> Option<OrderRouter> {
        if path == "/"@ {
            Some(OrderRouter::Overview)
        } else {
            match after_prefix(path, "/"@) {
                Some(id) => match spec_parse_u64(id) {
                    Some(order_id) => Some(OrderRouter::Details(order_id)),
                    None => None,
                },
                None => None,
            }
        }
    }

    /// The canonical sub-path of this route.
    pub open spec fn spec_url(self) -> Seq<char> {
        match self {
            OrderRouter::Overview => "/"@,
            OrderRouter::Details(order_id) => "/"@ + decimal(order_id as nat),
        }
    }

    /// The label of this route.
    pub open spec fn spec_describe(self) -> Seq<char> {
        match self {
            OrderRouter::Overview => "overview page"@,
            OrderRouter::Details(order_id) => "details page (order id: "@ + decimal(
                order_id as nat,
            ) + ")"@,
        }
    }

    /// Parsing the canonical sub-path of a route gives the route back.
    pub proof fn lemma_round_trip(self)
        ensures
            Self::spec_parse(self.spec_url()) == Some(self),
    {
        match self {
            OrderRouter::Overview => {},
            OrderRouter::Details(order_id) => {
                reveal_strlit("/");
                lemma_after_prefix_concat("/"@, decimal(order_id as nat));
                lemma_decimal_round_trip(order_id);
            },
        }
    }

    /// The canonical sub-path of a route begins with `/` and holds no two `/`
    /// in a row.
    pub proof fn lemma_url_shape(self)
        ensures
            is_clean_path(self.spec_url()),
    {
        reveal_strlit("/");
        match self {
            OrderRouter::Overview => {},
            OrderRouter::Details(order_id) => {
                lemma_decimal_value(order_id as nat);
            },
        }
    }

    pub(crate) fn parse_chars(path: &[char]) -> (route: Option<OrderRouter>)
        ensures
            route == Self::spec_parse(path@),
    {
        match strip_prefix(path, "/") {
            Some(id) => {
                assert(id@.len() == 0 <==> path@ =~= "/"@);
                if id.len() == 0 {
                    Some(OrderRouter::Overview)
                } else {
                    match parse_u64(id) {
                        Some(order_id) => Some(OrderRouter::Details(order_id)),
                        None => None,
                    }
                }
            },
            None => {
                assert("/"@.is_prefix_of("/"@));
                None
            },
        }
    }

    /// Reads a sub-path, as it follows `/orders`, as an order route.
    pub fn parse_url(url: &str) -> (route: Option<OrderRouter>)
        ensures
            route == Self::spec_parse(url@),
    {
        let chars = chars_of(url);
        Self::parse_chars(chars.as_slice())
    }

    /// Writes the canonical sub-path of this route, which `parse_url` reads
    /// back as this route.
    pub fn to_url(&self) -> (url: String)
        ensures
            url@ == self.spec_url(),
            Self::spec_parse(url@) == Some(*self),
            is_clean_path(url@),
    {
        let mut url = "/".to_owned();
        match self {
            OrderRouter::Overview => {},
            OrderRouter::Details(order_id) => {
                push_decimal(&mut url, *order_id);
            },
        }
        proof {
            self.lemma_round_trip();
            self.lemma_url_shape();
        }
        url
    }

    /// Writes a label for this route, for people to read.
    pub fn describe(&self) -> (label: String)
        ensures
            label@ == self.spec_describe(),
            label@.len() > 0,
    {
        match self {
            OrderRouter::Overview => {
                proof {
                    reveal_strlit("overview page");
                }
                "overview page".to_owned()
            },
            OrderRouter::Details(order_id) => {
                proof {
                    reveal_strlit("details page (order id: ");
                }
                let mut label = "details page (order id: ".to_owned();
                push_decimal(&mut label, *order_id);
                label.append(")");
                label
            },
        }
    }
}

} // verus!
