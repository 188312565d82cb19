use url_router::decimal::{parse_u64, push_decimal};
use url_router::text::{chars_of, spells, strip_prefix};
use url_router::{OrderRouter, RootRouter, SettingsPage, UserRoute};

fn sample_routes() -> Vec<RootRouter> {
    let mut routes = vec![
        RootRouter::Settings(None),
        RootRouter::Settings(Some(SettingsPage::Profile)),
        RootRouter::Settings(Some(SettingsPage::Password)),
        RootRouter::Orders(OrderRouter::Overview),
    ];
    let ids = [
        0,
        1,
        9,
        10,
        11,
        99,
        100,
        123,
        1000,
        65535,
        4294967295,
        4294967296,
        9999999999999999999,
        10000000000000000000,
        u64::MAX - 1,
        u64::MAX,
    ];
    for id in ids {
        routes.push(RootRouter::Orders(OrderRouter::Details(id)));
        routes.push(RootRouter::User(UserRoute { user_id: id }));
    }
    routes
}

#[test]
fn to_url_writes_the_canonical_paths() {
    assert_eq!(RootRouter::Settings(None).to_url(), "/settings");
    assert_eq!(
        RootRouter::Settings(Some(SettingsPage::Profile)).to_url(),
        "/settings/profile"
    );
    assert_eq!(
        RootRouter::Settings(Some(SettingsPage::Password)).to_url(),
        "/settings/password"
    );
    assert_eq!(RootRouter::Orders(OrderRouter::Overview).to_url(), "/orders/");
    assert_eq!(
        RootRouter::Orders(OrderRouter::Details(123)).to_url(),
        "/orders/123"
    );
    assert_eq!(
        RootRouter::Orders(OrderRouter::Details(0)).to_url(),
        "/orders/0"
    );
    assert_eq!(
        RootRouter::User(UserRoute { user_id: 123 }).to_url(),
        "/users/123"
    );
    assert_eq!(
        RootRouter::User(UserRoute { user_id: u64::MAX }).to_url(),
        "/users/18446744073709551615"
    );
}

#[test]
fn order_to_url_writes_the_sub_path() {
    assert_eq!(OrderRouter::Overview.to_url(), "/");
    assert_eq!(OrderRouter::Details(0).to_url(), "/0");
    assert_eq!(OrderRouter::Details(42).to_url(), "/42");
    assert_eq!(OrderRouter::Details(1000).to_url(), "/1000");
    assert_eq!(
        OrderRouter::Details(u64::MAX).to_url(),
        "/18446744073709551615"
    );
}

#[test]
fn parse_inverts_to_url() {
    for route in sample_routes() {
        let url = route.to_url();
        assert_eq!(RootRouter::parse_url(&url), Some(route), "{url}");
    }
}

#[test]
fn order_parse_inverts_to_url() {
    for order in [
        OrderRouter::Overview,
        OrderRouter::Details(0),
        OrderRouter::Details(7),
        OrderRouter::Details(1234567890),
        OrderRouter::Details(u64::MAX),
    ] {
        let url = order.to_url();
        assert_eq!(OrderRouter::parse_url(&url), Some(order), "{url}");
    }
}

#[test]
fn urls_begin_with_a_slash_and_double_none() {
    for route in sample_routes() {
        let url = route.to_url();
        assert!(url.starts_with('/'), "{url}");
        assert!(!url.contains("//"), "{url}");
    }
}

#[test]
fn urls_of_distinct_routes_differ() {
    let routes = sample_routes();
    for (i, a) in routes.iter().enumerate() {
        for b in &routes[i + 1..] {
            assert_ne!(a.to_url(), b.to_url());
        }
    }
}

#[test]
fn describe_labels_each_route() {
    assert_eq!(RootRouter::Settings(None).describe(), "settings page");
    assert_eq!(
        RootRouter::Settings(Some(SettingsPage::Profile)).describe(),
        "settings page - profile"
    );
    assert_eq!(
        RootRouter::Settings(Some(SettingsPage::Password)).describe(),
        "settings page - password"
    );
    assert_eq!(
        RootRouter::Orders(OrderRouter::Overview).describe(),
        "orders page - overview page"
    );
    assert_eq!(
        RootRouter::Orders(OrderRouter::Details(123)).describe(),
        "orders page - details page (order id: 123)"
    );
    assert_eq!(
        RootRouter::User(UserRoute { user_id: 123 }).describe(),
        "user page - 123"
    );
    assert_eq!(
        RootRouter::User(UserRoute { user_id: 0 }).describe(),
        "user page - 0"
    );
}

#[test]
fn describe_labels_the_routes_below() {
    assert_eq!(SettingsPage::Profile.describe(), "profile");
    assert_eq!(SettingsPage::Password.describe(), "password");
    assert_eq!(OrderRouter::Overview.describe(), "overview page");
    assert_eq!(
        OrderRouter::Details(123).describe(),
        "details page (order id: 123)"
    );
    assert_eq!(
        OrderRouter::Details(u64::MAX).describe(),
        "details page (order id: 18446744073709551615)"
    );
}

#[test]
fn describe_is_never_empty_and_repeats_itself() {
    for route in sample_routes() {
        let label = route.describe();
        assert!(!label.is_empty());
        assert_eq!(label, route.describe());
    }
}

#[test]
fn describe_of_a_parsed_route() {
    let route = RootRouter::parse_url("/orders/123").expect("a route");
    assert_eq!(
        route.describe(),
        "orders page - details page (order id: 123)"
    );
}

#[test]
fn routes_are_equal_by_structure() {
    assert_eq!(
        RootRouter::Orders(OrderRouter::Details(5)),
        RootRouter::Orders(OrderRouter::Details(5))
    );
    assert_ne!(
        RootRouter::Orders(OrderRouter::Details(5)),
        RootRouter::Orders(OrderRouter::Details(6))
    );
    assert_ne!(
        RootRouter::Orders(OrderRouter::Details(5)),
        RootRouter::User(UserRoute { user_id: 5 })
    );
    assert_ne!(
        RootRouter::Settings(None),
        RootRouter::Settings(Some(SettingsPage::Profile))
    );
    assert_ne!(SettingsPage::Profile, SettingsPage::Password);
    assert_ne!(OrderRouter::Overview, OrderRouter::Details(0));
}

#[test]
fn parse_u64_reads_numerals() {
    let read = |s: &str| parse_u64(&chars_of(s));
    assert_eq!(read("0"), Some(0));
    assert_eq!(read("123"), Some(123));
    assert_eq!(read("+123"), Some(123));
    assert_eq!(read("000"), Some(0));
    assert_eq!(read("18446744073709551615"), Some(u64::MAX));
    assert_eq!(read("18446744073709551616"), None);
    assert_eq!(read("184467440737095516150"), None);
    assert_eq!(read(""), None);
    assert_eq!(read("+"), None);
    assert_eq!(read("-1"), None);
    assert_eq!(read("1-"), None);
    assert_eq!(read("12x"), None);
    assert_eq!(read("/"), None);
    assert_eq!(read(":"), None);
}

#[test]
fn push_decimal_appends_the_shortest_numeral() {
    let cases: [(u64, &str); 8] = [
        (0, "0"),
        (5, "5"),
        (10, "10"),
        (109, "109"),
        (1000, "1000"),
        (9876543210, "9876543210"),
        (u64::MAX, "18446744073709551615"),
        (u64::MAX / 10, "1844674407370955161"),
    ];
    for (n, expected) in cases {
        let mut out = String::from("id=");
        push_decimal(&mut out, n);
        assert_eq!(out, format!("id={expected}"));
        assert_eq!(n.to_string(), expected);
    }
}

#[test]
fn chars_of_lists_the_characters() {
    assert_eq!(chars_of(""), Vec::<char>::new());
    assert_eq!(chars_of("/a1"), vec!['/', 'a', '1']);
    assert_eq!(chars_of("\u{e9}\u{4e2d}z"), vec!['\u{e9}', '\u{4e2d}', 'z']);
}

#[test]
fn strip_prefix_splits_off_a_prefix() {
    let path = chars_of("/orders/12");
    assert_eq!(
        strip_prefix(&path, "/orders"),
        Some(&['/', '1', '2'][..])
    );
    assert_eq!(strip_prefix(&path, ""), Some(&path[..]));
    assert_eq!(strip_prefix(&path, "/orders/12"), Some(&[][..]));
    assert_eq!(strip_prefix(&path, "/orders/123"), None);
    assert_eq!(strip_prefix(&path, "/users"), None);
    assert_eq!(strip_prefix(&path, "orders"), None);
    assert_eq!(strip_prefix(&[], "/"), None);
}

#[test]
fn spells_compares_whole_words() {
    assert!(spells(&chars_of("profile"), "profile"));
    assert!(spells(&[], ""));
    assert!(!spells(&chars_of("profile"), "profil"));
    assert!(!spells(&chars_of("profil"), "profile"));
    assert!(!spells(&chars_of("profile"), "password"));
    assert!(!spells(&chars_of("profile"), ""));
}
