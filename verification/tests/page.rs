use atmb_us_non_cmra::page::{CountryPage, LocationDetailPage, PageError, StatePage};

#[test]
fn detail_keeps_real_unit_and_removes_unassigned_mailbox() {
    let html = "<html><body><div class='t-sec1'><div class='t-text'>\
        <div><span class='t-placeholder'>YOUR NAME</span></div>\
        <div>5953 Mabel Rd</div>\
        <div>Unit 236</div>\
        <div>PMB #<span class='t-placeholder'>MAILBOX</span></div>\
        <div>Las Vegas, NV 89110</div>\
        <div>United States</div>\
        </div></div></body></html>";
    let page = LocationDetailPage::parse_html(html).unwrap();
    assert_eq!(page.line1, "5953 Mabel Rd");
    assert_eq!(page.line2.as_deref(), Some("Unit 236"));
    assert!(LocationDetailPage::parse_html("<html>blocked</html>").is_err());
}

#[test]
fn mailbox_placeholder_on_street_line_preserves_street() {
    let html = "<div class='t-sec1'><div class='t-text'><div><span class='t-placeholder'>YOUR NAME</span></div><div>243 E 5th Ave #<span class='t-placeholder'>MAILBOX</span></div><div>Anchorage, AK 99501</div><div>United States</div></div></div>";
    let page = LocationDetailPage::parse_html(html).unwrap();
    assert_eq!(page.line1, "243 E 5th Ave");
    assert!(page.line2.is_none());
}

#[test]
fn only_us_state_links_are_collected() {
    let page = CountryPage::parse_html("<a class='theme-simple-link' href='/l/usa/oregon'>Oregon</a><a class='theme-simple-link' href='/l/canada/ontario'>Ontario</a>").unwrap();
    assert_eq!(page.states.len(), 1);
}

#[test]
fn state_listing_preserves_leading_zero_zip_and_rejects_empty_page() {
    let html = r#"<div class="theme-location-item"><h3 class="t-title">Test</h3><div class="t-price">Starting from US$ 9.99</div><div class="t-addr">10 Main St<br/>Concord, NH 03301-1234<br/></div><a class="gt-plan" href="/s/test">Select</a></div>"#;
    let boxes = StatePage::parse_html(html).unwrap().to_mailboxes().unwrap();
    assert_eq!(boxes[0].address.full_zip(), "03301-1234");
    assert!(StatePage::parse_html("<html>blocked</html>").is_err());
}

#[test]
fn country_page_keeps_names_paths_and_order() {
    let page = CountryPage::parse_html(
        "<p><a class='theme-simple-link' href='/l/usa/nevada'>Nevada</a></p>\
         <a class='theme-simple-link' href='/l/usa/alaska'>Alaska</a>",
    )
    .unwrap();
    assert_eq!(page.states.len(), 2);
    assert_eq!(page.states[0].url(), "/l/usa/nevada");
    assert_eq!(page.states[0].name(), "Nevada");
    assert_eq!(page.states[1].url(), "/l/usa/alaska");
    assert_eq!(page.states[1].name(), "Alaska");
}

#[test]
fn country_page_without_us_states_is_refused() {
    let err = CountryPage::parse_html("<a class='theme-simple-link' href='/l/canada/ontario'>Ontario</a>").unwrap_err();
    assert!(matches!(err, PageError::NoStates));
    assert!(matches!(CountryPage::parse_html("").unwrap_err(), PageError::NoStates));
}

fn listing(body: &str) -> String {
    format!("<div class=\"theme-location-item\">{}</div>", body)
}

#[test]
fn state_listing_reads_every_field() {
    let html = listing(r#"<h3 class="t-title">Concord <b>Main</b></h3><div class="t-price">Starting from US$ 19.99</div><div class="t-addr">10 Main St<br>Concord, NH 03301<br>United States</div><a class="btn gt-plan" href="/s/concord">Select</a>"#);
    let page = StatePage::parse_html(&html).unwrap();
    assert_eq!(page.len(), 1);
    let boxes = page.to_mailboxes().unwrap();
    let m = &boxes[0];
    assert_eq!(m.name, "Concord Main");
    assert_eq!(m.price, "US$19.99");
    assert_eq!(m.link, "https://www.anytimemailbox.com/s/concord");
    assert_eq!(m.address.line1, "10 Main St");
    assert_eq!(m.address.line2, "");
    assert_eq!(m.address.city, "Concord");
    assert_eq!(m.address.state, "NH");
    assert_eq!(m.address.zip, "03301");
    assert_eq!(m.address.zip4, None);
    assert_eq!(m.address.full_zip(), "03301");
    assert_eq!(m.detail_status, "listing_fallback");
}

#[test]
fn state_listing_errors_name_the_missing_part() {
    let no_title = listing(r#"<div class="t-price">1</div><div class="t-addr">a<br>b</div><a class="gt-plan" href="/s/x">S</a>"#);
    assert!(matches!(StatePage::parse_html(&no_title), Err(PageError::NoTitle { .. })));
    let no_price = listing(r#"<h3 class="t-title">T</h3><div class="t-addr">a<br>b</div><a class="gt-plan" href="/s/x">S</a>"#);
    assert!(matches!(StatePage::parse_html(&no_price), Err(PageError::NoPrice { .. })));
    let no_address = listing(r#"<h3 class="t-title">T</h3><div class="t-price">1</div><a class="gt-plan" href="/s/x">S</a>"#);
    assert!(matches!(StatePage::parse_html(&no_address), Err(PageError::NoAddress { .. })));
    let one_line = listing(r#"<h3 class="t-title">T</h3><div class="t-price">1</div><div class="t-addr">only one line</div><a class="gt-plan" href="/s/x">S</a>"#);
    match StatePage::parse_html(&one_line) {
        Err(PageError::SplitAddress { address }) => assert_eq!(address, "only one line"),
        _ => panic!("expected SplitAddress"),
    }
    let no_plan = listing(r#"<h3 class="t-title">T</h3><div class="t-price">1</div><div class="t-addr">a<br>b</div>"#);
    assert!(matches!(StatePage::parse_html(&no_plan), Err(PageError::NoPlanButton { .. })));
    let no_link = listing(r#"<h3 class="t-title">T</h3><div class="t-price">1</div><div class="t-addr">a<br>b</div><a class="gt-plan">S</a>"#);
    assert!(matches!(StatePage::parse_html(&no_link), Err(PageError::NoPlanLink { .. })));
    assert!(matches!(StatePage::parse_html("<p>nothing</p>"), Err(PageError::NoLocations)));
}

#[test]
fn listing_address_errors() {
    let make = |line2: &str| {
        listing(&format!(r#"<h3 class="t-title">T</h3><div class="t-price">1</div><div class="t-addr">1 Main St<br>{}</div><a class="gt-plan" href="/s/x">S</a>"#, line2))
    };
    let page = StatePage::parse_html(&make("Concord NH 03301")).unwrap();
    match page.to_mailboxes() {
        Err(PageError::NoZip { line2 }) => assert_eq!(line2, "Concord NH 03301"),
        _ => panic!("expected NoZip"),
    }
    let page = StatePage::parse_html(&make("Toronto, ON M5V-1A1")).unwrap();
    assert!(matches!(page.to_mailboxes(), Err(PageError::InvalidState)));
    let page = StatePage::parse_html(&make("Anchorage, ak 99501-0001-7")).unwrap();
    let boxes = page.to_mailboxes().unwrap();
    assert_eq!(boxes[0].address.state, "AK");
    assert_eq!(boxes[0].address.zip, "99501");
    assert_eq!(boxes[0].address.zip4.as_deref(), Some("0001"));
}

#[test]
fn detail_page_errors() {
    let no_city = "<div class='t-sec1'><div class='t-text'><div>1 Main St</div><div>Nowhere</div></div></div>";
    assert!(matches!(LocationDetailPage::parse_html(no_city), Err(PageError::NoCityLine)));
    let no_street = "<div class='t-sec1'><div class='t-text'><div>Reno, NV 89501</div></div></div>";
    assert!(matches!(LocationDetailPage::parse_html(no_street), Err(PageError::NoStreetLine)));
    assert!(matches!(
        LocationDetailPage::parse_html("<html>blocked</html>"),
        Err(PageError::NoDetailContainer)
    ));
}

#[test]
fn detail_page_joins_middle_lines_and_drops_mailbox_words() {
    let html = "<div class='t-sec1'><div class='t-text'>\
        <div>100 Main St</div>\
        <div>Building 2</div>\
        <div>Suite 300</div>\
        <div>Ste <span class='t-placeholder'>0000</span></div>\
        <div>Reno, NV 89501-1234</div></div></div>";
    let page = LocationDetailPage::parse_html(html).unwrap();
    assert_eq!(page.line1, "100 Main St");
    assert_eq!(page.line2.as_deref(), Some("Building 2 Suite 300"));

    let cut = "<div class='t-sec1'><div class='t-text'>\
        <div>9 Elm St apt #<span class='t-placeholder'>MAILBOX</span></div>\
        <div>Salem, OR 97301</div></div></div>";
    let page = LocationDetailPage::parse_html(cut).unwrap();
    assert_eq!(page.line1, "9 Elm St");
    assert_eq!(page.line2, None);
}

#[test]
fn street_lines_follow_the_city_line_verdicts() {
    let lines = vec![
        ("5953 Mabel Rd".to_string(), Some(false)),
        ("Unit 236".to_string(), Some(false)),
        ("Bldg 4".to_string(), Some(false)),
        ("Las Vegas, NV 89110".to_string(), Some(true)),
    ];
    let page = LocationDetailPage::street_lines(&lines).unwrap();
    assert_eq!(page.line1, "5953 Mabel Rd");
    assert_eq!(page.line2.as_deref(), Some("Unit 236 Bldg 4"));
    let first = vec![("Las Vegas, NV 89110".to_string(), Some(true))];
    assert!(matches!(LocationDetailPage::street_lines(&first), Err(PageError::NoStreetLine)));
    let none = vec![("x".to_string(), Some(false))];
    assert!(matches!(LocationDetailPage::street_lines(&none), Err(PageError::NoCityLine)));
    let bad = vec![("x".to_string(), None), ("y".to_string(), Some(true))];
    assert!(matches!(LocationDetailPage::street_lines(&bad), Err(PageError::BadPattern)));
}
