use atmb_us_non_cmra::config::Scope;
use atmb_us_non_cmra::crawl::{
    apply_detail, collect_all, gather_mailboxes, page_url, select_states, settle_detail, CrawlError,
};
use atmb_us_non_cmra::page::{CountryPage, LocationDetailPage, PageError, StatePage};

fn item(title: &str, line2: &str, href: &str) -> String {
    format!(
        r#"<div class="theme-location-item"><h3 class="t-title">{}</h3><div class="t-price">Starting from $1</div><div class="t-addr">1 St<br>{}</div><a class="gt-plan" href="{}">S</a></div>"#,
        title, line2, href
    )
}

#[test]
fn page_addresses() {
    assert_eq!(page_url("/l/usa"), "https://www.anytimemailbox.com/l/usa");
    assert_eq!(page_url("https://example.com/x"), "https://example.com/x");
}

#[test]
fn states_outside_the_scope_are_not_visited() {
    let page = CountryPage::parse_html(
        "<a class='theme-simple-link' href='/l/usa/oregon'>Oregon</a>\
         <a class='theme-simple-link' href='/l/usa/nevada'>Nevada</a>\
         <a class='theme-simple-link' href='/l/usa/texas'>Texas</a>",
    )
    .unwrap();
    let tax_free = select_states(page.states.clone(), Scope::TaxFree).unwrap();
    assert_eq!(tax_free.iter().map(|s| s.name()).collect::<Vec<_>>(), vec!["Oregon"]);
    let with_nv = select_states(page.states.clone(), Scope::TaxFreeNv).unwrap();
    assert_eq!(with_nv.iter().map(|s| s.url()).collect::<Vec<_>>(), vec!["/l/usa/oregon", "/l/usa/nevada"]);
    assert_eq!(select_states(page.states.clone(), Scope::All).unwrap().len(), 3);
    let texas = CountryPage::parse_html("<a class='theme-simple-link' href='/l/usa/texas'>Texas</a>").unwrap();
    assert!(matches!(select_states(texas.states, Scope::TaxFree), Err(CrawlError::NoStatesInScope)));
}

#[test]
fn mailboxes_are_filtered_sorted_deduplicated_and_limited() {
    let oregon = StatePage::parse_html(&format!(
        "{}{}{}",
        item("Z", "Salem, OR 97301", "/s/z"),
        item("A", "Portland, OR 97201", "/s/a"),
        item("A again", "Portland, OR 97201", "/s/a"),
    ))
    .unwrap();
    let mixed = StatePage::parse_html(&format!(
        "{}{}",
        item("Texas", "Austin, TX 73301", "/s/b"),
        item("M", "Bozeman, MT 59715", "/s/m"),
    ))
    .unwrap();
    let pages = vec![oregon, mixed];
    let all = gather_mailboxes(&pages, Scope::TaxFree, 0).unwrap();
    let names: Vec<&str> = all.iter().map(|m| m.name.as_str()).collect();
    assert_eq!(names, vec!["A", "M", "Z"]);
    let two = gather_mailboxes(&pages, Scope::TaxFree, 2).unwrap();
    assert_eq!(two.len(), 2);
    assert_eq!(two[1].name, "M");
    let everything = gather_mailboxes(&pages, Scope::All, 100).unwrap();
    assert_eq!(everything.len(), 4);
    let texas_only = vec![StatePage::parse_html(&item("Texas", "Austin, TX 73301", "/s/b")).unwrap()];
    assert!(matches!(gather_mailboxes(&texas_only, Scope::TaxFree, 0), Err(CrawlError::NoMailboxes)));
    let broken = vec![StatePage::parse_html(&item("Bad", "no comma here", "/s/x")).unwrap()];
    match gather_mailboxes(&broken, Scope::All, 0) {
        Err(CrawlError::MailboxesFailed { errors }) => {
            assert_eq!(errors.len(), 1);
            assert!(matches!(errors[0], PageError::NoZip { .. }));
        },
        _ => panic!("expected MailboxesFailed"),
    }
}

#[test]
fn results_are_all_or_the_errors() {
    let ok: Vec<Result<u32, String>> = vec![Ok(1), Ok(2)];
    assert_eq!(collect_all(ok), Ok(vec![1, 2]));
    let mixed: Vec<Result<u32, String>> = vec![Err("a".into()), Ok(2), Err("b".into())];
    assert_eq!(collect_all(mixed), Err(vec!["a".to_string(), "b".to_string()]));
}

#[test]
fn detail_page_sets_street_lines_and_status() {
    let page = StatePage::parse_html(&item("A", "Portland, OR 97201", "/s/a")).unwrap();
    let mut m = page.to_mailboxes().unwrap().remove(0);
    apply_detail(&mut m, LocationDetailPage { line1: "2 Oak St".into(), line2: Some("Ste 5".into()) });
    assert_eq!(m.address.line1, "2 Oak St");
    assert_eq!(m.address.line2, "Ste 5");
    assert_eq!(m.detail_status, "fetched");
    assert_eq!(m.address.city, "Portland");
    apply_detail(&mut m, LocationDetailPage { line1: "3 Oak St".into(), line2: None });
    assert_eq!(m.address.line2, "");
}

#[test]
fn unreadable_detail_page_keeps_the_listing_address() {
    let page = StatePage::parse_html(&item("A", "Portland, OR 97201", "/s/a")).unwrap();
    let mut m = page.to_mailboxes().unwrap().remove(0);
    settle_detail(&mut m, Err(PageError::NoCityLine));
    assert_eq!(m.address.line1, "1 St");
    assert_eq!(m.address.line2, "");
    assert_eq!(m.detail_status, "listing_fallback");
    settle_detail(&mut m, Ok(LocationDetailPage { line1: "2 Oak St".into(), line2: Some("Ste 5".into()) }));
    assert_eq!(m.address.line2, "Ste 5");
    assert_eq!(m.detail_status, "fetched");
}
