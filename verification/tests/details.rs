use gh_cutter::details::DetailsObject;

#[test]
fn new_card_starts_collapsed() {
    let card = DetailsObject::new("Browser auth", 10);
    assert_eq!(card.title, "Browser auth");
    assert_eq!(card.height, 10);
    assert!(!card.opened);
}

#[test]
fn opened_sets_only_the_expansion() {
    let card = DetailsObject::new("Token auth", 10).opened(true);
    assert_eq!(card.title, "Token auth");
    assert_eq!(card.height, 10);
    assert!(card.opened);

    let card = card.opened(false);
    assert!(!card.opened);
    assert_eq!(card.title, "Token auth");
}
