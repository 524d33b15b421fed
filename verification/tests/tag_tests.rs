use combat_core::tag::Tag;

#[test]
fn zh_wins_over_en() {
    let t = Tag::zh("刺击").en("Stab");
    assert_eq!(t.string(), "刺击");
}

#[test]
fn en_alone_is_displayed() {
    let t = Tag::new().en("Stab");
    assert_eq!(t.string(), "Stab");
}

#[test]
fn priority_follows_the_fixed_order() {
    let t = Tag::new().ar("ar").tr("tr").de("de");
    assert_eq!(t.string(), "de");
    let u = Tag::new().ru("ru").fr("fr");
    assert_eq!(u.string(), "fr");
    let v = Tag::new().ja("ja").ko("ko");
    assert_eq!(v.string(), "ja");
}

#[test]
fn every_builder_populates_its_slot() {
    assert_eq!(Tag::new().ja("a").string(), "a");
    assert_eq!(Tag::new().ko("b").string(), "b");
    assert_eq!(Tag::new().fr("c").string(), "c");
    assert_eq!(Tag::new().ru("d").string(), "d");
    assert_eq!(Tag::new().es("e").string(), "e");
    assert_eq!(Tag::new().pt("f").string(), "f");
    assert_eq!(Tag::new().it("g").string(), "g");
    assert_eq!(Tag::new().de("h").string(), "h");
    assert_eq!(Tag::new().tr("i").string(), "i");
    assert_eq!(Tag::new().ar("j").string(), "j");
}

#[test]
fn build_returns_the_label_unchanged() {
    let t = Tag::zh("one").en("two").build();
    assert_eq!(t.string(), "one");
}

#[test]
fn populated_reflects_the_slots() {
    assert!(!Tag::new().is_populated());
    assert!(Tag::zh("x").is_populated());
    assert!(Tag::new().ar("y").is_populated());
}

#[test]
fn clone_keeps_every_slot() {
    let t = Tag::zh("甲").en("alpha");
    let c = t.clone();
    assert_eq!(c.string(), "甲");
    assert_eq!(t, c);
}
