use snowscape::{ColorChannel, ConfigTab, Metadata, Registry};

fn about() -> Metadata {
    Metadata::new("Button")
        .description("A clickable Control")
        .group("Inputs")
        .tags(vec![String::from("Primary"), String::from("form")])
}

#[test]
fn builder_sets_fields() {
    let m = about();
    assert_eq!(m.label, "Button");
    assert_eq!(m.description.as_deref(), Some("A clickable Control"));
    assert_eq!(m.group.as_deref(), Some("Inputs"));
    assert_eq!(m.tags, vec![String::from("Primary"), String::from("form")]);
    let bare = Metadata::new("x");
    assert_eq!(bare.description, None);
    assert_eq!(bare.group, None);
    assert!(bare.tags.is_empty());
}

#[test]
fn matches_any_field_case_insensitively() {
    let m = about();
    assert!(m.matches("butt"));
    assert!(m.matches("control"));
    assert!(m.matches("inputs"));
    assert!(m.matches("primary"));
    assert!(m.matches("form"));
    assert!(m.matches(""));
    assert!(!m.matches("slider"));
    assert!(!m.matches("Button"));
}

#[test]
fn registry_selects_within_range() {
    let mut registry = Registry::new();
    registry.start();
    assert_eq!(registry.selected(), None);
    registry.register(Metadata::new("One"));
    registry.register(Metadata::new("Two"));
    assert_eq!(registry.len(), 2);
    registry.start();
    assert_eq!(registry.selected(), Some(0));
    registry.select(1);
    assert_eq!(registry.selected(), Some(1));
    registry.select(2);
    assert_eq!(registry.selected(), Some(1));
}

#[test]
fn registry_filters_by_trimmed_lowercase_search() {
    let mut registry = Registry::new();
    registry.register(Metadata::new("Counter"));
    registry.register(about());
    registry.register(Metadata::new("Count down").group("Timers"));
    assert_eq!(registry.visible(), vec![0, 1, 2]);
    registry.change_search(String::from("  COUNT "));
    assert_eq!(registry.search(), "  COUNT ");
    assert_eq!(registry.visible(), vec![0, 2]);
    assert_eq!(registry.visible_for("timers"), vec![2]);
    assert_eq!(registry.visible_for("zzz"), Vec::<usize>::new());
}

#[test]
fn tab_and_channel_names() {
    let names: Vec<&str> = ConfigTab::ALL.iter().map(|t| t.name()).collect();
    assert_eq!(names, vec!["About", "Parameters", "Messages", "Performance"]);
    assert_eq!(ConfigTab::default(), ConfigTab::About);
    assert_eq!(ColorChannel::Red.letter(), "R");
    assert_eq!(ColorChannel::Green.letter(), "G");
    assert_eq!(ColorChannel::Blue.letter(), "B");
    assert_eq!(ColorChannel::Alpha.letter(), "A");
}
