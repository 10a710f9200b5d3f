use gamey::registry::BotRegistry;

#[test]
fn new_registry_is_empty() {
    let registry: BotRegistry<u8> = BotRegistry::new();
    assert_eq!(registry.len(), 0);
    assert_eq!(registry.names(), Vec::<String>::new());
    assert_eq!(registry.find("random_bot"), None);
    assert!(registry.bot_at(0).is_none());
}

#[test]
fn registered_bot_is_found_under_its_identifier() {
    let registry = BotRegistry::new().with_bot("random_bot", 7u8);
    assert_eq!(registry.len(), 1);
    assert_eq!(registry.find("random_bot"), Some(0));
    assert_eq!(registry.bot_at(0), Some(&7u8));
    assert_eq!(registry.find("Random_bot"), None);
    assert_eq!(registry.find("random_bot "), None);
    assert_eq!(registry.find(""), None);
}

#[test]
fn identifiers_are_listed_in_order_of_registration() {
    let registry = BotRegistry::new()
        .with_bot("random_bot", 1u8)
        .with_bot("greedy_bot", 2u8)
        .with_bot("alpha", 3u8);
    assert_eq!(registry.names(), vec!["random_bot", "greedy_bot", "alpha"]);
    assert_eq!(registry.find("random_bot"), Some(0));
    assert_eq!(registry.find("greedy_bot"), Some(1));
    assert_eq!(registry.find("alpha"), Some(2));
    assert_eq!(registry.bot_at(1), Some(&2u8));
    assert!(registry.bot_at(3).is_none());
}

#[test]
fn registering_an_identifier_again_replaces_the_bot() {
    let registry = BotRegistry::new()
        .with_bot("random_bot", 1u8)
        .with_bot("greedy_bot", 2u8)
        .with_bot("random_bot", 9u8);
    assert_eq!(registry.len(), 2);
    assert_eq!(registry.names(), vec!["random_bot", "greedy_bot"]);
    assert_eq!(registry.find("random_bot"), Some(0));
    assert_eq!(registry.bot_at(0), Some(&9u8));
    assert_eq!(registry.bot_at(1), Some(&2u8));
}
