use bears::models::build_all_bears;
use bears::models::build_all_quests;
use bears::models::build_all_resources;
use bears::models::FortuneKind;
use bears::models::IngredientKind;
use bears::models::MaterialKind;
use bears::models::ResourceCard;

fn count_card(cards: &[ResourceCard], card: ResourceCard) -> usize {
    cards.iter().filter(|c| **c == card).count()
}

#[test]
fn quest_catalog_has_22_quests() {
    let quests = build_all_quests();
    assert_eq!(quests.len(), 22);
}

#[test]
fn quest_catalog_first_and_last_entries() {
    let quests = build_all_quests();
    assert_eq!(quests[0].name, "Tuna Sandwich");
    assert_eq!(quests[0].reward, 3);
    assert_eq!(
        quests[0].cost,
        vec![
            ResourceCard::Ingredient(IngredientKind::Fish),
            ResourceCard::Ingredient(IngredientKind::Wheat),
            ResourceCard::Ingredient(IngredientKind::Any),
        ]
    );
    assert_eq!(quests[21].name, "Bao");
    assert_eq!(quests[21].reward, 2);
    assert_eq!(quests[21].cost.len(), 3);
}

#[test]
fn quest_catalog_names_are_distinct() {
    let quests = build_all_quests();
    for i in 0..quests.len() {
        for j in 0..quests.len() {
            if i != j {
                assert_ne!(quests[i].name, quests[j].name);
            }
        }
    }
}

#[test]
fn quest_card_clone_preserves_value() {
    let quests = build_all_quests();
    let copy = quests[4].clone();
    assert_eq!(copy, quests[4]);
}

#[test]
fn resource_catalog_has_125_cards_with_fixed_counts() {
    let resources = build_all_resources();
    assert_eq!(resources.len(), 125);
    assert_eq!(count_card(&resources, ResourceCard::Ingredient(IngredientKind::Fish)), 6);
    assert_eq!(count_card(&resources, ResourceCard::Ingredient(IngredientKind::Berries)), 8);
    assert_eq!(count_card(&resources, ResourceCard::Ingredient(IngredientKind::Wheat)), 8);
    assert_eq!(count_card(&resources, ResourceCard::Ingredient(IngredientKind::Rice)), 6);
    assert_eq!(count_card(&resources, ResourceCard::Ingredient(IngredientKind::Raindrop)), 8);
    assert_eq!(count_card(&resources, ResourceCard::Material(MaterialKind::Snowball)), 8);
    assert_eq!(count_card(&resources, ResourceCard::Material(MaterialKind::Cotton)), 8);
    assert_eq!(count_card(&resources, ResourceCard::Material(MaterialKind::Bamboo)), 11);
    assert_eq!(count_card(&resources, ResourceCard::Material(MaterialKind::Rope)), 9);
    assert_eq!(count_card(&resources, ResourceCard::Material(MaterialKind::Leaf)), 9);
    assert_eq!(count_card(&resources, ResourceCard::Material(MaterialKind::Silk)), 8);
    assert_eq!(count_card(&resources, ResourceCard::Material(MaterialKind::Pebble)), 11);
    assert_eq!(count_card(&resources, ResourceCard::Fortune(FortuneKind::BeeAttack)), 4);
    assert_eq!(count_card(&resources, ResourceCard::Fortune(FortuneKind::Picnic)), 4);
    assert_eq!(count_card(&resources, ResourceCard::Fortune(FortuneKind::Avalanche)), 4);
    assert_eq!(count_card(&resources, ResourceCard::Fortune(FortuneKind::Wildfire)), 3);
    assert_eq!(count_card(&resources, ResourceCard::Fortune(FortuneKind::Hibernation)), 3);
    assert_eq!(count_card(&resources, ResourceCard::Fortune(FortuneKind::BearHug)), 3);
    assert_eq!(count_card(&resources, ResourceCard::Fortune(FortuneKind::Bearglar)), 2);
    assert_eq!(count_card(&resources, ResourceCard::Fortune(FortuneKind::Famine)), 2);
}

#[test]
fn bear_catalog_has_six_distinct_bears() {
    let bears = build_all_bears();
    assert_eq!(bears.len(), 6);
    for i in 0..bears.len() {
        for j in 0..bears.len() {
            if i != j {
                assert_ne!(bears[i], bears[j]);
            }
        }
    }
}
