use bears::models::build_all_resources;
use bears::models::BearCard;
use bears::models::IngredientKind;
use bears::models::QuestCard;
use bears::models::ResourceCard;
use bears::system::GameState;
use bears::system::GameTable;
use bears::system::InitialPlayerSelectionStrategy;
use bears::system::LoggedEvents;
use bears::system::Player;
use bears::system::QuestTileSelectionStrategy;
use bears::system::StepError;

fn count_card(cards: &[ResourceCard], card: ResourceCard) -> usize {
    cards.iter().filter(|c| **c == card).count()
}

#[test]
fn construction_succeeds_for_2_to_6_players() {
    for n in 2..=6usize {
        let table = GameTable::from(
            n,
            InitialPlayerSelectionStrategy::First,
            QuestTileSelectionStrategy::Random,
        )
        .expect("construction must succeed for a legal player count");
        assert_eq!(table.players.len(), n);
        for (i, p) in table.players.iter().enumerate() {
            assert_eq!(p.index, i);
            assert!(p.hand.is_empty());
            assert!(p.quest_tiles.is_empty());
            assert!(p.completed_quests.is_empty());
        }
        for i in 0..n {
            for j in 0..n {
                if i != j {
                    assert_ne!(table.players[i].bear, table.players[j].bear);
                }
            }
        }
        assert!(matches!(table.state, GameState::Uninitialized));
        assert!(table.events.is_empty());
    }
}

#[test]
fn construction_fails_outside_2_to_6_players() {
    for n in [0usize, 1, 7, 100] {
        let table = GameTable::from(
            n,
            InitialPlayerSelectionStrategy::Random,
            QuestTileSelectionStrategy::Random,
        );
        assert!(table.is_none());
    }
}

#[test]
fn construction_with_one_player_returns_no_table() {
    let table = GameTable::from(
        1,
        InitialPlayerSelectionStrategy::Random,
        QuestTileSelectionStrategy::Random,
    );
    assert!(table.is_none());
}

#[test]
fn setup_deals_hands_tiles_and_sizes_the_quest_deck() {
    for (n, expected_deck) in [(2usize, 12usize), (3, 12), (4, 15), (5, 15), (6, 22)] {
        let mut table = GameTable::from(
            n,
            InitialPlayerSelectionStrategy::Random,
            QuestTileSelectionStrategy::Random,
        )
        .unwrap();
        assert!(table.play_one_step().is_ok());
        assert_eq!(table.quest_deck.len(), expected_deck);
        for p in table.players.iter() {
            assert_eq!(p.hand.len(), 5);
            assert_eq!(p.quest_tiles.len(), 3);
        }
        assert_eq!(table.resource_deck.len(), 125 - 5 * n);
        assert_eq!(table.quest_tiles.len(), 22 - 3 * n);
    }
}

#[test]
fn setup_conserves_the_resource_catalog() {
    let mut table = GameTable::from(
        6,
        InitialPlayerSelectionStrategy::Random,
        QuestTileSelectionStrategy::Random,
    )
    .unwrap();
    assert!(table.play_one_step().is_ok());
    let mut in_play: Vec<ResourceCard> = Vec::new();
    for p in table.players.iter() {
        in_play.extend(p.hand.iter().copied());
    }
    in_play.extend(table.resource_deck.cards.iter().copied());
    let catalog = build_all_resources();
    assert_eq!(in_play.len(), catalog.len());
    for card in catalog.iter() {
        assert_eq!(count_card(&in_play, *card), count_card(&catalog, *card));
    }
}

#[test]
fn drafted_tiles_come_from_the_catalog_exactly_once() {
    let mut table = GameTable::from(
        6,
        InitialPlayerSelectionStrategy::Random,
        QuestTileSelectionStrategy::Random,
    )
    .unwrap();
    assert!(table.play_one_step().is_ok());
    let mut names: Vec<String> = Vec::new();
    for p in table.players.iter() {
        for q in p.quest_tiles.iter() {
            names.push(q.name.clone());
        }
    }
    for q in table.quest_tiles.cards.iter() {
        names.push(q.name.clone());
    }
    assert_eq!(names.len(), 22);
    let quests = bears::models::build_all_quests();
    for q in quests.iter() {
        let copies = names.iter().filter(|nm| **nm == q.name).count();
        assert_eq!(copies, 1, "quest drafted or pooled other than exactly once");
    }
}

#[test]
fn first_strategy_reports_original_seat_zero() {
    let mut table = GameTable::from(
        4,
        InitialPlayerSelectionStrategy::First,
        QuestTileSelectionStrategy::Random,
    )
    .unwrap();
    assert!(table.play_one_step().is_ok());
    match &table.state {
        GameState::PlayerReady { player_index } => assert_eq!(*player_index, 0),
        other => panic!("expected PlayerReady, found {:?}", other),
    }
    let order: Vec<usize> = table.players.iter().map(|p| p.index).collect();
    assert_eq!(order, vec![0, 1, 2, 3]);
}

#[test]
fn last_strategy_reports_highest_original_seat() {
    let mut table = GameTable::from(
        4,
        InitialPlayerSelectionStrategy::Last,
        QuestTileSelectionStrategy::Random,
    )
    .unwrap();
    assert!(table.play_one_step().is_ok());
    match &table.state {
        GameState::PlayerReady { player_index } => assert_eq!(*player_index, 3),
        other => panic!("expected PlayerReady, found {:?}", other),
    }
    let order: Vec<usize> = table.players.iter().map(|p| p.index).collect();
    assert_eq!(order, vec![3, 0, 1, 2]);
}

#[test]
fn random_selection_rotates_cyclically() {
    let mut table = GameTable::from(
        5,
        InitialPlayerSelectionStrategy::Random,
        QuestTileSelectionStrategy::Random,
    )
    .unwrap();
    assert!(table.play_one_step().is_ok());
    let front = table.players[0].index;
    assert!(front < 5);
    for (i, p) in table.players.iter().enumerate() {
        assert_eq!(p.index, (front + i) % 5);
    }
    match &table.state {
        GameState::PlayerReady { player_index } => assert_eq!(*player_index, front),
        other => panic!("expected PlayerReady, found {:?}", other),
    }
}

#[test]
fn stepping_in_done_changes_nothing() {
    let mut table = GameTable::from(
        3,
        InitialPlayerSelectionStrategy::First,
        QuestTileSelectionStrategy::Random,
    )
    .unwrap();
    assert!(table.play_one_step().is_ok());
    assert!(table.play_one_step().is_ok());
    let winners = match &table.state {
        GameState::Done { winner_indices } => winner_indices.clone(),
        other => panic!("expected Done, found {:?}", other),
    };
    let events_before = table.events.len();
    for _ in 0..5 {
        assert!(table.play_one_step().is_ok());
        match &table.state {
            GameState::Done { winner_indices } => assert_eq!(*winner_indices, winners),
            other => panic!("expected Done, found {:?}", other),
        }
        assert_eq!(table.events.len(), events_before);
    }
}

#[test]
fn end_to_end_five_players() {
    let mut table = GameTable::from(
        5,
        InitialPlayerSelectionStrategy::Random,
        QuestTileSelectionStrategy::Random,
    )
    .expect("five players are a legal configuration");
    assert!(table.play_one_step().is_ok());
    let p = match &table.state {
        GameState::PlayerReady { player_index } => *player_index,
        other => panic!("expected PlayerReady, found {:?}", other),
    };
    assert!(p < 5);
    assert_eq!(table.players.len(), 5);
    for player in table.players.iter() {
        assert_eq!(player.hand.len(), 5);
        assert_eq!(player.quest_tiles.len(), 3);
    }
    assert_eq!(table.quest_deck.len(), 15);
    assert!(table.play_one_step().is_ok());
    match &table.state {
        GameState::Done { winner_indices } => assert_eq!(*winner_indices, vec![p]),
        other => panic!("expected Done, found {:?}", other),
    }
}

#[test]
fn target_strategy_fails_the_setup_step() {
    let mut table = GameTable::from(
        3,
        InitialPlayerSelectionStrategy::Random,
        QuestTileSelectionStrategy::Target { target: 10 },
    )
    .unwrap();
    let result = table.play_one_step();
    assert_eq!(result, Err(StepError::UnimplementedQuestTileStrategy));
    assert!(matches!(table.state, GameState::Uninitialized));
    assert!(table.events.is_empty());
}

#[test]
fn greedy_strategy_fails_the_setup_step() {
    let mut table = GameTable::from(
        4,
        InitialPlayerSelectionStrategy::First,
        QuestTileSelectionStrategy::Greedy,
    )
    .unwrap();
    assert_eq!(table.play_one_step(), Err(StepError::UnimplementedQuestTileStrategy));
    assert!(matches!(table.state, GameState::Uninitialized));
}

#[test]
fn setup_logs_three_events_in_order() {
    let mut table = GameTable::from(
        2,
        InitialPlayerSelectionStrategy::Last,
        QuestTileSelectionStrategy::Random,
    )
    .unwrap();
    assert!(table.play_one_step().is_ok());
    assert_eq!(table.events.len(), 3);
    match &table.events[0] {
        LoggedEvents::BuiltQuestDeck { quests } => assert_eq!(quests.len(), 12),
        other => panic!("expected BuiltQuestDeck, found {:?}", other),
    }
    match &table.events[1] {
        LoggedEvents::BuiltResourceDeck { resources } => assert_eq!(resources.len(), 125),
        other => panic!("expected BuiltResourceDeck, found {:?}", other),
    }
    match &table.events[2] {
        LoggedEvents::SelectedInitialPlayer { player_index } => assert_eq!(*player_index, 1),
        other => panic!("expected SelectedInitialPlayer, found {:?}", other),
    }
}

#[test]
fn player_gains_cards_and_tiles_in_order() {
    let mut player = Player::new(2, BearCard::Panda);
    assert_eq!(player.index, 2);
    assert_eq!(player.bear, BearCard::Panda);
    player.add_to_hand(ResourceCard::Ingredient(IngredientKind::Fish));
    player.add_to_hand(ResourceCard::Ingredient(IngredientKind::Rice));
    assert_eq!(
        player.hand,
        vec![
            ResourceCard::Ingredient(IngredientKind::Fish),
            ResourceCard::Ingredient(IngredientKind::Rice),
        ]
    );
    let quest = QuestCard {
        name: "Sushi".to_string(),
        cost: vec![
            ResourceCard::Ingredient(IngredientKind::Fish),
            ResourceCard::Ingredient(IngredientKind::Rice),
            ResourceCard::Ingredient(IngredientKind::Any),
        ],
        reward: 3,
    };
    player.add_quest_tile(quest.clone());
    assert_eq!(player.quest_tiles, vec![quest]);
    assert!(player.completed_quests.is_empty());
}
