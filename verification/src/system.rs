use vstd::prelude::*;

verus! {

use vstd::multiset::Multiset;
use crate::deck::Deck;
use crate::models::BearCard;
use crate::models::QuestCard;
use crate::models::QuestCardView;
use crate::models::ResourceCard;
use crate::models::bear_catalog;
use crate::models::build_all_bears;
use crate::models::build_all_quests;
use crate::models::build_all_resources;
use crate::models::lemma_quest_views_multiset;
use crate::models::quest_catalog;
use crate::models::quest_views;
use crate::models::resource_catalog;

/// How many quests the quest deck keeps after truncation: 12 for 2-3
/// players, 15 for 4-5, the whole catalog for 6.
pub open spec fn quest_deck_target(num_players: int) -> int {
    if num_players <= 3 {
        12
    } else if num_players <= 5 {
        15
    } else {
        quest_catalog().len() as int
    }
}

/// One seated player. `index` is the seat the player was created in; it
/// is a stable identity and never changes, even when the seating order
/// is rotated.
#[derive(Debug)]
pub struct Player {
    pub index: usize,
    pub bear: BearCard,
    pub hand: Vec<ResourceCard>,
    pub quest_tiles: Vec<QuestCard>,
    pub completed_quests: Vec<QuestCard>,
}

/// The finite state a game advances through: `Uninitialized`, then
/// `PlayerReady` once setup completes, then the terminal `Done`.
#[derive(Debug, Clone)]
pub enum GameState {
    Uninitialized,
    PlayerReady { player_index: usize },
    Done { winner_indices: Vec<usize> },
}

/// How the initial player is picked: a uniformly random seat, the first
/// seat, or the last seat.
#[derive(Debug, Clone, Copy, PartialEq, Eq, Structural)]
pub enum InitialPlayerSelectionStrategy {
    Random,
    First,
    Last,
}

/// How quest tiles are drafted. Only `Random` is implemented; invoking
/// `Target` or `Greedy` fails the setup step, never falls back silently.
#[derive(Debug, Clone, Copy, PartialEq, Eq, Structural)]
pub enum QuestTileSelectionStrategy {
    Random,
    Target { target: usize },
    Greedy,
}

/// The append-only record of what the setup phases did.
#[derive(Debug)]
pub enum LoggedEvents {
    BuiltQuestDeck { quests: Vec<QuestCard> },
    BuiltResourceDeck { resources: Vec<ResourceCard> },
    SelectedInitialPlayer { player_index: usize },
}

/// Why a step could not be played: the configured quest-tile strategy
/// is declared but not implemented.
#[derive(Debug, Clone, Copy, PartialEq, Eq, Structural)]
pub enum StepError {
    UnimplementedQuestTileStrategy,
}

/// The aggregate root: all players, all decks, the open-quest display,
/// the current state, the two strategy configurations, and the event
/// log. One table drives one game.
#[derive(Debug)]
pub struct GameTable {
    pub players: Vec<Player>,
    pub quest_deck: Deck<QuestCard>,
    pub quest_tiles: Deck<QuestCard>,
    pub resource_deck: Deck<ResourceCard>,
    pub open_quests: Vec<QuestCard>,
    pub discard_pile: Deck<ResourceCard>,
    pub state: GameState,
    pub initial_player_selection_strategy: InitialPlayerSelectionStrategy,
    pub quest_tile_selection_strategy: QuestTileSelectionStrategy,
    pub events: Vec<LoggedEvents>,
}

/// All resource cards the players hold in their hands, with
/// multiplicity.
pub open spec fn hands_ms(players: Seq<Player>) -> Multiset<ResourceCard>
    decreases players.len(),
{
    if players.len() == 0 {
        Multiset::<ResourceCard>::empty()
    } else {
        players[0].hand@.to_multiset().add(hands_ms(players.drop_first()))
    }
}

/// All quest-tile values the players hold in their tableaus, with
/// multiplicity.
pub open spec fn tiles_ms(players: Seq<Player>) -> Multiset<QuestCardView>
    decreases players.len(),
{
    if players.len() == 0 {
        Multiset::<QuestCardView>::empty()
    } else {
        quest_views(players[0].quest_tiles@).to_multiset().add(tiles_ms(players.drop_first()))
    }
}

/// Hands held by seated players do not depend on how the seats are
/// split: summing over a concatenation adds the two sums.
pub proof fn lemma_hands_ms_append(a: Seq<Player>, b: Seq<Player>)
    ensures
        hands_ms(a + b) == hands_ms(a).add(hands_ms(b)),
    decreases a.len(),
{
    broadcast use vstd::multiset::group_multiset_axioms;

    if a.len() == 0 {
        assert(a + b =~= b);
        assert(hands_ms(a).add(hands_ms(b)) =~= hands_ms(b));
    } else {
        lemma_hands_ms_append(a.drop_first(), b);
        assert((a + b).drop_first() =~= a.drop_first() + b);
        assert((a + b)[0] == a[0]);
        assert(a[0].hand@.to_multiset().add(hands_ms(a.drop_first()).add(hands_ms(b))) =~= a[0].hand@.to_multiset().add(
            hands_ms(a.drop_first()),
        ).add(hands_ms(b)));
    }
}

/// Tiles held by seated players do not depend on how the seats are
/// split: summing over a concatenation adds the two sums.
pub proof fn lemma_tiles_ms_append(a: Seq<Player>, b: Seq<Player>)
    ensures
        tiles_ms(a + b) == tiles_ms(a).add(tiles_ms(b)),
    decreases a.len(),
{
    broadcast use vstd::multiset::group_multiset_axioms;

    if a.len() == 0 {
        assert(a + b =~= b);
        assert(tiles_ms(a).add(tiles_ms(b)) =~= tiles_ms(b));
    } else {
        lemma_tiles_ms_append(a.drop_first(), b);
        assert((a + b).drop_first() =~= a.drop_first() + b);
        assert((a + b)[0] == a[0]);
        assert(quest_views(a[0].quest_tiles@).to_multiset().add(
            tiles_ms(a.drop_first()).add(tiles_ms(b)),
        ) =~= quest_views(a[0].quest_tiles@).to_multiset().add(tiles_ms(a.drop_first())).add(
            tiles_ms(b),
        ));
    }
}

/// Handing one card to one player inserts that card into the sum of all
/// hands.
pub proof fn lemma_hands_ms_update(s: Seq<Player>, j: int, p: Player, c: ResourceCard)
    requires
        0 <= j < s.len(),
        p.hand@.to_multiset() == s[j].hand@.to_multiset().insert(c),
    ensures
        hands_ms(s.update(j, p)) == hands_ms(s).insert(c),
    decreases j,
{
    broadcast use vstd::multiset::group_multiset_axioms;

    if j == 0 {
        assert(s.update(0, p).drop_first() =~= s.drop_first());
        assert(s.update(0, p)[0] == p);
        assert(s[0].hand@.to_multiset().insert(c).add(hands_ms(s.drop_first())) =~= s[0].hand@.to_multiset().add(
            hands_ms(s.drop_first()),
        ).insert(c));
    } else {
        assert(s.update(j, p).drop_first() =~= s.drop_first().update(j - 1, p));
        assert(s.drop_first()[j - 1] == s[j]);
        lemma_hands_ms_update(s.drop_first(), j - 1, p, c);
        assert(s.update(j, p)[0] == s[0]);
        assert(s[0].hand@.to_multiset().add(hands_ms(s.drop_first()).insert(c)) =~= s[0].hand@.to_multiset().add(
            hands_ms(s.drop_first()),
        ).insert(c));
    }
}

/// Handing one quest tile to one player inserts that tile's value into
/// the sum of all tableaus.
pub proof fn lemma_tiles_ms_update(s: Seq<Player>, j: int, p: Player, q: QuestCardView)
    requires
        0 <= j < s.len(),
        quest_views(p.quest_tiles@).to_multiset() == quest_views(
            s[j].quest_tiles@,
        ).to_multiset().insert(q),
    ensures
        tiles_ms(s.update(j, p)) == tiles_ms(s).insert(q),
    decreases j,
{
    broadcast use vstd::multiset::group_multiset_axioms;

    if j == 0 {
        assert(s.update(0, p).drop_first() =~= s.drop_first());
        assert(s.update(0, p)[0] == p);
        assert(quest_views(s[0].quest_tiles@).to_multiset().insert(q).add(
            tiles_ms(s.drop_first()),
        ) =~= quest_views(s[0].quest_tiles@).to_multiset().add(tiles_ms(s.drop_first())).insert(q));
    } else {
        assert(s.update(j, p).drop_first() =~= s.drop_first().update(j - 1, p));
        assert(s.drop_first()[j - 1] == s[j]);
        lemma_tiles_ms_update(s.drop_first(), j - 1, p, q);
        assert(s.update(j, p)[0] == s[0]);
        assert(quest_views(s[0].quest_tiles@).to_multiset().add(
            tiles_ms(s.drop_first()).insert(q),
        ) =~= quest_views(s[0].quest_tiles@).to_multiset().add(tiles_ms(s.drop_first())).insert(q));
    }
}

/// Players with empty hands hold nothing.
pub proof fn lemma_hands_ms_all_empty(s: Seq<Player>)
    requires
        forall|i: int| 0 <= i < s.len() ==> (#[trigger] s[i]).hand@.len() == 0,
    ensures
        hands_ms(s) == Multiset::<ResourceCard>::empty(),
    decreases s.len(),
{
    broadcast use vstd::multiset::group_multiset_axioms;
    broadcast use vstd::seq_lib::group_to_multiset_ensures;

    if s.len() > 0 {
        assert forall|i: int| 0 <= i < s.drop_first().len() implies (#[trigger] s.drop_first()[i]).hand@.len()
            == 0 by {
            assert(s.drop_first()[i] == s[i + 1]);
        }
        lemma_hands_ms_all_empty(s.drop_first());
        assert(s[0].hand@.to_multiset().len() == 0);
        assert(s[0].hand@.to_multiset().add(Multiset::<ResourceCard>::empty()) =~= Multiset::<
            ResourceCard,
        >::empty());
    }
}

/// Players with empty tableaus hold no tiles.
pub proof fn lemma_tiles_ms_all_empty(s: Seq<Player>)
    requires
        forall|i: int| 0 <= i < s.len() ==> (#[trigger] s[i]).quest_tiles@.len() == 0,
    ensures
        tiles_ms(s) == Multiset::<QuestCardView>::empty(),
    decreases s.len(),
{
    broadcast use vstd::multiset::group_multiset_axioms;
    broadcast use vstd::seq_lib::group_to_multiset_ensures;

    if s.len() > 0 {
        assert forall|i: int| 0 <= i < s.drop_first().len() implies (#[trigger] s.drop_first()[i]).quest_tiles@.len()
            == 0 by {
            assert(s.drop_first()[i] == s[i + 1]);
        }
        lemma_tiles_ms_all_empty(s.drop_first());
        assert(quest_views(s[0].quest_tiles@).len() == 0);
        assert(quest_views(s[0].quest_tiles@).to_multiset().len() == 0);
        assert(quest_views(s[0].quest_tiles@).to_multiset().add(
            Multiset::<QuestCardView>::empty(),
        ) =~= Multiset::<QuestCardView>::empty());
    }
}

/// Rotates the seating order left by `k` places: the player at position
/// `k` comes to the front, and the order stays a cyclic rotation of the
/// original.
fn rotate_left_players(players: &mut Vec<Player>, k: usize)
    requires
        k <= old(players)@.len(),
    ensures
        final(players)@ == old(players)@.skip(k as int) + old(players)@.take(k as int),
{
    proof {
        assert(players@ =~= players@.skip(0) + players@.take(0));
    }
    for i in 0..k
        invariant
            k <= old(players)@.len(),
            players@.len() == old(players)@.len(),
            players@ == old(players)@.skip(i as int) + old(players)@.take(i as int),
    {
        let p = players.remove(0);
        players.push(p);
        proof {
            assert(players@ =~= old(players)@.skip(i + 1) + old(players)@.take(i + 1));
        }
    }
}

/// Copies a pile of quest cards; the copy holds the same values in the
/// same order.
fn clone_quests(cards: &Vec<QuestCard>) -> (r: Vec<QuestCard>)
    ensures
        quest_views(r@) == quest_views(cards@),
        r@.len() == cards@.len(),
{
    let mut r: Vec<QuestCard> = Vec::new();
    for i in 0..cards.len()
        invariant
            r@.len() == i,
            forall|m: int| 0 <= m < i ==> (#[trigger] r@[m])@ == cards@[m]@,
    {
        r.push(cards[i].clone());
    }
    proof {
        assert(quest_views(r@) =~= quest_views(cards@));
    }
    r
}

/// Copies a pile of resource cards exactly.
fn copy_resources(cards: &Vec<ResourceCard>) -> (r: Vec<ResourceCard>)
    ensures
        r@ == cards@,
{
    let mut r: Vec<ResourceCard> = Vec::new();
    proof {
        assert(r@ =~= cards@.take(0));
    }
    for i in 0..cards.len()
        invariant
            r@ == cards@.take(i as int),
    {
        r.push(cards[i]);
        proof {
            assert(r@ =~= cards@.take(i + 1));
        }
    }
    proof {
        assert(r@ =~= cards@);
    }
    r
}

/// Moving one card from one pile to another leaves the union of the two
/// piles unchanged.
pub proof fn lemma_transfer<E>(a: Multiset<E>, b: Multiset<E>, e: E)
    requires
        b.count(e) > 0,
    ensures
        a.insert(e).add(b.remove(e)) == a.add(b),
{
    broadcast use vstd::multiset::group_multiset_axioms;

    assert(a.insert(e).add(b.remove(e)) =~= a.add(b));
}

/// Players holding equal hands hold equal card totals.
pub proof fn lemma_hands_ms_congruent(a: Seq<Player>, b: Seq<Player>)
    requires
        a.len() == b.len(),
        forall|i: int| 0 <= i < a.len() ==> (#[trigger] a[i]).hand@ == b[i].hand@,
    ensures
        hands_ms(a) == hands_ms(b),
    decreases a.len(),
{
    if a.len() > 0 {
        assert forall|i: int| 0 <= i < a.drop_first().len() implies (#[trigger] a.drop_first()[i]).hand@
            == b.drop_first()[i].hand@ by {
            assert(a.drop_first()[i] == a[i + 1]);
            assert(b.drop_first()[i] == b[i + 1]);
        }
        lemma_hands_ms_congruent(a.drop_first(), b.drop_first());
        assert(a[0].hand@ == b[0].hand@);
    }
}

/// Players holding equal tableaus hold equal tile totals.
pub proof fn lemma_tiles_ms_congruent(a: Seq<Player>, b: Seq<Player>)
    requires
        a.len() == b.len(),
        forall|i: int| 0 <= i < a.len() ==> (#[trigger] a[i]).quest_tiles@ == b[i].quest_tiles@,
    ensures
        tiles_ms(a) == tiles_ms(b),
    decreases a.len(),
{
    if a.len() > 0 {
        assert forall|i: int|
            0 <= i < a.drop_first().len() implies (#[trigger] a.drop_first()[i]).quest_tiles@
            == b.drop_first()[i].quest_tiles@ by {
            assert(a.drop_first()[i] == a[i + 1]);
            assert(b.drop_first()[i] == b[i + 1]);
        }
        lemma_tiles_ms_congruent(a.drop_first(), b.drop_first());
        assert(a[0].quest_tiles@ == b[0].quest_tiles@);
    }
}

/// The card that round-robin dealing hands to the player at seating
/// position `i` in round `r`, drawing from the top of `deck` for `n`
/// players: the card `r * n + i` positions below the top.
pub open spec fn dealt_card(deck: Seq<ResourceCard>, n: int, i: int, r: int) -> ResourceCard {
    deck[deck.len() - 1 - (r * n + i)]
}

/// What one completed setup step promises, for a rotation distance `k`:
/// the seating order of `post` is `pre`'s rotated left by `k` (`k` is 0
/// under `First`, the last seat under `Last`), every player keeps seat
/// index, bear and completed quests and gains exactly 5 hand cards and
/// 3 quest tiles; the quest deck was truncated to its player-count
/// target and holds only catalog quests; the cards in all hands plus
/// the remaining resource deck equal `pre`'s plus the full resource
/// catalog; the tile values in all tableaus plus the remaining pool
/// equal `pre`'s plus the full quest catalog; the state reports the
/// front player's original index; and exactly three records were
/// appended to the log: the built quest deck, the built resource deck
/// (a permutation of the catalog), and the selected player.
pub open spec fn setup_step(pre: GameTable, post: GameTable, k: int) -> bool {
    let n = pre.players@.len() as int;
    let rotated = pre.players@.skip(k) + pre.players@.take(k);
    &&& 0 <= k < n
    &&& (pre.initial_player_selection_strategy is First ==> k == 0)
    &&& (pre.initial_player_selection_strategy is Last ==> k == n - 1)
    &&& post.players@.len() == n
    &&& (forall|i: int| 0 <= i < n ==> (#[trigger] post.players@[i]).index == rotated[i].index)
    &&& (forall|i: int| 0 <= i < n ==> (#[trigger] post.players@[i]).bear == rotated[i].bear)
    &&& (forall|i: int|
        0 <= i < n ==> (#[trigger] post.players@[i]).completed_quests
            == rotated[i].completed_quests)
    &&& (forall|i: int|
        0 <= i < n ==> (#[trigger] post.players@[i]).hand@.len() == rotated[i].hand@.len() + 5)
    &&& (forall|i: int|
        0 <= i < n ==> (#[trigger] post.players@[i]).quest_tiles@.len()
            == rotated[i].quest_tiles@.len() + 3)
    &&& post.state == (GameState::PlayerReady { player_index: pre.players@[k].index })
    &&& post.quest_deck@.len() == quest_deck_target(n)
    &&& quest_views(post.quest_deck@).to_multiset().subset_of(quest_catalog().to_multiset())
    &&& post.quest_tiles@.len() == quest_catalog().len() - 3 * n
    &&& post.resource_deck@.len() == resource_catalog().len() - 5 * n
    &&& hands_ms(post.players@).add(post.resource_deck@.to_multiset()) == hands_ms(
        pre.players@,
    ).add(resource_catalog().to_multiset())
    &&& tiles_ms(post.players@).add(quest_views(post.quest_tiles@).to_multiset()) == tiles_ms(
        pre.players@,
    ).add(quest_catalog().to_multiset())
    &&& post.events@.len() == pre.events@.len() + 3
    &&& (forall|i: int| 0 <= i < pre.events@.len() ==> post.events@[i] == pre.events@[i])
    &&& (post.events@[pre.events@.len() as int] matches LoggedEvents::BuiltQuestDeck { quests }
        && quest_views(quests@) == quest_views(post.quest_deck@))
    &&& (post.events@[pre.events@.len() as int + 1] matches LoggedEvents::BuiltResourceDeck { resources }
        && resources@.to_multiset() == resource_catalog().to_multiset() && resources@.len()
        == resource_catalog().len())
    &&& post.events@[pre.events@.len() as int + 2] == (LoggedEvents::SelectedInitialPlayer {
        player_index: pre.players@[k].index,
    })
    &&& post.open_quests == pre.open_quests
    &&& post.discard_pile == pre.discard_pile
    &&& post.initial_player_selection_strategy == pre.initial_player_selection_strategy
    &&& post.quest_tile_selection_strategy == pre.quest_tile_selection_strategy
}

/// After the setup step on a table whose players held nothing yet,
/// every player holds exactly 5 resource cards and 3 quest tiles, the
/// quest deck has its player-count-dependent size, the union (with
/// multiplicity) of all hands plus the remaining resource deck is
/// exactly the full resource catalog, and the tile values in all
/// tableaus plus the remaining pool are exactly the full quest catalog.
pub proof fn lemma_setup_from_fresh(pre: GameTable, post: GameTable, k: int)
    requires
        setup_step(pre, post, k),
        forall|i: int|
            0 <= i < pre.players@.len() ==> (#[trigger] pre.players@[i]).hand@.len() == 0,
        forall|i: int|
            0 <= i < pre.players@.len() ==> (#[trigger] pre.players@[i]).quest_tiles@.len() == 0,
    ensures
        post.quest_deck@.len() == quest_deck_target(pre.players@.len() as int),
        forall|i: int|
            0 <= i < post.players@.len() ==> (#[trigger] post.players@[i]).hand@.len() == 5,
        forall|i: int|
            0 <= i < post.players@.len() ==> (#[trigger] post.players@[i]).quest_tiles@.len() == 3,
        hands_ms(post.players@).add(post.resource_deck@.to_multiset()) == resource_catalog(
        ).to_multiset(),
        tiles_ms(post.players@).add(quest_views(post.quest_tiles@).to_multiset()) == quest_catalog(
        ).to_multiset(),
{
    broadcast use vstd::multiset::group_multiset_axioms;

    lemma_hands_ms_all_empty(pre.players@);
    lemma_tiles_ms_all_empty(pre.players@);
    assert(Multiset::<ResourceCard>::empty().add(resource_catalog().to_multiset())
        =~= resource_catalog().to_multiset());
    assert(Multiset::<QuestCardView>::empty().add(quest_catalog().to_multiset())
        =~= quest_catalog().to_multiset());
    let n = pre.players@.len() as int;
    let rotated = pre.players@.skip(k) + pre.players@.take(k);
    assert forall|i: int| 0 <= i < n implies (#[trigger] post.players@[i]).hand@.len() == 5
        && post.players@[i].quest_tiles@.len() == 3 by {
        if i < n - k {
            assert(rotated[i] == pre.players@[i + k]);
        } else {
            assert(rotated[i] == pre.players@[i + k - n]);
        }
    }
}

/// The quest catalog names 22 distinct quests: no quest value appears
/// in it twice.
#[verifier::rlimit(100)]
pub proof fn lemma_quest_catalog_distinct()
    ensures
        quest_catalog().no_duplicates(),
        forall|q: QuestCardView| #[trigger] quest_catalog().to_multiset().count(q) <= 1,
{
    broadcast use vstd::seq_lib::group_to_multiset_ensures;

    reveal_strlit("Tuna Sandwich");
    reveal_strlit("Treehouse");
    reveal_strlit("Tiny Home");
    reveal_strlit("Tent");
    reveal_strlit("Tea");
    reveal_strlit("Sweater");
    reveal_strlit("Sushi");
    reveal_strlit("Soup");
    reveal_strlit("Snow Cone");
    reveal_strlit("Ramen");
    reveal_strlit("Map");
    reveal_strlit("Lean-To");
    reveal_strlit("Igloo");
    reveal_strlit("House Boat");
    reveal_strlit("Hair Brush");
    reveal_strlit("Fruit Salad");
    reveal_strlit("Fishing Rod");
    reveal_strlit("Curry");
    reveal_strlit("Cave Hotel");
    reveal_strlit("Castle");
    reveal_strlit("Beary Pie");
    reveal_strlit("Bao");
    let cat = quest_catalog();
    assert(cat.len() == 22);
    assert(cat[0].name.len() == 13);
    assert(cat[0].name[0] == 'T');
    assert(cat[0].name[1] == 'u');
    assert(cat[1].name.len() == 9);
    assert(cat[1].name[0] == 'T');
    assert(cat[1].name[1] == 'r');
    assert(cat[2].name.len() == 9);
    assert(cat[2].name[0] == 'T');
    assert(cat[2].name[1] == 'i');
    assert(cat[3].name.len() == 4);
    assert(cat[3].name[0] == 'T');
    assert(cat[3].name[1] == 'e');
    assert(cat[4].name.len() == 3);
    assert(cat[4].name[0] == 'T');
    assert(cat[4].name[1] == 'e');
    assert(cat[5].name.len() == 7);
    assert(cat[5].name[0] == 'S');
    assert(cat[5].name[1] == 'w');
    assert(cat[6].name.len() == 5);
    assert(cat[6].name[0] == 'S');
    assert(cat[6].name[1] == 'u');
    assert(cat[7].name.len() == 4);
    assert(cat[7].name[0] == 'S');
    assert(cat[7].name[1] == 'o');
    assert(cat[8].name.len() == 9);
    assert(cat[8].name[0] == 'S');
    assert(cat[8].name[1] == 'n');
    assert(cat[9].name.len() == 5);
    assert(cat[9].name[0] == 'R');
    assert(cat[9].name[1] == 'a');
    assert(cat[10].name.len() == 3);
    assert(cat[10].name[0] == 'M');
    assert(cat[10].name[1] == 'a');
    assert(cat[11].name.len() == 7);
    assert(cat[11].name[0] == 'L');
    assert(cat[11].name[1] == 'e');
    assert(cat[12].name.len() == 5);
    assert(cat[12].name[0] == 'I');
    assert(cat[12].name[1] == 'g');
    assert(cat[13].name.len() == 10);
    assert(cat[13].name[0] == 'H');
    assert(cat[13].name[1] == 'o');
    assert(cat[14].name.len() == 10);
    assert(cat[14].name[0] == 'H');
    assert(cat[14].name[1] == 'a');
    assert(cat[15].name.len() == 11);
    assert(cat[15].name[0] == 'F');
    assert(cat[15].name[1] == 'r');
    assert(cat[16].name.len() == 11);
    assert(cat[16].name[0] == 'F');
    assert(cat[16].name[1] == 'i');
    assert(cat[17].name.len() == 5);
    assert(cat[17].name[0] == 'C');
    assert(cat[17].name[1] == 'u');
    assert(cat[18].name.len() == 10);
    assert(cat[18].name[0] == 'C');
    assert(cat[18].name[1] == 'a');
    assert(cat[19].name.len() == 6);
    assert(cat[19].name[0] == 'C');
    assert(cat[19].name[1] == 'a');
    assert(cat[20].name.len() == 9);
    assert(cat[20].name[0] == 'B');
    assert(cat[20].name[1] == 'e');
    assert(cat[21].name.len() == 3);
    assert(cat[21].name[0] == 'B');
    assert(cat[21].name[1] == 'a');
    assert forall|j: int| #![trigger cat[j]] 0 < j < 22 implies cat[0] != cat[j] by {}
    assert forall|j: int| #![trigger cat[j]] 1 < j < 22 implies cat[1] != cat[j] by {}
    assert forall|j: int| #![trigger cat[j]] 2 < j < 22 implies cat[2] != cat[j] by {}
    assert forall|j: int| #![trigger cat[j]] 3 < j < 22 implies cat[3] != cat[j] by {}
    assert forall|j: int| #![trigger cat[j]] 4 < j < 22 implies cat[4] != cat[j] by {}
    assert forall|j: int| #![trigger cat[j]] 5 < j < 22 implies cat[5] != cat[j] by {}
    assert forall|j: int| #![trigger cat[j]] 6 < j < 22 implies cat[6] != cat[j] by {}
    assert forall|j: int| #![trigger cat[j]] 7 < j < 22 implies cat[7] != cat[j] by {}
    assert forall|j: int| #![trigger cat[j]] 8 < j < 22 implies cat[8] != cat[j] by {}
    assert forall|j: int| #![trigger cat[j]] 9 < j < 22 implies cat[9] != cat[j] by {}
    assert forall|j: int| #![trigger cat[j]] 10 < j < 22 implies cat[10] != cat[j] by {}
    assert forall|j: int| #![trigger cat[j]] 11 < j < 22 implies cat[11] != cat[j] by {}
    assert forall|j: int| #![trigger cat[j]] 12 < j < 22 implies cat[12] != cat[j] by {}
    assert forall|j: int| #![trigger cat[j]] 13 < j < 22 implies cat[13] != cat[j] by {}
    assert forall|j: int| #![trigger cat[j]] 14 < j < 22 implies cat[14] != cat[j] by {}
    assert forall|j: int| #![trigger cat[j]] 15 < j < 22 implies cat[15] != cat[j] by {}
    assert forall|j: int| #![trigger cat[j]] 16 < j < 22 implies cat[16] != cat[j] by {}
    assert forall|j: int| #![trigger cat[j]] 17 < j < 22 implies cat[17] != cat[j] by {}
    assert forall|j: int| #![trigger cat[j]] 18 < j < 22 implies cat[18] != cat[j] by {}
    assert forall|j: int| #![trigger cat[j]] 19 < j < 22 implies cat[19] != cat[j] by {}
    assert forall|j: int| #![trigger cat[j]] 20 < j < 22 implies cat[20] != cat[j] by {}
    assert forall|i: int, j: int| #![trigger cat[i], cat[j]]
        0 <= i < 22 && 0 <= j < 22 && i != j implies cat[i] != cat[j] by {
        if i < j {
            if i == 0 {
                assert(cat[0] != cat[j]);
        } else if i == 1 {
            assert(cat[1] != cat[j]);
        } else if i == 2 {
            assert(cat[2] != cat[j]);
        } else if i == 3 {
            assert(cat[3] != cat[j]);
        } else if i == 4 {
            assert(cat[4] != cat[j]);
        } else if i == 5 {
            assert(cat[5] != cat[j]);
        } else if i == 6 {
            assert(cat[6] != cat[j]);
        } else if i == 7 {
            assert(cat[7] != cat[j]);
        } else if i == 8 {
            assert(cat[8] != cat[j]);
        } else if i == 9 {
            assert(cat[9] != cat[j]);
        } else if i == 10 {
            assert(cat[10] != cat[j]);
        } else if i == 11 {
            assert(cat[11] != cat[j]);
        } else if i == 12 {
            assert(cat[12] != cat[j]);
        } else if i == 13 {
            assert(cat[13] != cat[j]);
        } else if i == 14 {
            assert(cat[14] != cat[j]);
        } else if i == 15 {
            assert(cat[15] != cat[j]);
        } else if i == 16 {
            assert(cat[16] != cat[j]);
        } else if i == 17 {
            assert(cat[17] != cat[j]);
        } else if i == 18 {
            assert(cat[18] != cat[j]);
        } else if i == 19 {
            assert(cat[19] != cat[j]);
        } else if i == 20 {
            assert(cat[20] != cat[j]);
            }
        } else {
            if j == 0 {
                assert(cat[0] != cat[i]);
        } else if j == 1 {
            assert(cat[1] != cat[i]);
        } else if j == 2 {
            assert(cat[2] != cat[i]);
        } else if j == 3 {
            assert(cat[3] != cat[i]);
        } else if j == 4 {
            assert(cat[4] != cat[i]);
        } else if j == 5 {
            assert(cat[5] != cat[i]);
        } else if j == 6 {
            assert(cat[6] != cat[i]);
        } else if j == 7 {
            assert(cat[7] != cat[i]);
        } else if j == 8 {
            assert(cat[8] != cat[i]);
        } else if j == 9 {
            assert(cat[9] != cat[i]);
        } else if j == 10 {
            assert(cat[10] != cat[i]);
        } else if j == 11 {
            assert(cat[11] != cat[i]);
        } else if j == 12 {
            assert(cat[12] != cat[i]);
        } else if j == 13 {
            assert(cat[13] != cat[i]);
        } else if j == 14 {
            assert(cat[14] != cat[i]);
        } else if j == 15 {
            assert(cat[15] != cat[i]);
        } else if j == 16 {
            assert(cat[16] != cat[i]);
        } else if j == 17 {
            assert(cat[17] != cat[i]);
        } else if j == 18 {
            assert(cat[18] != cat[i]);
        } else if j == 19 {
            assert(cat[19] != cat[i]);
        } else if j == 20 {
            assert(cat[20] != cat[i]);
            }
        }
    }
    assert(quest_catalog().no_duplicates());
    quest_catalog().lemma_multiset_has_no_duplicates();
    assert forall|q: QuestCardView| #[trigger] quest_catalog().to_multiset().count(q) <= 1 by {
        if quest_catalog().to_multiset().count(q) > 0 {
            assert(quest_catalog().to_multiset().contains(q));
        }
    }
}

/// Every quest tile drafted in the setup step came from the catalog
/// exactly once: for each quest value, the copies drafted into tableaus
/// plus those left in the pool are exactly the catalog's copies, and
/// the catalog holds each value at most once — so no tile is drafted
/// twice, and none is both drafted and left in the pool.
pub proof fn lemma_draft_unique(pre: GameTable, post: GameTable, k: int)
    requires
        setup_step(pre, post, k),
        forall|i: int|
            0 <= i < pre.players@.len() ==> (#[trigger] pre.players@[i]).quest_tiles@.len() == 0,
    ensures
        forall|q: QuestCardView|
            #[trigger] tiles_ms(post.players@).count(q) + quest_views(
                post.quest_tiles@,
            ).to_multiset().count(q) == quest_catalog().to_multiset().count(q),
        forall|q: QuestCardView| #[trigger] quest_catalog().to_multiset().count(q) <= 1,
        forall|q: QuestCardView| #[trigger] tiles_ms(post.players@).count(q) <= 1,
{
    broadcast use vstd::multiset::group_multiset_axioms;

    lemma_tiles_ms_all_empty(pre.players@);
    assert(Multiset::<QuestCardView>::empty().add(quest_catalog().to_multiset())
        =~= quest_catalog().to_multiset());
    lemma_quest_catalog_distinct();
    assert forall|q: QuestCardView| #[trigger] tiles_ms(post.players@).count(q) <= 1 by {
        assert(tiles_ms(post.players@).add(quest_views(post.quest_tiles@).to_multiset()).count(q)
            == tiles_ms(post.players@).count(q) + quest_views(
            post.quest_tiles@,
        ).to_multiset().count(q));
        assert(quest_catalog().to_multiset().count(q) <= 1);
    }
}

impl Player {
    /// A freshly seated player: the given seat and bear, nothing in
    /// hand, no tiles, no completed quests.
    pub fn new(index: usize, bear: BearCard) -> (r: Player)
        ensures
            r.index == index,
            r.bear == bear,
            r.hand@.len() == 0,
            r.quest_tiles@.len() == 0,
            r.completed_quests@.len() == 0,
    {
        Player {
            index,
            bear,
            hand: Vec::new(),
            quest_tiles: Vec::new(),
            completed_quests: Vec::new(),
        }
    }

    /// Appends a resource card to the player's hand; nothing else about
    /// the player changes.
    pub fn add_to_hand(&mut self, resource: ResourceCard)
        ensures
            final(self).hand@ == old(self).hand@.push(resource),
            final(self).index == old(self).index,
            final(self).bear == old(self).bear,
            final(self).quest_tiles == old(self).quest_tiles,
            final(self).completed_quests == old(self).completed_quests,
    {
        self.hand.push(resource);
    }

    /// Appends a quest tile to the player's tableau; nothing else about
    /// the player changes.
    pub fn add_quest_tile(&mut self, quest: QuestCard)
        ensures
            final(self).quest_tiles@ == old(self).quest_tiles@.push(quest),
            final(self).index == old(self).index,
            final(self).bear == old(self).bear,
            final(self).hand == old(self).hand,
            final(self).completed_quests == old(self).completed_quests,
    {
        self.quest_tiles.push(quest);
    }
}

impl GameTable {
    /// A table is well formed when it seats a legal number of players.
    pub open spec fn wf(self) -> bool {
        2 <= self.players@.len() <= 6
    }

    /// What construction promises of a new table: one player per seat
    /// in original seating order with pairwise-distinct bears and
    /// nothing dealt yet, all piles empty, the given strategies stored,
    /// state `Uninitialized`, and an empty event log.
    pub open spec fn freshly_built(
        self,
        num_players: int,
        ips: InitialPlayerSelectionStrategy,
        qts: QuestTileSelectionStrategy,
    ) -> bool {
        &&& self.players@.len() == num_players
        &&& (forall|i: int| 0 <= i < num_players ==> (#[trigger] self.players@[i]).index == i)
        &&& (forall|i: int| 0 <= i < num_players ==> (#[trigger] self.players@[i]).hand@.len() == 0)
        &&& (forall|i: int|
            0 <= i < num_players ==> (#[trigger] self.players@[i]).quest_tiles@.len() == 0)
        &&& (forall|i: int|
            0 <= i < num_players ==> (#[trigger] self.players@[i]).completed_quests@.len() == 0)
        &&& (forall|i: int, j: int|
            #![trigger self.players@[i].bear, self.players@[j].bear]
            0 <= i < j < num_players ==> self.players@[i].bear != self.players@[j].bear)
        &&& (forall|i: int|
            0 <= i < num_players ==> bear_catalog().contains((#[trigger] self.players@[i]).bear))
        &&& self.quest_deck@.len() == 0
        &&& self.quest_tiles@.len() == 0
        &&& self.resource_deck@.len() == 0
        &&& self.open_quests@.len() == 0
        &&& self.discard_pile@.len() == 0
        &&& self.state is Uninitialized
        &&& self.initial_player_selection_strategy == ips
        &&& self.quest_tile_selection_strategy == qts
        &&& self.events@.len() == 0
    }

    /// Builds a table for the given number of players, or reports an
    /// invalid configuration: construction succeeds exactly when
    /// `num_players` lies in 2..=6, and then seats that many players,
    /// each with a distinct bear drawn from a shuffled permutation of
    /// the six bear identities.
    pub fn from(
        num_players: usize,
        initial_player_selection_strategy: InitialPlayerSelectionStrategy,
        quest_tile_selection_strategy: QuestTileSelectionStrategy,
    ) -> (r: Option<GameTable>)
        ensures
            (2 <= num_players <= 6) <==> r is Some,
            r matches Some(t) ==> t.freshly_built(
                num_players as int,
                initial_player_selection_strategy,
                quest_tile_selection_strategy,
            ),
            r matches Some(t) ==> t.wf(),
    {
        if num_players < 2 || num_players > 6 {
            return None;
        }
        Some(
            GameTable {
                players: Self::create_players(num_players),
                quest_deck: Deck::new(),
                quest_tiles: Deck::new(),
                resource_deck: Deck::new(),
                open_quests: Vec::new(),
                discard_pile: Deck::new(),
                state: GameState::Uninitialized,
                initial_player_selection_strategy,
                quest_tile_selection_strategy,
                events: Vec::new(),
            },
        )
    }

    /// Advances the game by one step. From `Uninitialized`, one call
    /// runs the whole setup pipeline (build quest deck, build resource
    /// deck, select the initial player, distribute resources,
    /// distribute quest tiles) and lands in `PlayerReady` — unless the
    /// configured quest-tile strategy is unimplemented, in which case
    /// the step fails and the table is untouched. From `PlayerReady`,
    /// the current player is declared sole winner and the state becomes
    /// `Done`. In `Done`, stepping is a no-op: the table, winners
    /// included, stays exactly as it is.
    pub fn play_one_step(&mut self) -> (r: Result<(), StepError>)
        requires
            old(self).wf(),
        ensures
            final(self).wf(),
            (old(self).state is Uninitialized && old(self).quest_tile_selection_strategy
                is Random) ==> (r is Ok && exists|k: int|
                #[trigger] setup_step(*old(self), *final(self), k)),
            (old(self).state is Uninitialized && !(old(self).quest_tile_selection_strategy
                is Random)) ==> (r == Err::<(), StepError>(StepError::UnimplementedQuestTileStrategy)
                && *final(self) == *old(self)),
            old(self).state matches GameState::PlayerReady { player_index } ==> ({
                &&& r is Ok
                &&& (final(self).state matches GameState::Done { winner_indices }
                    && winner_indices@ == seq![player_index])
                &&& final(self).players == old(self).players
                &&& final(self).quest_deck == old(self).quest_deck
                &&& final(self).quest_tiles == old(self).quest_tiles
                &&& final(self).resource_deck == old(self).resource_deck
                &&& final(self).open_quests == old(self).open_quests
                &&& final(self).discard_pile == old(self).discard_pile
                &&& final(self).initial_player_selection_strategy == old(
                    self,
                ).initial_player_selection_strategy
                &&& final(self).quest_tile_selection_strategy == old(
                    self,
                ).quest_tile_selection_strategy
                &&& final(self).events == old(self).events
            }),
            old(self).state is Done ==> (r is Ok && *final(self) == *old(self)),
    {
        match &self.state {
            GameState::Uninitialized => {
                match self.quest_tile_selection_strategy {
                    QuestTileSelectionStrategy::Random => {},
                    _ => {
                        return Err(StepError::UnimplementedQuestTileStrategy);
                    },
                }
                self.build_quest_deck();
                let ghost t1 = *self;
                self.build_resource_deck();
                let ghost t2 = *self;
                let k = self.select_initial_player();
                let ghost t3 = *self;
                proof {
                    assert(quest_catalog().len() == 22);
                    assert(resource_catalog().len() == 125);
                    assert(t3.players@.len() == old(self).players@.len());
                }
                self.distribute_resources();
                let ghost t4 = *self;
                let res = self.distribute_quest_tiles();
                proof {
                    broadcast use vstd::multiset::group_multiset_axioms;

                    let pre = *old(self);
                    let n = pre.players@.len() as int;
                    let taken = pre.players@.take(k@);
                    let skipped = pre.players@.skip(k@);
                    // the seating order after selection is a rotation of the original
                    assert(t3.players@ == skipped + taken);
                    assert(pre.players@ =~= taken + skipped);
                    // hands and tableaus are conserved by the rotation
                    lemma_hands_ms_append(skipped, taken);
                    lemma_hands_ms_append(taken, skipped);
                    assert(hands_ms(skipped).add(hands_ms(taken)) =~= hands_ms(taken).add(
                        hands_ms(skipped),
                    ));
                    assert(hands_ms(t3.players@) == hands_ms(pre.players@));
                    lemma_tiles_ms_append(skipped, taken);
                    lemma_tiles_ms_append(taken, skipped);
                    assert(tiles_ms(skipped).add(tiles_ms(taken)) =~= tiles_ms(taken).add(
                        tiles_ms(skipped),
                    ));
                    assert(tiles_ms(t3.players@) == tiles_ms(pre.players@));
                    // the tile distribution leaves every hand as it was
                    assert forall|i: int| 0 <= i < n implies (#[trigger] self.players@[i]).hand@
                        == t4.players@[i].hand@ by {}
                    lemma_hands_ms_congruent(self.players@, t4.players@);
                    // the resource distribution leaves every tableau as it was
                    assert forall|i: int|
                        0 <= i < n implies (#[trigger] t4.players@[i]).quest_tiles@
                        == t3.players@[i].quest_tiles@ by {}
                    lemma_tiles_ms_congruent(t4.players@, t3.players@);
                    // the quest-tile pool still holds the full catalog when drafting starts
                    assert(quest_views(t4.quest_tiles@) == quest_catalog());
                    assert(quest_views(t4.quest_tiles@).to_multiset() == quest_catalog(
                    ).to_multiset());
                    assert(setup_step(pre, *self, k@));
                }
                res
            },
            GameState::PlayerReady { player_index } => {
                let chosen: usize = *player_index;
                let mut winners: Vec<usize> = Vec::new();
                winners.push(chosen);
                proof {
                    assert(winners@ =~= seq![chosen]);
                }
                self.state = GameState::Done { winner_indices: winners };
                Ok(())
            },
            GameState::Done { .. } => Ok(()),
        }
    }

    /// Seats the players: seat `i` gets index `i` and the `i`-th bear of
    /// a freshly shuffled permutation of the six bear identities, so
    /// bears are pairwise distinct.
    fn create_players(num_players: usize) -> (players: Vec<Player>)
        requires
            2 <= num_players <= 6,
        ensures
            players@.len() == num_players,
            forall|i: int| 0 <= i < num_players ==> (#[trigger] players@[i]).index == i,
            forall|i: int| 0 <= i < num_players ==> (#[trigger] players@[i]).hand@.len() == 0,
            forall|i: int| 0 <= i < num_players ==> (#[trigger] players@[i]).quest_tiles@.len() == 0,
            forall|i: int|
                0 <= i < num_players ==> (#[trigger] players@[i]).completed_quests@.len() == 0,
            forall|i: int, j: int|
                #![trigger players@[i].bear, players@[j].bear]
                0 <= i < j < num_players ==> players@[i].bear != players@[j].bear,
            forall|i: int|
                0 <= i < num_players ==> bear_catalog().contains((#[trigger] players@[i]).bear),
    {
        broadcast use vstd::seq_lib::group_to_multiset_ensures;

        let mut bears = build_all_bears();
        crate::rng::shuffle_cards(&mut bears);
        proof {
            assert(bear_catalog().no_duplicates());
            bear_catalog().lemma_multiset_has_no_duplicates();
            bears@.lemma_multiset_has_no_duplicates_conv();
            assert forall|i: int| 0 <= i < bears@.len() implies bear_catalog().contains(
                #[trigger] bears@[i],
            ) by {
                assert(bears@.contains(bears@[i]));
                assert(bear_catalog().to_multiset().count(bears@[i]) > 0);
            }
        }
        let mut players: Vec<Player> = Vec::new();
        for i in 0..num_players
            invariant
                2 <= num_players <= 6,
                bears@.len() == 6,
                bears@.no_duplicates(),
                forall|m: int| 0 <= m < bears@.len() ==> bear_catalog().contains(#[trigger] bears@[m]),
                players@.len() == i,
                forall|m: int| 0 <= m < i ==> (#[trigger] players@[m]).index == m,
                forall|m: int| 0 <= m < i ==> (#[trigger] players@[m]).bear == bears@[m],
                forall|m: int| 0 <= m < i ==> (#[trigger] players@[m]).hand@.len() == 0,
                forall|m: int| 0 <= m < i ==> (#[trigger] players@[m]).quest_tiles@.len() == 0,
                forall|m: int| 0 <= m < i ==> (#[trigger] players@[m]).completed_quests@.len() == 0,
        {
            players.push(Player::new(i, bears[i]));
        }
        players
    }

    /// Appends one record to the event log; nothing else changes.
    fn add_event(&mut self, event: LoggedEvents)
        ensures
            final(self).events@ == old(self).events@.push(event),
            final(self).players == old(self).players,
            final(self).quest_deck == old(self).quest_deck,
            final(self).quest_tiles == old(self).quest_tiles,
            final(self).resource_deck == old(self).resource_deck,
            final(self).open_quests == old(self).open_quests,
            final(self).discard_pile == old(self).discard_pile,
            final(self).state == old(self).state,
            final(self).initial_player_selection_strategy == old(
                self,
            ).initial_player_selection_strategy,
            final(self).quest_tile_selection_strategy == old(self).quest_tile_selection_strategy,
    {
        self.events.push(event);
    }

    /// Loads the quest catalog, shuffles it, truncates it to the
    /// player-count-dependent size for the quest deck, retains the full
    /// catalog as the quest-tile pool, and logs the built deck.
    fn build_quest_deck(&mut self)
        requires
            old(self).wf(),
        ensures
            final(self).wf(),
            final(self).quest_deck@.len() == quest_deck_target(old(self).players@.len() as int),
            quest_views(final(self).quest_deck@).to_multiset().subset_of(
                quest_catalog().to_multiset(),
            ),
            quest_views(final(self).quest_tiles@) == quest_catalog(),
            final(self).players == old(self).players,
            final(self).resource_deck == old(self).resource_deck,
            final(self).open_quests == old(self).open_quests,
            final(self).discard_pile == old(self).discard_pile,
            final(self).state == old(self).state,
            final(self).initial_player_selection_strategy == old(
                self,
            ).initial_player_selection_strategy,
            final(self).quest_tile_selection_strategy == old(self).quest_tile_selection_strategy,
            final(self).events@.len() == old(self).events@.len() + 1,
            forall|i: int|
                0 <= i < old(self).events@.len() ==> final(self).events@[i] == old(self).events@[i],
            final(self).events@.last() matches LoggedEvents::BuiltQuestDeck { quests }
                && quest_views(quests@) == quest_views(final(self).quest_deck@),
    {
        broadcast use vstd::multiset::group_multiset_axioms;

        let catalog = build_all_quests();
        let ghost full = catalog@;
        let mut deck = Deck::from(catalog);
        deck.shuffle();
        let ghost shuffled = deck@;
        let num_quests: usize = if self.players.len() <= 3 {
            12
        } else if self.players.len() <= 5 {
            15
        } else {
            deck.len()
        };
        deck.truncate(num_quests);
        proof {
            lemma_quest_views_multiset(shuffled, full);
            assert(shuffled =~= shuffled.take(num_quests as int) + shuffled.skip(
                num_quests as int,
            ));
            assert(quest_views(shuffled.take(num_quests as int) + shuffled.skip(num_quests as int))
                =~= quest_views(shuffled.take(num_quests as int)) + quest_views(
                shuffled.skip(num_quests as int),
            ));
            vstd::seq_lib::lemma_multiset_commutative(
                quest_views(shuffled.take(num_quests as int)),
                quest_views(shuffled.skip(num_quests as int)),
            );
            assert(deck@ == shuffled.take(num_quests as int));
            assert forall|q: QuestCardView|
                #[trigger] quest_views(deck@).to_multiset().count(q) <= quest_catalog(
                ).to_multiset().count(q) by {
                assert(quest_views(shuffled).to_multiset().count(q) == quest_views(
                    shuffled.take(num_quests as int),
                ).to_multiset().count(q) + quest_views(
                    shuffled.skip(num_quests as int),
                ).to_multiset().count(q));
            }
        }
        self.quest_deck = deck;
        self.quest_tiles = Deck::from(build_all_quests());
        let logged = clone_quests(&self.quest_deck.cards);
        self.add_event(LoggedEvents::BuiltQuestDeck { quests: logged });
    }

    /// Loads the resource catalog, shuffles it into the resource deck,
    /// and logs the built deck.
    fn build_resource_deck(&mut self)
        ensures
            final(self).resource_deck@.len() == resource_catalog().len(),
            final(self).resource_deck@.to_multiset() == resource_catalog().to_multiset(),
            final(self).players == old(self).players,
            final(self).quest_deck == old(self).quest_deck,
            final(self).quest_tiles == old(self).quest_tiles,
            final(self).open_quests == old(self).open_quests,
            final(self).discard_pile == old(self).discard_pile,
            final(self).state == old(self).state,
            final(self).initial_player_selection_strategy == old(
                self,
            ).initial_player_selection_strategy,
            final(self).quest_tile_selection_strategy == old(self).quest_tile_selection_strategy,
            final(self).events@.len() == old(self).events@.len() + 1,
            forall|i: int|
                0 <= i < old(self).events@.len() ==> final(self).events@[i] == old(self).events@[i],
            final(self).events@.last() matches LoggedEvents::BuiltResourceDeck { resources }
                && resources@ == final(self).resource_deck@,
    {
        let mut deck = Deck::from(build_all_resources());
        deck.shuffle();
        self.resource_deck = deck;
        let logged = copy_resources(&self.resource_deck.cards);
        self.add_event(LoggedEvents::BuiltResourceDeck { resources: logged });
    }

    /// Picks the initial player by the configured strategy, rotates the
    /// seating order so that player comes to the front, moves to
    /// `PlayerReady` with that player's original index, and logs the
    /// selection. Returns (as ghost information) how far the seating
    /// order was rotated: 0 under `First`, the last position under
    /// `Last`, some seat under `Random`.
    fn select_initial_player(&mut self) -> (k: Ghost<int>)
        requires
            old(self).wf(),
        ensures
            final(self).wf(),
            0 <= k@ < old(self).players@.len(),
            old(self).initial_player_selection_strategy is First ==> k@ == 0,
            old(self).initial_player_selection_strategy is Last ==> k@ == old(
                self,
            ).players@.len() - 1,
            final(self).players@ == old(self).players@.skip(k@) + old(self).players@.take(k@),
            final(self).state == (GameState::PlayerReady {
                player_index: old(self).players@[k@].index,
            }),
            final(self).events@ == old(self).events@.push(
                LoggedEvents::SelectedInitialPlayer {
                    player_index: old(self).players@[k@].index,
                },
            ),
            final(self).quest_deck == old(self).quest_deck,
            final(self).quest_tiles == old(self).quest_tiles,
            final(self).resource_deck == old(self).resource_deck,
            final(self).open_quests == old(self).open_quests,
            final(self).discard_pile == old(self).discard_pile,
            final(self).initial_player_selection_strategy == old(
                self,
            ).initial_player_selection_strategy,
            final(self).quest_tile_selection_strategy == old(self).quest_tile_selection_strategy,
    {
        let n = self.players.len();
        let choice: usize = match self.initial_player_selection_strategy {
            InitialPlayerSelectionStrategy::Random => crate::rng::random_index(n),
            InitialPlayerSelectionStrategy::First => 0,
            InitialPlayerSelectionStrategy::Last => n - 1,
        };
        rotate_left_players(&mut self.players, choice);
        let player_index = self.players[0].index;
        self.state = GameState::PlayerReady { player_index };
        self.add_event(LoggedEvents::SelectedInitialPlayer { player_index });
        proof {
            let pre = old(self).players@;
            assert(self.players@ == pre.skip(choice as int) + pre.take(choice as int));
            assert(self.players@[0] == pre[choice as int]);
        }
        Ghost(choice as int)
    }

    /// Deals five resource cards to every player, one round-robin pass
    /// per card, drawing from the top of the resource deck: in round
    /// `r` the player at seating position `i` receives the card
    /// `r * n + i` positions below the original top. No card is
    /// fabricated, duplicated or lost: the cards in all hands plus the
    /// remaining deck are conserved.
    fn distribute_resources(&mut self)
        requires
            old(self).wf(),
            5 * old(self).players@.len() <= old(self).resource_deck@.len(),
        ensures
            final(self).wf(),
            final(self).players@.len() == old(self).players@.len(),
            forall|i: int|
                0 <= i < old(self).players@.len() ==> {
                    &&& (#[trigger] final(self).players@[i]).index == old(self).players@[i].index
                    &&& final(self).players@[i].bear == old(self).players@[i].bear
                    &&& final(self).players@[i].quest_tiles == old(self).players@[i].quest_tiles
                    &&& final(self).players@[i].completed_quests == old(
                        self,
                    ).players@[i].completed_quests
                    &&& final(self).players@[i].hand@.len() == old(self).players@[i].hand@.len() + 5
                    &&& final(self).players@[i].hand@.take(old(self).players@[i].hand@.len() as int)
                        == old(self).players@[i].hand@
                },
            forall|i: int, x: int|
                #![trigger final(self).players@[i].hand@[x]]
                0 <= i < old(self).players@.len() && old(self).players@[i].hand@.len() <= x < old(
                    self,
                ).players@[i].hand@.len() + 5 ==> final(self).players@[i].hand@[x] == dealt_card(
                    old(self).resource_deck@,
                    old(self).players@.len() as int,
                    i,
                    x - old(self).players@[i].hand@.len(),
                ),
            final(self).resource_deck@ == old(self).resource_deck@.take(
                old(self).resource_deck@.len() - 5 * old(self).players@.len(),
            ),
            hands_ms(final(self).players@).add(final(self).resource_deck@.to_multiset())
                == hands_ms(old(self).players@).add(old(self).resource_deck@.to_multiset()),
            final(self).quest_deck == old(self).quest_deck,
            final(self).quest_tiles == old(self).quest_tiles,
            final(self).open_quests == old(self).open_quests,
            final(self).discard_pile == old(self).discard_pile,
            final(self).state == old(self).state,
            final(self).initial_player_selection_strategy == old(
                self,
            ).initial_player_selection_strategy,
            final(self).quest_tile_selection_strategy == old(self).quest_tile_selection_strategy,
            final(self).events == old(self).events,
    {
        broadcast use vstd::multiset::group_multiset_axioms;
        broadcast use vstd::seq_lib::group_to_multiset_ensures;

        let n = self.players.len();
        let ghost p0 = self.players@;
        let ghost d0 = self.resource_deck@;
        let ghost ln = d0.len() as int;
        let ghost mut c: int = 0;
        proof {
            assert((0 as int) * (n as int) == 0) by (nonlinear_arith);
        }
        for round in 0..5usize
            invariant
                n == p0.len(),
                2 <= n <= 6,
                5 * n <= ln,
                ln == d0.len(),
                c == (round as int) * (n as int),
                self.players@.len() == n,
                self.resource_deck@ == d0.take(ln - c),
                hands_ms(self.players@).add(self.resource_deck@.to_multiset()) == hands_ms(
                    p0,
                ).add(d0.to_multiset()),
                forall|m: int| 0 <= m < n ==> (#[trigger] self.players@[m]).index == p0[m].index,
                forall|m: int| 0 <= m < n ==> (#[trigger] self.players@[m]).bear == p0[m].bear,
                forall|m: int|
                    0 <= m < n ==> (#[trigger] self.players@[m]).quest_tiles == p0[m].quest_tiles,
                forall|m: int|
                    0 <= m < n ==> (#[trigger] self.players@[m]).completed_quests
                        == p0[m].completed_quests,
                forall|m: int|
                    0 <= m < n ==> (#[trigger] self.players@[m]).hand@.len() == p0[m].hand@.len()
                        + round,
                forall|m: int|
                    0 <= m < n ==> (#[trigger] self.players@[m]).hand@.take(
                        p0[m].hand@.len() as int,
                    ) == p0[m].hand@,
                forall|m: int, x: int|
                    #![trigger self.players@[m].hand@[x]]
                    0 <= m < n && p0[m].hand@.len() <= x < self.players@[m].hand@.len()
                        ==> self.players@[m].hand@[x] == dealt_card(
                        d0,
                        n as int,
                        m,
                        x - p0[m].hand@.len(),
                    ),
                self.quest_deck == old(self).quest_deck,
                self.quest_tiles == old(self).quest_tiles,
                self.open_quests == old(self).open_quests,
                self.discard_pile == old(self).discard_pile,
                self.state == old(self).state,
                self.initial_player_selection_strategy == old(
                    self,
                ).initial_player_selection_strategy,
                self.quest_tile_selection_strategy == old(self).quest_tile_selection_strategy,
                self.events == old(self).events,
        {
            for j in 0..n
                invariant
                    n == p0.len(),
                    2 <= n <= 6,
                    5 * n <= ln,
                    ln == d0.len(),
                    round < 5,
                    c == (round as int) * (n as int) + j,
                    self.players@.len() == n,
                    self.resource_deck@ == d0.take(ln - c),
                    hands_ms(self.players@).add(self.resource_deck@.to_multiset()) == hands_ms(
                        p0,
                    ).add(d0.to_multiset()),
                    forall|m: int|
                        0 <= m < n ==> (#[trigger] self.players@[m]).index == p0[m].index,
                    forall|m: int| 0 <= m < n ==> (#[trigger] self.players@[m]).bear == p0[m].bear,
                    forall|m: int|
                        0 <= m < n ==> (#[trigger] self.players@[m]).quest_tiles
                            == p0[m].quest_tiles,
                    forall|m: int|
                        0 <= m < n ==> (#[trigger] self.players@[m]).completed_quests
                            == p0[m].completed_quests,
                    forall|m: int|
                        0 <= m < n ==> (#[trigger] self.players@[m]).hand@.len()
                            == p0[m].hand@.len() + (if m < j {
                            round + 1
                        } else {
                            round as int
                        }),
                    forall|m: int|
                        0 <= m < n ==> (#[trigger] self.players@[m]).hand@.take(
                            p0[m].hand@.len() as int,
                        ) == p0[m].hand@,
                    forall|m: int, x: int|
                        #![trigger self.players@[m].hand@[x]]
                        0 <= m < n && p0[m].hand@.len() <= x < self.players@[m].hand@.len()
                            ==> self.players@[m].hand@[x] == dealt_card(
                            d0,
                            n as int,
                            m,
                            x - p0[m].hand@.len(),
                        ),
                    self.quest_deck == old(self).quest_deck,
                    self.quest_tiles == old(self).quest_tiles,
                    self.open_quests == old(self).open_quests,
                    self.discard_pile == old(self).discard_pile,
                    self.state == old(self).state,
                    self.initial_player_selection_strategy == old(
                        self,
                    ).initial_player_selection_strategy,
                    self.quest_tile_selection_strategy == old(self).quest_tile_selection_strategy,
                    self.events == old(self).events,
            {
                proof {
                    assert(c < 5 * n) by (nonlinear_arith)
                        requires
                            c == (round as int) * (n as int) + j,
                            round < 5,
                            j < n,
                            0 <= n,
                    ;
                }
                let ghost pcur = self.players@;
                let ghost dcur = self.resource_deck@;
                let card = match self.resource_deck.draw() {
                    Some(card) => card,
                    None => {
                        proof {
                            assert(false);
                        }
                        vstd::pervasive::unreached()
                    },
                };
                proof {
                    assert(dcur.last() == d0[ln - c - 1]);
                    assert(self.resource_deck@ =~= d0.take(ln - c - 1));
                }
                let mut p = self.players.remove(j);
                p.add_to_hand(card);
                let ghost pnew = p;
                self.players.insert(j, p);
                proof {
                    broadcast use vstd::multiset::group_multiset_axioms;
                    broadcast use vstd::seq_lib::group_to_multiset_ensures;

                    assert(self.players@ =~= pcur.update(j as int, pnew));
                    assert(pnew.hand@ == pcur[j as int].hand@.push(card));
                    assert(pcur[j as int].hand@.push(card).to_multiset() == pcur[
                        j as int
                    ].hand@.to_multiset().insert(card));
                    lemma_hands_ms_update(pcur, j as int, pnew, card);
                    assert(dcur.remove(ln - c - 1) =~= d0.take(ln - c - 1));
                    assert(dcur[ln - c - 1] == card);
                    assert(dcur.remove(ln - c - 1).to_multiset() == dcur.to_multiset().remove(
                        card,
                    ));
                    assert(dcur.contains(card));
                    lemma_transfer(hands_ms(pcur), dcur.to_multiset(), card);
                    assert(pnew.hand@.take(p0[j as int].hand@.len() as int) =~= pcur[
                        j as int
                    ].hand@.take(p0[j as int].hand@.len() as int));
                    c = c + 1;
                }
            }
            proof {
                assert(c == ((round as int) + 1) * (n as int)) by (nonlinear_arith)
                    requires
                        c == (round as int) * (n as int) + (n as int),
                ;
            }
        }
    }

    /// Deals three quest tiles to every player, one round-robin pass per
    /// tile. Only the `Random` strategy is implemented: each draw
    /// removes a uniformly random tile from the remaining pool.
    /// Invoking `Greedy` or `Target` fails without touching the table.
    /// No tile is fabricated, duplicated or lost: the tile values in all
    /// tableaus plus the remaining pool are conserved.
    fn distribute_quest_tiles(&mut self) -> (r: Result<(), StepError>)
        requires
            old(self).wf(),
            3 * old(self).players@.len() <= old(self).quest_tiles@.len(),
        ensures
            final(self).wf(),
            (old(self).quest_tile_selection_strategy is Random) <==> r is Ok,
            !(old(self).quest_tile_selection_strategy is Random) ==> r == Err::<(), StepError>(
                StepError::UnimplementedQuestTileStrategy,
            ) && *final(self) == *old(self),
            r is Ok ==> {
                &&& final(self).players@.len() == old(self).players@.len()
                &&& forall|i: int|
                    0 <= i < old(self).players@.len() ==> {
                        &&& (#[trigger] final(self).players@[i]).index == old(
                            self,
                        ).players@[i].index
                        &&& final(self).players@[i].bear == old(self).players@[i].bear
                        &&& final(self).players@[i].hand == old(self).players@[i].hand
                        &&& final(self).players@[i].completed_quests == old(
                            self,
                        ).players@[i].completed_quests
                        &&& final(self).players@[i].quest_tiles@.len() == old(
                            self,
                        ).players@[i].quest_tiles@.len() + 3
                        &&& final(self).players@[i].quest_tiles@.take(
                            old(self).players@[i].quest_tiles@.len() as int,
                        ) == old(self).players@[i].quest_tiles@
                    }
                &&& final(self).quest_tiles@.len() == old(self).quest_tiles@.len() - 3 * old(
                    self,
                ).players@.len()
                &&& tiles_ms(final(self).players@).add(
                    quest_views(final(self).quest_tiles@).to_multiset(),
                ) == tiles_ms(old(self).players@).add(
                    quest_views(old(self).quest_tiles@).to_multiset(),
                )
                &&& final(self).quest_deck == old(self).quest_deck
                &&& final(self).resource_deck == old(self).resource_deck
                &&& final(self).open_quests == old(self).open_quests
                &&& final(self).discard_pile == old(self).discard_pile
                &&& final(self).state == old(self).state
                &&& final(self).initial_player_selection_strategy == old(
                    self,
                ).initial_player_selection_strategy
                &&& final(self).quest_tile_selection_strategy == old(
                    self,
                ).quest_tile_selection_strategy
                &&& final(self).events == old(self).events
            },
    {
        match self.quest_tile_selection_strategy {
            QuestTileSelectionStrategy::Random => {},
            QuestTileSelectionStrategy::Greedy => {
                return Err(StepError::UnimplementedQuestTileStrategy);
            },
            QuestTileSelectionStrategy::Target { .. } => {
                return Err(StepError::UnimplementedQuestTileStrategy);
            },
        }
        let n = self.players.len();
        let ghost p0 = self.players@;
        let ghost q0 = self.quest_tiles@;
        let ghost ln = q0.len() as int;
        let ghost mut c: int = 0;
        proof {
            assert((0 as int) * (n as int) == 0) by (nonlinear_arith);
        }
        for round in 0..3usize
            invariant
                n == p0.len(),
                2 <= n <= 6,
                3 * n <= ln,
                ln == q0.len(),
                c == (round as int) * (n as int),
                self.players@.len() == n,
                self.quest_tiles@.len() == ln - c,
                tiles_ms(self.players@).add(quest_views(self.quest_tiles@).to_multiset())
                    == tiles_ms(p0).add(quest_views(q0).to_multiset()),
                forall|m: int| 0 <= m < n ==> (#[trigger] self.players@[m]).index == p0[m].index,
                forall|m: int| 0 <= m < n ==> (#[trigger] self.players@[m]).bear == p0[m].bear,
                forall|m: int| 0 <= m < n ==> (#[trigger] self.players@[m]).hand == p0[m].hand,
                forall|m: int|
                    0 <= m < n ==> (#[trigger] self.players@[m]).completed_quests
                        == p0[m].completed_quests,
                forall|m: int|
                    0 <= m < n ==> (#[trigger] self.players@[m]).quest_tiles@.len()
                        == p0[m].quest_tiles@.len() + round,
                forall|m: int|
                    0 <= m < n ==> (#[trigger] self.players@[m]).quest_tiles@.take(
                        p0[m].quest_tiles@.len() as int,
                    ) == p0[m].quest_tiles@,
                self.quest_deck == old(self).quest_deck,
                self.resource_deck == old(self).resource_deck,
                self.open_quests == old(self).open_quests,
                self.discard_pile == old(self).discard_pile,
                self.state == old(self).state,
                self.initial_player_selection_strategy == old(
                    self,
                ).initial_player_selection_strategy,
                self.quest_tile_selection_strategy == old(self).quest_tile_selection_strategy,
                self.events == old(self).events,
        {
            for j in 0..n
                invariant
                    n == p0.len(),
                    2 <= n <= 6,
                    3 * n <= ln,
                    ln == q0.len(),
                    round < 3,
                    c == (round as int) * (n as int) + j,
                    self.players@.len() == n,
                    self.quest_tiles@.len() == ln - c,
                    tiles_ms(self.players@).add(quest_views(self.quest_tiles@).to_multiset())
                        == tiles_ms(p0).add(quest_views(q0).to_multiset()),
                    forall|m: int|
                        0 <= m < n ==> (#[trigger] self.players@[m]).index == p0[m].index,
                    forall|m: int| 0 <= m < n ==> (#[trigger] self.players@[m]).bear == p0[m].bear,
                    forall|m: int| 0 <= m < n ==> (#[trigger] self.players@[m]).hand == p0[m].hand,
                    forall|m: int|
                        0 <= m < n ==> (#[trigger] self.players@[m]).completed_quests
                            == p0[m].completed_quests,
                    forall|m: int|
                        0 <= m < n ==> (#[trigger] self.players@[m]).quest_tiles@.len()
                            == p0[m].quest_tiles@.len() + (if m < j {
                            round + 1
                        } else {
                            round as int
                        }),
                    forall|m: int|
                        0 <= m < n ==> (#[trigger] self.players@[m]).quest_tiles@.take(
                            p0[m].quest_tiles@.len() as int,
                        ) == p0[m].quest_tiles@,
                    self.quest_deck == old(self).quest_deck,
                    self.resource_deck == old(self).resource_deck,
                    self.open_quests == old(self).open_quests,
                    self.discard_pile == old(self).discard_pile,
                    self.state == old(self).state,
                    self.initial_player_selection_strategy == old(
                        self,
                    ).initial_player_selection_strategy,
                    self.quest_tile_selection_strategy == old(self).quest_tile_selection_strategy,
                    self.events == old(self).events,
            {
                proof {
                    assert(c < 3 * (n as int)) by (nonlinear_arith)
                        requires
                            c == (round as int) * (n as int) + j,
                            round < 3,
                            j < n,
                            0 <= n,
                    ;
                }
                let ghost pcur = self.players@;
                let ghost qcur = self.quest_tiles@;
                let idx = crate::rng::random_index(self.quest_tiles.len());
                let tile = match self.quest_tiles.draw_from(idx) {
                    Some(tile) => tile,
                    None => {
                        proof {
                            assert(false);
                        }
                        vstd::pervasive::unreached()
                    },
                };
                let ghost tcard = tile;
                let mut p = self.players.remove(j);
                p.add_quest_tile(tile);
                let ghost pnew = p;
                self.players.insert(j, p);
                proof {
                    broadcast use vstd::multiset::group_multiset_axioms;
                    broadcast use vstd::seq_lib::group_to_multiset_ensures;

                    assert(self.players@ =~= pcur.update(j as int, pnew));
                    assert(pnew.quest_tiles@ == pcur[j as int].quest_tiles@.push(tcard));
                    assert(quest_views(pnew.quest_tiles@) =~= quest_views(
                        pcur[j as int].quest_tiles@,
                    ).push(tcard@));
                    assert(quest_views(pcur[j as int].quest_tiles@).push(tcard@).to_multiset()
                        == quest_views(pcur[j as int].quest_tiles@).to_multiset().insert(tcard@));
                    lemma_tiles_ms_update(pcur, j as int, pnew, tcard@);
                    assert(self.quest_tiles@ == qcur.remove(idx as int));
                    assert(quest_views(qcur.remove(idx as int)) =~= quest_views(qcur).remove(
                        idx as int,
                    ));
                    assert(quest_views(qcur)[idx as int] == tcard@);
                    assert(quest_views(qcur).remove(idx as int).to_multiset() == quest_views(
                        qcur,
                    ).to_multiset().remove(tcard@));
                    assert(quest_views(qcur).contains(tcard@));
                    lemma_transfer(tiles_ms(pcur), quest_views(qcur).to_multiset(), tcard@);
                    assert(pnew.quest_tiles@.take(p0[j as int].quest_tiles@.len() as int) =~= pcur[
                        j as int
                    ].quest_tiles@.take(p0[j as int].quest_tiles@.len() as int));
                    c = c + 1;
                }
            }
            proof {
                assert(c == ((round as int) + 1) * (n as int)) by (nonlinear_arith)
                    requires
                        c == (round as int) * (n as int) + (n as int),
                ;
            }
        }
        Ok(())
    }
}

} // verus!
