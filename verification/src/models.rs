use vstd::prelude::*;

verus! {

/// The kinds of ingredient resource cards; `Any` is the wildcard that
/// matches any ingredient when paying a quest cost.
#[derive(Debug, Clone, Copy, PartialEq, Eq, Structural)]
pub enum IngredientKind {
    Fish,
    Berries,
    Wheat,
    Rice,
    Raindrop,
    Any,
}

/// The kinds of material resource cards; `Any` is the wildcard that
/// matches any material when paying a quest cost.
#[derive(Debug, Clone, Copy, PartialEq, Eq, Structural)]
pub enum MaterialKind {
    Snowball,
    Cotton,
    Bamboo,
    Rope,
    Leaf,
    Silk,
    Pebble,
    Any,
}

/// The kinds of fortune cards.
#[derive(Debug, Clone, Copy, PartialEq, Eq, Structural)]
pub enum FortuneKind {
    BeeAttack,
    Picnic,
    Avalanche,
    Wildfire,
    Hibernation,
    BearHug,
    Bearglar,
    Famine,
}

/// A single drawable game piece: an ingredient, a material, or a fortune.
#[derive(Debug, Clone, Copy, PartialEq, Eq, Structural)]
pub enum ResourceCard {
    Ingredient(IngredientKind),
    Material(MaterialKind),
    Fortune(FortuneKind),
}

/// The six playable characters; each player is assigned one, unique
/// across the players of a game.
#[derive(Debug, Clone, Copy, PartialEq, Eq, Structural)]
pub enum BearCard {
    PolarBear,
    Panda,
    SlothBear,
    SpectacledBear,
    GrizzlyBear,
    SunBear,
}

/// An objective: a named resource cost (possibly with wildcard slots)
/// and a non-negative reward.
#[derive(Debug, PartialEq)]
pub struct QuestCard {
    pub name: String,
    pub cost: Vec<ResourceCard>,
    pub reward: usize,
}

/// The mathematical value of a `QuestCard`: its name as a character
/// sequence, its cost as a card sequence, and its reward.
pub struct QuestCardView {
    pub name: Seq<char>,
    pub cost: Seq<ResourceCard>,
    pub reward: int,
}

impl View for QuestCard {
    type V = QuestCardView;

    open spec fn view(&self) -> QuestCardView {
        QuestCardView { name: self.name@, cost: self.cost@, reward: self.reward as int }
    }
}

impl Clone for QuestCard {
    /// Cloning a quest card preserves its value exactly.
    fn clone(&self) -> (res: Self)
        ensures
            res@ == self@,
    {
        let mut cost: Vec<ResourceCard> = Vec::new();
        proof {
            assert(cost@ =~= self.cost@.take(0));
        }
        for i in 0..self.cost.len()
            invariant
                i <= self.cost.len(),
                cost@ == self.cost@.take(i as int),
        {
            cost.push(self.cost[i]);
            proof {
                assert(cost@ =~= self.cost@.take(i + 1));
            }
        }
        proof {
            assert(cost@ =~= self.cost@);
        }
        QuestCard { name: self.name.clone(), cost, reward: self.reward }
    }
}

/// A quest card drafted into a player's tableau.
pub struct QuestTile<'a> {
    pub quest: &'a QuestCard,
}

/// The values of a sequence of quest cards.
pub open spec fn quest_views(s: Seq<QuestCard>) -> Seq<QuestCardView> {
    s.map_values(|q: QuestCard| q@)
}

/// Two piles holding the same quest cards (as multisets) hold the same
/// quest-card values.
pub proof fn lemma_quest_views_multiset(s: Seq<QuestCard>, t: Seq<QuestCard>)
    requires
        s.to_multiset() == t.to_multiset(),
    ensures
        quest_views(s).to_multiset() == quest_views(t).to_multiset(),
    decreases s.len(),
{
    broadcast use vstd::seq_lib::group_to_multiset_ensures;
    broadcast use vstd::multiset::group_multiset_axioms;

    if s.len() == 0 {
        assert(s.to_multiset().len() == s.len());
        assert(t.to_multiset().len() == t.len());
        assert(quest_views(s) =~= quest_views(t));
    } else {
        let x = s[0];
        assert(s.contains(x));
        assert(t.to_multiset().count(x) > 0);
        assert(t.contains(x));
        let j = choose|j: int| 0 <= j < t.len() && t[j] == x;
        let s1 = s.remove(0);
        let t1 = t.remove(j);
        assert(s1.to_multiset() == s.to_multiset().remove(x));
        assert(t1.to_multiset() == t.to_multiset().remove(x));
        lemma_quest_views_multiset(s1, t1);
        assert(quest_views(s1) =~= quest_views(s).remove(0));
        assert(quest_views(t1) =~= quest_views(t).remove(j));
        assert(quest_views(s)[0] == x@);
        assert(quest_views(t)[j] == x@);
        assert(quest_views(s).remove(0).to_multiset() == quest_views(s).to_multiset().remove(x@));
        assert(quest_views(t).remove(j).to_multiset() == quest_views(t).to_multiset().remove(x@));
        assert(quest_views(s).contains(x@));
        assert(quest_views(s).to_multiset().count(x@) > 0);
        assert(quest_views(t).contains(x@));
        assert(quest_views(t).to_multiset().count(x@) > 0);
        let ms_s = quest_views(s).to_multiset();
        let ms_t = quest_views(t).to_multiset();
        assert forall|q: QuestCardView| #[trigger] ms_s.count(q) == ms_t.count(q) by {
            assert(ms_s.remove(x@).count(q) == ms_t.remove(x@).count(q));
            if q == x@ {
                assert(ms_s.count(q) == ms_s.remove(x@).count(q) + 1);
                assert(ms_t.count(q) == ms_t.remove(x@).count(q) + 1);
            } else {
                assert(ms_s.remove(x@).count(q) == ms_s.count(q));
                assert(ms_t.remove(x@).count(q) == ms_t.count(q));
            }
        }
        assert(ms_s =~= ms_t);
    }
}

/// Builds a quest card from a static name, a cost and a reward.
fn quest(name: &str, cost: Vec<ResourceCard>, reward: usize) -> (q: QuestCard)
    ensures
        q@ == (QuestCardView { name: name@, cost: cost@, reward: reward as int }),
{
    QuestCard { name: name.to_owned(), cost, reward }
}

/// Builds a three-card cost list.
fn cost3(a: ResourceCard, b: ResourceCard, c: ResourceCard) -> (r: Vec<ResourceCard>)
    ensures
        r@ == seq![a, b, c],
{
    let mut r: Vec<ResourceCard> = Vec::new();
    r.push(a);
    r.push(b);
    r.push(c);
    r
}

/// Builds a four-card cost list.
fn cost4(a: ResourceCard, b: ResourceCard, c: ResourceCard, d: ResourceCard) -> (r: Vec<
    ResourceCard,
>)
    ensures
        r@ == seq![a, b, c, d],
{
    let mut r: Vec<ResourceCard> = Vec::new();
    r.push(a);
    r.push(b);
    r.push(c);
    r.push(d);
    r
}

/// Builds a five-card cost list.
fn cost5(a: ResourceCard, b: ResourceCard, c: ResourceCard, d: ResourceCard, e: ResourceCard) -> (r:
    Vec<ResourceCard>)
    ensures
        r@ == seq![a, b, c, d, e],
{
    let mut r: Vec<ResourceCard> = Vec::new();
    r.push(a);
    r.push(b);
    r.push(c);
    r.push(d);
    r.push(e);
    r
}

/// The full static quest catalog, as a sequence of quest-card values.
pub open spec fn quest_catalog() -> Seq<QuestCardView> {
    seq![
        QuestCardView {
            name: "Tuna Sandwich"@,
            cost: seq![
                ResourceCard::Ingredient(IngredientKind::Fish),
                ResourceCard::Ingredient(IngredientKind::Wheat),
                ResourceCard::Ingredient(IngredientKind::Any),
            ],
            reward: 3,
        },
        QuestCardView {
            name: "Treehouse"@,
            cost: seq![
                ResourceCard::Material(MaterialKind::Bamboo),
                ResourceCard::Material(MaterialKind::Cotton),
                ResourceCard::Material(MaterialKind::Leaf),
                ResourceCard::Material(MaterialKind::Any),
            ],
            reward: 4,
        },
        QuestCardView {
            name: "Tiny Home"@,
            cost: seq![
                ResourceCard::Material(MaterialKind::Bamboo),
                ResourceCard::Material(MaterialKind::Silk),
                ResourceCard::Material(MaterialKind::Pebble),
                ResourceCard::Material(MaterialKind::Any),
            ],
            reward: 4,
        },
        QuestCardView {
            name: "Tent"@,
            cost: seq![
                ResourceCard::Material(MaterialKind::Bamboo),
                ResourceCard::Material(MaterialKind::Cotton),
                ResourceCard::Material(MaterialKind::Leaf),
                ResourceCard::Material(MaterialKind::Any),
            ],
            reward: 4,
        },
        QuestCardView {
            name: "Tea"@,
            cost: seq![
                ResourceCard::Ingredient(IngredientKind::Raindrop),
                ResourceCard::Ingredient(IngredientKind::Raindrop),
                ResourceCard::Material(MaterialKind::Leaf),
                ResourceCard::Ingredient(IngredientKind::Any),
            ],
            reward: 4,
        },
        QuestCardView {
            name: "Sweater"@,
            cost: seq![
                ResourceCard::Material(MaterialKind::Cotton),
                ResourceCard::Material(MaterialKind::Silk),
                ResourceCard::Material(MaterialKind::Any),
                ResourceCard::Material(MaterialKind::Any),
            ],
            reward: 3,
        },
        QuestCardView {
            name: "Sushi"@,
            cost: seq![
                ResourceCard::Ingredient(IngredientKind::Fish),
                ResourceCard::Ingredient(IngredientKind::Rice),
                ResourceCard::Ingredient(IngredientKind::Any),
            ],
            reward: 3,
        },
        QuestCardView {
            name: "Soup"@,
            cost: seq![
                ResourceCard::Ingredient(IngredientKind::Raindrop),
                ResourceCard::Ingredient(IngredientKind::Any),
                ResourceCard::Ingredient(IngredientKind::Any),
            ],
            reward: 2,
        },
        QuestCardView {
            name: "Snow Cone"@,
            cost: seq![
                ResourceCard::Material(MaterialKind::Snowball),
                ResourceCard::Material(MaterialKind::Snowball),
                ResourceCard::Ingredient(IngredientKind::Berries),
                ResourceCard::Ingredient(IngredientKind::Any),
            ],
            reward: 4,
        },
        QuestCardView {
            name: "Ramen"@,
            cost: seq![
                ResourceCard::Ingredient(IngredientKind::Raindrop),
                ResourceCard::Ingredient(IngredientKind::Wheat),
                ResourceCard::Ingredient(IngredientKind::Any),
            ],
            reward: 3,
        },
        QuestCardView {
            name: "Map"@,
            cost: seq![
                ResourceCard::Ingredient(IngredientKind::Rice),
                ResourceCard::Material(MaterialKind::Leaf),
                ResourceCard::Material(MaterialKind::Pebble),
                ResourceCard::Material(MaterialKind::Any),
            ],
            reward: 4,
        },
        QuestCardView {
            name: "Lean-To"@,
            cost: seq![
                ResourceCard::Material(MaterialKind::Bamboo),
                ResourceCard::Material(MaterialKind::Rope),
                ResourceCard::Material(MaterialKind::Pebble),
                ResourceCard::Material(MaterialKind::Any),
            ],
            reward: 4,
        },
        QuestCardView {
            name: "Igloo"@,
            cost: seq![
                ResourceCard::Material(MaterialKind::Snowball),
                ResourceCard::Material(MaterialKind::Snowball),
                ResourceCard::Material(MaterialKind::Cotton),
                ResourceCard::Material(MaterialKind::Any),
            ],
            reward: 4,
        },
        QuestCardView {
            name: "House Boat"@,
            cost: seq![
                ResourceCard::Material(MaterialKind::Silk),
                ResourceCard::Material(MaterialKind::Bamboo),
                ResourceCard::Material(MaterialKind::Leaf),
                ResourceCard::Material(MaterialKind::Any),
                ResourceCard::Material(MaterialKind::Any),
            ],
            reward: 5,
        },
        QuestCardView {
            name: "Hair Brush"@,
            cost: seq![
                ResourceCard::Material(MaterialKind::Rope),
                ResourceCard::Material(MaterialKind::Bamboo),
                ResourceCard::Material(MaterialKind::Any),
                ResourceCard::Material(MaterialKind::Any),
            ],
            reward: 3,
        },
        QuestCardView {
            name: "Fruit Salad"@,
            cost: seq![
                ResourceCard::Ingredient(IngredientKind::Berries),
                ResourceCard::Ingredient(IngredientKind::Berries),
                ResourceCard::Ingredient(IngredientKind::Any),
            ],
            reward: 3,
        },
        QuestCardView {
            name: "Fishing Rod"@,
            cost: seq![
                ResourceCard::Material(MaterialKind::Rope),
                ResourceCard::Material(MaterialKind::Bamboo),
                ResourceCard::Ingredient(IngredientKind::Any),
                ResourceCard::Ingredient(IngredientKind::Any),
            ],
            reward: 3,
        },
        QuestCardView {
            name: "Curry"@,
            cost: seq![
                ResourceCard::Ingredient(IngredientKind::Rice),
                ResourceCard::Ingredient(IngredientKind::Any),
                ResourceCard::Ingredient(IngredientKind::Any),
            ],
            reward: 2,
        },
        QuestCardView {
            name: "Cave Hotel"@,
            cost: seq![
                ResourceCard::Material(MaterialKind::Pebble),
                ResourceCard::Material(MaterialKind::Silk),
                ResourceCard::Material(MaterialKind::Leaf),
                ResourceCard::Material(MaterialKind::Any),
                ResourceCard::Material(MaterialKind::Any),
            ],
            reward: 5,
        },
        QuestCardView {
            name: "Castle"@,
            cost: seq![
                ResourceCard::Material(MaterialKind::Pebble),
                ResourceCard::Material(MaterialKind::Silk),
                ResourceCard::Material(MaterialKind::Rope),
                ResourceCard::Material(MaterialKind::Any),
            ],
            reward: 4,
        },
        QuestCardView {
            name: "Beary Pie"@,
            cost: seq![
                ResourceCard::Ingredient(IngredientKind::Berries),
                ResourceCard::Ingredient(IngredientKind::Wheat),
                ResourceCard::Ingredient(IngredientKind::Any),
            ],
            reward: 3,
        },
        QuestCardView {
            name: "Bao"@,
            cost: seq![
                ResourceCard::Ingredient(IngredientKind::Wheat),
                ResourceCard::Ingredient(IngredientKind::Any),
                ResourceCard::Ingredient(IngredientKind::Any),
            ],
            reward: 2,
        },
    ]
}

/// Loads the full static quest catalog.
#[verifier::rlimit(50)]
pub fn build_all_quests() -> (r: Vec<QuestCard>)
    ensures
        quest_views(r@) == quest_catalog(),
        r@.len() == 22,
{
    let mut r: Vec<QuestCard> = Vec::new();
    r.push(quest(
        "Tuna Sandwich",
        cost3(
            ResourceCard::Ingredient(IngredientKind::Fish),
            ResourceCard::Ingredient(IngredientKind::Wheat),
            ResourceCard::Ingredient(IngredientKind::Any),
        ),
        3,
    ));
    r.push(quest(
        "Treehouse",
        cost4(
            ResourceCard::Material(MaterialKind::Bamboo),
            ResourceCard::Material(MaterialKind::Cotton),
            ResourceCard::Material(MaterialKind::Leaf),
            ResourceCard::Material(MaterialKind::Any),
        ),
        4,
    ));
    r.push(quest(
        "Tiny Home",
        cost4(
            ResourceCard::Material(MaterialKind::Bamboo),
            ResourceCard::Material(MaterialKind::Silk),
            ResourceCard::Material(MaterialKind::Pebble),
            ResourceCard::Material(MaterialKind::Any),
        ),
        4,
    ));
    r.push(quest(
        "Tent",
        cost4(
            ResourceCard::Material(MaterialKind::Bamboo),
            ResourceCard::Material(MaterialKind::Cotton),
            ResourceCard::Material(MaterialKind::Leaf),
            ResourceCard::Material(MaterialKind::Any),
        ),
        4,
    ));
    r.push(quest(
        "Tea",
        cost4(
            ResourceCard::Ingredient(IngredientKind::Raindrop),
            ResourceCard::Ingredient(IngredientKind::Raindrop),
            ResourceCard::Material(MaterialKind::Leaf),
            ResourceCard::Ingredient(IngredientKind::Any),
        ),
        4,
    ));
    r.push(quest(
        "Sweater",
        cost4(
            ResourceCard::Material(MaterialKind::Cotton),
            ResourceCard::Material(MaterialKind::Silk),
            ResourceCard::Material(MaterialKind::Any),
            ResourceCard::Material(MaterialKind::Any),
        ),
        3,
    ));
    r.push(quest(
        "Sushi",
        cost3(
            ResourceCard::Ingredient(IngredientKind::Fish),
            ResourceCard::Ingredient(IngredientKind::Rice),
            ResourceCard::Ingredient(IngredientKind::Any),
        ),
        3,
    ));
    r.push(quest(
        "Soup",
        cost3(
            ResourceCard::Ingredient(IngredientKind::Raindrop),
            ResourceCard::Ingredient(IngredientKind::Any),
            ResourceCard::Ingredient(IngredientKind::Any),
        ),
        2,
    ));
    r.push(quest(
        "Snow Cone",
        cost4(
            ResourceCard::Material(MaterialKind::Snowball),
            ResourceCard::Material(MaterialKind::Snowball),
            ResourceCard::Ingredient(IngredientKind::Berries),
            ResourceCard::Ingredient(IngredientKind::Any),
        ),
        4,
    ));
    r.push(quest(
        "Ramen",
        cost3(
            ResourceCard::Ingredient(IngredientKind::Raindrop),
            ResourceCard::Ingredient(IngredientKind::Wheat),
            ResourceCard::Ingredient(IngredientKind::Any),
        ),
        3,
    ));
    r.push(quest(
        "Map",
        cost4(
            ResourceCard::Ingredient(IngredientKind::Rice),
            ResourceCard::Material(MaterialKind::Leaf),
            ResourceCard::Material(MaterialKind::Pebble),
            ResourceCard::Material(MaterialKind::Any),
        ),
        4,
    ));
    r.push(quest(
        "Lean-To",
        cost4(
            ResourceCard::Material(MaterialKind::Bamboo),
            ResourceCard::Material(MaterialKind::Rope),
            ResourceCard::Material(MaterialKind::Pebble),
            ResourceCard::Material(MaterialKind::Any),
        ),
        4,
    ));
    r.push(quest(
        "Igloo",
        cost4(
            ResourceCard::Material(MaterialKind::Snowball),
            ResourceCard::Material(MaterialKind::Snowball),
            ResourceCard::Material(MaterialKind::Cotton),
            ResourceCard::Material(MaterialKind::Any),
        ),
        4,
    ));
    r.push(quest(
        "House Boat",
        cost5(
            ResourceCard::Material(MaterialKind::Silk),
            ResourceCard::Material(MaterialKind::Bamboo),
            ResourceCard::Material(MaterialKind::Leaf),
            ResourceCard::Material(MaterialKind::Any),
            ResourceCard::Material(MaterialKind::Any),
        ),
        5,
    ));
    r.push(quest(
        "Hair Brush",
        cost4(
            ResourceCard::Material(MaterialKind::Rope),
            ResourceCard::Material(MaterialKind::Bamboo),
            ResourceCard::Material(MaterialKind::Any),
            ResourceCard::Material(MaterialKind::Any),
        ),
        3,
    ));
    r.push(quest(
        "Fruit Salad",
        cost3(
            ResourceCard::Ingredient(IngredientKind::Berries),
            ResourceCard::Ingredient(IngredientKind::Berries),
            ResourceCard::Ingredient(IngredientKind::Any),
        ),
        3,
    ));
    r.push(quest(
        "Fishing Rod",
        cost4(
            ResourceCard::Material(MaterialKind::Rope),
            ResourceCard::Material(MaterialKind::Bamboo),
            ResourceCard::Ingredient(IngredientKind::Any),
            ResourceCard::Ingredient(IngredientKind::Any),
        ),
        3,
    ));
    r.push(quest(
        "Curry",
        cost3(
            ResourceCard::Ingredient(IngredientKind::Rice),
            ResourceCard::Ingredient(IngredientKind::Any),
            ResourceCard::Ingredient(IngredientKind::Any),
        ),
        2,
    ));
    r.push(quest(
        "Cave Hotel",
        cost5(
            ResourceCard::Material(MaterialKind::Pebble),
            ResourceCard::Material(MaterialKind::Silk),
            ResourceCard::Material(MaterialKind::Leaf),
            ResourceCard::Material(MaterialKind::Any),
            ResourceCard::Material(MaterialKind::Any),
        ),
        5,
    ));
    r.push(quest(
        "Castle",
        cost4(
            ResourceCard::Material(MaterialKind::Pebble),
            ResourceCard::Material(MaterialKind::Silk),
            ResourceCard::Material(MaterialKind::Rope),
            ResourceCard::Material(MaterialKind::Any),
        ),
        4,
    ));
    r.push(quest(
        "Beary Pie",
        cost3(
            ResourceCard::Ingredient(IngredientKind::Berries),
            ResourceCard::Ingredient(IngredientKind::Wheat),
            ResourceCard::Ingredient(IngredientKind::Any),
        ),
        3,
    ));
    r.push(quest(
        "Bao",
        cost3(
            ResourceCard::Ingredient(IngredientKind::Wheat),
            ResourceCard::Ingredient(IngredientKind::Any),
            ResourceCard::Ingredient(IngredientKind::Any),
        ),
        2,
    ));
    proof {
        assert(quest_views(r@) =~= quest_catalog());
    }
    r
}

/// A sequence holding `count` copies of one card.
pub open spec fn repeat_card(card: ResourceCard, count: nat) -> Seq<ResourceCard> {
    Seq::new(count, |i: int| card)
}

/// The full static resource catalog: a fixed multiset of resource cards
/// with hardcoded per-kind counts, as a sequence.
pub open spec fn resource_catalog() -> Seq<ResourceCard> {
    repeat_card(ResourceCard::Ingredient(IngredientKind::Fish), 6)
        + repeat_card(ResourceCard::Ingredient(IngredientKind::Berries), 8)
        + repeat_card(ResourceCard::Ingredient(IngredientKind::Wheat), 8)
        + repeat_card(ResourceCard::Ingredient(IngredientKind::Rice), 6)
        + repeat_card(ResourceCard::Ingredient(IngredientKind::Raindrop), 8)
        + repeat_card(ResourceCard::Material(MaterialKind::Snowball), 8)
        + repeat_card(ResourceCard::Material(MaterialKind::Cotton), 8)
        + repeat_card(ResourceCard::Material(MaterialKind::Bamboo), 11)
        + repeat_card(ResourceCard::Material(MaterialKind::Rope), 9)
        + repeat_card(ResourceCard::Material(MaterialKind::Leaf), 9)
        + repeat_card(ResourceCard::Material(MaterialKind::Silk), 8)
        + repeat_card(ResourceCard::Material(MaterialKind::Pebble), 11)
        + repeat_card(ResourceCard::Fortune(FortuneKind::BeeAttack), 4)
        + repeat_card(ResourceCard::Fortune(FortuneKind::Picnic), 4)
        + repeat_card(ResourceCard::Fortune(FortuneKind::Avalanche), 4)
        + repeat_card(ResourceCard::Fortune(FortuneKind::Wildfire), 3)
        + repeat_card(ResourceCard::Fortune(FortuneKind::Hibernation), 3)
        + repeat_card(ResourceCard::Fortune(FortuneKind::BearHug), 3)
        + repeat_card(ResourceCard::Fortune(FortuneKind::Bearglar), 2)
        + repeat_card(ResourceCard::Fortune(FortuneKind::Famine), 2)
}

/// Appends `count` copies of `card`.
fn push_copies(resources: &mut Vec<ResourceCard>, card: ResourceCard, count: usize)
    ensures
        final(resources)@ == old(resources)@ + repeat_card(card, count as nat),
{
    proof {
        assert(resources@ =~= resources@ + repeat_card(card, 0));
    }
    for i in 0..count
        invariant
            resources@ == old(resources)@ + repeat_card(card, i as nat),
    {
        resources.push(card);
        proof {
            assert(old(resources)@ + repeat_card(card, (i + 1) as nat) =~= (old(resources)@
                + repeat_card(card, i as nat)).push(card));
        }
    }
}

/// Loads the full static resource catalog.
pub fn build_all_resources() -> (r: Vec<ResourceCard>)
    ensures
        r@ == resource_catalog(),
        r@.len() == 125,
{
    let mut resources: Vec<ResourceCard> = Vec::new();
    push_copies(&mut resources, ResourceCard::Ingredient(IngredientKind::Fish), 6);
    push_copies(&mut resources, ResourceCard::Ingredient(IngredientKind::Berries), 8);
    push_copies(&mut resources, ResourceCard::Ingredient(IngredientKind::Wheat), 8);
    push_copies(&mut resources, ResourceCard::Ingredient(IngredientKind::Rice), 6);
    push_copies(&mut resources, ResourceCard::Ingredient(IngredientKind::Raindrop), 8);
    push_copies(&mut resources, ResourceCard::Material(MaterialKind::Snowball), 8);
    push_copies(&mut resources, ResourceCard::Material(MaterialKind::Cotton), 8);
    push_copies(&mut resources, ResourceCard::Material(MaterialKind::Bamboo), 11);
    push_copies(&mut resources, ResourceCard::Material(MaterialKind::Rope), 9);
    push_copies(&mut resources, ResourceCard::Material(MaterialKind::Leaf), 9);
    push_copies(&mut resources, ResourceCard::Material(MaterialKind::Silk), 8);
    push_copies(&mut resources, ResourceCard::Material(MaterialKind::Pebble), 11);
    push_copies(&mut resources, ResourceCard::Fortune(FortuneKind::BeeAttack), 4);
    push_copies(&mut resources, ResourceCard::Fortune(FortuneKind::Picnic), 4);
    push_copies(&mut resources, ResourceCard::Fortune(FortuneKind::Avalanche), 4);
    push_copies(&mut resources, ResourceCard::Fortune(FortuneKind::Wildfire), 3);
    push_copies(&mut resources, ResourceCard::Fortune(FortuneKind::Hibernation), 3);
    push_copies(&mut resources, ResourceCard::Fortune(FortuneKind::BearHug), 3);
    push_copies(&mut resources, ResourceCard::Fortune(FortuneKind::Bearglar), 2);
    push_copies(&mut resources, ResourceCard::Fortune(FortuneKind::Famine), 2);
    proof {
        assert(resources@ =~= resource_catalog());
    }
    resources
}

/// The six bear identities, one of which is assigned to each player.
pub open spec fn bear_catalog() -> Seq<BearCard> {
    seq![
        BearCard::PolarBear,
        BearCard::Panda,
        BearCard::SlothBear,
        BearCard::SpectacledBear,
        BearCard::GrizzlyBear,
        BearCard::SunBear,
    ]
}

/// Loads the six distinct bear identities.
pub fn build_all_bears() -> (r: Vec<BearCard>)
    ensures
        r@ == bear_catalog(),
        r@.len() == 6,
{
    let mut r: Vec<BearCard> = Vec::new();
    r.push(BearCard::PolarBear);
    r.push(BearCard::Panda);
    r.push(BearCard::SlothBear);
    r.push(BearCard::SpectacledBear);
    r.push(BearCard::GrizzlyBear);
    r.push(BearCard::SunBear);
    proof {
        assert(r@ =~= bear_catalog());
    }
    r
}

} // verus!
