use tbge::card_of;
use tbge::Act;
use tbge::Card;
use tbge::Deck;
use tbge::EngineError;
use tbge::Hit;
use tbge::Move;
use tbge::Nothing;
use tbge::Pop;
use tbge::Push;
use tbge::State;
use tbge::Suit;

fn spade(value: u8) -> Card {
    Card { suit: Suit::Spades, value }
}

fn empty_hit_on(stack: Deck) -> Hit {
    Hit {
        deck1: Deck::new(),
        deck2: Deck::new(),
        deck3: Deck::new(),
        deck4: Deck::new(),
        stack,
    }
}

#[test]
fn push_pop_inverse() {
    let c = Card { suit: Suit::Hearts, value: 7 };
    let d = Deck::new().push(spade(1)).push(spade(2));
    let before = d.cards().clone();
    let Push { card, on } = d.push(c).pop();
    assert_eq!(card, c);
    assert_eq!(on.cards(), &before);
}

#[test]
fn pop_effect_removes_top() {
    let d = Deck::new().push(spade(1)).push(spade(2));
    let after = Act::Pop(Pop { state: d }).effect().unwrap();
    assert_eq!(after.cards(), &vec![spade(1)]);
}

#[test]
fn pop_effect_on_empty_deck_fails() {
    let r = Act::Pop(Pop { state: Deck::new() }).effect();
    match r {
        Err(e) => assert_eq!(e, EngineError::EmptyResource),
        Ok(_) => panic!("popping an empty deck must fail"),
    }
}

#[test]
fn push_effect_appends() {
    let c = Card { suit: Suit::Diamonds, value: 12 };
    let d = Deck::new().push(spade(1));
    let after = Act::Push(Push { card: c, on: d }).effect().unwrap();
    assert_eq!(after.cards(), &vec![spade(1), c]);
}

#[test]
fn nothing_effect_is_identity() {
    let d = Deck::new().push(spade(1)).push(spade(2)).push(spade(3));
    let before = d.cards().clone();
    let after = Act::Nothing(Nothing { state: d }).effect().unwrap();
    assert_eq!(after.cards(), &before);
}

#[test]
fn diff_of_equal_decks_is_nothing() {
    let d = Deck::new().push(spade(1)).push(spade(2));
    match d.clone().diff(&d) {
        Act::Nothing(a) => assert_eq!(a.state.cards(), d.cards()),
        _ => panic!("diff of a deck against itself must be the no-op act"),
    }
}

#[test]
fn diff_against_longer_deck_is_pop() {
    let d = Deck::new().push(spade(1));
    let longer = Deck::new().push(spade(1)).push(spade(2));
    match d.diff(&longer) {
        Act::Pop(a) => assert_eq!(a.state.cards(), &vec![spade(1)]),
        _ => panic!("diff against a longer deck must be a pop"),
    }
}

#[test]
fn diff_otherwise_is_push_of_others_top() {
    let d = Deck::new().push(spade(1)).push(spade(2));
    let other = Deck::new().push(Card { suit: Suit::Clubs, value: 4 });
    match d.diff(&other) {
        Act::Push(a) => {
            assert_eq!(a.card, Card { suit: Suit::Clubs, value: 4 });
            assert_eq!(a.on.cards(), &vec![spade(1), spade(2)]);
        }
        _ => panic!("diff must be a push of the other deck's top card"),
    }
}

#[test]
fn deal_distributes_top_four_in_order() {
    let king = Card { suit: Suit::Spades, value: 13 };
    let queen = Card { suit: Suit::Hearts, value: 12 };
    let jack = Card { suit: Suit::Clubs, value: 11 };
    let ten = Card { suit: Suit::Diamonds, value: 10 };
    let stack = Deck::new().push(king).push(queen).push(jack).push(ten);
    let acts = empty_hit_on(stack).into_acts().unwrap();
    assert_eq!(acts.len(), 5);
    let mut dealt = Vec::new();
    for act in acts {
        dealt.push(act.effect().unwrap());
    }
    assert_eq!(dealt[0].cards(), &vec![ten]);
    assert_eq!(dealt[1].cards(), &vec![jack]);
    assert_eq!(dealt[2].cards(), &vec![queen]);
    assert_eq!(dealt[3].cards(), &vec![king]);
    assert_eq!(dealt[4].cards(), &Vec::new());
}

#[test]
fn deal_of_five_spades_scenario() {
    let stack = Deck::new()
        .push(spade(1))
        .push(spade(2))
        .push(spade(3))
        .push(spade(4))
        .push(spade(5));
    let acts = empty_hit_on(stack).into_acts().unwrap();
    let mut dealt = Vec::new();
    for act in acts {
        dealt.push(act.effect().unwrap());
    }
    assert_eq!(dealt[0].cards(), &vec![spade(5)]);
    assert_eq!(dealt[1].cards(), &vec![spade(4)]);
    assert_eq!(dealt[2].cards(), &vec![spade(3)]);
    assert_eq!(dealt[3].cards(), &vec![spade(2)]);
    assert_eq!(dealt[4].cards(), &vec![spade(1)]);
}

#[test]
fn deal_from_short_stack_fails_atomically() {
    let stack = Deck::new().push(spade(1)).push(spade(2)).push(spade(3));
    let target = Deck::new().push(spade(9));
    let hit = Hit {
        deck1: target,
        deck2: Deck::new(),
        deck3: Deck::new(),
        deck4: Deck::new(),
        stack,
    };
    match hit.into_acts() {
        Err((e, back)) => {
            assert_eq!(e, EngineError::InsufficientResources);
            assert_eq!(back.stack.cards(), &vec![spade(1), spade(2), spade(3)]);
            assert_eq!(back.deck1.cards(), &vec![spade(9)]);
            assert_eq!(back.deck2.cards(), &Vec::new());
            assert_eq!(back.deck3.cards(), &Vec::new());
            assert_eq!(back.deck4.cards(), &Vec::new());
        }
        Ok(_) => panic!("a deal from fewer than four cards must fail"),
    }
}

#[test]
fn move_trait_hands_the_hit_back_on_failure() {
    let stack = Deck::new().push(spade(1));
    match empty_hit_on(stack).acts() {
        Err((e, back)) => {
            assert_eq!(e, EngineError::InsufficientResources);
            assert_eq!(back.stack.cards(), &vec![spade(1)]);
        }
        Ok(_) => panic!("one card cannot cover a four-way deal"),
    }
}

#[test]
fn move_trait_produces_the_deal() {
    let stack = Deck::new()
        .push(spade(1))
        .push(spade(2))
        .push(spade(3))
        .push(spade(4));
    let acts = empty_hit_on(stack).acts().unwrap();
    assert_eq!(acts.len(), 5);
}

#[test]
fn new_and_with_capacity_are_empty() {
    assert_eq!(Deck::new().len(), 0);
    assert_eq!(Deck::with_capacity(7).len(), 0);
    assert_eq!(Deck::with_capacity(0).len(), 0);
}

#[test]
fn same_cards_compares_order_and_content() {
    let a = Deck::new().push(spade(1)).push(spade(2));
    let b = Deck::new().push(spade(1)).push(spade(2));
    let c = Deck::new().push(spade(2)).push(spade(1));
    assert!(a.same_cards(&b));
    assert!(!a.same_cards(&c));
    assert!(!a.same_cards(&Deck::new()));
}

#[test]
fn card_of_maps_pack_indices() {
    assert_eq!(card_of(0), Card { suit: Suit::Spades, value: 1 });
    assert_eq!(card_of(12), Card { suit: Suit::Spades, value: 13 });
    assert_eq!(card_of(13), Card { suit: Suit::Hearts, value: 1 });
    assert_eq!(card_of(26), Card { suit: Suit::Clubs, value: 1 });
    assert_eq!(card_of(39), Card { suit: Suit::Diamonds, value: 1 });
    assert_eq!(card_of(51), Card { suit: Suit::Diamonds, value: 13 });
}

#[test]
fn default_card_is_ace_of_clubs() {
    assert_eq!(Card::default(), Card { suit: Suit::Clubs, value: 1 });
}

/// Try a handful of step sources until the provider yields a pack; the
/// provider is free to fail on a source it finds too regular.
fn some_shuffled_pack() -> Deck {
    let seeds: [(u64, u64); 4] = [
        (0, 0x9E3779B97F4A7C15),
        (1, 0x9E3779B97F4A7C15),
        (0, 0xBF58476D1CE4E5B9),
        (0xA5A5A5A5A5A5A5A5, 0x0101010101010101),
    ];
    for _ in 0..8 {
        for (a, b) in seeds {
            let mut rng = rand::rngs::mock::StepRng::new(a, b);
            if let Ok(d) = Deck::shuffled_with(&mut rng) {
                return d;
            }
        }
    }
    panic!("no step source yielded a full pack");
}

#[test]
fn shuffled_deck_is_a_complete_pack() {
    let d = some_shuffled_pack();
    assert_eq!(d.len(), 52);
    for i in 0..52u8 {
        let c = card_of(i);
        let count = d.cards().iter().filter(|x| **x == c).count();
        assert_eq!(count, 1, "the pack must hold each card exactly once");
    }
    assert!(d.cards().iter().all(|c| c.suit != Suit::Joker));
}

#[test]
fn shuffled_deck_is_rearranged() {
    let d = some_shuffled_pack();
    let standard: Vec<Card> = (0..52u8).map(card_of).collect();
    assert_ne!(d.cards(), &standard);
}

#[test]
fn new_shuffled_reports_failure_or_a_complete_pack() {
    match Deck::new_shuffled() {
        Ok(d) => {
            assert_eq!(d.len(), 52);
            for i in 0..52u8 {
                let c = card_of(i);
                let count = d.cards().iter().filter(|x| **x == c).count();
                assert_eq!(count, 1);
            }
        }
        Err(e) => assert_eq!(e, EngineError::ShuffleFailure),
    }
}

#[test]
fn law_push_pop_roundtrip() {
    let d = Deck::new().push(spade(8));
    let c = Card { suit: Suit::Hearts, value: 3 };
    let r = tbge::push_pop_roundtrip(d, c);
    assert_eq!(r.card, c);
    assert_eq!(r.on.cards(), &vec![spade(8)]);
}

#[test]
fn law_nothing_effect_identity() {
    let d = Deck::new().push(spade(4)).push(spade(6));
    let r = tbge::nothing_effect_identity(d);
    assert_eq!(r.cards(), &vec![spade(4), spade(6)]);
}

#[test]
fn law_clone_diff_is_nothing() {
    let d = Deck::new().push(spade(10)).push(spade(11));
    match tbge::clone_diff_is_nothing(&d) {
        Act::Nothing(a) => assert_eq!(a.state.cards(), d.cards()),
        _ => panic!("self-diff must be the no-op act"),
    }
}
