use std::collections::HashMap;

use group_order::control::action::add_item::AddItem;
use group_order::control::action::arrived::Arrived;
use group_order::control::action::cancel::Cancel;
use group_order::control::action::finalize::Finalize;
use group_order::control::action::help::Help;
use group_order::control::action::start_order::StartOrder;
use group_order::control::action::{Action, ReducerError};
use group_order::control::menu::MenuItem;
use group_order::control::state::{MachineState, State};
use group_order::control::store::{Step, Store};
use group_order::control::user::User;

/// A session kept in the plainest way: a phase and a map of vectors.
struct Plain {
    phase: MachineState,
    orders: HashMap<String, Vec<MenuItem>>,
}

enum Refusal {
    Transition,
    Data,
}

impl Plain {
    fn apply(&mut self, action: &Action) -> Result<(), Refusal> {
        match action {
            Action::StartOrder(_) => {
                if self.phase != MachineState::Idle {
                    return Err(Refusal::Transition);
                }
                self.phase = MachineState::TakeOrders;
            }
            Action::AddItem(add) => {
                if self.phase != MachineState::TakeOrders {
                    return Err(Refusal::Transition);
                }
                self.orders.entry(add.user.to_string()).or_default().push(add.menu_item.clone());
            }
            Action::Finalize(_) => {
                if self.phase != MachineState::TakeOrders {
                    return Err(Refusal::Transition);
                }
                if self.orders.is_empty() {
                    return Err(Refusal::Data);
                }
                self.phase = MachineState::Ordered;
            }
            Action::Cancel(cancel) => {
                if self.phase != MachineState::TakeOrders {
                    return Err(Refusal::Transition);
                }
                match &cancel.user {
                    Some(user) => {
                        self.orders.remove(&user.to_string());
                    }
                    None => {
                        self.orders.clear();
                        self.phase = MachineState::Idle;
                    }
                }
            }
            Action::Arrived(_) => {
                if self.phase != MachineState::Ordered {
                    return Err(Refusal::Transition);
                }
                self.phase = MachineState::Idle;
            }
            Action::Help(_) => {}
        }
        Ok(())
    }

    fn agrees_with(&self, state: &State) -> bool {
        let participants = state.participants();
        if state.machine_state() != self.phase || participants.len() != self.orders.len() {
            return false;
        }
        if state.is_empty() != self.orders.is_empty() {
            return false;
        }
        participants.iter().all(|user| {
            let lines = state.orders_of(user).unwrap();
            let items: Vec<MenuItem> = lines.iter().map(|line| line.menu_item.clone()).collect();
            lines.iter().all(|line| line.user == *user && !line.paid)
                && self.orders.get(user.name()) == Some(&items)
        })
    }
}

struct Dice {
    seed: u64,
}

impl Dice {
    fn roll(&mut self, sides: u64) -> u64 {
        self.seed = self.seed.wrapping_mul(6364136223846793005).wrapping_add(1442695040888963407);
        (self.seed >> 33) % sides
    }

    fn user(&mut self) -> User {
        let names = ["alice", "bob", "carol", "dave"];
        User::new(names[self.roll(4) as usize].to_string())
    }

    fn action(&mut self) -> Action {
        match self.roll(12) {
            0 => Action::StartOrder(StartOrder {}),
            1..=5 => {
                let id = self.roll(3) as i32;
                Action::AddItem(AddItem {
                    user: self.user(),
                    menu_item: MenuItem {
                        id,
                        short_name: format!("M{}", id),
                        name: format!("meal {}", id),
                        price: 100 * id + 50,
                    },
                })
            }
            6 => Action::Finalize(Finalize {}),
            7 | 8 => Action::Cancel(Cancel { user: Some(self.user()) }),
            9 => Action::Cancel(Cancel { user: None }),
            10 => Action::Arrived(Arrived {}),
            _ => Action::Help(Help {}),
        }
    }
}

#[test]
fn the_store_agrees_with_a_map_of_vectors() {
    for seed in 0..40 {
        let mut dice = Dice { seed };
        let mut plain = Plain { phase: MachineState::Idle, orders: HashMap::new() };
        let mut store: Store<u8> = Store::new(State::new());
        for _ in 0..200 {
            let action = dice.action();
            let expected = plain.apply(&action);
            match (store.listen(Some(action)), expected) {
                (Step::Committed { state, .. }, Ok(())) => assert!(plain.agrees_with(&state)),
                (Step::Rejected { error }, Err(Refusal::Transition)) => {
                    assert!(matches!(error, ReducerError::InvalidTransition { .. }))
                }
                (Step::Rejected { error }, Err(Refusal::Data)) => {
                    assert!(matches!(error, ReducerError::InvalidState { .. }))
                }
                (step, _) => panic!("the store and the plain session differ: {:?}", step),
            }
            let snapshot = store.get_state_snapshot();
            assert!(plain.agrees_with(&snapshot));
            if snapshot.machine_state() == MachineState::Ordered {
                assert!(!snapshot.is_empty());
            }
        }
    }
}

fn phase_of(state: &State) -> String {
    state.machine_state().name().to_string()
}

fn participants_of(state: &State) -> String {
    state.participants().iter().map(|user| user.to_string()).collect::<Vec<String>>().join(",")
}

#[test]
fn effects_can_be_functions_of_the_snapshot() {
    let mut store: Store<fn(&State) -> String> = Store::new(State::new());
    store.register_effect(phase_of, group_order::control::action::ActionKind::AddItem);
    store.register_effect(participants_of, group_order::control::action::ActionKind::AddItem);
    store.register_effect(phase_of, group_order::control::action::ActionKind::Help);
    store.listen(Some(Action::StartOrder(StartOrder {})));
    let add = Action::AddItem(AddItem {
        user: User::new("alice".to_string()),
        menu_item: MenuItem {
            id: 1,
            short_name: "PIZ".to_string(),
            name: "pizza".to_string(),
            price: 850,
        },
    });
    match store.listen(Some(add)) {
        Step::Committed { state, effects } => {
            let shown: Vec<String> = effects.iter().map(|effect| effect(&state)).collect();
            assert_eq!(shown, vec!["TakeOrders".to_string(), "alice".to_string()]);
        }
        step => panic!("not committed: {:?}", step),
    }
    match store.listen(Some(Action::Help(Help {}))) {
        Step::Committed { state, effects } => {
            let shown: Vec<String> = effects.iter().map(|effect| effect(&state)).collect();
            assert_eq!(shown, vec!["TakeOrders".to_string()]);
        }
        step => panic!("not committed: {:?}", step),
    }
}
