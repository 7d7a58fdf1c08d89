use simulation::agents::{
    Agent, Arbitrageur, BlockAdmin, LiquidityProvider, PriceChanger, TokenAdmin, WeightChanger,
};
use simulation::errors::SimulationError;
use simulation::ledger::{EventKind, EventSource, LedgerState};
use simulation::recorder::{EventRecorder, Subscription};
use simulation::scheduler::{RunState, Simulation};
use simulation::trajectory::Trajectory;

fn both_subscriptions() -> Vec<Subscription> {
    vec![
        Subscription { label: "lex".to_string(), source: EventSource::Lex },
        Subscription { label: "g3m".to_string(), source: EventSource::Pool },
    ]
}

fn build_sim(path: Vec<i64>, update_frequency: u64) -> Simulation {
    let num_steps = path.len() - 1;
    let initial_price = path[0];
    let trajectory = Trajectory { paths: vec![path] };
    Simulation::new(
        num_steps,
        BlockAdmin::new(15),
        TokenAdmin::new(1_000_000_000, 1_000_000_000),
        PriceChanger::new(trajectory),
        LiquidityProvider::new(1_000_000, initial_price),
        Arbitrageur::new(0),
        WeightChanger::new(150_000, update_frequency, initial_price),
        LedgerState::new(initial_price, 30, 500_000),
        EventRecorder::new(both_subscriptions()),
    )
}

#[test]
fn trajectory_consumed_by_exactly_num_steps_ticks() {
    let mut sim = build_sim(vec![1_000_000, 1_100_000, 1_200_000, 1_300_000], 150);
    assert!(sim.initialize().is_ok());
    assert_eq!(sim.state, RunState::Stepping);
    for _ in 0..3 {
        assert!(sim.tick().is_ok());
    }
    assert_eq!(sim.state, RunState::Completed);
    // The path of four points is fully consumed: the cursor stands one
    // past the last index.
    assert_eq!(sim.price_changer.index, 4);
    assert_eq!(sim.price_changer.trajectory.paths[0].len(), 4);
    // One tick more than the trajectory affords is an engine bug.
    match sim.tick() {
        Err(e) => assert_eq!(e, SimulationError::Schedule),
        Ok(_) => panic!("a tick past the end was accepted"),
    }
}

#[test]
fn rebalance_happens_on_cadence_only() {
    let path = vec![
        1_000_000, 1_050_000, 1_100_000, 1_150_000, 1_200_000, 1_250_000, 1_300_000,
    ];
    let mut sim = build_sim(path, 2);
    sim.initialize().unwrap();
    while sim.state == RunState::Stepping {
        sim.tick().unwrap();
    }
    let events = sim.flush_events().unwrap();
    let rebalance_steps: Vec<u64> = events
        .iter()
        .filter(|e| matches!(e.event.kind, EventKind::WeightUpdate(_)))
        .map(|e| e.step)
        .collect();
    // update_frequency = 2 over six ticks: rebalances on ticks 2, 4, 6.
    assert_eq!(rebalance_steps, vec![2, 4, 6]);
    let price_steps: Vec<u64> = events
        .iter()
        .filter(|e| matches!(e.event.kind, EventKind::PriceUpdate(_)))
        .map(|e| e.step)
        .collect();
    assert_eq!(price_steps, vec![1, 2, 3, 4, 5, 6]);
}

#[test]
fn rebalance_weight_follows_the_formula() {
    // Price moves 1.0 -> 1.5: relative move 0.5. Target volatility 0.15
    // over weight 0.5 scales the weight to 0.5 * (0.15 / 0.5) = 0.15.
    let mut sim = build_sim(vec![1_000_000, 1_500_000], 1);
    sim.initialize().unwrap();
    sim.tick().unwrap();
    assert_eq!(sim.ledger.pool.weight_x, 150_000);
    let events = sim.flush_events().unwrap();
    let weights: Vec<i64> = events
        .iter()
        .filter_map(|e| match e.event.kind {
            EventKind::WeightUpdate(w) => Some(w),
            _ => None,
        })
        .collect();
    assert_eq!(weights, vec![150_000]);
}

#[test]
fn arbitrage_closes_the_gap_after_the_price_moves() {
    let mut sim = build_sim(vec![1_000_000, 1_500_000, 1_200_000], 150);
    sim.initialize().unwrap();
    assert_eq!(sim.ledger.pool.spot_price, 1_000_000);
    sim.tick().unwrap();
    // The arbitrageur reacts to the new price within the same tick.
    assert_eq!(sim.ledger.oracle_price, 1_500_000);
    assert_eq!(sim.ledger.pool.spot_price, 1_500_000);
    sim.tick().unwrap();
    assert_eq!(sim.ledger.pool.spot_price, 1_200_000);
}

#[test]
fn tick_order_is_price_then_swap_then_weights() {
    let mut sim = build_sim(vec![1_000_000, 1_500_000], 1);
    sim.initialize().unwrap();
    sim.tick().unwrap();
    let events = sim.flush_events().unwrap();
    // The liquidity seeding from initialization drains first, then the
    // tick's events in emission order.
    assert_eq!(events.len(), 4);
    assert!(matches!(events[0].event.kind, EventKind::LiquidityAdded(1_000_000, 1_000_000)));
    assert_eq!(events[0].label, "g3m");
    assert_eq!(events[0].step, 1);
    assert!(matches!(events[1].event.kind, EventKind::PriceUpdate(1_500_000)));
    assert_eq!(events[1].label, "lex");
    assert!(matches!(events[2].event.kind, EventKind::Swap(1_000_000, 1_500_000)));
    assert_eq!(events[2].label, "g3m");
    assert!(matches!(events[3].event.kind, EventKind::WeightUpdate(150_000)));
    assert_eq!(events[3].label, "g3m");
    assert_eq!(events[3].event.block, 1);
}

#[test]
fn block_clock_advances_every_tick() {
    let mut sim = build_sim(vec![1_000_000, 1_100_000, 1_200_000], 150);
    sim.initialize().unwrap();
    sim.tick().unwrap();
    assert_eq!(sim.ledger.block.number, 1);
    assert_eq!(sim.ledger.block.timestamp, 15);
    sim.tick().unwrap();
    assert_eq!(sim.ledger.block.number, 2);
    assert_eq!(sim.ledger.block.timestamp, 30);
}

#[test]
fn unsubscribed_events_are_not_captured() {
    let path = vec![1_000_000, 1_500_000];
    let trajectory = Trajectory { paths: vec![path] };
    let lex_only = vec![Subscription { label: "lex".to_string(), source: EventSource::Lex }];
    let mut sim = Simulation::new(
        1,
        BlockAdmin::new(15),
        TokenAdmin::new(0, 0),
        PriceChanger::new(trajectory),
        LiquidityProvider::new(1_000_000, 1_000_000),
        Arbitrageur::new(0),
        WeightChanger::new(150_000, 1, 1_000_000),
        LedgerState::new(1_000_000, 30, 500_000),
        EventRecorder::new(lex_only),
    );
    sim.initialize().unwrap();
    sim.tick().unwrap();
    let events = sim.flush_events().unwrap();
    // Only the oracle's price update is subscribed; the pool's
    // liquidity, swap and weight events are skipped.
    assert_eq!(events.len(), 1);
    assert!(matches!(events[0].event.kind, EventKind::PriceUpdate(1_500_000)));
    assert_eq!(events[0].label, "lex");
}

#[test]
fn flushing_twice_is_a_recorder_error() {
    let mut sim = build_sim(vec![1_000_000, 1_100_000], 150);
    sim.initialize().unwrap();
    sim.tick().unwrap();
    assert!(sim.flush_events().is_ok());
    match sim.flush_events() {
        Err(e) => assert_eq!(e, SimulationError::Recorder),
        Ok(_) => panic!("a second flush was accepted"),
    }
}

#[test]
fn abort_marks_the_run_failed_and_flushes() {
    let mut sim = build_sim(vec![1_000_000, 1_100_000, 1_200_000], 150);
    sim.initialize().unwrap();
    sim.tick().unwrap();
    let events = sim.abort().unwrap();
    assert_eq!(sim.state, RunState::Failed);
    // The log captured up to the last completed tick survives.
    assert!(events.iter().any(|e| e.step == 1));
    match sim.tick() {
        Err(e) => assert_eq!(e, SimulationError::Schedule),
        Ok(_) => panic!("a tick after aborting was accepted"),
    }
}

#[test]
fn run_drives_to_completion() {
    let mut sim = build_sim(vec![1_000_000, 1_100_000, 1_200_000, 1_150_000, 1_050_000], 2);
    assert!(sim.run().is_ok());
    assert_eq!(sim.state, RunState::Completed);
    assert_eq!(sim.tick, 4);
    // The oracle ends on the trajectory's last point.
    assert_eq!(sim.ledger.oracle_price, 1_050_000);
}

#[test]
fn agent_enum_dispatches_through_one_match() {
    let mut ledger = LedgerState::new(1_000_000, 30, 500_000);
    let mut admin = Agent::BlockAdmin(BlockAdmin::new(12));
    assert!(admin.init(&mut ledger).is_ok());
    assert!(admin.step(&mut ledger).is_ok());
    assert_eq!(ledger.block.number, 1);
    assert_eq!(ledger.block.timestamp, 12);

    let mut funder = Agent::TokenAdmin(TokenAdmin::new(5, 7));
    assert!(funder.init(&mut ledger).is_ok());
    assert_eq!(ledger.balance_x, 5);
    assert_eq!(ledger.balance_y, 7);

    let trajectory = Trajectory { paths: vec![vec![1_000_000, 1_250_000]] };
    let mut changer = Agent::PriceChanger(PriceChanger::new(trajectory));
    assert!(changer.init(&mut ledger).is_ok());
    assert!(changer.step(&mut ledger).is_ok());
    assert_eq!(ledger.oracle_price, 1_250_000);
    // The trajectory is exhausted: one more step is an engine bug.
    match changer.step(&mut ledger) {
        Err(e) => assert_eq!(e, SimulationError::Schedule),
        Ok(_) => panic!("a step past the end was accepted"),
    }
}
