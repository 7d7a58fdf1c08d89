use simulation::forms::Widget;
use simulation::portfolio::{Portfolio, Position, StaticCoin, Targetable};
use simulation::rpc::{Feedback, Form, Message, RPCList, RPCValue, RpcManagement};

fn endpoint(name: &str, chain_id: u64, url: &str) -> RPCValue {
    RPCValue { name: name.to_string(), chain_id, url: url.to_string() }
}

fn seeded_management() -> RpcManagement {
    let mut storage = RPCList::new();
    storage.add(endpoint("mainnet", 1, "https://rpc.example/main"));
    storage.add(endpoint("testnet", 5, "https://rpc.example/test"));
    RpcManagement::new(storage)
}

#[test]
fn chain_packet_requires_an_open_form() {
    let management = seeded_management();
    match management.get_chain_packet() {
        Err(e) => assert_eq!(e, "No form fields updated!"),
        Ok(_) => panic!("a packet came from a closed form"),
    }
}

#[test]
fn chain_packet_requires_every_field() {
    let mut management = seeded_management();
    management.update(Message::AddRpc);
    management.update(Message::ChangeName(Some("local".to_string())));
    match management.get_chain_packet() {
        Err(e) => assert_eq!(e, "No form fields updated!"),
        Ok(_) => panic!("a packet came from a half-filled form"),
    }
}

#[test]
fn chain_packet_requires_a_numeric_chain_id() {
    let mut management = seeded_management();
    management.chain_packet = Some(Form {
        name: Some("local".to_string()),
        chain_id: Some("thirty-one".to_string()),
        url: Some("http://localhost".to_string()),
    });
    match management.get_chain_packet() {
        Err(e) => assert_eq!(e, "Chain ID must be a number!"),
        Ok(_) => panic!("a packet came from a non-numeric chain id"),
    }
}

#[test]
fn chain_packet_builds_from_a_complete_form() {
    let mut management = seeded_management();
    management.update(Message::AddRpc);
    management.update(Message::ChangeName(Some("local".to_string())));
    management.update(Message::ChangeChainId(Some("31337".to_string())));
    management.update(Message::ChangeUrl(Some("http://localhost".to_string())));
    let packet = management.get_chain_packet().unwrap();
    assert_eq!(packet.name, "local");
    assert_eq!(packet.chain_id, 31337);
    assert_eq!(packet.url, "http://localhost");
}

#[test]
fn selecting_and_deleting_endpoints() {
    let mut management = seeded_management();
    management.update(Message::SelectedRPC(true, Some("mainnet".to_string())));
    assert_eq!(management.selected_rpcs.len(), 1);
    // Unticking removes the entry again.
    management.update(Message::SelectedRPC(false, Some("mainnet".to_string())));
    assert_eq!(management.selected_rpcs.len(), 0);
    management.update(Message::SelectedRPC(true, Some("testnet".to_string())));
    management.update(Message::Delete);
    assert_eq!(management.storage.rpcs.len(), 1);
    assert_eq!(management.storage.rpcs[0].name, "mainnet");
    assert_eq!(management.selected_rpcs.len(), 0);
    match &management.form_feedback {
        Some(Feedback::Success(m)) => assert_eq!(m, "Deleted RPCs!"),
        _ => panic!("deleting reports success feedback"),
    }
}

#[test]
fn sync_replaces_the_storage() {
    let mut management = seeded_management();
    let mut fresh = RPCList::new();
    fresh.add(endpoint("anvil", 31337, "http://localhost"));
    management.update(Message::Sync(fresh));
    assert_eq!(management.storage.rpcs.len(), 1);
    assert_eq!(management.storage.rpcs[0].chain_id, 31337);
}

#[test]
fn submit_resets_the_screen() {
    let mut management = seeded_management();
    management.update(Message::AddRpc);
    management.update(Message::SelectedRPC(true, Some("mainnet".to_string())));
    management.update(Message::Submit);
    assert_eq!(management.chain_packet, None);
    assert_eq!(management.selected_rpcs.len(), 0);
    assert_eq!(management.form_feedback, None);
}

#[test]
fn rpc_table_lists_every_endpoint() {
    let mut management = seeded_management();
    management.update(Message::SelectedRPC(true, Some("testnet".to_string())));
    let table = management.rpc_table();
    assert_eq!(table.headers, vec!["Name", "Chain ID", "URL", "Select"]);
    assert_eq!(table.cells.len(), 2);
    assert!(matches!(&table.cells[0][0], Widget::Label(n) if n == "mainnet"));
    assert!(matches!(&table.cells[0][1], Widget::Label(c) if c == "1"));
    assert!(matches!(&table.cells[0][3], Widget::Checkbox(None)));
    assert!(matches!(&table.cells[1][3], Widget::Checkbox(Some(true))));
}

#[test]
fn management_view_shows_form_and_feedback() {
    let mut management = seeded_management();
    management.update(Message::AddRpc);
    management.update(Message::Feedback(Feedback::Error("no connection".to_string())));
    let view = management.view();
    match view {
        Widget::Column(halves) => {
            assert_eq!(halves.len(), 2);
            match &halves[0] {
                Widget::Column(upper) => {
                    assert_eq!(upper.len(), 3);
                    assert!(matches!(&upper[0], Widget::Label(t) if t == "Manage RPC Settings"));
                },
                _ => panic!("the upper half is a column"),
            }
            match &halves[1] {
                Widget::Column(lower) => {
                    assert_eq!(lower.len(), 2);
                    assert!(matches!(&lower[1], Widget::Label(m) if m == "no connection"));
                },
                _ => panic!("the lower half is a column"),
            }
        },
        _ => panic!("the view is a column"),
    }
}

#[test]
fn portfolio_position_updates() {
    let coin = StaticCoin { symbol: "ETH".to_string(), name: "Ether".to_string() };
    let mut portfolio = Portfolio::new(
        "growth".to_string(),
        "GRW".to_string(),
        vec![Position::new(coin, Some(1_500_000), Some(2_000_000))],
    );
    assert_eq!(portfolio.bench_mark, None);
    let usdc = StaticCoin { symbol: "USDC".to_string(), name: "USD Coin".to_string() };
    portfolio.add_position(Position::new(usdc, None, None));
    assert_eq!(portfolio.positions.len(), 2);
    portfolio.update_position_cost(1, Some(1_000_000));
    assert_eq!(portfolio.positions[1].cost, Some(1_000_000));
    portfolio.update_position_balance(0, Some(3_000_000));
    assert_eq!(portfolio.positions[0].balance, Some(3_000_000));
    portfolio.update_position_targets(0, Some(vec![Targetable::Weight(500_000)]));
    assert_eq!(
        portfolio.positions[0].targets,
        Some(vec![Targetable::Weight(500_000)])
    );
    assert_eq!(portfolio.prefix(), Some("growth".to_string()));
    portfolio.remove_position(0);
    assert_eq!(portfolio.positions.len(), 1);
    assert_eq!(portfolio.positions[0].asset.symbol, "USDC");
    assert_eq!(Targetable::default(), Targetable::Weight(1_000_000));
}
