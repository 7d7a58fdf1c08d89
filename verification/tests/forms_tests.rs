use simulation::fixed::SCALE;
use simulation::forms::{
    EnumList, Fees, Form, FormView, LiquidityChoices, LiquidityTypes, Strategies, SubmitState,
    Times, Widget,
};

#[test]
fn liquidity_types_all_lists_three() {
    assert_eq!(
        LiquidityTypes::all(),
        vec![LiquidityTypes::Low, LiquidityTypes::Med, LiquidityTypes::High]
    );
}

#[test]
fn liquidity_template_constants() {
    let low = LiquidityTypes::Low.to_parameters(2_000_000);
    assert_eq!(low.strike_price_wad, 2_000_000);
    assert_eq!(low.sigma_percent_wad, 850_000);
    assert_eq!(low.time_remaining_years_wad, SCALE);
    let med = LiquidityTypes::Med.to_parameters(1_000_000);
    assert_eq!(med.sigma_percent_wad, 625_000);
    let high = LiquidityTypes::High.to_parameters(1_000_000);
    assert_eq!(high.sigma_percent_wad, 100_000);
}

#[test]
fn template_summary_spells_out_the_constants() {
    let params = LiquidityTypes::Med.to_parameters(1_500_000);
    assert_eq!(
        params.summary(),
        "strike: 1.500000 volatility: 0.625000 expires in: 1.000000 years"
    );
}

#[test]
fn times_to_seconds_is_exact() {
    assert_eq!(Times::Now.to_seconds(), 0);
    assert_eq!(Times::OneHour.to_seconds(), 3_600);
    assert_eq!(Times::TwelveHour.to_seconds(), 43_200);
    assert_eq!(Times::OneDay.to_seconds(), 86_400);
    assert_eq!(Times::OneWeek.to_seconds(), 604_800);
    assert_eq!(Times::TwoWeeks.to_seconds(), 1_209_600);
    assert_eq!(Times::OneMonth.to_seconds(), 2_419_200);
}

#[test]
fn enum_lists_match_their_labels() {
    assert_eq!(Times::to_options().len(), 7);
    assert_eq!(
        Times::to_list(),
        vec!["Now", "1 hour", "12 hours", "1 day", "1 week", "2 weeks", "1 month"]
    );
    assert_eq!(Times::OneDay.to_value(), 86_400);
    assert_eq!(Fees::to_options().len(), 6);
    assert_eq!(
        Fees::to_list(),
        vec!["0.01%", "0.03%", "0.10%", "0.30%", "0.50%", "1.00%"]
    );
    assert_eq!(Fees::ThirtyBps.to_value(), 30);
    assert_eq!(
        Strategies::to_list(),
        vec!["Linear", "S-Curve", "Exponential"]
    );
    assert_eq!(Strategies::SCurve.to_value(), Strategies::SCurve);
}

#[test]
fn strategy_descriptions() {
    assert_eq!(
        Strategies::Linear.description(),
        "Changes the portfolio weights by the same amounts over time."
    );
    assert_eq!(
        Strategies::SCurve.description(),
        "Changes the portfolio weights slowly at first, then quickly, then slowly again."
    );
    assert_eq!(
        Strategies::Exponential.description(),
        "Accelerates the portfolio weight changes until completion."
    );
}

#[test]
fn form_state_transitions() {
    let mut form = Form::new();
    assert_eq!(form.state, SubmitState::Empty);
    form.pending();
    assert_eq!(form.state, SubmitState::Pending);
    form.confirmed();
    assert_eq!(form.state, SubmitState::Confirmed);
    form.failed();
    assert_eq!(form.state, SubmitState::Failed);
    form.amount = Some("1.5".to_string());
    form.duration = Some(Times::OneWeek);
    form.reset();
    assert_eq!(form.state, SubmitState::Empty);
    assert_eq!(form.amount, None);
    assert_eq!(form.duration, None);
}

#[test]
fn validate_amount_reports_each_error() {
    let mut form = Form::new();
    form.validate_amount();
    assert_eq!(form.error.as_deref(), Some("Amount is not provided"));

    form.amount = Some("not a number".to_string());
    form.validate_amount();
    assert_eq!(form.error.as_deref(), Some("Amount is not a valid number"));

    form.amount = Some("-1.5".to_string());
    form.validate_amount();
    assert_eq!(form.error.as_deref(), Some("Amount cannot be negative"));

    form.amount = Some("2.5".to_string());
    form.validate_amount();
    assert_eq!(form.error, None);
}

#[test]
fn form_item_wraps_title_and_content() {
    let item = FormView::form_item("Duration".to_string(), Widget::Chart);
    match item {
        Widget::Column(items) => {
            assert_eq!(items.len(), 2);
            assert!(matches!(&items[0], Widget::Label(t) if t == "Duration"));
            assert!(matches!(items[1], Widget::Chart));
        },
        _ => panic!("a form item renders as a column"),
    }
}

#[test]
fn submit_button_follows_the_state() {
    match FormView::submit(true, &SubmitState::Empty) {
        Widget::Column(items) => match &items[1] {
            Widget::Button { caption, enabled } => {
                assert_eq!(caption, "Submit Transaction");
                assert!(*enabled);
            },
            _ => panic!("the submit element holds a button"),
        },
        _ => panic!("the submit element is a column"),
    }
    match FormView::submit(true, &SubmitState::Pending) {
        Widget::Column(items) => match &items[1] {
            Widget::Button { caption, enabled } => {
                assert_eq!(caption, "Transaction pending...");
                assert!(!*enabled);
            },
            _ => panic!("the submit element holds a button"),
        },
        _ => panic!("the submit element is a column"),
    }
}

#[test]
fn duration_form_offers_the_choices() {
    let widget = FormView::duration_form(Times::to_options(), Some(Times::OneDay));
    match widget {
        Widget::Column(items) => match &items[1] {
            Widget::Select { options, chosen } => {
                assert_eq!(options.len(), 7);
                assert_eq!(options[0], "Now");
                assert_eq!(options[6], "1 month");
                assert_eq!(chosen.as_deref(), Some("1 day"));
            },
            _ => panic!("the duration element holds a selection"),
        },
        _ => panic!("the duration element is a column"),
    }
}

#[test]
fn full_form_view_composes() {
    let mut form = Form::new();
    form.amount = Some("1.5".to_string());
    form.liquidity = Some(LiquidityTypes::Med);
    let choices = vec![
        LiquidityChoices {
            liquidity_type: LiquidityTypes::Low,
            last_price: 1_000_000,
            price_range: (500_000, 2_000_000),
        },
        LiquidityChoices {
            liquidity_type: LiquidityTypes::Med,
            last_price: 1_000_000,
            price_range: (800_000, 1_200_000),
        },
    ];
    let view = form.view(&choices, true, true);
    match view {
        Widget::Column(halves) => {
            assert_eq!(halves.len(), 2);
            match &halves[1] {
                Widget::Column(content) => {
                    assert_eq!(content.len(), 2);
                    match &content[0] {
                        Widget::Row(top) => {
                            assert_eq!(top.len(), 2);
                            match &top[0] {
                                Widget::Column(strategy) => {
                                    assert!(matches!(
                                        &strategy[0],
                                        Widget::Label(t) if t == "Choose liquidity concentration"
                                    ));
                                    match &strategy[1] {
                                        Widget::Column(templates) => {
                                            assert_eq!(templates.len(), 2)
                                        },
                                        _ => panic!("templates render as a column"),
                                    }
                                },
                                _ => panic!("the strategy form is a column"),
                            }
                        },
                        _ => panic!("the content's top is a row"),
                    }
                },
                _ => panic!("the content is a column"),
            }
        },
        _ => panic!("the view is a column"),
    }
}
