//! The position-creation form.
//!
//! The form's state machine and its view, described as a
//! renderer-independent widget tree: what goes where, with which labels
//! and which values. Turning that description into pixels is a
//! rendering concern and lives outside the library.

use vstd::prelude::*;
use vstd::string::StringExecFns;
use crate::fixed::SCALE;
use crate::text;
use crate::text::spec_parse_fixed;

verus! {

/// A coin offered in the form, identified by its ticker symbol.
#[derive(Clone, Debug, PartialEq)]
pub struct Coin {
    pub symbol: String,
}

/// A renderer-independent description of a piece of user interface.
#[derive(Debug)]
pub enum Widget {
    /// A piece of text.
    Label(String),
    /// A free-text input with a placeholder and its current value.
    Input { placeholder: String, value: Option<String> },
    /// A selection among named options.
    Select { options: Vec<String>, chosen: Option<String> },
    /// A press target; disabled buttons render but do nothing.
    Button { caption: String, enabled: bool },
    /// Children laid out side by side.
    Row(Vec<Widget>),
    /// Children laid out top to bottom.
    Column(Vec<Widget>),
    /// A tick box; `None` renders unticked and untouched.
    Checkbox(Option<bool>),
    /// A chart pane.
    Chart,
}

/// Where a form submission stands.
#[derive(Debug, Clone, Default, Copy, PartialEq, Eq, Hash, Structural)]
pub enum SubmitState {
    #[default]
    Empty,
    Pending,
    Confirmed,
    Failed,
}

/// How concentrated the provided liquidity is.
#[derive(Debug, Clone, Default, PartialEq, Eq, Hash, Copy, Structural)]
pub enum LiquidityTypes {
    Low,
    #[default]
    Med,
    High,
}

/// The pricing-curve constants a liquidity concentration stands for,
/// in fixed point.
#[derive(Debug, Clone, Copy, Default, PartialEq, Eq, Structural)]
pub struct LiquidityTemplateParameters {
    pub strike_price_wad: i64,
    pub sigma_percent_wad: i64,
    pub time_remaining_years_wad: i64,
}

impl LiquidityTypes {
    /// Every selectable concentration, in presentation order.
    pub fn all() -> (r: Vec<LiquidityTypes>)
        ensures
            r@ == seq![LiquidityTypes::Low, LiquidityTypes::Med, LiquidityTypes::High],
    {
        let mut out: Vec<LiquidityTypes> = Vec::new();
        out.push(LiquidityTypes::Low);
        out.push(LiquidityTypes::Med);
        out.push(LiquidityTypes::High);
        proof {
            assert(out@ =~= seq![
                LiquidityTypes::Low,
                LiquidityTypes::Med,
                LiquidityTypes::High,
            ]);
        }
        out
    }

    /// The template constants of this concentration at the current
    /// price: the strike sits at the price, and a tighter concentration
    /// means a lower volatility constant.
    pub open spec fn spec_to_parameters(self, current_price: i64) -> LiquidityTemplateParameters {
        LiquidityTemplateParameters {
            strike_price_wad: current_price,
            sigma_percent_wad: match self {
                LiquidityTypes::Low => 850_000,
                LiquidityTypes::Med => 625_000,
                LiquidityTypes::High => 100_000,
            },
            time_remaining_years_wad: SCALE,
        }
    }

    pub fn to_parameters(self, current_price: i64) -> (r: LiquidityTemplateParameters)
        ensures
            r == self.spec_to_parameters(current_price),
    {
        match self {
            LiquidityTypes::Low => LiquidityTemplateParameters {
                strike_price_wad: current_price,
                sigma_percent_wad: 850_000,
                time_remaining_years_wad: SCALE,
            },
            LiquidityTypes::Med => LiquidityTemplateParameters {
                strike_price_wad: current_price,
                sigma_percent_wad: 625_000,
                time_remaining_years_wad: SCALE,
            },
            LiquidityTypes::High => LiquidityTemplateParameters {
                strike_price_wad: current_price,
                sigma_percent_wad: 100_000,
                time_remaining_years_wad: SCALE,
            },
        }
    }

    /// The name this concentration shows in the form.
    pub open spec fn spec_label(self) -> Seq<char> {
        match self {
            LiquidityTypes::Low => "Low"@,
            LiquidityTypes::Med => "Medium"@,
            LiquidityTypes::High => "High"@,
        }
    }

    pub fn label(&self) -> (r: String)
        ensures
            r@ == self.spec_label(),
    {
        match self {
            LiquidityTypes::Low => String::from_str("Low"),
            LiquidityTypes::Med => String::from_str("Medium"),
            LiquidityTypes::High => String::from_str("High"),
        }
    }
}

impl LiquidityTemplateParameters {
    /// What the template's tooltip says: its strike, volatility
    /// constant, and remaining lifetime.
    pub open spec fn spec_summary(self) -> Seq<char> {
        "strike: "@ + crate::text::spec_fx_chars(self.strike_price_wad as int) + " volatility: "@
            + crate::text::spec_fx_chars(self.sigma_percent_wad as int) + " expires in: "@
            + crate::text::spec_fx_chars(self.time_remaining_years_wad as int) + " years"@
    }

    pub fn summary(&self) -> (r: String)
        ensures
            r@ == self.spec_summary(),
    {
        let mut s: String = String::from_str("strike: ");
        let strike: String = text::fx_to_string(self.strike_price_wad);
        s.append(strike.as_str());
        s.append(" volatility: ");
        let sigma: String = text::fx_to_string(self.sigma_percent_wad);
        s.append(sigma.as_str());
        s.append(" expires in: ");
        let years: String = text::fx_to_string(self.time_remaining_years_wad);
        s.append(years.as_str());
        s.append(" years");
        proof {
            assert(s@ =~= self.spec_summary());
        }
        s
    }
}

/// One selectable concentration together with the market data shown
/// beside it, in fixed point.
#[derive(Debug, Clone, Copy, PartialEq, Eq)]
pub struct LiquidityChoices {
    pub liquidity_type: LiquidityTypes,
    pub last_price: i64,
    pub price_range: (i64, i64),
}

/// A family of choices that renders as a list of options. Each choice
/// family says, in spec, which options it offers, under which names,
/// and which value each stands for; the accessors are held to that.
pub trait EnumList<T>: Sized {
    /// Every choice, in presentation order.
    spec fn spec_options() -> Seq<Self>;

    /// The display name of every choice, in the same order.
    spec fn spec_list() -> Seq<Seq<char>>;

    /// The value a choice stands for.
    spec fn spec_value(&self) -> T;

    /// Every choice, in presentation order.
    fn to_options() -> (r: Vec<Self>)
        ensures
            r@ == Self::spec_options(),
    ;

    /// The display name of every choice, in the same order.
    fn to_list() -> (r: Vec<String>)
        ensures
            r@.map_values(|s: String| s@) == Self::spec_list(),
    ;

    /// The value a choice stands for.
    fn to_value(&self) -> (r: T)
        ensures
            r == self.spec_value(),
    ;
}

/// How far in the future the position's duration reaches.
#[derive(Debug, Clone, Copy, Eq, PartialEq, Structural)]
pub enum Times {
    Now,
    OneHour,
    TwelveHour,
    OneDay,
    OneWeek,
    TwoWeeks,
    OneMonth,
}

impl Times {
    /// The duration in seconds (one month approximated as four weeks).
    pub open spec fn spec_seconds(self) -> u64 {
        match self {
            Times::Now => 0,
            Times::OneHour => 3_600,
            Times::TwelveHour => 43_200,
            Times::OneDay => 86_400,
            Times::OneWeek => 604_800,
            Times::TwoWeeks => 1_209_600,
            Times::OneMonth => 2_419_200,
        }
    }

    pub fn to_seconds(self) -> (r: u64)
        ensures
            r == self.spec_seconds(),
    {
        self.to_value()
    }

    /// The name this duration shows in the form.
    pub open spec fn spec_label(self) -> Seq<char> {
        match self {
            Times::Now => "Now"@,
            Times::OneHour => "1 hour"@,
            Times::TwelveHour => "12 hours"@,
            Times::OneDay => "1 day"@,
            Times::OneWeek => "1 week"@,
            Times::TwoWeeks => "2 weeks"@,
            Times::OneMonth => "1 month"@,
        }
    }

    pub fn label(&self) -> (r: String)
        ensures
            r@ == self.spec_label(),
    {
        match self {
            Times::Now => String::from_str("Now"),
            Times::OneHour => String::from_str("1 hour"),
            Times::TwelveHour => String::from_str("12 hours"),
            Times::OneDay => String::from_str("1 day"),
            Times::OneWeek => String::from_str("1 week"),
            Times::TwoWeeks => String::from_str("2 weeks"),
            Times::OneMonth => String::from_str("1 month"),
        }
    }
}

impl EnumList<u64> for Times {
    open spec fn spec_options() -> Seq<Times> {
        seq![
            Times::Now,
            Times::OneHour,
            Times::TwelveHour,
            Times::OneDay,
            Times::OneWeek,
            Times::TwoWeeks,
            Times::OneMonth,
        ]
    }

    open spec fn spec_list() -> Seq<Seq<char>> {
        Self::spec_options().map_values(|t: Times| t.spec_label())
    }

    open spec fn spec_value(&self) -> u64 {
        self.spec_seconds()
    }

    fn to_options() -> (r: Vec<Times>) {
        let mut out: Vec<Times> = Vec::new();
        out.push(Times::Now);
        out.push(Times::OneHour);
        out.push(Times::TwelveHour);
        out.push(Times::OneDay);
        out.push(Times::OneWeek);
        out.push(Times::TwoWeeks);
        out.push(Times::OneMonth);
        proof {
            assert(out@ =~= Self::spec_options());
        }
        out
    }

    fn to_list() -> (r: Vec<String>) {
        let mut out: Vec<String> = Vec::new();
        out.push(Times::Now.label());
        out.push(Times::OneHour.label());
        out.push(Times::TwelveHour.label());
        out.push(Times::OneDay.label());
        out.push(Times::OneWeek.label());
        out.push(Times::TwoWeeks.label());
        out.push(Times::OneMonth.label());
        proof {
            assert(out@.map_values(|s: String| s@) =~= Self::spec_list());
        }
        out
    }

    fn to_value(&self) -> (r: u64) {
        match self {
            Times::Now => 0,
            Times::OneHour => 3_600,
            Times::TwelveHour => 43_200,
            Times::OneDay => 86_400,
            Times::OneWeek => 604_800,
            Times::TwoWeeks => 1_209_600,
            Times::OneMonth => 2_419_200,
        }
    }
}

/// The pool's swap-fee choices.
#[derive(Debug, Clone, Copy, Eq, PartialEq, Default, Structural)]
pub enum Fees {
    #[default]
    OneBps,
    ThreeBps,
    TenBps,
    ThirtyBps,
    FiftyBps,
    OneHundredBps,
}

impl Fees {
    /// The fee in basis points.
    pub open spec fn spec_basis_points(self) -> u64 {
        match self {
            Fees::OneBps => 1,
            Fees::ThreeBps => 3,
            Fees::TenBps => 10,
            Fees::ThirtyBps => 30,
            Fees::FiftyBps => 50,
            Fees::OneHundredBps => 100,
        }
    }

    /// The name this fee shows in the form.
    pub open spec fn spec_label(self) -> Seq<char> {
        match self {
            Fees::OneBps => "0.01%"@,
            Fees::ThreeBps => "0.03%"@,
            Fees::TenBps => "0.10%"@,
            Fees::ThirtyBps => "0.30%"@,
            Fees::FiftyBps => "0.50%"@,
            Fees::OneHundredBps => "1.00%"@,
        }
    }

    pub fn label(&self) -> (r: String)
        ensures
            r@ == self.spec_label(),
    {
        match self {
            Fees::OneBps => String::from_str("0.01%"),
            Fees::ThreeBps => String::from_str("0.03%"),
            Fees::TenBps => String::from_str("0.10%"),
            Fees::ThirtyBps => String::from_str("0.30%"),
            Fees::FiftyBps => String::from_str("0.50%"),
            Fees::OneHundredBps => String::from_str("1.00%"),
        }
    }
}

impl EnumList<u64> for Fees {
    open spec fn spec_options() -> Seq<Fees> {
        seq![
            Fees::OneBps,
            Fees::ThreeBps,
            Fees::TenBps,
            Fees::ThirtyBps,
            Fees::FiftyBps,
            Fees::OneHundredBps,
        ]
    }

    open spec fn spec_list() -> Seq<Seq<char>> {
        Self::spec_options().map_values(|f: Fees| f.spec_label())
    }

    open spec fn spec_value(&self) -> u64 {
        self.spec_basis_points()
    }

    fn to_options() -> (r: Vec<Fees>) {
        let mut out: Vec<Fees> = Vec::new();
        out.push(Fees::OneBps);
        out.push(Fees::ThreeBps);
        out.push(Fees::TenBps);
        out.push(Fees::ThirtyBps);
        out.push(Fees::FiftyBps);
        out.push(Fees::OneHundredBps);
        proof {
            assert(out@ =~= Self::spec_options());
        }
        out
    }

    fn to_list() -> (r: Vec<String>) {
        let mut out: Vec<String> = Vec::new();
        out.push(Fees::OneBps.label());
        out.push(Fees::ThreeBps.label());
        out.push(Fees::TenBps.label());
        out.push(Fees::ThirtyBps.label());
        out.push(Fees::FiftyBps.label());
        out.push(Fees::OneHundredBps.label());
        proof {
            assert(out@.map_values(|s: String| s@) =~= Self::spec_list());
        }
        out
    }

    fn to_value(&self) -> (r: u64) {
        match self {
            Fees::OneBps => 1,
            Fees::ThreeBps => 3,
            Fees::TenBps => 10,
            Fees::ThirtyBps => 30,
            Fees::FiftyBps => 50,
            Fees::OneHundredBps => 100,
        }
    }
}

/// How portfolio weights move over a position's life.
#[derive(Debug, Clone, Copy, Eq, PartialEq, Default, Structural)]
pub enum Strategies {
    #[default]
    Linear,
    SCurve,
    Exponential,
}

impl Strategies {
    /// What the form says about this strategy.
    pub open spec fn spec_description(self) -> Seq<char> {
        match self {
            Strategies::Linear => "Changes the portfolio weights by the same amounts over time."@,
            Strategies::SCurve => "Changes the portfolio weights slowly at first, then quickly, then slowly again."@,
            Strategies::Exponential => "Accelerates the portfolio weight changes until completion."@,
        }
    }

    pub fn description(&self) -> (r: String)
        ensures
            r@ == self.spec_description(),
    {
        match self {
            Strategies::Linear => String::from_str(
                "Changes the portfolio weights by the same amounts over time.",
            ),
            Strategies::SCurve => String::from_str(
                "Changes the portfolio weights slowly at first, then quickly, then slowly again.",
            ),
            Strategies::Exponential => String::from_str(
                "Accelerates the portfolio weight changes until completion.",
            ),
        }
    }

    /// The name this strategy shows in the form.
    pub open spec fn spec_label(self) -> Seq<char> {
        match self {
            Strategies::Linear => "Linear"@,
            Strategies::SCurve => "S-Curve"@,
            Strategies::Exponential => "Exponential"@,
        }
    }

    pub fn label(&self) -> (r: String)
        ensures
            r@ == self.spec_label(),
    {
        match self {
            Strategies::Linear => String::from_str("Linear"),
            Strategies::SCurve => String::from_str("S-Curve"),
            Strategies::Exponential => String::from_str("Exponential"),
        }
    }
}

impl EnumList<Strategies> for Strategies {
    open spec fn spec_options() -> Seq<Strategies> {
        seq![Strategies::Linear, Strategies::SCurve, Strategies::Exponential]
    }

    open spec fn spec_list() -> Seq<Seq<char>> {
        Self::spec_options().map_values(|st: Strategies| st.spec_label())
    }

    open spec fn spec_value(&self) -> Strategies {
        *self
    }

    fn to_options() -> (r: Vec<Strategies>) {
        let mut out: Vec<Strategies> = Vec::new();
        out.push(Strategies::Linear);
        out.push(Strategies::SCurve);
        out.push(Strategies::Exponential);
        proof {
            assert(out@ =~= Self::spec_options());
        }
        out
    }

    fn to_list() -> (r: Vec<String>) {
        let mut out: Vec<String> = Vec::new();
        out.push(Strategies::Linear.label());
        out.push(Strategies::SCurve.label());
        out.push(Strategies::Exponential.label());
        proof {
            assert(out@.map_values(|s: String| s@) =~= Self::spec_list());
        }
        out
    }

    fn to_value(&self) -> (r: Strategies) {
        *self
    }
}

/// What the user has entered so far.
#[derive(Debug, Clone, PartialEq)]
pub struct Form {
    pub amount: Option<String>,
    pub coins: Vec<Coin>,
    pub chosen_asset: Option<Coin>,
    pub chosen_quote: Option<Coin>,
    pub duration: Option<Times>,
    pub end_price: Option<String>,
    pub liquidity: Option<LiquidityTypes>,
    pub state: SubmitState,
    pub error: Option<String>,
}

impl Form {
    /// An empty form.
    pub fn new() -> (r: Form)
        ensures
            r.amount is None,
            r.coins@ == Seq::<Coin>::empty(),
            r.chosen_asset is None,
            r.chosen_quote is None,
            r.duration is None,
            r.end_price is None,
            r.liquidity is None,
            r.state == SubmitState::Empty,
            r.error is None,
    {
        Form {
            amount: None,
            coins: Vec::new(),
            chosen_asset: None,
            chosen_quote: None,
            duration: None,
            end_price: None,
            liquidity: None,
            state: SubmitState::Empty,
            error: None,
        }
    }

    /// Clear every choice; the offered coins and any shown error stay.
    pub fn reset(&mut self)
        ensures
            final(self).amount is None,
            final(self).chosen_asset is None,
            final(self).chosen_quote is None,
            final(self).duration is None,
            final(self).end_price is None,
            final(self).liquidity is None,
            final(self).state == SubmitState::Empty,
            final(self).coins == old(self).coins,
            final(self).error == old(self).error,
    {
        self.amount = None;
        self.chosen_asset = None;
        self.chosen_quote = None;
        self.duration = None;
        self.end_price = None;
        self.liquidity = None;
        self.state = SubmitState::Empty;
    }

    /// The submission is in flight.
    pub fn pending(&mut self)
        ensures
            *final(self) == (Form { state: SubmitState::Pending, ..*old(self) }),
    {
        self.state = SubmitState::Pending;
    }

    /// The submission confirmed.
    pub fn confirmed(&mut self)
        ensures
            *final(self) == (Form { state: SubmitState::Confirmed, ..*old(self) }),
    {
        self.state = SubmitState::Confirmed;
    }

    /// The submission failed.
    pub fn failed(&mut self)
        ensures
            *final(self) == (Form { state: SubmitState::Failed, ..*old(self) }),
    {
        self.state = SubmitState::Failed;
    }

    /// What `validate_amount` reports for a given entry.
    pub open spec fn spec_amount_error(amount: Option<String>) -> Option<Seq<char>> {
        match amount {
            None => Some("Amount is not provided"@),
            Some(a) => match spec_parse_fixed(a@) {
                None => Some("Amount is not a valid number"@),
                Some(v) => if v < 0 {
                    Some("Amount cannot be negative"@)
                } else {
                    None
                },
            },
        }
    }

    /// Check the entered amount: it must be present, a decimal numeral
    /// in range, and not negative. Sets the error message accordingly;
    /// a valid amount clears it.
    pub fn validate_amount(&mut self)
        ensures
            *final(self) == (Form { error: final(self).error, ..*old(self) }),
            match Form::spec_amount_error(old(self).amount) {
                None => final(self).error is None,
                Some(m) => final(self).error is Some && final(self).error->Some_0@ == m,
            },
    {
        self.error = None;
        match &self.amount {
            Some(amount_str) => {
                match text::parse_fixed(amount_str.as_str()) {
                    Some(amount) => {
                        if amount < 0 {
                            self.error = Some(String::from_str("Amount cannot be negative"));
                        }
                    },
                    None => {
                        self.error = Some(String::from_str("Amount is not a valid number"));
                    },
                }
            },
            None => {
                self.error = Some(String::from_str("Amount is not provided"));
            },
        }
    }
}

/// `w` is a text label reading `text`.
pub open spec fn spec_label_is(w: Widget, text: Seq<char>) -> bool {
    w matches Widget::Label(l) && l@ == text
}

/// `w` is a titled form element holding some content.
pub open spec fn spec_header_ok(
    w: Widget,
    subtitle: Seq<char>,
    title: Seq<char>,
    closable: bool,
) -> bool {
    &&& w matches Widget::Row(items)
    &&& items@.len() == 2
    &&& (items@[0] matches Widget::Column(texts) && texts@.len() == 2 && spec_label_is(
        texts@[0],
        subtitle,
    ) && spec_label_is(texts@[1], title))
    &&& (items@[1] matches Widget::Button { caption, enabled } && caption@ == "x"@ && enabled
        == closable)
}

/// `w` is the deposit-amount input.
pub open spec fn spec_deposit_input_ok(w: Widget, amount: Option<String>) -> bool {
    &&& w matches Widget::Column(items)
    &&& items@.len() == 2
    &&& spec_label_is(items@[0], "Deposit"@)
    &&& (items@[1] matches Widget::Input { placeholder, value } && placeholder@
        == "Enter deposit amount"@ && value == amount)
}

/// The caption the submit button shows in each submission state.
pub open spec fn spec_submit_caption(state: SubmitState) -> Seq<char> {
    match state {
        SubmitState::Empty => "Submit Transaction"@,
        SubmitState::Pending => "Transaction pending..."@,
        SubmitState::Confirmed => "Success - continue"@,
        SubmitState::Failed => "Failed"@,
    }
}

/// `w` is the submit button: captioned by the submission state, and
/// never pressable while a submission is pending.
pub open spec fn spec_submit_ok(w: Widget, submittable: bool, state: SubmitState) -> bool {
    &&& w matches Widget::Column(items)
    &&& items@.len() == 2
    &&& spec_label_is(items@[0], "Submit"@)
    &&& (items@[1] matches Widget::Button { caption, enabled } && caption@ == spec_submit_caption(
        state,
    ) && enabled == (submittable && !(state is Pending)))
}

/// `w` is one strategy-template option: a press target carrying the
/// concentration's name and whether it is the active choice, above its
/// volatility constant and price range.
pub open spec fn spec_template_ok(
    w: Widget,
    value: LiquidityTypes,
    active: bool,
    tooltip: Seq<char>,
    price_range: Seq<char>,
) -> bool {
    &&& w matches Widget::Column(items)
    &&& items@.len() == 2
    &&& (items@[0] matches Widget::Button { caption, enabled } && caption@ == value.spec_label()
        && enabled == active)
    &&& (items@[1] matches Widget::Row(bottom) && bottom@.len() == 3 && spec_label_is(
        bottom@[0],
        tooltip,
    ) && spec_label_is(bottom@[1], "Price Range: "@) && spec_label_is(bottom@[2], price_range))
}

/// `w` is the template entry of one liquidity choice: its tooltip shows
/// the volatility constant at the last price, its range label shows the
/// price range.
pub open spec fn spec_template_entry_ok(
    w: Widget,
    c: LiquidityChoices,
    chosen: Option<LiquidityTypes>,
) -> bool {
    spec_template_ok(
        w,
        c.liquidity_type,
        chosen == Some(c.liquidity_type),
        c.liquidity_type.spec_to_parameters(c.last_price).spec_summary(),
        crate::text::spec_fx_chars(c.price_range.0 as int) + " - "@ + crate::text::spec_fx_chars(
            c.price_range.1 as int,
        ),
    )
}

/// `w` is the strategy-selection form over the given choices.
pub open spec fn spec_strategy_form_ok(
    w: Widget,
    choices: Seq<LiquidityChoices>,
    chosen: Option<LiquidityTypes>,
) -> bool {
    &&& w matches Widget::Column(items)
    &&& items@.len() == 2
    &&& spec_label_is(items@[0], "Choose liquidity concentration"@)
    &&& (items@[1] matches Widget::Column(templates) && templates@.len() == choices.len()
        && (forall|i: int|
        0 <= i < choices.len() ==> spec_template_entry_ok(
            #[trigger] templates@[i],
            choices[i],
            chosen,
        )))
}

/// `w` is a chart pane under its title and sync note.
pub open spec fn spec_chart_layout_ok(w: Widget, title: Seq<char>, sync: Seq<char>) -> bool {
    &&& w matches Widget::Column(items)
    &&& items@.len() == 2
    &&& (items@[0] matches Widget::Row(hdr) && hdr@.len() == 2 && spec_label_is(hdr@[0], title)
        && spec_label_is(hdr@[1], sync))
    &&& items@[1] is Chart
}

/// `w` is the instructions note beside the deposit input.
pub open spec fn spec_instructions_ok(w: Widget) -> bool {
    &&& w matches Widget::Column(items)
    &&& items@.len() == 2
    &&& spec_label_is(items@[0], "Instructions"@)
    &&& spec_label_is(
        items@[1],
        "Choose a strategy template and deposit amount, then submit the transaction to allocate."@,
    )
}

/// `w` is the deposit row of the full form view: input, instructions,
/// submit button, and the error text if one is shown.
pub open spec fn spec_view_deposit_ok(
    w: Widget,
    amount: Option<String>,
    submittable: bool,
    state: SubmitState,
    error: Option<String>,
) -> bool {
    &&& w matches Widget::Row(items)
    &&& match error {
        None => items@.len() == 3,
        Some(e) => items@.len() == 4 && spec_label_is(items@[3], e@),
    }
    &&& spec_deposit_input_ok(items@[0], amount)
    &&& spec_instructions_ok(items@[1])
    &&& spec_submit_ok(items@[2], submittable, state)
}

/// Two elements pushed to the far sides of one row.
pub fn space_between(left: Widget, right: Widget) -> (r: Widget)
    ensures
        r matches Widget::Row(items) && items@ == seq![left, right],
{
    let mut items: Vec<Widget> = Vec::new();
    items.push(left);
    items.push(right);
    proof {
        let (l, rt) = (items@[0], items@[1]);
        assert(items@ =~= seq![l, rt]);
    }
    Widget::Row(items)
}

/// The view of the position-creation form, free of any rendering
/// concern.
#[derive(Debug, Clone, Default, PartialEq, Eq, Structural)]
pub struct FormView;

impl FormView {
    /// One titled form element.
    pub fn form_item(title: String, content: Widget) -> (r: Widget)
        ensures
            r matches Widget::Column(items) && items@ == seq![Widget::Label(title), content],
    {
        let ghost title_ghost = title;
        let ghost content_ghost = content;
        let mut items: Vec<Widget> = Vec::new();
        items.push(Widget::Label(title));
        items.push(content);
        proof {
            assert(items@ =~= seq![Widget::Label(title_ghost), content_ghost]);
        }
        Widget::Column(items)
    }

    /// The form's header: subtitle over title, with a close button.
    pub fn header(subtitle: String, title: String, closable: bool) -> (r: Widget)
        ensures
            spec_header_ok(r, subtitle@, title@, closable),
    {
        let mut texts: Vec<Widget> = Vec::new();
        texts.push(Widget::Label(subtitle));
        texts.push(Widget::Label(title));
        space_between(
            Widget::Column(texts),
            Widget::Button { caption: String::from_str("x"), enabled: closable },
        )
    }

    /// The whole form under its header.
    pub fn layout(form_content: Widget, closable: bool) -> (r: Widget)
        ensures
            r matches Widget::Column(items) && items@.len() == 2 && spec_header_ok(
                items@[0],
                "Create new position"@,
                "ETH/USDC"@,
                closable,
            ) && items@[1] == form_content,
    {
        let mut items: Vec<Widget> = Vec::new();
        items.push(
            Self::header(
                String::from_str("Create new position"),
                String::from_str("ETH/USDC"),
                closable,
            ),
        );
        items.push(form_content);
        Widget::Column(items)
    }

    /// The form's content: the strategy picker beside the preview
    /// chart, with the deposit row underneath.
    pub fn form_content(strategy_form: Widget, deposit_form: Widget, chart: Widget) -> (r: Widget)
        ensures
            r matches Widget::Column(items) && items@.len() == 2 && (items@[0] matches Widget::Row(
                top,
            ) && top@ == seq![strategy_form, chart]) && items@[1] == deposit_form,
    {
        let ghost strategy_ghost = strategy_form;
        let ghost chart_ghost = chart;
        let mut top: Vec<Widget> = Vec::new();
        top.push(strategy_form);
        top.push(chart);
        proof {
            assert(top@ =~= seq![strategy_ghost, chart_ghost]);
        }
        let mut items: Vec<Widget> = Vec::new();
        items.push(Widget::Row(top));
        items.push(deposit_form);
        Widget::Column(items)
    }

    /// The deposit row: input, review, submit button, and the error
    /// text if one is shown.
    pub fn deposit_form(
        deposit_amount: Option<String>,
        review: Widget,
        submittable: bool,
        state: &SubmitState,
        error: &Option<String>,
    ) -> (r: Widget)
        ensures
            r matches Widget::Row(items) && ({
                &&& match *error {
                    None => items@.len() == 3,
                    Some(e) => items@.len() == 4 && spec_label_is(items@[3], e@),
                }
                &&& spec_deposit_input_ok(items@[0], deposit_amount)
                &&& items@[1] == review
                &&& spec_submit_ok(items@[2], submittable, *state)
            }),
    {
        let mut items: Vec<Widget> = Vec::new();
        items.push(Self::deposit_input(deposit_amount));
        items.push(review);
        items.push(Self::submit(submittable, state));
        match error {
            Some(e) => {
                items.push(Widget::Label(e.clone()));
            },
            None => (),
        }
        Widget::Row(items)
    }

    /// A titled column of review rows.
    pub fn review_summary(title: String, rows: Vec<Widget>) -> (r: Widget)
        ensures
            r matches Widget::Column(items) && items@.len() == 2 && spec_label_is(
                items@[0],
                title@,
            ) && (items@[1] matches Widget::Column(inner) && inner == rows),
    {
        Self::form_item(title, Widget::Column(rows))
    }

    /// The strategy picker over the offered liquidity choices.
    pub fn strategy_form(
        liquidity_choices: &Vec<LiquidityChoices>,
        chosen_liquidity: Option<LiquidityTypes>,
    ) -> (r: Widget)
        ensures
            spec_strategy_form_ok(r, liquidity_choices@, chosen_liquidity),
    {
        let n: usize = liquidity_choices.len();
        let mut templates: Vec<Widget> = Vec::new();
        let mut i: usize = 0;
        while i < n
            invariant
                i <= n,
                n == liquidity_choices@.len(),
                templates@.len() == i,
                forall|j: int|
                    0 <= j < i ==> spec_template_entry_ok(
                        #[trigger] templates@[j],
                        liquidity_choices@[j],
                        chosen_liquidity,
                    ),
            decreases n - i,
        {
            let c: &LiquidityChoices = &liquidity_choices[i];
            let active: bool = match chosen_liquidity {
                Some(l) => l == c.liquidity_type,
                None => false,
            };
            let params: LiquidityTemplateParameters = c.liquidity_type.to_parameters(c.last_price);
            let tooltip: String = params.summary();
            let mut price_range: String = crate::text::fx_to_string(c.price_range.0);
            price_range.append(" - ");
            let hi: String = crate::text::fx_to_string(c.price_range.1);
            price_range.append(hi.as_str());
            templates.push(Self::strategy_template(c.liquidity_type, active, tooltip, price_range));
            i = i + 1;
        }
        let mut items: Vec<Widget> = Vec::new();
        items.push(Widget::Label(String::from_str("Choose liquidity concentration")));
        items.push(Widget::Column(templates));
        Widget::Column(items)
    }

    /// One strategy-template option.
    pub fn strategy_template(
        value: LiquidityTypes,
        active: bool,
        tooltip: String,
        price_range: String,
    ) -> (r: Widget)
        ensures
            spec_template_ok(r, value, active, tooltip@, price_range@),
    {
        let mut bottom: Vec<Widget> = Vec::new();
        bottom.push(Widget::Label(tooltip));
        bottom.push(Widget::Label(String::from_str("Price Range: ")));
        bottom.push(Widget::Label(price_range));
        let mut items: Vec<Widget> = Vec::new();
        items.push(Widget::Button { caption: value.label(), enabled: active });
        items.push(Widget::Row(bottom));
        Widget::Column(items)
    }

    /// The submit button for creating the position.
    pub fn submit(on_submit: bool, state: &SubmitState) -> (r: Widget)
        ensures
            spec_submit_ok(r, on_submit, *state),
    {
        let caption: String = match state {
            SubmitState::Empty => String::from_str("Submit Transaction"),
            SubmitState::Pending => String::from_str("Transaction pending..."),
            SubmitState::Confirmed => String::from_str("Success - continue"),
            SubmitState::Failed => String::from_str("Failed"),
        };
        let enabled: bool = match state {
            SubmitState::Pending => false,
            _ => on_submit,
        };
        Self::form_item(
            String::from_str("Submit"),
            Widget::Button { caption, enabled },
        )
    }

    /// The deposit-amount input.
    pub fn deposit_input(deposit_amount: Option<String>) -> (r: Widget)
        ensures
            spec_deposit_input_ok(r, deposit_amount),
    {
        Self::form_item(
            String::from_str("Deposit"),
            Widget::Input {
                placeholder: String::from_str("Enter deposit amount"),
                value: deposit_amount,
            },
        )
    }

    /// The duration picker.
    pub fn duration_form(choice_duration: Vec<Times>, chosen_duration: Option<Times>) -> (r:
        Widget)
        ensures
            r matches Widget::Column(items) && items@.len() == 2 && spec_label_is(
                items@[0],
                "Duration"@,
            ) && (items@[1] matches Widget::Select { options, chosen } && ({
                &&& options@.len() == choice_duration@.len()
                &&& forall|i: int|
                    0 <= i < options@.len() ==> (#[trigger] options@[i])@
                        == choice_duration@[i].spec_label()
                &&& match chosen_duration {
                    None => chosen is None,
                    Some(t) => chosen matches Some(c) && c@ == t.spec_label(),
                }
            })),
    {
        let n: usize = choice_duration.len();
        let mut options: Vec<String> = Vec::new();
        let mut i: usize = 0;
        while i < n
            invariant
                i <= n,
                n == choice_duration@.len(),
                options@.len() == i,
                forall|j: int|
                    0 <= j < i ==> (#[trigger] options@[j])@ == choice_duration@[j].spec_label(),
            decreases n - i,
        {
            options.push(choice_duration[i].label());
            i = i + 1;
        }
        let chosen: Option<String> = match chosen_duration {
            Some(t) => Some(t.label()),
            None => None,
        };
        Self::form_item(
            String::from_str("Duration"),
            Widget::Select { options, chosen },
        )
    }

    /// The liquidity-concentration picker.
    pub fn liquidity_type_form(
        choice_liquidity: Vec<LiquidityTypes>,
        chosen_liquidity: Option<LiquidityTypes>,
    ) -> (r: Widget)
        ensures
            r matches Widget::Column(items) && items@.len() == 2 && spec_label_is(
                items@[0],
                "Liquidity Type"@,
            ) && (items@[1] matches Widget::Select { options, chosen } && ({
                &&& options@.len() == choice_liquidity@.len()
                &&& forall|i: int|
                    0 <= i < options@.len() ==> (#[trigger] options@[i])@
                        == choice_liquidity@[i].spec_label()
                &&& match chosen_liquidity {
                    None => chosen is None,
                    Some(t) => chosen matches Some(c) && c@ == t.spec_label(),
                }
            })),
    {
        let n: usize = choice_liquidity.len();
        let mut options: Vec<String> = Vec::new();
        let mut i: usize = 0;
        while i < n
            invariant
                i <= n,
                n == choice_liquidity@.len(),
                options@.len() == i,
                forall|j: int|
                    0 <= j < i ==> (#[trigger] options@[j])@ == choice_liquidity@[j].spec_label(),
            decreases n - i,
        {
            options.push(choice_liquidity[i].label());
            i = i + 1;
        }
        let chosen: Option<String> = match chosen_liquidity {
            Some(t) => Some(t.label()),
            None => None,
        };
        Self::form_item(
            String::from_str("Liquidity Type"),
            Widget::Select { options, chosen },
        )
    }

    /// The target-price input.
    pub fn target_price_form(target_price: Option<String>) -> (r: Widget)
        ensures
            r matches Widget::Column(items) && items@.len() == 2 && spec_label_is(
                items@[0],
                "Target Price"@,
            ) && (items@[1] matches Widget::Input { placeholder, value } && placeholder@
                == "Enter target price"@ && value == target_price),
    {
        Self::form_item(
            String::from_str("Target Price"),
            Widget::Input {
                placeholder: String::from_str("Enter target price"),
                value: target_price,
            },
        )
    }

    /// A chart pane under its title and sync note.
    pub fn chart_layout(chart_title: String, sync_timestamp: String) -> (r: Widget)
        ensures
            spec_chart_layout_ok(r, chart_title@, sync_timestamp@),
    {
        let mut hdr: Vec<Widget> = Vec::new();
        hdr.push(Widget::Label(chart_title));
        hdr.push(Widget::Label(sync_timestamp));
        let mut items: Vec<Widget> = Vec::new();
        items.push(Widget::Row(hdr));
        items.push(Widget::Chart);
        Widget::Column(items)
    }

    /// A histogram pane under its title and sync note.
    pub fn chart_layout_histogram(chart_title: String, sync_timestamp: String) -> (r: Widget)
        ensures
            spec_chart_layout_ok(r, chart_title@, sync_timestamp@),
    {
        Self::chart_layout(chart_title, sync_timestamp)
    }
}

impl Form {
    /// The whole form as a widget tree: the strategy picker beside the
    /// liquidity preview, over the deposit row, under the header.
    pub fn view(
        &self,
        liquidity_choices: &Vec<LiquidityChoices>,
        closable: bool,
        submittable: bool,
    ) -> (r: Widget)
        ensures
            r matches Widget::Column(items) && items@.len() == 2 && spec_header_ok(
                items@[0],
                "Create new position"@,
                "ETH/USDC"@,
                closable,
            ) && (items@[1] matches Widget::Column(content) && content@.len() == 2 && (
            content@[0] matches Widget::Row(top) && top@.len() == 2 && spec_strategy_form_ok(
                top@[0],
                liquidity_choices@,
                self.liquidity,
            ) && spec_chart_layout_ok(top@[1], "Liquidity Preview"@, "Synced"@))
                && spec_view_deposit_ok(
                content@[1],
                self.amount,
                submittable,
                self.state,
                self.error,
            )),
    {
        let strategy: Widget = FormView::strategy_form(liquidity_choices, self.liquidity);
        let chart: Widget = FormView::chart_layout_histogram(
            String::from_str("Liquidity Preview"),
            String::from_str("Synced"),
        );
        let review: Widget = FormView::form_item(
            String::from_str("Instructions"),
            Widget::Label(
                String::from_str(
                    "Choose a strategy template and deposit amount, then submit the transaction to allocate.",
                ),
            ),
        );
        let deposit: Widget = FormView::deposit_form(
            self.amount.clone(),
            review,
            submittable,
            &self.state,
            &self.error,
        );
        FormView::layout(FormView::form_content(strategy, deposit, chart), closable)
    }
}

} // verus!
