//! The hazards that things are described with, and when they arise.
use vstd::prelude::*;

verus! {

/// The kinds of hazard.
#[derive(Clone, Copy, Debug, PartialEq, Eq, Structural)]
pub enum Hazard {
    ElectricEnergyConsumption,
    Scald,
    WaterFlooding,
    Burn,
}

/// How the value of a property compares with another one.
#[derive(Clone, Copy, Debug, PartialEq, Eq, Structural)]
pub enum Comparison {
    /// The property is equal to the flag.
    Is(bool),
    /// The property is larger than the number.
    IsOver(u8),
    /// The property is the number or larger.
    IsAtLeast(u8),
}

/// A condition on a property, which is named by the path at which it is read.
#[derive(Clone, Copy, Debug, PartialEq, Eq)]
pub struct Clause {
    pub property: &'static str,
    pub comparison: Comparison,
}

/// A hazard, how large its risk is, and the conditions under which it arises, all at once.
#[derive(Debug, PartialEq, Eq)]
pub struct Rule {
    pub hazard: Hazard,
    pub risk: u8,
    pub clauses: Vec<Clause>,
}

/// What a [`Rule`] says.
pub struct RuleView {
    pub hazard: Hazard,
    pub risk: int,
    pub clauses: Seq<(Seq<char>, Comparison)>,
}

impl View for Rule {
    type V = RuleView;

    open spec fn view(&self) -> RuleView {
        RuleView {
            hazard: self.hazard,
            risk: self.risk as int,
            clauses: self.clauses@.map_values(
                |clause: Clause| (clause.property@, clause.comparison),
            ),
        }
    }
}

/// What rules say, in order.
pub open spec fn table(rules: Seq<Rule>) -> Seq<RuleView> {
    rules.map_values(|rule: Rule| rule@)
}

/// The rule with one condition.
pub open spec fn rule_of_one(
    hazard: Hazard,
    risk: int,
    first: (Seq<char>, Comparison),
) -> RuleView {
    RuleView { hazard, risk, clauses: seq![first] }
}

/// The rule with two conditions.
pub open spec fn rule_of_two(
    hazard: Hazard,
    risk: int,
    first: (Seq<char>, Comparison),
    second: (Seq<char>, Comparison),
) -> RuleView {
    RuleView { hazard, risk, clauses: seq![first, second] }
}

/// The rule with three conditions.
pub open spec fn rule_of_three(
    hazard: Hazard,
    risk: int,
    first: (Seq<char>, Comparison),
    second: (Seq<char>, Comparison),
    third: (Seq<char>, Comparison),
) -> RuleView {
    RuleView { hazard, risk, clauses: seq![first, second, third] }
}

/// Whether all conditions of rules are on properties that are read at one of `paths`.
pub open spec fn names_only(rules: Seq<RuleView>, paths: Seq<Seq<char>>) -> bool {
    forall|r: int, c: int|
        0 <= r < rules.len() && 0 <= c < rules[r].clauses.len() ==> paths.contains(
            (#[trigger] rules[r].clauses[c]).0,
        )
}

/// The paths at which a lamp can be read.
pub open spec fn lamp_paths() -> Seq<Seq<char>> {
    seq!["/properties/on"@, "/properties/brightness"@]
}

/// The paths at which a sink can be read.
pub open spec fn sink_paths() -> Seq<Seq<char>> {
    seq![
        "/properties/drain"@,
        "/properties/flow"@,
        "/properties/temperature"@,
        "/properties/level"@,
    ]
}

fn clause(property: &'static str, comparison: Comparison) -> (clause: Clause)
    ensures
        clause.property@ == property@,
        clause.comparison == comparison,
{
    Clause { property, comparison }
}

fn one(hazard: Hazard, risk: u8, first: Clause) -> (rule: Rule)
    ensures
        rule@ == rule_of_one(hazard, risk as int, (first.property@, first.comparison)),
{
    let rule = Rule { hazard, risk, clauses: vec![first] };
    assert(rule@.clauses == seq![(first.property@, first.comparison)]);
    rule
}

fn two(hazard: Hazard, risk: u8, first: Clause, second: Clause) -> (rule: Rule)
    ensures
        rule@ == rule_of_two(
            hazard,
            risk as int,
            (first.property@, first.comparison),
            (second.property@, second.comparison),
        ),
{
    let rule = Rule { hazard, risk, clauses: vec![first, second] };
    assert(rule@.clauses == seq![
        (first.property@, first.comparison),
        (second.property@, second.comparison),
    ]);
    rule
}

fn three(hazard: Hazard, risk: u8, first: Clause, second: Clause, third: Clause) -> (rule: Rule)
    ensures
        rule@ == rule_of_three(
            hazard,
            risk as int,
            (first.property@, first.comparison),
            (second.property@, second.comparison),
            (third.property@, third.comparison),
        ),
{
    let rule = Rule { hazard, risk, clauses: vec![first, second, third] };
    assert(rule@.clauses == seq![
        (first.property@, first.comparison),
        (second.property@, second.comparison),
        (third.property@, third.comparison),
    ]);
    rule
}

/// The hazards of a lamp: the brighter it is while it is on, the more it consumes and the hotter
/// it gets.
pub fn lamp_hazards() -> (rules: Vec<Rule>)
    ensures
        ({
            let on = ("/properties/on"@, Comparison::Is(true));
            let bright = |level: u8| ("/properties/brightness"@, Comparison::IsAtLeast(level));
            let power = Hazard::ElectricEnergyConsumption;
            table(rules@) == seq![
                rule_of_one(power, 1, on),
                rule_of_two(power, 2, on, bright(30)),
                rule_of_two(power, 3, on, bright(60)),
                rule_of_two(power, 3, on, bright(90)),
                rule_of_two(Hazard::Scald, 1, on, bright(30)),
                rule_of_two(Hazard::Scald, 2, on, bright(60)),
            ]
        }),
        names_only(table(rules@), lamp_paths()),
{
    proof {
        let paths = lamp_paths();
        assert(paths[0] == "/properties/on"@ && paths[1] == "/properties/brightness"@);
    }
    let on = clause("/properties/on", Comparison::Is(true));
    let dim = clause("/properties/brightness", Comparison::IsAtLeast(30));
    let bright = clause("/properties/brightness", Comparison::IsAtLeast(60));
    let dazzling = clause("/properties/brightness", Comparison::IsAtLeast(90));
    vec![
        one(Hazard::ElectricEnergyConsumption, 1, on),
        two(Hazard::ElectricEnergyConsumption, 2, on, dim),
        two(Hazard::ElectricEnergyConsumption, 3, on, bright),
        two(Hazard::ElectricEnergyConsumption, 3, on, dazzling),
        two(Hazard::Scald, 1, on, dim),
        two(Hazard::Scald, 2, on, bright),
    ]
}

/// The hazards of a sink: it overflows while water comes in, the more so with the drain closed, and
/// hot water burns.
pub fn sink_hazards() -> (rules: Vec<Rule>)
    ensures
        ({
            let flowing = ("/properties/flow"@, Comparison::IsOver(0));
            let gushing = ("/properties/flow"@, Comparison::IsAtLeast(80));
            let drain = |open: bool| ("/properties/drain"@, Comparison::Is(open));
            let full = ("/properties/level"@, Comparison::IsAtLeast(90));
            let hot = ("/properties/temperature"@, Comparison::IsAtLeast(80));
            table(rules@) == seq![
                rule_of_two(Hazard::WaterFlooding, 1, flowing, drain(true)),
                rule_of_two(Hazard::WaterFlooding, 3, flowing, drain(false)),
                rule_of_two(Hazard::WaterFlooding, 5, gushing, drain(false)),
                rule_of_three(Hazard::WaterFlooding, 8, flowing, drain(false), full),
                rule_of_two(Hazard::Burn, 3, flowing, hot),
            ]
        }),
        names_only(table(rules@), sink_paths()),
{
    proof {
        let paths = sink_paths();
        assert(paths[0] == "/properties/drain"@ && paths[1] == "/properties/flow"@ && paths[2]
            == "/properties/temperature"@ && paths[3] == "/properties/level"@);
    }
    let flowing = clause("/properties/flow", Comparison::IsOver(0));
    let gushing = clause("/properties/flow", Comparison::IsAtLeast(80));
    let open = clause("/properties/drain", Comparison::Is(true));
    let closed_drain = clause("/properties/drain", Comparison::Is(false));
    let full = clause("/properties/level", Comparison::IsAtLeast(90));
    let hot = clause("/properties/temperature", Comparison::IsAtLeast(80));
    vec![
        two(Hazard::WaterFlooding, 1, flowing, open),
        two(Hazard::WaterFlooding, 3, flowing, closed_drain),
        two(Hazard::WaterFlooding, 5, gushing, closed_drain),
        three(Hazard::WaterFlooding, 8, flowing, closed_drain, full),
        two(Hazard::Burn, 3, flowing, hot),
    ]
}

} // verus!
