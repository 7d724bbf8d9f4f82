use demo_things::hazard::{lamp_hazards, sink_hazards, Clause, Comparison, Hazard, Rule};

fn clause(property: &'static str, comparison: Comparison) -> Clause {
    Clause {
        property,
        comparison,
    }
}

#[test]
fn hazards_of_a_lamp() {
    let on = clause("/properties/on", Comparison::Is(true));
    let bright = |level| clause("/properties/brightness", Comparison::IsAtLeast(level));
    let rule = |hazard, risk, clauses| Rule {
        hazard,
        risk,
        clauses,
    };
    let power = Hazard::ElectricEnergyConsumption;
    assert_eq!(
        lamp_hazards(),
        vec![
            rule(power, 1, vec![on]),
            rule(power, 2, vec![on, bright(30)]),
            rule(power, 3, vec![on, bright(60)]),
            rule(power, 3, vec![on, bright(90)]),
            rule(Hazard::Scald, 1, vec![on, bright(30)]),
            rule(Hazard::Scald, 2, vec![on, bright(60)]),
        ]
    );
}

#[test]
fn hazards_of_a_sink() {
    let rules: Vec<_> = sink_hazards()
        .into_iter()
        .map(|rule| (rule.hazard, rule.risk, rule.clauses))
        .collect();
    let flowing = clause("/properties/flow", Comparison::IsOver(0));
    let drain = |open| clause("/properties/drain", Comparison::Is(open));
    assert_eq!(
        rules,
        vec![
            (Hazard::WaterFlooding, 1, vec![flowing, drain(true)]),
            (Hazard::WaterFlooding, 3, vec![flowing, drain(false)]),
            (
                Hazard::WaterFlooding,
                5,
                vec![
                    clause("/properties/flow", Comparison::IsAtLeast(80)),
                    drain(false)
                ]
            ),
            (
                Hazard::WaterFlooding,
                8,
                vec![
                    flowing,
                    drain(false),
                    clause("/properties/level", Comparison::IsAtLeast(90))
                ]
            ),
            (
                Hazard::Burn,
                3,
                vec![
                    flowing,
                    clause("/properties/temperature", Comparison::IsAtLeast(80))
                ]
            ),
        ]
    );
}
