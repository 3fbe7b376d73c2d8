use telemetry::decimal::format_u32;
use telemetry::emission::{emission_step, roll_die, DIE_HIGH, DIE_LOW, LOOP_INTERVAL_SECS};
use telemetry::metrics::guage;
use telemetry::providers::{
    init_resource, install_meter_provider, InitError, ProviderConfig, ProviderSlot,
    FLUSH_INTERVAL_SECS,
};

#[test]
fn die_roll_stays_on_the_die() {
    let mut rng = rand::thread_rng();
    let mut seen = [false; 8];
    for _ in 0..2000 {
        let v = roll_die(&mut rng);
        assert!((1..=6).contains(&v), "rolled {}", v);
        seen[v as usize] = true;
    }
    // The inclusive lower bound is reachable; the exclusive upper bound never is.
    assert!(seen[1]);
    assert!(!seen[0]);
    assert!(!seen[7]);
}

#[test]
fn die_roll_bounds_are_the_constants() {
    assert_eq!(DIE_LOW, 1);
    assert_eq!(DIE_HIGH, 7);
}

#[test]
fn printed_line_matches_recorded_value() {
    let mut rng = rand::thread_rng();
    for _ in 0..200 {
        let step = emission_step(&mut rng);
        assert_eq!(step.line, format!("{}", step.value));
        assert!(step.attributes.is_empty());
        assert_eq!(step.sleep_secs, LOOP_INTERVAL_SECS);
    }
}

#[test]
fn decimal_rendering_exact_values() {
    assert_eq!(format_u32(0), "0");
    assert_eq!(format_u32(4), "4");
    assert_eq!(format_u32(10), "10");
    assert_eq!(format_u32(123), "123");
    assert_eq!(format_u32(4_294_967_295), "4294967295");
}

#[test]
fn resource_construction_is_pure() {
    let a = init_resource(String::from("dice_roll_service"));
    let b = init_resource(String::from("dice_roll_service"));
    assert_eq!(a.attributes.len(), 1);
    assert_eq!(b.attributes.len(), 1);
    assert_eq!(a.attributes[0].key, "service.name");
    assert_eq!(a.attributes[0].key, b.attributes[0].key);
    assert_eq!(a.attributes[0].value, "dice_roll_service");
    assert_eq!(a.attributes[0].value, b.attributes[0].value);
}

#[test]
fn empty_service_name_is_accepted_as_is() {
    let r = init_resource(String::new());
    assert_eq!(r.attributes.len(), 1);
    assert_eq!(r.attributes[0].key, "service.name");
    assert_eq!(r.attributes[0].value, "");
}

#[test]
fn installation_is_last_write_wins() {
    let mut slot = ProviderSlot::new();
    let first = ProviderConfig {
        resource: init_resource(String::from("first_service")),
        flush_interval_secs: FLUSH_INTERVAL_SECS,
    };
    let second = ProviderConfig {
        resource: init_resource(String::from("second_service")),
        flush_interval_secs: FLUSH_INTERVAL_SECS,
    };
    slot.install(first);
    slot.install(second);
    let g = guage(
        &slot,
        String::from("dice_roll"),
        String::from("the value of a dice roll"),
        String::from("side"),
    );
    let routed = g.provider.expect("a gauge created after installation routes to a provider");
    assert_eq!(routed.resource.attributes[0].value, "second_service");
}

#[test]
fn dice_roll_scenario() {
    let mut slot = ProviderSlot::new();
    slot.install(ProviderConfig {
        resource: init_resource(String::from("dice_roll_service")),
        flush_interval_secs: FLUSH_INTERVAL_SECS,
    });
    let g = guage(
        &slot,
        String::from("dice_roll"),
        String::from("the value of a dice roll"),
        String::from("side"),
    );
    assert_eq!(g.config.meter_name, "ponix-gateway");
    assert_eq!(g.config.name, "dice_roll");
    assert_eq!(g.config.description, "the value of a dice roll");
    assert_eq!(g.config.unit, "side");

    // An iteration that produced the value 4: the output line is `4` and the
    // recorded reading is 4.0 with an empty attribute set.
    let value: u32 = 4;
    let line = format_u32(value);
    assert_eq!(line, "4");
    let recorded = f64::from(value);
    assert_eq!(recorded, 4.0);
}

#[test]
fn failed_exporter_construction_installs_nothing() {
    let mut slot = ProviderSlot::new();
    let resource = init_resource(String::from("dice_roll_service"));
    let outcome = install_meter_provider(
        &mut slot,
        &resource,
        Err(String::from("transport could not be configured")),
    );
    let error: InitError = outcome.expect_err("a failed exporter must abort initialization");
    assert_eq!(error.message, "transport could not be configured");
    // Startup did not proceed: no provider was installed.
    assert!(slot.active.is_none());
}

#[test]
fn flush_and_loop_intervals() {
    assert_eq!(FLUSH_INTERVAL_SECS, 1);
    assert_eq!(LOOP_INTERVAL_SECS, 3);
}
