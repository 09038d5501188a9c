use gauge_emulator::dispatch::{
    configuration, handle_message, simulate, COOLANT_SPAN_RAW, OIL_SPAN_RAW,
};
use gauge_emulator::dto::{GaugeConfig, GaugeTheme, InMessage, OutMessage};
use gauge_emulator::fixed::{Factor, Fixed, ONE};

fn arity(message: &OutMessage) -> (usize, usize, usize) {
    match message {
        OutMessage::Configuration { message } => (
            message.display1.gauges.len(),
            message.display2.gauges.len(),
            message.display3.gauges.len(),
        ),
        OutMessage::Data { message } => (
            message.display1.gauges.len(),
            message.display2.gauges.len(),
            message.display3.gauges.len(),
        ),
    }
}

#[test]
fn spans_are_77_and_six_and_a_half() {
    assert_eq!(COOLANT_SPAN_RAW, 77 * ONE);
    assert_eq!(2 * OIL_SPAN_RAW, 13 * ONE);
}

#[test]
fn configuration_holds_coolant_and_oil() {
    let message = configuration();
    assert_eq!(message.theme, GaugeTheme::default());
    assert_eq!(
        message.display1.gauges,
        vec![GaugeConfig {
            name: String::from("COOLANT"),
            units: String::from("C"),
            format: String::from("%.0f"),
            min: Fixed::from_int(0),
            max: Fixed::from_int(130),
            low_value: Fixed::from_int(60),
            high_value: Fixed::from_int(100),
        }]
    );
    assert_eq!(
        message.display2.gauges,
        vec![GaugeConfig {
            name: String::from("OIL"),
            units: String::from("bar"),
            format: String::from("%.2f"),
            min: Fixed::from_int(0),
            max: Fixed::from_int(10),
            low_value: Fixed::from_int(1),
            high_value: Fixed::from_int(8),
        }]
    );
    assert!(message.display3.gauges.is_empty());
}

#[test]
fn request_for_configuration_gets_the_configuration() {
    let response = handle_message(&InMessage::NeedGaugeConfig {});
    assert_eq!(response, Some(OutMessage::Configuration { message: configuration() }));
}

#[test]
fn configuration_is_the_same_every_time() {
    let first = handle_message(&InMessage::NeedGaugeConfig {});
    let second = handle_message(&InMessage::NeedGaugeConfig {});
    assert!(first.is_some());
    assert_eq!(first, second);
}

#[test]
fn simulate_at_half() {
    let data = simulate(Factor::new(8_388_608).unwrap());
    assert_eq!(data.display1.gauges.len(), 1);
    assert_eq!(data.display2.gauges.len(), 1);
    assert!(data.display3.gauges.is_empty());
    assert_eq!(data.display1.gauges[0].current_value.raw, 1_291_845_632);
    assert_eq!(data.display2.gauges[0].current_value.raw, 109_051_904);
    assert_eq!(data.display1.gauges[0].current_value.raw as f64 / ONE as f64, 38.5);
    assert_eq!(data.display2.gauges[0].current_value.raw as f64 / ONE as f64, 3.25);
}

#[test]
fn simulate_at_the_ends() {
    let low = simulate(Factor::new(0).unwrap());
    assert_eq!(low.display1.gauges[0].current_value.raw, 0);
    assert_eq!(low.display2.gauges[0].current_value.raw, 0);
    let high = simulate(Factor::new(16_777_215).unwrap());
    assert_eq!(high.display1.gauges[0].current_value.raw, 154 * 16_777_215);
    assert_eq!(high.display2.gauges[0].current_value.raw, 13 * 16_777_215);
    assert!(high.display1.gauges[0].current_value.raw < COOLANT_SPAN_RAW);
    assert!(high.display2.gauges[0].current_value.raw < OIL_SPAN_RAW);
}

#[test]
fn simulated_readings_are_exact_multiples_of_the_numerator() {
    for numerator in [1u32, 2, 3, 255, 65_536, 1_000_003, 16_777_214] {
        let data = simulate(Factor::new(numerator).unwrap());
        assert_eq!(data.display1.gauges[0].current_value.raw, 154 * numerator as i64);
        assert_eq!(data.display2.gauges[0].current_value.raw, 13 * numerator as i64);
    }
}

#[test]
fn request_for_data_gets_readings_within_bounds_and_in_lockstep() {
    for _ in 0..200 {
        let response = handle_message(&InMessage::NeedGaugeData {});
        let data = match response {
            Some(OutMessage::Data { message }) => message,
            other => panic!("unexpected {:?}", other),
        };
        assert_eq!(data.display1.gauges.len(), 1);
        assert_eq!(data.display2.gauges.len(), 1);
        assert!(data.display3.gauges.is_empty());
        let coolant = data.display1.gauges[0];
        let oil = data.display2.gauges[0];
        assert!(0 <= coolant.current_value.raw && coolant.current_value.raw < COOLANT_SPAN_RAW);
        assert!(0 <= oil.current_value.raw && oil.current_value.raw < OIL_SPAN_RAW);
        assert_eq!(
            coolant.current_value.raw as i128 * OIL_SPAN_RAW as i128,
            oil.current_value.raw as i128 * COOLANT_SPAN_RAW as i128
        );
        assert!(!coolant.is_offline());
        assert!(!oil.is_offline());
        let value1 = coolant.current_value.raw as f64 / ONE as f64;
        let value2 = oil.current_value.raw as f64 / ONE as f64;
        assert!((0.0..=77.0).contains(&value1));
        assert!((0.0..=6.5).contains(&value2));
        assert!((value1 / 77.0 - value2 / 6.5).abs() < 1e-9);
    }
}

#[test]
fn readings_change_from_request_to_request() {
    let mut seen = Vec::new();
    for _ in 0..32 {
        match handle_message(&InMessage::NeedGaugeData {}) {
            Some(OutMessage::Data { message }) => {
                seen.push(message.display1.gauges[0].current_value.raw)
            }
            other => panic!("unexpected {:?}", other),
        }
    }
    seen.sort();
    seen.dedup();
    assert!(seen.len() > 1);
}

#[test]
fn every_response_has_the_arity_of_the_configuration() {
    let expected = arity(&OutMessage::Configuration { message: configuration() });
    assert_eq!(expected, (1, 1, 0));
    for request in [InMessage::NeedGaugeConfig {}, InMessage::NeedGaugeData {}] {
        let response = handle_message(&request).unwrap();
        assert_eq!(arity(&response), expected);
        assert_eq!(response.type_tag(), request.type_tag());
    }
}
