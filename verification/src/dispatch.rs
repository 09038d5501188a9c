//! Which response answers a request.
//!
//! The configuration is fixed: one coolant gauge on the first display, one
//! oil gauge on the second, nothing on the third. The data are simulated: one
//! random factor per request scales both gauges, so the two readings move in
//! lockstep.

use crate::dto::{
    Arity, Configuration, ConfigurationView, Data, DataView, DisplayConfiguration, DisplayData,
    GaugeConfig, GaugeConfigView, GaugeData, GaugeTheme, InMessage, OutMessage, OutMessageView,
    OLED_COLOR_BLUE, OLED_COLOR_RED, OLED_COLOR_WARM,
};
use crate::fixed::{Factor, Fixed, FACTOR_SCALE, OFFLINE_RAW, ONE};
use rand::Rng;
use vstd::prelude::*;

verus! {

/// The raw value of 77.0, the reading of the coolant gauge at factor one.
pub const COOLANT_SPAN_RAW: i64 = 2_583_691_264;

/// The raw value of 6.5, the reading of the oil gauge at factor one.
pub const OIL_SPAN_RAW: i64 = 218_103_808;

/// The coolant gauge: degrees Celsius without decimals, from 0 to 130, low
/// below 60 and high above 100.
pub open spec fn coolant_gauge() -> GaugeConfigView {
    GaugeConfigView {
        name: "COOLANT"@,
        units: "C"@,
        format: "%.0f"@,
        min: Fixed::whole(0),
        max: Fixed::whole(130),
        low_value: Fixed::whole(60),
        high_value: Fixed::whole(100),
    }
}

/// The oil gauge: bar with two decimals, from 0 to 10, low below 1 and high
/// above 8.
pub open spec fn oil_gauge() -> GaugeConfigView {
    GaugeConfigView {
        name: "OIL"@,
        units: "bar"@,
        format: "%.2f"@,
        min: Fixed::whole(0),
        max: Fixed::whole(10),
        low_value: Fixed::whole(1),
        high_value: Fixed::whole(8),
    }
}

/// The configuration that every session sends.
pub open spec fn standard_configuration() -> ConfigurationView {
    ConfigurationView {
        theme: GaugeTheme {
            ok_color: OLED_COLOR_WARM,
            low_color: OLED_COLOR_BLUE,
            high_color: OLED_COLOR_RED,
            alert_color: OLED_COLOR_RED,
        },
        display1: seq![coolant_gauge()],
        display2: seq![oil_gauge()],
        display3: Seq::empty(),
    }
}

/// How many gauges each display has under the standard configuration.
pub open spec fn standard_arity() -> Arity {
    Arity { display1: 1, display2: 1, display3: 0 }
}

/// The readings at a factor: 77.0 times the factor on the first display, 6.5
/// times the factor on the second, nothing on the third.
pub open spec fn simulated_data(factor: Factor) -> DataView {
    DataView {
        display1: seq![
            GaugeData { current_value: (Fixed { raw: COOLANT_SPAN_RAW }).scaled(factor) },
        ],
        display2: seq![GaugeData { current_value: (Fixed { raw: OIL_SPAN_RAW }).scaled(factor) }],
        display3: Seq::empty(),
    }
}

/// Whether `response` answers `request`: the standard configuration for a
/// request for it, the readings at some factor for a request for data.
pub open spec fn answers(request: InMessage, response: OutMessageView) -> bool {
    match request {
        InMessage::NeedGaugeConfig {  } => response == (OutMessageView::Configuration {
            message: standard_configuration(),
        }),
        InMessage::NeedGaugeData {  } => exists|factor: Factor|
            factor.wf() && response == (OutMessageView::Data {
                message: #[trigger] simulated_data(factor),
            }),
    }
}

/// Whether readings are as simulated ones must be: one reading on each of
/// the first two displays and none on the third; the first from zero up to
/// 77.0, the second from zero up to 6.5; the two in the proportion of 77.0
/// to 6.5, which is to say at one factor; and neither the value that stands
/// for "sensor offline".
pub open spec fn in_lockstep(data: DataView) -> bool {
    &&& data.display1.len() == 1
    &&& data.display2.len() == 1
    &&& data.display3.len() == 0
    &&& 0 <= data.display1[0].current_value.raw <= COOLANT_SPAN_RAW
    &&& 0 <= data.display2[0].current_value.raw <= OIL_SPAN_RAW
    &&& data.display1[0].current_value.raw * OIL_SPAN_RAW == data.display2[0].current_value.raw
        * COOLANT_SPAN_RAW
    &&& !data.display1[0].offline()
    &&& !data.display2[0].offline()
}

/// The simulated readings are exact multiples of the factor's numerator; so
/// they lie between zero and their gauge's span, which is 77.0 and 6.5, they
/// stand to each other as 77.0 to 6.5 whatever the factor, and neither is
/// ever the value that stands for "sensor offline".
pub proof fn lemma_simulated_data(factor: Factor)
    requires
        factor.wf(),
    ensures
        simulated_data(factor).display1[0].current_value.raw == 154 * factor.numerator,
        simulated_data(factor).display2[0].current_value.raw == 13 * factor.numerator,
        COOLANT_SPAN_RAW == 77 * ONE,
        2 * OIL_SPAN_RAW == 13 * ONE,
        in_lockstep(simulated_data(factor)),
{
    let n = factor.numerator as int;
    assert((COOLANT_SPAN_RAW * n) / (FACTOR_SCALE as int) == 154 * n) by {
        assert(COOLANT_SPAN_RAW * n == (154 * n) * 16_777_216);
    }
    assert((OIL_SPAN_RAW * n) / (FACTOR_SCALE as int) == 13 * n) by {
        assert(OIL_SPAN_RAW * n == (13 * n) * 16_777_216);
    }
}

/// Every response to a request has the arity of the configuration that a
/// session sends, and travels under the discriminant of its request.
pub proof fn lemma_answers_arity(request: InMessage, response: OutMessageView)
    requires
        answers(request, response),
    ensures
        response.arity() == standard_arity(),
        response.arity() == (OutMessageView::Configuration {
            message: standard_configuration(),
        }).arity(),
        response.type_tag() == request.tag(),
{
}

/// Asked twice for the configuration, the dispatcher gives the same value
/// twice.
pub proof fn lemma_configuration_deterministic(first: OutMessageView, second: OutMessageView)
    requires
        answers(InMessage::NeedGaugeConfig {  }, first),
        answers(InMessage::NeedGaugeConfig {  }, second),
    ensures
        first == second,
{
}

/// `rand::thread_rng` and `Rng::gen`: 32 bits from the thread's generator.
/// Nothing is known of them.
#[verifier::external_body]
fn random_bits() -> u32 {
    rand::thread_rng().gen::<u32>()
}

fn coolant_config() -> (gauge: GaugeConfig)
    ensures
        gauge@ == coolant_gauge(),
{
    GaugeConfig {
        name: "COOLANT".to_owned(),
        units: "C".to_owned(),
        format: "%.0f".to_owned(),
        min: Fixed::from_int(0),
        max: Fixed::from_int(130),
        low_value: Fixed::from_int(60),
        high_value: Fixed::from_int(100),
    }
}

fn oil_config() -> (gauge: GaugeConfig)
    ensures
        gauge@ == oil_gauge(),
{
    GaugeConfig {
        name: "OIL".to_owned(),
        units: "bar".to_owned(),
        format: "%.2f".to_owned(),
        min: Fixed::from_int(0),
        max: Fixed::from_int(10),
        low_value: Fixed::from_int(1),
        high_value: Fixed::from_int(8),
    }
}

/// The configuration that every session sends.
pub fn configuration() -> (message: Configuration)
    ensures
        message@ == standard_configuration(),
{
    let mut first: Vec<GaugeConfig> = Vec::new();
    first.push(coolant_config());
    let mut second: Vec<GaugeConfig> = Vec::new();
    second.push(oil_config());
    let message = Configuration {
        theme: GaugeTheme::default(),
        display1: DisplayConfiguration { gauges: first },
        display2: DisplayConfiguration { gauges: second },
        display3: DisplayConfiguration { gauges: Vec::new() },
    };
    assert(message.display1@ =~= seq![coolant_gauge()]);
    assert(message.display2@ =~= seq![oil_gauge()]);
    assert(message.display3@ =~= Seq::empty());
    message
}

/// The readings at a factor.
pub fn simulate(factor: Factor) -> (message: Data)
    requires
        factor.wf(),
    ensures
        message@ == simulated_data(factor),
        in_lockstep(message@),
{
    proof {
        lemma_simulated_data(factor);
    }
    let coolant = Fixed { raw: COOLANT_SPAN_RAW }.scale(factor);
    let oil = Fixed { raw: OIL_SPAN_RAW }.scale(factor);
    let mut first: Vec<GaugeData> = Vec::new();
    first.push(GaugeData { current_value: coolant });
    let mut second: Vec<GaugeData> = Vec::new();
    second.push(GaugeData { current_value: oil });
    let message = Data {
        display1: DisplayData { gauges: first },
        display2: DisplayData { gauges: second },
        display3: DisplayData { gauges: Vec::new() },
    };
    assert(message.display1@ =~= simulated_data(factor).display1);
    assert(message.display2@ =~= simulated_data(factor).display2);
    assert(message.display3@ =~= simulated_data(factor).display3);
    message
}

/// The response to a request. Every request there is has one; `None` is for
/// a kind of request that asks for no reply, and a caller must then write
/// nothing.
pub fn handle_message(message: &InMessage) -> (response: Option<OutMessage>)
    ensures
        response matches Some(out) && answers(*message, out@),
        response matches Some(out) && out@.arity() == standard_arity(),
        message is NeedGaugeData ==> (response matches Some(OutMessage::Data { message: data })
            && in_lockstep(data@)),
{
    match message {
        InMessage::NeedGaugeConfig {  } => Some(
            OutMessage::Configuration { message: configuration() },
        ),
        InMessage::NeedGaugeData {  } => {
            let factor = Factor::from_bits(random_bits());
            let out = OutMessage::Data { message: simulate(factor) };
            assert(out@ == (OutMessageView::Data { message: simulated_data(factor) }));
            Some(out)
        },
    }
}

} // verus!
