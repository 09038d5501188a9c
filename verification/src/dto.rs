//! The messages of the protocol and what they carry.
//!
//! A request comes in as `InMessage`; a response goes out as `OutMessage`.
//! Each type that holds text or a list has a view, its mathematical value,
//! and the contracts of the library speak of views.

use crate::fixed::{Fixed, OFFLINE_RAW};
use vstd::prelude::*;

verus! {

pub const OLED_COLOR_BLACK: u16 = 0x0000;

pub const OLED_COLOR_BLUE: u16 = 0x001F;

pub const OLED_COLOR_RED: u16 = 0xF800;

pub const OLED_COLOR_GREEN: u16 = 0x07E0;

pub const OLED_COLOR_CYAN: u16 = 0x07FF;

pub const OLED_COLOR_MAGENTA: u16 = 0xF81F;

pub const OLED_COLOR_YELLOW: u16 = 0xFFE0;

pub const OLED_COLOR_WARM: u16 = 0xFC00;

pub const OLED_COLOR_WHITE: u16 = 0xFFFF;

/// The discriminant of a configuration message, in either direction.
pub const TYPE_CONFIGURATION: u64 = 1;

/// The discriminant of a data message, in either direction.
pub const TYPE_DATA: u64 = 2;

/// The four colours, packed as RGB565, in which every display draws a gauge
/// according to where its value stands.
#[derive(Clone, Copy, Debug, PartialEq, Eq, Structural)]
pub struct GaugeTheme {
    pub ok_color: u16,
    pub low_color: u16,
    pub high_color: u16,
    pub alert_color: u16,
}

impl Default for GaugeTheme {
    /// Warm where all is well, blue where the value is low, red where it is
    /// high or alarming.
    fn default() -> (theme: GaugeTheme)
        ensures
            theme == (GaugeTheme {
                ok_color: OLED_COLOR_WARM,
                low_color: OLED_COLOR_BLUE,
                high_color: OLED_COLOR_RED,
                alert_color: OLED_COLOR_RED,
            }),
    {
        GaugeTheme {
            ok_color: OLED_COLOR_WARM,
            low_color: OLED_COLOR_BLUE,
            high_color: OLED_COLOR_RED,
            alert_color: OLED_COLOR_RED,
        }
    }
}

/// What the display needs to know to draw one gauge.
#[derive(Clone, Debug, PartialEq)]
pub struct GaugeConfig {
    pub name: String,
    pub units: String,
    pub format: String,
    pub min: Fixed,
    pub max: Fixed,
    pub low_value: Fixed,
    pub high_value: Fixed,
}

/// The value of a `GaugeConfig`.
pub struct GaugeConfigView {
    pub name: Seq<char>,
    pub units: Seq<char>,
    pub format: Seq<char>,
    pub min: Fixed,
    pub max: Fixed,
    pub low_value: Fixed,
    pub high_value: Fixed,
}

impl View for GaugeConfig {
    type V = GaugeConfigView;

    open spec fn view(&self) -> GaugeConfigView {
        GaugeConfigView {
            name: self.name@,
            units: self.units@,
            format: self.format@,
            min: self.min,
            max: self.max,
            low_value: self.low_value,
            high_value: self.high_value,
        }
    }
}

/// What one gauge shows at the moment.
#[derive(Clone, Copy, Debug, PartialEq, Eq, Structural)]
pub struct GaugeData {
    pub current_value: Fixed,
}

impl GaugeData {
    /// Whether this reading says that the sensor is offline.
    pub open spec fn offline(self) -> bool {
        self.current_value.is_offline()
    }

    /// The reading that says that the sensor is offline.
    pub fn offline_value() -> (reading: GaugeData)
        ensures
            reading.offline(),
            reading.current_value.raw == OFFLINE_RAW,
    {
        GaugeData { current_value: Fixed { raw: OFFLINE_RAW } }
    }

    /// Whether this reading says that the sensor is offline.
    pub fn is_offline(&self) -> (offline: bool)
        ensures
            offline == self.offline(),
    {
        self.current_value.raw == OFFLINE_RAW
    }
}

/// The gauges of one display, in the order in which it shows them.
#[derive(Clone, Debug, PartialEq)]
pub struct DisplayConfiguration {
    pub gauges: Vec<GaugeConfig>,
}

impl View for DisplayConfiguration {
    type V = Seq<GaugeConfigView>;

    open spec fn view(&self) -> Seq<GaugeConfigView> {
        self.gauges@.map_values(|gauge: GaugeConfig| gauge@)
    }
}

/// What the three displays show and in which colours.
#[derive(Clone, Debug, PartialEq)]
pub struct Configuration {
    pub theme: GaugeTheme,
    pub display1: DisplayConfiguration,
    pub display2: DisplayConfiguration,
    pub display3: DisplayConfiguration,
}

/// The value of a `Configuration`.
pub struct ConfigurationView {
    pub theme: GaugeTheme,
    pub display1: Seq<GaugeConfigView>,
    pub display2: Seq<GaugeConfigView>,
    pub display3: Seq<GaugeConfigView>,
}

impl View for Configuration {
    type V = ConfigurationView;

    open spec fn view(&self) -> ConfigurationView {
        ConfigurationView {
            theme: self.theme,
            display1: self.display1@,
            display2: self.display2@,
            display3: self.display3@,
        }
    }
}

/// The readings of one display, gauge by gauge.
#[derive(Clone, Debug, PartialEq)]
pub struct DisplayData {
    pub gauges: Vec<GaugeData>,
}

impl View for DisplayData {
    type V = Seq<GaugeData>;

    open spec fn view(&self) -> Seq<GaugeData> {
        self.gauges@
    }
}

/// The readings of the three displays.
#[derive(Clone, Debug, PartialEq)]
pub struct Data {
    pub display1: DisplayData,
    pub display2: DisplayData,
    pub display3: DisplayData,
}

/// The value of a `Data`.
pub struct DataView {
    pub display1: Seq<GaugeData>,
    pub display2: Seq<GaugeData>,
    pub display3: Seq<GaugeData>,
}

impl View for Data {
    type V = DataView;

    open spec fn view(&self) -> DataView {
        DataView {
            display1: self.display1@,
            display2: self.display2@,
            display3: self.display3@,
        }
    }
}

/// A response.
#[allow(inconsistent_fields)]
#[derive(Clone, Debug, PartialEq)]
pub enum OutMessage {
    Configuration { message: Configuration },
    Data { message: Data },
}

/// The value of an `OutMessage`.
#[allow(inconsistent_fields)]
pub enum OutMessageView {
    Configuration { message: ConfigurationView },
    Data { message: DataView },
}

/// How many gauges each of the three displays has.
pub struct Arity {
    pub display1: nat,
    pub display2: nat,
    pub display3: nat,
}

impl OutMessageView {
    /// The discriminant under which the message travels.
    pub open spec fn type_tag(self) -> u64 {
        match self {
            OutMessageView::Configuration { .. } => TYPE_CONFIGURATION,
            OutMessageView::Data { .. } => TYPE_DATA,
        }
    }

    /// How many gauges the message holds for each display.
    pub open spec fn arity(self) -> Arity {
        match self {
            OutMessageView::Configuration { message } => Arity {
                display1: message.display1.len(),
                display2: message.display2.len(),
                display3: message.display3.len(),
            },
            OutMessageView::Data { message } => Arity {
                display1: message.display1.len(),
                display2: message.display2.len(),
                display3: message.display3.len(),
            },
        }
    }
}

impl View for OutMessage {
    type V = OutMessageView;

    open spec fn view(&self) -> OutMessageView {
        match self {
            OutMessage::Configuration { message } => OutMessageView::Configuration {
                message: message@,
            },
            OutMessage::Data { message } => OutMessageView::Data { message: message@ },
        }
    }
}

impl OutMessage {
    /// The discriminant under which the message travels: 1 for a
    /// configuration, 2 for data.
    pub fn type_tag(&self) -> (tag: u64)
        ensures
            tag == self@.type_tag(),
    {
        match self {
            OutMessage::Configuration { .. } => TYPE_CONFIGURATION,
            OutMessage::Data { .. } => TYPE_DATA,
        }
    }
}

/// A request. It carries nothing but its kind.
#[derive(Clone, Copy, Debug, PartialEq, Eq, Structural)]
pub enum InMessage {
    NeedGaugeConfig {  },
    NeedGaugeData {  },
}

impl InMessage {
    /// The request that travels under a discriminant, if there is one.
    pub open spec fn of_tag(tag: u64) -> Option<InMessage> {
        if tag == TYPE_CONFIGURATION {
            Some(InMessage::NeedGaugeConfig {  })
        } else if tag == TYPE_DATA {
            Some(InMessage::NeedGaugeData {  })
        } else {
            None
        }
    }

    /// The discriminant under which the request travels.
    pub open spec fn tag(self) -> u64 {
        match self {
            InMessage::NeedGaugeConfig {  } => TYPE_CONFIGURATION,
            InMessage::NeedGaugeData {  } => TYPE_DATA,
        }
    }

    /// The request that travels under a discriminant: 1 asks for the
    /// configuration, 2 for data, and no other number is a request.
    pub fn from_tag(tag: u64) -> (request: Option<InMessage>)
        ensures
            request == InMessage::of_tag(tag),
    {
        if tag == TYPE_CONFIGURATION {
            Some(InMessage::NeedGaugeConfig {  })
        } else if tag == TYPE_DATA {
            Some(InMessage::NeedGaugeData {  })
        } else {
            None
        }
    }

    /// The discriminant under which the request travels.
    pub fn type_tag(&self) -> (tag: u64)
        ensures
            tag == self.tag(),
            InMessage::of_tag(tag) == Some(*self),
    {
        match self {
            InMessage::NeedGaugeConfig {  } => TYPE_CONFIGURATION,
            InMessage::NeedGaugeData {  } => TYPE_DATA,
        }
    }

    /// The request's name, as it is shown in a log.
    pub fn name(&self) -> (name: &'static str)
        ensures
            name@ == match self {
                InMessage::NeedGaugeConfig {  } => "NeedGaugeConfig"@,
                InMessage::NeedGaugeData {  } => "NeedGaugeData"@,
            },
    {
        match self {
            InMessage::NeedGaugeConfig {  } => "NeedGaugeConfig",
            InMessage::NeedGaugeData {  } => "NeedGaugeData",
        }
    }
}

} // verus!
