//! The closed sets of configuration values the camera accepts, and the byte
//! code each value is written to its register as.

use vstd::prelude::*;

verus! {

/// The type of camera module detected on the bus.
#[derive(Debug, Clone, PartialEq, Eq, Structural)]
pub enum CameraType {
    /// The 5-megapixel module.
    OV5640,
    /// The 3-megapixel module.
    OV3640,
    /// A sensor identifier this driver does not know.
    Unknown(u8),
}

/// The camera type a sensor identifier byte stands for.
pub open spec fn camera_type_of(id: u8) -> CameraType {
    if id == 0x81 {
        CameraType::OV5640
    } else if id == 0x82 {
        CameraType::OV3640
    } else {
        CameraType::Unknown(id)
    }
}

impl From<u8> for CameraType {
    fn from(id: u8) -> (r: Self) {
        if id == 0x81 {
            CameraType::OV5640
        } else if id == 0x82 {
            CameraType::OV3640
        } else {
            CameraType::Unknown(id)
        }
    }
}

impl vstd::std_specs::convert::FromSpecImpl<u8> for CameraType {
    open spec fn obeys_from_spec() -> bool {
        true
    }

    open spec fn from_spec(id: u8) -> Self {
        camera_type_of(id)
    }
}

/// Camera controls that can be switched between automatic and manual.
#[derive(Debug, Clone, Copy)]
pub enum CameraControl {
    Gain,
    Exposure,
    WhiteBalance,
}

impl CameraControl {
    /// The control's byte code.
    pub open spec fn spec_code(self) -> u8 {
        match self {
            CameraControl::Gain => 0x00,
            CameraControl::Exposure => 0x01,
            CameraControl::WhiteBalance => 0x02,
        }
    }

    /// The control's byte code.
    #[verifier::when_used_as_spec(spec_code)]
    pub fn code(self) -> (c: u8)
        ensures
            c == self.spec_code(),
    {
        match self {
            CameraControl::Gain => 0x00,
            CameraControl::Exposure => 0x01,
            CameraControl::WhiteBalance => 0x02,
        }
    }
}

/// Whether an automatic control is switched on or off.
#[derive(Debug, Clone, Copy)]
pub enum ControlValue {
    Disable,
    Enable,
}

impl ControlValue {
    /// The value's byte code.
    pub open spec fn spec_code(self) -> u8 {
        match self {
            ControlValue::Disable => 0x00,
            ControlValue::Enable => 0x80,
        }
    }

    /// The value's byte code.
    #[verifier::when_used_as_spec(spec_code)]
    pub fn code(self) -> (c: u8)
        ensures
            c == self.spec_code(),
    {
        match self {
            ControlValue::Disable => 0x00,
            ControlValue::Enable => 0x80,
        }
    }
}

/// The camera's power modes.
#[derive(Debug, Clone, Copy)]
pub enum PowerMode {
    LowPower,
    Normal,
}

impl PowerMode {
    /// The mode's byte code.
    pub open spec fn spec_code(self) -> u8 {
        match self {
            PowerMode::LowPower => 0x07,
            PowerMode::Normal => 0x05,
        }
    }

    /// The mode's byte code.
    #[verifier::when_used_as_spec(spec_code)]
    pub fn code(self) -> (c: u8)
        ensures
            c == self.spec_code(),
    {
        match self {
            PowerMode::LowPower => 0x07,
            PowerMode::Normal => 0x05,
        }
    }
}

/// The format captured image data is delivered in.
#[derive(Debug, Clone, Copy)]
pub enum Format {
    /// Compressed output; the default.
    Jpeg,
    Rgb,
    Yuv,
}

impl Format {
    /// The format's byte code.
    pub open spec fn spec_code(self) -> u8 {
        match self {
            Format::Jpeg => 0x01,
            Format::Rgb => 0x02,
            Format::Yuv => 0x03,
        }
    }

    /// The format's byte code.
    #[verifier::when_used_as_spec(spec_code)]
    pub fn code(self) -> (c: u8)
        ensures
            c == self.spec_code(),
    {
        match self {
            Format::Jpeg => 0x01,
            Format::Rgb => 0x02,
            Format::Yuv => 0x03,
        }
    }
}

impl Default for Format {
    fn default() -> (r: Self)
        ensures
            r == Format::Jpeg,
    {
        Format::Jpeg
    }
}

/// The resolution of captured images. Not every hardware variant supports
/// every entry.
#[derive(Debug, Clone, Copy)]
pub enum Resolution {
    /// 160 x 120.
    Qqvga,
    /// 320 x 240.
    Qvga,
    /// 640 x 480.
    Vga,
    /// 800 x 600.
    Svga,
    /// 1280 x 720.
    Hd,
    /// 1280 x 960.
    Sxgam,
    /// 1600 x 1200.
    Uxga,
    /// 1920 x 1080; the default.
    Fhd,
    /// 2048 x 1536.
    Qxga,
    /// 2592 x 1944.
    Wqxga2,
    /// 96 x 96.
    Res96x96,
    /// 128 x 128.
    Res128x128,
    /// 320 x 320.
    Res320x320,
}

impl Resolution {
    /// The resolution's byte code.
    pub open spec fn spec_code(self) -> u8 {
        match self {
            Resolution::Qqvga => 0x00,
            Resolution::Qvga => 0x01,
            Resolution::Vga => 0x02,
            Resolution::Svga => 0x03,
            Resolution::Hd => 0x04,
            Resolution::Sxgam => 0x05,
            Resolution::Uxga => 0x06,
            Resolution::Fhd => 0x07,
            Resolution::Qxga => 0x08,
            Resolution::Wqxga2 => 0x09,
            Resolution::Res96x96 => 0x0a,
            Resolution::Res128x128 => 0x0b,
            Resolution::Res320x320 => 0x0c,
        }
    }

    /// The resolution's byte code.
    #[verifier::when_used_as_spec(spec_code)]
    pub fn code(self) -> (c: u8)
        ensures
            c == self.spec_code(),
    {
        match self {
            Resolution::Qqvga => 0x00,
            Resolution::Qvga => 0x01,
            Resolution::Vga => 0x02,
            Resolution::Svga => 0x03,
            Resolution::Hd => 0x04,
            Resolution::Sxgam => 0x05,
            Resolution::Uxga => 0x06,
            Resolution::Fhd => 0x07,
            Resolution::Qxga => 0x08,
            Resolution::Wqxga2 => 0x09,
            Resolution::Res96x96 => 0x0a,
            Resolution::Res128x128 => 0x0b,
            Resolution::Res320x320 => 0x0c,
        }
    }
}

impl Default for Resolution {
    fn default() -> (r: Self)
        ensures
            r == Resolution::Fhd,
    {
        Resolution::Fhd
    }
}

/// The fixed white balance modes; `Auto` leaves the sensor to adjust itself.
#[derive(Debug, Clone, Copy)]
pub enum WhiteBalanceMode {
    Auto,
    Sunny,
    Office,
    Cloudy,
    Home,
}

impl WhiteBalanceMode {
    /// The mode's byte code.
    pub open spec fn spec_code(self) -> u8 {
        match self {
            WhiteBalanceMode::Auto => 0x00,
            WhiteBalanceMode::Sunny => 0x01,
            WhiteBalanceMode::Office => 0x02,
            WhiteBalanceMode::Cloudy => 0x03,
            WhiteBalanceMode::Home => 0x04,
        }
    }

    /// The mode's byte code.
    #[verifier::when_used_as_spec(spec_code)]
    pub fn code(self) -> (c: u8)
        ensures
            c == self.spec_code(),
    {
        match self {
            WhiteBalanceMode::Auto => 0x00,
            WhiteBalanceMode::Sunny => 0x01,
            WhiteBalanceMode::Office => 0x02,
            WhiteBalanceMode::Cloudy => 0x03,
            WhiteBalanceMode::Home => 0x04,
        }
    }
}

impl Default for WhiteBalanceMode {
    fn default() -> (r: Self)
        ensures
            r == WhiteBalanceMode::Auto,
    {
        WhiteBalanceMode::Auto
    }
}

/// Color effects applied to captured images.
#[derive(Debug, Clone, Copy)]
pub enum ColorEffect {
    NoEffect,
    Blueish,
    Redish,
    BlackWhite,
    Sepia,
    Negative,
    GrassGreen,
    OverExposure,
    Solarize,
}

impl ColorEffect {
    /// The effect's byte code.
    pub open spec fn spec_code(self) -> u8 {
        match self {
            ColorEffect::NoEffect => 0x00,
            ColorEffect::Blueish => 0x01,
            ColorEffect::Redish => 0x02,
            ColorEffect::BlackWhite => 0x03,
            ColorEffect::Sepia => 0x04,
            ColorEffect::Negative => 0x05,
            ColorEffect::GrassGreen => 0x06,
            ColorEffect::OverExposure => 0x07,
            ColorEffect::Solarize => 0x08,
        }
    }

    /// The effect's byte code.
    #[verifier::when_used_as_spec(spec_code)]
    pub fn code(self) -> (c: u8)
        ensures
            c == self.spec_code(),
    {
        match self {
            ColorEffect::NoEffect => 0x00,
            ColorEffect::Blueish => 0x01,
            ColorEffect::Redish => 0x02,
            ColorEffect::BlackWhite => 0x03,
            ColorEffect::Sepia => 0x04,
            ColorEffect::Negative => 0x05,
            ColorEffect::GrassGreen => 0x06,
            ColorEffect::OverExposure => 0x07,
            ColorEffect::Solarize => 0x08,
        }
    }
}

impl Default for ColorEffect {
    fn default() -> (r: Self)
        ensures
            r == ColorEffect::NoEffect,
    {
        ColorEffect::NoEffect
    }
}

/// Bias levels for contrast, saturation and exposure.
#[derive(Debug, Clone, Copy)]
pub enum Level {
    Default,
    PlusOne,
    MinusOne,
    PlusTwo,
    MinusTwo,
    PlusThree,
    MinusThree,
}

impl Level {
    /// The level's byte code.
    pub open spec fn spec_code(self) -> u8 {
        match self {
            Level::Default => 0x00,
            Level::PlusOne => 0x01,
            Level::MinusOne => 0x02,
            Level::PlusTwo => 0x03,
            Level::MinusTwo => 0x04,
            Level::PlusThree => 0x05,
            Level::MinusThree => 0x06,
        }
    }

    /// The level's byte code.
    #[verifier::when_used_as_spec(spec_code)]
    pub fn code(self) -> (c: u8)
        ensures
            c == self.spec_code(),
    {
        match self {
            Level::Default => 0x00,
            Level::PlusOne => 0x01,
            Level::MinusOne => 0x02,
            Level::PlusTwo => 0x03,
            Level::MinusTwo => 0x04,
            Level::PlusThree => 0x05,
            Level::MinusThree => 0x06,
        }
    }
}

impl Default for Level {
    fn default() -> (r: Self)
        ensures
            r == Level::Default,
    {
        Level::Default
    }
}

/// Bias levels for brightness, which reaches one step further than [`Level`].
#[derive(Debug, Clone, Copy)]
pub enum BrightnessLevel {
    Default,
    PlusOne,
    MinusOne,
    PlusTwo,
    MinusTwo,
    PlusThree,
    MinusThree,
    PlusFour,
    MinusFour,
}

impl BrightnessLevel {
    /// The level's byte code.
    pub open spec fn spec_code(self) -> u8 {
        match self {
            BrightnessLevel::Default => 0x00,
            BrightnessLevel::PlusOne => 0x01,
            BrightnessLevel::MinusOne => 0x02,
            BrightnessLevel::PlusTwo => 0x03,
            BrightnessLevel::MinusTwo => 0x04,
            BrightnessLevel::PlusThree => 0x05,
            BrightnessLevel::MinusThree => 0x06,
            BrightnessLevel::PlusFour => 0x07,
            BrightnessLevel::MinusFour => 0x08,
        }
    }

    /// The level's byte code.
    #[verifier::when_used_as_spec(spec_code)]
    pub fn code(self) -> (c: u8)
        ensures
            c == self.spec_code(),
    {
        match self {
            BrightnessLevel::Default => 0x00,
            BrightnessLevel::PlusOne => 0x01,
            BrightnessLevel::MinusOne => 0x02,
            BrightnessLevel::PlusTwo => 0x03,
            BrightnessLevel::MinusTwo => 0x04,
            BrightnessLevel::PlusThree => 0x05,
            BrightnessLevel::MinusThree => 0x06,
            BrightnessLevel::PlusFour => 0x07,
            BrightnessLevel::MinusFour => 0x08,
        }
    }
}

impl Default for BrightnessLevel {
    fn default() -> (r: Self)
        ensures
            r == BrightnessLevel::Default,
    {
        BrightnessLevel::Default
    }
}

/// Sharpness settings; `Auto` leaves the sensor to choose.
#[derive(Debug, Clone, Copy)]
pub enum SharpnessLevel {
    Auto,
    One,
    Two,
    Three,
    Four,
    Five,
    Six,
    Seven,
    Eight,
}

impl SharpnessLevel {
    /// The level's byte code.
    pub open spec fn spec_code(self) -> u8 {
        match self {
            SharpnessLevel::Auto => 0x00,
            SharpnessLevel::One => 0x01,
            SharpnessLevel::Two => 0x02,
            SharpnessLevel::Three => 0x03,
            SharpnessLevel::Four => 0x04,
            SharpnessLevel::Five => 0x05,
            SharpnessLevel::Six => 0x06,
            SharpnessLevel::Seven => 0x07,
            SharpnessLevel::Eight => 0x08,
        }
    }

    /// The level's byte code.
    #[verifier::when_used_as_spec(spec_code)]
    pub fn code(self) -> (c: u8)
        ensures
            c == self.spec_code(),
    {
        match self {
            SharpnessLevel::Auto => 0x00,
            SharpnessLevel::One => 0x01,
            SharpnessLevel::Two => 0x02,
            SharpnessLevel::Three => 0x03,
            SharpnessLevel::Four => 0x04,
            SharpnessLevel::Five => 0x05,
            SharpnessLevel::Six => 0x06,
            SharpnessLevel::Seven => 0x07,
            SharpnessLevel::Eight => 0x08,
        }
    }
}

impl Default for SharpnessLevel {
    fn default() -> (r: Self)
        ensures
            r == SharpnessLevel::Auto,
    {
        SharpnessLevel::Auto
    }
}

} // verus!
