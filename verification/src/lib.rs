//! Ajazz library
//!
//! Library for interacting with Ajazz devices: the device catalogue, the input
//! report parser and the image preparation that the devices expect.

use vstd::prelude::*;

pub mod images;
pub mod info;
pub mod protocol;

pub use images::{
    convert_image, convert_image_with_format, convert_mad_dog_gk150w_logo, ImageFormat,
    ImageMirroring, ImageMode, ImageRect, ImageRotation, Rgb8Image,
    MAD_DOG_GK150W_LOGO_MAX_BYTES,
};
pub use info::{is_mirabox_vendor, Kind};

verus! {

#[verifier::external_type_specification]
#[verifier::external_body]
pub struct ExHidError(hidapi::HidError);

#[verifier::external_type_specification]
#[verifier::external_body]
pub struct ExUtf8Error(std::str::Utf8Error);

#[verifier::external_type_specification]
#[verifier::external_body]
pub struct ExImageError(image::ImageError);

#[verifier::external_type_specification]
#[verifier::external_body]
pub struct ExJoinError(tokio::task::JoinError);

/// Errors that can occur while working with Ajazz devices
#[derive(Debug)]
pub enum AjazzError {
    /// HidApi error
    HidError(hidapi::HidError),
    /// Failed to convert bytes into string
    Utf8Error(std::str::Utf8Error),
    /// Failed to encode image
    ImageError(image::ImageError),
    /// Tokio join error
    JoinError(tokio::task::JoinError),
    /// Reader mutex was poisoned
    PoisonError,
    /// Key index is invalid
    InvalidKeyIndex(u8),
    /// Unrecognized Product ID
    UnrecognizedPID(u16),
    /// The device doesn't support doing that
    UnsupportedOperation,
    /// Device sent unexpected data
    BadData,
    /// Invalid image size
    InvalidImageSize(usize, usize, usize, usize),
    /// Device didn't respond with ACK
    NoAck,
}

/// What an input report says, as plain sequences.
pub enum InputState {
    /// No data was passed from the device
    NoData,
    /// New state of every button
    ButtonStateChange(Seq<bool>),
    /// New pressed state of every encoder
    EncoderStateChange(Seq<bool>),
    /// Turn of every encoder
    EncoderTwist(Seq<i8>),
}

/// Type of input that the device produced
#[derive(Clone, Debug)]
pub enum AjazzInput {
    /// No data was passed from the device
    NoData,
    /// Button was pressed
    ButtonStateChange(Vec<bool>),
    /// Encoder/Knob was pressed
    EncoderStateChange(Vec<bool>),
    /// Encoder/Knob was twisted/turned
    EncoderTwist(Vec<i8>),
}

impl View for AjazzInput {
    type V = InputState;

    open spec fn view(&self) -> InputState {
        match self {
            AjazzInput::NoData => InputState::NoData,
            AjazzInput::ButtonStateChange(states) => InputState::ButtonStateChange(states@),
            AjazzInput::EncoderStateChange(states) => InputState::EncoderStateChange(states@),
            AjazzInput::EncoderTwist(values) => InputState::EncoderTwist(values@),
        }
    }
}

impl AjazzInput {
    /// Checks if there's data received or not
    pub fn is_empty(&self) -> (r: bool)
        ensures
            r == (*self is NoData),
    {
        matches!(self, AjazzInput::NoData)
    }
}

/// Tells what changed in button states
#[derive(Copy, Clone, Debug, Hash)]
pub enum Event {
    /// Button got pressed down
    ButtonDown(u8),
    /// Button got released
    ButtonUp(u8),
    /// Encoder got pressed down
    EncoderDown(u8),
    /// Encoder was released from being pressed down
    EncoderUp(u8),
    /// Encoder was twisted
    EncoderTwist(u8, i8),
}

} // verus!
