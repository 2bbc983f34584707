//! Typed model of the devices, channels, parameters and service messages of a
//! HomeMatic control unit, decoded from the dynamically typed values of its
//! remote procedure calls.
//!
//! The transport hands over a [`Value`] tree. The decoders turn it into the
//! entities of this crate or into a [`DecodeError`]; they never decode an
//! entity in part. Each decoder comes with a specification function that
//! says what every wire value decodes to.

use vstd::prelude::*;

pub mod de;
pub mod device;
pub mod error;
pub mod field;
pub mod flags;
pub mod listing;
pub mod output;
pub mod param;
pub mod service_message;
pub mod text;
pub mod value;

pub use crate::device::{decode_device_list, ChannelDirection, DeviceDescription, InstallMode};
pub use crate::error::{DecodeError, ExpectedKind};
pub use crate::flags::{DeviceDeleteFlags, DeviceFlags, RxMode};
pub use crate::param::{
    decode_paramset, decode_paramset_description, BoolParameterDescription,
    EnumParameterDescription, FloatParameterDescription, IntegerParameterDescription,
    ParameterDescription, ParameterKind, Paramset, ParamsetDescription, SpecialF32, SpecialI32,
    StringParameterDescription,
};
pub use crate::service_message::{decode_service_messages, ServiceMessage};
pub use crate::value::Value;

verus! {

/// TCP port on which the interface process for wired BidCos devices listens.
pub const BIDCOS_WIRED_PORT: u16 = 2001;

/// TCP port on which the interface process for radio BidCos devices listens.
pub const BIDCOS_RF_PORT: u16 = 2010;

} // verus!
