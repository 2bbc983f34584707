//! A device or channel as it is shown.

use crate::device::{
    decode_device_members, ChannelDirection, DeviceDescription, DeviceDescriptionView,
};
use crate::field::req_int;
use crate::flags::{
    is_set, lemma_display_flags, RxMode, DONT_DELETE, INTERNAL, RX_ALWAYS, RX_BURST, RX_CONFIG,
    RX_LAZY_CONFIG, RX_WAKEUP, VISIBLE,
};
use crate::value::ValueView;
use vstd::prelude::*;

verus! {

/// The direction of a channel in a direct link, as it is shown.
#[derive(Clone, Copy, Debug, PartialEq, Eq, Structural)]
pub enum OutputChannelDirection {
    /// The channel does not support direct linking.
    NotLinkable,
    Sender,
    Receiver,
}

/// The receive modes of a device, one boolean for each.
#[derive(Clone, Copy, Debug, PartialEq, Eq, Structural)]
pub struct OutputRxMode {
    pub always: bool,
    pub burst: bool,
    pub config: bool,
    pub wakeup: bool,
    pub lazy_config: bool,
}

/// A device or channel as it is shown: the parent is absent rather than
/// empty, and the display flags stand as three booleans.
#[derive(Debug)]
pub struct OutputDeviceDescription {
    pub ty: String,
    pub address: String,
    pub rf_address: Option<i32>,
    pub children: Vec<String>,
    /// Address of the parent device; absent for a device.
    pub parent: Option<String>,
    pub parent_type: Option<String>,
    pub index: Option<i32>,
    pub aes: bool,
    pub param_sets: Vec<String>,
    pub firmware: Option<String>,
    pub available_firmware: Option<String>,
    pub updatable: bool,
    pub version: Option<i32>,
    pub visible: bool,
    pub internal: bool,
    pub deletable: bool,
    pub link_source_roles: Option<Vec<String>>,
    pub link_target_roles: Option<Vec<String>>,
    pub direction: Option<OutputChannelDirection>,
    pub group: Option<String>,
    pub team: Option<String>,
    pub team_tag: Option<String>,
    pub team_channels: Option<Vec<String>>,
    pub interface: Option<String>,
    pub roaming: Option<bool>,
    pub rx_mode: Option<OutputRxMode>,
}

/// Mathematical model of an [`OutputDeviceDescription`].
pub ghost struct OutputDeviceDescriptionView {
    pub ty: Seq<char>,
    pub address: Seq<char>,
    pub rf_address: Option<i32>,
    pub children: Seq<Seq<char>>,
    pub parent: Option<Seq<char>>,
    pub parent_type: Option<Seq<char>>,
    pub index: Option<i32>,
    pub aes: bool,
    pub param_sets: Seq<Seq<char>>,
    pub firmware: Option<Seq<char>>,
    pub available_firmware: Option<Seq<char>>,
    pub updatable: bool,
    pub version: Option<i32>,
    pub visible: bool,
    pub internal: bool,
    pub deletable: bool,
    pub link_source_roles: Option<Seq<Seq<char>>>,
    pub link_target_roles: Option<Seq<Seq<char>>>,
    pub direction: Option<OutputChannelDirection>,
    pub group: Option<Seq<char>>,
    pub team: Option<Seq<char>>,
    pub team_tag: Option<Seq<char>>,
    pub team_channels: Option<Seq<Seq<char>>>,
    pub interface: Option<Seq<char>>,
    pub roaming: Option<bool>,
    pub rx_mode: Option<OutputRxMode>,
}

impl View for OutputDeviceDescription {
    type V = OutputDeviceDescriptionView;

    open spec fn view(&self) -> OutputDeviceDescriptionView {
        OutputDeviceDescriptionView {
            ty: self.ty@,
            address: self.address@,
            rf_address: self.rf_address,
            children: self.children.deep_view(),
            parent: self.parent.deep_view(),
            parent_type: self.parent_type.deep_view(),
            index: self.index,
            aes: self.aes,
            param_sets: self.param_sets.deep_view(),
            firmware: self.firmware.deep_view(),
            available_firmware: self.available_firmware.deep_view(),
            updatable: self.updatable,
            version: self.version,
            visible: self.visible,
            internal: self.internal,
            deletable: self.deletable,
            link_source_roles: self.link_source_roles.deep_view(),
            link_target_roles: self.link_target_roles.deep_view(),
            direction: self.direction,
            group: self.group.deep_view(),
            team: self.team.deep_view(),
            team_tag: self.team_tag.deep_view(),
            team_channels: self.team_channels.deep_view(),
            interface: self.interface.deep_view(),
            roaming: self.roaming,
            rx_mode: self.rx_mode,
        }
    }
}

/// The direction as it is shown.
pub open spec fn shown_direction(direction: ChannelDirection) -> OutputChannelDirection {
    match direction {
        ChannelDirection::NotLinkable => OutputChannelDirection::NotLinkable,
        ChannelDirection::Sender => OutputChannelDirection::Sender,
        ChannelDirection::Receiver => OutputChannelDirection::Receiver,
    }
}

/// The receive modes that the kept bits stand for.
pub open spec fn shown_rx_mode(bits: i32) -> OutputRxMode {
    OutputRxMode {
        always: is_set(bits, RX_ALWAYS),
        burst: is_set(bits, RX_BURST),
        config: is_set(bits, RX_CONFIG),
        wakeup: is_set(bits, RX_WAKEUP),
        lazy_config: is_set(bits, RX_LAZY_CONFIG),
    }
}

/// What is shown of a device or channel. An empty parent address becomes an
/// absent one, each flag family becomes its booleans, and every other field
/// is kept.
pub open spec fn shown_device(d: DeviceDescriptionView) -> OutputDeviceDescriptionView {
    OutputDeviceDescriptionView {
        ty: d.ty,
        address: d.address,
        rf_address: d.rf_address,
        children: d.children,
        parent: if d.parent.len() == 0 {
            None
        } else {
            Some(d.parent)
        },
        parent_type: d.parent_type,
        index: d.index,
        aes: d.aes_enabled,
        param_sets: d.paramsets,
        firmware: d.firmware,
        available_firmware: d.available_firmware,
        updatable: d.updatable,
        version: d.version,
        visible: is_set(d.flags, VISIBLE),
        internal: is_set(d.flags, INTERNAL),
        deletable: !is_set(d.flags, DONT_DELETE),
        link_source_roles: d.link_source_roles,
        link_target_roles: d.link_target_roles,
        direction: match d.direction {
            Some(direction) => Some(shown_direction(direction)),
            None => None,
        },
        group: d.group,
        team: d.team,
        team_tag: d.team_tag,
        team_channels: d.team_channels,
        interface: d.interface,
        roaming: d.roaming,
        rx_mode: match d.rx_mode {
            Some(bits) => Some(shown_rx_mode(bits)),
            None => None,
        },
    }
}

impl OutputRxMode {
    /// The receive modes, one boolean for each.
    pub fn from(mode: RxMode) -> (out: OutputRxMode)
        ensures
            out == shown_rx_mode(mode@),
    {
        OutputRxMode {
            always: mode.always(),
            burst: mode.burst(),
            config: mode.config(),
            wakeup: mode.wakeup(),
            lazy_config: mode.lazy_config(),
        }
    }
}

impl OutputChannelDirection {
    /// The direction as it is shown.
    pub fn from(direction: ChannelDirection) -> (out: OutputChannelDirection)
        ensures
            out == shown_direction(direction),
    {
        match direction {
            ChannelDirection::NotLinkable => OutputChannelDirection::NotLinkable,
            ChannelDirection::Sender => OutputChannelDirection::Sender,
            ChannelDirection::Receiver => OutputChannelDirection::Receiver,
        }
    }
}

impl OutputDeviceDescription {
    /// What is shown of a device or channel.
    pub fn from(value: DeviceDescription) -> (out: OutputDeviceDescription)
        ensures
            out@ == shown_device(value@),
    {
        let visible = value.is_visible();
        let internal = value.is_internal();
        let deletable = value.is_deletable();
        let is_device = value.parent.as_str().is_empty();
        OutputDeviceDescription {
            visible,
            internal,
            deletable,
            ty: value.ty,
            address: value.address,
            rf_address: value.rf_address,
            children: value.children,
            parent: if is_device {
                None
            } else {
                Some(value.parent)
            },
            parent_type: value.parent_type,
            index: value.index,
            aes: value.aes_enabled,
            param_sets: value.paramsets,
            firmware: value.firmware,
            available_firmware: value.available_firmware,
            updatable: value.updatable,
            version: value.version,
            link_source_roles: value.link_source_roles,
            link_target_roles: value.link_target_roles,
            direction: match value.direction {
                None => None,
                Some(direction) => Some(OutputChannelDirection::from(direction)),
            },
            group: value.group,
            team: value.team,
            team_tag: value.team_tag,
            team_channels: value.team_channels,
            interface: value.interface,
            roaming: value.roaming,
            rx_mode: match value.rx_mode {
                None => None,
                Some(mode) => Some(OutputRxMode::from(mode)),
            },
        }
    }
}

/// What is shown of the display flags of a decoded device depends on three
/// bits of the raw integer on the wire and on no other bit of it.
pub proof fn lemma_shown_flags(m: Seq<(Seq<char>, ValueView)>)
    requires
        decode_device_members(m) is Ok,
    ensures
        req_int(m, "FLAGS"@) is Ok,
        shown_device(decode_device_members(m)->Ok_0).visible == (req_int(m, "FLAGS"@)->Ok_0 & 1
            != 0),
        shown_device(decode_device_members(m)->Ok_0).internal == (req_int(m, "FLAGS"@)->Ok_0 & 2
            != 0),
        shown_device(decode_device_members(m)->Ok_0).deletable == (req_int(m, "FLAGS"@)->Ok_0 & 8
            == 0),
{
    lemma_display_flags(req_int(m, "FLAGS"@)->Ok_0);
}

} // verus!
