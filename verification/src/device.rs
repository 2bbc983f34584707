//! Devices and channels. Both arrive in one wire shape and are told apart
//! by their parent address, which is empty for a device.

use crate::de::{deserialize_bool_option, role_list, roles};
use crate::error::{DecodeError, DecodeErrorView, ExpectedKind};
use crate::field::{
    decode_each, decoded_as, found, found_as, lemma_decode_each_error, lemma_decode_each_step,
    list_of, opt_bool, opt_int, opt_string, opt_string_list, optional, optional_bool,
    optional_int, optional_string, optional_string_list, permit_found, read_as, req_int,
    req_string, req_string_list, required_int, required_string, required_string_list,
    viewed_as, Failure,
};
use crate::flags::{
    is_set, keep, DeviceFlags, RxMode, DEVICE_FLAGS_ALL, DONT_DELETE, INTERNAL, RX_MODE_ALL,
    VISIBLE,
};
use crate::value::{
    find_member, items_view, lemma_items_view, members_view, Value, ValueView,
};
use vstd::prelude::*;

verus! {

/// The direction of a channel in a direct link.
#[derive(Clone, Copy, Debug, PartialEq, Eq, Structural)]
pub enum ChannelDirection {
    /// The channel does not support direct linking.
    NotLinkable,
    Sender,
    Receiver,
}

impl DeepView for ChannelDirection {
    type V = ChannelDirection;

    open spec fn deep_view(&self) -> ChannelDirection {
        *self
    }
}

/// How the control unit treats a device that is taught in.
#[derive(Clone, Copy, Debug, PartialEq, Eq, Structural)]
pub enum InstallMode {
    Normal,
    Reset,
}

impl InstallMode {
    /// The number that stands for the mode on the wire.
    pub open spec fn spec_code(self) -> i32 {
        match self {
            InstallMode::Normal => 1,
            InstallMode::Reset => 2,
        }
    }

    /// The number that stands for the mode on the wire.
    pub fn code(&self) -> (code: i32)
        ensures
            code == self.spec_code(),
    {
        match self {
            InstallMode::Normal => 1,
            InstallMode::Reset => 2,
        }
    }
}

/// The direction that `value` names: 0 for none, 1 for sender, 2 for receiver.
pub open spec fn read_direction(value: ValueView) -> Result<ChannelDirection, ExpectedKind> {
    match value {
        ValueView::Int(0) => Ok(ChannelDirection::NotLinkable),
        ValueView::Int(1) => Ok(ChannelDirection::Sender),
        ValueView::Int(2) => Ok(ChannelDirection::Receiver),
        _ => Err(ExpectedKind::Direction),
    }
}

/// Reads a channel direction.
pub fn value_direction(value: &Value) -> (got: Result<ChannelDirection, ExpectedKind>)
    ensures
        read_as(got, read_direction(value@)),
{
    match value {
        Value::Int(0) => Ok(ChannelDirection::NotLinkable),
        Value::Int(1) => Ok(ChannelDirection::Sender),
        Value::Int(2) => Ok(ChannelDirection::Receiver),
        _ => Err(ExpectedKind::Direction),
    }
}

/// The optional direction member `name`.
pub open spec fn opt_direction(members: Seq<(Seq<char>, ValueView)>, name: Seq<char>) -> Result<
    Option<ChannelDirection>,
    DecodeErrorView,
> {
    optional(name, found(members, name, |v: ValueView| read_direction(v)))
}

/// The optional direction member `name`.
pub fn optional_direction(members: &Vec<(String, Value)>, name: &str) -> (got: Result<
    Option<ChannelDirection>,
    DecodeError,
>)
    ensures
        decoded_as(got, opt_direction(members_view(members@), name@)),
{
    let read = match find_member(members, name) {
        Some(value) => Some(value_direction(value)),
        None => None,
    };
    assert(found_as(read, found(members_view(members@), name@, |v: ValueView| read_direction(v))));
    permit_found(name, read)
}

/// A device or one of its channels.
#[derive(Debug)]
pub struct DeviceDescription {
    /// Type of the device or channel.
    pub ty: String,
    /// Address of the device or channel, unique among all of them.
    pub address: String,
    /// Radio address. Only for devices.
    pub rf_address: Option<i32>,
    /// Addresses of the child channels; empty for a channel.
    pub children: Vec<String>,
    /// Address of the parent device; empty for a device.
    pub parent: String,
    /// Type of the parent device.
    pub parent_type: Option<String>,
    /// Number of the channel.
    pub index: Option<i32>,
    /// Whether secured transmission is enabled; `false` where the wire says nothing.
    pub aes_enabled: bool,
    /// Names of the parameter sets that exist.
    pub paramsets: Vec<String>,
    /// Firmware version. Only for devices.
    pub firmware: Option<String>,
    /// Firmware version that an update would bring. Only for devices.
    pub available_firmware: Option<String>,
    /// Whether the firmware can be updated; `false` where the wire says nothing.
    pub updatable: bool,
    /// Version of the description.
    pub version: Option<i32>,
    /// Display flags. The three queries are computed from them.
    pub flags: DeviceFlags,
    /// Roles that the channel can take as the sender of a link. Only for channels.
    pub link_source_roles: Option<Vec<String>>,
    /// Roles that the channel can take as the receiver of a link. Only for channels.
    pub link_target_roles: Option<Vec<String>>,
    /// Direction of the channel in a direct link. Only for channels.
    pub direction: Option<ChannelDirection>,
    /// Address of the other channel of a group, such as a key pair.
    pub group: Option<String>,
    /// Address of the virtual team channel.
    pub team: Option<String>,
    /// Tag that a channel and the team that it can join have in common.
    pub team_tag: Option<String>,
    /// Addresses of the channels of the team. Only for team channels.
    pub team_channels: Option<Vec<String>>,
    /// Serial number of the interface that the device is assigned to.
    pub interface: Option<String>,
    /// Whether the interface assignment follows the reception conditions.
    pub roaming: Option<bool>,
    /// Receive modes. Only for devices.
    pub rx_mode: Option<RxMode>,
}

/// Mathematical model of a [`DeviceDescription`]. The flag families are
/// held as the bits that decoding kept.
pub ghost struct DeviceDescriptionView {
    pub ty: Seq<char>,
    pub address: Seq<char>,
    pub rf_address: Option<i32>,
    pub children: Seq<Seq<char>>,
    pub parent: Seq<char>,
    pub parent_type: Option<Seq<char>>,
    pub index: Option<i32>,
    pub aes_enabled: bool,
    pub paramsets: Seq<Seq<char>>,
    pub firmware: Option<Seq<char>>,
    pub available_firmware: Option<Seq<char>>,
    pub updatable: bool,
    pub version: Option<i32>,
    pub flags: i32,
    pub link_source_roles: Option<Seq<Seq<char>>>,
    pub link_target_roles: Option<Seq<Seq<char>>>,
    pub direction: Option<ChannelDirection>,
    pub group: Option<Seq<char>>,
    pub team: Option<Seq<char>>,
    pub team_tag: Option<Seq<char>>,
    pub team_channels: Option<Seq<Seq<char>>>,
    pub interface: Option<Seq<char>>,
    pub roaming: Option<bool>,
    pub rx_mode: Option<i32>,
}

impl DeepView for DeviceDescription {
    type V = DeviceDescriptionView;

    open spec fn deep_view(&self) -> DeviceDescriptionView {
        self@
    }
}

impl View for DeviceDescription {
    type V = DeviceDescriptionView;

    open spec fn view(&self) -> DeviceDescriptionView {
        DeviceDescriptionView {
            ty: self.ty@,
            address: self.address@,
            rf_address: self.rf_address,
            children: self.children.deep_view(),
            parent: self.parent@,
            parent_type: self.parent_type.deep_view(),
            index: self.index,
            aes_enabled: self.aes_enabled,
            paramsets: self.paramsets.deep_view(),
            firmware: self.firmware.deep_view(),
            available_firmware: self.available_firmware.deep_view(),
            updatable: self.updatable,
            version: self.version,
            flags: self.flags@,
            link_source_roles: self.link_source_roles.deep_view(),
            link_target_roles: self.link_target_roles.deep_view(),
            direction: self.direction,
            group: self.group.deep_view(),
            team: self.team.deep_view(),
            team_tag: self.team_tag.deep_view(),
            team_channels: self.team_channels.deep_view(),
            interface: self.interface.deep_view(),
            roaming: self.roaming,
            rx_mode: match self.rx_mode {
                Some(mode) => Some(mode@),
                None => None,
            },
        }
    }
}

/// Decodes the display flags: the known bits of the raw integer are
/// kept, and all others are dropped without complaint.
pub fn deserialize_device_flags(value: i32) -> (flags: DeviceFlags)
    ensures
        flags@ == keep(value, DEVICE_FLAGS_ALL),
{
    DeviceFlags::from_bits_truncate(value)
}

/// Decodes the receive modes, which may be absent, in the same way.
pub fn deserialize_rx_mode(value: Option<i32>) -> (mode: Option<RxMode>)
    ensures
        match value {
            Some(raw) => mode is Some && mode->Some_0@ == keep(raw, RX_MODE_ALL),
            None => mode is None,
        },
{
    match value {
        Some(raw) => Some(RxMode::from_bits_truncate(raw)),
        None => None,
    }
}

/// A boolean that travels as an optional integer.
pub open spec fn flag_of(value: Option<i32>) -> Option<bool> {
    match value {
        Some(x) => Some(x != 0),
        None => None,
    }
}

/// What a device or channel decodes to, from the members of its wire struct.
///
/// The members are read in the order below, and the first one that fails
/// gives the error. Type, address, parameter sets, parent and flags are
/// required; every other member may be absent.
pub open spec fn decode_device_members(m: Seq<(Seq<char>, ValueView)>) -> Result<
    DeviceDescriptionView,
    DecodeErrorView,
> {
    let ty = req_string(m, "TYPE"@);
    let address = req_string(m, "ADDRESS"@);
    let rf_address = opt_int(m, "RF_ADDRESS"@);
    let children = opt_string_list(m, "CHILDREN"@);
    let parent = req_string(m, "PARENT"@);
    let parent_type = opt_string(m, "PARENT_TYPE"@);
    let index = opt_int(m, "INDEX"@);
    let aes_active = opt_int(m, "AES_ACTIVE"@);
    let paramsets = req_string_list(m, "PARAMSETS"@);
    let firmware = opt_string(m, "FIRMWARE"@);
    let available_firmware = opt_string(m, "AVAILABLE_FIRMWARE"@);
    let updatable = opt_bool(m, "UPDATABLE"@);
    let version = opt_int(m, "VERSION"@);
    let flags = req_int(m, "FLAGS"@);
    let link_source_roles = opt_string(m, "LINK_SOURCE_ROLES"@);
    let link_target_roles = opt_string(m, "LINK_TARGET_ROLES"@);
    let direction = opt_direction(m, "DIRECTION"@);
    let group = opt_string(m, "GROUP"@);
    let team = opt_string(m, "TEAM"@);
    let team_tag = opt_string(m, "TEAM_TAG"@);
    let team_channels = opt_string_list(m, "TEAM_CHANNELS"@);
    let interface = opt_string(m, "INTERFACE"@);
    let roaming = opt_int(m, "ROAMING"@);
    let rx_mode = opt_int(m, "RX_MODE"@);
    let first = Failure::none()
        .or(ty)
        .or(address)
        .or(rf_address)
        .or(children)
        .or(parent)
        .or(parent_type)
        .or(index)
        .or(aes_active)
        .or(paramsets)
        .or(firmware)
        .or(available_firmware)
        .or(updatable)
        .or(version)
        .or(flags)
        .or(link_source_roles)
        .or(link_target_roles)
        .or(direction)
        .or(group)
        .or(team)
        .or(team_tag)
        .or(team_channels)
        .or(interface)
        .or(roaming)
        .or(rx_mode);
    match first.0 {
        Some(e) => Err(e),
        None => Ok(
            DeviceDescriptionView {
                ty: ty->Ok_0,
                address: address->Ok_0,
                rf_address: rf_address->Ok_0,
                children: match children->Ok_0 {
                    Some(list) => list,
                    None => Seq::empty(),
                },
                parent: parent->Ok_0,
                parent_type: parent_type->Ok_0,
                index: index->Ok_0,
                aes_enabled: flag_of(aes_active->Ok_0) == Some(true),
                paramsets: paramsets->Ok_0,
                firmware: firmware->Ok_0,
                available_firmware: available_firmware->Ok_0,
                updatable: updatable->Ok_0 == Some(true),
                version: version->Ok_0,
                flags: keep(flags->Ok_0, DEVICE_FLAGS_ALL),
                link_source_roles: roles(link_source_roles->Ok_0),
                link_target_roles: roles(link_target_roles->Ok_0),
                direction: direction->Ok_0,
                group: group->Ok_0,
                team: team->Ok_0,
                team_tag: team_tag->Ok_0,
                team_channels: team_channels->Ok_0,
                interface: interface->Ok_0,
                roaming: flag_of(roaming->Ok_0),
                rx_mode: match rx_mode->Ok_0 {
                    Some(raw) => Some(keep(raw, RX_MODE_ALL)),
                    None => None,
                },
            },
        ),
    }
}

/// What a wire value decodes to as a device or channel: it has to be a
/// struct, and then its members decide.
pub open spec fn decode_device(value: ValueView) -> Result<DeviceDescriptionView, DecodeErrorView> {
    match value {
        ValueView::Struct(members) => decode_device_members(members),
        _ => Err(DecodeErrorView::TypeMismatch(""@, ExpectedKind::Struct)),
    }
}

impl DeviceDescription {
    /// Decodes a device or channel from its wire struct.
    pub fn decode(value: &Value) -> (got: Result<DeviceDescription, DecodeError>)
        ensures
            viewed_as(got, decode_device(value@)),
    {
        let members = match value {
            Value::Struct(members) => members,
            _ => {
                return Err(DecodeError::TypeMismatch("".to_owned(), ExpectedKind::Struct));
            },
        };
        let ty = required_string(members, "TYPE")?;
        let address = required_string(members, "ADDRESS")?;
        let rf_address = optional_int(members, "RF_ADDRESS")?;
        let children = match optional_string_list(members, "CHILDREN")? {
            Some(list) => list,
            None => {
                let none: Vec<String> = Vec::new();
                assert(none.deep_view() =~= Seq::<Seq<char>>::empty());
                none
            },
        };
        let parent = required_string(members, "PARENT")?;
        let parent_type = optional_string(members, "PARENT_TYPE")?;
        let index = optional_int(members, "INDEX")?;
        let aes_active = deserialize_bool_option(optional_int(members, "AES_ACTIVE")?);
        let paramsets = required_string_list(members, "PARAMSETS")?;
        let firmware = optional_string(members, "FIRMWARE")?;
        let available_firmware = optional_string(members, "AVAILABLE_FIRMWARE")?;
        let updatable = optional_bool(members, "UPDATABLE")?;
        let version = optional_int(members, "VERSION")?;
        let flags = deserialize_device_flags(required_int(members, "FLAGS")?);
        let link_source_roles = role_list(optional_string(members, "LINK_SOURCE_ROLES")?);
        let link_target_roles = role_list(optional_string(members, "LINK_TARGET_ROLES")?);
        let direction = optional_direction(members, "DIRECTION")?;
        let group = optional_string(members, "GROUP")?;
        let team = optional_string(members, "TEAM")?;
        let team_tag = optional_string(members, "TEAM_TAG")?;
        let team_channels = optional_string_list(members, "TEAM_CHANNELS")?;
        let interface = optional_string(members, "INTERFACE")?;
        let roaming = deserialize_bool_option(optional_int(members, "ROAMING")?);
        let rx_mode = deserialize_rx_mode(optional_int(members, "RX_MODE")?);
        Ok(
            DeviceDescription {
                ty,
                address,
                rf_address,
                children,
                parent,
                parent_type,
                index,
                aes_enabled: match aes_active {
                    Some(on) => on,
                    None => false,
                },
                paramsets,
                firmware,
                available_firmware,
                updatable: match updatable {
                    Some(on) => on,
                    None => false,
                },
                version,
                flags,
                link_source_roles,
                link_target_roles,
                direction,
                group,
                team,
                team_tag,
                team_channels,
                interface,
                roaming,
                rx_mode,
            },
        )
    }

    /// Whether the object should be shown to the end user.
    pub fn is_visible(&self) -> (set: bool)
        ensures
            set == is_set(self@.flags, VISIBLE),
    {
        self.flags.contains(VISIBLE)
    }

    /// Whether the object is only used internally.
    pub fn is_internal(&self) -> (set: bool)
        ensures
            set == is_set(self@.flags, INTERNAL),
    {
        self.flags.contains(INTERNAL)
    }

    /// Whether the object can be deleted.
    pub fn is_deletable(&self) -> (free: bool)
        ensures
            free == !is_set(self@.flags, DONT_DELETE),
    {
        !self.flags.contains(DONT_DELETE)
    }
}

/// Decodes the answer that lists the devices: a list in which each item is
/// a device or channel. The first item that fails gives the error.
pub fn decode_device_list(value: &Value) -> (got: Result<Vec<DeviceDescription>, DecodeError>)
    ensures
        decoded_as(got, list_of(value@, |v: ValueView| decode_device(v))),
{
    let items = match value {
        Value::Array(items) => items,
        _ => {
            return Err(DecodeError::TypeMismatch("".to_owned(), ExpectedKind::Array));
        },
    };
    let ghost model = items_view(items@);
    let ghost decode = |v: ValueView| decode_device(v);
    proof {
        lemma_items_view(items@);
        assert(model.take(0) =~= Seq::<ValueView>::empty());
    }
    let mut list: Vec<DeviceDescription> = Vec::new();
    assert(list.deep_view() =~= Seq::<DeviceDescriptionView>::empty());
    let mut i: usize = 0;
    while i < items.len()
        invariant
            i <= items.len(),
            value@ == ValueView::Array(model),
            model.len() == items.len(),
            forall|j: int| 0 <= j < items.len() ==> (#[trigger] model[j]) == items[j]@,
            decode == |v: ValueView| decode_device(v),
            decode_each(model.take(i as int), decode) == Ok::<
                Seq<DeviceDescriptionView>,
                DecodeErrorView,
            >(list.deep_view()),
        decreases items.len() - i,
    {
        proof {
            lemma_decode_each_step(model, decode, i as int);
        }
        let ghost before = list.deep_view();
        match DeviceDescription::decode(&items[i]) {
            Ok(device) => {
                list.push(device);
                assert(list.deep_view() =~= before.push(device@));
            },
            Err(e) => {
                proof {
                    lemma_decode_each_error(model, decode, i + 1);
                }
                return Err(e);
            },
        }
        i += 1;
    }
    assert(model.take(i as int) =~= model);
    Ok(list)
}

} // verus!
