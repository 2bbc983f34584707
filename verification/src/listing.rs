//! The table of devices: one row for each device and, on demand, one for
//! each of its channels that the list of devices knows. The rows are laid
//! out here; the text of the table is drawn by `comfy_table`.

use crate::device::{DeviceDescription, DeviceDescriptionView};
use crate::text::{join, join_texts};
use vstd::prelude::*;
use vstd::string::*;

verus! {

/// One row of the table of devices.
#[derive(Debug)]
pub struct DeviceRow {
    /// Type; that of a channel is indented.
    pub ty: String,
    pub address: String,
    /// Names of the parameter sets, separated by a comma and a space.
    pub paramsets: String,
}

/// Mathematical model of a [`DeviceRow`].
pub ghost struct DeviceRowView {
    pub ty: Seq<char>,
    pub address: Seq<char>,
    pub paramsets: Seq<char>,
}

impl DeepView for DeviceRow {
    type V = DeviceRowView;

    open spec fn deep_view(&self) -> DeviceRowView {
        DeviceRowView { ty: self.ty@, address: self.address@, paramsets: self.paramsets@ }
    }
}

/// The table of devices, and the addresses of channels that a device names
/// and the list of devices does not hold.
#[derive(Debug)]
pub struct DeviceTable {
    pub rows: Vec<DeviceRow>,
    pub unknown: Vec<String>,
}

/// Mathematical model of a [`DeviceTable`].
pub ghost struct DeviceTableView {
    pub rows: Seq<DeviceRowView>,
    pub unknown: Seq<Seq<char>>,
}

impl View for DeviceTable {
    type V = DeviceTableView;

    open spec fn view(&self) -> DeviceTableView {
        DeviceTableView { rows: self.rows.deep_view(), unknown: self.unknown.deep_view() }
    }
}

/// The device that stands under `address`: the last one of the list that
/// carries it, as in a map that is filled in the order of the list.
pub open spec fn resolve(devices: Seq<DeviceDescriptionView>, address: Seq<char>) -> Option<
    DeviceDescriptionView,
>
    decreases devices.len(),
{
    if devices.len() == 0 {
        None
    } else if devices.last().address == address {
        Some(devices.last())
    } else {
        resolve(devices.drop_last(), address)
    }
}

/// Whether the entry at `i` is the last one that stands under `address`.
pub open spec fn last_at(devices: Seq<DeviceDescriptionView>, address: Seq<char>, i: int) -> bool {
    &&& 0 <= i < devices.len()
    &&& devices[i].address == address
    &&& forall|j: int| i < j < devices.len() ==> (#[trigger] devices[j]).address != address
}

/// An address resolves to the last entry that carries it, and to nothing
/// exactly if no entry carries it.
pub proof fn lemma_resolve(devices: Seq<DeviceDescriptionView>, address: Seq<char>)
    ensures
        match resolve(devices, address) {
            Some(device) => exists|i: int| last_at(devices, address, i) && devices[i] == device,
            None => forall|j: int|
                0 <= j < devices.len() ==> (#[trigger] devices[j]).address != address,
        },
    decreases devices.len(),
{
    if devices.len() == 0 {
    } else if devices.last().address == address {
        assert(last_at(devices, address, devices.len() - 1));
    } else {
        let before = devices.drop_last();
        lemma_resolve(before, address);
        assert(forall|j: int| 0 <= j < before.len() ==> before[j] == devices[j]);
        match resolve(before, address) {
            Some(device) => {
                let i = choose|i: int| last_at(before, address, i) && before[i] == device;
                assert forall|j: int| i < j < devices.len() implies (#[trigger] devices[j]).address
                    != address by {
                    if j < before.len() {
                        assert(before[j] == devices[j]);
                    }
                }
                assert(last_at(devices, address, i));
            },
            None => {
                assert forall|j: int| 0 <= j < devices.len() implies (#[trigger] devices[j]).address
                    != address by {
                    if j < before.len() {
                        assert(before[j] == devices[j]);
                    }
                }
            },
        }
    }
}

/// The row of a device or channel, its type behind `indent`.
pub open spec fn row_of(d: DeviceDescriptionView, indent: Seq<char>) -> DeviceRowView {
    DeviceRowView { ty: indent + d.ty, address: d.address, paramsets: join(d.paramsets, ", "@) }
}

/// What the channels of one device add to the table. Each address that
/// resolves adds the row of its channel. One that does not resolve is
/// noted as unknown, unless it is empty; it is no error.
pub open spec fn add_channels(
    table: DeviceTableView,
    devices: Seq<DeviceDescriptionView>,
    children: Seq<Seq<char>>,
) -> DeviceTableView
    decreases children.len(),
{
    if children.len() == 0 {
        table
    } else {
        let before = add_channels(table, devices, children.drop_last());
        match resolve(devices, children.last()) {
            Some(channel) => DeviceTableView {
                rows: before.rows.push(row_of(channel, "    "@)),
                unknown: before.unknown,
            },
            None => if children.last().len() == 0 {
                before
            } else {
                DeviceTableView { rows: before.rows, unknown: before.unknown.push(children.last()) }
            },
        }
    }
}

/// What the first `count` entries of the list add to the table. An entry
/// with a parent is a channel and adds nothing by itself. A device adds its
/// row and, where `channels` is set, what its channels add.
pub open spec fn table_of(
    devices: Seq<DeviceDescriptionView>,
    count: nat,
    channels: bool,
) -> DeviceTableView
    decreases count,
{
    if count == 0 {
        DeviceTableView { rows: Seq::empty(), unknown: Seq::empty() }
    } else {
        let before = table_of(devices, (count - 1) as nat, channels);
        let d = devices[count - 1];
        if d.parent.len() != 0 {
            before
        } else {
            let with_device = DeviceTableView {
                rows: before.rows.push(row_of(d, Seq::empty())),
                unknown: before.unknown,
            };
            if channels {
                add_channels(with_device, devices, d.children)
            } else {
                with_device
            }
        }
    }
}

/// Without the channels, nothing is looked up: no address is noted as
/// unknown, and there is at most one row for each entry of the list.
pub proof fn lemma_devices_only(devices: Seq<DeviceDescriptionView>, count: nat)
    ensures
        table_of(devices, count, false).unknown.len() == 0,
        table_of(devices, count, false).rows.len() <= count,
    decreases count,
{
    if count > 0 {
        lemma_devices_only(devices, (count - 1) as nat);
    }
}

/// Looks a device up by its address.
pub fn find_device<'a>(devices: &'a Vec<DeviceDescription>, address: &String) -> (found: Option<
    &'a DeviceDescription,
>)
    ensures
        match found {
            Some(device) => resolve(devices.deep_view(), address@) == Some(device@),
            None => resolve(devices.deep_view(), address@) is None,
        },
{
    let ghost all = devices.deep_view();
    let mut i: usize = devices.len();
    assert(all.take(i as int) =~= all);
    while i > 0
        invariant
            i <= devices.len(),
            all == devices.deep_view(),
            resolve(all, address@) == resolve(all.take(i as int), address@),
        decreases i,
    {
        proof {
            assert(all.take(i as int).last() == devices[i - 1]@);
            assert(all.take(i as int).drop_last() =~= all.take(i - 1));
        }
        if devices[i - 1].address == *address {
            return Some(&devices[i - 1]);
        }
        i -= 1;
    }
    None
}

/// The row of a device or channel, its type behind `indent`.
pub fn make_row(device: &DeviceDescription, indent: &str) -> (row: DeviceRow)
    ensures
        row.deep_view() == row_of(device@, indent@),
{
    let mut ty = indent.to_owned();
    ty.append(device.ty.as_str());
    DeviceRow {
        ty,
        address: device.address.clone(),
        paramsets: join_texts(&device.paramsets, ", "),
    }
}

/// Lays the list of devices out as a table; with `channels`, each device is
/// followed by its channels.
pub fn device_table(devices: &Vec<DeviceDescription>, channels: bool) -> (table: DeviceTable)
    ensures
        table@ == table_of(devices.deep_view(), devices.len() as nat, channels),
{
    let ghost all = devices.deep_view();
    let mut rows: Vec<DeviceRow> = Vec::new();
    let mut unknown: Vec<String> = Vec::new();
    assert(rows.deep_view() =~= Seq::<DeviceRowView>::empty());
    assert(unknown.deep_view() =~= Seq::<Seq<char>>::empty());
    let mut i: usize = 0;
    while i < devices.len()
        invariant
            i <= devices.len(),
            all == devices.deep_view(),
            table_of(all, i as nat, channels) == (DeviceTableView {
                rows: rows.deep_view(),
                unknown: unknown.deep_view(),
            }),
        decreases devices.len() - i,
    {
        let device = &devices[i];
        assert(all[i as int] == device@);
        if device.parent.as_str().is_empty() {
            let ghost rows_before = rows.deep_view();
            let row = make_row(device, "");
            proof {
                assert(""@ =~= Seq::<char>::empty()) by {
                    reveal_strlit("");
                }
            }
            rows.push(row);
            assert(rows.deep_view() =~= rows_before.push(row.deep_view()));
            if channels {
                let ghost with_device = DeviceTableView {
                    rows: rows.deep_view(),
                    unknown: unknown.deep_view(),
                };
                let ghost children = device.children.deep_view();
                let mut k: usize = 0;
                assert(children.take(0) =~= Seq::<Seq<char>>::empty());
                while k < device.children.len()
                    invariant
                        k <= device.children.len(),
                        all == devices.deep_view(),
                        children == device.children.deep_view(),
                        add_channels(with_device, all, children.take(k as int)) == (
                        DeviceTableView { rows: rows.deep_view(), unknown: unknown.deep_view() }),
                    decreases device.children.len() - k,
                {
                    let address = &device.children[k];
                    proof {
                        assert(children.take(k + 1).drop_last() =~= children.take(k as int));
                        assert(children.take(k + 1).last() == address@);
                    }
                    let ghost rows_before = rows.deep_view();
                    let ghost unknown_before = unknown.deep_view();
                    match find_device(devices, address) {
                        Some(channel) => {
                            let row = make_row(channel, "    ");
                            rows.push(row);
                            assert(rows.deep_view() =~= rows_before.push(row.deep_view()));
                        },
                        None => {
                            if !address.as_str().is_empty() {
                                unknown.push(address.clone());
                                assert(unknown.deep_view() =~= unknown_before.push(address@));
                            }
                        },
                    }
                    k += 1;
                }
                assert(children.take(k as int) =~= children);
            }
        }
        i += 1;
    }
    DeviceTable { rows, unknown }
}

/// The text that `comfy_table` draws for a table without borders that has
/// this header and these rows, each row given as the texts of its cells.
pub uninterp spec fn borderless_table(header: Seq<Seq<char>>, rows: Seq<Seq<Seq<char>>>) -> Seq<
    char,
>;

/// Draws a table without borders.
///
/// This hands the header and the rows to `comfy_table`: a `Table` is made
/// with `Table::new`, told by `force_no_tty` not to look at the terminal,
/// given the style `presets::NOTHING`, the header and the rows, and drawn by
/// its `Display` implementation. What is drawn is not proved here. The
/// contract only claims that it depends on nothing but the header and the
/// rows: the table keeps the arrangement `Disabled` of a new table, under
/// which `comfy_table` gives each column the width of its widest cell.
#[verifier::external_body]
fn draw_borderless(header: &Vec<String>, rows: &Vec<Vec<String>>) -> (text: String)
    ensures
        text@ == borderless_table(header.deep_view(), rows.deep_view()),
{
    let mut table = comfy_table::Table::new();
    table.force_no_tty().load_style(comfy_table::presets::NOTHING);
    table.set_header(header).add_rows(rows);
    table.to_string()
}

/// The header of the table of devices.
pub open spec fn device_table_header() -> Seq<Seq<char>> {
    seq!["TYPE"@, "ADDRESS"@, "PARAMSETS"@]
}

/// The cells of the rows: type, address and parameter sets of each.
pub open spec fn cells_of(rows: Seq<DeviceRowView>) -> Seq<Seq<Seq<char>>> {
    Seq::new(rows.len(), |i: int| seq![rows[i].ty, rows[i].address, rows[i].paramsets])
}

/// Draws the rows of the table of devices under their header, without borders.
pub fn render_device_table(table: &DeviceTable) -> (text: String)
    ensures
        text@ == borderless_table(device_table_header(), cells_of(table@.rows)),
{
    let mut header: Vec<String> = Vec::new();
    header.push("TYPE".to_owned());
    header.push("ADDRESS".to_owned());
    header.push("PARAMSETS".to_owned());
    assert(header.deep_view() =~= device_table_header());
    let mut rows: Vec<Vec<String>> = Vec::new();
    let mut i: usize = 0;
    while i < table.rows.len()
        invariant
            i <= table.rows.len(),
            rows.len() == i,
            forall|j: int|
                0 <= j < i ==> (#[trigger] rows[j]).deep_view() == seq![
                    table.rows[j].ty@,
                    table.rows[j].address@,
                    table.rows[j].paramsets@,
                ],
        decreases table.rows.len() - i,
    {
        let row = &table.rows[i];
        let mut cells: Vec<String> = Vec::new();
        cells.push(row.ty.clone());
        cells.push(row.address.clone());
        cells.push(row.paramsets.clone());
        assert(cells.deep_view() =~= seq![row.ty@, row.address@, row.paramsets@]);
        rows.push(cells);
        i += 1;
    }
    assert(rows.deep_view() =~= cells_of(table@.rows));
    draw_borderless(&header, &rows)
}

} // verus!
