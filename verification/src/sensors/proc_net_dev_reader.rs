//! The per-interface table of `/proc/net/dev`.

use crate::counters::{counter_of, parse_counter};
use crate::sensors::network_utilities::NetworkUtilsTrait;
use crate::text::{
    chars_of, fields, joined, lines, lines_of, slice_of, split_whitespace, string_of, views,
};
use vstd::prelude::*;

verus! {

/// The column that names the interface.
pub const PROC_NET_DEV_DEVICE_NAME_INDEX: usize = 0;

/// The column that counts received bytes.
pub const PROC_NET_DEV_RX_BYTES_INDEX: usize = 1;

/// The column that counts transmitted bytes.
pub const PROC_NET_DEV_TX_BYTES_INDEX: usize = 9;

/// The number of columns of a row: the name and sixteen counters.
pub const PROC_NET_DEV_COLUMNS: usize = 17;

/// The counters of one interface, as a mathematical value.
pub struct NetDevice {
    /// The interface's name.
    pub device_name: Seq<char>,
    /// Bytes received since boot.
    pub rx_bytes: u64,
    /// Bytes transmitted since boot.
    pub tx_bytes: u64,
}

/// The counters of one interface.
#[derive(Clone, Debug)]
pub struct ProcNetDevDeviceStatus {
    /// The interface's name.
    pub device_name: String,
    /// Bytes transmitted since boot.
    pub tx_bytes: u64,
    /// Bytes received since boot.
    pub rx_bytes: u64,
    /// Whether the interface was found to be a physical one when it was
    /// read.
    pub is_physical_device: bool,
}

impl View for ProcNetDevDeviceStatus {
    type V = NetDevice;

    open spec fn view(&self) -> NetDevice {
        NetDevice {
            device_name: self.device_name@,
            rx_bytes: self.rx_bytes,
            tx_bytes: self.tx_bytes,
        }
    }
}

impl ProcNetDevDeviceStatus {
    /// The counters of the interface `device_name`.
    pub fn new(
        device_name: String,
        rx_bytes: u64,
        tx_bytes: u64,
        is_physical_device: bool,
    ) -> (status: Self)
        ensures
            status.device_name == device_name,
            status.rx_bytes == rx_bytes,
            status.tx_bytes == tx_bytes,
            status.is_physical_device == is_physical_device,
    {
        Self { device_name, tx_bytes, rx_bytes, is_physical_device }
    }
}

/// One reading of the counters of all interfaces.
#[derive(Clone, Debug)]
pub struct ProcNetDevStatus {
    /// One entry per interface, in the order of the table.
    pub device_statuses: Vec<ProcNetDevDeviceStatus>,
}

impl View for ProcNetDevStatus {
    type V = Seq<NetDevice>;

    open spec fn view(&self) -> Seq<NetDevice> {
        Seq::new(self.device_statuses@.len(), |i: int| self.device_statuses@[i]@)
    }
}

impl ProcNetDevStatus {
    /// A reading of the given interfaces.
    pub fn new(device_statuses: Vec<ProcNetDevDeviceStatus>) -> (status: Self)
        ensures
            status.device_statuses == device_statuses,
    {
        Self { device_statuses }
    }
}

/// One parsed row of the table.
#[derive(Clone, Debug)]
pub struct ProcNetDevLine {
    /// The interface's name.
    pub device_name: String,
    /// Bytes transmitted since boot.
    pub tx_bytes: u64,
    /// Bytes received since boot.
    pub rx_bytes: u64,
}

impl View for ProcNetDevLine {
    type V = NetDevice;

    open spec fn view(&self) -> NetDevice {
        NetDevice {
            device_name: self.device_name@,
            rx_bytes: self.rx_bytes,
            tx_bytes: self.tx_bytes,
        }
    }
}

/// `name` without one trailing colon, if it ends with one.
pub open spec fn without_colon(name: Seq<char>) -> Seq<char> {
    if name.len() > 0 && name.last() == ':' {
        name.drop_last()
    } else {
        name
    }
}

/// The interface that a row of the table denotes. The row has at least
/// seventeen columns; the first is the name, followed by a colon, the second
/// counts received bytes and the tenth transmitted bytes. A counter that is
/// no decimal number counts as zero. Any other row denotes nothing.
pub open spec fn net_dev_line(line: Seq<char>) -> Option<NetDevice> {
    let parts = fields(line);
    if parts.len() >= PROC_NET_DEV_COLUMNS {
        Some(
            NetDevice {
                device_name: without_colon(parts[PROC_NET_DEV_DEVICE_NAME_INDEX as int]),
                rx_bytes: counter_of(parts[PROC_NET_DEV_RX_BYTES_INDEX as int]),
                tx_bytes: counter_of(parts[PROC_NET_DEV_TX_BYTES_INDEX as int]),
            },
        )
    } else {
        None
    }
}

/// The message for a row that denotes nothing.
pub open spec fn net_dev_error(line: Seq<char>) -> Seq<char> {
    "Invalid file on line: "@ + line
}

/// The interfaces that the given rows denote, in order. If a row denotes
/// nothing, the whole table is in error, with the message for the first
/// such row.
pub open spec fn net_dev_rows(lines: Seq<Seq<char>>) -> Result<Seq<NetDevice>, Seq<char>>
    decreases lines.len(),
{
    if lines.len() == 0 {
        Ok(Seq::empty())
    } else {
        match net_dev_rows(lines.drop_last()) {
            Err(message) => Err(message),
            Ok(devices) => match net_dev_line(lines.last()) {
                None => Err(net_dev_error(lines.last())),
                Some(device) => Ok(devices.push(device)),
            },
        }
    }
}

/// The rows of the table: all lines but the two lines of its heading.
pub open spec fn net_dev_data_lines(contents: Seq<char>) -> Seq<Seq<char>> {
    if lines_of(contents).len() >= 2 {
        lines_of(contents).skip(2)
    } else {
        Seq::empty()
    }
}

/// Once a prefix of the rows is in error, so is the whole table, with the
/// same message.
pub proof fn lemma_net_dev_error_stays(lines: Seq<Seq<char>>, n: int)
    requires
        0 <= n <= lines.len(),
        net_dev_rows(lines.take(n)) is Err,
    ensures
        net_dev_rows(lines) == net_dev_rows(lines.take(n)),
    decreases lines.len() - n,
{
    if n < lines.len() {
        let shorter = lines.drop_last();
        assert(shorter.take(n) =~= lines.take(n));
        lemma_net_dev_error_stays(shorter, n);
    } else {
        assert(lines.take(n) =~= lines);
    }
}

/// Whether the mark of an entry is what `network_device` has said of the
/// entry's interface, asked by its name.
pub open spec fn classified_by<U: NetworkUtilsTrait>(
    network_device: &U,
    status: ProcNetDevDeviceStatus,
) -> bool {
    exists|name: &str|
        {
            &&& name@ == status.device_name@
            &&& #[trigger] call_ensures(
                U::is_physical_interface,
                (network_device, name),
                status.is_physical_device,
            )
        }
}

/// The parser of `/proc/net/dev`.
pub struct ProcNetDevReader;

impl ProcNetDevReader {
    /// Parses one row of the table. Fails exactly on the rows that denote
    /// nothing.
    pub fn parse_proc_file_line(&self, line: &str) -> (result: Result<ProcNetDevLine, String>)
        ensures
            match result {
                Ok(row) => net_dev_line(line@) == Some(row@),
                Err(message) => net_dev_line(line@) is None && message@ == net_dev_error(line@),
            },
    {
        let chars = chars_of(line);
        parse_net_dev_line(&chars)
    }

    /// Parses the text of `/proc/net/dev` and asks `network_device` of each
    /// interface whether it is a physical one; each entry is marked with the
    /// answer. Fails exactly on the texts with a row that denotes nothing.
    pub fn parse_contents<U: NetworkUtilsTrait>(
        &self,
        contents: &str,
        network_device: &U,
    ) -> (result: Result<ProcNetDevStatus, String>)
        ensures
            match result {
                Ok(status) => {
                    &&& net_dev_rows(net_dev_data_lines(contents@)) == Ok::<
                        Seq<NetDevice>,
                        Seq<char>,
                    >(status@)
                    &&& forall|i: int|
                        0 <= i < status.device_statuses@.len() ==> classified_by(
                            network_device,
                            #[trigger] status.device_statuses@[i],
                        )
                },
                Err(message) => net_dev_rows(net_dev_data_lines(contents@)) == Err::<
                    Seq<NetDevice>,
                    Seq<char>,
                >(message@),
            },
    {
        let chars = chars_of(contents);
        let all = lines(&chars);
        let mut statuses: Vec<ProcNetDevDeviceStatus> = Vec::new();
        if all.len() < 2 {
            let status = ProcNetDevStatus::new(statuses);
            assert(status@ =~= Seq::<NetDevice>::empty());
            return Ok(status);
        }
        let ghost data = views(all@).skip(2);
        let ghost shown = Seq::<NetDevice>::empty();
        let mut i: usize = 2;
        assert(data.take(0) =~= Seq::<Seq<char>>::empty());
        while i < all.len()
            invariant
                2 <= i <= all@.len(),
                data == views(all@).skip(2),
                data == net_dev_data_lines(contents@),
                shown.len() == statuses@.len(),
                forall|j: int| 0 <= j < shown.len() ==> shown[j] == statuses@[j]@,
                forall|j: int|
                    0 <= j < statuses@.len() ==> classified_by(
                        network_device,
                        #[trigger] statuses@[j],
                    ),
                net_dev_rows(data.take(i - 2)) == Ok::<Seq<NetDevice>, Seq<char>>(shown),
            decreases all@.len() - i,
        {
            let line = &all[i];
            proof {
                let next = data.take(i - 2 + 1);
                assert(next.drop_last() =~= data.take(i - 2));
                assert(next.last() == line@);
            }
            match parse_net_dev_line(line) {
                Err(message) => {
                    proof {
                        lemma_net_dev_error_stays(data, i - 2 + 1);
                    }
                    return Err(message);
                },
                Ok(row) => {
                    let name = row.device_name.as_str();
                    let is_physical = network_device.is_physical_interface(name);
                    let ghost asked = call_ensures(
                        U::is_physical_interface,
                        (network_device, name),
                        is_physical,
                    );
                    let ghost name_view = name@;
                    let status = ProcNetDevDeviceStatus::new(
                        row.device_name,
                        row.rx_bytes,
                        row.tx_bytes,
                        is_physical,
                    );
                    proof {
                        shown = shown.push(status@);
                        assert(asked && name_view == status.device_name@);
                        assert(classified_by(network_device, status));
                    }
                    statuses.push(status);
                },
            }
            i = i + 1;
        }
        assert(data.take(all@.len() - 2) =~= data);
        let status = ProcNetDevStatus::new(statuses);
        assert(status@ =~= shown);
        Ok(status)
    }
}

/// Parses one row of the table from its characters.
fn parse_net_dev_line(chars: &Vec<char>) -> (result: Result<ProcNetDevLine, String>)
    ensures
        match result {
            Ok(row) => net_dev_line(chars@) == Some(row@),
            Err(message) => net_dev_line(chars@) is None && message@ == net_dev_error(chars@),
        },
{
    let parts = split_whitespace(chars);
    if parts.len() < PROC_NET_DEV_COLUMNS {
        return Err(joined("Invalid file on line: ", chars));
    }
    assert(views(parts@)[PROC_NET_DEV_DEVICE_NAME_INDEX as int]
        == parts@[PROC_NET_DEV_DEVICE_NAME_INDEX as int]@);
    assert(views(parts@)[PROC_NET_DEV_RX_BYTES_INDEX as int]
        == parts@[PROC_NET_DEV_RX_BYTES_INDEX as int]@);
    assert(views(parts@)[PROC_NET_DEV_TX_BYTES_INDEX as int]
        == parts@[PROC_NET_DEV_TX_BYTES_INDEX as int]@);
    let name = &parts[PROC_NET_DEV_DEVICE_NAME_INDEX];
    let n: usize = name.len();
    let bare = if n > 0 && name[n - 1] == ':' {
        slice_of(name, 0, n - 1)
    } else {
        slice_of(name, 0, n)
    };
    assert(name@.subrange(0, n as int) =~= name@);
    let rx_bytes = parse_counter(&parts[PROC_NET_DEV_RX_BYTES_INDEX]);
    let tx_bytes = parse_counter(&parts[PROC_NET_DEV_TX_BYTES_INDEX]);
    Ok(ProcNetDevLine { device_name: string_of(&bare), rx_bytes, tx_bytes })
}

} // verus!
