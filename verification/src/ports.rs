//! The ports that are open on the host, read from the tables that Windows
//! hands out.
//!
//! The library does not ask the system: the caller does, and hands in what
//! the system answered. A table begins with the number of its rows, as four
//! bytes with the lowest first; the rows follow. Each row holds its local
//! port as two bytes in network order, the higher byte first.

use vstd::prelude::*;
use vstd::string::StringExecFns;

verus! {

/// The answer of the system that stands for success.
pub const NO_ERROR: u32 = 0;

/// The length of the count at the head of a table.
pub const HEADER_BYTES: u64 = 4;

/// The length of a row of the TCP table.
pub const TCP_ROW_BYTES: u64 = 20;

/// Where the local port stands in a row of the TCP table.
pub const TCP_PORT_AT: u64 = 8;

/// The length of a row of the UDP table.
pub const UDP_ROW_BYTES: u64 = 8;

/// Where the local port stands in a row of the UDP table.
pub const UDP_PORT_AT: u64 = 4;

/// Why the open ports could not be listed.
#[derive(Debug, Clone, Copy, PartialEq, Eq, Structural)]
pub enum PortError {
    /// The system did not hand out the table, or not all of it.
    GetTableFailed,
}

impl PortError {
    /// The error in words.
    pub fn message(&self) -> (text: String)
        ensures
            text@ == "Could not list open ports"@,
    {
        String::from_str("Could not list open ports")
    }
}

/// The number of rows that a table claims to hold.
pub open spec fn row_count(table: Seq<u8>) -> int {
    table[0] + 256 * table[1] + 65536 * table[2] + 16777216 * table[3]
}

/// Whether the table is whole: it holds its count and as many rows as the
/// count says.
pub open spec fn is_whole(table: Seq<u8>, row_bytes: int) -> bool {
    table.len() >= HEADER_BYTES && table.len() >= HEADER_BYTES + row_count(table) * row_bytes
}

/// The port that stands at `at`: two bytes, the higher one first.
pub open spec fn port_at(table: Seq<u8>, at: int) -> u16 {
    (256 * table[at] + table[at + 1]) as u16
}

/// The local ports of the rows of a table, in the order of the rows.
pub open spec fn local_ports(table: Seq<u8>, row_bytes: int, port_offset: int) -> Seq<u16> {
    Seq::new(
        row_count(table) as nat,
        |i: int| port_at(table, HEADER_BYTES + i * row_bytes + port_offset),
    )
}

fn count_rows(table: &Vec<u8>) -> (count: u64)
    requires
        table@.len() >= HEADER_BYTES,
    ensures
        count == row_count(table@),
        count <= 0xffff_ffff,
{
    (table[0] as u64) + 256 * (table[1] as u64) + 65536 * (table[2] as u64) + 16777216 * (
    table[3] as u64)
}

fn check_whole(table: &Vec<u8>, row_bytes: u64) -> (whole: bool)
    requires
        row_bytes <= 20,
    ensures
        whole == is_whole(table@, row_bytes as int),
{
    if table.len() < 4 {
        return false;
    }
    let count = count_rows(table);
    assert(count * row_bytes <= 0xffff_ffff * 20) by (nonlinear_arith)
        requires
            count <= 0xffff_ffff,
            row_bytes <= 20,
    ;
    table.len() as u64 >= 4 + count * row_bytes
}

fn read_port(table: &Vec<u8>, at: usize) -> (port: u16)
    requires
        at + 1 < table@.len(),
    ensures
        port == port_at(table@, at as int),
{
    let length = table.len();
    256 * (table[at] as u16) + (table[at + 1] as u16)
}

/// The table of TCP connections.
#[derive(Debug, PartialEq, Eq)]
pub struct TcpPortTable {
    inner_table: Vec<u8>,
}

/// The table of UDP listeners.
#[derive(Debug, PartialEq, Eq)]
pub struct UdpPortTable {
    inner_table: Vec<u8>,
}

/// Walks the rows of a TCP table.
#[derive(Debug)]
pub struct TcpPortTableIter<'table> {
    remaining_entry_count: usize,
    next_entry: usize,
    table: &'table TcpPortTable,
}

/// Walks the rows of a UDP table.
#[derive(Debug)]
pub struct UdpPortTableIter<'table> {
    remaining_entry_count: usize,
    next_entry: usize,
    table: &'table UdpPortTable,
}

impl View for TcpPortTable {
    type V = Seq<u16>;

    /// The local ports of the table, in the order of its rows.
    closed spec fn view(&self) -> Seq<u16> {
        local_ports(self.inner_table@, TCP_ROW_BYTES as int, TCP_PORT_AT as int)
    }
}

impl View for UdpPortTable {
    type V = Seq<u16>;

    /// The local ports of the table, in the order of its rows.
    closed spec fn view(&self) -> Seq<u16> {
        local_ports(self.inner_table@, UDP_ROW_BYTES as int, UDP_PORT_AT as int)
    }
}

impl TcpPortTable {
    #[verifier::type_invariant]
    spec fn well_formed(&self) -> bool {
        is_whole(self.inner_table@, TCP_ROW_BYTES as int)
    }

    /// The table that the system handed out. `status` is what the system
    /// answered and `buffer` what it wrote. There is no table where the
    /// system reported an error, and none where the buffer is shorter than
    /// the rows that it claims to hold.
    pub fn new(status: u32, buffer: Vec<u8>) -> (table: Result<Self, PortError>)
        ensures
            table is Ok <==> status == NO_ERROR && is_whole(buffer@, TCP_ROW_BYTES as int),
            table matches Ok(t) ==> t@ == local_ports(
                buffer@,
                TCP_ROW_BYTES as int,
                TCP_PORT_AT as int,
            ),
    {
        if status != NO_ERROR || !check_whole(&buffer, TCP_ROW_BYTES) {
            return Err(PortError::GetTableFailed);
        }
        Ok(TcpPortTable { inner_table: buffer })
    }

    /// Starts at the first row.
    pub fn iter(&self) -> (rows: TcpPortTableIter<'_>)
        ensures
            rows@ == self@,
    {
        proof {
            use_type_invariant(self);
        }
        let count = count_rows(&self.inner_table);
        assert(count * 20 >= count) by (nonlinear_arith)
            requires
                count >= 0,
        ;
        let rows = TcpPortTableIter {
            remaining_entry_count: count as usize,
            next_entry: 4,
            table: self,
        };
        assert(rows@ =~= self@);
        rows
    }
}

impl<'table> View for TcpPortTableIter<'table> {
    type V = Seq<u16>;

    /// The local ports of the rows that are still to come.
    closed spec fn view(&self) -> Seq<u16> {
        Seq::new(
            self.remaining_entry_count as nat,
            |i: int|
                port_at(self.table.inner_table@, self.next_entry + i * TCP_ROW_BYTES + TCP_PORT_AT),
        )
    }
}

impl<'table> TcpPortTableIter<'table> {
    #[verifier::type_invariant]
    spec fn well_formed(&self) -> bool {
        self.next_entry + self.remaining_entry_count * TCP_ROW_BYTES
            <= self.table.inner_table@.len()
    }

    /// The local port of the next row, if there is one.
    pub fn next(&mut self) -> (port: Option<u16>)
        ensures
            old(self)@.len() == 0 ==> port is None && final(self)@ == old(self)@,
            old(self)@.len() > 0 ==> port == Some(old(self)@[0]) && final(self)@ == old(
                self,
            )@.drop_first(),
    {
        proof {
            use_type_invariant(&*self);
        }
        if self.remaining_entry_count == 0 {
            return None;
        }
        let ghost before = self@;
        let ghost count = self.remaining_entry_count as int;
        let ghost start = self.next_entry as int;
        let length = self.table.inner_table.len();
        assert(count * 20 >= 20) by (nonlinear_arith)
            requires
                count >= 1,
        ;
        let port = read_port(&self.table.inner_table, self.next_entry + 8);
        assert(port == before[0]);
        let rest = self.remaining_entry_count - 1;
        let next = self.next_entry + 20;
        assert(next + rest * 20 == start + count * 20) by (nonlinear_arith)
            requires
                next == start + 20,
                rest == count - 1,
        ;
        *self = TcpPortTableIter { remaining_entry_count: rest, next_entry: next, table: self.table };
        proof {
            assert forall|i: int| 0 <= i < rest implies self@[i] == before.drop_first()[i] by {
                assert(next + i * 20 + 8 == start + (i + 1) * 20 + 8) by (nonlinear_arith)
                    requires
                        next == start + 20,
                ;
            }
            assert(self@ =~= before.drop_first());
        }
        Some(port)
    }
}

impl UdpPortTable {
    #[verifier::type_invariant]
    spec fn well_formed(&self) -> bool {
        is_whole(self.inner_table@, UDP_ROW_BYTES as int)
    }

    /// The table that the system handed out. `status` is what the system
    /// answered and `buffer` what it wrote. There is no table where the
    /// system reported an error, and none where the buffer is shorter than
    /// the rows that it claims to hold.
    pub fn new(status: u32, buffer: Vec<u8>) -> (table: Result<Self, PortError>)
        ensures
            table is Ok <==> status == NO_ERROR && is_whole(buffer@, UDP_ROW_BYTES as int),
            table matches Ok(t) ==> t@ == local_ports(
                buffer@,
                UDP_ROW_BYTES as int,
                UDP_PORT_AT as int,
            ),
    {
        if status != NO_ERROR || !check_whole(&buffer, UDP_ROW_BYTES) {
            return Err(PortError::GetTableFailed);
        }
        Ok(UdpPortTable { inner_table: buffer })
    }

    /// Starts at the first row.
    pub fn iter(&self) -> (rows: UdpPortTableIter<'_>)
        ensures
            rows@ == self@,
    {
        proof {
            use_type_invariant(self);
        }
        let count = count_rows(&self.inner_table);
        assert(count * 8 >= count) by (nonlinear_arith)
            requires
                count >= 0,
        ;
        let rows = UdpPortTableIter {
            remaining_entry_count: count as usize,
            next_entry: 4,
            table: self,
        };
        assert(rows@ =~= self@);
        rows
    }
}

impl<'table> View for UdpPortTableIter<'table> {
    type V = Seq<u16>;

    /// The local ports of the rows that are still to come.
    closed spec fn view(&self) -> Seq<u16> {
        Seq::new(
            self.remaining_entry_count as nat,
            |i: int|
                port_at(self.table.inner_table@, self.next_entry + i * UDP_ROW_BYTES + UDP_PORT_AT),
        )
    }
}

impl<'table> UdpPortTableIter<'table> {
    #[verifier::type_invariant]
    spec fn well_formed(&self) -> bool {
        self.next_entry + self.remaining_entry_count * UDP_ROW_BYTES
            <= self.table.inner_table@.len()
    }

    /// The local port of the next row, if there is one.
    pub fn next(&mut self) -> (port: Option<u16>)
        ensures
            old(self)@.len() == 0 ==> port is None && final(self)@ == old(self)@,
            old(self)@.len() > 0 ==> port == Some(old(self)@[0]) && final(self)@ == old(
                self,
            )@.drop_first(),
    {
        proof {
            use_type_invariant(&*self);
        }
        if self.remaining_entry_count == 0 {
            return None;
        }
        let ghost before = self@;
        let ghost count = self.remaining_entry_count as int;
        let ghost start = self.next_entry as int;
        let length = self.table.inner_table.len();
        assert(count * 8 >= 8) by (nonlinear_arith)
            requires
                count >= 1,
        ;
        let port = read_port(&self.table.inner_table, self.next_entry + 4);
        assert(port == before[0]);
        let rest = self.remaining_entry_count - 1;
        let next = self.next_entry + 8;
        assert(next + rest * 8 == start + count * 8) by (nonlinear_arith)
            requires
                next == start + 8,
                rest == count - 1,
        ;
        *self = UdpPortTableIter { remaining_entry_count: rest, next_entry: next, table: self.table };
        proof {
            assert forall|i: int| 0 <= i < rest implies self@[i] == before.drop_first()[i] by {
                assert(next + i * 8 + 4 == start + (i + 1) * 8 + 4) by (nonlinear_arith)
                    requires
                        next == start + 8,
                ;
            }
            assert(self@ =~= before.drop_first());
        }
        Some(port)
    }
}

} // verus!
